use vstd::prelude::*;

verus! {

/// The three logical streams of a request.
#[derive(Clone, Copy, Debug, PartialEq, Eq, Structural)]
pub enum StreamType {
    OutStream,
    InStream,
    ErrStream,
}

/// The stream references of one request cycle, one per logical stream.
pub struct Streams<S> {
    pub input: S,
    pub output: S,
    pub error: S,
}

impl<S> Streams<S> {
    /// The reference that a stream tag designates.
    pub open spec fn spec_select(&self, which: StreamType) -> &S {
        match which {
            StreamType::OutStream => &self.output,
            StreamType::InStream => &self.input,
            StreamType::ErrStream => &self.error,
        }
    }

    pub fn new(input: S, output: S, error: S) -> (r: Streams<S>)
        ensures
            r.input == input,
            r.output == output,
            r.error == error,
    {
        Streams { input, output, error }
    }

    /// Resolves a stream tag to the reference of that stream.
    pub fn select(&self, which: StreamType) -> (r: &S)
        ensures
            r == self.spec_select(which),
    {
        match which {
            StreamType::OutStream => &self.output,
            StreamType::InStream => &self.input,
            StreamType::ErrStream => &self.error,
        }
    }
}

} // verus!
