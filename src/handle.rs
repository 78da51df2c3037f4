use vstd::prelude::*;
use crate::stream::StreamType;

verus! {

/// Operations on a FastCGI request object, for an implementation that owns
/// a native request record. Stream and parameter operations belong between a
/// successful `accept` and the `finish` of that cycle.
pub trait Request: Sized {
    /// A new request object, already initialized; none when the native
    /// initialization failed.
    fn new() -> Option<Self>;

    /// Waits for a new request. False when the channel was shut down.
    fn accept(&mut self) -> bool;

    /// Closes the current request.
    fn finish(&mut self);

    /// The value of a request parameter; none when it is not set.
    fn get_param(&self, name: &str) -> Option<String>;

    /// Writes text to the output stream and returns the native byte count.
    fn write(&mut self, msg: &str) -> i32;

    /// Writes text to the error stream and returns the native byte count.
    fn error(&mut self, msg: &str) -> i32;

    /// Reads the whole input as text; empty when there was none.
    fn readall(&mut self) -> String;

    /// Reads up to `n` bytes of input: their text and their count. A count
    /// below `n` means that the input has ended.
    fn read(&mut self, n: i32) -> (String, i32);

    /// Flushes buffered output of a stream.
    fn flush(&mut self, stream_type: StreamType);
}

} // verus!
