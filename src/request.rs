use vstd::prelude::*;
use crate::marshal::{c_text, decode_lossy, has_nul, lossy_text, terminated};
use crate::stream::{StreamType, Streams};
use vstd::string::StringSliceAdditionalSpecFns;

verus! {

/// Process-wide state of the native runtime: whether its one-time
/// initialization succeeded.
pub struct Runtime {
    ready: bool,
}

impl Runtime {
    pub closed spec fn spec_ready(&self) -> bool {
        self.ready
    }

    /// Records the status of the native runtime initialization, which
    /// reports success as zero.
    pub fn from_status(status: i32) -> (r: Runtime)
        ensures
            r.spec_ready() == (status == 0),
    {
        Runtime { ready: status == 0 }
    }

    pub fn is_ready(&self) -> (r: bool)
        ensures
            r == self.spec_ready(),
    {
        self.ready
    }
}

/// Where a request handle stands in its cycle.
#[derive(Clone, Copy, Debug, PartialEq, Eq, Structural)]
pub enum Phase {
    /// Constructed, no request accepted yet.
    Idle,
    /// A request was accepted: its streams and parameters may be used.
    Active,
    /// The request was finished: the handle waits for the next accept.
    Finished,
}

/// The lifecycle of one native request record, owned by one worker.
///
/// Stream and parameter operations are only admitted while the handle is
/// active, that is between a successful accept and the finish of that cycle.
pub struct DefaultRequest {
    phase: Phase,
}

impl DefaultRequest {
    pub closed spec fn spec_phase(&self) -> Phase {
        self.phase
    }

    pub open spec fn spec_active(&self) -> bool {
        self.spec_phase() == Phase::Active
    }

    /// A handle for a record whose native initialization returned
    /// `init_status`; there is none unless that status is zero.
    pub fn new(runtime: &Runtime, init_status: i32) -> (r: Option<DefaultRequest>)
        requires
            runtime.spec_ready(),
        ensures
            r is Some <==> init_status == 0,
            r matches Some(q) ==> q.spec_phase() == Phase::Idle,
    {
        if init_status == 0 {
            Some(DefaultRequest { phase: Phase::Idle })
        } else {
            None
        }
    }

    /// A handle fresh from construction, or one whose cycle was finished,
    /// admits no stream or parameter operation until an accept succeeds.
    pub proof fn lemma_inactive_until_accept(&self)
        requires
            self.spec_phase() != Phase::Active,
        ensures
            !self.spec_active(),
    {
    }

    pub fn phase(&self) -> (r: Phase)
        ensures
            r == self.spec_phase(),
    {
        self.phase
    }

    pub fn is_active(&self) -> (r: bool)
        ensures
            r == self.spec_active(),
    {
        self.phase == Phase::Active
    }

    /// Records the status of the native accept. A zero status starts a new
    /// request cycle; any other status means the channel was shut down and
    /// leaves the handle as it was.
    pub fn accept(&mut self, accept_status: i32) -> (r: bool)
        requires
            !old(self).spec_active(),
        ensures
            r == (accept_status == 0),
            final(self).spec_phase() == if r {
                Phase::Active
            } else {
                old(self).spec_phase()
            },
    {
        if accept_status == 0 {
            self.phase = Phase::Active;
            true
        } else {
            false
        }
    }

    /// Closes the current request cycle.
    pub fn finish(&mut self)
        requires
            old(self).spec_active(),
        ensures
            final(self).spec_phase() == Phase::Finished,
    {
        self.phase = Phase::Finished;
    }

    /// The zero-terminated name to look up in the request's parameters;
    /// none for a name that holds a zero byte.
    pub fn param_query(&self, name: &str) -> (r: Option<Vec<u8>>)
        requires
            self.spec_active(),
        ensures
            r is None <==> has_nul(name.spec_bytes()),
            r matches Some(t) ==> t@ == terminated(name.spec_bytes()),
    {
        c_text(name.as_bytes())
    }

    /// The value of a parameter from what the lookup found: absent stays
    /// absent, and a value that is present is decoded, even when it is empty.
    pub fn get_param(&self, found: Option<&[u8]>) -> (r: Option<String>)
        requires
            self.spec_active(),
        ensures
            r is Some <==> found is Some,
            found matches Some(b) ==> r->0@ == lossy_text(b@),
    {
        match found {
            Some(b) => Some(decode_lossy(b)),
            None => None,
        }
    }

    /// The zero-terminated bytes that writing `msg` to the output or error
    /// stream hands to the native side; none for text that holds a zero byte.
    pub fn write(&self, msg: &str) -> (r: Option<Vec<u8>>)
        requires
            self.spec_active(),
        ensures
            r is None <==> has_nul(msg.spec_bytes()),
            r matches Some(t) ==> t@ == terminated(msg.spec_bytes()),
    {
        c_text(msg.as_bytes())
    }

    /// The result of reading up to `n` bytes, from the bytes that the native
    /// read delivered: their text and their count. A count below `n` means
    /// that the input has ended.
    pub fn read(&self, n: i32, chunk: &[u8]) -> (r: (String, i32))
        requires
            self.spec_active(),
            0 <= n,
            chunk@.len() <= n,
        ensures
            r.0@ == lossy_text(chunk@),
            r.1 == chunk@.len(),
    {
        (decode_lossy(chunk), chunk.len() as i32)
    }

    /// The stream that flushing `which` acts on in this request cycle.
    pub fn flush<'a, S>(&self, streams: &'a Streams<S>, which: StreamType) -> (r: &'a S)
        requires
            self.spec_active(),
        ensures
            r == streams.spec_select(which),
    {
        streams.select(which)
    }
}

} // verus!
