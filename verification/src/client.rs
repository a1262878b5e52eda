use vstd::prelude::*;

verus! {

/// Print a progress line every this many counted replies.
pub const CLIENT_REPORT_EVERY: u32 = 100;

/// One load-generator endpoint: the server it targets and how many
/// messages it sends per socket.
#[derive(Debug, Clone, PartialEq)]
pub struct Socket {
    pub server: String,
    pub count: u32,
}

impl Socket {
    /// A generator aimed at `server`, sending `count` messages.
    pub fn new(server: &str, count: u32) -> (r: Self)
        ensures
            r.server@ == server@,
            r.count == count,
    {
        Socket { server: server.to_owned(), count }
    }
}

/// The generator thread's decision: keep handing packets to the sender
/// only while fewer than the configured count have been queued.
pub fn should_send(queued: u32, limit: u32) -> (r: bool)
    ensures
        r == (queued < limit),
{
    queued < limit
}

/// The reply counter owned by the thread that tallies round-tripped
/// replies for one client socket.
#[derive(Debug, Clone, Copy, PartialEq, Eq, Structural)]
pub struct ReplyCounter {
    pub counted: u32,
    pub limit: u32,
}

impl ReplyCounter {
    pub open spec fn wf(&self) -> bool {
        self.counted <= self.limit
    }

    /// A fresh counter that stops once `limit` replies are in.
    pub fn new(limit: u32) -> (r: Self)
        ensures
            r.counted == 0 && r.limit == limit,
            r.wf(),
    {
        ReplyCounter { counted: 0, limit }
    }

    /// Count one reply. `report` says a progress line is due; `done`
    /// says the configured count is reached and the threads wind down.
    pub fn on_reply(&mut self) -> (r: (bool, bool))
        requires
            old(self).wf(),
            old(self).counted < old(self).limit,
        ensures
            final(self).wf(),
            final(self).counted == old(self).counted + 1,
            final(self).limit == old(self).limit,
            r.0 == (final(self).counted % CLIENT_REPORT_EVERY == 0),
            r.1 == (final(self).counted == final(self).limit),
    {
        self.counted = self.counted + 1;
        let report: bool = self.counted % CLIENT_REPORT_EVERY == 0;
        let done: bool = self.counted == self.limit;
        (report, done)
    }
}

} // verus!
