use vstd::prelude::*;
use crate::counter::seq_sum;

verus! {

/// Forward a count delta to the aggregator after this many successful
/// echoes, so the mailbox is not contended on every packet.
pub const BATCH_SIZE: u64 = 10000;

/// What one non-blocking poll of a worker's socket produced, as the
/// serving loop sees it.
#[derive(Debug, Clone, Copy, PartialEq, Eq, Structural)]
pub enum RecvEvent {
    /// The shutdown signal arrived.
    Shutdown,
    /// A datagram of `len` payload bytes arrived.
    Packet { len: usize },
    /// Nothing to read right now — the expected idle case.
    RecvWouldBlock,
    /// The receive failed with the given raw OS error.
    RecvFailed(i32),
}

/// What the serving loop does next.
#[derive(Debug, Clone, Copy, PartialEq, Eq, Structural)]
pub enum RecvAction {
    /// Leave the serving loop; the thread becomes joinable.
    ExitLoop,
    /// Echo the received payload back to its sender.
    EchoBack,
    /// Poll again immediately; a failed receive is logged, never fatal.
    KeepPolling,
}

/// What one attempt to send the echo back produced.
#[derive(Debug, Clone, Copy, PartialEq, Eq, Structural)]
pub enum SendEvent {
    /// The datagram went out.
    Sent,
    /// No buffer space right now.
    SendWouldBlock,
    /// The send failed with the given raw OS error.
    SendFailed(i32),
}

/// What the inner retry loop does next.
#[derive(Debug, Clone, Copy, PartialEq, Eq, Structural)]
pub enum SendAction {
    /// Count the echo and return to polling.
    CountAndContinue,
    /// Busy-poll: retry the same send immediately, with no backoff.
    RetryNow,
    /// Abandon this one packet's echo (logged); the loop goes on.
    AbandonPacket,
}

/// The serving loop's outer decision: shutdown wins over traffic; a
/// packet is echoed; would-block and receive errors both keep polling.
pub fn on_recv_event(shutdown: bool, ev: &RecvEvent) -> (a: RecvAction)
    ensures
        a == (if shutdown {
            RecvAction::ExitLoop
        } else {
            match ev {
                RecvEvent::Shutdown => RecvAction::ExitLoop,
                RecvEvent::Packet { .. } => RecvAction::EchoBack,
                RecvEvent::RecvWouldBlock => RecvAction::KeepPolling,
                RecvEvent::RecvFailed(_) => RecvAction::KeepPolling,
            }
        }),
{
    if shutdown {
        RecvAction::ExitLoop
    } else {
        match ev {
            RecvEvent::Shutdown => RecvAction::ExitLoop,
            RecvEvent::Packet { .. } => RecvAction::EchoBack,
            RecvEvent::RecvWouldBlock => RecvAction::KeepPolling,
            RecvEvent::RecvFailed(_) => RecvAction::KeepPolling,
        }
    }
}

/// The inner retry decision: only would-block retries; any other error
/// abandons this packet; success counts it.
pub fn on_send_event(ev: &SendEvent) -> (a: SendAction)
    ensures
        a == (match ev {
            SendEvent::Sent => SendAction::CountAndContinue,
            SendEvent::SendWouldBlock => SendAction::RetryNow,
            SendEvent::SendFailed(_) => SendAction::AbandonPacket,
        }),
{
    match ev {
        SendEvent::Sent => SendAction::CountAndContinue,
        SendEvent::SendWouldBlock => SendAction::RetryNow,
        SendEvent::SendFailed(_) => SendAction::AbandonPacket,
    }
}

/// The exact bytes to echo: the first `len` bytes of the receive
/// buffer, unchanged.
pub fn echo_payload(buf: &[u8], len: usize) -> (r: Vec<u8>)
    requires
        len <= buf@.len(),
    ensures
        r@ == buf@.take(len as int),
{
    let mut out: Vec<u8> = Vec::new();
    let mut i: usize = 0;
    while i < len
        invariant
            len <= buf@.len(),
            0 <= i <= len,
            out@ =~= buf@.take(i as int),
        decreases len - i,
    {
        out.push(*vstd::slice::slice_index_get(buf, i));
        assert(buf@.take(i + 1) =~= buf@.take(i as int).push(buf@[i as int]));
        i = i + 1;
    }
    out
}

/// A worker's private echo count since its last flush to the
/// aggregator's mailbox.
#[derive(Debug, Clone, Copy, PartialEq, Eq, Structural)]
pub struct EchoBatcher {
    pub pending: u64,
}

impl EchoBatcher {
    /// The pending count stays strictly below the batch size.
    pub open spec fn wf(&self) -> bool {
        self.pending < BATCH_SIZE
    }

    pub fn new() -> (r: Self)
        ensures
            r.pending == 0,
            r.wf(),
    {
        EchoBatcher { pending: 0 }
    }

    /// Count one successful echo. Every `BATCH_SIZE`-th echo yields the
    /// delta to forward — always exactly `BATCH_SIZE` — and the pending
    /// count starts over.
    pub fn record_success(&mut self) -> (flush: Option<u64>)
        requires
            old(self).wf(),
        ensures
            final(self).wf(),
            old(self).pending + 1 == BATCH_SIZE ==> flush == Some(BATCH_SIZE)
                && final(self).pending == 0,
            old(self).pending + 1 < BATCH_SIZE ==> flush == None::<u64>
                && final(self).pending == old(self).pending + 1,
    {
        if self.pending + 1 == BATCH_SIZE {
            self.pending = 0;
            Some(BATCH_SIZE)
        } else {
            self.pending = self.pending + 1;
            None
        }
    }
}

/// The batcher's pending count and the deltas it has flushed, after
/// `k` successful echoes from a fresh batcher.
pub open spec fn batch_run(k: nat) -> (u64, Seq<u64>)
    decreases k,
{
    if k == 0 {
        (0u64, Seq::empty())
    } else {
        let prev = batch_run((k - 1) as nat);
        if prev.0 + 1 == BATCH_SIZE {
            (0u64, prev.1.push(BATCH_SIZE))
        } else {
            (((prev.0 + 1) as u64), prev.1)
        }
    }
}

/// Law: batching loses nothing. After `k` successful echoes, the
/// deltas flushed to the aggregator plus the worker's pending count
/// account for exactly `k` echoes; every flushed delta is exactly the
/// batch size; and the pending remainder stays below it.
pub proof fn lemma_batch_conserves(k: nat)
    ensures
        seq_sum(batch_run(k).1) + batch_run(k).0 == k,
        batch_run(k).0 < BATCH_SIZE,
        seq_sum(batch_run(k).1) % (BATCH_SIZE as int) == 0,
        forall|i: int|
            0 <= i < batch_run(k).1.len() ==> batch_run(k).1[i] == BATCH_SIZE,
    decreases k,
{
    if k > 0 {
        lemma_batch_conserves((k - 1) as nat);
        let prev = batch_run((k - 1) as nat);
        if prev.0 + 1 == BATCH_SIZE {
            assert(batch_run(k).1.drop_last() =~= prev.1);
        }
    }
}

/// Law: after exactly `k` successful echoes with `k` a multiple of the
/// batch size, nothing is left pending on the worker, and an
/// aggregator that has folded in every flushed delta holds exactly `k`.
pub proof fn lemma_counter_matches_echoes(k: nat)
    requires
        k % (BATCH_SIZE as nat) == 0,
        k <= u64::MAX,
    ensures
        batch_run(k).0 == 0,
        crate::counter::total_after(batch_run(k).1) == k,
{
    lemma_batch_conserves(k);
    let pending = batch_run(k).0;
    let flushed = seq_sum(batch_run(k).1);
    assert(pending == k - flushed);
    assert((k - flushed) % (BATCH_SIZE as int) == 0) by {
        assert((k as int) % (BATCH_SIZE as int) == 0);
        assert(flushed % (BATCH_SIZE as int) == 0);
        vstd::arithmetic::div_mod::lemma_sub_mod_noop(k as int, flushed, BATCH_SIZE as int);
    }
    assert(pending == 0) by {
        vstd::arithmetic::div_mod::lemma_small_mod(pending as nat, BATCH_SIZE as nat);
    }
    crate::counter::lemma_total_is_sum(batch_run(k).1);
}

} // verus!
