//! The write-only command/data sink that carries all traffic to the chip.
//!
//! The driver core is agnostic to the physical transport (I2C or SPI): the
//! application supplies an implementation of [`BusSink`] and the core only
//! relies on its contract. Two verified in-crate implementations record the
//! traffic so that the byte sequences the driver emits can be observed.

use vstd::prelude::*;
use vstd::slice::slice_to_vec;
use crate::error::TransportError;

verus! {

/// The ghost log of the payloads delivered on one channel, oldest first.
///
/// Implementations of [`BusSink`] outside this crate name this alias in the
/// two view methods; the methods are ghost and never called at run time.
pub type TrafficLog = Seq<Seq<u8>>;

/// The ghost tally of send attempts on a sink. Like [`TrafficLog`], it is
/// the alias outside implementations name for their ghost view method.
pub type AttemptCount = int;

/// The byte payloads of a log of transfers, oldest first.
pub open spec fn log_view(log: Seq<Vec<u8>>) -> Seq<Seq<u8>> {
    log.map_values(|v: Vec<u8>| v@)
}

proof fn lemma_log_view_push(log: Seq<Vec<u8>>, v: Vec<u8>)
    ensures
        log_view(log.push(v)) == log_view(log).push(v@),
{
    assert(log_view(log.push(v)) =~= log_view(log).push(v@));
}

/// A write-only display bus with separate command and data channels.
///
/// The two ghost views list every payload delivered so far on each channel,
/// oldest first, at whole-payload granularity: a successful send appends
/// exactly the given bytes to its channel, a failed send delivers nothing,
/// and either way the other channel is untouched and exactly one attempt is
/// counted. The driver aborts a sequence at its first failure, so a caller
/// can read off the delivered prefix from the attempt count.
pub trait BusSink {
    /// Command payloads delivered so far.
    spec fn cmds(&self) -> TrafficLog;

    /// Data payloads delivered so far.
    spec fn data(&self) -> TrafficLog;

    /// How many sends have been attempted on this sink, delivered or not.
    /// Every send counts exactly one attempt, so a caller's attempt count
    /// bounds its sink calls even on the failure path.
    spec fn attempts(&self) -> AttemptCount;

    /// Deliver one command payload.
    fn send_commands(&mut self, bytes: &[u8]) -> (r: Result<(), TransportError>)
        ensures
            final(self).attempts() == old(self).attempts() + 1,
            final(self).data() == old(self).data(),
            r is Ok ==> final(self).cmds() == old(self).cmds().push(bytes@),
            r is Err ==> final(self).cmds() == old(self).cmds(),
    ;

    /// Deliver one data payload.
    fn send_data(&mut self, bytes: &[u8]) -> (r: Result<(), TransportError>)
        ensures
            final(self).attempts() == old(self).attempts() + 1,
            final(self).cmds() == old(self).cmds(),
            r is Ok ==> final(self).data() == old(self).data().push(bytes@),
            r is Err ==> final(self).data() == old(self).data(),
    ;
}

/// A sink that never fails and records every payload.
#[derive(Debug)]
pub struct RecordingSink {
    /// Command payloads received, oldest first.
    pub cmd_log: Vec<Vec<u8>>,
    /// Data payloads received, oldest first.
    pub data_log: Vec<Vec<u8>>,
}

impl RecordingSink {
    /// An empty recording sink.
    pub fn new() -> (s: RecordingSink)
        ensures
            s.cmds() == Seq::<Seq<u8>>::empty(),
            s.data() == Seq::<Seq<u8>>::empty(),
            s.attempts() == 0,
    {
        let s = RecordingSink { cmd_log: Vec::new(), data_log: Vec::new() };
        proof {
            assert(s.cmds() =~= Seq::<Seq<u8>>::empty());
            assert(s.data() =~= Seq::<Seq<u8>>::empty());
        }
        s
    }
}

impl BusSink for RecordingSink {
    open spec fn cmds(&self) -> Seq<Seq<u8>> {
        log_view(self.cmd_log@)
    }

    open spec fn data(&self) -> Seq<Seq<u8>> {
        log_view(self.data_log@)
    }

    open spec fn attempts(&self) -> int {
        self.cmd_log@.len() + self.data_log@.len() as int
    }

    fn send_commands(&mut self, bytes: &[u8]) -> (r: Result<(), TransportError>)
        ensures
            r is Ok,
    {
        let copy = slice_to_vec(bytes);
        proof {
            lemma_log_view_push(self.cmd_log@, copy);
        }
        self.cmd_log.push(copy);
        Ok(())
    }

    fn send_data(&mut self, bytes: &[u8]) -> (r: Result<(), TransportError>)
        ensures
            r is Ok,
    {
        let copy = slice_to_vec(bytes);
        proof {
            lemma_log_view_push(self.data_log@, copy);
        }
        self.data_log.push(copy);
        Ok(())
    }
}

/// A sink that accepts a fixed number of payloads and then fails every
/// further send, recording what was accepted and counting every attempt.
pub struct FailingSink {
    /// Command payloads accepted, oldest first.
    pub cmd_log: Vec<Vec<u8>>,
    /// Data payloads accepted, oldest first.
    pub data_log: Vec<Vec<u8>>,
    /// Sends that will still be accepted before the sink starts failing.
    pub remaining: u64,
    /// Sends attempted so far, successful or not (saturating).
    pub attempts: u64,
    /// Ghost count of every send attempted; the run-time `attempts`
    /// counter mirrors it but saturates.
    pub tally: Ghost<int>,
}

impl FailingSink {
    /// A sink that accepts the next `succeed_for` sends and fails afterwards.
    pub fn new(succeed_for: u64) -> (s: FailingSink)
        ensures
            s.cmds() == Seq::<Seq<u8>>::empty(),
            s.data() == Seq::<Seq<u8>>::empty(),
            s.remaining == succeed_for,
            s.attempts == 0,
            s.attempts() == 0,
    {
        let s = FailingSink {
            cmd_log: Vec::new(),
            data_log: Vec::new(),
            remaining: succeed_for,
            attempts: 0,
            tally: Ghost(0),
        };
        proof {
            assert(s.cmds() =~= Seq::<Seq<u8>>::empty());
            assert(s.data() =~= Seq::<Seq<u8>>::empty());
        }
        s
    }
}

impl BusSink for FailingSink {
    open spec fn cmds(&self) -> Seq<Seq<u8>> {
        log_view(self.cmd_log@)
    }

    open spec fn data(&self) -> Seq<Seq<u8>> {
        log_view(self.data_log@)
    }

    open spec fn attempts(&self) -> int {
        self.tally@
    }

    fn send_commands(&mut self, bytes: &[u8]) -> (r: Result<(), TransportError>)
        ensures
            r is Ok <==> old(self).remaining > 0,
            old(self).remaining > 0 ==> final(self).remaining == old(self).remaining - 1,
            old(self).remaining == 0 ==> final(self).remaining == 0,
    {
        if self.attempts < u64::MAX {
            self.attempts = self.attempts + 1;
        }
        self.tally = Ghost(self.tally@ + 1);
        if self.remaining == 0 {
            return Err(TransportError);
        }
        self.remaining = self.remaining - 1;
        let copy = slice_to_vec(bytes);
        proof {
            lemma_log_view_push(self.cmd_log@, copy);
        }
        self.cmd_log.push(copy);
        Ok(())
    }

    fn send_data(&mut self, bytes: &[u8]) -> (r: Result<(), TransportError>)
        ensures
            r is Ok <==> old(self).remaining > 0,
            old(self).remaining > 0 ==> final(self).remaining == old(self).remaining - 1,
            old(self).remaining == 0 ==> final(self).remaining == 0,
    {
        if self.attempts < u64::MAX {
            self.attempts = self.attempts + 1;
        }
        self.tally = Ghost(self.tally@ + 1);
        if self.remaining == 0 {
            return Err(TransportError);
        }
        self.remaining = self.remaining - 1;
        let copy = slice_to_vec(bytes);
        proof {
            lemma_log_view_push(self.data_log@, copy);
        }
        self.data_log.push(copy);
        Ok(())
    }
}

} // verus!
