use vstd::prelude::*;

use crate::config::{AccelerometerError, AccelerometerResult};

verus! {

/// Where a byte read from a register is kept for a later write.
#[derive(Clone, Copy, Debug, PartialEq, Eq, Structural)]
pub enum Slot {
    /// Overwritten by every read into it; for read-modify-write steps.
    Latest,
    /// Kept across other reads; for a value computed from an earlier read.
    Saved,
}

/// One step of a register protocol.
#[derive(Clone, Copy, Debug, PartialEq, Eq, Structural)]
pub enum BusOp {
    /// Write `value` to `register`.
    Write { register: u8, value: u8 },
    /// Read one byte from `register` and keep it in `slot`.
    Read { register: u8, slot: Slot },
    /// Write `(kept & mask) | bits` to `register`, `kept` being the byte in `slot`.
    WriteFrom { register: u8, slot: Slot, mask: u8, bits: u8 },
    /// Read one byte from `register`; any byte but `value` ends the protocol
    /// with `InvalidInputDataError`.
    Expect { register: u8, value: u8 },
    /// Wait `nanos` nanoseconds before the next step.
    Delay { nanos: u64 },
}

/// What the bus owner has to do next.
#[derive(Clone, Copy, Debug, PartialEq, Eq, Structural)]
pub enum BusRequest {
    /// Write the two bytes `[register, value]`.
    Write { register: u8, value: u8 },
    /// Write `[register]`, then read one byte.
    Read { register: u8 },
    /// Sleep for `nanos` nanoseconds.
    Delay { nanos: u64 },
    /// Nothing is left to do: the protocol is complete or has failed.
    Finished,
}

/// A register protocol in progress: the steps, how far they went, and the
/// bytes kept from earlier reads.
pub struct Session {
    ops: Vec<BusOp>,
    pos: usize,
    latest: u8,
    saved: u8,
    stopped: bool,
}

impl Session {
    pub closed spec fn ops(self) -> Seq<BusOp> {
        self.ops@
    }

    /// Number of steps completed.
    pub closed spec fn position(self) -> nat {
        self.pos as nat
    }

    pub closed spec fn kept(self, slot: Slot) -> u8 {
        match slot {
            Slot::Latest => self.latest,
            Slot::Saved => self.saved,
        }
    }

    /// The protocol failed and issues nothing more.
    pub closed spec fn stopped(self) -> bool {
        self.stopped
    }

    pub closed spec fn wf(self) -> bool {
        self.pos <= self.ops@.len()
    }

    /// Every step ran and none failed.
    pub open spec fn spec_succeeded(self) -> bool {
        !self.stopped() && self.position() == self.ops().len()
    }

    /// The request for step `op`, given the bytes kept so far.
    pub open spec fn request_for(self, op: BusOp) -> BusRequest {
        match op {
            BusOp::Write { register, value } => BusRequest::Write { register, value },
            BusOp::Read { register, slot } => BusRequest::Read { register },
            BusOp::WriteFrom { register, slot, mask, bits } => BusRequest::Write {
                register,
                value: (self.kept(slot) & mask) | bits,
            },
            BusOp::Expect { register, value } => BusRequest::Read { register },
            BusOp::Delay { nanos } => BusRequest::Delay { nanos },
        }
    }

    pub open spec fn pending(self) -> BusRequest {
        if self.stopped() || self.position() >= self.ops().len() {
            BusRequest::Finished
        } else {
            self.request_for(self.ops()[self.position() as int])
        }
    }

    /// The current step, where one is pending.
    pub open spec fn current(self) -> BusOp {
        self.ops()[self.position() as int]
    }

    /// A session about to run `ops` from the first.
    pub fn new(ops: Vec<BusOp>) -> (r: Session)
        ensures
            r.wf(),
            r.ops() == ops@,
            r.position() == 0,
            !r.stopped(),
            r.kept(Slot::Latest) == 0,
            r.kept(Slot::Saved) == 0,
    {
        Session { ops, pos: 0, latest: 0, saved: 0, stopped: false }
    }

    /// What the bus owner must do next.
    pub fn request(&self) -> (r: BusRequest)
        requires
            self.wf(),
        ensures
            r == self.pending(),
    {
        if self.stopped || self.pos >= self.ops.len() {
            return BusRequest::Finished;
        }
        match self.ops[self.pos] {
            BusOp::Write { register, value } => BusRequest::Write { register, value },
            BusOp::Read { register, slot } => BusRequest::Read { register },
            BusOp::WriteFrom { register, slot, mask, bits } => {
                let kept = match slot {
                    Slot::Latest => self.latest,
                    Slot::Saved => self.saved,
                };
                BusRequest::Write { register, value: (kept & mask) | bits }
            },
            BusOp::Expect { register, value } => BusRequest::Read { register },
            BusOp::Delay { nanos } => BusRequest::Delay { nanos },
        }
    }

    /// Whether every step ran and none failed.
    pub fn succeeded(&self) -> (r: bool)
        ensures
            r == self.spec_succeeded(),
    {
        !self.stopped && self.pos == self.ops.len()
    }

    /// Records the outcome of the pending write.
    pub fn complete_write(&mut self, outcome: Result<(), String>) -> (r: AccelerometerResult<()>)
        requires
            old(self).wf(),
            old(self).pending() is Write,
        ensures
            final(self).wf(),
            final(self).ops() == old(self).ops(),
            final(self).kept(Slot::Latest) == old(self).kept(Slot::Latest),
            final(self).kept(Slot::Saved) == old(self).kept(Slot::Saved),
            match outcome {
                Ok(_) => r is Ok && !final(self).stopped() && final(self).position() == old(
                    self,
                ).position() + 1,
                Err(e) => r == Err::<(), AccelerometerError>(AccelerometerError::I2CBusError(e))
                    && final(self).stopped() && final(self).position() == old(self).position(),
            },
    {
        proof {
            assert(self.pos < self.ops.len());
        }
        match outcome {
            Ok(_) => {
                self.pos = self.pos + 1;
                Ok(())
            },
            Err(e) => {
                self.stopped = true;
                Err(AccelerometerError::I2CBusError(e))
            },
        }
    }

    /// Records the outcome of the pending delay.
    pub fn complete_delay(&mut self)
        requires
            old(self).wf(),
            old(self).pending() is Delay,
        ensures
            final(self).wf(),
            final(self).ops() == old(self).ops(),
            final(self).kept(Slot::Latest) == old(self).kept(Slot::Latest),
            final(self).kept(Slot::Saved) == old(self).kept(Slot::Saved),
            !final(self).stopped(),
            final(self).position() == old(self).position() + 1,
    {
        proof {
            assert(self.pos < self.ops.len());
        }
        self.pos = self.pos + 1;
    }

    /// Records the outcome of the pending read: keeps the byte, or checks it
    /// against the expected one.
    pub fn complete_read(&mut self, outcome: Result<u8, String>) -> (r: AccelerometerResult<()>)
        requires
            old(self).wf(),
            old(self).pending() is Read,
        ensures
            final(self).wf(),
            final(self).ops() == old(self).ops(),
            match outcome {
                Err(e) => r == Err::<(), AccelerometerError>(AccelerometerError::I2CBusError(e))
                    && final(self).stopped() && final(self).position() == old(self).position()
                    && final(self).kept(Slot::Latest) == old(self).kept(Slot::Latest)
                    && final(self).kept(Slot::Saved) == old(self).kept(Slot::Saved),
                Ok(b) => match old(self).current() {
                    BusOp::Expect { register, value } => if b == value {
                        r is Ok && !final(self).stopped() && final(self).position() == old(
                            self,
                        ).position() + 1 && final(self).kept(Slot::Latest) == old(self).kept(
                            Slot::Latest,
                        ) && final(self).kept(Slot::Saved) == old(self).kept(Slot::Saved)
                    } else {
                        r == Err::<(), AccelerometerError>(
                            AccelerometerError::InvalidInputDataError,
                        ) && final(self).stopped() && final(self).position() == old(
                            self,
                        ).position()
                    },
                    BusOp::Read { register, slot } => r is Ok && !final(self).stopped()
                        && final(self).position() == old(self).position() + 1 && final(self).kept(
                        slot,
                    ) == b && (slot == Slot::Latest ==> final(self).kept(Slot::Saved) == old(
                        self,
                    ).kept(Slot::Saved)) && (slot == Slot::Saved ==> final(self).kept(
                        Slot::Latest,
                    ) == old(self).kept(Slot::Latest)),
                    _ => false,
                },
            },
    {
        proof {
            assert(self.pos < self.ops.len());
        }
        match outcome {
            Err(e) => {
                self.stopped = true;
                Err(AccelerometerError::I2CBusError(e))
            },
            Ok(b) => {
                match self.ops[self.pos] {
                    BusOp::Expect { register, value } => {
                        if b == value {
                            self.pos = self.pos + 1;
                            Ok(())
                        } else {
                            self.stopped = true;
                            Err(AccelerometerError::InvalidInputDataError)
                        }
                    },
                    BusOp::Read { register, slot } => {
                        match slot {
                            Slot::Latest => {
                                self.latest = b;
                            },
                            Slot::Saved => {
                                self.saved = b;
                            },
                        }
                        self.pos = self.pos + 1;
                        Ok(())
                    },
                    _ => Ok(()),
                }
            },
        }
    }
}

/// A failed protocol issues nothing more: whatever step it stopped at, the
/// bus owner is told that it is finished.
pub proof fn lemma_stopped_is_final(s: Session)
    requires
        s.stopped(),
    ensures
        s.pending() == BusRequest::Finished,
{
}

} // verus!
