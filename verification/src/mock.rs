//! A scripted transport and a logging delay provider. They are the in-crate
//! implementations that hold the boundary traits to their contracts, and they
//! let tests drive the sensor protocol without hardware.

use vstd::prelude::*;
use crate::transport::{BusOp, Delay, Transport, lemma_extends_refl};

verus! {

/// One recorded bus transaction: the runtime twin of `BusOp`.
#[derive(Debug)]
pub enum RecordedOp {
    Write { address: u8, data: Vec<u8> },
    WriteRead { address: u8, data: Vec<u8>, response: Vec<u8> },
    Read { address: u8, response: Vec<u8> },
}

impl View for RecordedOp {
    type V = BusOp;

    open spec fn view(&self) -> BusOp {
        match self {
            RecordedOp::Write { address, data } => BusOp::Write {
                address: *address,
                data: data@,
            },
            RecordedOp::WriteRead { address, data, response } => BusOp::WriteRead {
                address: *address,
                data: data@,
                response: response@,
            },
            RecordedOp::Read { address, response } => BusOp::Read {
                address: *address,
                response: response@,
            },
        }
    }
}

/// The abstract history a recorded log stands for.
pub open spec fn view_of_log(log: Seq<RecordedOp>) -> Seq<BusOp> {
    log.map_values(|op: RecordedOp| op@)
}

proof fn lemma_view_of_log_push(log: Seq<RecordedOp>, op: RecordedOp)
    ensures
        view_of_log(log.push(op)) == view_of_log(log).push(op@),
{
    assert(view_of_log(log.push(op)) =~= view_of_log(log).push(op@));
}

/// What a `ScriptedTransport` reports when it cannot serve a transaction.
#[derive(Debug, Clone, Copy, PartialEq, Eq, Structural)]
pub enum ScriptFault {
    /// every scripted response is already consumed
    Exhausted,
    /// the next scripted response does not have the requested length
    WrongLength,
}

/// Byte-for-byte copy; the mock records owned copies of what it saw.
fn copy_bytes(v: &Vec<u8>) -> (r: Vec<u8>)
    ensures
        r@ == v@,
{
    let mut r: Vec<u8> = Vec::new();
    let mut i: usize = 0;
    while i < v.len()
        invariant
            i <= v.len(),
            r@ == v@.subrange(0, i as int),
        decreases v.len() - i,
    {
        r.push(v[i]);
        i = i + 1;
        proof {
            assert(r@ =~= v@.subrange(0, i as int));
        }
    }
    proof {
        assert(v@.subrange(0, v.len() as int) =~= v@);
    }
    r
}

/// A transport whose responses are scripted in advance and that records every
/// transaction it performs. Responses are consumed front to back by the
/// transactions that read; a reading transaction faults when the script is
/// exhausted or the next scripted response has the wrong length, and a
/// faulted transaction never reaches the recorded history.
pub struct ScriptedTransport {
    /// scripted responses, consumed front to back
    responses: Vec<Vec<u8>>,
    /// index of the next unconsumed scripted response
    next: usize,
    /// every transaction performed, oldest first
    pub log: Vec<RecordedOp>,
}

impl ScriptedTransport {
    /// A transport with an empty script and an empty history.
    pub fn new() -> (r: Self)
        ensures
            r.ops() == Seq::<BusOp>::empty(),
    {
        let r = ScriptedTransport { responses: Vec::new(), next: 0, log: Vec::new() };
        proof {
            assert(r.ops() =~= Seq::<BusOp>::empty());
        }
        r
    }

    /// Append one response to the script. The recorded history is untouched.
    pub fn push_response(&mut self, response: Vec<u8>)
        ensures
            final(self).ops() == old(self).ops(),
    {
        self.responses.push(response);
    }

    /// How many transactions were performed so far.
    pub fn call_count(&self) -> (n: usize)
        ensures
            n == self.ops().len(),
    {
        self.log.len()
    }
}

impl Transport for ScriptedTransport {
    type Fault = ScriptFault;

    closed spec fn ops(&self) -> Seq<BusOp> {
        view_of_log(self.log@)
    }

    fn write(&mut self, address: u8, bytes: &Vec<u8>) -> (r: Result<(), ScriptFault>) {
        let data = copy_bytes(bytes);
        let op = RecordedOp::Write { address, data };
        proof {
            lemma_view_of_log_push(self.log@, op);
        }
        self.log.push(op);
        Ok(())
    }

    fn write_read(&mut self, address: u8, data: &Vec<u8>, read_len: usize) -> (r: Result<
        Vec<u8>,
        ScriptFault,
    >) {
        if self.next >= self.responses.len() {
            proof {
                lemma_extends_refl(self.ops());
            }
            return Err(ScriptFault::Exhausted);
        }
        let response = copy_bytes(&self.responses[self.next]);
        self.next = self.next + 1;
        if response.len() != read_len {
            proof {
                lemma_extends_refl(self.ops());
            }
            return Err(ScriptFault::WrongLength);
        }
        let recorded = RecordedOp::WriteRead {
            address,
            data: copy_bytes(data),
            response: copy_bytes(&response),
        };
        proof {
            lemma_view_of_log_push(self.log@, recorded);
        }
        self.log.push(recorded);
        Ok(response)
    }

    fn read(&mut self, address: u8, read_len: usize) -> (r: Result<Vec<u8>, ScriptFault>) {
        if self.next >= self.responses.len() {
            proof {
                lemma_extends_refl(self.ops());
            }
            return Err(ScriptFault::Exhausted);
        }
        let response = copy_bytes(&self.responses[self.next]);
        self.next = self.next + 1;
        if response.len() != read_len {
            proof {
                lemma_extends_refl(self.ops());
            }
            return Err(ScriptFault::WrongLength);
        }
        let recorded = RecordedOp::Read { address, response: copy_bytes(&response) };
        proof {
            lemma_view_of_log_push(self.log@, recorded);
        }
        self.log.push(recorded);
        Ok(response)
    }
}

/// A delay provider that waits for no time at all, recording every wait it
/// was asked to perform.
pub struct LoggedDelay {
    /// every requested wait in milliseconds, oldest first
    pub log: Vec<u32>,
}

impl LoggedDelay {
    /// A delay provider with an empty history.
    pub fn new() -> (r: Self)
        ensures
            r.waited() == Seq::<u32>::empty(),
    {
        let r = LoggedDelay { log: Vec::new() };
        proof {
            assert(r.waited() =~= Seq::<u32>::empty());
        }
        r
    }
}

impl Delay for LoggedDelay {
    open spec fn waited(&self) -> Seq<u32> {
        self.log@
    }

    fn delay_ms(&mut self, ms: u32) {
        self.log.push(ms);
    }
}

} // verus!
