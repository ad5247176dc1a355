//! Boundary capabilities the driver consumes: an I²C transport and a delay
//! provider. Each implementation carries a ghost history of what it was asked
//! to do, so that driver contracts can pin down the exact bus traffic an
//! operation issues.

use vstd::prelude::*;
use crate::constants::PRIMARY_I2C_ADDRESS;

verus! {

/// One bus transaction as the driver's contracts see it: what was written,
/// and the bytes that came back for the transactions that read.
pub enum BusOp {
    /// plain write of `data` to `address`
    Write { address: u8, data: Seq<u8> },
    /// combined write-then-read with no intervening bus release
    WriteRead { address: u8, data: Seq<u8>, response: Seq<u8> },
    /// plain read from `address`
    Read { address: u8, response: Seq<u8> },
}

/// The bytes a transaction read back; a plain write reads none.
pub open spec fn op_response(op: BusOp) -> Seq<u8> {
    match op {
        BusOp::Write { .. } => seq![],
        BusOp::WriteRead { response, .. } => response,
        BusOp::Read { response, .. } => response,
    }
}

/// `op` is a plain write of `data` to the device address.
pub open spec fn op_is_command(op: BusOp, data: Seq<u8>) -> bool {
    op == (BusOp::Write { address: PRIMARY_I2C_ADDRESS, data })
}

/// `op` is a combined write-then-read at the device address: `data` written,
/// `n` bytes read back.
pub open spec fn op_is_write_read(op: BusOp, data: Seq<u8>, n: nat) -> bool {
    op matches BusOp::WriteRead { address, data: written, response } && address
        == PRIMARY_I2C_ADDRESS && written == data && response.len() == n
}

/// `op` is a plain read of `n` bytes from the device address.
pub open spec fn op_is_read(op: BusOp, n: nat) -> bool {
    op matches BusOp::Read { address, response } && address == PRIMARY_I2C_ADDRESS
        && response.len() == n
}

/// `post` carries `pre` unchanged as its prefix: history is only ever
/// appended to.
pub open spec fn extends<A>(pre: Seq<A>, post: Seq<A>) -> bool {
    pre.len() <= post.len() && post.subrange(0, pre.len() as int) == pre
}

pub proof fn lemma_extends_refl<A>(s: Seq<A>)
    ensures
        extends(s, s),
{
    assert(s.subrange(0, s.len() as int) =~= s);
}

pub proof fn lemma_extends_push<A>(s: Seq<A>, x: A)
    ensures
        extends(s, s.push(x)),
{
    assert(s.push(x).subrange(0, s.len() as int) =~= s);
}

pub proof fn lemma_extends_index<A>(pre: Seq<A>, post: Seq<A>, i: int)
    requires
        extends(pre, post),
        0 <= i < pre.len(),
    ensures
        post[i] == pre[i],
{
    assert(pre[i] == post.subrange(0, pre.len() as int)[i]);
}

pub proof fn lemma_extends_trans<A>(a: Seq<A>, b: Seq<A>, c: Seq<A>)
    requires
        extends(a, b),
        extends(b, c),
    ensures
        extends(a, c),
{
    assert forall|i: int| 0 <= i < a.len() implies c[i] == a[i] by {
        assert(a[i] == b.subrange(0, a.len() as int)[i]);
        assert(b[i] == c.subrange(0, b.len() as int)[i]);
    }
    assert(c.subrange(0, a.len() as int) =~= a);
}

/// Write/read bytes over I²C to a fixed 7-bit address. The ghost history
/// `ops` records the transactions issued, oldest first; response bytes are
/// whatever the device on the bus answered. A transaction that fails reports
/// the implementation's own fault value, and the history still only grows.
pub trait Transport: Sized {
    /// the transport's own fault type, wrapped by the driver as `Error::I2c`
    type Fault;

    /// every bus transaction issued so far, oldest first; an implementation
    /// outside this crate that keeps no ghost history inherits an empty one
    /// (and then satisfies no contract that appends to it)
    open spec fn ops(&self) -> Seq<BusOp> {
        Seq::empty()
    }

    /// send `bytes` to `address` in one write transaction
    fn write(&mut self, address: u8, bytes: &Vec<u8>) -> (r: Result<(), Self::Fault>)
        ensures
            match r {
                Ok(_) => final(self).ops() == old(self).ops().push(
                    (BusOp::Write { address, data: bytes@ }),
                ),
                Err(_) => extends(old(self).ops(), final(self).ops()),
            },
    ;

    /// write `data` to `address`, then read exactly `read_len` bytes back, in
    /// one combined transaction with no intervening bus release
    fn write_read(&mut self, address: u8, data: &Vec<u8>, read_len: usize) -> (r: Result<
        Vec<u8>,
        Self::Fault,
    >)
        ensures
            match r {
                Ok(response) => response@.len() == read_len && final(self).ops() == old(
                    self,
                ).ops().push((BusOp::WriteRead { address, data: data@, response: response@ })),
                Err(_) => extends(old(self).ops(), final(self).ops()),
            },
    ;

    /// read exactly `read_len` bytes from `address` in one read transaction
    fn read(&mut self, address: u8, read_len: usize) -> (r: Result<Vec<u8>, Self::Fault>)
        ensures
            match r {
                Ok(response) => response@.len() == read_len && final(self).ops() == old(
                    self,
                ).ops().push((BusOp::Read { address, response: response@ })),
                Err(_) => extends(old(self).ops(), final(self).ops()),
            },
    ;
}

/// Suspend or block for a requested number of milliseconds. The ghost
/// history `waited` records every wait performed, oldest first.
pub trait Delay: Sized {
    /// every wait performed so far, in milliseconds, oldest first; an
    /// implementation outside this crate that keeps no ghost history
    /// inherits an empty one
    open spec fn waited(&self) -> Seq<u32> {
        Seq::empty()
    }

    /// block or suspend for `ms` milliseconds
    fn delay_ms(&mut self, ms: u32)
        ensures
            final(self).waited() == old(self).waited().push(ms),
    ;
}

} // verus!
