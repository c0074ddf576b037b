//! The transport boundary: an externally supplied object that executes
//! framed five-byte exchange transactions on the SPI bus, and a scripted
//! in-memory implementation for exercising the protocol engine.
//!
//! Every transaction is an in-place exchange: the same buffer is shifted out
//! and overwritten with the bytes shifted in at the same clock edges, with
//! chip-select asserted for the whole frame.

use vstd::prelude::*;

verus! {

/// An error propagated unchanged from the transport collaborator on any
/// transfer failure.  Opaque at this layer: it carries no interpreted data.
#[derive(Clone, Copy, Debug, PartialEq, Eq, Structural)]
pub struct TransportError;

/// One completed bus transaction: the five bytes shifted out (address phase,
/// then big-endian data phase) and the five bytes shifted in at the same
/// clock edges.
#[verifier::ext_equal]
pub struct Transaction {
    /// The bytes sent: address byte, then four big-endian data bytes.
    pub sent: Seq<u8>,
    /// The bytes received in their place: the previous transaction's status
    /// byte, then four big-endian data bytes.
    pub recv: Seq<u8>,
}

/// An externally supplied SPI transport.  It executes one framed transaction
/// at a time, in order, and reports transport-level failures.  Callers
/// reason about it through `history`: the ordered list of transactions that
/// have completed on the bus so far.
pub trait Transport: Sized {
    /// The transactions completed on the bus so far, oldest first.
    ///
    /// Implementations outside this crate are not checked against this
    /// contract; the default, an empty history, stands for implementations
    /// that track none.
    open spec fn history(&self) -> Seq<Transaction> {
        Seq::empty()
    }

    /// Execute one transaction: shift out the five bytes of `buf` and
    /// overwrite them in place with the five bytes shifted in.  On failure
    /// nothing is appended to the history: the transaction did not complete.
    fn transfer(&mut self, buf: &mut Vec<u8>) -> (r: Result<(), TransportError>)
        requires
            old(buf)@.len() == 5,
        ensures
            match r {
                Ok(_) => final(buf)@.len() == 5 && final(self).history() == old(self).history()
                    .push((Transaction { sent: old(buf)@, recv: final(buf)@ })),
                Err(e) => final(self).history() == old(self).history() && e == TransportError,
            },
    ;
}

/// One recorded exchange of a `ScriptedTransport`.
#[derive(Debug)]
pub struct Exchange {
    /// The five bytes the protocol engine shifted out.
    pub sent: Vec<u8>,
    /// The five scripted bytes handed back in their place.
    pub recv: Vec<u8>,
}

/// An in-memory transport that answers each transaction with the next
/// scripted five-byte response and records every exchange.  Once the script
/// is exhausted (or a scripted response of the wrong length is reached) it
/// fails, which doubles as transport-fault injection.
pub struct ScriptedTransport {
    /// The responses to hand out, one per transaction, in order.
    pub script: Vec<Vec<u8>>,
    /// How many responses have been consumed.
    pub cursor: usize,
    /// Every completed exchange, oldest first.
    pub log: Vec<Exchange>,
}

/// The transaction recorded by one exchange.
pub open spec fn spec_exchange_transaction(e: Exchange) -> Transaction {
    Transaction { sent: e.sent@, recv: e.recv@ }
}

/// An element-wise copy of a byte vector.
fn clone_bytes(v: &Vec<u8>) -> (r: Vec<u8>)
    ensures
        r@ == v@,
{
    let mut r: Vec<u8> = Vec::new();
    let mut i: usize = 0;
    while i < v.len()
        invariant
            i <= v@.len(),
            r@.len() == i,
            forall|j: int| 0 <= j < i ==> r@[j] == v@[j],
        decreases v@.len() - i,
    {
        r.push(v[i]);
        i += 1;
    }
    proof {
        assert(r@ =~= v@);
    }
    r
}

impl ScriptedTransport {
    /// A transport that will answer with `script`, one response per
    /// transaction, and fail once it runs out.
    pub fn new(script: Vec<Vec<u8>>) -> (r: Self)
        ensures
            r.history() == Seq::<Transaction>::empty(),
            r.script@ == script@,
            r.cursor == 0,
    {
        let r = ScriptedTransport { script, cursor: 0, log: Vec::new() };
        proof {
            assert(r.history() =~= Seq::<Transaction>::empty());
        }
        r
    }
}

impl Transport for ScriptedTransport {
    open spec fn history(&self) -> Seq<Transaction> {
        self.log@.map(|i: int, e: Exchange| spec_exchange_transaction(e))
    }

    fn transfer(&mut self, buf: &mut Vec<u8>) -> (r: Result<(), TransportError>) {
        if self.cursor >= self.script.len() {
            return Err(TransportError);
        }
        let resp = clone_bytes(&self.script[self.cursor]);
        if resp.len() != 5 {
            return Err(TransportError);
        }
        let sent = clone_bytes(buf);
        let recv = clone_bytes(&resp);
        *buf = resp;
        self.cursor = self.cursor + 1;
        self.log.push(Exchange { sent, recv });
        proof {
            assert(self.history() =~~= old(self).history().push(
                (Transaction { sent: old(buf)@, recv: buf@ }),
            ));
        }
        Ok(())
    }
}

} // verus!
