//! Register-access driver for the TMC5130 stepper-motor-driver chip.
//!
//! The chip exposes its configuration and status surface as a fixed set of
//! addressable 32-bit registers, reachable over a half-duplex framed SPI
//! protocol.  Every transaction is a five-byte in-place exchange: a one-byte
//! address phase (bit 7 carries the read/write direction), then a four-byte
//! big-endian data phase.  A read request only *arms* the chip: the value
//! arrives in the data phase of the *following* transaction, so a single
//! logical read takes two identical read-framed transactions, and
//! `bulk_register_action` pipelines mixed batches to amortize that latency.
//!
//! The register catalog, the dynamic register state and the register map
//! live in `reg`; the bit-field codec in `bits`; the transport boundary in
//! `transport`.

pub mod bits;
pub mod reg;
pub mod transport;

use vstd::prelude::*;

use crate::reg::{ReadableRegister, Register, State, WritableRegister, SPISTATUS};
use crate::transport::{Transaction, Transport, TransportError};

verus! {

/// Bit 7 of the address phase: set for a write request, clear for a read
/// request.
pub const RW_BIT: u8 = 0x80;

/// One step of a bulk register action: read the register a state is tagged
/// with, or write a state's value out.
#[derive(Clone, Copy, Debug, PartialEq, Eq, Structural)]
pub enum Action {
    /// Read the register tagged by the held state.  The held word supplies
    /// the don't-care data phase of the request, and is replaced by the
    /// value the chip returns.
    Read(State),
    /// Write the held state's word to the register it is tagged with.  The
    /// state is left untouched.
    Write(State),
}

impl Action {
    /// Whether this action is a read.
    pub open spec fn is_read(self) -> bool {
        match self {
            Action::Read(_) => true,
            Action::Write(_) => false,
        }
    }
}

/// The five bytes shifted out by a read-framed transaction of the register
/// at `a`: address phase with the direction bit clear, then `data` (a
/// don't-care for the chip) big-endian.
pub open spec fn spec_read_frame(a: reg::Address, data: u32) -> Seq<u8> {
    seq![reg::spec_addr_value(a) & 0x7f].add(bits::spec_bytes_of_word(data))
}

/// The five bytes shifted out by a write-framed transaction: address phase
/// with the direction bit set, then the register word big-endian.
pub open spec fn spec_write_frame(a: reg::Address, data: u32) -> Seq<u8> {
    seq![reg::spec_addr_value(a) | RW_BIT].add(bits::spec_bytes_of_word(data))
}

/// The five bytes a bulk sequence shifts out for one action: its state's
/// address in the action's direction framing, and its state's word as the
/// data phase.
pub open spec fn spec_action_frame(a: Action) -> Seq<u8> {
    match a {
        Action::Read(s) => spec_read_frame(s.spec_addr(), s.spec_bits()),
        Action::Write(s) => spec_write_frame(s.spec_addr(), s.spec_bits()),
    }
}

/// The register word carried big-endian in a transaction's data phase reply.
pub open spec fn spec_txn_data(t: Transaction) -> u32 {
    bits::spec_word_of_bytes(t.recv.subrange(1, 5))
}

/// The status byte echoed in a transaction's address phase: the
/// transport-reported status of the previous operation on the bus.
pub open spec fn spec_txn_status(t: Transaction) -> u8 {
    t.recv[0]
}

/// The action as it stands once the transaction `t` carrying its reply has
/// completed: a read's state is replaced by the value `t` returned for its
/// address, a write is untouched.
pub open spec fn spec_resolve(a: Action, t: Transaction) -> Action {
    match a {
        Action::Read(s) => Action::Read(
            State::spec_from_addr_and_data(s.spec_addr(), spec_txn_data(t)),
        ),
        Action::Write(_) => a,
    }
}

/// Whether a bulk sequence needs the trailing retrieval transaction: it
/// does iff its final action is a read, since no later transaction would
/// surface that read's value.
pub open spec fn spec_last_is_read(acts: Seq<Action>) -> bool {
    acts.len() > 0 && acts.last().is_read()
}

/// The number of transactions a bulk sequence issues when no transfer
/// fails: one per action, plus the trailing retrieval if the final action
/// is a read.
pub open spec fn spec_txn_count(acts: Seq<Action>) -> int {
    acts.len() + if spec_last_is_read(acts) {
        1int
    } else {
        0int
    }
}

/// A five-byte transaction frame: address byte, then `data` big-endian.
fn make_frame(addr_byte: u8, data: u32) -> (r: Vec<u8>)
    ensures
        r@ == seq![addr_byte].add(bits::spec_bytes_of_word(data)),
        r@.len() == 5,
{
    let mut r: Vec<u8> = Vec::new();
    r.push(addr_byte);
    let d = bits::bytes_of_word(data);
    r.push(d[0]);
    r.push(d[1]);
    r.push(d[2]);
    r.push(d[3]);
    proof {
        assert(r@ =~= seq![addr_byte].add(bits::spec_bytes_of_word(data)));
    }
    r
}

/// The register word carried big-endian in the data phase of a five-byte
/// frame.
fn frame_data(buf: &Vec<u8>) -> (r: u32)
    requires
        buf@.len() == 5,
    ensures
        r == bits::spec_word_of_bytes(buf@.subrange(1, 5)),
{
    let b1 = buf[1];
    let b2 = buf[2];
    let b3 = buf[3];
    let b4 = buf[4];
    proof {
        assert(((b1 as u32) << 24) + ((b2 as u32) << 16) + ((b3 as u32) << 8) + (b4 as u32) == ((
        b1 as u32) << 24) | ((b2 as u32) << 16) | ((b3 as u32) << 8) | (b4 as u32)) by (bit_vector);
    }
    ((b1 as u32) << 24) + ((b2 as u32) << 16) + ((b3 as u32) << 8) + (b4 as u32)
}

/// Driver for the TMC5130 register protocol: bundles a transport with the
/// protocol engine and exposes the single and bulk register operations.
pub struct Tmc5130<SPI> {
    /// The SPI transport used to communicate with the TMC5130 chip.
    spi: SPI,
}

impl<SPI: Transport> Tmc5130<SPI> {
    /// The transactions completed on this driver's transport, oldest first.
    pub closed spec fn history(self) -> Seq<Transaction> {
        self.spi.history()
    }

    /// Creates a new instance of the `Tmc5130` driver.
    ///
    /// `spi` is the SPI transport used to communicate with the chip; the
    /// driver owns it exclusively from here on.
    pub fn new(spi: SPI) -> (r: Self)
        ensures
            r.history() == spi.history(),
    {
        Tmc5130 { spi }
    }

    /// Releases the transport, consuming the driver.
    pub fn release(self) -> (r: SPI)
        ensures
            r.history() == self.history(),
    {
        self.spi
    }

    /// The 32-bit word formed by the first four bytes of `array`,
    /// big-endian.
    pub fn as_u32_be(array: &[u8]) -> (r: u32)
        requires
            array@.len() >= 4,
        ensures
            r == bits::spec_word_of_bytes(array@),
    {
        let b0 = array[0];
        let b1 = array[1];
        let b2 = array[2];
        let b3 = array[3];
        proof {
            assert(((b0 as u32) << 24) + ((b1 as u32) << 16) + ((b2 as u32) << 8) + (b3 as u32)
                == ((b0 as u32) << 24) | ((b1 as u32) << 16) | ((b2 as u32) << 8) | (b3 as u32))
                by (bit_vector);
        }
        ((b0 as u32) << 24) + ((b1 as u32) << 16) + ((b2 as u32) << 8) + (b3 as u32)
    }

    /// Reads the register `R` and the status byte of the transaction before
    /// it.
    ///
    /// The chip's read-ahead quirk makes a register value visible only on
    /// the transaction *after* the one requesting it, so this issues exactly
    /// two identical read-framed transactions: the first arms the chip and
    /// its data phase is discarded, the second retrieves the value.
    pub fn read_register<R: ReadableRegister>(&mut self) -> (r: Result<
        (SPISTATUS, R),
        TransportError,
    >)
        ensures
            ({
                let h0 = old(self).history();
                let h = final(self).history();
                let base = h0.len() as int;
                match r {
                    Ok(sv) => {
                        &&& h.len() == h0.len() + 2
                        &&& h.subrange(0, base) == h0
                        &&& h[base].sent == spec_read_frame(R::spec_address(), 0)
                        &&& h[base + 1].sent == spec_read_frame(R::spec_address(), 0)
                        &&& sv.0 == SPISTATUS(spec_txn_status(h.last()))
                        &&& sv.1 == R::spec_from_bits(spec_txn_data(h.last()))
                    },
                    Err(_) => {
                        &&& h0.len() <= h.len() <= h0.len() + 1
                        &&& h.subrange(0, base) == h0
                        &&& forall|k: int|
                            base <= k < h.len() ==> (#[trigger] h[k]).sent == spec_read_frame(
                                R::spec_address(),
                                0,
                            )
                    },
                }
            }),
    {
        let ghost h0: Seq<Transaction> = self.spi.history();
        let addr_byte = R::address().value() & 0x7f;
        let mut buf = make_frame(addr_byte, 0);
        match self.spi.transfer(&mut buf) {
            Err(e) => {
                proof {
                    assert(self.spi.history().subrange(0, h0.len() as int) =~= h0);
                }
                return Err(e);
            },
            Ok(_) => {},
        }
        proof {
            assert(self.spi.history().subrange(0, h0.len() as int) =~= h0);
        }
        let mut buf2 = make_frame(addr_byte, 0);
        match self.spi.transfer(&mut buf2) {
            Err(e) => {
                proof {
                    assert(self.spi.history().subrange(0, h0.len() as int) =~= h0);
                }
                return Err(e);
            },
            Ok(_) => {},
        }
        proof {
            assert(self.spi.history().subrange(0, h0.len() as int) =~= h0);
        }
        let status = SPISTATUS(buf2[0]);
        let value = R::from_bits(frame_data(&buf2));
        Ok((status, value))
    }

    /// Writes `register` to its address in exactly one write-framed
    /// transaction, and returns the status byte echoed in its address
    /// phase (the status of the *previous* operation on the bus).
    pub fn write_register<R: WritableRegister>(&mut self, register: R) -> (r: Result<
        SPISTATUS,
        TransportError,
    >)
        ensures
            ({
                let h0 = old(self).history();
                let h = final(self).history();
                let base = h0.len() as int;
                match r {
                    Ok(status) => {
                        &&& h.len() == h0.len() + 1
                        &&& h.subrange(0, base) == h0
                        &&& h.last().sent == spec_write_frame(
                            R::spec_address(),
                            register.spec_bits(),
                        )
                        &&& status == SPISTATUS(spec_txn_status(h.last()))
                    },
                    Err(_) => h == h0,
                }
            }),
    {
        let ghost h0: Seq<Transaction> = self.spi.history();
        let addr_byte = R::address().value() | RW_BIT;
        let mut buf = make_frame(addr_byte, register.bits());
        match self.spi.transfer(&mut buf) {
            Err(e) => {
                return Err(e);
            },
            Ok(_) => {},
        }
        proof {
            assert(self.spi.history().subrange(0, h0.len() as int) =~= h0);
        }
        Ok(SPISTATUS(buf[0]))
    }

    /// Executes an ordered batch of read and write actions as one pipelined
    /// stream: transaction `i` sends action `i`'s framing while its data
    /// phase returns the value belonging to action `i - 1` when that action
    /// was a read.  If the final action is a read, one trailing transaction
    /// re-sending its read framing retrieves its value, so a batch of `N`
    /// actions takes `N` or `N + 1` transactions instead of `2 * N`.
    ///
    /// Returns the status byte of the last transaction actually sent (or a
    /// zero status for an empty batch).  A transport error aborts the
    /// sequence at once: later actions are never sent, and read actions
    /// whose reply had not yet arrived keep their stale state.
    pub fn bulk_register_action(&mut self, actions: &mut Vec<Action>) -> (r: Result<
        SPISTATUS,
        TransportError,
    >)
        ensures
            ({
                let acts0 = old(actions)@;
                let n = acts0.len() as int;
                let h0 = old(self).history();
                let h = final(self).history();
                let base = h0.len() as int;
                &&& h.subrange(0, base) == h0
                &&& final(actions)@.len() == n
                &&& match r {
                    Ok(status) => {
                        &&& h.len() - base == spec_txn_count(acts0)
                        &&& forall|i: int|
                            0 <= i < n ==> (#[trigger] h[base + i]).sent == spec_action_frame(
                                acts0[i],
                            )
                        &&& spec_last_is_read(acts0) ==> h.last().sent == spec_action_frame(
                            acts0[n - 1],
                        )
                        &&& forall|i: int|
                            0 <= i < n ==> (#[trigger] final(actions)@[i]) == (if acts0[i].is_read() {
                                spec_resolve(acts0[i], h[base + i + 1])
                            } else {
                                acts0[i]
                            })
                        &&& n > 0 ==> status == SPISTATUS(spec_txn_status(h.last()))
                        &&& n == 0 ==> status == SPISTATUS(0) && h == h0
                    },
                    Err(_) => {
                        let k = h.len() - base;
                        &&& 0 <= k < spec_txn_count(acts0)
                        &&& k <= n
                        &&& forall|i: int|
                            0 <= i < k && i < n ==> (#[trigger] h[base + i]).sent
                                == spec_action_frame(acts0[i])
                        &&& forall|i: int|
                            0 <= i < n ==> (#[trigger] final(actions)@[i]) == (if acts0[i].is_read()
                                && i <= k - 2 {
                                spec_resolve(acts0[i], h[base + i + 1])
                            } else {
                                acts0[i]
                            })
                    },
                }
            }),
    {
        let ghost acts0: Seq<Action> = actions@;
        let ghost h0: Seq<Transaction> = self.spi.history();
        let mut result = SPISTATUS(0);
        let act_len = actions.len();
        let mut extra_transmission = false;
        if act_len > 0 {
            match actions[act_len - 1] {
                Action::Read(_) => {
                    extra_transmission = true;
                },
                Action::Write(_) => {},
            }
        }
        let mut i: usize = 0;
        while i < act_len
            invariant
                acts0 == old(actions)@,
                h0 == old(self).history(),
                act_len == actions@.len(),
                acts0.len() == act_len,
                i <= act_len,
                extra_transmission == spec_last_is_read(acts0),
                self.spi.history().len() == h0.len() + i,
                self.spi.history().subrange(0, h0.len() as int) == h0,
                forall|j: int|
                    0 <= j < i ==> (#[trigger] self.spi.history()[h0.len() + j]).sent
                        == spec_action_frame(acts0[j]),
                forall|j: int|
                    0 <= j < act_len ==> (#[trigger] actions@[j]) == (if acts0[j].is_read() && j <= i
                        - 2 {
                        spec_resolve(acts0[j], self.spi.history()[h0.len() + j + 1])
                    } else {
                        acts0[j]
                    }),
                i == 0 ==> result == SPISTATUS(0),
                i >= 1 ==> result == SPISTATUS(spec_txn_status(self.spi.history().last())),
            decreases act_len - i,
        {
            let act = actions[i];
            let (addr_byte, data): (u8, u32) = match act {
                Action::Read(s) => (s.addr().value() & 0x7f, s.to_u32()),
                Action::Write(s) => (s.addr().value() | RW_BIT, s.to_u32()),
            };
            let mut buf = make_frame(addr_byte, data);
            proof {
                assert(buf@ == spec_action_frame(acts0[i as int]));
            }
            match self.spi.transfer(&mut buf) {
                Err(e) => {
                    return Err(e);
                },
                Ok(_) => {},
            }
            proof {
                assert(self.spi.history().subrange(0, h0.len() as int) =~= h0);
            }
            result = SPISTATUS(buf[0]);
            if i > 0 {
                match actions[i - 1] {
                    Action::Read(last_state) => {
                        let new_state = State::from_addr_and_data(
                            last_state.addr(),
                            frame_data(&buf),
                        );
                        actions[i - 1] = Action::Read(new_state);
                    },
                    Action::Write(_) => {},
                }
            }
            i += 1;
        }
        if extra_transmission {
            // The final action was a read: one more transaction with the same
            // read framing retrieves the value it armed.
            match actions[act_len - 1] {
                Action::Read(last_state) => {
                    let addr_byte = last_state.addr().value() & 0x7f;
                    let mut buf = make_frame(addr_byte, last_state.to_u32());
                    match self.spi.transfer(&mut buf) {
                        Err(e) => {
                            return Err(e);
                        },
                        Ok(_) => {},
                    }
                    proof {
                        assert(self.spi.history().subrange(0, h0.len() as int) =~= h0);
                    }
                    let new_state = State::from_addr_and_data(last_state.addr(), frame_data(&buf));
                    actions[act_len - 1] = Action::Read(new_state);
                    result = SPISTATUS(buf[0]);
                },
                Action::Write(_) => {
                    proof {
                        assert(false);
                    }
                },
            }
        }
        proof {
            if acts0.len() == 0 {
                assert(self.spi.history() =~= h0);
            }
        }
        Ok(result)
    }
}

} // verus!
