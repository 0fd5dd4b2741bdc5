//! NS16550A UART driver: the transmit path's byte framing.
//!
//! Touching the device registers belongs to the platform layer; the
//! driver here owns the transmit queue and performs the newline
//! translation the console expects, so what reaches the port is exactly
//! the queued bytes.

use vstd::prelude::*;
use vstd::string::{StrSliceExecFns, StringSliceAdditionalSpecFns};

verus! {

/// The carriage-return-and-line-feed translation of a string's bytes:
/// every line feed is preceded by a carriage return.
pub open spec fn crlf_of(s: Seq<u8>) -> Seq<u8>
    decreases s.len(),
{
    if s.len() == 0 {
        Seq::empty()
    } else {
        crlf_of(s.drop_last()) + if s.last() == 10 {
            seq![13u8, 10u8]
        } else {
            seq![s.last()]
        }
    }
}

/// A UART instance.
#[derive(Debug)]
pub struct Uart {
    /// Base address of the device registers, as the platform reports it
    base: usize,
    /// Bytes queued for transmission, oldest first
    tx_queue: Vec<u8>,
}

impl Uart {
    /// Spec view of the register base address.
    pub closed spec fn spec_base(&self) -> usize {
        self.base
    }

    /// Spec view of the queued transmit bytes.
    pub closed spec fn spec_tx(&self) -> Seq<u8> {
        self.tx_queue@
    }

    /// A UART at a register base with an empty transmit queue.
    pub fn new(base: usize) -> (r: Self)
        ensures
            r.spec_base() == base,
            r.spec_tx() == Seq::<u8>::empty(),
    {
        Uart { base, tx_queue: Vec::new() }
    }

    /// Queue one byte for transmission.
    pub fn put_byte(&mut self, byte: u8)
        ensures
            final(self).spec_base() == old(self).spec_base(),
            final(self).spec_tx() == old(self).spec_tx().push(byte),
    {
        self.tx_queue.push(byte);
    }

    /// Queue a string, translating each line feed to carriage return and
    /// line feed.
    pub fn put_str(&mut self, s: &str)
        ensures
            final(self).spec_base() == old(self).spec_base(),
            final(self).spec_tx() == old(self).spec_tx() + crlf_of(s.spec_bytes()),
    {
        let bytes = s.as_bytes_vec();
        let ghost sv = s.spec_bytes();
        let n = bytes.len();
        let mut i: usize = 0;
        while i < n
            invariant
                i <= n,
                n == bytes@.len(),
                bytes@ == sv,
                self.spec_base() == old(self).spec_base(),
                self.spec_tx() == old(self).spec_tx() + crlf_of(sv.take(i as int)),
            decreases n - i,
        {
            let b = bytes[i];
            if b == 10 {
                self.put_byte(13);
            }
            self.put_byte(b);
            proof {
                assert(sv.take(i + 1).drop_last() =~= sv.take(i as int));
                assert(sv.take(i + 1).last() == sv[i as int]);
                if sv[i as int] == 10 {
                    assert(self.spec_tx() =~= old(self).spec_tx() + crlf_of(sv.take(i + 1)));
                } else {
                    assert(self.spec_tx() =~= old(self).spec_tx() + crlf_of(sv.take(i + 1)));
                }
            }
            i = i + 1;
        }
        proof {
            assert(sv.take(n as int) =~= sv);
        }
    }

    /// Take the queued bytes for the platform layer to feed the
    /// transmitter, leaving the queue empty.
    pub fn drain_tx(&mut self) -> (r: Vec<u8>)
        ensures
            final(self).spec_base() == old(self).spec_base(),
            final(self).spec_tx() == Seq::<u8>::empty(),
            r@ == old(self).spec_tx(),
    {
        let drained = self.tx_queue.split_off(0);
        proof {
            assert(drained@ =~= old(self).spec_tx());
            assert(self.spec_tx() =~= Seq::<u8>::empty());
        }
        drained
    }
}

} // verus!
