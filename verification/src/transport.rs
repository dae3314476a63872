use vstd::prelude::*;

verus! {

/// One bus transaction, at the specification level: the device identifier,
/// the bytes written, and, for combined transactions, the bytes read back.
pub enum BusOp {
    /// A plain write of `bytes` to the device at `address`.
    Write {
        /// The device identifier the transaction addressed.
        address: u8,
        /// The bytes written, in order.
        bytes: Seq<u8>,
    },
    /// A combined write-then-read: `bytes` written, then `response` read,
    /// with no other transaction in between.
    WriteRead {
        /// The device identifier the transaction addressed.
        address: u8,
        /// The bytes written, in order.
        bytes: Seq<u8>,
        /// The bytes read back, in order.
        response: Seq<u8>,
    },
}

/// One recorded bus transaction, with the concrete bytes involved.
#[derive(Debug, PartialEq, Eq)]
pub enum BusTransaction {
    /// A plain write of `bytes` to the device at `address`.
    Write {
        /// The device identifier the transaction addressed.
        address: u8,
        /// The bytes written, in order.
        bytes: Vec<u8>,
    },
    /// A combined write-then-read: `bytes` written, then `response` read.
    WriteRead {
        /// The device identifier the transaction addressed.
        address: u8,
        /// The bytes written, in order.
        bytes: Vec<u8>,
        /// The bytes read back, in order.
        response: Vec<u8>,
    },
}

impl View for BusTransaction {
    type V = BusOp;

    open spec fn view(&self) -> BusOp {
        match self {
            BusTransaction::Write { address, bytes } => BusOp::Write {
                address: *address,
                bytes: bytes@,
            },
            BusTransaction::WriteRead { address, bytes, response } => BusOp::WriteRead {
                address: *address,
                bytes: bytes@,
                response: response@,
            },
        }
    }
}

/// The two-wire bus capability the driver is built on.
///
/// A transport carries out byte-exact writes and combined write-then-read
/// transactions, addressed by a numeric device identifier. It never pads,
/// truncates or reorders the bytes it is handed. The spec-level
/// `transactions` sequence records every transaction carried out, most
/// recent last; a failed operation reports its error verbatim and promises
/// nothing about the record. Bus arbitration, retries and timing are the
/// transport's own concern.
pub trait Transport: Sized {
    /// The error type bus operations report.
    type BusError;

    /// Well-formedness that this transport's operations require and
    /// preserve. Transports with no state of their own can leave the
    /// default.
    open spec fn inv(&self) -> bool {
        true
    }

    /// The transactions carried out so far, most recent last. The default
    /// records nothing; a transport that does not override it promises
    /// nothing a verified caller can use.
    open spec fn transactions(&self) -> Seq<BusOp> {
        Seq::empty()
    }

    /// Write `bytes` to the device at `address` as one bus transaction.
    fn write(&mut self, address: u8, bytes: &[u8]) -> (result: Result<(), Self::BusError>)
        requires
            old(self).inv(),
        ensures
            final(self).inv(),
            result is Ok ==> final(self).transactions() == old(self).transactions().push(
                BusOp::Write { address, bytes: bytes@ },
            ),
    ;

    /// Write `bytes` to the device at `address`, then read `read_len` bytes
    /// back, as one combined bus transaction.
    fn write_read(&mut self, address: u8, bytes: &[u8], read_len: usize) -> (result: Result<
        Vec<u8>,
        Self::BusError,
    >)
        requires
            old(self).inv(),
        ensures
            final(self).inv(),
            result matches Ok(response) ==> response@.len() == read_len
                && final(self).transactions() == old(self).transactions().push(
                BusOp::WriteRead { address, bytes: bytes@, response: response@ },
            ),
    ;
}

} // verus!
