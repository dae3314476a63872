//! A bus simulator: a drop-in stand-in for a real two-wire bus device, used
//! to exercise the driver without hardware.

use crate::constants::RAM_SIZE;
use crate::transport::BusOp;
use crate::transport::BusTransaction;
use crate::transport::Transport;
use vstd::arithmetic::div_mod::lemma_add_mod_noop;
use vstd::arithmetic::div_mod::lemma_mod_equivalence;
use vstd::arithmetic::div_mod::lemma_small_mod;
use vstd::prelude::*;
use vstd::slice::slice_to_vec;

verus! {

/// Mock error to satisfy the transport contract; the simulator never
/// actually produces it.
#[derive(Clone, Copy, Debug, PartialEq, Eq, Structural)]
pub struct I2cMockError;

/// The register array after storing `data` into `regs` starting at byte
/// offset `offset`, the register pointer advancing with wraparound after
/// every byte.
pub open spec fn sim_written(regs: Seq<u8>, offset: nat, data: Seq<u8>) -> Seq<u8>
    decreases data.len(),
{
    if data.len() == 0 || regs.len() == 0 {
        regs
    } else {
        sim_written(regs.update((offset % regs.len()) as int, data[0]), offset + 1, data.skip(1))
    }
}

/// The register array after one simulator write: a write of one byte (or
/// none) only moves the register pointer; a longer write stores its payload
/// starting at the addressed offset, wrapping around.
pub open spec fn sim_write_regs(regs: Seq<u8>, bytes: Seq<u8>) -> Seq<u8> {
    if bytes.len() <= 1 {
        regs
    } else {
        sim_written(regs, bytes[0] as nat, bytes.skip(1))
    }
}

/// The register pointer after one simulator write: the addressed offset,
/// advanced once per payload byte, with wraparound.
pub open spec fn sim_write_cursor(regs: Seq<u8>, cursor: nat, bytes: Seq<u8>) -> nat {
    if bytes.len() == 0 || regs.len() == 0 {
        cursor
    } else {
        ((bytes[0] + bytes.len() - 1) % (regs.len() as int)) as nat
    }
}

/// The bytes a simulator read returns: `len` bytes copied from `regs`
/// starting at `offset`, the register pointer advancing with wraparound
/// after every byte.
pub open spec fn sim_response(regs: Seq<u8>, offset: nat, len: nat) -> Seq<u8> {
    Seq::new(
        len,
        |i: int| if regs.len() == 0 { 0u8 } else { regs[(offset + i) % (regs.len() as int)] },
    )
}

/// A store whose payload fits between its starting offset and the end of
/// the register array does not wrap: each payload byte lands at its own
/// offset and every other register is untouched.
pub(crate) proof fn lemma_sim_written_no_wrap(regs: Seq<u8>, offset: nat, data: Seq<u8>)
    requires
        regs.len() > 0,
        offset + data.len() <= regs.len(),
    ensures
        sim_written(regs, offset, data).len() == regs.len(),
        forall|j: int|
            0 <= j < regs.len() ==> sim_written(regs, offset, data)[j] == (if offset <= j < offset
                + data.len() {
                data[j - offset]
            } else {
                regs[j]
            }),
    decreases data.len(),
{
    if data.len() == 0 {
    } else {
        lemma_small_mod(offset, regs.len());
        let stored = regs.update(offset as int, data[0]);
        lemma_sim_written_no_wrap(stored, offset + 1, data.skip(1));
        assert forall|j: int| 0 <= j < regs.len() implies sim_written(regs, offset, data)[j] == (
        if offset <= j < offset + data.len() {
            data[j - offset]
        } else {
            regs[j]
        }) by {
            if offset + 1 <= j < offset + data.len() {
                assert(data.skip(1)[j - offset - 1] == data[j - offset]);
            }
        }
    }
}

/// Law: a store whose payload runs past the end of the register array wraps
/// around: payload byte `k` lands at index `(offset + k)` modulo the array
/// length, and, as long as the payload is no longer than the array, every
/// register that no payload byte lands on is untouched.
pub proof fn lemma_sim_written_wraparound(regs: Seq<u8>, offset: nat, data: Seq<u8>)
    requires
        regs.len() > 0,
        data.len() <= regs.len(),
    ensures
        sim_written(regs, offset, data).len() == regs.len(),
        forall|k: int|
            0 <= k < data.len() ==> sim_written(regs, offset, data)[(offset + k) % (
            regs.len() as int)] == data[k],
        forall|j: int|
            0 <= j < regs.len() && (forall|k: int|
                0 <= k < data.len() ==> j != #[trigger] ((offset + k) % (regs.len() as int)))
                ==> #[trigger] sim_written(regs, offset, data)[j] == regs[j],
    decreases data.len(),
{
    if data.len() > 0 {
        let len = regs.len() as int;
        let first = (offset % regs.len()) as int;
        let stored = regs.update(first, data[0]);
        lemma_sim_written_wraparound(stored, offset + 1, data.skip(1));
        assert(sim_written(regs, offset, data) == sim_written(stored, offset + 1, data.skip(1)));
        assert((offset as int + 0) % len == first);
        // A later payload byte never lands back on the first index.
        assert forall|k: int| 1 <= k < data.len() implies #[trigger] ((offset + k) % len)
            != first by {
            lemma_mod_equivalence(offset as int + k, offset as int, len);
            lemma_small_mod(k as nat, regs.len());
        }
        // The first byte survives the rest of the store.
        assert forall|k: int|
            0 <= k < data.skip(1).len() implies first != #[trigger] (((offset + 1) + k) % len) by {
            assert((offset + (k + 1)) % len != first);
        }
        assert(sim_written(stored, offset + 1, data.skip(1))[first] == stored[first]);
        // Later bytes land where the recursive store put them.
        assert forall|k: int|
            1 <= k < data.len() implies sim_written(regs, offset, data)[(offset + k) % len]
            == data[k] by {
            assert(sim_written(stored, offset + 1, data.skip(1))[((offset + 1) + (k - 1)) % len]
                == data.skip(1)[k - 1]);
            assert(((offset + 1) + (k - 1)) % len == (offset + k) % len);
        }
        // Untouched registers keep their prior value.
        assert forall|j: int|
            0 <= j < regs.len() && (forall|k: int|
                0 <= k < data.len() ==> j != #[trigger] ((offset + k) % len)) implies #[trigger] sim_written(
            regs,
            offset,
            data,
        )[j] == regs[j] by {
            assert forall|k: int|
                0 <= k < data.skip(1).len() implies j != #[trigger] (((offset + 1) + k) % len) by {
                assert(j != (offset + (k + 1)) % len);
            }
            assert(sim_written(stored, offset + 1, data.skip(1))[j] == stored[j]);
            assert(j != (offset as int + 0) % len);
        }
    }
}

/// The mock two-wire bus state.
///
/// The simulator holds a fixed-size register array of [`RAM_SIZE`] bytes and
/// an auto-incrementing register pointer, and reproduces the chip's
/// addressing protocol: the first byte of a write sets the pointer, every
/// further byte is stored at the pointer, and a read copies bytes from the
/// pointer onward; the pointer advances, wrapping around modulo the array
/// length, after every byte stored or read. Every operation succeeds, and
/// every transaction is recorded, so tests can check the exact bytes a
/// driver emits.
pub struct I2cMock {
    data_values: Vec<u8>,
    current_offset: usize,
    log: Vec<BusTransaction>,
}

impl I2cMock {
    /// The simulated register array.
    pub closed spec fn spec_registers(&self) -> Seq<u8> {
        self.data_values@
    }

    /// The auto-incrementing register pointer.
    pub closed spec fn spec_cursor(&self) -> usize {
        self.current_offset
    }

    /// Create an `I2cMock` with an all-zero register array and the register
    /// pointer at zero.
    pub fn new() -> (mock: Self)
        ensures
            mock.inv(),
            mock.spec_registers() == Seq::new(RAM_SIZE as nat, |i: int| 0u8),
            mock.spec_cursor() == 0,
            mock.transactions() == Seq::<BusOp>::empty(),
    {
        let mut data_values: Vec<u8> = Vec::new();
        while data_values.len() < RAM_SIZE
            invariant
                data_values@.len() <= RAM_SIZE,
                forall|i: int| 0 <= i < data_values@.len() ==> data_values@[i] == 0u8,
            decreases RAM_SIZE - data_values@.len(),
        {
            data_values.push(0u8);
        }
        let mock = I2cMock { data_values, current_offset: 0, log: Vec::new() };
        proof {
            assert(mock.spec_registers() =~= Seq::new(RAM_SIZE as nat, |i: int| 0u8));
            assert(mock.transactions() =~= Seq::<BusOp>::empty());
        }
        mock
    }

    /// The simulated register array, for inspection by tests.
    pub fn data_values(&self) -> (regs: &Vec<u8>)
        ensures
            regs@ == self.spec_registers(),
    {
        &self.data_values
    }

    /// Store `value` directly in register `index`, for test setup.
    pub fn set_data_value(&mut self, index: usize, value: u8)
        requires
            old(self).inv(),
            index < RAM_SIZE,
        ensures
            final(self).inv(),
            final(self).spec_registers() == old(self).spec_registers().update(
                index as int,
                value,
            ),
            final(self).spec_cursor() == old(self).spec_cursor(),
            final(self).transactions() == old(self).transactions(),
    {
        self.data_values[index] = value;
    }

    /// The recorded transactions, most recent last, for inspection by tests.
    pub fn log(&self) -> (log: &Vec<BusTransaction>)
        ensures
            log@.map_values(|t: BusTransaction| t@) == self.transactions(),
    {
        &self.log
    }

    /// Carry out the register-array effect of one write, without recording
    /// it.
    fn apply_write(&mut self, bytes: &[u8])
        requires
            old(self).inv(),
        ensures
            final(self).inv(),
            final(self).spec_registers() == sim_write_regs(old(self).spec_registers(), bytes@),
            final(self).spec_cursor() as nat == sim_write_cursor(
                old(self).spec_registers(),
                old(self).spec_cursor() as nat,
                bytes@,
            ),
            final(self).transactions() == old(self).transactions(),
    {
        if bytes.len() == 0 {
            return ;
        }
        let len = self.data_values.len();
        let start = (bytes[0] as usize) % len;
        self.current_offset = start;
        if bytes.len() == 1 {
            return ;
        }
        let ghost pre_regs = self.data_values@;
        let ghost b0 = bytes@[0] as nat;
        let mut k: usize = 1;
        while k < bytes.len()
            invariant
                old(self).inv(),
                1 <= k <= bytes@.len(),
                bytes@.len() > 1,
                len == RAM_SIZE,
                self.data_values@.len() == RAM_SIZE,
                self.current_offset < RAM_SIZE,
                self.log@ == old(self).log@,
                b0 == bytes@[0] as nat,
                self.current_offset as int == (b0 + k - 1) % (RAM_SIZE as int),
                sim_written(pre_regs, b0, bytes@.skip(1)) == sim_written(
                    self.data_values@,
                    (b0 + k - 1) as nat,
                    bytes@.skip(k as int),
                ),
            decreases bytes@.len() - k,
        {
            let idx = self.current_offset;
            proof {
                let vo = (b0 + k - 1) as nat;
                assert(vo as int % (RAM_SIZE as int) == idx as int);
                assert(bytes@.skip(k as int).len() > 0);
                assert(bytes@.skip(k as int)[0] == bytes@[k as int]);
                assert(bytes@.skip(k as int).skip(1) =~= bytes@.skip(k as int + 1));
                assert(sim_written(self.data_values@, vo, bytes@.skip(k as int)) == sim_written(
                    self.data_values@.update(idx as int, bytes@[k as int]),
                    vo + 1,
                    bytes@.skip(k as int + 1),
                ));
                lemma_add_mod_noop(b0 as int + k - 1, 1, RAM_SIZE as int);
            }
            self.data_values[idx] = bytes[k];
            self.current_offset = (idx + 1) % len;
            k = k + 1;
        }
        proof {
            assert(bytes@.skip(bytes@.len() as int) =~= Seq::<u8>::empty());
            assert(sim_written(pre_regs, b0, bytes@.skip(1)) == self.data_values@);
        }
    }

    /// Carry out the register-pointer effect of one read and return the
    /// bytes it yields, without recording it.
    fn apply_read(&mut self, read_len: usize) -> (response: Vec<u8>)
        requires
            old(self).inv(),
        ensures
            final(self).inv(),
            final(self).spec_registers() == old(self).spec_registers(),
            final(self).spec_cursor() as int == (old(self).spec_cursor() + read_len) % (
            RAM_SIZE as int),
            response@ == sim_response(
                old(self).spec_registers(),
                old(self).spec_cursor() as nat,
                read_len as nat,
            ),
            final(self).transactions() == old(self).transactions(),
    {
        let mut response: Vec<u8> = Vec::new();
        let len = self.data_values.len();
        let ghost c0 = self.current_offset as nat;
        while response.len() < read_len
            invariant
                old(self).inv(),
                len == RAM_SIZE,
                self.data_values@ == old(self).data_values@,
                self.log@ == old(self).log@,
                self.data_values@.len() == RAM_SIZE,
                self.current_offset < RAM_SIZE,
                response@.len() <= read_len,
                self.current_offset as int == (c0 + response@.len()) as int % (RAM_SIZE as int),
                forall|i: int|
                    0 <= i < response@.len() ==> response@[i] == self.data_values@[(c0 + i) % (
                    RAM_SIZE as int)],
            decreases read_len - response@.len(),
        {
            let idx = self.current_offset;
            let value = self.data_values[idx];
            proof {
                lemma_add_mod_noop(c0 as int + response@.len(), 1, RAM_SIZE as int);
            }
            response.push(value);
            self.current_offset = (idx + 1) % len;
        }
        proof {
            assert(response@ =~= sim_response(old(self).spec_registers(), c0, read_len as nat));
        }
        response
    }
}

impl Transport for I2cMock {
    type BusError = I2cMockError;

    /// The register array spans the chip RAM; the pointer stays within it.
    open spec fn inv(&self) -> bool {
        self.spec_registers().len() == RAM_SIZE && self.spec_cursor() < RAM_SIZE
    }

    closed spec fn transactions(&self) -> Seq<BusOp> {
        self.log@.map_values(|t: BusTransaction| t@)
    }

    /// A simulator write: `bytes[0]` sets the register pointer modulo the
    /// array length; every further byte is stored at the pointer, which
    /// advances with wraparound after each one. Always succeeds.
    fn write(&mut self, address: u8, bytes: &[u8]) -> (result: Result<(), I2cMockError>)
        ensures
            result is Ok,
            final(self).spec_registers() == sim_write_regs(old(self).spec_registers(), bytes@),
            final(self).spec_cursor() as nat == sim_write_cursor(
                old(self).spec_registers(),
                old(self).spec_cursor() as nat,
                bytes@,
            ),
    {
        self.apply_write(bytes);
        let recorded = BusTransaction::Write { address, bytes: slice_to_vec(bytes) };
        let ghost pre_log = self.log@;
        self.log.push(recorded);
        proof {
            assert(self.log@.map_values(|t: BusTransaction| t@) =~= pre_log.map_values(
                |t: BusTransaction| t@,
            ).push(BusOp::Write { address, bytes: bytes@ }));
        }
        Ok(())
    }

    /// A simulator combined transaction: the write part is carried out
    /// first (setting the register pointer), then `read_len` bytes are
    /// copied from the pointer onward, which advances with wraparound after
    /// each one. Always succeeds.
    fn write_read(&mut self, address: u8, bytes: &[u8], read_len: usize) -> (result: Result<
        Vec<u8>,
        I2cMockError,
    >)
        ensures
            final(self).spec_registers() == sim_write_regs(old(self).spec_registers(), bytes@),
            final(self).spec_cursor() as int == (sim_write_cursor(
                old(self).spec_registers(),
                old(self).spec_cursor() as nat,
                bytes@,
            ) + read_len) % (RAM_SIZE as int),
            result matches Ok(response) && response@ == sim_response(
                sim_write_regs(old(self).spec_registers(), bytes@),
                sim_write_cursor(
                    old(self).spec_registers(),
                    old(self).spec_cursor() as nat,
                    bytes@,
                ),
                read_len as nat,
            ),
    {
        self.apply_write(bytes);
        let response = self.apply_read(read_len);
        let recorded = BusTransaction::WriteRead {
            address,
            bytes: slice_to_vec(bytes),
            response: slice_to_vec(response.as_slice()),
        };
        let ghost pre_log = self.log@;
        self.log.push(recorded);
        proof {
            assert(self.log@.map_values(|t: BusTransaction| t@) =~= pre_log.map_values(
                |t: BusTransaction| t@,
            ).push(BusOp::WriteRead { address, bytes: bytes@, response: response@ }));
        }
        Ok(response)
    }
}

} // verus!
