//! The platform: one hart, RAM and a UART behind an address-routed bus,
//! and the reservations that load-reserved and store-conditional use.

use crate::bus;
use crate::bus::{spec_refused, spec_write_gives, Bus, BusAccess, ErrorKind, ErrorView};
use crate::hart::{Hart, HartState, RegisterNames};
use crate::insn::Insn;
use crate::lebytes::{
    lemma_decode_encode_le, lemma_decode_le_fixed, lemma_encode_le_len, spec_decode_le,
    spec_encode_le, LeBytes,
};
use crate::semantics::{spec_run, spec_step, Trap};
use crate::uart::{Uart, UartState};
use vstd::prelude::*;

verus! {

/// The address at which RAM starts by default.
pub const MEMORY_BASE: usize = 0x8000_0000;

/// The size of RAM by default, in bytes.
pub const MEMORY_SIZE: usize = 0x1000_0000;

/// The first address after RAM by default.
pub const MEMORY_END: usize = 0x9000_0000;

/// The address at which the UART's registers start by default.
pub const UART_BASE: usize = 0x1000_0000;

/// The number of addresses that the UART takes up on the bus.
pub const UART_SIZE: usize = 8;

/// Allocates the default RAM, zeroed.
pub fn heap_allocate_memory() -> (memory: Vec<u8>)
    ensures
        memory@ == Seq::new(MEMORY_SIZE as nat, |i: int| 0u8),
{
    let memory = vec![0u8; MEMORY_SIZE];
    assert(memory@ =~= Seq::new(MEMORY_SIZE as nat, |i: int| 0u8));
    memory
}

/// Assembles an instruction word from its four bytes, least significant
/// first.
pub fn u8s_to_insn(input: &[u8; 4]) -> (word: u32)
    ensures
        word == spec_decode_le(input@),
{
    let b0 = input[0];
    let b1 = input[1];
    let b2 = input[2];
    let b3 = input[3];
    let word = (b0 as u32) | ((b1 as u32) << 8) | ((b2 as u32) << 16) | ((b3 as u32) << 24);
    assert(word == b0 + 256 * (b1 + 256 * (b2 + 256 * b3))) by (bit_vector)
        requires
            word == (b0 as u32) | ((b1 as u32) << 8) | ((b2 as u32) << 16) | ((b3 as u32) << 24),
    ;
    proof {
        lemma_decode_le_fixed(input@);
    }
    word
}

/// A block of RAM mapped at a base address.
pub struct Memory {
    start: usize,
    memory: Vec<u8>,
}

/// What a block of RAM holds: the address of its first byte, and its bytes.
#[verifier::ext_equal]
pub struct MemoryState {
    pub start: usize,
    pub bytes: Seq<u8>,
}

impl MemoryState {
    /// Whether `address` lies in the block.
    pub open spec fn contains(self, address: usize) -> bool {
        self.start <= address < self.start + self.bytes.len()
    }

    /// Whether the `width` bytes from `address` on all lie in the block.
    pub open spec fn in_bounds(self, address: usize, width: nat) -> bool {
        self.start <= address && address + width <= self.start + self.bytes.len()
    }

    /// A read of `width` bytes at `address`: the number that the bytes there
    /// stand for, or `OutOfBounds` if not all of them lie in the block.
    pub open spec fn bus_read(self, address: usize, width: nat) -> BusAccess<MemoryState> {
        if self.in_bounds(address, width) {
            BusAccess {
                result: Ok(
                    spec_decode_le(
                        self.bytes.subrange(address - self.start, address - self.start + width),
                    ),
                ),
                state: self,
            }
        } else {
            spec_refused(self, ErrorKind::OutOfBounds, "read beyond the end of memory")
        }
    }

    /// The block with `data` stored from `address` on; unchanged if not all
    /// of `data` fits.
    pub open spec fn store(self, address: usize, data: Seq<u8>) -> MemoryState {
        if self.in_bounds(address, data.len()) {
            MemoryState {
                bytes: Seq::new(
                    self.bytes.len(),
                    |i: int|
                        if address - self.start <= i < address - self.start + data.len() {
                            data[i - (address - self.start)]
                        } else {
                            self.bytes[i]
                        },
                ),
                ..self
            }
        } else {
            self
        }
    }

    /// A write of the number `value` in `width` bytes at `address`: its
    /// bytes are stored least significant first, or the write is refused as
    /// `OutOfBounds` if not all of them fit.
    pub open spec fn bus_write(self, address: usize, value: nat, width: nat) -> BusAccess<
        MemoryState,
    > {
        if self.in_bounds(address, width) {
            BusAccess { result: Ok(0nat), state: self.store(address, spec_encode_le(value, width)) }
        } else {
            spec_refused(self, ErrorKind::OutOfBounds, "write beyond the end of memory")
        }
    }
}

impl View for Memory {
    type V = MemoryState;

    closed spec fn view(&self) -> MemoryState {
        MemoryState { start: self.start, bytes: self.memory@ }
    }
}

impl Memory {
    /// A block of `size` zero bytes mapped at `start`.
    pub fn new(start: usize, size: usize) -> (memory: Memory)
        ensures
            memory@.start == start,
            memory@.bytes == Seq::new(size as nat, |i: int| 0u8),
    {
        let bytes = vec![0u8; size];
        assert(bytes@ =~= Seq::new(size as nat, |i: int| 0u8));
        Memory { start, memory: bytes }
    }

    /// The number of bytes in the block.
    pub fn size(self) -> (size: usize)
        ensures
            size == self@.bytes.len(),
    {
        self.memory.len()
    }

    /// The address of the first byte of the block.
    pub fn start(&self) -> (start: usize)
        ensures
            start == self@.start,
    {
        self.start
    }

    /// Whether `address` lies in the block.
    pub fn contains(&self, address: usize) -> (inside: bool)
        ensures
            inside == self@.contains(address),
    {
        address >= self.start && address - self.start < self.memory.len()
    }

    /// Whether the `width` bytes from `address` on all lie in the block.
    pub fn in_bounds(&self, address: usize, width: usize) -> (inside: bool)
        ensures
            inside == self@.in_bounds(address, width as nat),
    {
        address >= self.start && address - self.start <= self.memory.len() && width
            <= self.memory.len() - (address - self.start)
    }

    /// Copies `blob` into the block from `address` on.
    fn store(&mut self, address: usize, blob: &[u8])
        requires
            old(self)@.in_bounds(address, blob@.len()),
        ensures
            final(self)@ == old(self)@.store(address, blob@),
    {
        let offset = address - self.start;
        let size = self.memory.len();
        let mut n: usize = 0;
        while n < blob.len()
            invariant
                n <= blob@.len(),
                offset + blob@.len() <= size == self.memory@.len(),
                offset == address - old(self)@.start,
                self.start == old(self).start,
                old(self)@.in_bounds(address, blob@.len()),
                self.memory@.len() == old(self).memory@.len(),
                forall|i: int|
                    0 <= i < self.memory@.len() ==> self.memory@[i] == if offset <= i < offset + n {
                        blob@[i - offset]
                    } else {
                        old(self).memory@[i]
                    },
            decreases blob@.len() - n,
        {
            self.memory[offset + n] = blob[n];
            n += 1;
        }
        assert(self@.bytes =~= old(self)@.store(address, blob@).bytes);
    }
}

impl Default for Memory {
    /// The default RAM: `MEMORY_SIZE` zero bytes at `MEMORY_BASE`.
    fn default() -> (memory: Memory)
        ensures
            memory@.start == MEMORY_BASE,
            memory@.bytes == Seq::new(MEMORY_SIZE as nat, |i: int| 0u8),
    {
        Memory { start: MEMORY_BASE, memory: heap_allocate_memory() }
    }
}

impl Bus for Memory {
    open spec fn spec_read(state: MemoryState, address: usize, width: nat) -> BusAccess<
        MemoryState,
    > {
        state.bus_read(address, width)
    }

    open spec fn spec_write(state: MemoryState, address: usize, value: nat, width: nat) -> BusAccess<
        MemoryState,
    > {
        state.bus_write(address, value, width)
    }

    /// Reads a value from the bytes at `address`; nothing changes.
    fn read<T, const T_SIZE: usize>(&mut self, address: usize) -> (result: Result<
        T,
        bus::Error,
    >) where T: LeBytes<T_SIZE> {
        if !self.in_bounds(address, T_SIZE) {
            return Err(bus::Error::new(ErrorKind::OutOfBounds, "read beyond the end of memory"));
        }
        let offset = address - self.start;
        let size = self.memory.len();
        let mut bytes = [0u8; T_SIZE];
        let mut n: usize = 0;
        while n < T_SIZE
            invariant
                n <= T_SIZE,
                offset + T_SIZE <= size == self.memory@.len(),
                forall|i: int| 0 <= i < n ==> bytes@[i] == self.memory@[offset + i],
            decreases T_SIZE - n,
        {
            bytes[n] = self.memory[offset + n];
            n += 1;
        }
        assert(bytes@ =~= self@.bytes.subrange(offset as int, offset + T_SIZE));
        Ok(T::from_le_bytes(bytes))
    }

    /// Stores the bytes of `value` at `address`.
    fn write<T, const T_SIZE: usize>(&mut self, address: usize, value: T) -> (result: Result<
        (),
        bus::Error,
    >) where T: LeBytes<T_SIZE> {
        proof {
            lemma_encode_le_len(value.spec_value(), T_SIZE as nat);
        }
        if !self.in_bounds(address, T_SIZE) {
            return Err(bus::Error::new(ErrorKind::OutOfBounds, "write beyond the end of memory"));
        }
        let bytes = value.to_le_bytes();
        self.store(address, bytes.as_slice());
        Ok(())
    }
}

/// Reading back what was written: a value written to memory at an address,
/// aligned or not, at which it fits is the value that a read of the same
/// width at that address returns.
pub proof fn lemma_memory_write_read<T: LeBytes<SIZE>, const SIZE: usize>(
    memory: MemoryState,
    address: usize,
    value: T,
    back: T,
)
    requires
        memory.in_bounds(address, SIZE as nat),
        memory.bus_write(address, value.spec_value(), SIZE as nat).state.bus_read(
            address,
            SIZE as nat,
        ).result == Ok::<nat, ErrorView>(back.spec_value()),
    ensures
        back == value,
{
    let data = spec_encode_le(value.spec_value(), SIZE as nat);
    lemma_encode_le_len(value.spec_value(), SIZE as nat);
    let after = memory.store(address, data);
    let offset = address - memory.start;
    assert(after.bytes.subrange(offset, offset + SIZE) =~= data);
    T::lemma_value(value, back);
    lemma_decode_encode_le(value.spec_value(), SIZE as nat);
}

/// The record of a load-reserved that a hart has outstanding.
#[derive(Debug, PartialEq, Eq, Clone, Copy, Structural)]
pub struct ReservationSet {
    pub address: usize,
    pub size: usize,
    pub valid: bool,
    pub hart_id: usize,
}

impl Default for ReservationSet {
    /// The record of hart 0 with nothing reserved.
    fn default() -> (set: ReservationSet)
        ensures
            set == (ReservationSet { address: 0, size: 0, valid: false, hart_id: 0 }),
    {
        ReservationSet { address: 0, size: 0, valid: false, hart_id: 0 }
    }
}

impl ReservationSet {
    /// Whether a store of `size` bytes at `address` touches the reserved
    /// bytes: `address` lies from `size - 1` below the reserved address up
    /// to the reserved region's end.
    pub open spec fn spec_overlaps(self, address: usize, size: usize) -> bool {
        self.address - (size - 1) <= address < self.address + self.size
    }

    /// Whether a store of `size` bytes at `address` touches the reserved
    /// bytes.
    pub fn overlaps(&self, address: usize, size: usize) -> (touched: bool)
        ensures
            touched == self.spec_overlaps(address, size),
    {
        (self.address as u128) + 1 <= (address as u128) + (size as u128) && (address as u128) < (
        self.address as u128) + (self.size as u128)
    }
}

/// Whether `byte` is the address of one of the `size` bytes from `address`
/// on.
pub open spec fn spec_in_range(byte: int, address: usize, size: usize) -> bool {
    address <= byte < address + size
}

/// A store with at least one byte touches a reservation with at least one
/// byte exactly if the two ranges share a byte.
pub proof fn lemma_overlap_shares_byte(set: ReservationSet, address: usize, size: usize)
    requires
        size >= 1,
        set.size >= 1,
    ensures
        set.spec_overlaps(address, size) <==> exists|byte: int|
            spec_in_range(byte, address, size) && spec_in_range(byte, set.address, set.size),
{
    if set.spec_overlaps(address, size) {
        let byte = if address >= set.address {
            address as int
        } else {
            set.address as int
        };
        assert(spec_in_range(byte, address, size) && spec_in_range(byte, set.address, set.size));
    }
}

/// The index of the first record of hart `hart_id` in `sets`, or the
/// length of `sets` if it has none.
pub open spec fn spec_find_reservation(sets: Seq<ReservationSet>, hart_id: usize) -> int
    decreases sets.len(),
{
    if sets.len() == 0 {
        0
    } else if sets[0].hart_id == hart_id {
        0
    } else {
        1 + spec_find_reservation(sets.drop_first(), hart_id)
    }
}

/// The record of hart `hart_id`, if it has one.
pub open spec fn spec_reservation_of(sets: Seq<ReservationSet>, hart_id: usize) -> Option<
    ReservationSet,
> {
    let index = spec_find_reservation(sets, hart_id);
    if index < sets.len() {
        Some(sets[index])
    } else {
        None
    }
}

/// The records after hart `hart_id` has reserved `size` bytes at `address`:
/// its record is replaced, or added if it had none.
pub open spec fn spec_claim(
    sets: Seq<ReservationSet>,
    hart_id: usize,
    address: usize,
    size: usize,
) -> Seq<ReservationSet> {
    let index = spec_find_reservation(sets, hart_id);
    let set = ReservationSet { address, size, valid: true, hart_id };
    if index < sets.len() {
        sets.update(index, set)
    } else {
        sets.push(set)
    }
}

/// The records after hart `hart_id` has stored `size` bytes at `address`:
/// every valid record of another hart that the store touches is invalid.
pub open spec fn spec_invalidate_others(
    sets: Seq<ReservationSet>,
    hart_id: usize,
    address: usize,
    size: usize,
) -> Seq<ReservationSet> {
    Seq::new(
        sets.len(),
        |i: int|
            if sets[i].hart_id != hart_id && sets[i].valid && sets[i].spec_overlaps(address, size) {
                ReservationSet { valid: false, ..sets[i] }
            } else {
                sets[i]
            },
    )
}

/// Whether hart `hart_id` holds a valid reservation that a store of `size`
/// bytes at `address` touches.
pub open spec fn spec_check(
    sets: Seq<ReservationSet>,
    hart_id: usize,
    address: usize,
    size: usize,
) -> bool {
    match spec_reservation_of(sets, hart_id) {
        Some(set) => set.valid && set.spec_overlaps(address, size),
        None => false,
    }
}

/// The records after hart `hart_id` has checked its reservation against a
/// store of `size` bytes at `address`: where the check succeeds, its record
/// is invalid.
pub open spec fn spec_check_invalidate(
    sets: Seq<ReservationSet>,
    hart_id: usize,
    address: usize,
    size: usize,
) -> Seq<ReservationSet> {
    if spec_check(sets, hart_id, address, size) {
        let index = spec_find_reservation(sets, hart_id);
        sets.update(index, ReservationSet { valid: false, ..sets[index] })
    } else {
        sets
    }
}

/// The first record of a hart is found where no earlier record is its own.
pub proof fn lemma_find_reservation(sets: Seq<ReservationSet>, hart_id: usize, index: int)
    requires
        0 <= index <= sets.len(),
        forall|i: int| 0 <= i < index ==> sets[i].hart_id != hart_id,
        index < sets.len() ==> sets[index].hart_id == hart_id,
    ensures
        spec_find_reservation(sets, hart_id) == index,
    decreases sets.len(),
{
    if index > 0 {
        let rest = sets.drop_first();
        lemma_find_reservation(rest, hart_id, index - 1);
    }
}

/// Where the first record of a hart is: no earlier record is its own.
pub proof fn lemma_find_reservation_is_first(sets: Seq<ReservationSet>, hart_id: usize)
    ensures
        0 <= spec_find_reservation(sets, hart_id) <= sets.len(),
        forall|i: int|
            0 <= i < spec_find_reservation(sets, hart_id) ==> sets[i].hart_id != hart_id,
        spec_find_reservation(sets, hart_id) < sets.len() ==> sets[spec_find_reservation(
            sets,
            hart_id,
        )].hart_id == hart_id,
    decreases sets.len(),
{
    if sets.len() > 0 && sets[0].hart_id != hart_id {
        let rest = sets.drop_first();
        lemma_find_reservation_is_first(rest, hart_id);
        assert forall|i: int| 0 <= i < spec_find_reservation(sets, hart_id) implies sets[i].hart_id
            != hart_id by {
            if i > 0 {
                assert(sets[i] == rest[i - 1]);
            }
        }
    }
}

/// Whether no two records belong to the same hart.
pub open spec fn spec_one_record_per_hart(sets: Seq<ReservationSet>) -> bool {
    forall|i: int, j: int| 0 <= i < j < sets.len() ==> sets[i].hart_id != sets[j].hart_id
}

/// Claiming, storing and checking keep the records at one per hart at
/// most.
pub proof fn lemma_one_record_per_hart(
    sets: Seq<ReservationSet>,
    hart_id: usize,
    address: usize,
    size: usize,
)
    requires
        spec_one_record_per_hart(sets),
    ensures
        spec_one_record_per_hart(spec_claim(sets, hart_id, address, size)),
        spec_one_record_per_hart(spec_invalidate_others(sets, hart_id, address, size)),
        spec_one_record_per_hart(spec_check_invalidate(sets, hart_id, address, size)),
{
    lemma_find_reservation_is_first(sets, hart_id);
}

/// After a hart has claimed a reservation, its record is that
/// reservation, valid, and the record of every other hart is as it was.
pub proof fn lemma_claim_replaces_one_record(
    sets: Seq<ReservationSet>,
    hart_id: usize,
    address: usize,
    size: usize,
    other_hart: usize,
)
    ensures
        spec_reservation_of(spec_claim(sets, hart_id, address, size), hart_id) == Some(
            ReservationSet { address, size, valid: true, hart_id },
        ),
        other_hart != hart_id ==> spec_reservation_of(
            spec_claim(sets, hart_id, address, size),
            other_hart,
        ) == spec_reservation_of(sets, other_hart),
{
    let claimed = spec_claim(sets, hart_id, address, size);
    let index = spec_find_reservation(sets, hart_id);
    lemma_find_reservation_is_first(sets, hart_id);
    lemma_find_reservation(claimed, hart_id, index);
    if other_hart != hart_id {
        let other = spec_find_reservation(sets, other_hart);
        lemma_find_reservation_is_first(sets, other_hart);
        lemma_find_reservation(claimed, other_hart, if other < sets.len() {
            other
        } else {
            claimed.len() as int
        });
    }
}

/// A reservation that a hart has just taken passes its own check, once:
/// the check of the reserved range succeeds, and the check after it fails.
pub proof fn lemma_claim_then_check(
    sets: Seq<ReservationSet>,
    hart_id: usize,
    address: usize,
    size: usize,
)
    requires
        size >= 1,
    ensures
        spec_check(spec_claim(sets, hart_id, address, size), hart_id, address, size),
        !spec_check(
            spec_check_invalidate(
                spec_claim(sets, hart_id, address, size),
                hart_id,
                address,
                size,
            ),
            hart_id,
            address,
            size,
        ),
{
    let claimed = spec_claim(sets, hart_id, address, size);
    let index = spec_find_reservation(sets, hart_id);
    lemma_find_reservation_is_first(sets, hart_id);
    lemma_find_reservation(claimed, hart_id, index);
    let checked = spec_check_invalidate(claimed, hart_id, address, size);
    lemma_find_reservation(checked, hart_id, index);
}

/// A store by another hart that touches the reserved bytes invalidates the
/// reservation that a hart has just taken; one that does not leaves it
/// valid.
pub proof fn lemma_claim_then_store(
    sets: Seq<ReservationSet>,
    hart_id: usize,
    address: usize,
    size: usize,
    other_hart: usize,
    store_address: usize,
    store_size: usize,
)
    requires
        other_hart != hart_id,
    ensures
        spec_reservation_of(
            spec_invalidate_others(
                spec_claim(sets, hart_id, address, size),
                other_hart,
                store_address,
                store_size,
            ),
            hart_id,
        ) == Some(
            ReservationSet {
                address,
                size,
                valid: !(ReservationSet { address, size, valid: true, hart_id }).spec_overlaps(
                    store_address,
                    store_size,
                ),
                hart_id,
            },
        ),
{
    let claimed = spec_claim(sets, hart_id, address, size);
    let index = spec_find_reservation(sets, hart_id);
    lemma_find_reservation_is_first(sets, hart_id);
    lemma_find_reservation(claimed, hart_id, index);
    let stored = spec_invalidate_others(claimed, other_hart, store_address, store_size);
    lemma_find_reservation(stored, hart_id, index);
}

/// Why an image could not be loaded into memory.
#[derive(Debug, PartialEq, Eq, Clone, Copy, Structural)]
pub enum LoadError {
    /// The load address lies outside memory.
    AddressOutOfBounds,
    /// The image runs past the end of memory.
    InsufficientMemory,
}

impl LoadError {
    /// The description of this error.
    pub open spec fn spec_message(self) -> &'static str {
        match self {
            LoadError::AddressOutOfBounds => "kernel load address out of bounds",
            LoadError::InsufficientMemory => "insufficient memory for kernel",
        }
    }

    /// The description of this error.
    pub fn message(self) -> (message: &'static str)
        ensures
            message@ == self.spec_message()@,
    {
        match self {
            LoadError::AddressOutOfBounds => "kernel load address out of bounds",
            LoadError::InsufficientMemory => "insufficient memory for kernel",
        }
    }
}

/// The machine: a hart, RAM, a UART mapped at `uart_base`, and the
/// reservations of the harts.
pub struct Platform {
    pub hart: Hart,
    pub memory: Memory,
    pub uart: Uart,
    pub uart_base: usize,
    pub reservation_sets: Vec<ReservationSet>,
}

/// What the machine holds.
#[verifier::ext_equal]
pub struct PlatformState {
    pub hart: HartState,
    pub memory: MemoryState,
    pub uart: UartState,
    pub uart_base: usize,
    pub reservations: Seq<ReservationSet>,
}

impl View for Platform {
    type V = PlatformState;

    open spec fn view(&self) -> PlatformState {
        PlatformState {
            hart: self.hart@,
            memory: self.memory@,
            uart: self.uart@,
            uart_base: self.uart_base,
            reservations: self.reservation_sets@,
        }
    }
}

/// The UART register address behind an offset into the UART's range on the
/// bus: offset 0 is the receiver buffer, which a write takes as the
/// transmitter holding register, and the offsets after it are the
/// registers from interrupt enable on.
pub open spec fn spec_uart_register(offset: usize) -> usize {
    if offset == 0 {
        0
    } else {
        (offset + 1) as usize
    }
}

impl PlatformState {
    /// Whether `address` belongs to the UART.
    pub open spec fn uart_covers(self, address: usize) -> bool {
        self.uart_base <= address < self.uart_base + UART_SIZE
    }

    /// The machine with `hart` for its hart.
    pub open spec fn with_hart(self, hart: HartState) -> PlatformState {
        PlatformState { hart, ..self }
    }

    /// A read of `width` bytes at `address`, routed to the device that
    /// covers the address: the UART first, then memory. Where neither
    /// does, the read is `Unimplemented`.
    pub open spec fn bus_read(self, address: usize, width: nat) -> BusAccess<PlatformState> {
        if self.uart_covers(address) {
            let access = self.uart.bus_read(
                spec_uart_register((address - self.uart_base) as usize),
                width,
            );
            BusAccess { result: access.result, state: PlatformState { uart: access.state, ..self } }
        } else if self.memory.contains(address) {
            BusAccess { result: self.memory.bus_read(address, width).result, state: self }
        } else {
            spec_refused(self, ErrorKind::Unimplemented, "Unimplemented read")
        }
    }

    /// A write of the number `value` in `width` bytes at `address`, routed
    /// like a read.
    pub open spec fn bus_write(self, address: usize, value: nat, width: nat) -> BusAccess<
        PlatformState,
    > {
        if self.uart_covers(address) {
            let access = self.uart.bus_write(
                spec_uart_register((address - self.uart_base) as usize),
                value,
                width,
            );
            BusAccess { result: access.result, state: PlatformState { uart: access.state, ..self } }
        } else if self.memory.contains(address) {
            let access = self.memory.bus_write(address, value, width);
            BusAccess {
                result: access.result,
                state: PlatformState { memory: access.state, ..self },
            }
        } else {
            spec_refused(self, ErrorKind::Unimplemented, "Unimplemented write")
        }
    }

    /// The machine after hart `hart_id` has reserved `size` bytes at
    /// `address`.
    pub open spec fn claim(self, hart_id: usize, address: usize, size: usize) -> PlatformState {
        PlatformState {
            reservations: spec_claim(self.reservations, hart_id, address, size),
            ..self
        }
    }

    /// The machine after the reservations of the harts other than
    /// `hart_id` have been held against a store of `size` bytes at
    /// `address`.
    pub open spec fn invalidate_others(
        self,
        hart_id: usize,
        address: usize,
        size: usize,
    ) -> PlatformState {
        PlatformState {
            reservations: spec_invalidate_others(self.reservations, hart_id, address, size),
            ..self
        }
    }

    /// The machine after hart `hart_id` has checked its reservation
    /// against a store of `size` bytes at `address`.
    pub open spec fn check_invalidate(
        self,
        hart_id: usize,
        address: usize,
        size: usize,
    ) -> PlatformState {
        PlatformState {
            reservations: spec_check_invalidate(self.reservations, hart_id, address, size),
            ..self
        }
    }

    /// A store of the number `value` in `width` bytes at `address` by hart
    /// `hart_id`: the reservations of the other harts that it touches are
    /// invalidated, then the value is written.
    pub open spec fn write_from_hart(
        self,
        hart_id: usize,
        address: usize,
        value: nat,
        width: usize,
    ) -> BusAccess<PlatformState> {
        self.invalidate_others(hart_id, address, width).bus_write(address, value, width as nat)
    }

    /// Why an image of `len` bytes cannot be loaded at `load_address`, if
    /// it cannot.
    pub open spec fn load_error(self, len: nat, load_address: usize) -> Option<LoadError> {
        if !self.memory.contains(load_address) {
            Some(LoadError::AddressOutOfBounds)
        } else if !self.memory.in_bounds(load_address, len) {
            Some(LoadError::InsufficientMemory)
        } else {
            None
        }
    }

    /// The machine after `blob` has been copied to memory at
    /// `load_address`; unchanged if it cannot be loaded there.
    pub open spec fn load_file(self, blob: Seq<u8>, load_address: usize) -> PlatformState {
        if self.load_error(blob.len(), load_address) is None {
            PlatformState { memory: self.memory.store(load_address, blob), ..self }
        } else {
            self
        }
    }
}

impl Default for Platform {
    /// The default machine: a hart at rest, the default RAM, a UART after
    /// reset at `UART_BASE`, and the record of hart 0 with nothing
    /// reserved.
    fn default() -> (platform: Platform)
        ensures
            platform@.hart.wf(),
            platform@.hart.pc == 0,
            platform@.hart.id == 0,
            forall|i: int| 0 <= i < 32 ==> platform@.hart.registers[i] == 0,
            forall|i: int| 0 <= i < 4096 ==> platform@.hart.csrs[i] == 0,
            platform@.memory.start == MEMORY_BASE,
            platform@.memory.bytes == Seq::new(MEMORY_SIZE as nat, |i: int| 0u8),
            platform@.uart == UartState::reset(Seq::empty()),
            platform@.uart_base == UART_BASE,
            platform@.reservations == seq![
                ReservationSet { address: 0, size: 0, valid: false, hart_id: 0 },
            ],
    {
        let mut reservation_sets = Vec::new();
        reservation_sets.push(ReservationSet::default());
        Platform {
            hart: Hart::default(),
            memory: Memory::default(),
            uart: Uart::new(Vec::new()),
            uart_base: UART_BASE,
            reservation_sets,
        }
    }
}

impl Platform {
    /// Loads the device tree blob at `load_address` and leaves that
    /// address in register `a1`; on an error nothing changes.
    pub fn load_dtb(&mut self, dtb: Vec<u8>, load_address: usize) -> (result: Result<
        (),
        LoadError,
    >)
        ensures
            old(self)@.load_error(dtb@.len(), load_address) matches Some(error) ==> result == Err::<
                (),
                LoadError,
            >(error) && final(self)@ == old(self)@,
            old(self)@.load_error(dtb@.len(), load_address) is None ==> result is Ok && final(self)@
                == old(self)@.load_file(dtb@, load_address).with_hart(
                old(self)@.hart.write_register(
                    RegisterNames::a1.spec_number() as int,
                    load_address as u64,
                ),
            ),
    {
        match self.load_file(dtb, load_address) {
            Ok(()) => {},
            Err(error) => {
                return Err(error);
            },
        }
        self.hart.write_register(RegisterNames::a1.number(), load_address as u64);
        Ok(())
    }

    /// Sets the program counter to `entry_point`, then loads the kernel at
    /// `load_address`.
    pub fn load_kernel(&mut self, kernel: Vec<u8>, load_address: usize, entry_point: usize) -> (result:
        Result<(), LoadError>)
        ensures
            old(self)@.load_error(kernel@.len(), load_address) matches Some(error) ==> result
                == Err::<(), LoadError>(error),
            old(self)@.load_error(kernel@.len(), load_address) is None ==> result is Ok,
            final(self)@ == old(self)@.load_file(kernel@, load_address).with_hart(
                old(self)@.hart.with_pc(entry_point as u64),
            ),
    {
        self.hart.pc = entry_point as u64;
        self.load_file(kernel, load_address)
    }

    /// Copies `blob` to memory at `load_address`, if the address lies in
    /// memory and the whole blob fits.
    pub fn load_file(&mut self, blob: Vec<u8>, load_address: usize) -> (result: Result<
        (),
        LoadError,
    >)
        ensures
            old(self)@.load_error(blob@.len(), load_address) matches Some(error) ==> result
                == Err::<(), LoadError>(error),
            old(self)@.load_error(blob@.len(), load_address) is None ==> result is Ok,
            final(self)@ == old(self)@.load_file(blob@, load_address),
    {
        if !self.memory.contains(load_address) {
            return Err(LoadError::AddressOutOfBounds);
        }
        if !self.memory.in_bounds(load_address, blob.len()) {
            return Err(LoadError::InsufficientMemory);
        }
        self.memory.store(load_address, blob.as_slice());
        Ok(())
    }

    /// Fetches the instruction word at the program counter from the bus,
    /// decodes it and handles it.
    pub fn step(&mut self) -> (result: Result<(), Trap>)
        ensures
            result == spec_step(old(self)@).result,
            final(self)@ == spec_step(old(self)@).state,
    {
        let pc = self.hart.pc;
        let address = pc as usize;
        let word = match self.read::<u32, 4>(address) {
            Ok(word) => word,
            Err(error) => {
                return Err(Trap::Bus { pc, address, kind: error.kind() });
            },
        };
        let mut insn = Insn::from(word);
        insn.handle(self)
    }

    /// Runs the machine for `steps` instructions, or up to the first trap.
    pub fn run(&mut self, steps: u64) -> (result: Result<(), Trap>)
        ensures
            result == spec_run(old(self)@, steps as nat).result,
            final(self)@ == spec_run(old(self)@, steps as nat).state,
    {
        let mut left = steps;
        while left > 0
            invariant
                spec_run(old(self)@, steps as nat) == spec_run(self@, left as nat),
            decreases left,
        {
            match self.step() {
                Ok(()) => {},
                Err(trap) => {
                    return Err(trap);
                },
            }
            left -= 1;
        }
        Ok(())
    }

    /// Runs the machine until it traps. A machine that never traps is
    /// given up after `u64::MAX` instructions.
    pub fn emulate(&mut self) -> (result: Result<(), Trap>)
        ensures
            result == spec_run(old(self)@, u64::MAX as nat).result,
            final(self)@ == spec_run(old(self)@, u64::MAX as nat).state,
    {
        self.run(u64::MAX)
    }

    /// The index of the first record of hart `hart_id`, or the number of
    /// records if it has none.
    fn find_reservation(&self, hart_id: usize) -> (index: usize)
        ensures
            index == spec_find_reservation(self.reservation_sets@, hart_id),
            index <= self.reservation_sets@.len(),
    {
        let mut index: usize = 0;
        while index < self.reservation_sets.len() && self.reservation_sets[index].hart_id
            != hart_id
            invariant
                index <= self.reservation_sets@.len(),
                forall|i: int| 0 <= i < index ==> self.reservation_sets@[i].hart_id != hart_id,
            decreases self.reservation_sets@.len() - index,
        {
            index += 1;
        }
        proof {
            lemma_find_reservation(self.reservation_sets@, hart_id, index as int);
        }
        index
    }

    /// Claims a reservation for hart `hart_id`, replacing the one it had.
    pub fn claim_reservation_set(&mut self, hart_id: usize, address: usize, size: usize)
        ensures
            final(self)@ == old(self)@.claim(hart_id, address, size),
    {
        let index = self.find_reservation(hart_id);
        let set = ReservationSet { address, size, valid: true, hart_id };
        if index < self.reservation_sets.len() {
            self.reservation_sets[index] = set;
        } else {
            self.reservation_sets.push(set);
        }
    }

    /// Invalidates the reservations of other harts that a store of `size`
    /// bytes at `address` by hart `hart_id` touches.
    pub fn invalidate_reservation_sets(&mut self, hart_id: usize, address: usize, size: usize)
        ensures
            final(self)@ == old(self)@.invalidate_others(hart_id, address, size),
    {
        let count = self.reservation_sets.len();
        let mut index: usize = 0;
        while index < count
            invariant
                index <= count == self.reservation_sets@.len(),
                count == old(self).reservation_sets@.len(),
                self.hart == old(self).hart,
                self.memory == old(self).memory,
                self.uart == old(self).uart,
                self.uart_base == old(self).uart_base,
                forall|i: int|
                    0 <= i < index ==> self.reservation_sets@[i] == spec_invalidate_others(
                        old(self).reservation_sets@,
                        hart_id,
                        address,
                        size,
                    )[i],
                forall|i: int|
                    index <= i < count ==> self.reservation_sets@[i] == old(
                        self,
                    ).reservation_sets@[i],
            decreases count - index,
        {
            let set = self.reservation_sets[index];
            if set.hart_id != hart_id && set.valid && set.overlaps(address, size) {
                self.reservation_sets[index] = ReservationSet { valid: false, ..set };
            }
            index += 1;
        }
        assert(self.reservation_sets@ =~= spec_invalidate_others(
            old(self).reservation_sets@,
            hart_id,
            address,
            size,
        ));
    }

    /// Checks whether hart `hart_id` still holds a valid reservation that a
    /// store of `size` bytes at `address` touches, and if so invalidates
    /// it.
    pub fn check_invalidate_reservation_set(
        &mut self,
        hart_id: usize,
        address: usize,
        size: usize,
    ) -> (held: bool)
        ensures
            held == spec_check(old(self)@.reservations, hart_id, address, size),
            final(self)@ == old(self)@.check_invalidate(hart_id, address, size),
    {
        let index = self.find_reservation(hart_id);
        if index >= self.reservation_sets.len() {
            return false;
        }
        let set = self.reservation_sets[index];
        if !set.valid {
            return false;
        }
        if !set.overlaps(address, size) {
            return false;
        }
        self.reservation_sets[index] = ReservationSet { valid: false, ..set };
        true
    }

    /// Stores `value` at `address` on behalf of hart `hart_id`: first the
    /// reservations of other harts that the store touches are invalidated,
    /// then the value is written.
    pub fn write_from_hart<T, const T_SIZE: usize>(
        &mut self,
        hart_id: usize,
        address: usize,
        value: T,
    ) -> (result: Result<(), bus::Error>) where T: LeBytes<T_SIZE>
        ensures
            spec_write_gives(
                result,
                old(self)@.write_from_hart(hart_id, address, value.spec_value(), T_SIZE).result,
            ),
            final(self)@ == old(self)@.write_from_hart(
                hart_id,
                address,
                value.spec_value(),
                T_SIZE,
            ).state,
    {
        self.invalidate_reservation_sets(hart_id, address, T_SIZE);
        self.write(address, value)
    }
}

impl Bus for Platform {
    open spec fn spec_read(state: PlatformState, address: usize, width: nat) -> BusAccess<
        PlatformState,
    > {
        state.bus_read(address, width)
    }

    open spec fn spec_write(
        state: PlatformState,
        address: usize,
        value: nat,
        width: nat,
    ) -> BusAccess<PlatformState> {
        state.bus_write(address, value, width)
    }

    /// Reads from the device that covers `address`.
    fn read<T, const T_SIZE: usize>(&mut self, address: usize) -> (result: Result<
        T,
        bus::Error,
    >) where T: LeBytes<T_SIZE> {
        if address >= self.uart_base && address - self.uart_base < UART_SIZE {
            let offset = address - self.uart_base;
            let register = if offset == 0 {
                0
            } else {
                offset + 1
            };
            return self.uart.read(register);
        }
        if self.memory.contains(address) {
            return self.memory.read(address);
        }
        Err(bus::Error::new(ErrorKind::Unimplemented, "Unimplemented read"))
    }

    /// Writes to the device that covers `address`.
    fn write<T, const T_SIZE: usize>(&mut self, address: usize, value: T) -> (result: Result<
        (),
        bus::Error,
    >) where T: LeBytes<T_SIZE> {
        if address >= self.uart_base && address - self.uart_base < UART_SIZE {
            let offset = address - self.uart_base;
            let register = if offset == 0 {
                0
            } else {
                offset + 1
            };
            return self.uart.write(register, value);
        }
        if self.memory.contains(address) {
            return self.memory.write(address, value);
        }
        Err(bus::Error::new(ErrorKind::Unimplemented, "Unimplemented write"))
    }
}

} // verus!
