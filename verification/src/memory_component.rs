//! The memory components that the bus fans out to: core-owned RAM regions,
//! stubs for the serial and sound registers, the unusable region, the
//! catch-all for unmapped addresses, and a general RAM block for embedders.
//!
//! Each component states which addresses it serves and what every read and
//! write does, through the spec members of the `MemoryComponent` trait. A
//! write is described pointwise: the trait fixes, for every address, what a
//! read returns after the write, in terms of three pure predicates — whether
//! the write is accepted, whether it lands in readable storage, and which
//! addresses share a storage cell.

use vstd::prelude::*;

verus! {

broadcast use vstd::seq_lib::lemma_seq_contains_after_push, vstd::seq_lib::lemma_seq_concat_contains_all_elements;

/// An error surfaced by a memory component.
#[derive(Clone, Debug)]
pub enum MemoryError {
    /// A read was refused: the address and the reason.
    ReadError(u16, &'static str),
    /// A write was refused: the address, the value, and the reason.
    WriteError(u16, u8, &'static str),
}

/// The contract every memory component fulfils: it owns a set of addresses,
/// and its reads and writes are pinned down by its spec members.
pub trait MemoryComponent: Sized {
    /// The component's internal invariant.
    spec fn inv(&self) -> bool;

    /// Whether this component serves the given address.
    spec fn is_mapped(&self, location: u16) -> bool;

    /// What a read at the given address returns.
    spec fn spec_read(&self, location: u16) -> Result<u8, MemoryError>;

    /// What a write at the given address returns.
    spec fn spec_write(&self, location: u16, value: u8) -> Result<(), MemoryError>;

    /// Whether a write at the given address is accepted (returns `Ok`).
    /// This never depends on the bytes currently stored.
    spec fn write_accepted(&self, location: u16) -> bool;

    /// Whether an accepted write at the given address lands in storage that
    /// later reads observe (the unusable region accepts and discards).
    spec fn stores(&self, location: u16) -> bool;

    /// Whether two addresses share one storage cell (echo RAM aliases work
    /// RAM). Only mapped addresses alias; every address aliases itself when
    /// mapped.
    spec fn aliased(&self, x: u16, y: u16) -> bool;

    /// The addresses this component serves, called once at registration.
    fn mapped_locations(&self) -> (r: Vec<u16>)
        requires
            self.inv(),
        ensures
            forall|a: u16| r@.contains(a) <==> self.is_mapped(a),
    ;

    /// Reads one byte.
    fn read(&self, location: u16) -> (r: Result<u8, MemoryError>)
        requires
            self.inv(),
        ensures
            r == self.spec_read(location),
    ;

    /// Writes one byte. Afterwards a read returns the written value exactly
    /// on the storage cell written, and is unchanged everywhere else.
    fn write(&mut self, location: u16, value: u8) -> (r: Result<(), MemoryError>)
        requires
            old(self).inv(),
        ensures
            final(self).inv(),
            r == old(self).spec_write(location, value),
            r is Ok <==> old(self).write_accepted(location),
            forall|a: u16|
                final(self).spec_read(a) == if old(self).write_accepted(location) && old(
                    self,
                ).stores(location) && old(self).aliased(location, a) {
                    Ok::<u8, MemoryError>(value)
                } else {
                    old(self).spec_read(a)
                },
            forall|a: u16| final(self).is_mapped(a) <==> old(self).is_mapped(a),
            forall|a: u16| final(self).write_accepted(a) <==> old(self).write_accepted(a),
            forall|a: u16| final(self).stores(a) <==> old(self).stores(a),
            forall|x: u16, y: u16| final(self).aliased(x, y) <==> old(self).aliased(x, y),
            forall|x: u16, v: u8|
                #[trigger] final(self).spec_write(x, v) == old(self).spec_write(x, v),
    ;
}

/// The catch-all component for unmapped addresses: every access is refused.
pub struct UnimplementedMemory {}

impl UnimplementedMemory {
    /// Creates the catch-all component.
    pub fn new() -> (r: Self) {
        UnimplementedMemory {  }
    }
}

impl MemoryComponent for UnimplementedMemory {
    open spec fn inv(&self) -> bool {
        true
    }

    open spec fn is_mapped(&self, location: u16) -> bool {
        true
    }

    open spec fn spec_read(&self, location: u16) -> Result<u8, MemoryError> {
        Err(MemoryError::ReadError(location, "unimplemented"))
    }

    open spec fn spec_write(&self, location: u16, value: u8) -> Result<(), MemoryError> {
        Err(MemoryError::WriteError(location, value, "unimplemented"))
    }

    open spec fn write_accepted(&self, location: u16) -> bool {
        false
    }

    open spec fn stores(&self, location: u16) -> bool {
        false
    }

    open spec fn aliased(&self, x: u16, y: u16) -> bool {
        x == y
    }

    fn mapped_locations(&self) -> (r: Vec<u16>) {
        let mut locations: Vec<u16> = Vec::new();
        let mut i: u32 = 0;

        while i < 0x10000
            invariant
                i <= 0x10000,
                locations@.len() == i,
                forall|k: int| 0 <= k < i ==> locations@[k] == k as u16,
            decreases 0x10000 - i,
        {
            locations.push(i as u16);

            i = i + 1;
        }

        proof {
            assert forall|a: u16| locations@.contains(a) <==> self.is_mapped(a) by {
                assert(locations@[a as int] == a);
            }
        }

        locations
    }

    fn read(&self, location: u16) -> (r: Result<u8, MemoryError>) {
        Err(MemoryError::ReadError(location, "unimplemented"))
    }

    fn write(&mut self, location: u16, value: u8) -> (r: Result<(), MemoryError>) {
        Err(MemoryError::WriteError(location, value, "unimplemented"))
    }
}

/// The start of the high-RAM area used for the stack.
pub const STACK_START_ADDRESS: u16 = 0xff80;

/// The last address of the high-RAM area used for the stack.
pub const STACK_END_ADDRESS: u16 = 0xfffe;

/// The high-RAM region `[0xFF80, 0xFFFE]`, zero-filled at construction.
pub struct StackComponent {
    /// One byte of backing storage per address, low address first.
    pub memory_state: Vec<u8>,
}

impl StackComponent {
    /// Creates the high-RAM region with every byte zeroed.
    pub fn new() -> (r: Self)
        ensures
            r.inv(),
            forall|a: u16| r.is_mapped(a) ==> r.spec_read(a) == Ok::<u8, MemoryError>(0u8),
    {
        StackComponent { memory_state: vec![0u8; 0x7f] }
    }
}

impl MemoryComponent for StackComponent {
    open spec fn inv(&self) -> bool {
        self.memory_state@.len() == 0x7f
    }

    open spec fn is_mapped(&self, location: u16) -> bool {
        STACK_START_ADDRESS <= location <= STACK_END_ADDRESS
    }

    open spec fn spec_read(&self, location: u16) -> Result<u8, MemoryError> {
        if self.is_mapped(location) && self.inv() {
            Ok(self.memory_state@[location - STACK_START_ADDRESS])
        } else {
            Err(MemoryError::ReadError(location, "invalid state"))
        }
    }

    open spec fn spec_write(&self, location: u16, value: u8) -> Result<(), MemoryError> {
        if self.is_mapped(location) {
            Ok(())
        } else {
            Err(MemoryError::WriteError(location, value, "invalid state"))
        }
    }

    open spec fn write_accepted(&self, location: u16) -> bool {
        self.is_mapped(location)
    }

    open spec fn stores(&self, location: u16) -> bool {
        true
    }

    open spec fn aliased(&self, x: u16, y: u16) -> bool {
        x == y && self.is_mapped(x)
    }

    fn mapped_locations(&self) -> (r: Vec<u16>) {
        range_locations(STACK_START_ADDRESS, STACK_END_ADDRESS)
    }

    fn read(&self, location: u16) -> (r: Result<u8, MemoryError>) {
        if STACK_START_ADDRESS <= location && location <= STACK_END_ADDRESS {
            Ok(self.memory_state[(location - STACK_START_ADDRESS) as usize])
        } else {
            Err(MemoryError::ReadError(location, "invalid state"))
        }
    }

    fn write(&mut self, location: u16, value: u8) -> (r: Result<(), MemoryError>) {
        if STACK_START_ADDRESS <= location && location <= STACK_END_ADDRESS {
            self.memory_state[(location - STACK_START_ADDRESS) as usize] = value;

            Ok(())
        } else {
            Err(MemoryError::WriteError(location, value, "invalid state"))
        }
    }
}

/// The first work-RAM address.
pub const WORK_RAM_START_ADDRESS: u16 = 0xc000;

/// The last work-RAM address.
pub const WORK_RAM_END_ADDRESS: u16 = 0xdfff;

/// The first echo-RAM address; echo RAM mirrors `[0xC000, 0xDDFF]`.
pub const ECHO_RAM_START_ADDRESS: u16 = 0xe000;

/// The last echo-RAM address.
pub const ECHO_RAM_END_ADDRESS: u16 = 0xfdff;

/// Work RAM `[0xC000, 0xDFFF]` together with its echo `[0xE000, 0xFDFF]`.
///
/// Both address ranges map into the same storage: a write at `0xC000 + k` for
/// `k < 0x1E00` is observable at `0xE000 + k`, and the other way round.
pub struct WorkRamComponent {
    /// The single shared backing storage of 0x2000 bytes.
    pub memory_state: Vec<u8>,
}

impl WorkRamComponent {
    /// Creates the work-RAM region with every byte zeroed.
    pub fn new() -> (r: Self)
        ensures
            r.inv(),
            forall|a: u16| r.is_mapped(a) ==> r.spec_read(a) == Ok::<u8, MemoryError>(0u8),
    {
        WorkRamComponent { memory_state: vec![0u8; 0x2000] }
    }

    /// The index into the shared storage that an address falls on.
    pub open spec fn storage_index(location: u16) -> int {
        if WORK_RAM_START_ADDRESS <= location <= WORK_RAM_END_ADDRESS {
            location - WORK_RAM_START_ADDRESS
        } else {
            location - ECHO_RAM_START_ADDRESS
        }
    }
}

impl MemoryComponent for WorkRamComponent {
    open spec fn inv(&self) -> bool {
        self.memory_state@.len() == 0x2000
    }

    open spec fn is_mapped(&self, location: u16) -> bool {
        (WORK_RAM_START_ADDRESS <= location <= WORK_RAM_END_ADDRESS) || (ECHO_RAM_START_ADDRESS
            <= location <= ECHO_RAM_END_ADDRESS)
    }

    open spec fn spec_read(&self, location: u16) -> Result<u8, MemoryError> {
        if self.is_mapped(location) && self.inv() {
            Ok(self.memory_state@[Self::storage_index(location)])
        } else {
            Err(MemoryError::ReadError(location, "invalid state"))
        }
    }

    open spec fn spec_write(&self, location: u16, value: u8) -> Result<(), MemoryError> {
        if self.is_mapped(location) {
            Ok(())
        } else {
            Err(MemoryError::WriteError(location, value, "invalid state"))
        }
    }

    open spec fn write_accepted(&self, location: u16) -> bool {
        self.is_mapped(location)
    }

    open spec fn stores(&self, location: u16) -> bool {
        true
    }

    open spec fn aliased(&self, x: u16, y: u16) -> bool {
        self.is_mapped(x) && self.is_mapped(y) && Self::storage_index(x) == Self::storage_index(y)
    }

    fn mapped_locations(&self) -> (r: Vec<u16>) {
        let mut locations = range_locations(WORK_RAM_START_ADDRESS, WORK_RAM_END_ADDRESS);
        let mut echo = range_locations(ECHO_RAM_START_ADDRESS, ECHO_RAM_END_ADDRESS);

        locations.append(&mut echo);

        locations
    }

    fn read(&self, location: u16) -> (r: Result<u8, MemoryError>) {
        if WORK_RAM_START_ADDRESS <= location && location <= WORK_RAM_END_ADDRESS {
            Ok(self.memory_state[(location - WORK_RAM_START_ADDRESS) as usize])
        } else if ECHO_RAM_START_ADDRESS <= location && location <= ECHO_RAM_END_ADDRESS {
            Ok(self.memory_state[(location - ECHO_RAM_START_ADDRESS) as usize])
        } else {
            Err(MemoryError::ReadError(location, "invalid state"))
        }
    }

    fn write(&mut self, location: u16, value: u8) -> (r: Result<(), MemoryError>) {
        if WORK_RAM_START_ADDRESS <= location && location <= WORK_RAM_END_ADDRESS {
            self.memory_state[(location - WORK_RAM_START_ADDRESS) as usize] = value;

            Ok(())
        } else if ECHO_RAM_START_ADDRESS <= location && location <= ECHO_RAM_END_ADDRESS {
            self.memory_state[(location - ECHO_RAM_START_ADDRESS) as usize] = value;

            Ok(())
        } else {
            Err(MemoryError::WriteError(location, value, "invalid state"))
        }
    }
}

/// Echo RAM is a data-level mirror of work RAM: a value written through
/// either range is read back through the other at the same offset.
pub proof fn lemma_echo_ram_mirrors_work_ram(
    pre: WorkRamComponent,
    post: WorkRamComponent,
    k: u16,
    value: u8,
)
    requires
        pre.inv(),
        k < 0x1e00,
        forall|a: u16|
            post.spec_read(a) == if pre.write_accepted((WORK_RAM_START_ADDRESS + k) as u16)
                && pre.stores((WORK_RAM_START_ADDRESS + k) as u16) && pre.aliased(
                (WORK_RAM_START_ADDRESS + k) as u16,
                a,
            ) {
                Ok::<u8, MemoryError>(value)
            } else {
                pre.spec_read(a)
            },
    ensures
        post.spec_read((ECHO_RAM_START_ADDRESS + k) as u16) == Ok::<u8, MemoryError>(value),
        post.spec_read((WORK_RAM_START_ADDRESS + k) as u16) == Ok::<u8, MemoryError>(value),
{
}

/// The serial transfer data register SB.
pub const SB_ADDRESS: u16 = 0xff01;

/// The serial transfer control register SC.
pub const SC_ADDRESS: u16 = 0xff02;

/// A stub for the serial-transfer registers `{0xFF01, 0xFF02}`: it claims the
/// two addresses and refuses every access.
pub struct SerialTransferComponent {}

impl SerialTransferComponent {
    /// Creates the serial stub.
    pub fn new() -> (r: Self) {
        SerialTransferComponent {  }
    }
}

impl MemoryComponent for SerialTransferComponent {
    open spec fn inv(&self) -> bool {
        true
    }

    open spec fn is_mapped(&self, location: u16) -> bool {
        location == SB_ADDRESS || location == SC_ADDRESS
    }

    open spec fn spec_read(&self, location: u16) -> Result<u8, MemoryError> {
        Err(MemoryError::ReadError(location, "unimplemented"))
    }

    open spec fn spec_write(&self, location: u16, value: u8) -> Result<(), MemoryError> {
        Err(MemoryError::WriteError(location, value, "unimplemented"))
    }

    open spec fn write_accepted(&self, location: u16) -> bool {
        false
    }

    open spec fn stores(&self, location: u16) -> bool {
        false
    }

    open spec fn aliased(&self, x: u16, y: u16) -> bool {
        x == y
    }

    fn mapped_locations(&self) -> (r: Vec<u16>) {
        let mut locations: Vec<u16> = Vec::new();

        locations.push(SB_ADDRESS);
        locations.push(SC_ADDRESS);

        proof {
            assert forall|a: u16| locations@.contains(a) <==> self.is_mapped(a) by {
                if a == SB_ADDRESS {
                    assert(locations@[0] == a);
                }
                if a == SC_ADDRESS {
                    assert(locations@[1] == a);
                }
            }
        }

        locations
    }

    fn read(&self, location: u16) -> (r: Result<u8, MemoryError>) {
        Err(MemoryError::ReadError(location, "unimplemented"))
    }

    fn write(&mut self, location: u16, value: u8) -> (r: Result<(), MemoryError>) {
        Err(MemoryError::WriteError(location, value, "unimplemented"))
    }
}

/// The first sound register address, NR10.
pub const SOUND_REGISTER_START_ADDRESS: u16 = 0xff10;

/// The last sound register address, NR52.
pub const SOUND_REGISTER_END_ADDRESS: u16 = 0xff26;

/// The first byte of wave pattern RAM.
pub const WAVE_PATTERN_RAM_START_ADDRESS: u16 = 0xff30;

/// The last byte of wave pattern RAM.
pub const WAVE_PATTERN_RAM_END_ADDRESS: u16 = 0xff3f;

/// A stub backing store for the NR10..NR52 sound registers and the wave
/// pattern RAM. The two unassigned holes 0xFF15 and 0xFF1F are not mapped.
pub struct SoundComponent {
    /// One byte per address in `[0xFF10, 0xFF3F]`, including the holes.
    pub memory_state: Vec<u8>,
}

impl SoundComponent {
    /// Creates the sound stub with every register zeroed.
    pub fn new() -> (r: Self)
        ensures
            r.inv(),
            forall|a: u16| r.is_mapped(a) ==> r.spec_read(a) == Ok::<u8, MemoryError>(0u8),
    {
        SoundComponent { memory_state: vec![0u8; 0x30] }
    }
}

impl MemoryComponent for SoundComponent {
    open spec fn inv(&self) -> bool {
        self.memory_state@.len() == 0x30
    }

    open spec fn is_mapped(&self, location: u16) -> bool {
        (SOUND_REGISTER_START_ADDRESS <= location <= SOUND_REGISTER_END_ADDRESS && location
            != 0xff15 && location != 0xff1f) || (WAVE_PATTERN_RAM_START_ADDRESS <= location
            <= WAVE_PATTERN_RAM_END_ADDRESS)
    }

    open spec fn spec_read(&self, location: u16) -> Result<u8, MemoryError> {
        if self.is_mapped(location) && self.inv() {
            Ok(self.memory_state@[location - SOUND_REGISTER_START_ADDRESS])
        } else {
            Err(MemoryError::ReadError(location, "invalid state"))
        }
    }

    open spec fn spec_write(&self, location: u16, value: u8) -> Result<(), MemoryError> {
        if self.is_mapped(location) {
            Ok(())
        } else {
            Err(MemoryError::WriteError(location, value, "invalid state"))
        }
    }

    open spec fn write_accepted(&self, location: u16) -> bool {
        self.is_mapped(location)
    }

    open spec fn stores(&self, location: u16) -> bool {
        true
    }

    open spec fn aliased(&self, x: u16, y: u16) -> bool {
        x == y && self.is_mapped(x)
    }

    fn mapped_locations(&self) -> (r: Vec<u16>) {
        let mut locations: Vec<u16> = Vec::new();
        let mut a: u16 = SOUND_REGISTER_START_ADDRESS;

        while a <= WAVE_PATTERN_RAM_END_ADDRESS
            invariant
                SOUND_REGISTER_START_ADDRESS <= a <= WAVE_PATTERN_RAM_END_ADDRESS + 1,
                forall|k: int|
                    0 <= k < locations@.len() ==> (self.is_mapped(#[trigger] locations@[k])
                        && locations@[k] < a),
                forall|x: u16| self.is_mapped(x) && x < a ==> locations@.contains(x),
            decreases WAVE_PATTERN_RAM_END_ADDRESS + 1 - a,
        {
            let mapped = (a <= SOUND_REGISTER_END_ADDRESS && a != 0xff15 && a != 0xff1f) || a
                >= WAVE_PATTERN_RAM_START_ADDRESS;

            if mapped {
                locations.push(a);
            }

            a = a + 1;
        }

        locations
    }

    fn read(&self, location: u16) -> (r: Result<u8, MemoryError>) {
        let mapped = (SOUND_REGISTER_START_ADDRESS <= location && location
            <= SOUND_REGISTER_END_ADDRESS && location != 0xff15 && location != 0xff1f) || (
        WAVE_PATTERN_RAM_START_ADDRESS <= location && location <= WAVE_PATTERN_RAM_END_ADDRESS);

        if mapped {
            Ok(self.memory_state[(location - SOUND_REGISTER_START_ADDRESS) as usize])
        } else {
            Err(MemoryError::ReadError(location, "invalid state"))
        }
    }

    fn write(&mut self, location: u16, value: u8) -> (r: Result<(), MemoryError>) {
        let mapped = (SOUND_REGISTER_START_ADDRESS <= location && location
            <= SOUND_REGISTER_END_ADDRESS && location != 0xff15 && location != 0xff1f) || (
        WAVE_PATTERN_RAM_START_ADDRESS <= location && location <= WAVE_PATTERN_RAM_END_ADDRESS);

        if mapped {
            self.memory_state[(location - SOUND_REGISTER_START_ADDRESS) as usize] = value;

            Ok(())
        } else {
            Err(MemoryError::WriteError(location, value, "invalid state"))
        }
    }
}

/// The first address of the unusable region.
pub const UNUSABLE_AREA_START_ADDRESS: u16 = 0xfea0;

/// The last address of the unusable region.
pub const UNUSABLE_AREA_END_ADDRESS: u16 = 0xfeff;

/// The unusable region `[0xFEA0, 0xFEFF]`: reads return zero and writes are
/// accepted but discarded.
pub struct UnusableRamComponent {}

impl UnusableRamComponent {
    /// Creates the unusable-region component.
    pub fn new() -> (r: Self) {
        UnusableRamComponent {  }
    }
}

impl MemoryComponent for UnusableRamComponent {
    open spec fn inv(&self) -> bool {
        true
    }

    open spec fn is_mapped(&self, location: u16) -> bool {
        UNUSABLE_AREA_START_ADDRESS <= location <= UNUSABLE_AREA_END_ADDRESS
    }

    open spec fn spec_read(&self, location: u16) -> Result<u8, MemoryError> {
        Ok(0u8)
    }

    open spec fn spec_write(&self, location: u16, value: u8) -> Result<(), MemoryError> {
        Ok(())
    }

    open spec fn write_accepted(&self, location: u16) -> bool {
        true
    }

    open spec fn stores(&self, location: u16) -> bool {
        false
    }

    open spec fn aliased(&self, x: u16, y: u16) -> bool {
        x == y
    }

    fn mapped_locations(&self) -> (r: Vec<u16>) {
        range_locations(UNUSABLE_AREA_START_ADDRESS, UNUSABLE_AREA_END_ADDRESS)
    }

    fn read(&self, location: u16) -> (r: Result<u8, MemoryError>) {
        Ok(0u8)
    }

    fn write(&mut self, location: u16, value: u8) -> (r: Result<(), MemoryError>) {
        Ok(())
    }
}

/// A general RAM block for embedders: an explicit set of mapped addresses,
/// each with one byte of storage. Reads and writes outside the mapped set
/// are refused.
pub struct RamComponent {
    /// Whether each of the 0x10000 addresses is mapped.
    pub mapped: Vec<bool>,
    /// The byte stored at each address.
    pub data: Vec<u8>,
}

impl RamComponent {
    /// Creates a RAM block with no address mapped.
    pub fn new() -> (r: Self)
        ensures
            r.inv(),
            forall|a: u16| !r.is_mapped(a),
    {
        RamComponent { mapped: vec![false; 0x10000], data: vec![0u8; 0x10000] }
    }

    /// Maps one address and stores a byte there.
    pub fn insert(&mut self, location: u16, value: u8)
        requires
            old(self).inv(),
        ensures
            final(self).inv(),
            forall|a: u16| final(self).is_mapped(a) <==> (old(self).is_mapped(a) || a == location),
            forall|a: u16|
                a != location ==> final(self).spec_read(a) == old(self).spec_read(a),
            final(self).spec_read(location) == Ok::<u8, MemoryError>(value),
    {
        self.mapped[location as usize] = true;
        self.data[location as usize] = value;
    }
}

impl MemoryComponent for RamComponent {
    open spec fn inv(&self) -> bool {
        self.mapped@.len() == 0x10000 && self.data@.len() == 0x10000
    }

    open spec fn is_mapped(&self, location: u16) -> bool {
        self.mapped@.len() == 0x10000 && self.mapped@[location as int]
    }

    open spec fn spec_read(&self, location: u16) -> Result<u8, MemoryError> {
        if self.is_mapped(location) && self.inv() {
            Ok(self.data@[location as int])
        } else {
            Err(MemoryError::ReadError(location, "invalid state"))
        }
    }

    open spec fn spec_write(&self, location: u16, value: u8) -> Result<(), MemoryError> {
        if self.is_mapped(location) {
            Ok(())
        } else {
            Err(MemoryError::WriteError(location, value, "invalid state"))
        }
    }

    open spec fn write_accepted(&self, location: u16) -> bool {
        self.is_mapped(location)
    }

    open spec fn stores(&self, location: u16) -> bool {
        true
    }

    open spec fn aliased(&self, x: u16, y: u16) -> bool {
        x == y && self.is_mapped(x)
    }

    fn mapped_locations(&self) -> (r: Vec<u16>) {
        let mut locations: Vec<u16> = Vec::new();
        let mut i: u32 = 0;

        while i < 0x10000
            invariant
                self.inv(),
                i <= 0x10000,
                forall|k: int|
                    0 <= k < locations@.len() ==> (self.is_mapped(#[trigger] locations@[k])
                        && locations@[k] < i),
                forall|x: u16| self.is_mapped(x) && x < i ==> locations@.contains(x),
            decreases 0x10000 - i,
        {
            if self.mapped[i as usize] {
                locations.push(i as u16);
            }

            i = i + 1;
        }

        locations
    }

    fn read(&self, location: u16) -> (r: Result<u8, MemoryError>) {
        if self.mapped[location as usize] {
            Ok(self.data[location as usize])
        } else {
            Err(MemoryError::ReadError(location, "invalid state"))
        }
    }

    fn write(&mut self, location: u16, value: u8) -> (r: Result<(), MemoryError>) {
        if self.mapped[location as usize] {
            self.data[location as usize] = value;

            Ok(())
        } else {
            Err(MemoryError::WriteError(location, value, "invalid state"))
        }
    }
}

/// One registered component of the bus: the tag says which kind serves the
/// addresses, the payload holds its state.
pub enum BusComponent {
    /// A general RAM block supplied by the embedder.
    Ram(RamComponent),
    /// The serial-transfer stub.
    Serial(SerialTransferComponent),
    /// The sound-register stub.
    Sound(SoundComponent),
    /// The high-RAM stack area.
    Stack(StackComponent),
    /// The catch-all for unmapped addresses.
    Unimplemented(UnimplementedMemory),
    /// The unusable region.
    Unusable(UnusableRamComponent),
    /// Work RAM with its echo.
    WorkRam(WorkRamComponent),
}

impl MemoryComponent for BusComponent {
    open spec fn inv(&self) -> bool {
        match self {
            BusComponent::Ram(c) => c.inv(),
            BusComponent::Serial(c) => c.inv(),
            BusComponent::Sound(c) => c.inv(),
            BusComponent::Stack(c) => c.inv(),
            BusComponent::Unimplemented(c) => c.inv(),
            BusComponent::Unusable(c) => c.inv(),
            BusComponent::WorkRam(c) => c.inv(),
        }
    }

    open spec fn is_mapped(&self, location: u16) -> bool {
        match self {
            BusComponent::Ram(c) => c.is_mapped(location),
            BusComponent::Serial(c) => c.is_mapped(location),
            BusComponent::Sound(c) => c.is_mapped(location),
            BusComponent::Stack(c) => c.is_mapped(location),
            BusComponent::Unimplemented(c) => c.is_mapped(location),
            BusComponent::Unusable(c) => c.is_mapped(location),
            BusComponent::WorkRam(c) => c.is_mapped(location),
        }
    }

    open spec fn spec_read(&self, location: u16) -> Result<u8, MemoryError> {
        match self {
            BusComponent::Ram(c) => c.spec_read(location),
            BusComponent::Serial(c) => c.spec_read(location),
            BusComponent::Sound(c) => c.spec_read(location),
            BusComponent::Stack(c) => c.spec_read(location),
            BusComponent::Unimplemented(c) => c.spec_read(location),
            BusComponent::Unusable(c) => c.spec_read(location),
            BusComponent::WorkRam(c) => c.spec_read(location),
        }
    }

    open spec fn spec_write(&self, location: u16, value: u8) -> Result<(), MemoryError> {
        match self {
            BusComponent::Ram(c) => c.spec_write(location, value),
            BusComponent::Serial(c) => c.spec_write(location, value),
            BusComponent::Sound(c) => c.spec_write(location, value),
            BusComponent::Stack(c) => c.spec_write(location, value),
            BusComponent::Unimplemented(c) => c.spec_write(location, value),
            BusComponent::Unusable(c) => c.spec_write(location, value),
            BusComponent::WorkRam(c) => c.spec_write(location, value),
        }
    }

    open spec fn write_accepted(&self, location: u16) -> bool {
        match self {
            BusComponent::Ram(c) => c.write_accepted(location),
            BusComponent::Serial(c) => c.write_accepted(location),
            BusComponent::Sound(c) => c.write_accepted(location),
            BusComponent::Stack(c) => c.write_accepted(location),
            BusComponent::Unimplemented(c) => c.write_accepted(location),
            BusComponent::Unusable(c) => c.write_accepted(location),
            BusComponent::WorkRam(c) => c.write_accepted(location),
        }
    }

    open spec fn stores(&self, location: u16) -> bool {
        match self {
            BusComponent::Ram(c) => c.stores(location),
            BusComponent::Serial(c) => c.stores(location),
            BusComponent::Sound(c) => c.stores(location),
            BusComponent::Stack(c) => c.stores(location),
            BusComponent::Unimplemented(c) => c.stores(location),
            BusComponent::Unusable(c) => c.stores(location),
            BusComponent::WorkRam(c) => c.stores(location),
        }
    }

    open spec fn aliased(&self, x: u16, y: u16) -> bool {
        match self {
            BusComponent::Ram(c) => c.aliased(x, y),
            BusComponent::Serial(c) => c.aliased(x, y),
            BusComponent::Sound(c) => c.aliased(x, y),
            BusComponent::Stack(c) => c.aliased(x, y),
            BusComponent::Unimplemented(c) => c.aliased(x, y),
            BusComponent::Unusable(c) => c.aliased(x, y),
            BusComponent::WorkRam(c) => c.aliased(x, y),
        }
    }

    fn mapped_locations(&self) -> (r: Vec<u16>) {
        match self {
            BusComponent::Ram(c) => c.mapped_locations(),
            BusComponent::Serial(c) => c.mapped_locations(),
            BusComponent::Sound(c) => c.mapped_locations(),
            BusComponent::Stack(c) => c.mapped_locations(),
            BusComponent::Unimplemented(c) => c.mapped_locations(),
            BusComponent::Unusable(c) => c.mapped_locations(),
            BusComponent::WorkRam(c) => c.mapped_locations(),
        }
    }

    fn read(&self, location: u16) -> (r: Result<u8, MemoryError>) {
        match self {
            BusComponent::Ram(c) => c.read(location),
            BusComponent::Serial(c) => c.read(location),
            BusComponent::Sound(c) => c.read(location),
            BusComponent::Stack(c) => c.read(location),
            BusComponent::Unimplemented(c) => c.read(location),
            BusComponent::Unusable(c) => c.read(location),
            BusComponent::WorkRam(c) => c.read(location),
        }
    }

    fn write(&mut self, location: u16, value: u8) -> (r: Result<(), MemoryError>) {
        match self {
            BusComponent::Ram(c) => c.write(location, value),
            BusComponent::Serial(c) => c.write(location, value),
            BusComponent::Sound(c) => c.write(location, value),
            BusComponent::Stack(c) => c.write(location, value),
            BusComponent::Unimplemented(c) => c.write(location, value),
            BusComponent::Unusable(c) => c.write(location, value),
            BusComponent::WorkRam(c) => c.write(location, value),
        }
    }
}

/// The addresses of the inclusive range `[start, end]`, low first.
fn range_locations(start: u16, end: u16) -> (r: Vec<u16>)
    requires
        start <= end,
    ensures
        forall|a: u16| r@.contains(a) <==> start <= a <= end,
{
    let mut locations: Vec<u16> = Vec::new();
    let mut a: u32 = start as u32;

    while a <= end as u32
        invariant
            start <= a <= end + 1,
            forall|x: u16| locations@.contains(x) ==> (start <= x && x < a),
            forall|x: u16| start <= x && x < a ==> locations@.contains(x),
        decreases end + 1 - a,
    {
        locations.push(a as u16);

        a = a + 1;
    }

    locations
}

} // verus!
