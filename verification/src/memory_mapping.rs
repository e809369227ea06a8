//! The memory bus: a flat 64 KiB address space in which every address is
//! owned by exactly one registered component. Registration overwrites the
//! owner table, so later registrations shadow earlier ones at overlapping
//! addresses — that is the contract used to install specific regions over the
//! catch-all default.

use vstd::prelude::*;

use crate::memory_component::{BusComponent, MemoryComponent, MemoryError, UnimplementedMemory};

verus! {

/// The bus: the registered components and, for each address, the index of
/// the component that owns it.
pub struct MemoryMapping {
    /// The registered components, in registration order. Index 0 is the
    /// catch-all for unmapped addresses.
    pub components: Vec<BusComponent>,
    /// For each of the 0x10000 addresses, the index of the owning component.
    pub memory_mapping: Vec<usize>,
}

impl MemoryMapping {
    /// The bus invariant: the owner table covers the address space, every
    /// entry points at a registered component, and every component satisfies
    /// its own invariant.
    pub open spec fn wf(self) -> bool {
        &&& self.memory_mapping@.len() == 0x10000
        &&& self.components@.len() >= 1
        &&& forall|a: int|
            0 <= a < 0x10000 ==> (#[trigger] self.memory_mapping@[a]) < self.components@.len()
        &&& forall|j: int|
            0 <= j < self.components@.len() ==> (#[trigger] self.components@[j]).inv()
    }

    /// The index of the component that owns an address.
    pub open spec fn owner(self, location: u16) -> int {
        self.memory_mapping@[location as int] as int
    }

    /// The component that owns an address.
    pub open spec fn owner_component(self, location: u16) -> BusComponent {
        self.components@[self.owner(location)]
    }

    /// What a read at the given address returns.
    pub open spec fn spec_read(self, location: u16) -> Result<u8, MemoryError> {
        self.owner_component(location).spec_read(location)
    }

    /// What a write at the given address returns.
    pub open spec fn spec_write(self, location: u16, value: u8) -> Result<(), MemoryError> {
        self.owner_component(location).spec_write(location, value)
    }

    /// Whether a write at the given address is accepted.
    pub open spec fn write_accepted(self, location: u16) -> bool {
        self.owner_component(location).write_accepted(location)
    }

    /// Whether an accepted write at the given address lands in readable
    /// storage.
    pub open spec fn stores(self, location: u16) -> bool {
        self.owner_component(location).stores(location)
    }

    /// Whether two addresses share one storage cell.
    pub open spec fn aliased(self, x: u16, y: u16) -> bool {
        self.owner(x) == self.owner(y) && self.owner_component(x).aliased(x, y)
    }

    /// What a read at `a` returns after a write of `value` at `location`:
    /// the written value on the storage cell written, the old read
    /// everywhere else.
    pub open spec fn read_after_write(self, location: u16, value: u8, a: u16) -> Result<
        u8,
        MemoryError,
    > {
        if self.write_accepted(location) && self.stores(location) && self.aliased(location, a) {
            Ok(value)
        } else {
            self.spec_read(a)
        }
    }

    /// Creates a bus whose every address is owned by the catch-all
    /// component, which refuses all accesses.
    pub fn new() -> (r: Self)
        ensures
            r.wf(),
            r.components@.len() == 1,
            r.components@[0] == BusComponent::Unimplemented(UnimplementedMemory {  }),
            forall|a: u16| r.owner(a) == 0,
    {
        let mut components: Vec<BusComponent> = Vec::new();

        components.push(BusComponent::Unimplemented(UnimplementedMemory::new()));

        MemoryMapping { components, memory_mapping: vec![0usize; 0x10000] }
    }

    /// Reads one byte by delegating to the owning component.
    pub fn read(&self, location: u16) -> (r: Result<u8, MemoryError>)
        requires
            self.wf(),
        ensures
            r == self.spec_read(location),
    {
        let component_index = self.memory_mapping[location as usize];

        self.components[component_index].read(location)
    }

    /// Appends a component and makes it the owner of every address it maps,
    /// shadowing earlier owners there.
    pub fn register_component(&mut self, component: BusComponent)
        requires
            old(self).wf(),
            component.inv(),
        ensures
            final(self).wf(),
            final(self).components@ == old(self).components@.push(component),
            forall|a: u16|
                final(self).owner(a) == if component.is_mapped(a) {
                    old(self).components@.len() as int
                } else {
                    old(self).owner(a)
                },
    {
        let component_index = self.components.len();

        self.components.push(component);

        let locations = self.components[component_index].mapped_locations();

        let ghost table0 = self.memory_mapping@;

        let mut k: usize = 0;

        while k < locations.len()
            invariant
                old(self).wf(),
                component.inv(),
                component_index == old(self).components@.len(),
                self.components@ == old(self).components@.push(component),
                self.memory_mapping@.len() == 0x10000,
                table0 == old(self).memory_mapping@,
                forall|a: u16| locations@.contains(a) <==> component.is_mapped(a),
                k <= locations@.len(),
                forall|j: int|
                    0 <= j < k ==> self.memory_mapping@[#[trigger] locations@[j] as int]
                        == component_index,
                forall|a: u16|
                    self.memory_mapping@[a as int] == table0[a as int] || (
                    self.memory_mapping@[a as int] == component_index && locations@.contains(a)),
            decreases locations@.len() - k,
        {
            let location = locations[k];

            self.memory_mapping[location as usize] = component_index;

            k = k + 1;
        }

        proof {
            assert forall|a: u16|
                self.owner(a) == if component.is_mapped(a) {
                    old(self).components@.len() as int
                } else {
                    old(self).owner(a)
                } by {
                if component.is_mapped(a) {
                    assert(locations@.contains(a));

                    let j = choose|j: int| 0 <= j < locations@.len() && locations@[j] == a;

                    assert(self.memory_mapping@[locations@[j] as int] == component_index);
                } else {
                    assert(!locations@.contains(a));
                }
            }

            assert forall|a: int|
                0 <= a < 0x10000 implies (#[trigger] self.memory_mapping@[a])
                < self.components@.len() by {
                let au = a as u16;

                assert(self.memory_mapping@[au as int] == table0[au as int] || (
                self.memory_mapping@[au as int] == component_index && locations@.contains(au)));
                assert(old(self).memory_mapping@[a] < old(self).components@.len());
            }

            assert forall|j: int|
                0 <= j < self.components@.len() implies (#[trigger] self.components@[j]).inv() by {
                if j < old(self).components@.len() {
                    assert(self.components@[j] == old(self).components@[j]);
                } else {
                    assert(self.components@[j] == component);
                }
            }
        }
    }

    /// Writes one byte by delegating to the owning component.
    pub fn write(&mut self, location: u16, value: u8) -> (r: Result<(), MemoryError>)
        requires
            old(self).wf(),
        ensures
            final(self).wf(),
            r == old(self).spec_write(location, value),
            r is Ok <==> old(self).write_accepted(location),
            forall|a: u16|
                final(self).spec_read(a) == old(self).read_after_write(location, value, a),
            forall|a: u16| final(self).owner(a) == old(self).owner(a),
            final(self).components@.len() == old(self).components@.len(),
            forall|a: u16| final(self).write_accepted(a) <==> old(self).write_accepted(a),
            forall|a: u16| final(self).stores(a) <==> old(self).stores(a),
            forall|x: u16, y: u16| final(self).aliased(x, y) <==> old(self).aliased(x, y),
            forall|x: u16, v: u8|
                #[trigger] final(self).spec_write(x, v) == old(self).spec_write(x, v),
    {
        let component_index = self.memory_mapping[location as usize];

        let r = self.components[component_index].write(location, value);

        proof {
            assert forall|a: u16|
                self.spec_read(a) == old(self).read_after_write(location, value, a) by {
                if old(self).owner(a) != old(self).owner(location) {
                    assert(self.components@[old(self).owner(a)] == old(self).components@[old(
                        self,
                    ).owner(a)]);
                }
            }

            assert forall|x: u16, v: u8|
                #[trigger] self.spec_write(x, v) == old(self).spec_write(x, v) by {
                if old(self).owner(x) != old(self).owner(location) {
                    assert(self.components@[old(self).owner(x)] == old(self).components@[old(
                        self,
                    ).owner(x)]);
                }
            }
        }

        r
    }
}

} // verus!
