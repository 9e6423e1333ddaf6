//! Composes several devices into one address space.

use vstd::prelude::*;
use crate::device::Device;
use crate::device::{bytes_read_u16, bytes_write_u16, lemma_word_of_bytes};
use crate::memory::Memory;

verus! {

/// A device bound to the inclusive address range `[start, end]`. With
/// `remap`, an address is handed to the device as `address - start`;
/// without it, unchanged.
pub struct Region<T> {
    pub device: T,
    pub start: usize,
    pub end: usize,
    pub remap: bool,
}

pub open spec fn region_contains<V>(r: Region<V>, address: int) -> bool {
    r.start <= address <= r.end
}

/// The address that the region's device sees for `address`.
pub open spec fn local_address<V>(r: Region<V>, address: int) -> int {
    if r.remap {
        address - r.start
    } else {
        address
    }
}

/// Index of the first region, from `i` on, whose range holds `address`.
pub open spec fn first_match_from<V>(rs: Seq<Region<V>>, address: int, i: int) -> Option<int>
    decreases rs.len() - i,
{
    if i < 0 || i >= rs.len() {
        None
    } else if region_contains(rs[i], address) {
        Some(i)
    } else {
        first_match_from(rs, address, i + 1)
    }
}

/// A match found from `i` on is a region at or after `i` that holds the
/// address, and none between `i` and it does.
pub proof fn lemma_first_match_from<V>(rs: Seq<Region<V>>, address: int, i: int)
    requires
        0 <= i,
    ensures
        match first_match_from(rs, address, i) {
            Some(j) => i <= j < rs.len() && region_contains(rs[j], address) && forall|k: int|
                i <= k < j ==> !region_contains(#[trigger] rs[k], address),
            None => forall|k: int| i <= k < rs.len() ==> !region_contains(#[trigger] rs[k], address),
        },
    decreases rs.len() - i,
{
    if i < rs.len() && !region_contains(rs[i], address) {
        lemma_first_match_from(rs, address, i + 1);
    }
}

/// Index of the region that serves `address`: the first, in most recently
/// mapped order, whose range holds it.
pub open spec fn first_match<V>(rs: Seq<Region<V>>, address: int) -> Option<int> {
    first_match_from(rs, address, 0)
}

/// Regions ordered most recently mapped first. Where ranges overlap, the
/// most recently mapped region serves the address.
pub struct MemoryMapper<D> {
    regions: Vec<Region<D>>,
}

impl<D: Device> View for MemoryMapper<D> {
    type V = Seq<Region<D::V>>;

    closed spec fn view(&self) -> Seq<Region<D::V>> {
        self.regions@.map_values(
            |r: Region<D>| Region { device: r.device@, start: r.start, end: r.end, remap: r.remap },
        )
    }
}

impl<D: Device> MemoryMapper<D> {
    /// Every region's range is non-empty.
    pub open spec fn wf(&self) -> bool {
        forall|i: int| 0 <= i < self@.len() ==> #[trigger] self@[i].start < self@[i].end
    }

    pub fn new() -> (r: Self)
        ensures
            r@ == Seq::<Region<D::V>>::empty(),
            r.wf(),
    {
        Self { regions: Vec::new() }
    }

    /// Maps `device` to `[start, end]`, ahead of every region mapped before.
    pub fn map(&mut self, device: D, start: usize, end: usize, remap: bool)
        requires
            start < end,
        ensures
            final(self)@ == seq![Region { device: device@, start, end, remap }] + old(self)@,
            old(self).wf() ==> final(self).wf(),
    {
        let region = Region { device, start, end, remap };
        self.regions.insert(0, region);
        proof {
            assert(self@ =~= seq![Region { device: device@, start, end, remap }] + old(self)@);
        }
    }

    /// The device of the region at `index`, most recently mapped first.
    pub fn device_mut(&mut self, index: usize) -> (r: &mut D)
        requires
            index < old(self)@.len(),
        ensures
            r@ == old(self)@[index as int].device,
            final(self)@ == old(self)@.update(
                index as int,
                Region { device: final(r)@, ..old(self)@[index as int] },
            ),
    {
        let region = &mut self.regions[index];
        &mut region.device
    }

    /// The index of the region that serves `address`.
    fn find_region(&self, address: usize) -> (r: Option<usize>)
        ensures
            r is None <==> first_match(self@, address as int) is None,
            r is Some ==> first_match(self@, address as int) == Some(r->0 as int),
            r is Some ==> r->0 < self@.len() && region_contains(self@[r->0 as int], address as int),
    {
        proof {
            lemma_first_match_from(self@, address as int, 0);
        }
        let mut i: usize = 0;
        while i < self.regions.len()
            invariant
                i <= self.regions@.len(),
                first_match_from(self@, address as int, 0) == first_match_from(
                    self@,
                    address as int,
                    i as int,
                ),
            decreases self.regions@.len() - i,
        {
            let r = &self.regions[i];
            if r.start <= address && address <= r.end {
                return Some(i);
            }
            i = i + 1;
        }
        None
    }

    fn translate(&self, index: usize, address: usize) -> (r: usize)
        requires
            index < self@.len(),
            region_contains(self@[index as int], address as int),
        ensures
            r == local_address(self@[index as int], address as int),
    {
        let region = &self.regions[index];
        if region.remap {
            address - region.start
        } else {
            address
        }
    }
}

impl<D: Device> Device for MemoryMapper<D> {
    open spec fn read_u8_spec(state: Seq<Region<D::V>>, offset: int) -> Option<u8> {
        match first_match(state, offset) {
            Some(i) => D::read_u8_spec(state[i].device, local_address(state[i], offset)),
            None => None,
        }
    }

    open spec fn read_u16_spec(state: Seq<Region<D::V>>, offset: int) -> Option<u16> {
        match first_match(state, offset) {
            Some(i) => D::read_u16_spec(state[i].device, local_address(state[i], offset)),
            None => None,
        }
    }

    open spec fn write_u8_spec(state: Seq<Region<D::V>>, offset: int, num: u8) -> Option<
        Seq<Region<D::V>>,
    > {
        match first_match(state, offset) {
            Some(i) => match D::write_u8_spec(
                state[i].device,
                local_address(state[i], offset),
                num,
            ) {
                Some(d) => Some(state.update(i, Region { device: d, ..state[i] })),
                None => None,
            },
            None => None,
        }
    }

    open spec fn write_u16_spec(state: Seq<Region<D::V>>, offset: int, num: u16) -> Option<
        Seq<Region<D::V>>,
    > {
        match first_match(state, offset) {
            Some(i) => match D::write_u16_spec(
                state[i].device,
                local_address(state[i], offset),
                num,
            ) {
                Some(d) => Some(state.update(i, Region { device: d, ..state[i] })),
                None => None,
            },
            None => None,
        }
    }

    fn read_at_u8(&self, offset: usize) -> (r: Option<u8>) {
        match self.find_region(offset) {
            Some(i) => {
                let local = self.translate(i, offset);
                assert(self@[i as int].device == self.regions@[i as int].device@);
                self.regions[i].device.read_at_u8(local)
            },
            None => None,
        }
    }

    fn read_at_u16(&self, offset: usize) -> (r: Option<u16>) {
        match self.find_region(offset) {
            Some(i) => {
                let local = self.translate(i, offset);
                assert(self@[i as int].device == self.regions@[i as int].device@);
                self.regions[i].device.read_at_u16(local)
            },
            None => None,
        }
    }

    fn write_at_u8(&mut self, offset: usize, num: u8) -> (r: Result<(), ()>) {
        match self.find_region(offset) {
            Some(i) => {
                let local = self.translate(i, offset);
                assert(old(self)@[i as int].device == old(self).regions@[i as int].device@);
                let region = &mut self.regions[i];
                let r = region.device.write_at_u8(local, num);
                proof {
                    if r is Ok {
                        assert(self@ =~= old(self)@.update(
                            i as int,
                            Region { device: self.regions@[i as int].device@, ..old(self)@[i as int] },
                        ));
                    } else {
                        assert(self@ =~= old(self)@);
                    }
                }
                r
            },
            None => Err(()),
        }
    }

    fn write_at_u16(&mut self, offset: usize, num: u16) -> (r: Result<(), ()>) {
        match self.find_region(offset) {
            Some(i) => {
                let local = self.translate(i, offset);
                assert(old(self)@[i as int].device == old(self).regions@[i as int].device@);
                let region = &mut self.regions[i];
                let r = region.device.write_at_u16(local, num);
                proof {
                    if r is Ok {
                        assert(self@ =~= old(self)@.update(
                            i as int,
                            Region { device: self.regions@[i as int].device@, ..old(self)@[i as int] },
                        ));
                    } else {
                        assert(self@ =~= old(self)@);
                    }
                }
                r
            },
            None => Err(()),
        }
    }
}

/// A newly mapped region whose range holds an address serves every read and
/// write at that address, whatever was mapped before it.
pub proof fn lemma_latest_mapping_wins<D: Device>(
    rs: Seq<Region<D::V>>,
    new: Region<D::V>,
    address: int,
)
    requires
        region_contains(new, address),
    ensures
        first_match(seq![new] + rs, address) == Some(0int),
        MemoryMapper::<D>::read_u8_spec(seq![new] + rs, address) == D::read_u8_spec(
            new.device,
            local_address(new, address),
        ),
        MemoryMapper::<D>::read_u16_spec(seq![new] + rs, address) == D::read_u16_spec(
            new.device,
            local_address(new, address),
        ),
        forall|v: u8|
            #![trigger MemoryMapper::<D>::write_u8_spec(seq![new] + rs, address, v)]
            MemoryMapper::<D>::write_u8_spec(seq![new] + rs, address, v) == match D::write_u8_spec(
                new.device,
                local_address(new, address),
                v,
            ) {
                Some(d) => Some(seq![Region { device: d, ..new }] + rs),
                None => None,
            },
        forall|v: u16|
            #![trigger MemoryMapper::<D>::write_u16_spec(seq![new] + rs, address, v)]
            MemoryMapper::<D>::write_u16_spec(seq![new] + rs, address, v)
                == match D::write_u16_spec(new.device, local_address(new, address), v) {
                Some(d) => Some(seq![Region { device: d, ..new }] + rs),
                None => None,
            },
{
    let all = seq![new] + rs;
    assert(all[0] == new);
    assert forall|v: u8|
        #[trigger] MemoryMapper::<D>::write_u8_spec(all, address, v) == match D::write_u8_spec(
            new.device,
            local_address(new, address),
            v,
        ) {
            Some(d) => Some(seq![Region { device: d, ..new }] + rs),
            None => None,
        } by {
        if let Some(d) = D::write_u8_spec(new.device, local_address(new, address), v) {
            assert(all.update(0, Region { device: d, ..all[0] }) =~= seq![Region { device: d, ..new }]
                + rs);
        }
    }
    assert forall|v: u16|
        #[trigger] MemoryMapper::<D>::write_u16_spec(all, address, v) == match D::write_u16_spec(
            new.device,
            local_address(new, address),
            v,
        ) {
            Some(d) => Some(seq![Region { device: d, ..new }] + rs),
            None => None,
        } by {
        if let Some(d) = D::write_u16_spec(new.device, local_address(new, address), v) {
            assert(all.update(0, Region { device: d, ..all[0] }) =~= seq![Region { device: d, ..new }]
                + rs);
        }
    }
}

/// Where exactly one region holds an address and that region remaps, a
/// word written there through the mapper lands in that region's memory at
/// `address - start`, no other region changes, and reading the address gives
/// the word back. The write succeeds when the word fits in that memory.
pub proof fn lemma_remapped_write_then_read(
    rs: Seq<Region<Seq<u8>>>,
    i: int,
    address: int,
    v: u16,
)
    requires
        0 <= i < rs.len(),
        rs[i].remap,
        region_contains(rs[i], address),
        forall|j: int| 0 <= j < rs.len() && j != i ==> !region_contains(#[trigger] rs[j], address),
        address - rs[i].start + 2 <= rs[i].device.len(),
    ensures
        MemoryMapper::<Memory>::write_u16_spec(rs, address, v) is Some,
        ({
            let after = MemoryMapper::<Memory>::write_u16_spec(rs, address, v)->Some_0;
            &&& after.len() == rs.len()
            &&& after[i].device == bytes_write_u16(rs[i].device, address - rs[i].start, v)->Some_0
            &&& forall|j: int| 0 <= j < rs.len() && j != i ==> after[j] == rs[j]
            &&& MemoryMapper::<Memory>::read_u16_spec(after, address) == Some(v)
            &&& bytes_read_u16(after[i].device, address - rs[i].start) == Some(v)
        }),
{
    lemma_first_match_from(rs, address, 0);
    assert(first_match(rs, address) == Some(i));
    let after = MemoryMapper::<Memory>::write_u16_spec(rs, address, v)->Some_0;
    lemma_first_match_from(after, address, 0);
    assert(forall|j: int| 0 <= j < after.len() ==> #[trigger] region_contains(after[j], address) == region_contains(rs[j], address));
    assert(first_match(after, address) == Some(i));
    lemma_word_of_bytes(v);
}

} // verus!
