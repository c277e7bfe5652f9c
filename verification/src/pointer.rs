//! A model of pointers under per-byte provenance: a pointer is an address and
//! the allocation it may access, and each byte it is stored as remembers that
//! allocation.

use vstd::prelude::*;
use vstd::bytes::{
    lemma_auto_spec_u64_to_from_le_bytes,
    spec_u64_from_le_bytes,
    spec_u64_to_le_bytes,
    u64_from_le_bytes,
    u64_to_le_bytes,
};
use crate::slot::{MemByte, Slot};
use crate::transport::{combined, extracted};

verus! {

/// The identity of an allocation. A pointer may access memory only through
/// the provenance it carries, whatever its address says.
#[derive(Clone, Copy, Debug, PartialEq, Eq, Structural)]
pub struct Provenance {
    pub alloc: u64,
}

/// One byte of memory: its numeric value and the provenance of the pointer
/// it was written as part of, if any.
#[derive(Clone, Copy, Debug, PartialEq, Eq)]
pub struct TaggedByte {
    pub value: u8,
    pub prov: Option<Provenance>,
}

impl MemByte for TaggedByte {
    open spec fn zero() -> TaggedByte {
        TaggedByte { value: 0, prov: None }
    }

    fn zeroed() -> (byte: TaggedByte) {
        TaggedByte { value: 0, prov: None }
    }
}

/// A pointer: a numeric address and, separately, the provenance that makes
/// the address usable. A pointer without provenance may not be dereferenced.
#[derive(Clone, Copy, Debug, PartialEq, Eq)]
pub struct PointerValue {
    pub addr: u64,
    pub prov: Option<Provenance>,
}

/// The numeric values of `bytes`, without their provenance.
pub open spec fn byte_values(bytes: Seq<TaggedByte>) -> Seq<u8> {
    bytes.map_values(|byte: TaggedByte| byte.value)
}

/// The provenance that `bytes` give to a pointer read from them: the one they
/// all carry if they agree, none if any two differ.
pub open spec fn shared_provenance(bytes: Seq<TaggedByte>) -> Option<Provenance>
    recommends
        bytes.len() > 0,
{
    if forall|i: int| 0 <= i < bytes.len() ==> (#[trigger] bytes[i]).prov == bytes[0].prov {
        bytes[0].prov
    } else {
        None
    }
}

fn same_provenance(x: Option<Provenance>, y: Option<Provenance>) -> (same: bool)
    ensures
        same == (x == y),
{
    match (x, y) {
        (None, None) => true,
        (Some(p), Some(q)) => p == q,
        _ => false,
    }
}

impl PointerValue {
    /// The eight bytes this pointer is stored as: its address, least
    /// significant byte first, each byte carrying the pointer's provenance.
    pub open spec fn stored(self) -> Seq<TaggedByte> {
        Seq::new(
            8,
            |i: int| TaggedByte { value: spec_u64_to_le_bytes(self.addr)[i], prov: self.prov },
        )
    }

    /// The pointer that eight bytes are read as.
    pub open spec fn loaded(bytes: Seq<TaggedByte>) -> PointerValue
        recommends
            bytes.len() == 8,
    {
        PointerValue {
            addr: spec_u64_from_le_bytes(byte_values(bytes)),
            prov: shared_provenance(bytes),
        }
    }

    /// This pointer moved to `addr`: the provenance stays, the address goes.
    pub open spec fn spec_with_addr(self, addr: u64) -> PointerValue {
        PointerValue { addr, prov: self.prov }
    }

    /// The address of this pointer, without its provenance.
    pub fn addr(self) -> (addr: u64)
        ensures
            addr == self.addr,
    {
        self.addr
    }

    /// A pointer to `addr` with the provenance of this one.
    #[verifier::when_used_as_spec(spec_with_addr)]
    pub fn with_addr(self, addr: u64) -> (ptr: PointerValue)
        ensures
            ptr == self.spec_with_addr(addr),
    {
        PointerValue { addr, prov: self.prov }
    }

    /// Writes this pointer into a slot.
    pub fn to_slot(self) -> (slot: Slot<TaggedByte>)
        ensures
            slot@ == self.stored(),
            PointerValue::loaded(slot@) == self,
    {
        let values = u64_to_le_bytes(self.addr);
        let prov = self.prov;
        let slot = Slot {
            bytes: [
                TaggedByte { value: values[0], prov },
                TaggedByte { value: values[1], prov },
                TaggedByte { value: values[2], prov },
                TaggedByte { value: values[3], prov },
                TaggedByte { value: values[4], prov },
                TaggedByte { value: values[5], prov },
                TaggedByte { value: values[6], prov },
                TaggedByte { value: values[7], prov },
            ],
        };
        proof {
            assert(slot@ =~= self.stored());
            store_then_load(self);
        }
        slot
    }

    /// Reads a pointer out of a slot.
    pub fn from_slot(slot: &Slot<TaggedByte>) -> (ptr: PointerValue)
        ensures
            ptr == PointerValue::loaded(slot@),
    {
        let values: [u8; 8] = [
            slot.bytes[0].value,
            slot.bytes[1].value,
            slot.bytes[2].value,
            slot.bytes[3].value,
            slot.bytes[4].value,
            slot.bytes[5].value,
            slot.bytes[6].value,
            slot.bytes[7].value,
        ];
        assert(values@ =~= byte_values(slot@));
        let addr = u64_from_le_bytes(values.as_slice());

        let first = slot.bytes[0].prov;
        let mut agree = true;
        let mut i: usize = 1;
        while i < 8
            invariant
                1 <= i <= 8,
                first == slot@[0].prov,
                agree == forall|j: int| 0 <= j < i ==> (#[trigger] slot@[j]).prov == slot@[0].prov,
            decreases 8 - i,
        {
            if !same_provenance(slot.bytes[i].prov, first) {
                agree = false;
            }
            i += 1;
        }
        PointerValue { addr, prov: if agree { first } else { None } }
    }
}

/// A pointer written to memory and read back is the same pointer.
pub proof fn store_then_load(ptr: PointerValue)
    ensures
        PointerValue::loaded(ptr.stored()) == ptr,
{
    lemma_auto_spec_u64_to_from_le_bytes();
    assert(byte_values(ptr.stored()) =~= spec_u64_to_le_bytes(ptr.addr));
}

/// The two pointers read back after `a` and `b` were stored, packed into one
/// slot and unpacked again.
pub open spec fn transported(a: PointerValue, b: PointerValue) -> (PointerValue, PointerValue) {
    let halves = extracted(combined(a.stored(), b.stored()));
    (PointerValue::loaded(halves.0), PointerValue::loaded(halves.1))
}

/// Both pointers survive the trip through a single slot: each recovered
/// pointer, given back the address of the pointer that went in, is that
/// pointer again, address and provenance alike, so it accesses what that
/// pointer accessed.
pub proof fn round_trip_restores_pointers(a: PointerValue, b: PointerValue)
    ensures
        transported(a, b).0.with_addr(a.addr) == a,
        transported(a, b).1.with_addr(b.addr) == b,
{
    provenance_survives(a, b);
}

/// The first recovered pointer carries the provenance of the first input and
/// the second that of the second input.
pub proof fn provenance_survives(a: PointerValue, b: PointerValue)
    ensures
        transported(a, b).0.prov == a.prov,
        transported(a, b).1.prov == b.prov,
{
    let halves = extracted(combined(a.stored(), b.stored()));
    assert forall|i: int| 0 <= i < halves.0.len() implies (#[trigger] halves.0[i]).prov
        == a.prov by {}
    assert forall|i: int| 0 <= i < halves.1.len() implies (#[trigger] halves.1[i]).prov
        == b.prov by {}
    assert(halves.0[0].prov == a.prov);
    assert(halves.1[0].prov == b.prov);
}

/// Which output recovers which provenance does not depend on any address:
/// two pairs of pointers that differ only in their addresses come back with
/// the same provenances in the same places.
pub proof fn addresses_do_not_matter(
    a: PointerValue,
    b: PointerValue,
    a_moved: PointerValue,
    b_moved: PointerValue,
)
    requires
        a_moved.prov == a.prov,
        b_moved.prov == b.prov,
    ensures
        transported(a_moved, b_moved).0.prov == transported(a, b).0.prov,
        transported(a_moved, b_moved).1.prov == transported(a, b).1.prov,
{
    provenance_survives(a, b);
    provenance_survives(a_moved, b_moved);
}

/// The outputs follow the order of the inputs: with the inputs swapped the
/// provenances come back swapped, so for pointers into different allocations
/// the first output can never stand in for the second input, and the two
/// packed slots differ.
pub proof fn swapped_inputs_swap_outputs(a: PointerValue, b: PointerValue)
    ensures
        transported(b, a).0.prov == transported(a, b).1.prov,
        transported(b, a).1.prov == transported(a, b).0.prov,
        a.prov != b.prov ==> transported(a, b).0.prov != b.prov,
        a.prov != b.prov ==> combined(a.stored(), b.stored()) != combined(
            b.stored(),
            a.stored(),
        ),
{
    provenance_survives(a, b);
    provenance_survives(b, a);
    if a.prov != b.prov {
        assert(combined(a.stored(), b.stored())[0].prov == a.prov);
        assert(combined(b.stored(), a.stored())[0].prov == b.prov);
    }
}

} // verus!
