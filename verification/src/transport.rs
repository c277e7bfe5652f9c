//! Packing two stored pointers into one slot, and unpacking them again.

use vstd::prelude::*;
use crate::slot::{overlay, DoubleSlot, MemByte, Slot, DOUBLE_SLOT_BYTES, HALF_BYTES, SLOT_BYTES};

verus! {

/// The first four bytes of a slot.
pub open spec fn low_half<B>(s: Seq<B>) -> Seq<B> {
    s.subrange(0, HALF_BYTES as int)
}

/// The last four bytes of a slot.
pub open spec fn high_half<B>(s: Seq<B>) -> Seq<B> {
    s.subrange(HALF_BYTES as int, SLOT_BYTES as int)
}

/// The slot that carries both pointers: its low half is the high half of
/// `a`, its high half is the low half of `b`.
pub open spec fn combined<B>(a: Seq<B>, b: Seq<B>) -> Seq<B> {
    high_half(a) + low_half(b)
}

/// The two slots rebuilt from a packed slot `s`: the first repeats the low
/// half of `s` in both of its halves, the second repeats the high half.
pub open spec fn extracted<B>(s: Seq<B>) -> (Seq<B>, Seq<B>) {
    (low_half(s) + low_half(s), high_half(s) + high_half(s))
}

/// Combines the stored forms of two pointers into a single pointer-sized
/// value.
///
/// Both are written side by side into zeroed scratch space and the window
/// across their boundary is read back, so the result holds half of the bytes
/// of each, untouched.
pub fn combine<B: MemByte>(prov_a: Slot<B>, prov_b: Slot<B>) -> (center: Slot<B>)
    ensures
        center@.len() == SLOT_BYTES,
        center@ == combined(prov_a@, prov_b@),
{
    let mut double_buf = DoubleSlot::<B>::zeroed();

    double_buf.write(0, &prov_a);
    double_buf.write(SLOT_BYTES, &prov_b);

    let center = double_buf.read(HALF_BYTES);
    assert(center@ =~= combined(prov_a@, prov_b@));
    center
}

/// Recovers from a value made by [`combine`] two pointer-sized values, the
/// first made only of bytes of the first pointer, the second only of bytes of
/// the second.
///
/// The value is written into the middle of zeroed scratch space, which splits
/// it between the two halves of the scratch space. Each half is read out, and
/// its four bytes that are still zero are overwritten with a copy of the four
/// bytes that it did receive.
pub fn extract<B: MemByte>(buf: Slot<B>) -> (halves: (Slot<B>, Slot<B>))
    ensures
        halves.0@.len() == SLOT_BYTES,
        halves.1@.len() == SLOT_BYTES,
        (halves.0@, halves.1@) == extracted(buf@),
{
    let mut double_buf = DoubleSlot::<B>::zeroed();

    double_buf.write(HALF_BYTES, &buf);

    let mut a_buf = double_buf.read(0);
    let mut b_buf = double_buf.read(SLOT_BYTES);

    double_buf.copy_half(HALF_BYTES, &mut a_buf, 0);
    double_buf.copy_half(SLOT_BYTES, &mut b_buf, HALF_BYTES);

    assert(a_buf@ =~= extracted(buf@).0);
    assert(b_buf@ =~= extracted(buf@).1);
    (a_buf, b_buf)
}

/// Packing then unpacking hands each pointer back its own bytes: every byte
/// of the first recovered slot is a byte of the first pointer, every byte of
/// the second is a byte of the second pointer, and no byte of either comes
/// from the other pointer or from the scratch space.
pub proof fn round_trip_keeps_bytes_apart<B>(a: Seq<B>, b: Seq<B>)
    requires
        a.len() == SLOT_BYTES,
        b.len() == SLOT_BYTES,
    ensures
        extracted(combined(a, b)).0 == high_half(a) + high_half(a),
        extracted(combined(a, b)).1 == low_half(b) + low_half(b),
        forall|i: int| 0 <= i < 8 ==> #[trigger] extracted(combined(a, b)).0[i] == a[4 + i % 4],
        forall|i: int| 0 <= i < 8 ==> #[trigger] extracted(combined(a, b)).1[i] == b[i % 4],
{
    let s = combined(a, b);
    assert(low_half(s) =~= high_half(a));
    assert(high_half(s) =~= low_half(b));
}

/// Unpacking loses nothing of a slot: packing the two recovered slots again
/// gives back the slot they were recovered from, for every slot.
pub proof fn extract_then_combine_is_identity<B>(s: Seq<B>)
    requires
        s.len() == SLOT_BYTES,
    ensures
        combined(extracted(s).0, extracted(s).1) == s,
{
    assert(combined(extracted(s).0, extracted(s).1) =~= s);
}

/// Packing always yields one slot and unpacking always yields two, whatever
/// the bytes are.
pub proof fn sizes_are_fixed<B>(a: Seq<B>, b: Seq<B>, s: Seq<B>)
    requires
        a.len() == SLOT_BYTES,
        b.len() == SLOT_BYTES,
        s.len() == SLOT_BYTES,
    ensures
        combined(a, b).len() == SLOT_BYTES,
        extracted(s).0.len() == SLOT_BYTES,
        extracted(s).1.len() == SLOT_BYTES,
{
}

/// A call is isolated from whatever its scratch space held before: the same
/// writes, reads and copies made on scratch space of any content give the
/// same packed slot and the same two recovered slots, so nothing left behind
/// by another call can show up in a result.
pub proof fn scratch_content_never_shows<B>(scratch: Seq<B>, a: Seq<B>, b: Seq<B>, s: Seq<B>)
    requires
        scratch.len() == DOUBLE_SLOT_BYTES,
        a.len() == SLOT_BYTES,
        b.len() == SLOT_BYTES,
        s.len() == SLOT_BYTES,
    ensures
        overlay(overlay(scratch, 0, a), 8, b).subrange(4, 12) == combined(a, b),
        ({
            let split = overlay(scratch, 4, s);
            &&& overlay(split.subrange(0, 8), 0, split.subrange(4, 8)) == extracted(s).0
            &&& overlay(split.subrange(8, 16), 4, split.subrange(8, 12)) == extracted(s).1
        }),
{
    let split = overlay(scratch, 4, s);
    assert(overlay(overlay(scratch, 0, a), 8, b).subrange(4, 12) =~= combined(a, b));
    assert(overlay(split.subrange(0, 8), 0, split.subrange(4, 8)) =~= extracted(s).0);
    assert(overlay(split.subrange(8, 16), 4, split.subrange(8, 12)) =~= extracted(s).1);
}

/// The order of the two inputs is part of the result: the first input
/// supplies the low half of the packed slot and the second the high half, so
/// swapping them gives a different slot unless the two inputs are the same.
pub proof fn order_of_inputs_matters<B>(a: Seq<B>, b: Seq<B>)
    requires
        a.len() == SLOT_BYTES,
        b.len() == SLOT_BYTES,
    ensures
        low_half(combined(a, b)) == high_half(a),
        high_half(combined(a, b)) == low_half(b),
        combined(a, b) == combined(b, a) <==> a == b,
{
    assert(low_half(combined(a, b)) =~= high_half(a));
    assert(high_half(combined(a, b)) =~= low_half(b));
    assert(low_half(combined(b, a)) =~= high_half(b));
    assert(high_half(combined(b, a)) =~= low_half(a));
    if combined(a, b) == combined(b, a) {
        assert(a =~= low_half(a) + high_half(a));
        assert(b =~= low_half(b) + high_half(b));
    }
}

} // verus!
