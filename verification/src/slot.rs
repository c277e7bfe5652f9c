//! Pointer-sized byte buffers and the scratch buffer they are staged in.

use vstd::prelude::*;

verus! {

/// Number of bytes in a stored pointer.
pub const SLOT_BYTES: usize = 8;

/// Number of bytes in one half of a stored pointer: the unit in which bytes
/// are moved between buffers.
pub const HALF_BYTES: usize = 4;

/// Number of bytes in the scratch buffer: room for two stored pointers.
pub const DOUBLE_SLOT_BYTES: usize = 16;

/// One byte of memory together with whatever the memory model attaches to
/// it. Values are only ever copied, so everything a byte carries moves with it.
pub trait MemByte: Copy {
    /// The content of freshly zeroed memory. A byte type that does not say
    /// what it is leaves it a fixed but unknown value.
    open spec fn zero() -> Self {
        arbitrary()
    }

    /// A byte as freshly zeroed memory holds it.
    fn zeroed() -> (byte: Self)
        ensures
            byte == Self::zero(),
    ;
}

/// `base` after `patch` has been written over it starting at index `at`.
pub open spec fn overlay<B>(base: Seq<B>, at: int, patch: Seq<B>) -> Seq<B> {
    Seq::new(
        base.len(),
        |i: int|
            if at <= i < at + patch.len() {
                patch[i - at]
            } else {
                base[i]
            },
    )
}

/// Copies `count` bytes, one by one, from `src` starting at `src_at` into
/// `dst` starting at `dst_at`. The two buffers are distinct objects, so the
/// ranges never overlap. Both ranges must lie inside their buffers.
pub fn copy_bytes<B: Copy, const N: usize, const M: usize>(
    src: &[B; N],
    src_at: usize,
    dst: &mut [B; M],
    dst_at: usize,
    count: usize,
)
    requires
        src_at + count <= N,
        dst_at + count <= M,
    ensures
        final(dst)@ == overlay(
            old(dst)@,
            dst_at as int,
            src@.subrange(src_at as int, src_at + count),
        ),
{
    let mut i: usize = 0;
    while i < count
        invariant
            i <= count,
            src_at + count <= N,
            dst_at + count <= M,
            dst@ == overlay(old(dst)@, dst_at as int, src@.subrange(src_at as int, src_at + i)),
        decreases count - i,
    {
        dst[dst_at + i] = src[src_at + i];
        i += 1;
        assert(dst@ =~= overlay(
            old(dst)@,
            dst_at as int,
            src@.subrange(src_at as int, src_at + i),
        ));
    }
}

/// A pointer-sized buffer. Each byte is independent of its neighbours: what
/// one byte carries says nothing about the next.
#[derive(Debug, PartialEq, Eq)]
pub struct Slot<B> {
    pub bytes: [B; SLOT_BYTES],
}

impl<B> View for Slot<B> {
    type V = Seq<B>;

    open spec fn view(&self) -> Seq<B> {
        self.bytes@
    }
}

impl<B: Copy> Clone for Slot<B> {
    fn clone(&self) -> (copy: Self)
        ensures
            copy == *self,
    {
        *self
    }
}

impl<B: Copy> Copy for Slot<B> {

}

/// Scratch space twice the size of a [`Slot`], in which two slot-sized writes
/// land next to each other so that a window across their boundary can be
/// read. It lives for the length of one call and is never handed out.
pub struct DoubleSlot<B> {
    pub bytes: [B; DOUBLE_SLOT_BYTES],
}

impl<B> View for DoubleSlot<B> {
    type V = Seq<B>;

    open spec fn view(&self) -> Seq<B> {
        self.bytes@
    }
}

impl<B: MemByte> DoubleSlot<B> {
    /// Fresh scratch space, every byte zero.
    pub fn zeroed() -> (double: Self)
        ensures
            double@ == Seq::new(DOUBLE_SLOT_BYTES as nat, |i: int| B::zero()),
    {
        let double = DoubleSlot { bytes: [B::zeroed(); DOUBLE_SLOT_BYTES] };
        assert(double@ =~= Seq::new(DOUBLE_SLOT_BYTES as nat, |i: int| B::zero()));
        double
    }

    /// Writes `slot` over the eight bytes that start at `offset`, which must
    /// leave room for them.
    pub fn write(&mut self, offset: usize, slot: &Slot<B>)
        requires
            offset + SLOT_BYTES <= DOUBLE_SLOT_BYTES,
        ensures
            final(self)@ == overlay(old(self)@, offset as int, slot@),
    {
        copy_bytes(&slot.bytes, 0, &mut self.bytes, offset, SLOT_BYTES);
        assert(slot@.subrange(0, SLOT_BYTES as int) =~= slot@);
    }

    /// Reads the eight bytes that start at `offset`, all of which must lie
    /// inside the scratch space.
    pub fn read(&self, offset: usize) -> (slot: Slot<B>)
        requires
            offset + SLOT_BYTES <= DOUBLE_SLOT_BYTES,
        ensures
            slot@ == self@.subrange(offset as int, offset + SLOT_BYTES),
    {
        let slot = Slot {
            bytes: [
                self.bytes[offset],
                self.bytes[offset + 1],
                self.bytes[offset + 2],
                self.bytes[offset + 3],
                self.bytes[offset + 4],
                self.bytes[offset + 5],
                self.bytes[offset + 6],
                self.bytes[offset + 7],
            ],
        };
        assert(slot@ =~= self@.subrange(offset as int, offset + SLOT_BYTES));
        slot
    }

    /// Copies the four bytes that start at `offset` over the four bytes of
    /// `slot` that start at `slot_offset`. Both ranges must lie inside their
    /// buffers.
    pub fn copy_half(&self, offset: usize, slot: &mut Slot<B>, slot_offset: usize)
        requires
            offset + HALF_BYTES <= DOUBLE_SLOT_BYTES,
            slot_offset + HALF_BYTES <= SLOT_BYTES,
        ensures
            final(slot)@ == overlay(
                old(slot)@,
                slot_offset as int,
                self@.subrange(offset as int, offset + HALF_BYTES),
            ),
    {
        copy_bytes(&self.bytes, offset, &mut slot.bytes, slot_offset, HALF_BYTES);
    }
}

} // verus!
