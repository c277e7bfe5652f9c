//! Transport of the provenance of two pointers through one pointer-sized slot.
//!
//! A pointer is stored in memory as eight bytes, and under a memory model that
//! tracks provenance per byte each of those bytes remembers the allocation the
//! pointer was derived from. [`combine`] splices one half of each of two
//! stored pointers into a single slot; [`extract`] rebuilds from that slot two
//! full slots, each made only of bytes of one of the two pointers.
//!
//! The byte type is a parameter ([`MemByte`]), so the functions never look
//! inside a byte: they can neither read an address nor drop a provenance.
//! [`pointer`] instantiates it with a byte that carries a value and an
//! allocation tag, and states there what the rearrangement means for pointers.

pub mod pointer;
pub mod slot;
pub mod transport;

pub use pointer::{PointerValue, Provenance, TaggedByte};
pub use slot::{DoubleSlot, MemByte, Slot, DOUBLE_SLOT_BYTES, HALF_BYTES, SLOT_BYTES};
pub use transport::{combine, extract};
