//! Emulation of a planar display adapter's register-driven addressing model.
//!
//! The adapter's memory is four parallel byte planes; a write lands on the
//! planes selected by the Sequencer Map-Mask register, and a pixel's 4-bit
//! color index is folded from one bit of each plane. The renderer decodes
//! the planes into RGB at a paced frame rate while toggling the two status
//! bits (vertical retrace, display enable) that client code polls.

pub mod input;
pub mod pacer;
pub mod registers;
pub mod screen;

use vstd::prelude::*;

verus! {

pub use crate::registers::VGA;
pub use crate::registers::SCReg;
pub use crate::registers::CRTReg;
pub use crate::registers::GCReg;
pub use crate::registers::GeneralReg;
pub use crate::registers::MemError;

} // verus!
