//! Control logic for Random Power single-generator boards (SiPM-based QRNGs):
//! command framing, on-board settings, FIFO word decoding, the health tests
//! run on raw entropy, and the per-board state machine.
pub mod devices;
pub mod raplibs;
pub mod streamer;

use vstd::prelude::*;

verus! {

} // verus!
