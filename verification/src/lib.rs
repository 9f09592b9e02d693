//! Python-style range access over slices and vectors: endpoints may be
//! negative, counting back from the end, and endpoints that fall outside the
//! sequence are clamped to it instead of being rejected.
//!
//! Every entry point takes the slice itself. A bounded range whose clipped
//! start lies behind its clipped end selects nothing that could be handed
//! out, and is excluded by the entry points' preconditions rather than
//! reordered or emptied.

pub mod bound;
pub mod laws;
pub mod ranges;
pub mod shape;
pub mod slices;
pub mod vectors;

pub use bound::clip;
pub use shape::{RangeShape, Shaped};
pub use slices::{Clip, ClipSlice};
pub use vectors::ClipAsSlice;
