//! A grapheme-aware text-buffer-and-cursor engine.
//!
//! The buffer is a rope of Unicode scalar values; the cursor lives in two
//! synchronized coordinate systems, an absolute scalar offset (canonical)
//! and a visual row with a grapheme-cluster column derived from it.  Editing
//! commands are pure transitions: each takes a state and returns a complete
//! new one, clamped to no-ops at the buffer's edges.
//!
//! `lines` and `seg` give the mathematical model: the line-feed line
//! structure and the cluster-boundary predicate.  `buffer` holds the trusted
//! boundary to the rope and the incremental segmentation cursor; `graphemes`
//! builds verified boundary stepping and coordinate conversion on it, and
//! `editor` and `input` hold the command core and the key mappings.

use vstd::prelude::*;

verus! {

pub mod seg;
pub mod lines;
pub mod buffer;
pub mod graphemes;
pub mod editor;
pub mod input;

} // verus!
