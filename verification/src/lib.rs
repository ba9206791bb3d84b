//! A runtime adapter between a text-shaping host engine and the font-data
//! engine that parses OpenType binary data: each host callback slot is
//! answered by querying the font-data engine and carrying the results
//! into the host's numeric and structural conventions.
//!
//! The core is the color paint-tree translator ([`paint`], [`clip_law`],
//! [`gradient`], [`palette`]) together with the cached per-font derived
//! state ([`cache`], [`location`]) and the metrics and identity logic
//! ([`metrics`], [`names`], [`adapter`]). Calls into the font-data engine
//! stand behind the trusted boundary in [`engine`]; everything else is
//! verified.

use vstd::prelude::*;

pub mod adapter;
pub mod cache;
pub mod clip_law;
pub mod engine;
pub mod gradient;
pub mod location;
pub mod metrics;
pub mod names;
pub mod numeric;
pub mod paint;
pub mod palette;

verus! {

} // verus!
