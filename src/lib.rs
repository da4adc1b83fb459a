//! A retained-mode component toolkit, verified.
//!
//! Every component implements [`layable::Layable`]: it reports a preferred
//! size, draws into a region at a scale (as a list of [`layable::Draw`]
//! operations for the host's renderer), advances a frame, and takes a batch of
//! input events, handing [`event::ReturnEvent`]s up to its ancestors. Each
//! component's behaviour is stated over a model of it, and the combinators
//! (flows, overlays, crops, scrolling, alignment and sizing) are proved to
//! give their children the regions and events those statements describe.

use vstd::prelude::*;

pub mod details;
pub mod event;
pub mod form;
pub mod layable;

pub mod align;
pub mod cache;
pub mod clickable;
pub mod comp;
pub mod crop;
pub mod div;
pub mod ext;
pub mod fit;
pub mod overlay;
pub mod scale_to_fit;
pub mod scrollable;
pub mod space_between;

pub mod root;
pub mod text;

verus! {

} // verus!
