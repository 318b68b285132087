//! A GPU virtualization layer: the data model, flags and errors shared by every rendering
//! component, the resource record, and the decisions of the gfxstream component, whose
//! native renderer is reached through a fixed call surface.
#![allow(non_camel_case_types)]
use vstd::prelude::*;

pub mod error;
pub mod fence;
pub mod flags;
pub mod gfxstream;
pub mod memory_mapping;
pub mod registry;
pub mod resource;
pub mod rutabaga_utils;

verus! {

} // verus!
