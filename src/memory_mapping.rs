//! The checks made before a blob's descriptor is mapped into this process.
use vstd::prelude::*;
use crate::error::{RutabagaErrorKind, RutabagaResult, error_of};
use crate::rutabaga_utils::{
    RUTABAGA_MAP_ACCESS_MASK, RUTABAGA_MAP_ACCESS_READ, RUTABAGA_MAP_ACCESS_RW,
    RUTABAGA_MAP_ACCESS_WRITE,
};

verus! {

/// The access that a mapping is made with.
#[derive(Copy, Clone, Debug, PartialEq, Eq, Structural)]
pub enum MapProtection {
    Read,
    Write,
    ReadWrite,
}

/// The protection that backend-reported map flags grant, if their access bits name one.
pub open spec fn spec_protection(map_info: u32) -> Option<MapProtection> {
    let access = map_info & RUTABAGA_MAP_ACCESS_MASK;
    if access == RUTABAGA_MAP_ACCESS_READ {
        Some(MapProtection::Read)
    } else if access == RUTABAGA_MAP_ACCESS_WRITE {
        Some(MapProtection::Write)
    } else if access == RUTABAGA_MAP_ACCESS_RW {
        Some(MapProtection::ReadWrite)
    } else {
        None
    }
}

/// The protection to map a blob of `size` bytes with, from the access bits of its map
/// flags. Access bits that name no protection, and a zero size, are protocol violations.
pub fn map_protection(map_info: u32, size: usize) -> (r: RutabagaResult<MapProtection>)
    ensures
        spec_protection(map_info) is None ==> (r matches Err(e) && e.kind
            == RutabagaErrorKind::SpecViolation("incorrect access flags")),
        spec_protection(map_info) is Some && size == 0 ==> (r matches Err(e) && e.kind
            == RutabagaErrorKind::SpecViolation("zero size mapping")),
        spec_protection(map_info) is Some && size > 0 ==> r == Ok::<
            MapProtection,
            crate::error::RutabagaError,
        >(spec_protection(map_info)->Some_0),
{
    let access = map_info & RUTABAGA_MAP_ACCESS_MASK;
    let prot = if access == RUTABAGA_MAP_ACCESS_READ {
        MapProtection::Read
    } else if access == RUTABAGA_MAP_ACCESS_WRITE {
        MapProtection::Write
    } else if access == RUTABAGA_MAP_ACCESS_RW {
        MapProtection::ReadWrite
    } else {
        return Err(error_of(RutabagaErrorKind::SpecViolation("incorrect access flags")));
    };
    if size == 0 {
        return Err(error_of(RutabagaErrorKind::SpecViolation("zero size mapping")));
    }
    Ok(prot)
}

} // verus!
