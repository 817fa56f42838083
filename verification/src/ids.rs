//! Opaque integer handles for sprites, sprite sheets and shader programs.
//!
//! A `SpriteId` is issued by a monotonically increasing counter at insertion
//! time. `SpriteSheetId` and `ShaderId` are identical in value to the
//! underlying GPU texture / program handle, so they double as logical
//! identity and resource handle.

use vstd::prelude::*;

verus! {

/// Something that exposes an identifying handle.
pub trait GetId {
    type Id;

    fn id(&self) -> Self::Id;
}

/// Handle of a sprite owned by the sprite registry.
#[derive(Copy, Clone, PartialEq, Eq, Structural, Debug, Hash)]
pub struct SpriteId {
    pub id: u32,
}

impl SpriteId {
    pub fn new(id: u32) -> (r: SpriteId)
        ensures
            r.id == id,
    {
        SpriteId { id }
    }
}

/// Handle of a sprite sheet; equal to the GPU texture handle it wraps.
#[derive(Copy, Clone, PartialEq, Eq, Structural, Debug, Hash)]
pub struct SpriteSheetId {
    pub id: u32,
}

impl SpriteSheetId {
    pub fn new(id: u32) -> (r: SpriteSheetId)
        ensures
            r.id == id,
    {
        SpriteSheetId { id }
    }
}

/// Handle of a linked shader program; equal to the GPU program handle.
#[derive(Copy, Clone, PartialEq, Eq, Structural, Debug, Hash)]
pub struct ShaderId {
    pub id: u32,
}

impl ShaderId {
    pub fn new(id: u32) -> (r: ShaderId)
        ensures
            r.id == id,
    {
        ShaderId { id }
    }
}

impl GetId for ShaderId {
    type Id = u32;

    fn id(&self) -> (r: u32)
        ensures
            r == self.id,
    {
        self.id
    }
}

} // verus!
