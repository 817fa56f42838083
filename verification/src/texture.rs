//! A plain GPU texture descriptor: handle and pixel size.

use vstd::prelude::*;

verus! {

/// A GPU texture handle with its size in pixels. Handle 0 stands for
/// "no texture bound".
#[derive(Copy, Clone, PartialEq, Eq, Structural, Debug, Hash)]
pub struct Texture {
    pub id: u32,
    pub width: u32,
    pub height: u32,
}

impl Default for Texture {
    /// The placeholder texture: no GPU handle, nominal 10 by 10 size.
    fn default() -> (r: Texture)
        ensures
            r == (Texture { id: 0u32, width: 10u32, height: 10u32 }),
    {
        Texture { id: 0, width: 10, height: 10 }
    }
}

} // verus!
