//! The positioned, sized, rotated, flippable draw entity.
//!
//! A sprite is pure data: it references a sprite sheet cell and a shader by
//! id, and carries the per-entity values that shader slots read. It never
//! touches the GPU.

use vstd::prelude::*;

use crate::ids::{GetId, ShaderId, SpriteId, SpriteSheetId};

verus! {

/// Mirroring of a sprite about its horizontal / vertical axis.
#[derive(Copy, Clone, PartialEq, Eq, Structural, Debug, Hash)]
pub enum Flip {
    NoFlip,
    FlipX,
    FlipY,
    FlipXY,
}

impl Flip {
    /// The two-component flag vector `[horizontal, vertical]` handed to
    /// shaders: 0 for "not mirrored", 1 for "mirrored".
    pub fn flags(&self) -> (r: (u32, u32))
        ensures
            r == self.spec_flags(),
    {
        match self {
            Flip::NoFlip => (0, 0),
            Flip::FlipX => (1, 0),
            Flip::FlipY => (0, 1),
            Flip::FlipXY => (1, 1),
        }
    }

    pub open spec fn spec_flags(self) -> (u32, u32) {
        match self {
            Flip::NoFlip => (0u32, 0u32),
            Flip::FlipX => (1u32, 0u32),
            Flip::FlipY => (0u32, 1u32),
            Flip::FlipXY => (1u32, 1u32),
        }
    }
}

/// A textured rectangle to be drawn.
///
/// `rotation_bits` holds the rotation angle in radians as the raw bit
/// pattern of a 32-bit IEEE-754 float. The engine never interprets the
/// angle numerically; it only stores it and hands it to shader slots, so it
/// is kept as an opaque bit pattern.
#[derive(Copy, Clone, PartialEq, Eq, Structural, Debug, Hash)]
pub struct Sprite {
    pub sprite_id: u32,
    pub x_position: i32,
    pub y_position: i32,
    pub width: u32,
    pub height: u32,
    pub layer: i32,
    pub rotation_bits: u32,
    pub flip: Flip,
    pub sprite_sheet: SpriteSheetId,
    pub sprite_sheet_index: usize,
    pub shader: ShaderId,
}

impl GetId for Sprite {
    type Id = SpriteId;

    fn id(&self) -> (r: SpriteId)
        ensures
            r.id == self.sprite_id,
    {
        SpriteId { id: self.sprite_id }
    }
}

impl Sprite {
    /// A fresh sprite: not yet registered (id 0), unrotated, unflipped.
    pub fn new(
        sprite_sheet: SpriteSheetId,
        sprite_sheet_index: usize,
        x_position: i32,
        y_position: i32,
        layer: i32,
        width: u32,
        height: u32,
        shader: ShaderId,
    ) -> (s: Sprite)
        ensures
            s == (Sprite {
                sprite_id: 0u32,
                x_position,
                y_position,
                width,
                height,
                layer,
                rotation_bits: 0u32,
                flip: Flip::NoFlip,
                sprite_sheet,
                sprite_sheet_index,
                shader,
            }),
    {
        Sprite {
            sprite_id: 0,
            x_position,
            y_position,
            width,
            height,
            layer,
            rotation_bits: 0,
            flip: Flip::NoFlip,
            sprite_sheet,
            sprite_sheet_index,
            shader,
        }
    }

    /// Rotation angle in radians, as the bit pattern of a 32-bit float.
    pub fn get_rotation(&self) -> (r: u32)
        ensures
            r == self.rotation_bits,
    {
        self.rotation_bits
    }

    pub fn get_flip(&self) -> (r: Flip)
        ensures
            r == self.flip,
    {
        self.flip
    }

    pub fn get_sprite_sheet_index(&self) -> (r: usize)
        ensures
            r == self.sprite_sheet_index,
    {
        self.sprite_sheet_index
    }

    pub fn get_sprite_sheet(&self) -> (r: SpriteSheetId)
        ensures
            r == self.sprite_sheet,
    {
        self.sprite_sheet
    }

    pub fn get_position(&self) -> (r: (i32, i32))
        ensures
            r == (self.x_position, self.y_position),
    {
        (self.x_position, self.y_position)
    }

    /// Moves the sprite by `(dx, dy)`. The new coordinates must stay in
    /// the 32-bit range.
    pub fn translate(&mut self, dx: i32, dy: i32)
        requires
            i32::MIN <= old(self).x_position + dx <= i32::MAX,
            i32::MIN <= old(self).y_position + dy <= i32::MAX,
        ensures
            *final(self) == (Sprite {
                x_position: (old(self).x_position + dx) as i32,
                y_position: (old(self).y_position + dy) as i32,
                ..*old(self)
            }),
    {
        self.x_position = self.x_position + dx;
        self.y_position = self.y_position + dy;
    }

    pub fn set_id(&mut self, id: u32)
        ensures
            *final(self) == (Sprite { sprite_id: id, ..*old(self) }),
    {
        self.sprite_id = id;
    }

    pub fn get_shader(&self) -> (r: ShaderId)
        ensures
            r == self.shader,
    {
        self.shader
    }

    pub fn set_shader(&mut self, shader: ShaderId)
        ensures
            *final(self) == (Sprite { shader, ..*old(self) }),
    {
        self.shader = shader;
    }

    pub fn set_texture(&mut self, sprite_sheet: SpriteSheetId, sprite_sheet_index: usize)
        ensures
            *final(self) == (Sprite { sprite_sheet, sprite_sheet_index, ..*old(self) }),
    {
        self.sprite_sheet = sprite_sheet;
        self.sprite_sheet_index = sprite_sheet_index;
    }

    pub fn set_height(&mut self, height: u32)
        ensures
            *final(self) == (Sprite { height, ..*old(self) }),
    {
        self.height = height;
    }

    pub fn set_width(&mut self, width: u32)
        ensures
            *final(self) == (Sprite { width, ..*old(self) }),
    {
        self.width = width;
    }

    pub fn set_position(&mut self, x: i32, y: i32)
        ensures
            *final(self) == (Sprite { x_position: x, y_position: y, ..*old(self) }),
    {
        self.x_position = x;
        self.y_position = y;
    }

    /// Stores a rotation angle in radians, given as the bit pattern of a
    /// 32-bit float.
    pub fn set_rotation(&mut self, rotation_bits: u32)
        ensures
            *final(self) == (Sprite { rotation_bits, ..*old(self) }),
    {
        self.rotation_bits = rotation_bits;
    }

    pub fn set_flip(&mut self, flip: Flip)
        ensures
            *final(self) == (Sprite { flip, ..*old(self) }),
    {
        self.flip = flip;
    }

    pub fn get_layer(&self) -> (r: i32)
        ensures
            r == self.layer,
    {
        self.layer
    }

    pub fn get_height(&self) -> (r: u32)
        ensures
            r == self.height,
    {
        self.height
    }

    pub fn get_width(&self) -> (r: u32)
        ensures
            r == self.width,
    {
        self.width
    }

    /// The four corners of the sprite's quad in pixel space, in the fixed
    /// order bottom-left, bottom-right, top-left, top-right. Widened to
    /// 64-bit so the sums cannot overflow.
    pub fn corners(&self) -> (r: Vec<(i64, i64)>)
        ensures
            r@ == self.spec_corners(),
    {
        let x = self.x_position as i64;
        let y = self.y_position as i64;
        let w = self.width as i64;
        let h = self.height as i64;
        let mut r: Vec<(i64, i64)> = Vec::new();
        r.push((x, y));
        r.push((x + w, y));
        r.push((x, y + h));
        r.push((x + w, y + h));
        proof {
            assert(r@ =~= self.spec_corners());
        }
        r
    }

    pub open spec fn spec_corners(self) -> Seq<(i64, i64)> {
        let x = self.x_position as i64;
        let y = self.y_position as i64;
        let w = self.width as i64;
        let h = self.height as i64;
        seq![
            (x, y),
            ((x + w) as i64, y),
            (x, (y + h) as i64),
            ((x + w) as i64, (y + h) as i64),
        ]
    }

    /// Twice the pixel coordinates of the sprite's center, `(2x + w, 2y + h)`.
    /// Doubling keeps the value an exact integer; consumers halve it in
    /// whatever precision they need.
    pub fn center_times_two(&self) -> (r: (i64, i64))
        ensures
            r.0 == 2 * self.x_position + self.width,
            r.1 == 2 * self.y_position + self.height,
    {
        (
            2 * (self.x_position as i64) + self.width as i64,
            2 * (self.y_position as i64) + self.height as i64,
        )
    }
}

} // verus!
