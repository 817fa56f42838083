//! Sprite sheets: texture atlases sliced into a grid of UV rectangles.
//!
//! Image rows are stored top-to-bottom while texture V grows bottom-to-top,
//! so each cell's V coordinates are inverted: `v_min = (row + 1) * ch / H`
//! and `v_max = row * ch / H`. UV coordinates are kept as exact fractions
//! (numerator over denominator); consumers divide in whatever floating
//! precision the GPU pipeline needs.

use vstd::prelude::*;

use vstd::arithmetic::div_mod::{lemma_fundamental_div_mod, lemma_fundamental_div_mod_converse};
use vstd::arithmetic::mul::{lemma_mul_inequality, lemma_mul_is_distributive_add_other_way};

use crate::ids::{GetId, SpriteSheetId};

verus! {

/// One cell's UV rectangle, as exact fractions: the U coordinates are
/// `u_*_num / u_den`, the V coordinates `v_*_num / v_den`.
#[derive(Copy, Clone, PartialEq, Eq, Structural, Debug, Hash)]
pub struct UvRect {
    pub u_min_num: u32,
    pub v_min_num: u32,
    pub u_max_num: u32,
    pub v_max_num: u32,
    pub u_den: u32,
    pub v_den: u32,
}

/// All four coordinates of the rectangle lie in `[0, 1]`.
pub open spec fn uv_in_unit_range(r: UvRect) -> bool {
    &&& 0 < r.u_den
    &&& 0 < r.v_den
    &&& r.u_min_num <= r.u_den
    &&& r.u_max_num <= r.u_den
    &&& r.v_min_num <= r.v_den
    &&& r.v_max_num <= r.v_den
}

/// `r` is the UV rectangle of cell `(row, col)` of a `w`-by-`h` image cut
/// into `cw`-by-`ch` cells, with the V axis inverted.
pub open spec fn is_cell_rect(
    r: UvRect,
    w: int,
    h: int,
    cw: int,
    ch: int,
    row: int,
    col: int,
) -> bool {
    &&& r.u_den == w
    &&& r.v_den == h
    &&& r.u_min_num == col * cw
    &&& r.u_max_num == (col + 1) * cw
    &&& r.v_min_num == (row + 1) * ch
    &&& r.v_max_num == row * ch
}

/// Failure while building or uploading a sprite sheet.
#[derive(Clone, PartialEq, Eq, Debug)]
pub enum SpriteSheetError {
    /// The image bytes could not be read or decoded.
    IOError(String),
    /// The GPU rejected the texture; carries the reported reason.
    TextureCreationError(String),
    /// The cell size does not evenly divide the image size.
    InvalidSpriteDimensions(String),
}

/// A texture atlas: one UV rectangle per cell, in row-major order
/// (rows top to bottom, columns left to right), plus the GPU texture
/// handle the pixels were uploaded to.
pub struct SpriteSheet {
    pub uv_rects: Vec<UvRect>,
    pub texture_id: u32,
}

impl GetId for SpriteSheet {
    type Id = SpriteSheetId;

    fn id(&self) -> (r: SpriteSheetId)
        ensures
            r.id == self.texture_id,
    {
        SpriteSheetId { id: self.texture_id }
    }
}

/// The grid sizes divide the image sizes evenly (and are not zero).
pub open spec fn valid_grid(img_w: int, img_h: int, cell_w: int, cell_h: int) -> bool {
    &&& 0 < cell_w
    &&& 0 < cell_h
    &&& img_w % cell_w == 0
    &&& img_h % cell_h == 0
}

impl SpriteSheet {
    /// Slices a `img_width`-by-`img_height` image, already uploaded to
    /// `texture_id`, into a grid of `cell_width`-by-`cell_height` cells:
    /// one UV rectangle per cell, rows top to bottom, columns left to
    /// right, V inverted per cell. Fails if the cell size does not evenly
    /// divide the image size.
    pub fn from_grid(
        texture_id: u32,
        img_width: u32,
        img_height: u32,
        cell_width: u32,
        cell_height: u32,
    ) -> (result: Result<SpriteSheet, SpriteSheetError>)
        ensures
            result is Ok <==> valid_grid(
                img_width as int,
                img_height as int,
                cell_width as int,
                cell_height as int,
            ),
            result matches Ok(sheet) ==> {
                let cols = img_width as int / cell_width as int;
                let rows = img_height as int / cell_height as int;
                &&& sheet.texture_id == texture_id
                &&& sheet.uv_rects@.len() == cols * rows
                &&& forall|i: int|
                    0 <= i < sheet.uv_rects@.len() ==> is_cell_rect(
                        #[trigger] sheet.uv_rects@[i],
                        img_width as int,
                        img_height as int,
                        cell_width as int,
                        cell_height as int,
                        i / cols,
                        i % cols,
                    )
                &&& forall|i: int|
                    0 <= i < sheet.uv_rects@.len() ==> uv_in_unit_range(#[trigger] sheet.uv_rects@[i])
            },
            result matches Err(e) ==> e is InvalidSpriteDimensions,
    {
        if cell_width == 0 || cell_height == 0 || img_width % cell_width != 0
            || img_height % cell_height != 0 {
            return Err(
                SpriteSheetError::InvalidSpriteDimensions(
                    "cell size does not evenly divide the image size".to_string(),
                ),
            );
        }
        let cols = img_width / cell_width;
        let rows = img_height / cell_height;

        proof {
            lemma_fundamental_div_mod(img_width as int, cell_width as int);
            lemma_fundamental_div_mod(img_height as int, cell_height as int);
        }

        let mut uv_rects: Vec<UvRect> = Vec::new();
        let mut row: u32 = 0;
        while row < rows
            invariant
                cell_width > 0,
                cell_height > 0,
                cols == img_width as int / cell_width as int,
                rows == img_height as int / cell_height as int,
                img_width == cols * cell_width,
                img_height == rows * cell_height,
                row <= rows,
                uv_rects@.len() == row * cols,
                forall|i: int|
                    0 <= i < uv_rects@.len() ==> is_cell_rect(
                        #[trigger] uv_rects@[i],
                        img_width as int,
                        img_height as int,
                        cell_width as int,
                        cell_height as int,
                        i / cols as int,
                        i % cols as int,
                    ),
                forall|i: int|
                    0 <= i < uv_rects@.len() ==> uv_in_unit_range(#[trigger] uv_rects@[i]),
            decreases rows - row,
        {
            let mut col: u32 = 0;
            while col < cols
                invariant
                    cell_width > 0,
                    cell_height > 0,
                    cols == img_width as int / cell_width as int,
                    rows == img_height as int / cell_height as int,
                    img_width == cols * cell_width,
                    img_height == rows * cell_height,
                    row < rows,
                    col <= cols,
                    uv_rects@.len() == row * cols + col,
                    forall|i: int|
                        0 <= i < uv_rects@.len() ==> is_cell_rect(
                            #[trigger] uv_rects@[i],
                            img_width as int,
                            img_height as int,
                            cell_width as int,
                            cell_height as int,
                            i / cols as int,
                            i % cols as int,
                        ),
                    forall|i: int|
                        0 <= i < uv_rects@.len() ==> uv_in_unit_range(#[trigger] uv_rects@[i]),
                decreases cols - col,
            {
                proof {
                    lemma_mul_inequality(col as int + 1, cols as int, cell_width as int);
                    lemma_mul_inequality(row as int + 1, rows as int, cell_height as int);
                    lemma_mul_is_distributive_add_other_way(
                        cell_width as int,
                        col as int,
                        1,
                    );
                    lemma_mul_is_distributive_add_other_way(
                        cell_height as int,
                        row as int,
                        1,
                    );
                }
                let u_min: u32 = col * cell_width;
                let u_max: u32 = u_min + cell_width;
                let v_max: u32 = row * cell_height;
                let v_min: u32 = v_max + cell_height;
                let rect = UvRect {
                    u_min_num: u_min,
                    v_min_num: v_min,
                    u_max_num: u_max,
                    v_max_num: v_max,
                    u_den: img_width,
                    v_den: img_height,
                };
                proof {
                    lemma_fundamental_div_mod_converse(
                        uv_rects@.len() as int,
                        cols as int,
                        row as int,
                        col as int,
                    );
                }
                uv_rects.push(rect);
                col = col + 1;
            }
            proof {
                lemma_mul_is_distributive_add_other_way(cols as int, row as int, 1);
            }
            row = row + 1;
        }
        proof {
            assert(uv_rects@.len() == rows * cols);
            vstd::arithmetic::mul::lemma_mul_is_commutative(rows as int, cols as int);
        }
        Ok(SpriteSheet { uv_rects, texture_id })
    }

    /// The degenerate atlas for a solid 1-by-1 texture: a single UV
    /// rectangle covering all of `[0, 1]` in both axes.
    pub fn from_color(texture_id: u32) -> (sheet: SpriteSheet)
        ensures
            sheet.texture_id == texture_id,
            sheet.uv_rects@.len() == 1,
            sheet.uv_rects@[0] == (UvRect {
                u_min_num: 0u32,
                v_min_num: 0u32,
                u_max_num: 1u32,
                v_max_num: 1u32,
                u_den: 1u32,
                v_den: 1u32,
            }),
            uv_in_unit_range(sheet.uv_rects@[0]),
    {
        let mut uv_rects: Vec<UvRect> = Vec::new();
        uv_rects.push(
            UvRect {
                u_min_num: 0,
                v_min_num: 0,
                u_max_num: 1,
                v_max_num: 1,
                u_den: 1,
                v_den: 1,
            },
        );
        SpriteSheet { uv_rects, texture_id }
    }

    /// The UV rectangle of cell `index`.
    pub fn get_uv(&self, index: usize) -> (r: UvRect)
        requires
            index < self.uv_rects@.len(),
        ensures
            r == self.uv_rects@[index as int],
    {
        self.uv_rects[index]
    }

    /// The GPU texture handle the sheet's pixels live in.
    pub fn get_texture(&self) -> (r: u32)
        ensures
            r == self.texture_id,
    {
        self.texture_id
    }

    /// Number of cells in the atlas.
    pub fn len(&self) -> (r: usize)
        ensures
            r == self.uv_rects@.len(),
    {
        self.uv_rects.len()
    }
}

} // verus!
