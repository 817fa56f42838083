//! The renderer component: id-keyed registries for sprite sheets,
//! sprites and shader programs, monotonic sprite id issuance, frame
//! pacing state, and the per-frame batching entry point.
//!
//! GPU resources and the registries referring to them are owned by this
//! one component, so resource and sprite lifetimes stay in one place.

use vstd::prelude::*;

use crate::atlas::{SpriteSheet, UvRect};
use crate::batch::{
    batches_have_key, build_batches, filter_key, lemma_filter_key_contains, valid_batching, Batch,
};
use crate::ids::{ShaderId, SpriteId, SpriteSheetId};
use crate::shader::ShaderProgram;
use crate::sprite::{Flip, Sprite};

verus! {

/// Owner of the registries and the frame-pacing knobs.
///
/// Registries are kept as vectors: sprites in strictly increasing id
/// order (ids are issued by `next_sprite_id` and never reused), sheets
/// and programs keyed by their GPU handle, each handle at most once.
pub struct Renderer {
    pub sprite_sheets: Vec<SpriteSheet>,
    pub sprites: Vec<Sprite>,
    pub shaders: Vec<ShaderProgram>,
    pub default_shader: Option<ShaderId>,
    pub next_sprite_id: u32,
    pub target_frame_micros: u64,
    pub show_fps: bool,
}

impl Renderer {
    /// Registry well-formedness: sprite ids strictly increase and stay
    /// below the issuance counter; sheet and program handles are unique;
    /// every stored program's derived layout matches its attributes.
    pub open spec fn wf(self) -> bool {
        &&& forall|i: int, j: int|
            0 <= i < j < self.sprites@.len() ==> (#[trigger] self.sprites@[i]).sprite_id < (
            #[trigger] self.sprites@[j]).sprite_id
        &&& forall|i: int|
            0 <= i < self.sprites@.len() ==> (#[trigger] self.sprites@[i]).sprite_id
                < self.next_sprite_id
        &&& forall|i: int, j: int|
            0 <= i < j < self.sprite_sheets@.len() ==> (
            #[trigger] self.sprite_sheets@[i]).texture_id != (
            #[trigger] self.sprite_sheets@[j]).texture_id
        &&& forall|i: int, j: int|
            0 <= i < j < self.shaders@.len() ==> (#[trigger] self.shaders@[i]).id != (
            #[trigger] self.shaders@[j]).id
        &&& forall|i: int| 0 <= i < self.shaders@.len() ==> (#[trigger] self.shaders@[i]).wf()
    }

    /// A sheet with texture handle `id` is registered.
    pub open spec fn spec_has_sheet(self, id: u32) -> bool {
        exists|i: int|
            0 <= i < self.sprite_sheets@.len() && (#[trigger] self.sprite_sheets@[i]).texture_id
                == id
    }

    /// The registered sheet with texture handle `id`.
    pub open spec fn spec_sheet(self, id: u32) -> SpriteSheet {
        self.sprite_sheets@[choose|i: int|
            0 <= i < self.sprite_sheets@.len() && (#[trigger] self.sprite_sheets@[i]).texture_id
                == id]
    }

    /// A program with GPU handle `id` is registered.
    pub open spec fn spec_has_shader(self, id: u32) -> bool {
        exists|i: int| 0 <= i < self.shaders@.len() && (#[trigger] self.shaders@[i]).id == id
    }

    /// The registered program with GPU handle `id`.
    pub open spec fn spec_shader(self, id: u32) -> ShaderProgram {
        self.shaders@[choose|i: int|
            0 <= i < self.shaders@.len() && (#[trigger] self.shaders@[i]).id == id]
    }

    /// A sprite with id `id` is registered.
    pub open spec fn spec_has_sprite(self, id: u32) -> bool {
        exists|i: int| 0 <= i < self.sprites@.len() && (#[trigger] self.sprites@[i]).sprite_id == id
    }

    /// The registered sprite with id `id`.
    pub open spec fn spec_sprite(self, id: u32) -> Sprite {
        self.sprites@[choose|i: int|
            0 <= i < self.sprites@.len() && (#[trigger] self.sprites@[i]).sprite_id == id]
    }

    /// A fresh renderer: no resources, no sprites, pacing off.
    pub fn new() -> (r: Renderer)
        ensures
            r.wf(),
            r.sprite_sheets@.len() == 0,
            r.sprites@.len() == 0,
            r.shaders@.len() == 0,
            r.default_shader is None,
            r.next_sprite_id == 0,
            r.target_frame_micros == 0,
            !r.show_fps,
    {
        Renderer {
            sprite_sheets: Vec::new(),
            sprites: Vec::new(),
            shaders: Vec::new(),
            default_shader: None,
            next_sprite_id: 0,
            target_frame_micros: 0,
            show_fps: false,
        }
    }

    /// Registers a sprite sheet under its texture handle, replacing any
    /// sheet previously registered under the same handle. Other sheets,
    /// and everything else the renderer owns, are untouched.
    pub fn add_sprite_sheet(&mut self, sheet: SpriteSheet) -> (id: SpriteSheetId)
        requires
            old(self).wf(),
        ensures
            final(self).wf(),
            id.id == sheet.texture_id,
            final(self).spec_has_sheet(sheet.texture_id),
            final(self).spec_sheet(sheet.texture_id) == sheet,
            forall|other: u32|
                other != sheet.texture_id ==> (final(self).spec_has_sheet(other) <==> old(self).spec_has_sheet(other)),
            forall|other: u32|
                other != sheet.texture_id && old(self).spec_has_sheet(other) ==> final(self).spec_sheet(other) == old(self).spec_sheet(other),
            final(self).sprites@ == old(self).sprites@,
            final(self).shaders@ == old(self).shaders@,
            final(self).default_shader == old(self).default_shader,
            final(self).next_sprite_id == old(self).next_sprite_id,
            final(self).target_frame_micros == old(self).target_frame_micros,
            final(self).show_fps == old(self).show_fps,
    {
        let texture_id = sheet.texture_id;
        let mut i: usize = 0;
        let mut found: bool = false;
        let mut at: usize = 0;
        while i < self.sprite_sheets.len()
            invariant
                i <= self.sprite_sheets@.len(),
                found ==> at < i && self.sprite_sheets@[at as int].texture_id == texture_id,
                !found ==> forall|k: int|
                    0 <= k < i ==> (#[trigger] self.sprite_sheets@[k]).texture_id != texture_id,
            decreases self.sprite_sheets@.len() - i,
        {
            if self.sprite_sheets[i].get_texture() == texture_id {
                found = true;
                at = i;
            }
            i = i + 1;
        }
        if found {
            self.sprite_sheets[at] = sheet;
        } else {
            self.sprite_sheets.push(sheet);
        }
        proof {
            let n = self.sprite_sheets@.len() as int;
            assert(self.sprite_sheets@[n - 1].texture_id == texture_id || found);
            if found {
                assert(self.sprite_sheets@[at as int].texture_id == texture_id);
            }
            assert forall|other: u32|
                other != texture_id && old(self).spec_has_sheet(other) implies final(self).spec_has_sheet(other) && final(self).spec_sheet(other) == old(self).spec_sheet(
                other,
            ) by {
                let k = choose|k: int|
                    0 <= k < old(self).sprite_sheets@.len() && (
                    #[trigger] old(self).sprite_sheets@[k]).texture_id == other;
                assert(self.sprite_sheets@[k].texture_id == other);
                let k2 = choose|k2: int|
                    0 <= k2 < self.sprite_sheets@.len() && (
                    #[trigger] self.sprite_sheets@[k2]).texture_id == other;
                assert(self.sprite_sheets@[k2] == old(self).sprite_sheets@[k2]);
            }
            assert forall|other: u32| other != texture_id && final(self).spec_has_sheet(other)
                implies old(self).spec_has_sheet(other) by {
                let k = choose|k: int|
                    0 <= k < self.sprite_sheets@.len() && (
                    #[trigger] self.sprite_sheets@[k]).texture_id == other;
                assert(old(self).sprite_sheets@[k].texture_id == other);
            }
            let w = choose|w: int|
                0 <= w < self.sprite_sheets@.len() && (
                #[trigger] self.sprite_sheets@[w]).texture_id == texture_id;
            assert(self.sprite_sheets@[w] == sheet);
        }
        SpriteSheetId { id: texture_id }
    }

    /// Registers a linked shader program under its GPU handle, replacing
    /// any program previously registered under the same handle.
    pub fn add_shader_program(&mut self, program: ShaderProgram) -> (id: ShaderId)
        requires
            old(self).wf(),
            program.wf(),
        ensures
            final(self).wf(),
            id.id == program.id,
            final(self).spec_has_shader(program.id),
            final(self).spec_shader(program.id) == program,
            forall|other: u32|
                other != program.id ==> (final(self).spec_has_shader(other) <==> old(self).spec_has_shader(other)),
            forall|other: u32|
                other != program.id && old(self).spec_has_shader(other) ==> final(self).spec_shader(other) == old(self).spec_shader(other),
            final(self).sprites@ == old(self).sprites@,
            final(self).sprite_sheets@ == old(self).sprite_sheets@,
            final(self).default_shader == old(self).default_shader,
            final(self).next_sprite_id == old(self).next_sprite_id,
            final(self).target_frame_micros == old(self).target_frame_micros,
            final(self).show_fps == old(self).show_fps,
    {
        let program_id = program.id;
        let mut i: usize = 0;
        let mut found: bool = false;
        let mut at: usize = 0;
        while i < self.shaders.len()
            invariant
                i <= self.shaders@.len(),
                found ==> at < i && self.shaders@[at as int].id == program_id,
                !found ==> forall|k: int|
                    0 <= k < i ==> (#[trigger] self.shaders@[k]).id != program_id,
            decreases self.shaders@.len() - i,
        {
            if self.shaders[i].id == program_id {
                found = true;
                at = i;
            }
            i = i + 1;
        }
        if found {
            self.shaders[at] = program;
        } else {
            self.shaders.push(program);
        }
        proof {
            let n = self.shaders@.len() as int;
            assert(self.shaders@[n - 1].id == program_id || found);
            if found {
                assert(self.shaders@[at as int].id == program_id);
            }
            assert forall|other: u32|
                other != program_id && old(self).spec_has_shader(other) implies final(self).spec_has_shader(other) && final(self).spec_shader(other) == old(self).spec_shader(
                other,
            ) by {
                let k = choose|k: int|
                    0 <= k < old(self).shaders@.len() && (#[trigger] old(self).shaders@[k]).id
                        == other;
                assert(self.shaders@[k].id == other);
                let k2 = choose|k2: int|
                    0 <= k2 < self.shaders@.len() && (#[trigger] self.shaders@[k2]).id == other;
                assert(self.shaders@[k2] == old(self).shaders@[k2]);
            }
            assert forall|other: u32| other != program_id && final(self).spec_has_shader(other)
                implies old(self).spec_has_shader(other) by {
                let k = choose|k: int|
                    0 <= k < self.shaders@.len() && (#[trigger] self.shaders@[k]).id == other;
                assert(old(self).shaders@[k].id == other);
            }
            let w = choose|w: int|
                0 <= w < self.shaders@.len() && (#[trigger] self.shaders@[w]).id == program_id;
            assert(self.shaders@[w] == program);
        }
        ShaderId { id: program_id }
    }

    /// Marks a registered program as the one sprites get by default.
    pub fn set_default_shader(&mut self, id: ShaderId)
        ensures
            *final(self) == (Renderer { default_shader: Some(id), ..*old(self) }),
    {
        self.default_shader = Some(id);
    }

    /// The default shader, if one was installed.
    pub fn get_default_shader(&self) -> (r: Option<ShaderId>)
        ensures
            r == self.default_shader,
    {
        self.default_shader
    }

    /// Issues the next sprite id and registers a fresh sprite under it.
    /// Ids are handed out in strictly increasing order, starting from
    /// the renderer's first allocation, and are never reused.
    pub fn add_sprite(
        &mut self,
        sprite_sheet: SpriteSheetId,
        sprite_index: usize,
        x_position: i32,
        y_position: i32,
        layer: i32,
        width: u32,
        height: u32,
        shader: ShaderId,
    ) -> (id: SpriteId)
        requires
            old(self).wf(),
            old(self).next_sprite_id < u32::MAX,
        ensures
            final(self).wf(),
            id.id == old(self).next_sprite_id,
            final(self).next_sprite_id == old(self).next_sprite_id + 1,
            final(self).sprites@ == old(self).sprites@.push(
                Sprite {
                    sprite_id: id.id,
                    x_position,
                    y_position,
                    width,
                    height,
                    layer,
                    rotation_bits: 0u32,
                    flip: Flip::NoFlip,
                    sprite_sheet,
                    sprite_sheet_index: sprite_index,
                    shader,
                },
            ),
            final(self).spec_has_sprite(id.id),
            final(self).sprite_sheets@ == old(self).sprite_sheets@,
            final(self).shaders@ == old(self).shaders@,
            final(self).default_shader == old(self).default_shader,
            final(self).target_frame_micros == old(self).target_frame_micros,
            final(self).show_fps == old(self).show_fps,
    {
        let mut sprite = Sprite::new(
            sprite_sheet,
            sprite_index,
            x_position,
            y_position,
            layer,
            width,
            height,
            shader,
        );
        sprite.set_id(self.next_sprite_id);
        let id = SpriteId { id: self.next_sprite_id };
        self.next_sprite_id = self.next_sprite_id + 1;
        self.sprites.push(sprite);
        proof {
            assert(self.sprites@[self.sprites@.len() - 1].sprite_id == id.id);
        }
        id
    }

    /// Law: every sprite already registered has an id strictly below the
    /// issuance counter, so the id of each later `add_sprite` call
    /// exceeds the ids of all sprites added before it.
    pub proof fn lemma_ids_below_counter(self, i: int)
        requires
            self.wf(),
            0 <= i < self.sprites@.len(),
        ensures
            self.sprites@[i].sprite_id < self.next_sprite_id,
    {
    }

    /// The registered sprite with id `id`, if it is still registered.
    pub fn get_sprite(&self, id: SpriteId) -> (r: Option<&Sprite>)
        requires
            self.wf(),
        ensures
            r is Some <==> self.spec_has_sprite(id.id),
            r matches Some(sprite) ==> *sprite == self.spec_sprite(id.id),
    {
        let mut i: usize = 0;
        while i < self.sprites.len()
            invariant
                self.wf(),
                i <= self.sprites@.len(),
                forall|k: int|
                    0 <= k < i ==> (#[trigger] self.sprites@[k]).sprite_id != id.id,
            decreases self.sprites@.len() - i,
        {
            if self.sprites[i].sprite_id == id.id {
                proof {
                    let w = choose|w: int|
                        0 <= w < self.sprites@.len() && (#[trigger] self.sprites@[w]).sprite_id
                            == id.id;
                    assert(self.sprites@[w] == self.sprites@[i as int]);
                }
                return Some(&self.sprites[i]);
            }
            i = i + 1;
        }
        None
    }

    /// Replaces the registered sprite that carries `sprite.sprite_id`
    /// with `sprite`, in place; reports whether such a sprite existed.
    /// No other sprite and nothing else is changed.
    pub fn update_sprite(&mut self, sprite: Sprite) -> (r: bool)
        requires
            old(self).wf(),
        ensures
            final(self).wf(),
            r == old(self).spec_has_sprite(sprite.sprite_id),
            r ==> exists|i: int|
                0 <= i < old(self).sprites@.len() && (#[trigger] old(self).sprites@[i]).sprite_id == sprite.sprite_id && final(self).sprites@ == old(self).sprites@.update(i, sprite),
            !r ==> *final(self) == *old(self),
    {
        let mut i: usize = 0;
        while i < self.sprites.len()
            invariant
                *self == *old(self),
                self.wf(),
                i <= self.sprites@.len(),
                forall|k: int|
                    0 <= k < i ==> (#[trigger] self.sprites@[k]).sprite_id != sprite.sprite_id,
            decreases self.sprites@.len() - i,
        {
            if self.sprites[i].sprite_id == sprite.sprite_id {
                self.sprites[i] = sprite;
                proof {
                    assert(old(self).sprites@[i as int].sprite_id == sprite.sprite_id);
                    assert(self.sprites@ == old(self).sprites@.update(i as int, sprite));
                    assert forall|k: int| 0 <= k < self.sprites@.len() implies (
                    #[trigger] self.sprites@[k]).sprite_id == old(self).sprites@[k].sprite_id by {}
                }
                return true;
            }
            i = i + 1;
        }
        false
    }

    /// All registered sprites, in increasing id order.
    pub fn get_all_sprites(&self) -> (r: &Vec<Sprite>)
        ensures
            r@ == self.sprites@,
    {
        &self.sprites
    }

    /// Deletes the sprite registered under `id`; does nothing if no such
    /// sprite exists. Other sprites keep their values and their order.
    pub fn remove_sprite(&mut self, id: SpriteId)
        requires
            old(self).wf(),
        ensures
            final(self).wf(),
            !final(self).spec_has_sprite(id.id),
            old(self).spec_has_sprite(id.id) ==> exists|i: int|
                0 <= i < old(self).sprites@.len() && (#[trigger] old(self).sprites@[i]).sprite_id
                    == id.id && final(self).sprites@ == old(self).sprites@.remove(i),
            !old(self).spec_has_sprite(id.id) ==> *final(self) == *old(self),
            forall|other: u32|
                other != id.id ==> (final(self).spec_has_sprite(other) <==> old(
                    self,
                ).spec_has_sprite(other)),
            forall|other: u32|
                other != id.id && old(self).spec_has_sprite(other) ==> final(self).spec_sprite(
                    other,
                ) == old(self).spec_sprite(other),
            final(self).sprite_sheets@ == old(self).sprite_sheets@,
            final(self).shaders@ == old(self).shaders@,
            final(self).default_shader == old(self).default_shader,
            final(self).next_sprite_id == old(self).next_sprite_id,
            final(self).target_frame_micros == old(self).target_frame_micros,
            final(self).show_fps == old(self).show_fps,
    {
        let mut i: usize = 0;
        while i < self.sprites.len()
            invariant
                *self == *old(self),
                self.wf(),
                i <= self.sprites@.len(),
                forall|k: int| 0 <= k < i ==> (#[trigger] self.sprites@[k]).sprite_id != id.id,
            decreases self.sprites@.len() - i,
        {
            if self.sprites[i].sprite_id == id.id {
                proof {
                    old(self).sprites@.remove_ensures(i as int);
                }
                self.sprites.remove(i);
                proof {
                    let olds = old(self).sprites@;
                    let news = self.sprites@;
                    assert forall|k: int| 0 <= k < news.len() implies (
                    #[trigger] news[k]).sprite_id != id.id by {
                        if k < i {
                            assert(news[k] == olds[k]);
                            assert(olds[k].sprite_id < olds[i as int].sprite_id);
                        } else {
                            assert(news[k] == olds[k + 1]);
                            assert(olds[i as int].sprite_id < olds[k + 1].sprite_id);
                        }
                    }
                    assert forall|other: u32|
                        other != id.id && old(self).spec_has_sprite(other) implies final(
                    self).spec_has_sprite(other) && final(self).spec_sprite(other) == old(
                    self).spec_sprite(other) by {
                        let k = choose|k: int|
                            0 <= k < olds.len() && (#[trigger] olds[k]).sprite_id == other;
                        if k < i {
                            assert(news[k] == olds[k]);
                        } else {
                            assert(k > i);
                            assert(news[k - 1] == olds[k]);
                        }
                        let k2 = choose|k2: int|
                            0 <= k2 < news.len() && (#[trigger] news[k2]).sprite_id == other;
                        if k2 < i {
                            assert(news[k2] == olds[k2]);
                        } else {
                            assert(news[k2] == olds[k2 + 1]);
                        }
                    }
                    assert forall|other: u32|
                        other != id.id && final(self).spec_has_sprite(other) implies old(
                    self).spec_has_sprite(other) by {
                        let k = choose|k: int|
                            0 <= k < news.len() && (#[trigger] news[k]).sprite_id == other;
                        if k < i {
                            assert(news[k] == olds[k]);
                        } else {
                            assert(news[k] == olds[k + 1]);
                        }
                    }
                }
                return ;
            }
            i = i + 1;
        }
    }

    /// The GPU texture handle of the sheet registered under `id`, if it
    /// is still registered.
    pub fn get_texture_from_sprite_sheet(&self, sprite_sheet_id: SpriteSheetId) -> (r: Option<
        u32,
    >)
        requires
            self.wf(),
        ensures
            r is Some <==> self.spec_has_sheet(sprite_sheet_id.id),
            r matches Some(t) ==> t == self.spec_sheet(sprite_sheet_id.id).texture_id,
    {
        let mut i: usize = 0;
        while i < self.sprite_sheets.len()
            invariant
                self.wf(),
                i <= self.sprite_sheets@.len(),
                forall|k: int|
                    0 <= k < i ==> (#[trigger] self.sprite_sheets@[k]).texture_id
                        != sprite_sheet_id.id,
            decreases self.sprite_sheets@.len() - i,
        {
            if self.sprite_sheets[i].get_texture() == sprite_sheet_id.id {
                proof {
                    let w = choose|w: int|
                        0 <= w < self.sprite_sheets@.len() && (
                        #[trigger] self.sprite_sheets@[w]).texture_id == sprite_sheet_id.id;
                    assert(self.sprite_sheets@[w] == self.sprite_sheets@[i as int]);
                }
                return Some(self.sprite_sheets[i].get_texture());
            }
            i = i + 1;
        }
        None
    }

    /// The UV rectangle of cell `index` of the sheet registered under
    /// `sprite_sheet`: present exactly when the sheet is registered and
    /// the index is within its grid.
    pub fn get_uv_from_sprite_sheet(&self, sprite_sheet: SpriteSheetId, index: usize) -> (r:
        Option<UvRect>)
        requires
            self.wf(),
        ensures
            r is Some <==> (self.spec_has_sheet(sprite_sheet.id) && index < self.spec_sheet(
                sprite_sheet.id,
            ).uv_rects@.len()),
            r matches Some(uv) ==> uv == self.spec_sheet(sprite_sheet.id).uv_rects@[index as int],
    {
        let mut i: usize = 0;
        while i < self.sprite_sheets.len()
            invariant
                self.wf(),
                i <= self.sprite_sheets@.len(),
                forall|k: int|
                    0 <= k < i ==> (#[trigger] self.sprite_sheets@[k]).texture_id
                        != sprite_sheet.id,
            decreases self.sprite_sheets@.len() - i,
        {
            if self.sprite_sheets[i].get_texture() == sprite_sheet.id {
                proof {
                    let w = choose|w: int|
                        0 <= w < self.sprite_sheets@.len() && (
                        #[trigger] self.sprite_sheets@[w]).texture_id == sprite_sheet.id;
                    assert(self.sprite_sheets@[w] == self.sprite_sheets@[i as int]);
                }
                if index < self.sprite_sheets[i].len() {
                    return Some(self.sprite_sheets[i].get_uv(index));
                } else {
                    return None;
                }
            }
            i = i + 1;
        }
        None
    }

    /// Whether a program is registered under `id`.
    pub fn has_shader_program(&self, id: ShaderId) -> (r: bool)
        ensures
            r == self.spec_has_shader(id.id),
    {
        let mut i: usize = 0;
        while i < self.shaders.len()
            invariant
                i <= self.shaders@.len(),
                forall|k: int| 0 <= k < i ==> (#[trigger] self.shaders@[k]).id != id.id,
            decreases self.shaders@.len() - i,
        {
            if self.shaders[i].id == id.id {
                return true;
            }
            i = i + 1;
        }
        false
    }

    /// The program registered under `id`, if it is still registered.
    pub fn get_shader_program(&self, id: ShaderId) -> (r: Option<&ShaderProgram>)
        requires
            self.wf(),
        ensures
            r is Some <==> self.spec_has_shader(id.id),
            r matches Some(p) ==> *p == self.spec_shader(id.id),
    {
        let mut i: usize = 0;
        while i < self.shaders.len()
            invariant
                self.wf(),
                i <= self.shaders@.len(),
                forall|k: int| 0 <= k < i ==> (#[trigger] self.shaders@[k]).id != id.id,
            decreases self.shaders@.len() - i,
        {
            if self.shaders[i].id == id.id {
                proof {
                    let w = choose|w: int|
                        0 <= w < self.shaders@.len() && (#[trigger] self.shaders@[w]).id == id.id;
                    assert(self.shaders@[w] == self.shaders@[i as int]);
                }
                return Some(&self.shaders[i]);
            }
            i = i + 1;
        }
        None
    }

    /// Sets the pacing target to `1 / fps` seconds per frame; 0 turns
    /// pacing off.
    pub fn set_fps(&mut self, fps: u32)
        ensures
            *final(self) == (Renderer {
                target_frame_micros: if fps == 0 {
                    0u64
                } else {
                    (1000000u64 / fps as u64) as u64
                },
                ..*old(self)
            }),
    {
        if fps == 0 {
            self.target_frame_micros = 0;
        } else {
            self.target_frame_micros = 1000000u64 / (fps as u64);
        }
    }

    /// Sets whether the instantaneous frame rate is reported each
    /// frame.
    pub fn set_show_fps(&mut self, show: bool)
        ensures
            *final(self) == (Renderer { show_fps: show, ..*old(self) }),
    {
        self.show_fps = show;
    }

    /// Flips whether the instantaneous frame rate is reported each
    /// frame.
    pub fn toggle_show_fps(&mut self)
        ensures
            *final(self) == (Renderer { show_fps: !old(self).show_fps, ..*old(self) }),
    {
        self.show_fps = !self.show_fps;
    }

    /// The frame-pacing decision: whether enough time has elapsed since
    /// the previous presentation for the frame to complete.
    ///
    /// Law: with pacing on (a nonzero target), this never reports the
    /// wait over before the full target frame time has elapsed, so a
    /// paced frame never finishes early.
    pub fn frame_wait_over(&self, elapsed_micros: u128) -> (r: bool)
        ensures
            r <==> (self.target_frame_micros == 0 || elapsed_micros
                >= self.target_frame_micros),
    {
        self.target_frame_micros == 0 || elapsed_micros >= self.target_frame_micros as u128
    }

    /// The sprite can be drawn as registered: its shader program exists,
    /// its sheet exists, and its cell index lies within the sheet's
    /// grid.
    pub open spec fn spec_drawable(self, s: Sprite) -> bool {
        &&& self.spec_has_shader(s.shader.id)
        &&& self.spec_has_sheet(s.sprite_sheet.id)
        &&& s.sprite_sheet_index < self.spec_sheet(s.sprite_sheet.id).uv_rects@.len()
    }

    /// The registered sprites that can be drawn this frame, in registry
    /// order.
    pub open spec fn spec_drawable_sprites(self) -> Seq<Sprite> {
        filter_drawable(self, self.sprites@)
    }

    /// Derives the frame's draw batches from the live registries:
    /// drawable sprites are grouped by layer (ascending) then shader.
    /// A sprite whose shader or sheet is no longer registered, or whose
    /// cell index is out of range, is skipped for the frame rather than
    /// failing it: one bad entity cannot halt rendering.
    pub fn build_frame_plan(&self) -> (plan: FramePlan)
        requires
            self.wf(),
        ensures
            valid_batching(self.spec_drawable_sprites(), plan.batches@),
    {
        let mut live: Vec<Sprite> = Vec::new();
        let mut i: usize = 0;
        while i < self.sprites.len()
            invariant
                self.wf(),
                i <= self.sprites@.len(),
                live@ == filter_drawable(*self, self.sprites@.subrange(0, i as int)),
            decreases self.sprites@.len() - i,
        {
            proof {
                assert(self.sprites@.subrange(0, i + 1).drop_last() =~= self.sprites@.subrange(
                    0,
                    i as int,
                ));
                assert(self.sprites@.subrange(0, i + 1).last() == self.sprites@[i as int]);
            }
            let s = self.sprites[i];
            let shader_ok = self.has_shader_program(s.shader);
            let sheet_ok = self.get_uv_from_sprite_sheet(
                s.sprite_sheet,
                s.sprite_sheet_index,
            ).is_some();
            if shader_ok && sheet_ok {
                live.push(s);
            }
            i = i + 1;
        }
        proof {
            assert(self.sprites@.subrange(0, self.sprites@.len() as int) =~= self.sprites@);
        }
        FramePlan { batches: build_batches(&live) }
    }
}

/// The sprites of `s` that `r` can draw as registered, in order.
pub open spec fn filter_drawable(r: Renderer, s: Seq<Sprite>) -> Seq<Sprite>
    decreases s.len(),
{
    if s.len() == 0 {
        Seq::empty()
    } else {
        let rest = filter_drawable(r, s.drop_last());
        if r.spec_drawable(s.last()) {
            rest.push(s.last())
        } else {
            rest
        }
    }
}

/// A drawable sprite of `s` is kept by `filter_drawable`.
proof fn lemma_filter_drawable_contains(r: Renderer, s: Seq<Sprite>, i: int)
    requires
        0 <= i < s.len(),
        r.spec_drawable(s[i]),
    ensures
        exists|j: int|
            0 <= j < filter_drawable(r, s).len() && filter_drawable(r, s)[j] == s[i],
    decreases s.len(),
{
    if i == s.len() - 1 {
        let f = filter_drawable(r, s);
        assert(f[f.len() - 1] == s[i]);
    } else {
        lemma_filter_drawable_contains(r, s.drop_last(), i);
        let rest = filter_drawable(r, s.drop_last());
        let j0 = choose|j: int| 0 <= j < rest.len() && rest[j] == s.drop_last()[i];
        assert(filter_drawable(r, s)[j0] == rest[j0]);
        assert(s.drop_last()[i] == s[i]);
    }
}

/// The ordered draw work of one frame: one entry per draw call.
pub struct FramePlan {
    pub batches: Vec<Batch>,
}

/// Law: a sprite whose shader and sheet are registered and whose cell
/// index is in range is placed in some batch of the frame plan — no
/// matter what state any other sprite is in. In particular, removing
/// one sprite's sheet does not stop the remaining sprites from being
/// drawn, and the plan is built without failing.
pub proof fn lemma_drawable_sprite_is_drawn(r: Renderer, batches: Seq<Batch>, i: int)
    requires
        r.wf(),
        valid_batching(r.spec_drawable_sprites(), batches),
        0 <= i < r.sprites@.len(),
        r.spec_drawable(r.sprites@[i]),
    ensures
        exists|b: int, k: int|
            0 <= b < batches.len() && 0 <= k < batches[b].sprites@.len() && #[trigger] batches[b].sprites@[k]
                == r.sprites@[i],
{
    lemma_filter_drawable_contains(r, r.sprites@, i);
    let input = r.spec_drawable_sprites();
    let j = choose|j: int| 0 <= j < input.len() && input[j] == r.sprites@[i];
    assert(batches_have_key(batches, input[j].layer, input[j].shader));
    let b = choose|b: int|
        0 <= b < batches.len() && (#[trigger] batches[b]).layer == input[j].layer
            && batches[b].shader == input[j].shader;
    lemma_filter_key_contains(input, batches[b].layer, batches[b].shader, j);
    let k = choose|k: int|
        0 <= k < filter_key(input, batches[b].layer, batches[b].shader).len() && filter_key(
            input,
            batches[b].layer,
            batches[b].shader,
        )[k] == input[j];
    assert(batches[b].sprites@[k] == r.sprites@[i]);
}

} // verus!
