//! A small real-time 2D rendering core: sprites, sprite-sheet atlases,
//! shader data layout, layer-then-shader batching, and frame pacing.

pub mod atlas;
pub mod batch;
pub mod builder;
pub mod color;
pub mod ids;
pub mod input;
pub mod renderer;
pub mod shader;
pub mod sprite;
pub mod texture;
pub mod timer;

pub use atlas::{SpriteSheet, SpriteSheetError, UvRect};
pub use batch::{
    build_batches, lemma_batching_partition_size, lemma_layer_draw_order,
    lemma_quad_indices_partition, pack_batch, pack_sprite, quad_block_at, quad_indices,
    total_sprites, valid_batching, Batch, BatchKey,
};
pub use builder::EngineBuilder;
pub use color::Color;
pub use ids::{GetId, ShaderId, SpriteId, SpriteSheetId};
pub use input::{Action, InputManager, Key};
pub use shader::{
    Attribute, AttributeDataType, AttributeKind, ShaderError, ShaderProgram, Uniform,
    UniformDataType, UniformKind, DEFAULT_FRAGMENT_SHADER, DEFAULT_VERTEX_SHADER,
    MAX_VERTEX_ATTRIBUTES, SPRITE_CAPACITY,
};
pub use renderer::{lemma_drawable_sprite_is_drawn, FramePlan, Renderer};
pub use sprite::{Flip, Sprite};
pub use texture::Texture;
pub use timer::Timer;
