//! Shader programs and the typed attribute / uniform binding model.
//!
//! Each slot pairs a shader variable name with a declared data kind of a
//! fixed byte width and a strategy (a closed set of built-in kinds) that
//! computes the slot's data from the rendering context and a sprite.
//! Attribute order is significant: walking the ordered attribute list and
//! advancing a byte offset by each attribute's width yields the packed
//! per-vertex layout the GPU pipeline consumes.

use vstd::prelude::*;

use crate::ids::{GetId, ShaderId};

verus! {

/// Source of the stage that computes per-vertex positions, fed to the GPU
/// compiler by the embedding application.
pub const DEFAULT_VERTEX_SHADER: &'static str = "
#version 330 core

layout (location = 0) in vec2 u_position;
layout (location = 1) in vec2 tex_coords;

uniform float u_rotation;
uniform vec2 u_sprite_center;
uniform float u_aspect_ratio;
uniform vec2 u_flip;

out vec2 frag_tex_coords;

void main() {
    vec2 new_position = u_position - u_sprite_center;

    new_position *= mat2(
        cos(u_rotation), -sin(u_rotation),
        sin(u_rotation), cos(u_rotation)
    );

    if (u_flip.x == 1.0) {
        new_position.x *= -1.0;
    }
    if (u_flip.y == 1.0) {
        new_position.y *= -1.0;
    }

    new_position.y *= u_aspect_ratio;
    new_position += u_sprite_center;

    gl_Position = vec4(new_position, 0.0f, 1.0f);
    frag_tex_coords = tex_coords;
}
";

/// Source of the stage that samples the bound texture.
pub const DEFAULT_FRAGMENT_SHADER: &'static str = "
#version 330 core

in vec2 frag_tex_coords;

uniform sampler2D tex_sample;

out vec4 frag_color;

void main() {
    frag_color = texture(tex_sample, frag_tex_coords);
}
";

/// Most attribute slots a single program may declare. GPU pipelines cap
/// the number of vertex input locations far below this.
pub const MAX_VERTEX_ATTRIBUTES: usize = 256;

/// Sprite capacity the GPU vertex and index buffers are preallocated for;
/// they must never be filled beyond it without an explicit resize.
pub const SPRITE_CAPACITY: usize = 10000;

/// Failure while compiling or linking a shader program. Each variant
/// carries the diagnostic text reported by the GPU driver or the
/// conversion that failed.
#[derive(Clone, PartialEq, Eq, Debug)]
pub enum ShaderError {
    LinkingError(String),
    CompilationError(String),
    NulError(String),
    FromUtf8Error(String),
}

/// The GPU-transferable shapes a per-vertex attribute may have.
#[derive(Copy, Clone, PartialEq, Eq, Structural, Debug, Hash)]
pub enum AttributeDataType {
    Float,
    FloatVec2,
    FloatVec3,
    FloatVec4,
    Int,
    Bool,
    UInt,
}

impl AttributeDataType {
    pub open spec fn spec_component_count(self) -> int {
        match self {
            AttributeDataType::Float => 1,
            AttributeDataType::FloatVec2 => 2,
            AttributeDataType::FloatVec3 => 3,
            AttributeDataType::FloatVec4 => 4,
            AttributeDataType::Int => 1,
            AttributeDataType::Bool => 1,
            AttributeDataType::UInt => 1,
        }
    }

    pub open spec fn spec_component_size(self) -> int {
        match self {
            AttributeDataType::Float => 4,
            AttributeDataType::FloatVec2 => 4,
            AttributeDataType::FloatVec3 => 4,
            AttributeDataType::FloatVec4 => 4,
            AttributeDataType::Int => 4,
            AttributeDataType::Bool => 1,
            AttributeDataType::UInt => 4,
        }
    }

    /// Bytes one vertex's worth of this attribute occupies.
    pub open spec fn spec_byte_width(self) -> int {
        self.spec_component_count() * self.spec_component_size()
    }

    /// Number of scalar components (1 for scalars, 2 to 4 for vectors).
    pub fn component_count(&self) -> (r: u32)
        ensures
            r == self.spec_component_count(),
    {
        match self {
            AttributeDataType::Float => 1,
            AttributeDataType::FloatVec2 => 2,
            AttributeDataType::FloatVec3 => 3,
            AttributeDataType::FloatVec4 => 4,
            AttributeDataType::Int => 1,
            AttributeDataType::Bool => 1,
            AttributeDataType::UInt => 1,
        }
    }

    /// Bytes per scalar component.
    pub fn component_size(&self) -> (r: u32)
        ensures
            r == self.spec_component_size(),
    {
        match self {
            AttributeDataType::Float => 4,
            AttributeDataType::FloatVec2 => 4,
            AttributeDataType::FloatVec3 => 4,
            AttributeDataType::FloatVec4 => 4,
            AttributeDataType::Int => 4,
            AttributeDataType::Bool => 1,
            AttributeDataType::UInt => 4,
        }
    }

    /// Bytes one vertex's worth of this attribute occupies.
    pub fn byte_width(&self) -> (r: u32)
        ensures
            r == self.spec_byte_width(),
    {
        self.component_count() * self.component_size()
    }
}

/// The GPU-transferable shapes a per-draw uniform may have.
#[derive(Copy, Clone, PartialEq, Eq, Structural, Debug, Hash)]
pub enum UniformDataType {
    Float,
    FloatVec2,
    FloatVec3,
    FloatVec4,
    FloatMat2,
    FloatMat3,
    FloatMat4,
    FloatMat2x3,
    FloatMat2x4,
    FloatMat3x2,
    FloatMat3x4,
    FloatMat4x2,
    FloatMat4x3,
    Int,
    Bool,
    UInt,
    /// A texture reference, by GPU texture handle.
    Sampler2D,
}

impl UniformDataType {
    pub open spec fn spec_byte_width(self) -> int {
        match self {
            UniformDataType::Float => 4,
            UniformDataType::FloatVec2 => 8,
            UniformDataType::FloatVec3 => 12,
            UniformDataType::FloatVec4 => 16,
            UniformDataType::FloatMat2 => 16,
            UniformDataType::FloatMat3 => 36,
            UniformDataType::FloatMat4 => 64,
            UniformDataType::FloatMat2x3 => 24,
            UniformDataType::FloatMat2x4 => 32,
            UniformDataType::FloatMat3x2 => 24,
            UniformDataType::FloatMat3x4 => 48,
            UniformDataType::FloatMat4x2 => 32,
            UniformDataType::FloatMat4x3 => 48,
            UniformDataType::Int => 4,
            UniformDataType::Bool => 1,
            UniformDataType::UInt => 4,
            UniformDataType::Sampler2D => 4,
        }
    }

    /// Exact byte width of one value of this kind.
    pub fn byte_width(&self) -> (r: u32)
        ensures
            r == self.spec_byte_width(),
    {
        match self {
            UniformDataType::Float => 4,
            UniformDataType::FloatVec2 => 8,
            UniformDataType::FloatVec3 => 12,
            UniformDataType::FloatVec4 => 16,
            UniformDataType::FloatMat2 => 16,
            UniformDataType::FloatMat3 => 36,
            UniformDataType::FloatMat4 => 64,
            UniformDataType::FloatMat2x3 => 24,
            UniformDataType::FloatMat2x4 => 32,
            UniformDataType::FloatMat3x2 => 24,
            UniformDataType::FloatMat3x4 => 48,
            UniformDataType::FloatMat4x2 => 32,
            UniformDataType::FloatMat4x3 => 48,
            UniformDataType::Int => 4,
            UniformDataType::Bool => 1,
            UniformDataType::UInt => 4,
            UniformDataType::Sampler2D => 4,
        }
    }
}

/// The built-in strategies that compute a per-vertex attribute's data.
/// Dispatch is by pattern match on this closed set, not by comparing
/// function pointers.
#[derive(Copy, Clone, PartialEq, Eq, Structural, Debug, Hash)]
pub enum AttributeKind {
    /// The four quad corners in normalized device coordinates, order
    /// bottom-left, bottom-right, top-left, top-right, aspect-corrected.
    Position,
    /// The four corners' UV coordinates looked up from the sprite's
    /// sheet and cell index, in the same fixed corner order.
    SheetUv,
}

/// The built-in strategies that compute a per-draw uniform's data.
#[derive(Copy, Clone, PartialEq, Eq, Structural, Debug, Hash)]
pub enum UniformKind {
    /// Seconds elapsed since the engine was created.
    TimeSinceInitialization,
    /// Window width over window height.
    AspectRatio,
    /// The sprite's center in normalized device coordinates.
    SpriteCenter,
    /// The sprite's rotation in radians.
    Rotation,
    /// The sprite's flip state as a two-component flag vector.
    FlipFlags,
    /// The GPU texture handle of the sprite's sheet, to be bound.
    SheetTexture,
}

/// A per-vertex shader input slot: a shader variable name, the vertex
/// input location it is bound to, a strategy and a declared data kind.
/// Evaluating it over one sprite yields exactly 4 values (one per quad
/// corner), each of the kind's byte width.
#[derive(Clone, PartialEq, Eq, Debug)]
pub struct Attribute {
    pub name: String,
    pub location: u32,
    pub kind: AttributeKind,
    pub data_type: AttributeDataType,
}

impl Attribute {
    /// The preset slot for quad corner positions.
    pub fn position(name: String, location: u32) -> (r: Attribute)
        ensures
            r.name == name,
            r.location == location,
            r.kind == AttributeKind::Position,
            r.data_type == AttributeDataType::FloatVec2,
    {
        Attribute { name, location, kind: AttributeKind::Position, data_type: AttributeDataType::FloatVec2 }
    }

    /// The preset slot for per-corner texture UV coordinates.
    pub fn texture_uv_from_sprite_sheet(name: String, location: u32) -> (r: Attribute)
        ensures
            r.name == name,
            r.location == location,
            r.kind == AttributeKind::SheetUv,
            r.data_type == AttributeDataType::FloatVec2,
    {
        Attribute { name, location, kind: AttributeKind::SheetUv, data_type: AttributeDataType::FloatVec2 }
    }
}

/// A per-draw shader input slot: a shader variable name (looked up at
/// bind time), a strategy and a declared data kind. Evaluating it yields
/// exactly 1 value of the kind's byte width.
#[derive(Clone, PartialEq, Eq, Debug)]
pub struct Uniform {
    pub name: String,
    pub kind: UniformKind,
    pub data_type: UniformDataType,
}

impl Uniform {
    /// The preset uniform carrying seconds since engine creation.
    pub fn time_since_initialization(name: String) -> (r: Uniform)
        ensures
            r.name == name,
            r.kind == UniformKind::TimeSinceInitialization,
            r.data_type == UniformDataType::Float,
    {
        Uniform { name, kind: UniformKind::TimeSinceInitialization, data_type: UniformDataType::Float }
    }

    /// The preset uniform carrying window width over height.
    pub fn aspect_ratio(name: String) -> (r: Uniform)
        ensures
            r.name == name,
            r.kind == UniformKind::AspectRatio,
            r.data_type == UniformDataType::Float,
    {
        Uniform { name, kind: UniformKind::AspectRatio, data_type: UniformDataType::Float }
    }

    /// The preset uniform carrying the sprite center in normalized
    /// device coordinates.
    pub fn sprite_center(name: String) -> (r: Uniform)
        ensures
            r.name == name,
            r.kind == UniformKind::SpriteCenter,
            r.data_type == UniformDataType::FloatVec2,
    {
        Uniform { name, kind: UniformKind::SpriteCenter, data_type: UniformDataType::FloatVec2 }
    }

    /// The preset uniform carrying the sprite's rotation in radians.
    pub fn rotation(name: String) -> (r: Uniform)
        ensures
            r.name == name,
            r.kind == UniformKind::Rotation,
            r.data_type == UniformDataType::Float,
    {
        Uniform { name, kind: UniformKind::Rotation, data_type: UniformDataType::Float }
    }

    /// The preset uniform carrying the flip flag vector: `[horizontal,
    /// vertical]`, 0 for unflipped, 1 for flipped.
    pub fn flip(name: String) -> (r: Uniform)
        ensures
            r.name == name,
            r.kind == UniformKind::FlipFlags,
            r.data_type == UniformDataType::FloatVec2,
    {
        Uniform { name, kind: UniformKind::FlipFlags, data_type: UniformDataType::FloatVec2 }
    }

    /// The preset uniform that binds the sprite's sheet texture.
    pub fn texture_from_sprite_sheet(name: String) -> (r: Uniform)
        ensures
            r.name == name,
            r.kind == UniformKind::SheetTexture,
            r.data_type == UniformDataType::Sampler2D,
    {
        Uniform { name, kind: UniformKind::SheetTexture, data_type: UniformDataType::Sampler2D }
    }
}

/// Total byte width of the first `n` attributes of `attrs`: the byte
/// offset at which attribute `n`'s data starts within one packed vertex
/// record.
pub open spec fn attr_widths_sum(attrs: Seq<Attribute>, n: int) -> int
    decreases n,
{
    if n <= 0 {
        0
    } else {
        attr_widths_sum(attrs, n - 1) + attrs[n - 1].data_type.spec_byte_width()
    }
}

pub proof fn lemma_attr_widths_sum_bounds(attrs: Seq<Attribute>, n: int)
    requires
        0 <= n <= attrs.len(),
    ensures
        n <= attr_widths_sum(attrs, n) <= 16 * n,
        attr_widths_sum(attrs, n) <= attr_widths_sum(attrs, attrs.len() as int),
    decreases attrs.len() - n,
{
    if n > 0 {
        lemma_attr_widths_sum_bounds_below(attrs, n);
    }
    if n < attrs.len() {
        lemma_attr_widths_sum_bounds(attrs, n + 1);
    }
}

/// The running offset never shrinks as more attributes are taken in.
pub proof fn lemma_attr_widths_sum_mono(attrs: Seq<Attribute>, m: int, n: int)
    requires
        0 <= m <= n,
    ensures
        attr_widths_sum(attrs, m) <= attr_widths_sum(attrs, n),
    decreases n - m,
{
    if m < n {
        lemma_attr_widths_sum_mono(attrs, m, n - 1);
    }
}

proof fn lemma_attr_widths_sum_bounds_below(attrs: Seq<Attribute>, n: int)
    requires
        0 <= n <= attrs.len(),
    ensures
        n <= attr_widths_sum(attrs, n) <= 16 * n,
    decreases n,
{
    if n > 0 {
        lemma_attr_widths_sum_bounds_below(attrs, n - 1);
    }
}

/// Walks the ordered attribute list once and derives the packed vertex
/// layout: for each attribute the byte offset of its data within one
/// vertex record, and the total bytes per vertex.
pub fn derive_layout(attributes: &Vec<Attribute>) -> (r: (Vec<u32>, u32))
    requires
        attributes@.len() <= MAX_VERTEX_ATTRIBUTES,
    ensures
        r.0@.len() == attributes@.len(),
        forall|i: int|
            0 <= i < attributes@.len() ==> #[trigger] r.0@[i] == attr_widths_sum(attributes@, i),
        r.1 == attr_widths_sum(attributes@, attributes@.len() as int),
{
    let mut offsets: Vec<u32> = Vec::new();
    let mut offset: u32 = 0;
    let mut i: usize = 0;
    while i < attributes.len()
        invariant
            attributes@.len() <= MAX_VERTEX_ATTRIBUTES,
            i <= attributes@.len(),
            offsets@.len() == i,
            forall|j: int| 0 <= j < i ==> offsets@[j] == attr_widths_sum(attributes@, j),
            offset == attr_widths_sum(attributes@, i as int),
        decreases attributes@.len() - i,
    {
        proof {
            lemma_attr_widths_sum_bounds(attributes@, i + 1);
        }
        offsets.push(offset);
        offset = offset + attributes[i].data_type.byte_width();
        i = i + 1;
    }
    (offsets, offset)
}

/// A linked GPU program together with its ordered attribute and uniform
/// slots and the vertex layout derived from the attribute list.
///
/// The GPU buffer objects belonging to the program (vertex buffer, index
/// buffer, vertex array) are created, preallocated for
/// [`SPRITE_CAPACITY`] sprites, and released by the embedding
/// application, which alone can reach the GPU.
pub struct ShaderProgram {
    pub id: u32,
    pub attributes: Vec<Attribute>,
    pub uniforms: Vec<Uniform>,
    pub bytes_per_vertex: u32,
}

impl GetId for ShaderProgram {
    type Id = ShaderId;

    fn id(&self) -> (r: ShaderId)
        ensures
            r.id == self.id,
    {
        ShaderId { id: self.id }
    }
}

impl ShaderProgram {
    /// The derived `bytes_per_vertex` matches the attribute list: the sum
    /// of all attribute byte widths.
    pub open spec fn wf(self) -> bool {
        self.bytes_per_vertex == attr_widths_sum(
            self.attributes@,
            self.attributes@.len() as int,
        )
    }

    /// Wraps the already-linked GPU program `id` and derives the packed
    /// vertex layout from the ordered attribute list.
    pub fn new(id: u32, attributes: Vec<Attribute>, uniforms: Vec<Uniform>) -> (r: ShaderProgram)
        requires
            attributes@.len() <= MAX_VERTEX_ATTRIBUTES,
        ensures
            r.id == id,
            r.attributes@ == attributes@,
            r.uniforms@ == uniforms@,
            r.bytes_per_vertex == attr_widths_sum(attributes@, attributes@.len() as int),
            r.wf(),
    {
        let (_offsets, bytes_per_vertex) = derive_layout(&attributes);
        ShaderProgram { id, attributes, uniforms, bytes_per_vertex }
    }

    /// Bytes one whole sprite (4 packed vertices) occupies in the vertex
    /// buffer.
    pub fn sprite_size_bytes(&self) -> (r: u64)
        ensures
            r == 4 * self.bytes_per_vertex,
    {
        4 * (self.bytes_per_vertex as u64)
    }

    pub fn attributes(&self) -> (r: &Vec<Attribute>)
        ensures
            r@ == self.attributes@,
    {
        &self.attributes
    }

    pub fn uniforms(&self) -> (r: &Vec<Uniform>)
        ensures
            r@ == self.uniforms@,
    {
        &self.uniforms
    }
}

} // verus!
