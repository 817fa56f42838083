use sprite_engine::shader::derive_layout;
use sprite_engine::{Attribute, AttributeDataType, ShaderProgram, Uniform, UniformDataType, UniformKind};

#[test]
fn two_float_vec2_attributes_pack_to_16_bytes_with_second_at_8() {
    let attributes = vec![
        Attribute::position("u_position".to_string(), 0),
        Attribute::texture_uv_from_sprite_sheet("tex_coords".to_string(), 1),
    ];
    assert_eq!(attributes[0].data_type, AttributeDataType::FloatVec2);
    assert_eq!(attributes[1].data_type, AttributeDataType::FloatVec2);
    let (offsets, bytes_per_vertex) = derive_layout(&attributes);
    assert_eq!(offsets, vec![0, 8]);
    assert_eq!(bytes_per_vertex, 16);
}

#[test]
fn shader_program_derives_vertex_and_sprite_sizes() {
    let attributes = vec![
        Attribute::position("u_position".to_string(), 0),
        Attribute::texture_uv_from_sprite_sheet("tex_coords".to_string(), 1),
    ];
    let program = ShaderProgram::new(11, attributes, Vec::new());
    assert_eq!(program.id, 11);
    assert_eq!(program.bytes_per_vertex, 16);
    // 4 vertices per sprite.
    assert_eq!(program.sprite_size_bytes(), 64);
}

#[test]
fn mixed_attribute_layout_offsets() {
    let attributes = vec![
        Attribute {
            name: "a".to_string(),
            location: 0,
            kind: sprite_engine::AttributeKind::Position,
            data_type: AttributeDataType::FloatVec4,
        },
        Attribute {
            name: "b".to_string(),
            location: 1,
            kind: sprite_engine::AttributeKind::SheetUv,
            data_type: AttributeDataType::Bool,
        },
        Attribute {
            name: "c".to_string(),
            location: 2,
            kind: sprite_engine::AttributeKind::SheetUv,
            data_type: AttributeDataType::Float,
        },
    ];
    let (offsets, bytes_per_vertex) = derive_layout(&attributes);
    assert_eq!(offsets, vec![0, 16, 17]);
    assert_eq!(bytes_per_vertex, 21);
}

#[test]
fn attribute_data_type_widths() {
    assert_eq!(AttributeDataType::Float.byte_width(), 4);
    assert_eq!(AttributeDataType::FloatVec2.byte_width(), 8);
    assert_eq!(AttributeDataType::FloatVec3.byte_width(), 12);
    assert_eq!(AttributeDataType::FloatVec4.byte_width(), 16);
    assert_eq!(AttributeDataType::Int.byte_width(), 4);
    assert_eq!(AttributeDataType::Bool.byte_width(), 1);
    assert_eq!(AttributeDataType::UInt.byte_width(), 4);
    assert_eq!(AttributeDataType::FloatVec3.component_count(), 3);
    assert_eq!(AttributeDataType::Bool.component_size(), 1);
}

#[test]
fn uniform_data_type_widths() {
    assert_eq!(UniformDataType::Float.byte_width(), 4);
    assert_eq!(UniformDataType::FloatVec2.byte_width(), 8);
    assert_eq!(UniformDataType::FloatMat2.byte_width(), 16);
    assert_eq!(UniformDataType::FloatMat3.byte_width(), 36);
    assert_eq!(UniformDataType::FloatMat4.byte_width(), 64);
    assert_eq!(UniformDataType::FloatMat2x3.byte_width(), 24);
    assert_eq!(UniformDataType::FloatMat3x4.byte_width(), 48);
    assert_eq!(UniformDataType::Sampler2D.byte_width(), 4);
    assert_eq!(UniformDataType::Bool.byte_width(), 1);
}

#[test]
fn preset_uniforms_carry_their_kinds() {
    let u = Uniform::time_since_initialization("u_time".to_string());
    assert_eq!(u.kind, UniformKind::TimeSinceInitialization);
    assert_eq!(u.data_type, UniformDataType::Float);
    let u = Uniform::aspect_ratio("u_aspect_ratio".to_string());
    assert_eq!(u.kind, UniformKind::AspectRatio);
    assert_eq!(u.data_type, UniformDataType::Float);
    let u = Uniform::sprite_center("u_sprite_center".to_string());
    assert_eq!(u.kind, UniformKind::SpriteCenter);
    assert_eq!(u.data_type, UniformDataType::FloatVec2);
    let u = Uniform::rotation("u_rotation".to_string());
    assert_eq!(u.kind, UniformKind::Rotation);
    let u = Uniform::flip("u_flip".to_string());
    assert_eq!(u.kind, UniformKind::FlipFlags);
    assert_eq!(u.data_type, UniformDataType::FloatVec2);
    let u = Uniform::texture_from_sprite_sheet("tex_sample".to_string());
    assert_eq!(u.kind, UniformKind::SheetTexture);
    assert_eq!(u.data_type, UniformDataType::Sampler2D);
    assert_eq!(u.name, "tex_sample");
}
