use sprite_engine::{
    build_batches, pack_batch, pack_sprite, quad_indices, Attribute, ShaderId, SpriteSheetId,
    Sprite,
};

fn sprite_on(layer: i32, shader: u32) -> Sprite {
    Sprite::new(
        SpriteSheetId::new(1),
        0,
        0,
        0,
        layer,
        16,
        16,
        ShaderId::new(shader),
    )
}

#[test]
fn quad_indices_for_three_sprites() {
    let indices = quad_indices(3);
    assert_eq!(indices.len(), 18);
    assert_eq!(
        indices,
        vec![0, 1, 2, 2, 1, 3, 4, 5, 6, 6, 5, 7, 8, 9, 10, 10, 9, 11]
    );
}

#[test]
fn quad_indices_reference_disjoint_vertices_per_sprite() {
    let n = 5;
    let indices = quad_indices(n);
    assert_eq!(indices.len(), 6 * n);
    for i in 0..n {
        // Each sprite's six entries stay within its own four vertices.
        for k in 6 * i..6 * i + 6 {
            assert!(indices[k] >= 4 * i as u32);
            assert!(indices[k] <= 4 * i as u32 + 3);
        }
        // All four of its vertices are used.
        for v in 0..4u32 {
            assert!(indices[6 * i..6 * i + 6].contains(&(4 * i as u32 + v)));
        }
    }
}

#[test]
fn quad_indices_empty_batch() {
    assert_eq!(quad_indices(0).len(), 0);
}

#[test]
fn batches_group_by_layer_then_shader() {
    let sprites = vec![
        sprite_on(2, 10),
        sprite_on(1, 20),
        sprite_on(1, 10),
        sprite_on(2, 10),
        sprite_on(1, 20),
    ];
    let batches = build_batches(&sprites);
    // Three distinct (layer, shader) keys.
    assert_eq!(batches.len(), 3);
    // Layers ascend across batches.
    for w in batches.windows(2) {
        assert!(w[0].layer <= w[1].layer);
    }
    // Every batch member carries the batch key, members keep input order.
    let mut total = 0;
    for b in &batches {
        assert!(!b.sprites.is_empty());
        for s in &b.sprites {
            assert_eq!(s.layer, b.layer);
            assert_eq!(s.shader, b.shader);
        }
        total += b.sprites.len();
    }
    // Partition: every input sprite ended up in exactly one batch.
    assert_eq!(total, sprites.len());
    // Layer 1 comes first; its two shader groups are the two first batches.
    assert_eq!(batches[0].layer, 1);
    assert_eq!(batches[1].layer, 1);
    assert_ne!(batches[0].shader, batches[1].shader);
    assert_eq!(batches[2].layer, 2);
    assert_eq!(batches[2].sprites.len(), 2);
}

#[test]
fn lower_layer_batches_come_strictly_first() {
    let sprites = vec![sprite_on(5, 1), sprite_on(-3, 1), sprite_on(0, 1)];
    let batches = build_batches(&sprites);
    assert_eq!(batches.len(), 3);
    assert_eq!(batches[0].layer, -3);
    assert_eq!(batches[1].layer, 0);
    assert_eq!(batches[2].layer, 5);
}

#[test]
fn pack_sprite_interleaves_attributes_per_vertex() {
    // Two attributes of width 8 each: vertex record = attr0 bytes then
    // attr1 bytes.
    let attributes = vec![
        Attribute::position("p".to_string(), 0),
        Attribute::texture_uv_from_sprite_sheet("t".to_string(), 1),
    ];
    // attr_values[a][v] = 8 recognizable bytes.
    let attr_values: Vec<Vec<Vec<u8>>> = (0..2)
        .map(|a| {
            (0..4)
                .map(|v| (0..8).map(|k| (100 * a + 10 * v + k) as u8).collect())
                .collect()
        })
        .collect();
    let packed = pack_sprite(&attr_values, &attributes);
    assert_eq!(packed.len(), 4 * 16);
    for v in 0..4 {
        for a in 0..2 {
            let start = v * 16 + a * 8;
            let expect: Vec<u8> = (0..8).map(|k| (100 * a + 10 * v + k) as u8).collect();
            assert_eq!(&packed[start..start + 8], &expect[..]);
        }
    }
}

#[test]
fn pack_batch_places_each_sprite_at_its_offset() {
    let attributes = vec![Attribute::position("p".to_string(), 0)];
    // Two sprites, one FloatVec2 attribute (8 bytes), 4 vertices each.
    let sprite_values: Vec<Vec<Vec<Vec<u8>>>> = (0..2)
        .map(|s| {
            vec![(0..4)
                .map(|v| (0..8).map(|k| (100 * s + 10 * v + k) as u8).collect())
                .collect()]
        })
        .collect();
    let packed = pack_batch(&sprite_values, &attributes);
    assert_eq!(packed.len(), 2 * 4 * 8);
    for s in 0..2 {
        for v in 0..4 {
            let start = s * 32 + v * 8;
            let expect: Vec<u8> = (0..8).map(|k| (100 * s + 10 * v + k) as u8).collect();
            assert_eq!(&packed[start..start + 8], &expect[..]);
        }
    }
}
