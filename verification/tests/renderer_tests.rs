use sprite_engine::{
    Attribute, Renderer, ShaderId, ShaderProgram, SpriteId, SpriteSheet, SpriteSheetId, Uniform,
};

fn renderer_with_sheet_and_shader() -> (Renderer, SpriteSheetId, ShaderId) {
    let mut r = Renderer::new();
    let sheet = SpriteSheet::from_grid(40, 64, 64, 32, 32).unwrap();
    let sheet_id = r.add_sprite_sheet(sheet);
    let program = ShaderProgram::new(
        7,
        vec![
            Attribute::position("u_position".to_string(), 0),
            Attribute::texture_uv_from_sprite_sheet("tex_coords".to_string(), 1),
        ],
        vec![Uniform::aspect_ratio("u_aspect_ratio".to_string())],
    );
    let shader_id = r.add_shader_program(program);
    (r, sheet_id, shader_id)
}

#[test]
fn sprite_ids_strictly_increase_from_zero() {
    let (mut r, sheet, shader) = renderer_with_sheet_and_shader();
    let a = r.add_sprite(sheet, 0, 0, 0, 0, 16, 16, shader);
    let b = r.add_sprite(sheet, 1, 5, 5, 0, 16, 16, shader);
    let c = r.add_sprite(sheet, 2, 9, 9, 1, 16, 16, shader);
    assert_eq!(a.id, 0);
    assert_eq!(b.id, 1);
    assert_eq!(c.id, 2);
    assert!(a.id < b.id && b.id < c.id);
}

#[test]
fn removed_sprite_is_gone_and_id_is_not_reused() {
    let (mut r, sheet, shader) = renderer_with_sheet_and_shader();
    let a = r.add_sprite(sheet, 0, 0, 0, 0, 16, 16, shader);
    let b = r.add_sprite(sheet, 0, 0, 0, 0, 16, 16, shader);
    r.remove_sprite(a);
    assert!(r.get_sprite(a).is_none());
    assert!(r.get_sprite(b).is_some());
    let c = r.add_sprite(sheet, 0, 0, 0, 0, 16, 16, shader);
    // The freed id is not handed out again.
    assert!(c.id > b.id);
    assert!(r.get_sprite(a).is_none());
}

#[test]
fn remove_of_absent_sprite_is_a_no_op() {
    let (mut r, sheet, shader) = renderer_with_sheet_and_shader();
    let a = r.add_sprite(sheet, 0, 0, 0, 0, 16, 16, shader);
    r.remove_sprite(SpriteId::new(999));
    assert!(r.get_sprite(a).is_some());
}

#[test]
fn update_sprite_replaces_in_place() {
    let (mut r, sheet, shader) = renderer_with_sheet_and_shader();
    let a = r.add_sprite(sheet, 0, 0, 0, 0, 16, 16, shader);
    let mut s = *r.get_sprite(a).unwrap();
    s.set_position(30, 40);
    assert!(r.update_sprite(s));
    let stored = r.get_sprite(a).unwrap();
    assert_eq!(stored.get_position(), (30, 40));
}

#[test]
fn sheet_lookups_answer_presence_and_values() {
    let (r, sheet, _shader) = renderer_with_sheet_and_shader();
    assert_eq!(r.get_texture_from_sprite_sheet(sheet), Some(40));
    assert!(r.get_texture_from_sprite_sheet(SpriteSheetId::new(41)).is_none());
    let uv = r.get_uv_from_sprite_sheet(sheet, 3).unwrap();
    assert_eq!((uv.u_min_num, uv.u_max_num, uv.u_den), (32, 64, 64));
    // Index out of the grid: absent, not a failure.
    assert!(r.get_uv_from_sprite_sheet(sheet, 4).is_none());
}

#[test]
fn frame_plan_groups_live_sprites() {
    let (mut r, sheet, shader) = renderer_with_sheet_and_shader();
    r.add_sprite(sheet, 0, 0, 0, 2, 16, 16, shader);
    r.add_sprite(sheet, 1, 0, 0, 1, 16, 16, shader);
    r.add_sprite(sheet, 2, 0, 0, 1, 16, 16, shader);
    let plan = r.build_frame_plan();
    assert_eq!(plan.batches.len(), 2);
    assert_eq!(plan.batches[0].layer, 1);
    assert_eq!(plan.batches[0].sprites.len(), 2);
    assert_eq!(plan.batches[1].layer, 2);
    assert_eq!(plan.batches[1].sprites.len(), 1);
}

#[test]
fn sprite_with_missing_sheet_is_skipped_not_fatal() {
    let (mut r, sheet, shader) = renderer_with_sheet_and_shader();
    let solid = r.add_sprite_sheet(SpriteSheet::from_color(90));
    r.add_sprite(sheet, 0, 0, 0, 0, 16, 16, shader);
    r.add_sprite(solid, 0, 0, 0, 0, 16, 16, shader);
    // Drop the solid sheet from the registry; its sprite stays.
    let mut r2 = r;
    r2.sprite_sheets.retain(|s| s.get_texture() != 90);
    let plan = r2.build_frame_plan();
    // The surviving sprite still draws; the orphaned one is skipped.
    assert_eq!(plan.batches.len(), 1);
    assert_eq!(plan.batches[0].sprites.len(), 1);
    assert_eq!(plan.batches[0].sprites[0].sprite_sheet.id, 40);
}

#[test]
fn sprite_with_out_of_range_cell_is_skipped() {
    let (mut r, sheet, shader) = renderer_with_sheet_and_shader();
    r.add_sprite(sheet, 99, 0, 0, 0, 16, 16, shader);
    r.add_sprite(sheet, 0, 0, 0, 0, 16, 16, shader);
    let plan = r.build_frame_plan();
    assert_eq!(plan.batches.len(), 1);
    assert_eq!(plan.batches[0].sprites.len(), 1);
    assert_eq!(plan.batches[0].sprites[0].sprite_sheet_index, 0);
}

#[test]
fn pacing_target_and_wait_decision() {
    let mut r = Renderer::new();
    r.set_fps(60);
    assert_eq!(r.target_frame_micros, 16666);
    assert!(!r.frame_wait_over(0));
    assert!(!r.frame_wait_over(16665));
    assert!(r.frame_wait_over(16666));
    assert!(r.frame_wait_over(1000000));
    r.set_fps(0);
    assert_eq!(r.target_frame_micros, 0);
    // Pacing off: a frame may complete immediately.
    assert!(r.frame_wait_over(0));
}

#[test]
fn default_shader_is_recorded() {
    let (mut r, _sheet, shader) = renderer_with_sheet_and_shader();
    assert!(r.get_default_shader().is_none());
    r.set_default_shader(shader);
    assert_eq!(r.get_default_shader(), Some(shader));
}

#[test]
fn toggle_show_fps_flips() {
    let mut r = Renderer::new();
    assert!(!r.show_fps);
    r.toggle_show_fps();
    assert!(r.show_fps);
    r.toggle_show_fps();
    assert!(!r.show_fps);
}
