use sprite_engine::{
    Color, EngineBuilder, Flip, GetId, ShaderId, Sprite, SpriteSheetId, Texture, Timer,
};

#[test]
fn builder_defaults() {
    let b = EngineBuilder::new();
    assert_eq!(b.window_name, None);
    assert_eq!((b.width, b.height), (800, 600));
    assert_eq!(b.clear_color, Color::black());
    assert!(b.show_cursor && b.is_bordered && b.is_resizable);
    assert!(!b.should_poll_keys && !b.should_poll_cursor_pos);
    assert!(!b.should_poll_mouse_buttons && !b.should_poll_scroll);
}

#[test]
fn builder_chain_sets_all_requested_fields() {
    let b = EngineBuilder::new()
        .set_window_size(1920, 1080)
        .set_clear_color(Color::dark_gray())
        .set_window_name("My Game".to_string())
        .poll_keyboard()
        .poll_mouse_buttons()
        .poll_cursor()
        .borderless()
        .not_resizable()
        .hide_cursor();
    assert_eq!((b.width, b.height), (1920, 1080));
    assert_eq!(b.clear_color, Color::dark_gray());
    assert_eq!(b.window_name.as_deref(), Some("My Game"));
    assert!(b.should_poll_keys && b.should_poll_cursor_pos);
    // Mouse buttons imply scroll.
    assert!(b.should_poll_mouse_buttons && b.should_poll_scroll);
    assert!(!b.show_cursor && !b.is_bordered && !b.is_resizable);
}

#[test]
fn color_construction_and_tuple() {
    let c = Color::new(1, 2, 3, 4);
    assert_eq!(c.to_tuple(), (1, 2, 3, 4));
    assert_eq!(Color::default(), Color::black());
    assert_eq!(Color::red().to_tuple(), (255, 0, 0, 255));
    assert_eq!(Color::white().to_tuple(), (255, 255, 255, 255));
    assert_eq!(Color::dark_gray().to_tuple(), (64, 64, 64, 255));
}

#[test]
fn sprite_accessors_and_mutators() {
    let mut s = Sprite::new(SpriteSheetId::new(3), 2, 10, 20, 5, 30, 40, ShaderId::new(9));
    assert_eq!(s.id(), sprite_engine::SpriteId::new(0));
    assert_eq!(s.get_position(), (10, 20));
    assert_eq!((s.get_width(), s.get_height()), (30, 40));
    assert_eq!(s.get_layer(), 5);
    assert_eq!(s.get_flip(), Flip::NoFlip);
    assert_eq!(s.get_rotation(), 0);
    assert_eq!(s.get_sprite_sheet(), SpriteSheetId::new(3));
    assert_eq!(s.get_sprite_sheet_index(), 2);
    assert_eq!(s.get_shader(), ShaderId::new(9));

    s.translate(-15, 5);
    assert_eq!(s.get_position(), (-5, 25));
    s.set_position(0, 0);
    s.set_width(8);
    s.set_height(9);
    s.set_flip(Flip::FlipXY);
    s.set_rotation(0x3fc90fdb); // bit pattern of a quarter turn
    s.set_shader(ShaderId::new(1));
    s.set_texture(SpriteSheetId::new(4), 7);
    assert_eq!(s.get_position(), (0, 0));
    assert_eq!((s.get_width(), s.get_height()), (8, 9));
    assert_eq!(s.get_flip(), Flip::FlipXY);
    assert_eq!(s.get_rotation(), 0x3fc90fdb);
    assert_eq!(s.get_shader(), ShaderId::new(1));
    assert_eq!((s.get_sprite_sheet(), s.get_sprite_sheet_index()), (SpriteSheetId::new(4), 7));
}

#[test]
fn sprite_corners_in_fixed_order() {
    let s = Sprite::new(SpriteSheetId::new(1), 0, 10, 20, 0, 30, 40, ShaderId::new(1));
    let corners = s.corners();
    // Bottom-left, bottom-right, top-left, top-right.
    assert_eq!(corners, vec![(10, 20), (40, 20), (10, 60), (40, 60)]);
    assert_eq!(s.center_times_two(), (2 * 10 + 30, 2 * 20 + 40));
}

#[test]
fn flip_flag_vectors() {
    assert_eq!(Flip::NoFlip.flags(), (0, 0));
    assert_eq!(Flip::FlipX.flags(), (1, 0));
    assert_eq!(Flip::FlipY.flags(), (0, 1));
    assert_eq!(Flip::FlipXY.flags(), (1, 1));
}

#[test]
fn timer_measures_nondecreasing_time() {
    let mut t = Timer::new();
    let a = t.get_elapsed_milis();
    let b = t.get_elapsed_milis();
    assert!(b >= a);
    t.reset();
    let c = t.get_elapsed_micros();
    let d = t.get_elapsed_micros();
    assert!(d >= c);
}

#[test]
fn texture_default_is_placeholder() {
    let t = Texture::default();
    assert_eq!((t.id, t.width, t.height), (0, 10, 10));
}
