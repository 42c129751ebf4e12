use murmur8tion::screen::{DynamicScreen, Palette, UnsupportedScreenOperation};

#[test]
fn test_new_dynamic_screen() {
    assert!(matches!(
        DynamicScreen::new_cosmac_vip().as_ref(),
        DynamicScreen::CosmacVip(_)
    ));
    assert!(matches!(
        DynamicScreen::new_legacy_super_chip().as_ref(),
        DynamicScreen::LegacySuperChip(_)
    ));
    assert!(matches!(
        DynamicScreen::new_modern_super_chip().as_ref(),
        DynamicScreen::ModernSuperChip(_)
    ));
    assert!(matches!(
        DynamicScreen::new_xochip().as_ref(),
        DynamicScreen::XoChip(_)
    ));
}

#[test]
fn num_active_planes_is_popcount() {
    for p in 0u8..16 {
        let mut screen = *DynamicScreen::new_xochip();
        screen.set_planes(p).unwrap();
        assert_eq!(screen.num_active_planes(), p.count_ones() as usize);
    }
}

#[test]
fn set_planes_refused_without_planes() {
    let mut screen = *DynamicScreen::new_modern_super_chip();
    assert_eq!(screen.set_planes(3), Err(UnsupportedScreenOperation::SetPlanes));
    assert_eq!(screen.num_active_planes(), 1);
}

#[test]
fn vip_refuses_hires_scroll_and_large_sprites() {
    let mut screen = *DynamicScreen::new_cosmac_vip();
    assert_eq!(screen.set_hires(true), Err(UnsupportedScreenOperation::HiresMode));
    assert_eq!(screen.scroll_down(1), Err(UnsupportedScreenOperation::ScrollDown));
    assert_eq!(screen.scroll_up(1), Err(UnsupportedScreenOperation::ScrollUp));
    assert_eq!(screen.scroll_right(), Err(UnsupportedScreenOperation::ScrollRight));
    assert_eq!(screen.scroll_left(), Err(UnsupportedScreenOperation::ScrollLeft));
    assert_eq!(screen.draw_large_sprite(0, 0, &[0xFF; 32]), Err(UnsupportedScreenOperation::LargeSprite));
}

#[test]
fn legacy_refuses_large_sprite_in_lores() {
    let mut screen = *DynamicScreen::new_legacy_super_chip();
    assert_eq!(
        screen.draw_large_sprite(0, 0, &[0xFF; 32]),
        Err(UnsupportedScreenOperation::LargeSpriteInLores)
    );
}

#[test]
fn draw_reports_collision_only_when_a_pixel_is_erased() {
    let mut screen = *DynamicScreen::new_cosmac_vip();
    assert!(!screen.draw_sprite(3, 4, &[0b1010_0000]));
    assert!(!screen.draw_sprite(3, 4, &[0b0101_0000]));
    assert!(screen.draw_sprite(3, 4, &[0b1000_0000]));
    match screen {
        DynamicScreen::CosmacVip(s) => assert_eq!(s.rows[4], 0b0111u64 << (64 - 3 - 4)),
        _ => unreachable!(),
    }
}

#[test]
fn clear_then_render_is_one_colour() {
    let palette = Palette::default();
    let mut screen = *DynamicScreen::new_modern_super_chip();
    screen.draw_sprite(10, 10, &[0xFF, 0x81, 0xFF]);
    screen.clear();
    let image = screen.to_image(&palette);
    assert_eq!(image.len(), 128 * 64);
    assert!(image.iter().all(|c| *c == palette.two_color_off()));

    let mut xo = *DynamicScreen::new_xochip();
    xo.draw_sprite(1, 1, &[0xFF]);
    xo.clear();
    let image = xo.to_image(&palette);
    assert!(image.iter().all(|c| *c == palette.sixteen_color[0]));
}

#[test]
fn scroll_right_then_left_blanks_the_right_edge() {
    let mut screen = *DynamicScreen::new_modern_super_chip();
    screen.set_hires(true).unwrap();
    screen.draw_sprite(0, 0, &[0xFF]);
    screen.draw_sprite(120, 1, &[0xFF]);
    let before = match screen {
        DynamicScreen::ModernSuperChip(s) => s.rows,
        _ => unreachable!(),
    };
    screen.scroll_right().unwrap();
    screen.scroll_left().unwrap();
    let after = match screen {
        DynamicScreen::ModernSuperChip(s) => s.rows,
        _ => unreachable!(),
    };
    assert_eq!(after[0], before[0]);
    assert_eq!(after[1], before[1] & !0xF);
    assert_eq!(after[1], 0xF0);
}

#[test]
fn lores_scroll_moves_two_rows_per_step_on_modern_super_chip() {
    let mut screen = *DynamicScreen::new_modern_super_chip();
    screen.draw_sprite(0, 0, &[0x80]);
    screen.scroll_down(1).unwrap();
    match screen {
        DynamicScreen::ModernSuperChip(s) => {
            assert_eq!(s.rows[0], 0);
            assert_eq!(s.rows[1], 0);
            assert_eq!(s.rows[2], 3u128 << 126);
            assert_eq!(s.rows[3], 3u128 << 126);
        }
        _ => unreachable!(),
    }
}

#[test]
fn legacy_lores_scroll_is_not_doubled() {
    let mut screen = *DynamicScreen::new_legacy_super_chip();
    screen.draw_sprite(0, 0, &[0x80]);
    screen.scroll_down(1).unwrap();
    match screen {
        DynamicScreen::LegacySuperChip(s) => {
            assert_eq!(s.rows[0], 0);
            assert_eq!(s.rows[1], 3u128 << 126);
            assert_eq!(s.rows[2], 3u128 << 126);
        }
        _ => unreachable!(),
    }
}

#[test]
fn legacy_large_sprite_counts_colliding_rows() {
    let mut screen = *DynamicScreen::new_legacy_super_chip();
    screen.set_hires(true).unwrap();
    let mut sprite = [0u8; 32];
    sprite[0] = 0xFF;
    sprite[2] = 0xFF;
    sprite[4] = 0xFF;
    assert_eq!(screen.draw_large_sprite(0, 0, &sprite), Ok(0));
    assert_eq!(screen.draw_large_sprite(0, 0, &sprite), Ok(3));
}

#[test]
fn modern_large_sprite_reports_one_for_any_collision() {
    let mut screen = *DynamicScreen::new_modern_super_chip();
    screen.set_hires(true).unwrap();
    let sprite = [0xFFu8; 32];
    assert_eq!(screen.draw_large_sprite(0, 0, &sprite), Ok(0));
    assert_eq!(screen.draw_large_sprite(0, 0, &sprite), Ok(1));
}

#[test]
fn xochip_sprite_slabs_go_to_planes_in_order() {
    let mut screen = *DynamicScreen::new_xochip();
    screen.set_hires(true).unwrap();
    screen.set_planes(0b0011).unwrap();
    screen.draw_sprite(0, 0, &[0x80, 0x40]);
    let palette = Palette::default();
    let image = screen.to_image(&palette);
    assert_eq!(image[0], palette.sixteen_color[1]);
    assert_eq!(image[1], palette.sixteen_color[2]);
    assert_eq!(image[2], palette.sixteen_color[0]);
}

#[test]
fn xochip_with_no_planes_draws_nothing() {
    let mut screen = *DynamicScreen::new_xochip();
    screen.set_planes(0).unwrap();
    assert!(!screen.draw_sprite(0, 0, &[]));
}

#[test]
fn audio_pattern_bits_from_the_most_significant() {
    let mut pattern = [0u8; 16];
    pattern[0] = 0x80;
    pattern[15] = 0x01;
    assert!(murmur8tion::audio::pattern_bit(&pattern, 0));
    assert!(!murmur8tion::audio::pattern_bit(&pattern, 1));
    assert!(murmur8tion::audio::pattern_bit(&pattern, 127));
    assert!(!murmur8tion::audio::pattern_bit(&pattern, 120));
}
