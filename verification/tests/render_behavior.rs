use asciiview::config::{ProcessType, RenderConfig, Resolution};
use asciiview::playback::{PlaybackAction, PlaybackEvent};
use asciiview::{
    luma, map_to_glyph, output_height, playback_step, process_pixel, ramp_string, render_cells,
    render_frame, resolve_config,
};

fn config(columns: u32, complex: bool, color: bool) -> RenderConfig {
    RenderConfig {
        source_path: String::new(),
        source_kind: ProcessType::Image,
        output_columns: columns,
        use_complex_charset: complex,
        use_color: color,
        loop_playback: false,
    }
}

#[test]
fn luma_black_is_zero() {
    assert_eq!(luma((0, 0, 0)), 0);
}

#[test]
fn luma_white_is_full() {
    assert_eq!(luma((255, 255, 255)), 255);
}

#[test]
fn luma_pure_red_weight() {
    // (2126 * 255 + 5000) / 10000 = 54
    assert_eq!(luma((255, 0, 0)), 54);
}

#[test]
fn luma_rounds_to_nearest() {
    // (2126 * 10 + 7152 * 20 + 722 * 30 + 5000) / 10000 = 19
    assert_eq!(luma((10, 20, 30)), 19);
}

#[test]
fn luma_stays_in_byte_range() {
    for r in [0u8, 31, 127, 255] {
        for g in [0u8, 63, 200, 255] {
            for b in [0u8, 90, 255] {
                let l = luma((r, g, b));
                assert!(l <= 255);
            }
        }
    }
}

#[test]
fn darkest_brightness_picks_first_glyph_simple() {
    assert_eq!(map_to_glyph(0, false), "@");
}

#[test]
fn brightest_brightness_picks_last_glyph_simple() {
    assert_eq!(map_to_glyph(255, false), " ");
}

#[test]
fn darkest_brightness_picks_first_glyph_complex() {
    assert_eq!(map_to_glyph(0, true), "\u{2588}");
}

#[test]
fn brightest_brightness_picks_last_glyph_complex() {
    assert_eq!(map_to_glyph(255, true), " ");
}

#[test]
fn glyph_choice_is_monotonic_simple() {
    let ramp: Vec<char> = "@%$#*+=-:. ".chars().collect();
    let mut prev = 0;
    for l in 0..=255u16 {
        let g = map_to_glyph(l as u8, false);
        let c = g.chars().next().unwrap();
        let idx = ramp.iter().position(|&x| x == c).unwrap();
        assert!(idx >= prev);
        prev = idx;
    }
}

#[test]
fn glyph_choice_is_monotonic_complex() {
    let ramp: Vec<char> = "\u{2588}\u{2593}\u{2592}\u{2591}#+-. ".chars().collect();
    let mut prev = 0;
    for l in 0..=255u16 {
        let g = map_to_glyph(l as u8, true);
        let c = g.chars().next().unwrap();
        let idx = ramp.iter().position(|&x| x == c).unwrap();
        assert!(idx >= prev);
        prev = idx;
    }
}

#[test]
fn ramp_strings_list_every_glyph() {
    assert_eq!(ramp_string(false), "@%$#*+=-:. ");
    assert_eq!(ramp_string(true), "\u{2588}\u{2593}\u{2592}\u{2591}#+-. ");
}

#[test]
fn pixel_black_uncolored() {
    assert_eq!(process_pixel(0, 0, 0, false, false), "\x1b[38;2;0;0;0m@\x1b[0m");
}

#[test]
fn pixel_white_uncolored() {
    assert_eq!(process_pixel(255, 255, 255, false, false), "\x1b[38;2;255;255;255m \x1b[0m");
}

#[test]
fn pixel_red_colorized_keeps_true_color() {
    assert_eq!(process_pixel(255, 0, 0, false, true), "\x1b[38;2;255;0;0m$\x1b[0m");
}

#[test]
fn pixel_red_uncolored_encodes_gray_level() {
    assert_eq!(process_pixel(255, 0, 0, false, false), "\x1b[38;2;54;54;54m$\x1b[0m");
}

#[test]
fn pixel_black_complex_ramp() {
    assert_eq!(process_pixel(0, 0, 0, true, false), "\x1b[38;2;0;0;0m\u{2588}\x1b[0m");
}

#[test]
fn output_height_matches_rounded_aspect() {
    // round(1 / 2 * 4 * 0.5) = 1
    assert_eq!(output_height(2, 1, 4), 1);
    // round(3 / 1 * 4 * 0.5) = 6
    assert_eq!(output_height(1, 3, 4), 6);
    // round(3 / 4 * 5 * 0.5) = round(1.875) = 2
    assert_eq!(output_height(4, 3, 5), 2);
}

#[test]
fn output_height_never_below_one() {
    assert_eq!(output_height(100, 1, 1), 1);
    assert_eq!(output_height(4096, 1, 2), 1);
}

#[test]
fn render_cells_joins_rows_with_newlines() {
    let px = vec![0u8, 0, 0, 255, 255, 255, 255, 255];
    let out = render_cells(&px, 1, 2, false, false);
    assert_eq!(out, "\x1b[38;2;0;0;0m@\x1b[0m\n\x1b[38;2;255;255;255m \x1b[0m\n");
}

#[test]
fn render_single_black_pixel_gives_darkest_glyph() {
    let px = vec![0u8, 0, 0, 255];
    let out = render_frame(&px, 1, 1, &config(1, false, false));
    assert_eq!(out, "\x1b[38;2;0;0;0m@\x1b[0m\n");
}

#[test]
fn render_single_white_pixel_gives_lightest_glyph() {
    let px = vec![255u8, 255, 255, 255];
    let out = render_frame(&px, 1, 1, &config(1, false, false));
    assert_eq!(out, "\x1b[38;2;255;255;255m \x1b[0m\n");
}

#[test]
fn render_clamps_zero_columns_to_one() {
    let px = vec![0u8, 0, 0, 255];
    let out = render_frame(&px, 1, 1, &config(0, false, false));
    assert_eq!(out, "\x1b[38;2;0;0;0m@\x1b[0m\n");
}

#[test]
fn render_red_colorized_embeds_true_color() {
    let px = vec![255u8, 0, 0, 255];
    let out = render_frame(&px, 1, 1, &config(1, false, true));
    assert!(out.contains("38;2;255;0;0"));
}

#[test]
fn render_red_uncolored_embeds_gray_in_all_channels() {
    let px = vec![255u8, 0, 0, 255];
    let out = render_frame(&px, 1, 1, &config(1, false, false));
    assert!(out.contains("38;2;54;54;54"));
    assert!(!out.contains("255;0;0"));
}

#[test]
fn render_solid_image_downscales_to_budget() {
    // A solid 4x4 gray image at 2 columns gives a 2x1 block of one glyph.
    let px = vec![128u8; 4 * 4 * 4];
    let out = render_frame(&px, 4, 4, &config(2, false, false));
    assert_eq!(out.lines().count(), 1);
    assert_eq!(out.matches('m').count(), 4);
}

#[test]
fn resampling_blends_source_rows() {
    // Black over white, collapsed to a single cell: the resampled pixel must
    // be a blend of the two rows, not either source pixel unchanged.
    let px = vec![0u8, 0, 0, 255, 255, 255, 255, 255];
    let out = render_frame(&px, 1, 2, &config(1, false, false));
    assert_eq!(out.lines().count(), 1);
    assert!(!out.contains(";0;0;0m"));
    assert!(!out.contains("255;255;255"));
}

#[test]
fn playback_renders_each_frame_then_stops() {
    let mut renders = 0;
    for _ in 0..3 {
        match playback_step(PlaybackEvent::Frame, false) {
            PlaybackAction::Render => renders += 1,
            _ => panic!("a decoded frame must be rendered"),
        }
    }
    assert_eq!(renders, 3);
    assert!(matches!(playback_step(PlaybackEvent::End, false), PlaybackAction::Stop));
}

#[test]
fn playback_restarts_at_stream_end_when_looping() {
    assert!(matches!(playback_step(PlaybackEvent::Frame, true), PlaybackAction::Render));
    assert!(matches!(playback_step(PlaybackEvent::End, true), PlaybackAction::Restart));
}

#[test]
fn help_flag_short_circuits_everything() {
    let args = vec![
        "viewer".to_string(),
        "path=clip.gif".to_string(),
        "-color".to_string(),
        "-help".to_string(),
    ];
    assert!(matches!(resolve_config(&args, Some(80)), Resolution::Help));
}

#[test]
fn short_help_spelling_is_recognized() {
    let args = vec!["viewer".to_string(), "--h".to_string()];
    assert!(matches!(resolve_config(&args, None), Resolution::Help));
}

#[test]
fn missing_path_is_reported() {
    let args = vec!["viewer".to_string(), "-color".to_string()];
    assert!(matches!(resolve_config(&args, Some(80)), Resolution::MissingPath));
}

#[test]
fn resolves_animated_source_with_all_flags() {
    let args = vec![
        "viewer".to_string(),
        "path=anim.gif".to_string(),
        "-complex".to_string(),
        "--cl".to_string(),
        "-infinity".to_string(),
    ];
    match resolve_config(&args, Some(120)) {
        Resolution::Run(cfg) => {
            assert_eq!(cfg.source_path, "anim.gif");
            assert_eq!(cfg.source_kind, ProcessType::Gif);
            assert_eq!(cfg.output_columns, 120);
            assert!(cfg.use_complex_charset);
            assert!(cfg.use_color);
            assert!(cfg.loop_playback);
        }
        _ => panic!("a path was given, so the run must resolve"),
    }
}

#[test]
fn resolves_still_source_with_default_columns() {
    let args = vec!["viewer".to_string(), "path=photo.png".to_string()];
    match resolve_config(&args, None) {
        Resolution::Run(cfg) => {
            assert_eq!(cfg.source_path, "photo.png");
            assert_eq!(cfg.source_kind, ProcessType::Image);
            assert_eq!(cfg.output_columns, 80);
            assert!(!cfg.use_complex_charset);
            assert!(!cfg.use_color);
            assert!(!cfg.loop_playback);
        }
        _ => panic!("a path was given, so the run must resolve"),
    }
}

#[test]
fn flag_matching_is_exact_not_substring() {
    let args = vec!["viewer".to_string(), "path=a.png".to_string(), "-colorful".to_string()];
    match resolve_config(&args, None) {
        Resolution::Run(cfg) => assert!(!cfg.use_color),
        _ => panic!("a path was given, so the run must resolve"),
    }
}

#[test]
fn source_kind_tag_follows_flag() {
    assert!(matches!(ProcessType::from(true), ProcessType::Gif));
    assert!(matches!(ProcessType::from(false), ProcessType::Image));
}
