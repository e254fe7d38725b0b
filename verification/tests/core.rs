use toy_raytracer::image::{encode_image, png_round_trip, PngImage};
use toy_raytracer::render::{assemble_rows, pixel_offset, radiance_step, TraceAction, TraceEvent};
use toy_raytracer::scene::{lookup_folded_name, Scene};

#[test]
fn parse_each_scene_name() {
    assert_eq!(Scene::from_str("weekend"), Ok(Scene::Weekend));
    assert_eq!(Scene::from_str("diffuse-spheres"), Ok(Scene::DiffuseSpheres));
    assert_eq!(Scene::from_str("shiny-metal"), Ok(Scene::ShinyMetal));
    assert_eq!(Scene::from_str("fuzzy-metal"), Ok(Scene::FuzzyMetal));
    assert_eq!(Scene::from_str("hollow-glass-spheres"), Ok(Scene::HollowGlassSpheres));
}

#[test]
fn parse_ignores_ascii_case() {
    assert_eq!(Scene::from_str("Weekend"), Ok(Scene::Weekend));
    assert_eq!(Scene::from_str("WEEKEND"), Ok(Scene::Weekend));
    assert_eq!(Scene::from_str("Shiny-Metal"), Ok(Scene::ShinyMetal));
    assert_eq!(Scene::from_str("HOLLOW-GLASS-SPHERES"), Ok(Scene::HollowGlassSpheres));
}

#[test]
fn parse_folds_unicode_case() {
    // U+212A, the Kelvin sign, lowercases to 'k'
    assert_eq!(Scene::from_str("wee\u{212A}end"), Ok(Scene::Weekend));
}

#[test]
fn lookup_takes_folded_names_only() {
    assert_eq!(lookup_folded_name(&"weekend".to_string()), Some(Scene::Weekend));
    assert_eq!(lookup_folded_name(&"fuzzy-metal".to_string()), Some(Scene::FuzzyMetal));
    // folding happens before lookup, not inside it
    assert_eq!(lookup_folded_name(&"Weekend".to_string()), None);
    assert_eq!(lookup_folded_name(&"moon".to_string()), None);
}

#[test]
fn parse_unknown_name_is_rejected() {
    assert_eq!(Scene::from_str("moon"), Err("Unknown scene moon".to_string()));
    assert_eq!(Scene::from_str(""), Err("Unknown scene ".to_string()));
    // a prefix or an extension of a name is not a name
    assert!(Scene::from_str("weekends").is_err());
    assert!(Scene::from_str("week").is_err());
    // '-' has no case; '_' never matches it
    assert!(Scene::from_str("shiny_metal").is_err());
}

#[test]
fn exhausted_budget_is_black_for_every_event() {
    assert_eq!(radiance_step(0, TraceEvent::Miss), TraceAction::EmitBlack);
    assert_eq!(radiance_step(0, TraceEvent::Absorbed), TraceAction::EmitBlack);
    assert_eq!(radiance_step(0, TraceEvent::Scattered), TraceAction::EmitBlack);
    assert_eq!(radiance_step(-3, TraceEvent::Scattered), TraceAction::EmitBlack);
}

#[test]
fn miss_is_background() {
    assert_eq!(radiance_step(1, TraceEvent::Miss), TraceAction::EmitBackground);
    assert_eq!(radiance_step(50, TraceEvent::Miss), TraceAction::EmitBackground);
}

#[test]
fn absorbed_is_black() {
    assert_eq!(radiance_step(7, TraceEvent::Absorbed), TraceAction::EmitBlack);
}

#[test]
fn scattered_recurses_with_smaller_budget() {
    assert_eq!(radiance_step(50, TraceEvent::Scattered), TraceAction::Recurse(49));
    assert_eq!(radiance_step(1, TraceEvent::Scattered), TraceAction::Recurse(0));
}

#[test]
fn pixel_offsets_are_row_major() {
    // a 4-wide image: row 0 left to right, then row 1
    assert_eq!(pixel_offset(4, 0, 0), 0);
    assert_eq!(pixel_offset(4, 1, 0), 3);
    assert_eq!(pixel_offset(4, 3, 0), 9);
    assert_eq!(pixel_offset(4, 0, 1), 12);
    assert_eq!(pixel_offset(4, 2, 5), 66);
}

#[test]
fn assemble_rows_preserves_row_major_order() {
    let rows = vec![
        vec![1u8, 2, 3, 4, 5, 6],   // row 0: two pixels
        vec![7u8, 8, 9, 10, 11, 12], // row 1: two pixels
    ];
    let buf = assemble_rows(&rows, 2);
    assert_eq!(buf, vec![1u8, 2, 3, 4, 5, 6, 7, 8, 9, 10, 11, 12]);
}

#[test]
fn assemble_rows_of_nothing_is_empty() {
    let rows: Vec<Vec<u8>> = Vec::new();
    assert_eq!(assemble_rows(&rows, 5), Vec::<u8>::new());
}

#[test]
fn png_round_trip_returns_the_same_pixels() {
    let img = PngImage {
        width: 2,
        height: 2,
        pixels: vec![255u8, 0, 0, 0, 255, 0, 0, 0, 255, 10, 20, 30],
    };
    let back = png_round_trip(&img).expect("round trip failed");
    assert_eq!(back.width, 2);
    assert_eq!(back.height, 2);
    assert_eq!(back.pixels, img.pixels);
}

#[test]
fn png_round_trip_of_a_single_pixel() {
    let img = PngImage { width: 1, height: 1, pixels: vec![42u8, 43, 44] };
    let back = png_round_trip(&img).expect("round trip failed");
    assert_eq!((back.width, back.height), (1, 1));
    assert_eq!(back.pixels, vec![42u8, 43, 44]);
}

#[test]
fn png_stream_is_a_real_encoding() {
    let img = PngImage { width: 1, height: 2, pixels: vec![1u8, 2, 3, 4, 5, 6] };
    let bytes = encode_image(&img);
    // the stream opens with the PNG signature, not with the raw pixels
    assert_eq!(&bytes[0..8], &[137u8, 80, 78, 71, 13, 10, 26, 10]);
    assert_ne!(bytes, img.pixels);
}
