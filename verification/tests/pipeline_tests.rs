use map_photography::camera::Frac;
use map_photography::compose::DrawPhase;
use map_photography::error::PipelineError;
use map_photography::image::Rgba;
use map_photography::layers::{find_game_layer, is_tile_layer, map_size, LayerInfo, LayerKind};
use map_photography::pipeline::{Pipeline, Stage};

fn layer(kind: LayerKind, width: u32, height: u32) -> LayerInfo {
    LayerInfo { kind, width, height }
}

fn red_map_layers() -> Vec<LayerInfo> {
    // A flat 2x2 map: one game layer (the size) and one background tile layer.
    vec![layer(LayerKind::Tiles, 2, 2), layer(LayerKind::Game, 2, 2)]
}

fn red_pixel_bytes(pixels: usize) -> Vec<u8> {
    let mut bytes = Vec::new();
    for _ in 0..pixels {
        bytes.extend_from_slice(&[255, 0, 0, 255]);
    }
    bytes
}

#[test]
fn tile_layer_predicate_selects_only_tile_layers() {
    assert!(is_tile_layer(LayerKind::Tiles));
    assert!(!is_tile_layer(LayerKind::Game));
    assert!(!is_tile_layer(LayerKind::Other));
}

#[test]
fn game_layer_is_found_and_gives_the_map_size() {
    let layers = vec![
        layer(LayerKind::Tiles, 8, 8),
        layer(LayerKind::Game, 50, 30),
        layer(LayerKind::Tiles, 4, 4),
    ];
    assert_eq!(find_game_layer(&layers), Ok(1));
    assert_eq!(map_size(&layers), Ok((50, 30)));
}

#[test]
fn missing_game_layer_is_the_required_layer_error() {
    let layers = vec![layer(LayerKind::Tiles, 8, 8), layer(LayerKind::Other, 4, 4)];
    assert_eq!(
        find_game_layer(&layers),
        Err(PipelineError::RequiredLayerMissing)
    );
    assert_eq!(map_size(&layers), Err(PipelineError::RequiredLayerMissing));
}

#[test]
fn full_render_walks_every_stage_in_order() {
    let mut p = Pipeline::new(4, 4, Frac::whole(1));
    assert_eq!(p.stage, Stage::Idle);

    assert_eq!(p.map_loaded(&red_map_layers()), Ok((2, 2)));
    assert_eq!(p.stage, Stage::MapLoaded);
    assert_eq!((p.map_width, p.map_height), (2, 2));

    p.device_ready();
    assert_eq!(p.stage, Stage::DeviceReady);

    p.resources_uploaded();
    assert_eq!(p.stage, Stage::ResourcesUploaded);

    p.configure_frame(Frac::whole(1), Frac::whole(1), Frac::whole(1));
    assert_eq!(p.stage, Stage::FrameConfigured);
    assert_eq!(p.camera.aspect_w, 4);
    assert_eq!(p.camera.aspect_h, 4);

    let phases = p.record_phases();
    assert!(matches!(phases[0], DrawPhase::Background));
    assert!(matches!(phases[1], DrawPhase::Foreground));
    p.pass_recorded();
    assert_eq!(p.stage, Stage::PassRecorded);

    p.submitted();
    assert_eq!(p.stage, Stage::Submitted);

    let img = p.read_back(&red_pixel_bytes(16));
    assert_eq!(p.stage, Stage::ReadBack);
    assert_eq!(img.width, 4);
    assert_eq!(img.height, 4);
    assert_eq!(img.pixels.len(), 16);
    for y in 0..4 {
        for x in 0..4 {
            assert_eq!(img.pixel(x, y), Rgba { r: 255, g: 0, b: 0, a: 255 });
        }
    }

    p.saved();
    assert_eq!(p.stage, Stage::Saved);
}

#[test]
fn map_without_game_layer_aborts_and_renders_nothing() {
    let mut p = Pipeline::new(1920, 1080, Frac::new(5, 4));
    let layers = vec![layer(LayerKind::Tiles, 8, 8)];
    assert_eq!(
        p.map_loaded(&layers),
        Err(PipelineError::RequiredLayerMissing)
    );
    assert_eq!(p.stage, Stage::Aborted(PipelineError::RequiredLayerMissing));
}

#[test]
fn map_load_failure_aborts_at_idle() {
    let mut p = Pipeline::new(1920, 1080, Frac::whole(1));
    p.fail(PipelineError::MapLoad);
    assert_eq!(p.stage, Stage::Aborted(PipelineError::MapLoad));
}

#[test]
fn no_adapter_aborts_after_the_map_is_loaded() {
    let mut p = Pipeline::new(1920, 1080, Frac::whole(1));
    assert!(p.map_loaded(&red_map_layers()).is_ok());
    p.fail(PipelineError::DeviceUnavailable);
    assert_eq!(p.stage, Stage::Aborted(PipelineError::DeviceUnavailable));
}

#[test]
fn unwritable_output_fails_only_after_a_successful_render() {
    let mut p = Pipeline::new(2, 2, Frac::whole(1));
    assert!(p.map_loaded(&red_map_layers()).is_ok());
    p.device_ready();
    p.resources_uploaded();
    p.configure_frame(Frac::whole(1), Frac::whole(1), Frac::whole(1));
    p.pass_recorded();
    p.submitted();
    let img = p.read_back(&red_pixel_bytes(4));
    // The render succeeded and was read back in full ...
    assert_eq!(p.stage, Stage::ReadBack);
    assert_eq!(img.to_bytes(), red_pixel_bytes(4));
    // ... and only then can the save fail; the error is reported.
    p.fail(PipelineError::ImageSave);
    assert_eq!(p.stage, Stage::Aborted(PipelineError::ImageSave));
}

#[test]
fn identical_renders_give_byte_identical_images() {
    let bytes = red_pixel_bytes(4);
    let mut first = Pipeline::new(2, 2, Frac::whole(1));
    let mut second = Pipeline::new(2, 2, Frac::whole(1));
    for p in [&mut first, &mut second] {
        assert!(p.map_loaded(&red_map_layers()).is_ok());
        p.device_ready();
        p.resources_uploaded();
        p.configure_frame(Frac::whole(1), Frac::whole(1), Frac::whole(1));
        p.pass_recorded();
        p.submitted();
    }
    let a = first.read_back(&bytes);
    let b = second.read_back(&bytes);
    assert_eq!(a.to_bytes(), b.to_bytes());
}

#[test]
fn every_error_names_what_failed() {
    assert_eq!(
        PipelineError::MapLoad.message(),
        "map file missing, unreadable or malformed"
    );
    assert_eq!(
        PipelineError::RequiredLayerMissing.message(),
        "no physics/game layer found in the map"
    );
    assert_eq!(
        PipelineError::AssetResolution.message(),
        "an embedded image asset could not be resolved"
    );
    assert_eq!(
        PipelineError::LayerLoad.message(),
        "a tile layer could not be loaded"
    );
    assert_eq!(
        PipelineError::DeviceUnavailable.message(),
        "no compatible GPU adapter/device is available"
    );
    assert_eq!(
        PipelineError::ImageSave.message(),
        "the output image file could not be written"
    );
}
