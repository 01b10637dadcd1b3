use dark_city_engine::controls::{camera_moves, move_direction, move_keys, CameraMove, MoveAxis};
use dark_city_engine::renderer::{
    check_render_resources, choose_surface_format, surface_dimension, RenderResources,
};
use dark_city_engine::LoggingSystem;

fn all_present() -> RenderResources {
    RenderResources { surface: true, device: true, queue: true, config: true, pipeline: true }
}

#[test]
fn render_ready_when_everything_is_present() {
    assert_eq!(check_render_resources(&all_present()), Ok(true));
}

#[test]
fn unattached_renderer_skips_the_frame() {
    let none = RenderResources { surface: false, device: false, queue: false, config: false, pipeline: false };
    assert_eq!(check_render_resources(&none), Ok(false));
}

#[test]
fn missing_surface_is_reported() {
    let mut r = all_present();
    r.surface = false;
    assert_eq!(check_render_resources(&r), Err("no surface".to_string()));
}

#[test]
fn each_missing_resource_is_named_in_order() {
    let mut r = all_present();
    r.pipeline = false;
    assert_eq!(check_render_resources(&r), Err("no pipeline".to_string()));
    r.config = false;
    assert_eq!(check_render_resources(&r), Err("no config".to_string()));
    r.queue = false;
    assert_eq!(check_render_resources(&r), Err("no queue".to_string()));
    r.device = false;
    assert_eq!(check_render_resources(&r), Err("no device".to_string()));
    r.surface = false;
    assert_eq!(check_render_resources(&r), Ok(false));
}

#[test]
fn surface_dimension_is_at_least_one() {
    assert_eq!(surface_dimension(0), 1);
    assert_eq!(surface_dimension(1), 1);
    assert_eq!(surface_dimension(800), 800);
    assert_eq!(surface_dimension(u32::MAX), u32::MAX);
}

#[test]
fn first_preferred_format_wins() {
    assert_eq!(choose_surface_format(&vec![false, true, true]), 1);
    assert_eq!(choose_surface_format(&vec![true, false]), 0);
    assert_eq!(choose_surface_format(&vec![false, false, false]), 0);
    assert_eq!(choose_surface_format(&vec![false, false, true]), 2);
}

#[test]
fn wasd_bindings() {
    assert_eq!(move_keys(CameraMove::Forward), ("w", "W"));
    assert_eq!(move_keys(CameraMove::Backward), ("s", "S"));
    assert_eq!(move_keys(CameraMove::Left), ("a", "A"));
    assert_eq!(move_keys(CameraMove::Right), ("d", "D"));
    assert_eq!(
        camera_moves(),
        vec![CameraMove::Forward, CameraMove::Backward, CameraMove::Left, CameraMove::Right]
    );
}

#[test]
fn move_directions() {
    assert_eq!(move_direction(CameraMove::Forward), (MoveAxis::View, true));
    assert_eq!(move_direction(CameraMove::Backward), (MoveAxis::View, false));
    assert_eq!(move_direction(CameraMove::Left), (MoveAxis::Side, false));
    assert_eq!(move_direction(CameraMove::Right), (MoveAxis::Side, true));
}

#[test]
fn logging_system_message() {
    assert_eq!(LoggingSystem.tick_message(), "Tick triggered");
}
