use status_bar::output::{GeometryEvent, Output, OutputEvent};
use status_bar::registry::{classify_global, Action, GlobalDirective, GlobalKind, StatusBar};
use status_bar::wgpu_surface::{CapChoice, WgpuSurface};

fn simple_surface() -> WgpuSurface {
    let formats = vec![
        CapChoice { code: 0, preferred: false },
        CapChoice { code: 1, preferred: true },
    ];
    let present_modes = vec![9];
    let alpha_modes = vec![CapChoice { code: 4, preferred: false }];
    WgpuSurface::new(&formats, &present_modes, &alpha_modes)
}

fn entry(id: u32, base: u32) -> Output {
    Output::new(base, base + 1, base + 2, base + 3, id, simple_surface())
}

fn bound_state() -> StatusBar {
    let mut sb = StatusBar::new();
    sb.bind_compositor(1);
    sb.bind_layer_shell(2);
    sb.bind_output_manager(3);
    sb
}

#[test]
fn classify_known_interfaces() {
    assert_eq!(classify_global("wl_compositor"), GlobalKind::Compositor);
    assert_eq!(classify_global("zxdg_output_manager_v1"), GlobalKind::OutputManager);
    assert_eq!(classify_global("zwlr_layer_shell_v1"), GlobalKind::LayerShell);
    assert_eq!(classify_global("wl_seat"), GlobalKind::Seat);
    assert_eq!(classify_global("wl_output"), GlobalKind::Output);
    assert_eq!(classify_global("wl_shm"), GlobalKind::Other);
    assert_eq!(classify_global(""), GlobalKind::Other);
}

#[test]
fn display_with_all_caps_bound_is_created() {
    let sb = bound_state();
    let d = sb.on_global_announced("wl_output");
    assert_eq!(d, GlobalDirective::BindDisplay { create_entry: true });
}

#[test]
fn capability_order_does_not_matter() {
    let mut sb = StatusBar::new();
    sb.bind_output_manager(3);
    sb.bind_compositor(1);
    assert_eq!(
        sb.on_global_announced("wl_output"),
        GlobalDirective::BindDisplay { create_entry: false }
    );
    sb.bind_layer_shell(2);
    assert_eq!(
        sb.on_global_announced("wl_output"),
        GlobalDirective::BindDisplay { create_entry: true }
    );
}

#[test]
fn display_before_caps_creates_nothing() {
    let sb = StatusBar::new();
    let d = sb.on_global_announced("wl_output");
    assert_eq!(d, GlobalDirective::BindDisplay { create_entry: false });
    assert_eq!(sb.outputs.len(), 0);
}

#[test]
fn geometry_for_never_tracked_display_is_noop() {
    // A display announced before the capabilities were bound left no entry,
    // so a later geometry event for its objects matches nothing.
    let mut sb = StatusBar::new();
    let d = sb.on_global_announced("wl_output");
    assert_eq!(d, GlobalDirective::BindDisplay { create_entry: false });
    sb.on_geometry_event(11, GeometryEvent::LogicalSize { width: 640, height: 480 });
    assert_eq!(sb.outputs.len(), 0);
}

#[test]
fn capability_directives() {
    let sb = StatusBar::new();
    assert_eq!(sb.on_global_announced("wl_compositor"), GlobalDirective::BindCompositor);
    assert_eq!(sb.on_global_announced("zxdg_output_manager_v1"), GlobalDirective::BindOutputManager);
    assert_eq!(sb.on_global_announced("zwlr_layer_shell_v1"), GlobalDirective::BindLayerShell);
    assert_eq!(sb.on_global_announced("wl_seat"), GlobalDirective::BindSeat);
    assert_eq!(sb.on_global_announced("wl_shm"), GlobalDirective::Ignore);
}

#[test]
fn duplicate_capability_bind_overwrites() {
    let mut sb = bound_state();
    sb.bind_compositor(41);
    assert_eq!(sb.compositor, Some(41));
    assert_eq!(sb.layer_shell, Some(2));
    assert_eq!(sb.output_manager, Some(3));
}

#[test]
fn announced_display_entry_starts_one_by_one() {
    let mut sb = bound_state();
    sb.insert_output(entry(7, 10));
    assert_eq!(sb.outputs.len(), 1);
    assert_eq!(sb.outputs[0].info.id, 7);
    assert_eq!(sb.outputs[0].info.name, "");
    assert_eq!(sb.outputs[0].info.scale, 1);
    assert_eq!(sb.outputs[0].wgpu.config.width, 1);
    assert_eq!(sb.outputs[0].wgpu.config.height, 1);
}

#[test]
fn configure_resizes_acks_and_renders() {
    let mut sb = bound_state();
    sb.insert_output(entry(7, 10));
    let acts = sb.on_layer_surface_configure(13, 1, 800, 40);
    assert_eq!(
        acts,
        vec![
            Action::ReconfigureSwapchain { id: 7, width: 800, height: 40 },
            Action::AckConfigure { id: 7, serial: 1 },
            Action::Render { id: 7 },
        ]
    );
    assert_eq!(sb.outputs[0].wgpu.config.width, 800);
    assert_eq!(sb.outputs[0].wgpu.config.height, 40);
    // The fixed fields are untouched by a resize.
    assert_eq!(sb.outputs[0].wgpu.config.format, 1);
    assert_eq!(sb.outputs[0].wgpu.config.present_mode, 9);
    assert_eq!(sb.outputs[0].wgpu.config.alpha_mode, 4);
}

#[test]
fn configure_unknown_origin_changes_nothing() {
    let mut sb = bound_state();
    sb.insert_output(entry(7, 10));
    let acts = sb.on_layer_surface_configure(99, 1, 800, 40);
    assert!(acts.is_empty());
    assert_eq!(sb.outputs[0].wgpu.config.width, 1);
    assert_eq!(sb.outputs[0].wgpu.config.height, 1);
}

#[test]
fn configure_twice_renders_twice_but_state_matches_once() {
    let mut sb = bound_state();
    sb.insert_output(entry(7, 10));
    let first = sb.on_layer_surface_configure(13, 6, 320, 200);
    let config_after_once = sb.outputs[0].wgpu.config;
    let second = sb.on_layer_surface_configure(13, 6, 320, 200);
    assert_eq!(first, second);
    assert_eq!(first.iter().filter(|a| matches!(a, Action::Render { .. })).count(), 1);
    assert_eq!(second.iter().filter(|a| matches!(a, Action::Render { .. })).count(), 1);
    assert_eq!(sb.outputs[0].wgpu.config, config_after_once);
    assert_eq!(sb.outputs.len(), 1);
}

#[test]
fn configure_routes_to_owning_entry() {
    let mut sb = bound_state();
    sb.insert_output(entry(7, 10));
    sb.insert_output(entry(8, 20));
    let acts = sb.on_layer_surface_configure(23, 2, 1024, 32);
    assert_eq!(
        acts,
        vec![
            Action::ReconfigureSwapchain { id: 8, width: 1024, height: 32 },
            Action::AckConfigure { id: 8, serial: 2 },
            Action::Render { id: 8 },
        ]
    );
    assert_eq!(sb.outputs[0].wgpu.config.width, 1);
    assert_eq!(sb.outputs[1].wgpu.config.width, 1024);
}

#[test]
fn remove_unknown_id_is_noop() {
    let mut sb = bound_state();
    sb.insert_output(entry(7, 10));
    sb.on_global_removed(99);
    assert_eq!(sb.outputs.len(), 1);
    assert_eq!(sb.outputs[0].info.id, 7);
}

#[test]
fn remove_known_id_decrements_by_one() {
    let mut sb = bound_state();
    sb.insert_output(entry(7, 10));
    sb.insert_output(entry(8, 20));
    sb.on_global_removed(7);
    assert_eq!(sb.outputs.len(), 1);
    assert_eq!(sb.outputs[0].info.id, 8);
    sb.on_global_removed(8);
    assert_eq!(sb.outputs.len(), 0);
}

#[test]
fn full_display_lifecycle() {
    let mut sb = StatusBar::new();
    sb.bind_compositor(1);
    sb.bind_layer_shell(2);
    sb.bind_output_manager(3);
    let d = sb.on_global_announced("wl_output");
    assert_eq!(d, GlobalDirective::BindDisplay { create_entry: true });
    sb.insert_output(entry(7, 10));
    assert_eq!(sb.outputs.len(), 1);
    assert_eq!(sb.outputs[0].info.id, 7);
    assert_eq!(sb.outputs[0].wgpu.config.width, 1);
    assert_eq!(sb.outputs[0].wgpu.config.height, 1);

    let acts = sb.on_layer_surface_configure(13, 1, 800, 40);
    assert_eq!(
        acts,
        vec![
            Action::ReconfigureSwapchain { id: 7, width: 800, height: 40 },
            Action::AckConfigure { id: 7, serial: 1 },
            Action::Render { id: 7 },
        ]
    );
    assert_eq!(sb.outputs[0].wgpu.config.width, 800);
    assert_eq!(sb.outputs[0].wgpu.config.height, 40);

    sb.on_global_removed(7);
    assert_eq!(sb.outputs.len(), 0);
}

#[test]
fn geometry_unknown_origin_is_noop() {
    let mut sb = bound_state();
    sb.insert_output(entry(7, 10));
    sb.on_geometry_event(99, GeometryEvent::Name { name: "DP-1".to_string() });
    sb.on_geometry_event(99, GeometryEvent::LogicalSize { width: 640, height: 480 });
    assert_eq!(sb.outputs[0].info.name, "");
    assert_eq!(sb.outputs[0].info.width, 0);
    assert_eq!(sb.outputs[0].info.height, 0);
}

#[test]
fn geometry_name_updates_owning_entry() {
    let mut sb = bound_state();
    sb.insert_output(entry(7, 10));
    sb.insert_output(entry(8, 20));
    sb.on_geometry_event(21, GeometryEvent::Name { name: "DP-2".to_string() });
    assert_eq!(sb.outputs[0].info.name, "");
    assert_eq!(sb.outputs[1].info.name, "DP-2");
}

#[test]
fn geometry_logical_size_updates_owning_entry() {
    let mut sb = bound_state();
    sb.insert_output(entry(7, 10));
    sb.on_geometry_event(11, GeometryEvent::LogicalSize { width: 2560, height: 1440 });
    assert_eq!(sb.outputs[0].info.width, 2560);
    assert_eq!(sb.outputs[0].info.height, 1440);
    // Geometry is advisory: the swapchain configuration is untouched.
    assert_eq!(sb.outputs[0].wgpu.config.width, 1);
    assert_eq!(sb.outputs[0].wgpu.config.height, 1);
}

#[test]
fn output_mode_requests_layer_surface_size() {
    let mut sb = bound_state();
    sb.insert_output(entry(7, 10));
    let act = sb.on_output_event(10, OutputEvent::Mode { width: 1920, height: 1080 });
    assert_eq!(act, Some(Action::SetLayerSurfaceSize { id: 7, width: 1920, height: 1080 }));
    // A request only: neither the cache nor the swapchain config moved.
    assert_eq!(sb.outputs[0].info.width, 0);
    assert_eq!(sb.outputs[0].wgpu.config.width, 1);
}

#[test]
fn output_scale_updates_owning_entry() {
    let mut sb = bound_state();
    sb.insert_output(entry(7, 10));
    let act = sb.on_output_event(10, OutputEvent::Scale { factor: 2 });
    assert_eq!(act, None);
    assert_eq!(sb.outputs[0].info.scale, 2);
}

#[test]
fn output_event_unknown_origin_is_noop() {
    let mut sb = bound_state();
    sb.insert_output(entry(7, 10));
    let act = sb.on_output_event(99, OutputEvent::Scale { factor: 3 });
    assert_eq!(act, None);
    assert_eq!(sb.outputs[0].info.scale, 1);
}

#[test]
fn seat_keyboard_binding() {
    let mut sb = StatusBar::new();
    assert!(!sb.on_seat_capabilities(true));
    sb.bind_seat(31);
    assert!(!sb.on_seat_capabilities(false));
    assert!(sb.on_seat_capabilities(true));
    sb.set_keyboard(32);
    let seat = sb.seat.unwrap();
    assert_eq!(seat.wl_seat, 31);
    assert_eq!(seat.keyboard.unwrap().wl_keyboard, Some(32));
}

#[test]
fn render_lists_every_entry_in_order() {
    let mut sb = bound_state();
    assert_eq!(sb.render(), Vec::<u32>::new());
    sb.insert_output(entry(7, 10));
    sb.insert_output(entry(8, 20));
    assert_eq!(sb.render(), vec![7, 8]);
}
