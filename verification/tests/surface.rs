use status_bar::output::OutputInfo;
use status_bar::wgpu_surface::{pick_preferred, CapChoice, WgpuSurface};

#[test]
fn pick_preferred_takes_first_preferred_entry() {
    let caps = vec![
        CapChoice { code: 0, preferred: false },
        CapChoice { code: 1, preferred: true },
        CapChoice { code: 2, preferred: true },
    ];
    assert_eq!(pick_preferred(&caps), 1);
}

#[test]
fn pick_preferred_falls_back_to_first_entry() {
    let caps = vec![
        CapChoice { code: 5, preferred: false },
        CapChoice { code: 6, preferred: false },
    ];
    assert_eq!(pick_preferred(&caps), 5);
}

#[test]
fn new_surface_chooses_caps_and_placeholder_size() {
    let formats = vec![
        CapChoice { code: 0, preferred: false },
        CapChoice { code: 3, preferred: true },
    ];
    let present_modes = vec![2, 0];
    let alpha_modes = vec![
        CapChoice { code: 1, preferred: false },
        CapChoice { code: 2, preferred: true },
    ];
    let s = WgpuSurface::new(&formats, &present_modes, &alpha_modes);
    assert_eq!(s.config.format, 3);
    assert_eq!(s.config.present_mode, 2);
    assert_eq!(s.config.alpha_mode, 2);
    assert_eq!(s.config.width, 1);
    assert_eq!(s.config.height, 1);
}

#[test]
fn resize_replaces_only_the_dimensions() {
    let formats = vec![CapChoice { code: 0, preferred: true }];
    let present_modes = vec![7];
    let alpha_modes = vec![CapChoice { code: 4, preferred: false }];
    let mut s = WgpuSurface::new(&formats, &present_modes, &alpha_modes);
    s.resize(800, 600);
    assert_eq!(s.config.width, 800);
    assert_eq!(s.config.height, 600);
    assert_eq!(s.config.format, 0);
    assert_eq!(s.config.present_mode, 7);
    assert_eq!(s.config.alpha_mode, 4);
    s.resize(800, 600);
    assert_eq!(s.config.width, 800);
    assert_eq!(s.config.height, 600);
}

#[test]
fn output_info_defaults() {
    let info = OutputInfo::new(7);
    assert_eq!(info.id, 7);
    assert_eq!(info.name, "");
    assert_eq!(info.width, 0);
    assert_eq!(info.height, 0);
    assert_eq!(info.scale, 1);
}
