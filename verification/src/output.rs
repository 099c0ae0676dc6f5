//! One display entry: the identities of the protocol objects it owns, its
//! advisory geometry cache, and its GPU surface state.

use vstd::prelude::*;
use crate::wgpu_surface::WgpuSurface;

verus! {

/// The geometry cache of one display. Populated incrementally as geometry
/// events arrive; a render may legitimately run before it is complete, since
/// the authoritative render size is the swapchain configuration.
#[verifier::ext_equal]
pub struct OutputInfo {
    pub name: String,
    pub width: i32,
    pub height: i32,
    pub scale: i32,
    pub id: u32,
}

impl OutputInfo {
    /// A fresh cache for the display announced under `id`: empty name, zero
    /// logical size, scale factor 1.
    pub fn new(id: u32) -> (info: Self)
        ensures
            info.name@ == Seq::<char>::empty(),
            info.width == 0,
            info.height == 0,
            info.scale == 1,
            info.id == id,
    {
        OutputInfo { name: String::new(), width: 0, height: 0, scale: 1, id }
    }
}

/// One display entry: the numeric identities of the protocol objects bound
/// for this display, its geometry cache, and its GPU surface state. An entry
/// exists only once both its protocol objects and its GPU surface were
/// successfully created.
#[verifier::ext_equal]
pub struct Output {
    pub wgpu: WgpuSurface,
    pub layer_surface: u32,
    pub surface: u32,
    pub output: u32,
    pub xdg_output: u32,
    pub info: OutputInfo,
}

impl Output {
    /// Assembles the entry for a newly announced display from the identities
    /// of its freshly created protocol objects and its GPU surface state.
    pub fn new(output: u32, xdg_output: u32, surface: u32, layer_surface: u32, id: u32, wgpu: WgpuSurface) -> (entry: Self)
        ensures
            entry.output == output,
            entry.xdg_output == xdg_output,
            entry.surface == surface,
            entry.layer_surface == layer_surface,
            entry.wgpu == wgpu,
            entry.info.id == id,
            entry.info.name@ == Seq::<char>::empty(),
            entry.info.width == 0,
            entry.info.height == 0,
            entry.info.scale == 1,
    {
        Output {
            xdg_output,
            output,
            layer_surface,
            surface,
            info: OutputInfo::new(id),
            wgpu,
        }
    }
}

/// A logical-geometry event, routed by the identity of the geometry-query
/// object it originates from.
pub enum GeometryEvent {
    /// The display's human-readable name.
    Name { name: String },
    /// The display's logical size.
    LogicalSize { width: i32, height: i32 },
}

/// A physical-output event, routed by the identity of the display object it
/// originates from.
#[derive(Clone, Copy, PartialEq, Eq, Structural, Debug)]
pub enum OutputEvent {
    /// The display's current physical mode.
    Mode { width: u32, height: u32 },
    /// The display's integer scale factor.
    Scale { factor: i32 },
}

} // verus!
