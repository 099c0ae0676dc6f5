//! The display registry: the set of known display entries, the bound global
//! capability handles, and the translation of server-originated events into
//! entry construction, destruction and mutation.
//!
//! Each handler either mutates the registry directly or returns the actions
//! the owner of the real protocol and GPU objects must perform, in the order
//! given. Events are routed by matching the numeric identity of their
//! originating object against the stored entries.

use vstd::prelude::*;
use crate::output::{GeometryEvent, Output, OutputEvent, OutputInfo};
use crate::seat::{Keyboard, Seat};
use crate::wgpu_surface::{SurfaceConfig, WgpuSurface};

verus! {

/// The role of an announced global interface name.
#[derive(Clone, Copy, PartialEq, Eq, Structural, Debug)]
pub enum GlobalKind {
    Compositor,
    OutputManager,
    LayerShell,
    Seat,
    Output,
    Other,
}

/// What the owner of the connection must do for an announced global.
#[derive(Clone, Copy, PartialEq, Eq, Structural, Debug)]
pub enum GlobalDirective {
    /// Bind the compositor factory and store its handle.
    BindCompositor,
    /// Bind the geometry-manager factory and store its handle.
    BindOutputManager,
    /// Bind the overlay-layer-shell factory and store its handle.
    BindLayerShell,
    /// Bind the input seat and store its handle.
    BindSeat,
    /// Bind the display; construct and insert an entry for it only when
    /// `create_entry` holds, dropping the announcement otherwise.
    BindDisplay { create_entry: bool },
    /// An interface this client does not use.
    Ignore,
}

/// A call the owner of the real objects must make, in the order issued.
#[derive(Clone, Copy, PartialEq, Eq, Structural, Debug)]
pub enum Action {
    /// Request the given size for the overlay-layer surface of the entry
    /// with this display id — a request, not an authoritative resize.
    SetLayerSurfaceSize { id: u32, width: u32, height: u32 },
    /// Re-apply the full swapchain configuration of the entry with this
    /// display id against its GPU surface.
    ReconfigureSwapchain { id: u32, width: u32, height: u32 },
    /// Acknowledge the pending configure event of that entry by its serial.
    AckConfigure { id: u32, serial: u32 },
    /// Draw and present one frame on that entry's surface.
    Render { id: u32 },
}

/// Character-for-character equality of two interface names.
fn str_eq(a: &str, b: &str) -> (r: bool)
    ensures
        r == (a@ == b@),
{
    let n = a.unicode_len();
    let m = b.unicode_len();
    if n != m {
        return false;
    }
    let mut i: usize = 0;
    while i < n
        invariant
            n as nat == a@.len(),
            m as nat == b@.len(),
            n == m,
            i <= n,
            forall|j: int| 0 <= j < i ==> a@[j] == b@[j],
        decreases n - i,
    {
        if a.get_char(i) != b.get_char(i) {
            return false;
        }
        i += 1;
    }
    proof {
        assert(a@ =~= b@);
    }
    true
}

/// The role a global interface name announces.
pub open spec fn spec_classify(interface: Seq<char>) -> GlobalKind {
    if interface == "wl_compositor"@ {
        GlobalKind::Compositor
    } else if interface == "zxdg_output_manager_v1"@ {
        GlobalKind::OutputManager
    } else if interface == "zwlr_layer_shell_v1"@ {
        GlobalKind::LayerShell
    } else if interface == "wl_seat"@ {
        GlobalKind::Seat
    } else if interface == "wl_output"@ {
        GlobalKind::Output
    } else {
        GlobalKind::Other
    }
}

/// Classifies an announced global interface name.
pub fn classify_global(interface: &str) -> (kind: GlobalKind)
    ensures
        kind == spec_classify(interface@),
{
    if str_eq(interface, "wl_compositor") {
        GlobalKind::Compositor
    } else if str_eq(interface, "zxdg_output_manager_v1") {
        GlobalKind::OutputManager
    } else if str_eq(interface, "zwlr_layer_shell_v1") {
        GlobalKind::LayerShell
    } else if str_eq(interface, "wl_seat") {
        GlobalKind::Seat
    } else if str_eq(interface, "wl_output") {
        GlobalKind::Output
    } else {
        GlobalKind::Other
    }
}

/// No stored entry was announced under `id`.
pub open spec fn no_entry_with_id(entries: Seq<Output>, id: u32) -> bool {
    forall|j: int| 0 <= j < entries.len() ==> entries[j].info.id != id
}

/// `i` is the position of the first entry announced under `id`.
pub open spec fn first_entry_with_id(entries: Seq<Output>, id: u32, i: int) -> bool {
    &&& 0 <= i < entries.len()
    &&& entries[i].info.id == id
    &&& forall|j: int| 0 <= j < i ==> entries[j].info.id != id
}

/// No stored entry owns the geometry-query object `origin`.
pub open spec fn no_entry_with_xdg(entries: Seq<Output>, origin: u32) -> bool {
    forall|j: int| 0 <= j < entries.len() ==> entries[j].xdg_output != origin
}

/// `i` is the position of the first entry owning geometry-query object `origin`.
pub open spec fn first_entry_with_xdg(entries: Seq<Output>, origin: u32, i: int) -> bool {
    &&& 0 <= i < entries.len()
    &&& entries[i].xdg_output == origin
    &&& forall|j: int| 0 <= j < i ==> entries[j].xdg_output != origin
}

/// No stored entry owns the base display object `origin`.
pub open spec fn no_entry_with_output(entries: Seq<Output>, origin: u32) -> bool {
    forall|j: int| 0 <= j < entries.len() ==> entries[j].output != origin
}

/// `i` is the position of the first entry owning base display object `origin`.
pub open spec fn first_entry_with_output(entries: Seq<Output>, origin: u32, i: int) -> bool {
    &&& 0 <= i < entries.len()
    &&& entries[i].output == origin
    &&& forall|j: int| 0 <= j < i ==> entries[j].output != origin
}

/// No stored entry owns the overlay-layer surface `origin`.
pub open spec fn no_entry_with_layer(entries: Seq<Output>, origin: u32) -> bool {
    forall|j: int| 0 <= j < entries.len() ==> entries[j].layer_surface != origin
}

/// `i` is the position of the first entry owning overlay-layer surface `origin`.
pub open spec fn first_entry_with_layer(entries: Seq<Output>, origin: u32, i: int) -> bool {
    &&& 0 <= i < entries.len()
    &&& entries[i].layer_surface == origin
    &&& forall|j: int| 0 <= j < i ==> entries[j].layer_surface != origin
}

proof fn first_with_id_unique(entries: Seq<Output>, id: u32, i1: int, i2: int)
    requires
        first_entry_with_id(entries, id, i1),
        first_entry_with_id(entries, id, i2),
    ensures
        i1 == i2,
{
    if i1 < i2 {
        assert(entries[i1].info.id != id);
    }
    if i2 < i1 {
        assert(entries[i2].info.id != id);
    }
}

proof fn first_with_xdg_unique(entries: Seq<Output>, origin: u32, i1: int, i2: int)
    requires
        first_entry_with_xdg(entries, origin, i1),
        first_entry_with_xdg(entries, origin, i2),
    ensures
        i1 == i2,
{
    if i1 < i2 {
        assert(entries[i1].xdg_output != origin);
    }
    if i2 < i1 {
        assert(entries[i2].xdg_output != origin);
    }
}

proof fn first_with_output_unique(entries: Seq<Output>, origin: u32, i1: int, i2: int)
    requires
        first_entry_with_output(entries, origin, i1),
        first_entry_with_output(entries, origin, i2),
    ensures
        i1 == i2,
{
    if i1 < i2 {
        assert(entries[i1].output != origin);
    }
    if i2 < i1 {
        assert(entries[i2].output != origin);
    }
}

proof fn first_with_layer_unique(entries: Seq<Output>, origin: u32, i1: int, i2: int)
    requires
        first_entry_with_layer(entries, origin, i1),
        first_entry_with_layer(entries, origin, i2),
    ensures
        i1 == i2,
{
    if i1 < i2 {
        assert(entries[i1].layer_surface != origin);
    }
    if i2 < i1 {
        assert(entries[i2].layer_surface != origin);
    }
}

fn find_by_id(entries: &Vec<Output>, id: u32) -> (r: Option<usize>)
    ensures
        match r {
            Some(i) => first_entry_with_id(entries@, id, i as int),
            None => no_entry_with_id(entries@, id),
        },
{
    let mut i: usize = 0;
    while i < entries.len()
        invariant
            i <= entries.len(),
            forall|j: int| 0 <= j < i ==> entries@[j].info.id != id,
        decreases entries.len() - i,
    {
        if entries[i].info.id == id {
            return Some(i);
        }
        i += 1;
    }
    None
}

fn find_by_xdg(entries: &Vec<Output>, origin: u32) -> (r: Option<usize>)
    ensures
        match r {
            Some(i) => first_entry_with_xdg(entries@, origin, i as int),
            None => no_entry_with_xdg(entries@, origin),
        },
{
    let mut i: usize = 0;
    while i < entries.len()
        invariant
            i <= entries.len(),
            forall|j: int| 0 <= j < i ==> entries@[j].xdg_output != origin,
        decreases entries.len() - i,
    {
        if entries[i].xdg_output == origin {
            return Some(i);
        }
        i += 1;
    }
    None
}

fn find_by_output(entries: &Vec<Output>, origin: u32) -> (r: Option<usize>)
    ensures
        match r {
            Some(i) => first_entry_with_output(entries@, origin, i as int),
            None => no_entry_with_output(entries@, origin),
        },
{
    let mut i: usize = 0;
    while i < entries.len()
        invariant
            i <= entries.len(),
            forall|j: int| 0 <= j < i ==> entries@[j].output != origin,
        decreases entries.len() - i,
    {
        if entries[i].output == origin {
            return Some(i);
        }
        i += 1;
    }
    None
}

fn find_by_layer(entries: &Vec<Output>, origin: u32) -> (r: Option<usize>)
    ensures
        match r {
            Some(i) => first_entry_with_layer(entries@, origin, i as int),
            None => no_entry_with_layer(entries@, origin),
        },
{
    let mut i: usize = 0;
    while i < entries.len()
        invariant
            i <= entries.len(),
            forall|j: int| 0 <= j < i ==> entries@[j].layer_surface != origin,
        decreases entries.len() - i,
    {
        if entries[i].layer_surface == origin {
            return Some(i);
        }
        i += 1;
    }
    None
}

/// The top-level registry state: the bound capability handles, the known
/// display entries, and the optional input seat.
#[verifier::ext_equal]
pub struct StatusBar {
    pub output_manager: Option<u32>,
    pub compositor: Option<u32>,
    pub layer_shell: Option<u32>,
    pub outputs: Vec<Output>,
    pub seat: Option<Seat>,
}

/// The capability handles and the seat are the same in both states.
pub open spec fn same_globals(pre: StatusBar, post: StatusBar) -> bool {
    &&& post.compositor == pre.compositor
    &&& post.output_manager == pre.output_manager
    &&& post.layer_shell == pre.layer_shell
    &&& post.seat == pre.seat
}

/// What the registry directs for an announced global: bind the matching
/// capability or seat, bind a display (constructing an entry exactly when
/// all three capability handles are already bound), or ignore it.
pub open spec fn spec_global_directive(s: StatusBar, interface: Seq<char>) -> GlobalDirective {
    match spec_classify(interface) {
        GlobalKind::Compositor => GlobalDirective::BindCompositor,
        GlobalKind::OutputManager => GlobalDirective::BindOutputManager,
        GlobalKind::LayerShell => GlobalDirective::BindLayerShell,
        GlobalKind::Seat => GlobalDirective::BindSeat,
        GlobalKind::Output => GlobalDirective::BindDisplay { create_entry: s.caps_bound() },
        GlobalKind::Other => GlobalDirective::Ignore,
    }
}

/// The entry `e` with its geometry cache updated by `event`.
pub open spec fn geometry_applied(e: Output, event: GeometryEvent) -> Output {
    match event {
        GeometryEvent::Name { name } => Output { info: OutputInfo { name, ..e.info }, ..e },
        GeometryEvent::LogicalSize { width, height } => Output {
            info: OutputInfo { width, height, ..e.info },
            ..e
        },
    }
}

/// The entry `e` with its cached scale factor replaced.
pub open spec fn scale_applied(e: Output, factor: i32) -> Output {
    Output { info: OutputInfo { scale: factor, ..e.info }, ..e }
}

/// The entry `e` with its swapchain configuration resized.
pub open spec fn size_applied(e: Output, width: u32, height: u32) -> Output {
    Output { wgpu: WgpuSurface { config: SurfaceConfig { width, height, ..e.wgpu.config } }, ..e }
}

/// The actions a configure event obliges, in order: reconfigure the
/// swapchain, then acknowledge the serial, then render once.
pub open spec fn configure_actions(id: u32, serial: u32, width: u32, height: u32) -> Seq<Action> {
    seq![
        Action::ReconfigureSwapchain { id, width, height },
        Action::AckConfigure { id, serial },
        Action::Render { id },
    ]
}

/// How a removal event takes the registry from `pre` to `post`: the first
/// entry announced under `id` is removed, and a removal matching no entry
/// changes nothing.
pub open spec fn removed_rel(pre: StatusBar, id: u32, post: StatusBar) -> bool {
    &&& same_globals(pre, post)
    &&& (no_entry_with_id(pre.outputs@, id) ==> post == pre)
    &&& (forall|i: int|
        first_entry_with_id(pre.outputs@, id, i) ==> post.outputs@ == pre.outputs@.remove(i))
    &&& (no_entry_with_id(pre.outputs@, id) || exists|i: int|
        first_entry_with_id(pre.outputs@, id, i))
}

/// How a geometry event from `origin` takes the registry from `pre` to
/// `post`: the cache of the entry owning `origin` is updated, and an event
/// matching no entry changes nothing.
pub open spec fn geometry_rel(
    pre: StatusBar,
    origin: u32,
    event: GeometryEvent,
    post: StatusBar,
) -> bool {
    &&& same_globals(pre, post)
    &&& (no_entry_with_xdg(pre.outputs@, origin) ==> post == pre)
    &&& (forall|i: int|
        first_entry_with_xdg(pre.outputs@, origin, i) ==> post.outputs@ == pre.outputs@.update(
            i,
            geometry_applied(pre.outputs@[i], event),
        ))
    &&& (no_entry_with_xdg(pre.outputs@, origin) || exists|i: int|
        first_entry_with_xdg(pre.outputs@, origin, i))
}

/// How a physical-output event from `origin` takes the registry from `pre`
/// to `post`, and which action it directs: a mode change asks the owner to
/// request the new size for the overlay surface without touching the
/// registry, a scale change updates the cached factor, and an event
/// matching no entry changes nothing.
pub open spec fn output_event_rel(
    pre: StatusBar,
    origin: u32,
    event: OutputEvent,
    post: StatusBar,
    act: Option<Action>,
) -> bool {
    &&& same_globals(pre, post)
    &&& (no_entry_with_output(pre.outputs@, origin) ==> post == pre && act is None)
    &&& (forall|i: int|
        first_entry_with_output(pre.outputs@, origin, i) ==> match event {
            OutputEvent::Mode { width, height } => {
                &&& post == pre
                &&& act == Some(
                    Action::SetLayerSurfaceSize { id: pre.outputs@[i].info.id, width, height },
                )
            },
            OutputEvent::Scale { factor } => {
                &&& post.outputs@ == pre.outputs@.update(
                    i,
                    scale_applied(pre.outputs@[i], factor),
                )
                &&& act is None
            },
        })
    &&& (no_entry_with_output(pre.outputs@, origin) || exists|i: int|
        first_entry_with_output(pre.outputs@, origin, i))
}

/// How a configure event from `origin` takes the registry from `pre` to
/// `post`, and which actions it obliges: the owning entry's swapchain
/// configuration takes the event's size, and the owner must reconfigure,
/// acknowledge the event's serial, and render, in that order. An event
/// matching no entry changes nothing and obliges nothing.
pub open spec fn configure_rel(
    pre: StatusBar,
    origin: u32,
    serial: u32,
    width: u32,
    height: u32,
    post: StatusBar,
    acts: Seq<Action>,
) -> bool {
    &&& same_globals(pre, post)
    &&& (no_entry_with_layer(pre.outputs@, origin) ==> post == pre && acts
        == Seq::<Action>::empty())
    &&& (forall|i: int|
        first_entry_with_layer(pre.outputs@, origin, i) ==> {
            &&& post.outputs@ == pre.outputs@.update(
                i,
                size_applied(pre.outputs@[i], width, height),
            )
            &&& acts == configure_actions(pre.outputs@[i].info.id, serial, width, height)
        })
    &&& (no_entry_with_layer(pre.outputs@, origin) || exists|i: int|
        first_entry_with_layer(pre.outputs@, origin, i))
}

impl StatusBar {
    /// A fresh registry: nothing bound, no entries, no seat.
    pub fn new() -> (s: Self)
        ensures
            s.compositor is None,
            s.output_manager is None,
            s.layer_shell is None,
            s.seat is None,
            s.outputs@ == Seq::<Output>::empty(),
    {
        StatusBar {
            seat: None,
            compositor: None,
            output_manager: None,
            layer_shell: None,
            outputs: Vec::new(),
        }
    }

    /// All three capability handles a display entry needs are bound.
    pub open spec fn caps_bound(self) -> bool {
        &&& self.compositor is Some
        &&& self.layer_shell is Some
        &&& self.output_manager is Some
    }

    /// Decides what an announcement of `interface` asks of the owner of the
    /// connection. An entry may be constructed for a display exactly when
    /// all three capability handles are already bound.
    pub fn on_global_announced(&self, interface: &str) -> (directive: GlobalDirective)
        ensures
            directive == spec_global_directive(*self, interface@),
    {
        match classify_global(interface) {
            GlobalKind::Compositor => GlobalDirective::BindCompositor,
            GlobalKind::OutputManager => GlobalDirective::BindOutputManager,
            GlobalKind::LayerShell => GlobalDirective::BindLayerShell,
            GlobalKind::Seat => GlobalDirective::BindSeat,
            GlobalKind::Output => {
                let bound = self.compositor.is_some() && self.layer_shell.is_some()
                    && self.output_manager.is_some();
                GlobalDirective::BindDisplay { create_entry: bound }
            },
            GlobalKind::Other => GlobalDirective::Ignore,
        }
    }

    /// Stores the bound compositor handle. A duplicate announcement simply
    /// overwrites the stored handle: the last bind wins.
    pub fn bind_compositor(&mut self, handle: u32)
        ensures
            final(self).compositor == Some(handle),
            final(self).output_manager == old(self).output_manager,
            final(self).layer_shell == old(self).layer_shell,
            final(self).seat == old(self).seat,
            final(self).outputs == old(self).outputs,
    {
        self.compositor = Some(handle);
    }

    /// Stores the bound geometry-manager handle; the last bind wins.
    pub fn bind_output_manager(&mut self, handle: u32)
        ensures
            final(self).output_manager == Some(handle),
            final(self).compositor == old(self).compositor,
            final(self).layer_shell == old(self).layer_shell,
            final(self).seat == old(self).seat,
            final(self).outputs == old(self).outputs,
    {
        self.output_manager = Some(handle);
    }

    /// Stores the bound overlay-layer-shell handle; the last bind wins.
    pub fn bind_layer_shell(&mut self, handle: u32)
        ensures
            final(self).layer_shell == Some(handle),
            final(self).compositor == old(self).compositor,
            final(self).output_manager == old(self).output_manager,
            final(self).seat == old(self).seat,
            final(self).outputs == old(self).outputs,
    {
        self.layer_shell = Some(handle);
    }

    /// Stores the bound seat, with no keyboard yet; the last bind wins.
    pub fn bind_seat(&mut self, handle: u32)
        ensures
            final(self).seat == (Some(Seat { wl_seat: handle, keyboard: None })),
            final(self).compositor == old(self).compositor,
            final(self).output_manager == old(self).output_manager,
            final(self).layer_shell == old(self).layer_shell,
            final(self).outputs == old(self).outputs,
    {
        self.seat = Some(Seat { wl_seat: handle, keyboard: None });
    }

    /// Registers a fully constructed entry. Only a display whose protocol
    /// and GPU surfaces were both created reaches this point, and only once
    /// the three capability handles are bound.
    pub fn insert_output(&mut self, entry: Output)
        requires
            old(self).caps_bound(),
        ensures
            final(self).outputs@ == old(self).outputs@.push(entry),
            same_globals(*old(self), *final(self)),
    {
        self.outputs.push(entry);
    }

    /// Whether the seat's keyboard should be bound: a capability event
    /// advertising a keyboard matters only once a seat is bound.
    pub fn on_seat_capabilities(&self, has_keyboard: bool) -> (bind_keyboard: bool)
        ensures
            bind_keyboard == (self.seat is Some && has_keyboard),
    {
        self.seat.is_some() && has_keyboard
    }

    /// Stores the keyboard obtained from the bound seat.
    pub fn set_keyboard(&mut self, wl_keyboard: u32)
        requires
            old(self).seat is Some,
        ensures
            final(self).seat == (Some(
                Seat {
                    wl_seat: old(self).seat->0.wl_seat,
                    keyboard: Some(Keyboard { wl_keyboard: Some(wl_keyboard) }),
                },
            )),
            final(self).compositor == old(self).compositor,
            final(self).output_manager == old(self).output_manager,
            final(self).layer_shell == old(self).layer_shell,
            final(self).outputs == old(self).outputs,
    {
        let seat = self.seat.unwrap();
        self.seat = Some(
            Seat {
                wl_seat: seat.wl_seat,
                keyboard: Some(Keyboard { wl_keyboard: Some(wl_keyboard) }),
            },
        );
    }

    /// Removes the entry announced under `id`, releasing everything it
    /// owns; a removal matching no entry is silently ignored.
    pub fn on_global_removed(&mut self, id: u32)
        ensures
            removed_rel(*old(self), id, *final(self)),
    {
        match find_by_id(&self.outputs, id) {
            None => {},
            Some(i) => {
                self.outputs.remove(i);
                proof {
                    assert forall|i2: int|
                        first_entry_with_id(old(self).outputs@, id, i2) implies self.outputs@
                        == old(self).outputs@.remove(i2) by {
                        first_with_id_unique(old(self).outputs@, id, i as int, i2);
                    }
                }
            },
        }
    }

    /// Updates the geometry cache of the entry owning the geometry-query
    /// object `origin`; an event matching no entry changes nothing.
    pub fn on_geometry_event(&mut self, origin: u32, event: GeometryEvent)
        ensures
            geometry_rel(*old(self), origin, event, *final(self)),
    {
        match find_by_xdg(&self.outputs, origin) {
            None => {},
            Some(i) => {
                let mut entry = self.outputs.remove(i);
                match event {
                    GeometryEvent::Name { name } => {
                        entry.info.name = name;
                    },
                    GeometryEvent::LogicalSize { width, height } => {
                        entry.info.width = width;
                        entry.info.height = height;
                    },
                }
                self.outputs.insert(i, entry);
                proof {
                    assert(self.outputs@ =~= old(self).outputs@.update(
                        i as int,
                        geometry_applied(old(self).outputs@[i as int], event),
                    ));
                    assert forall|i2: int|
                        first_entry_with_xdg(old(self).outputs@, origin, i2) implies self.outputs@
                        == old(self).outputs@.update(
                        i2,
                        geometry_applied(old(self).outputs@[i2], event),
                    ) by {
                        first_with_xdg_unique(old(self).outputs@, origin, i as int, i2);
                    }
                }
            },
        }
    }

    /// Reacts to a physical-output event from the display object `origin`:
    /// a mode change directs the owner to request that size for the overlay
    /// surface, a scale change updates the cached factor. An event matching
    /// no entry changes nothing and directs nothing.
    pub fn on_output_event(&mut self, origin: u32, event: OutputEvent) -> (act: Option<Action>)
        ensures
            output_event_rel(*old(self), origin, event, *final(self), act),
    {
        match find_by_output(&self.outputs, origin) {
            None => None,
            Some(i) => {
                match event {
                    OutputEvent::Mode { width, height } => {
                        let id = self.outputs[i].info.id;
                        proof {
                            assert forall|i2: int|
                                first_entry_with_output(old(self).outputs@, origin, i2) implies i2
                                == i as int by {
                                first_with_output_unique(old(self).outputs@, origin, i as int, i2);
                            }
                        }
                        Some(Action::SetLayerSurfaceSize { id, width, height })
                    },
                    OutputEvent::Scale { factor } => {
                        let mut entry = self.outputs.remove(i);
                        entry.info.scale = factor;
                        self.outputs.insert(i, entry);
                        proof {
                            assert(self.outputs@ =~= old(self).outputs@.update(
                                i as int,
                                scale_applied(old(self).outputs@[i as int], factor),
                            ));
                            assert forall|i2: int|
                                first_entry_with_output(old(self).outputs@, origin, i2) implies i2
                                == i as int by {
                                first_with_output_unique(old(self).outputs@, origin, i as int, i2);
                            }
                        }
                        None
                    },
                }
            },
        }
    }

    /// The critical path of the client: a configure event from the
    /// overlay-layer surface `origin`. The owning entry's configuration takes the
    /// event's size, and the returned actions oblige the owner to
    /// reconfigure the GPU surface, acknowledge the event by its serial
    /// only then, and render the now-correctly-sized surface once. An event
    /// matching no entry returns no actions and changes nothing.
    pub fn on_layer_surface_configure(
        &mut self,
        origin: u32,
        serial: u32,
        width: u32,
        height: u32,
    ) -> (acts: Vec<Action>)
        ensures
            configure_rel(*old(self), origin, serial, width, height, *final(self), acts@),
    {
        match find_by_layer(&self.outputs, origin) {
            None => Vec::new(),
            Some(i) => {
                let mut entry = self.outputs.remove(i);
                let id = entry.info.id;
                entry.wgpu.resize(width, height);
                self.outputs.insert(i, entry);
                let mut acts: Vec<Action> = Vec::new();
                acts.push(Action::ReconfigureSwapchain { id, width, height });
                acts.push(Action::AckConfigure { id, serial });
                acts.push(Action::Render { id });
                proof {
                    assert(self.outputs@ =~= old(self).outputs@.update(
                        i as int,
                        size_applied(old(self).outputs@[i as int], width, height),
                    ));
                    assert(acts@ =~= configure_actions(id, serial, width, height));
                    assert forall|i2: int|
                        first_entry_with_layer(old(self).outputs@, origin, i2) implies i2
                        == i as int by {
                        first_with_layer_unique(old(self).outputs@, origin, i as int, i2);
                    }
                }
                acts
            },
        }
    }

    /// The display ids of all entries, in storage order: one frame is drawn
    /// for each of them when the whole client redraws.
    pub fn render(&self) -> (ids: Vec<u32>)
        ensures
            ids@ == self.outputs@.map_values(|entry: Output| entry.info.id),
    {
        let mut ids: Vec<u32> = Vec::new();
        let mut k: usize = 0;
        while k < self.outputs.len()
            invariant
                k <= self.outputs.len(),
                ids@ == self.outputs@.subrange(0, k as int).map_values(
                    |entry: Output| entry.info.id,
                ),
            decreases self.outputs.len() - k,
        {
            ids.push(self.outputs[k].info.id);
            proof {
                assert(self.outputs@.subrange(0, k + 1 as int) =~= self.outputs@.subrange(
                    0,
                    k as int,
                ).push(self.outputs@[k as int]));
                assert(ids@ =~= self.outputs@.subrange(0, k + 1 as int).map_values(
                    |entry: Output| entry.info.id,
                ));
            }
            k += 1;
        }
        proof {
            assert(self.outputs@.subrange(0, self.outputs@.len() as int) =~= self.outputs@);
        }
        ids
    }
}

/// A display entry is directed to be constructed for an announced display
/// if and only if, at the moment the announcement is processed, all three
/// capability handles are already bound.
pub proof fn lemma_entry_creation_gated(s: StatusBar, interface: Seq<char>)
    ensures
        (spec_global_directive(s, interface) == (GlobalDirective::BindDisplay {
            create_entry: true,
        })) <==> (spec_classify(interface) == GlobalKind::Output && s.caps_bound()),
{
}

/// Removing an id with no corresponding entry is a no-op: the registry,
/// entry count included, is left exactly as it was.
pub proof fn lemma_remove_unknown_is_noop(pre: StatusBar, id: u32, post: StatusBar)
    requires
        removed_rel(pre, id, post),
        no_entry_with_id(pre.outputs@, id),
    ensures
        post == pre,
{
}

/// Removing an id with a corresponding entry decreases the entry count by
/// exactly one, and the removed entry — with everything it owns — is gone
/// from the registry.
pub proof fn lemma_remove_known_decrements(pre: StatusBar, id: u32, post: StatusBar, i: int)
    requires
        removed_rel(pre, id, post),
        first_entry_with_id(pre.outputs@, id, i),
    ensures
        post.outputs@.len() == pre.outputs@.len() - 1,
        post.outputs@ == pre.outputs@.remove(i),
        same_globals(pre, post),
{
    pre.outputs@.remove_ensures(i);
}

/// For a configure event delivered to a known entry, acknowledgment carries
/// exactly the serial received, and stands in the issued actions only after
/// the swapchain reconfiguration, by which point the entry's configured
/// width and height equal the event's.
pub proof fn lemma_configure_acknowledges_serial(
    pre: StatusBar,
    origin: u32,
    serial: u32,
    width: u32,
    height: u32,
    post: StatusBar,
    acts: Seq<Action>,
    i: int,
)
    requires
        configure_rel(pre, origin, serial, width, height, post, acts),
        first_entry_with_layer(pre.outputs@, origin, i),
    ensures
        acts.len() == 3,
        acts[0] == (Action::ReconfigureSwapchain { id: pre.outputs@[i].info.id, width, height }),
        acts[1] == (Action::AckConfigure { id: pre.outputs@[i].info.id, serial }),
        acts[2] == (Action::Render { id: pre.outputs@[i].info.id }),
        post.outputs@[i].wgpu.config.width == width,
        post.outputs@[i].wgpu.config.height == height,
{
    assert(acts == configure_actions(pre.outputs@[i].info.id, serial, width, height));
}

/// Delivering the same configure serial and size twice in a row obliges the
/// same actions twice — two renders — but leaves the registry exactly as
/// the single delivery left it.
pub proof fn lemma_configure_idempotent(
    pre: StatusBar,
    origin: u32,
    serial: u32,
    width: u32,
    height: u32,
    mid: StatusBar,
    post: StatusBar,
    acts1: Seq<Action>,
    acts2: Seq<Action>,
)
    requires
        configure_rel(pre, origin, serial, width, height, mid, acts1),
        configure_rel(mid, origin, serial, width, height, post, acts2),
    ensures
        post.outputs@ == mid.outputs@,
        same_globals(mid, post),
        acts2 == acts1,
{
    if no_entry_with_layer(pre.outputs@, origin) {
        assert(no_entry_with_layer(mid.outputs@, origin));
    } else {
        let i = choose|i: int| first_entry_with_layer(pre.outputs@, origin, i);
        assert(mid.outputs@ == pre.outputs@.update(
            i,
            size_applied(pre.outputs@[i], width, height),
        ));
        assert(first_entry_with_layer(mid.outputs@, origin, i)) by {
            assert(mid.outputs@[i].layer_surface == pre.outputs@[i].layer_surface);
            assert forall|j: int| 0 <= j < i implies mid.outputs@[j].layer_surface != origin by {
                assert(mid.outputs@[j] == pre.outputs@[j]);
            }
        }
        assert(size_applied(mid.outputs@[i], width, height) =~= mid.outputs@[i]);
        assert(post.outputs@ =~= mid.outputs@.update(i, mid.outputs@[i]));
        assert(post.outputs@ =~= mid.outputs@);
        assert(mid.outputs@[i].info.id == pre.outputs@[i].info.id);
    }
}

/// A geometry event whose origin matches no entry mutates nothing: the
/// registry, every entry's cached fields included, is left exactly as it
/// was, and no error is raised.
pub proof fn lemma_geometry_unknown_origin_is_noop(
    pre: StatusBar,
    origin: u32,
    event: GeometryEvent,
    post: StatusBar,
)
    requires
        geometry_rel(pre, origin, event, post),
        no_entry_with_xdg(pre.outputs@, origin),
    ensures
        post == pre,
{
}

} // verus!
