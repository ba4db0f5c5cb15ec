//! Rules about the desktop: where the wallpaper window goes, and what the
//! foreground window means for playback.

use crate::engine::{set_last_error, EngineState};
use crate::text::same_text;
use vstd::prelude::*;
use vstd::string::*;

verus! {

/// A rectangle in screen coordinates.
#[derive(Clone, Copy, Debug, PartialEq, Eq, Structural)]
pub struct Rect {
    pub left: i32,
    pub top: i32,
    pub right: i32,
    pub bottom: i32,
}

/// A size in pixels.
#[derive(Clone, Copy, Debug, PartialEq, Eq, Structural)]
pub struct Size {
    pub width: i32,
    pub height: i32,
}

/// Whether the extent of a rectangle can be counted in 32 bits.
pub open spec fn extent_fits(rect: Rect) -> bool {
    &&& i32::MIN <= rect.right - rect.left <= i32::MAX
    &&& i32::MIN <= rect.bottom - rect.top <= i32::MAX
}

/// The size that the wallpaper window gets inside a parent of the given client
/// area.
pub fn resize_to_parent(client: Rect) -> (size: Size)
    requires
        extent_fits(client),
    ensures
        size.width == client.right - client.left,
        size.height == client.bottom - client.top,
{
    Size { width: client.right - client.left, height: client.bottom - client.top }
}

/// Whether a top-level window is the one that owns the desktop icons, by the
/// handle of its icon view: the search ends there.
pub fn find_workerw(icon_view: isize) -> (found: bool)
    ensures
        found == (icon_view != 0),
{
    icon_view != 0
}

/// Where the wallpaper window goes among its siblings.
#[derive(Clone, Copy, Debug, PartialEq, Eq, Structural)]
pub enum Placement {
    /// Right behind the icon view: icons stay above the picture.
    Behind(isize),
    /// Behind all siblings.
    Bottom,
}

/// Where the wallpaper window goes, by the handle of the icon view.
pub fn host_placement(icon_view: isize) -> (placement: Placement)
    ensures
        placement == (if icon_view == 0 {
            Placement::Bottom
        } else {
            Placement::Behind(icon_view)
        }),
{
    if icon_view == 0 {
        Placement::Bottom
    } else {
        Placement::Behind(icon_view)
    }
}

/// What the start of the engine has to look at or to do next.
#[derive(Clone, Copy, Debug, PartialEq, Eq, Structural)]
pub enum InitStep {
    /// The engine runs already.
    Done,
    /// Probe the graphics pipeline, find the desktop window, go on with
    /// `desktop_found`.
    FindDesktop,
    /// Ask the desktop for its worker window, find it, go on with
    /// `worker_found`.
    FindWorker,
    /// Create the wallpaper window inside the worker window, go on with
    /// `host_created`.
    CreateHost,
    /// Size and place the wallpaper window, start the monitor, go on with
    /// `monitor_started`.
    StartMonitor,
    /// The engine did not start.
    Failed,
}

/// Begins the start of the engine. An engine with a window runs already.
pub fn init_engine<P, R, A, M>(state: &mut EngineState<P, R, A, M>) -> (step: InitStep)
    ensures
        old(state).host_window != 0 ==> step == InitStep::Done && final(state).last_error@
            == Seq::<char>::empty(),
        old(state).host_window == 0 ==> step == InitStep::FindDesktop && *final(state)
            == *old(state),
        *final(state) == (EngineState { last_error: final(state).last_error, ..*old(state) }),
        old(state).wf() ==> final(state).wf(),
{
    if state.host_window != 0 {
        state.last_error = String::new();
        InitStep::Done
    } else {
        InitStep::FindDesktop
    }
}

/// Goes on with what the probe of the graphics pipeline gave and with the
/// handle of the desktop window.
pub fn desktop_found<P, R, A, M>(
    state: &mut EngineState<P, R, A, M>,
    pipeline_available: bool,
    progman: isize,
) -> (step: InitStep)
    ensures
        progman == 0 ==> step == InitStep::Failed && final(state).last_error@
            == "Progman desktop window was not found."@,
        progman != 0 ==> step == InitStep::FindWorker && final(state).last_error
            == old(state).last_error,
        *final(state) == (EngineState {
            d3d11_media_foundation_available: pipeline_available,
            last_error: final(state).last_error,
            ..*old(state)
        }),
        old(state).wf() ==> final(state).wf(),
{
    state.d3d11_media_foundation_available = pipeline_available;
    if progman == 0 {
        set_last_error(state, "Progman desktop window was not found.");
        InitStep::Failed
    } else {
        InitStep::FindWorker
    }
}

/// Goes on with the handle of the window that owns the desktop icons.
pub fn worker_found<P, R, A, M>(state: &mut EngineState<P, R, A, M>, worker: isize) -> (step:
    InitStep)
    ensures
        worker == 0 ==> step == InitStep::Failed && final(state).last_error@
            == "Desktop icon layer was not found."@,
        worker != 0 ==> step == InitStep::CreateHost && *final(state) == *old(state),
        *final(state) == (EngineState { last_error: final(state).last_error, ..*old(state) }),
        old(state).wf() ==> final(state).wf(),
{
    if worker == 0 {
        set_last_error(state, "Desktop icon layer was not found.");
        InitStep::Failed
    } else {
        InitStep::CreateHost
    }
}

/// Goes on with the handle of the wallpaper window, or with none.
pub fn host_created<P, R, A, M>(
    state: &mut EngineState<P, R, A, M>,
    host: Option<isize>,
) -> (step: InitStep)
    ensures
        ({
            let created = match host {
                Some(host) => host != 0,
                None => false,
            };
            &&& !created ==> step == InitStep::Failed && final(state).last_error@
                == "Could not create the wallpaper host window."@ && *final(state) == (
            EngineState { last_error: final(state).last_error, ..*old(state) })
            &&& created ==> step == InitStep::StartMonitor && *final(state) == (EngineState {
                host_window: host->0,
                ..*old(state)
            })
        }),
        old(state).wf() ==> final(state).wf(),
{
    match host {
        Some(host) if host != 0 => {
            state.host_window = host;
            InitStep::StartMonitor
        },
        _ => {
            set_last_error(state, "Could not create the wallpaper host window.");
            InitStep::Failed
        },
    }
}

/// Lets the monitor of a new engine run. It is started after this, and handed
/// over with `monitor_started`.
pub fn release_monitor<P, R, A, M>(state: &mut EngineState<P, R, A, M>)
    ensures
        final(state).last_error@ == Seq::<char>::empty(),
        *final(state) == (EngineState {
            monitor_stop: false,
            last_error: final(state).last_error,
            ..*old(state)
        }),
        old(state).wf() ==> final(state).wf(),
{
    state.monitor_stop = false;
    state.last_error = String::new();
}

/// Takes over the handle of the running monitor; the engine has started.
pub fn monitor_started<P, R, A, M>(
    state: &mut EngineState<P, R, A, M>,
    monitor: M,
) -> (step: InitStep)
    ensures
        step == InitStep::Done,
        *final(state) == (EngineState { monitor: Some(monitor), ..*old(state) }),
        old(state).wf() ==> final(state).wf(),
{
    state.monitor = Some(monitor);
    InitStep::Done
}

/// What there is to know about the foreground window.
pub struct ForegroundWindow {
    pub handle: isize,
    pub visible: bool,
    pub minimized: bool,
    pub class_name: String,
    pub process_id: u32,
    /// The window on the screen, where it can be had.
    pub area: Option<Rect>,
    /// The monitor it is on, where it can be had.
    pub monitor: Option<Rect>,
}

/// Whether a window class belongs to the desktop itself: the shell's windows
/// and the wallpaper window.
pub open spec fn desktop_class(name: Seq<char>) -> bool {
    name == "Progman"@ || name == "WorkerW"@ || name == "WallpaperCoreHost"@ || name
        == "Shell_TrayWnd"@
}

/// Whether a window class belongs to the desktop itself.
pub fn is_desktop_class(name: &str) -> (is_desktop: bool)
    ensures
        is_desktop == desktop_class(name@),
{
    same_text(name, "Progman") || same_text(name, "WorkerW") || same_text(
        name,
        "WallpaperCoreHost",
    ) || same_text(name, "Shell_TrayWnd")
}

impl ForegroundWindow {
    /// Whether there is an application on the screen: a visible window that is
    /// not minimized and does not belong to the desktop.
    pub open spec fn on_screen(&self) -> bool {
        self.handle != 0 && self.visible && !self.minimized && !desktop_class(self.class_name@)
    }

    fn is_on_screen(&self) -> (on_screen: bool)
        ensures
            on_screen == self.on_screen(),
    {
        self.handle != 0 && self.visible && !self.minimized && !is_desktop_class(
            self.class_name.as_str(),
        )
    }
}

/// Whether an ordinary application is in the foreground. The wallpaper
/// application's own window is one too.
pub fn foreground_is_external_application(window: &ForegroundWindow) -> (external: bool)
    ensures
        external == (window.on_screen() && window.process_id != 0),
{
    window.is_on_screen() && window.process_id != 0
}

/// How far, in pixels, an edge of a fullscreen window may be off the edge of
/// the monitor. This allows for invisible borders.
pub const EDGE_TOLERANCE: i32 = 2;

/// Whether two edges are as good as one.
pub open spec fn edges_meet(window: i32, monitor: i32) -> bool {
    -EDGE_TOLERANCE <= window - monitor <= EDGE_TOLERANCE
}

/// Whether a window fills a monitor.
pub open spec fn fills(window: Rect, monitor: Rect) -> bool {
    &&& edges_meet(window.left, monitor.left)
    &&& edges_meet(window.top, monitor.top)
    &&& edges_meet(window.right, monitor.right)
    &&& edges_meet(window.bottom, monitor.bottom)
}

fn do_edges_meet(window: i32, monitor: i32) -> (meet: bool)
    ensures
        meet == edges_meet(window, monitor),
{
    let distance: i64 = window as i64 - monitor as i64;
    -(EDGE_TOLERANCE as i64) <= distance && distance <= EDGE_TOLERANCE as i64
}

/// Whether the foreground window fills its monitor. The desktop itself does by
/// design and never counts.
pub fn foreground_is_fullscreen(window: &ForegroundWindow) -> (fullscreen: bool)
    ensures
        fullscreen == (window.on_screen() && (match (window.area, window.monitor) {
            (Some(area), Some(monitor)) => fills(area, monitor),
            _ => false,
        })),
{
    if !window.is_on_screen() {
        return false;
    }
    match (window.area, window.monitor) {
        (Some(area), Some(monitor)) => do_edges_meet(area.left, monitor.left) && do_edges_meet(
            area.top,
            monitor.top,
        ) && do_edges_meet(area.right, monitor.right) && do_edges_meet(
            area.bottom,
            monitor.bottom,
        ),
        _ => false,
    }
}

/// The wallpaper never pauses or silences itself: a window of the desktop is
/// neither fullscreen nor an application, however large it is.
pub proof fn the_desktop_is_no_application(window: ForegroundWindow)
    requires
        desktop_class(window.class_name@),
    ensures
        !window.on_screen(),
{
}

/// A window fills a monitor exactly where each of its four edges is at most two
/// pixels off that of the monitor.
pub proof fn a_filling_window_covers_the_monitor(window: Rect, monitor: Rect)
    ensures
        fills(window, monitor) <==> {
            &&& -2 <= window.left - monitor.left <= 2
            &&& -2 <= window.top - monitor.top <= 2
            &&& -2 <= window.right - monitor.right <= 2
            &&& -2 <= window.bottom - monitor.bottom <= 2
        },
{
}

/// A window that leaves a part of the monitor free beyond the tolerance is not
/// fullscreen, whichever part it is; one with the area of the monitor is.
pub proof fn a_partly_free_monitor_is_not_filled(window: Rect, monitor: Rect)
    requires
        window.left > monitor.left + 2 || window.top > monitor.top + 2 || window.right
            < monitor.right - 2 || window.bottom < monitor.bottom - 2,
    ensures
        !fills(window, monitor),
        fills(monitor, monitor),
{
}

/// The desktop is made of the shell's windows and the wallpaper window, and of
/// nothing else.
pub proof fn the_desktop_has_four_classes(name: Seq<char>)
    ensures
        desktop_class(name) <==> name == "Progman"@ || name == "WorkerW"@ || name
            == "WallpaperCoreHost"@ || name == "Shell_TrayWnd"@,
{
}

/// An application is on the screen exactly where there is a window that can be
/// seen and is not the desktop; one that is hidden or minimized is not.
pub proof fn an_application_is_a_visible_window(window: ForegroundWindow)
    ensures
        window.on_screen() <==> window.handle != 0 && window.visible && !window.minimized
            && window.class_name@ != "Progman"@ && window.class_name@ != "WorkerW"@
            && window.class_name@ != "WallpaperCoreHost"@ && window.class_name@
            != "Shell_TrayWnd"@,
{
}

} // verus!
