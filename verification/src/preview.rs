//! The preview window controller: placement arithmetic and the
//! close-then-rebuild lifecycle that keeps at most one preview alive.

use vstd::prelude::*;

verus! {

/// Width of the preview window's content, in logical pixels.
pub const PREVIEW_WIDTH: u32 = 300;

/// Height of the preview window's content, in logical pixels.
pub const PREVIEW_HEIGHT: u32 = 180;

/// Gap kept between the preview and the display's right edge.
pub const MARGIN_RIGHT: u32 = 20;

/// Gap kept between the preview and the display's bottom edge.
pub const MARGIN_BOTTOM: u32 = 60;

/// Fallback horizontal position when no display geometry is available.
pub const FALLBACK_X: i64 = 1580;

/// Fallback vertical position when no display geometry is available.
pub const FALLBACK_Y: i64 = 820;

/// Usable geometry of a display: its origin and its size in pixels.
#[derive(Clone, Copy, PartialEq, Eq, Structural)]
pub struct MonitorGeometry {
    pub x: i32,
    pub y: i32,
    pub width: u32,
    pub height: u32,
}

/// A computed top-left position for the preview window.
#[derive(Clone, Copy, PartialEq, Eq, Structural)]
pub struct PreviewPlacement {
    pub x: i64,
    pub y: i64,
}

/// Where the preview window's top-left corner goes: the window's
/// bottom-right corner sits `MARGIN_RIGHT` from the display's right edge and
/// `MARGIN_BOTTOM` above its bottom edge; without geometry, the fixed
/// fallback position.
pub open spec fn placement_for(g: Option<MonitorGeometry>) -> PreviewPlacement {
    match g {
        Some(m) => PreviewPlacement {
            x: (m.x + m.width - PREVIEW_WIDTH - MARGIN_RIGHT) as i64,
            y: (m.y + m.height - PREVIEW_HEIGHT - MARGIN_BOTTOM) as i64,
        },
        None => PreviewPlacement { x: FALLBACK_X, y: FALLBACK_Y },
    }
}

/// Computes the preview window's position from the primary display's
/// geometry, or the fixed fallback when the geometry is unknown.
pub fn preview_position(geometry: &Option<MonitorGeometry>) -> (p: PreviewPlacement)
    ensures
        p == placement_for(*geometry),
{
    match geometry {
        Some(m) => {
            let x: i64 = m.x as i64 + m.width as i64 - PREVIEW_WIDTH as i64 - MARGIN_RIGHT as i64;
            let y: i64 = m.y as i64 + m.height as i64 - PREVIEW_HEIGHT as i64
                - MARGIN_BOTTOM as i64;
            PreviewPlacement { x, y }
        },
        None => PreviewPlacement { x: FALLBACK_X, y: FALLBACK_Y },
    }
}

/// The construction-time configuration of one preview window: where it goes
/// and the fixed flags that make it a borderless, pinned, untracked surface.
#[derive(Clone, Copy, PartialEq, Eq, Structural)]
pub struct PreviewConfig {
    pub position: PreviewPlacement,
    pub width: u32,
    pub height: u32,
    pub decorations: bool,
    pub always_on_top: bool,
    pub resizable: bool,
    pub skip_taskbar: bool,
}

/// The configuration a fresh preview window gets for the given geometry.
pub open spec fn config_for(g: Option<MonitorGeometry>) -> PreviewConfig {
    PreviewConfig {
        position: placement_for(g),
        width: PREVIEW_WIDTH,
        height: PREVIEW_HEIGHT,
        decorations: false,
        always_on_top: true,
        resizable: false,
        skip_taskbar: true,
    }
}

/// The steps the UI shell performs to show a preview: tear down the live
/// window first if one exists, then build a new one from the configuration.
pub struct ShowPlan {
    pub close_existing: bool,
    pub config: PreviewConfig,
}

/// Tracks the single preview window the application may have alive, by the
/// placement it was built with. The toolkit window itself belongs to the UI
/// shell, which carries out each returned plan in order.
pub struct PreviewController {
    window: Option<PreviewPlacement>,
}

impl View for PreviewController {
    type V = Option<PreviewPlacement>;

    closed spec fn view(&self) -> Option<PreviewPlacement> {
        self.window
    }
}

/// What one show leaves alive, whatever was alive before: exactly the one
/// window placed by the latest geometry.
pub open spec fn spec_show(
    w: Option<PreviewPlacement>,
    g: Option<MonitorGeometry>,
) -> Option<PreviewPlacement> {
    Some(placement_for(g))
}

/// How many preview windows are alive in a tracked state.
pub open spec fn alive_count(w: Option<PreviewPlacement>) -> nat {
    if w is Some {
        1
    } else {
        0
    }
}

impl PreviewController {
    /// A controller with no preview window alive.
    pub fn new() -> (c: Self)
        ensures
            c@ is None,
    {
        PreviewController { window: None }
    }

    /// Replaces any live preview with one freshly placed window. The plan
    /// closes the existing window first exactly when one is alive — closing
    /// is idempotent teardown, never an error — and then builds the new
    /// window from the latest geometry computation.
    pub fn show_preview(&mut self, geometry: &Option<MonitorGeometry>) -> (plan: ShowPlan)
        ensures
            plan.close_existing == (old(self)@ is Some),
            plan.config == config_for(*geometry),
            final(self)@ == spec_show(old(self)@, *geometry),
            final(self)@ == Some(placement_for(*geometry)),
    {
        let close_existing = self.window.is_some();
        let position = preview_position(geometry);
        self.window = Some(position);
        ShowPlan {
            close_existing,
            config: PreviewConfig {
                position,
                width: PREVIEW_WIDTH,
                height: PREVIEW_HEIGHT,
                decorations: false,
                always_on_top: true,
                resizable: false,
                skip_taskbar: true,
            },
        }
    }

    /// Closes the preview window if one is alive; the result says whether
    /// the UI shell has a window to close. A call with no preview alive
    /// succeeds and changes nothing — absence is not an error.
    pub fn hide_preview(&mut self) -> (closed: bool)
        ensures
            closed == (old(self)@ is Some),
            final(self)@ is None,
    {
        let closed = self.window.is_some();
        self.window = None;
        closed
    }
}

/// Shows the preview window, closing any existing preview window first;
/// returns the plan the UI shell performs.
pub fn show_preview_window(controller: &mut PreviewController, geometry: &Option<
    MonitorGeometry,
>) -> (plan: ShowPlan)
    ensures
        plan.close_existing == (old(controller)@ is Some),
        plan.config == config_for(*geometry),
        final(controller)@ == Some(placement_for(*geometry)),
{
    controller.show_preview(geometry)
}

/// Closes the preview window if present; a call with no preview alive
/// returns successfully with nothing to close.
pub fn hide_preview_window(controller: &mut PreviewController) -> (closed: bool)
    ensures
        closed == (old(controller)@ is Some),
        final(controller)@ is None,
{
    controller.hide_preview()
}

/// The label that identifies the preview window to the toolkit.
pub fn preview_window_label() -> (s: String)
    ensures
        s@ == "preview"@,
{
    String::from_str("preview")
}

/// Law: showing the preview twice in succession leaves exactly one preview
/// window alive, placed by the latest geometry computation; the earlier
/// window and the earlier geometry leave no trace.
pub proof fn lemma_show_twice_single_window(
    w: Option<PreviewPlacement>,
    g1: Option<MonitorGeometry>,
    g2: Option<MonitorGeometry>,
)
    ensures
        alive_count(spec_show(spec_show(w, g1), g2)) == 1,
        spec_show(spec_show(w, g1), g2) == Some(placement_for(g2)),
{
}

} // verus!
