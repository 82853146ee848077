//! Geometry reconciler: converts screen-space window bounds (top-left origin,
//! y growing downward) into the panel's coordinate convention (bottom-left
//! origin, y growing upward), keeps the windows that strictly overlap the
//! panel's frame, and emits one mask descriptor per kept window.
//!
//! Coordinates are whole screen units held in `i64`; every accepted
//! coordinate is bounded by [`COORD_BOUND`], so the few additions and
//! subtractions of the transform stay inside `i64`.

use crate::color::{get_mask_color, spec_color_for, Rgba};
use vstd::prelude::*;

verus! {

/// Bound on every coordinate the engine accepts; sums of up to four bounded
/// coordinates then fit comfortably in `i64`.
pub const COORD_BOUND: i64 = 0x4000_0000_0000;

/// The coordinate lies within the accepted range.
pub open spec fn in_coord_range(v: int) -> bool {
    -COORD_BOUND <= v <= COORD_BOUND
}

/// An axis-aligned rectangle; `x` and `y` locate its origin corner.
#[derive(Clone, Copy, Debug, PartialEq, Eq, Structural)]
pub struct Rect {
    pub x: i64,
    pub y: i64,
    pub width: i64,
    pub height: i64,
}

impl Rect {
    /// Every component lies within the accepted coordinate range.
    pub open spec fn wf(&self) -> bool {
        in_coord_range(self.x as int) && in_coord_range(self.y as int) && in_coord_range(
            self.width as int,
        ) && in_coord_range(self.height as int)
    }
}

/// One on-screen window surface at query time, with its bounds in screen
/// coordinates (top-left origin, y growing downward).
#[derive(Clone, Debug)]
pub struct WindowInfo {
    pub title: String,
    pub app_name: String,
    pub bundle_identifier: Option<String>,
    pub x: i64,
    pub y: i64,
    pub width: i64,
    pub height: i64,
    pub window_number: i64,
    pub pid: i32,
}

/// The mathematical content of a [`WindowInfo`]: strings as character
/// sequences, everything else as it stands.
pub struct WindowView {
    pub title: Seq<char>,
    pub app_name: Seq<char>,
    pub bundle_identifier: Option<Seq<char>>,
    pub x: i64,
    pub y: i64,
    pub width: i64,
    pub height: i64,
    pub window_number: i64,
    pub pid: i32,
}

impl DeepView for WindowInfo {
    type V = WindowView;

    open spec fn deep_view(&self) -> WindowView {
        WindowView {
            title: self.title@,
            app_name: self.app_name@,
            bundle_identifier: match self.bundle_identifier {
                Some(b) => Some(b@),
                None => None,
            },
            x: self.x,
            y: self.y,
            width: self.width,
            height: self.height,
            window_number: self.window_number,
            pid: self.pid,
        }
    }
}

impl WindowView {
    /// The window's bounds lie within the accepted coordinate range.
    pub open spec fn wf(&self) -> bool {
        in_coord_range(self.x as int) && in_coord_range(self.y as int) && in_coord_range(
            self.width as int,
        ) && in_coord_range(self.height as int)
    }
}

/// The overlay panel's own geometry and identity: its frame in the panel
/// coordinate convention (bottom-left origin, y growing upward), the stacking
/// id of its own surface, and the fixed ignore set.
pub struct PanelState {
    pub frame: Rect,
    pub window_number: i64,
    pub ignored_apps: Vec<String>,
}

/// The mathematical content of a [`PanelState`].
pub struct PanelView {
    pub frame: Rect,
    pub window_number: i64,
    pub ignored_apps: Seq<Seq<char>>,
}

impl DeepView for PanelState {
    type V = PanelView;

    open spec fn deep_view(&self) -> PanelView {
        PanelView {
            frame: self.frame,
            window_number: self.window_number,
            ignored_apps: self.ignored_apps.deep_view(),
        }
    }
}

impl PanelView {
    /// The panel frame lies within the accepted coordinate range.
    pub open spec fn wf(&self) -> bool {
        self.frame.wf()
    }
}

/// One overlay rectangle to render, in panel-local coordinates.
#[derive(Clone, Debug, PartialEq)]
pub struct MaskDescriptor {
    pub rect: Rect,
    pub color: Rgba,
    pub label_text: String,
}

/// The mathematical content of a [`MaskDescriptor`].
pub struct MaskView {
    pub rect: Rect,
    pub color: Rgba,
    pub label_text: Seq<char>,
}

impl DeepView for MaskDescriptor {
    type V = MaskView;

    open spec fn deep_view(&self) -> MaskView {
        MaskView { rect: self.rect, color: self.color, label_text: self.label_text@ }
    }
}

/// The screen-space y of a window's top edge, converted to the panel
/// convention: the height of the screen minus the window's top minus the
/// window's height.
pub open spec fn spec_flipped_y(screen_height: int, y: int, height: int) -> int {
    screen_height - y - height
}

/// The window's horizontal position relative to the panel's origin.
pub open spec fn spec_rel_x(panel: PanelView, w: WindowView) -> int {
    w.x - panel.frame.x
}

/// The window's vertical position relative to the panel's origin, after the
/// coordinate flip.
pub open spec fn spec_rel_y(panel: PanelView, w: WindowView, screen_height: int) -> int {
    spec_flipped_y(screen_height, w.y as int, w.height as int) - panel.frame.y
}

/// Strict axis-aligned overlap between the window, placed at its
/// panel-relative position, and the panel's own frame: all four comparisons
/// are strict, so an exactly edge-adjacent window does not overlap.
pub open spec fn spec_overlaps(panel: PanelView, w: WindowView, screen_height: int) -> bool {
    let rx = spec_rel_x(panel, w);
    let ry = spec_rel_y(panel, w, screen_height);
    rx + w.width > 0 && rx < panel.frame.width && ry + w.height > 0 && ry < panel.frame.height
}

/// The window earns a mask: it is not the panel's own surface and it strictly
/// overlaps the panel.
pub open spec fn spec_keeps(panel: PanelView, w: WindowView, screen_height: int) -> bool {
    w.window_number != panel.window_number && spec_overlaps(panel, w, screen_height)
}

/// The key the color policy is consulted with: the bundle identifier, or the
/// empty string when none was resolved.
pub open spec fn spec_bundle_key(w: WindowView) -> Seq<char> {
    match w.bundle_identifier {
        Some(b) => b,
        None => ""@,
    }
}

/// The text of the mask's label: the bundle identifier, or the owner
/// application's name when none was resolved.
pub open spec fn spec_label(w: WindowView) -> Seq<char> {
    match w.bundle_identifier {
        Some(b) => b,
        None => w.app_name,
    }
}

/// The mask a kept window produces: the window's own size at its
/// panel-relative position (not clipped to the panel's bounds), the policy
/// color for its bundle key, and its label text.
pub open spec fn spec_mask_of(panel: PanelView, w: WindowView, screen_height: int) -> MaskView {
    MaskView {
        rect: Rect {
            x: spec_rel_x(panel, w) as i64,
            y: spec_rel_y(panel, w, screen_height) as i64,
            width: w.width,
            height: w.height,
        },
        color: spec_color_for(spec_bundle_key(w)),
        label_text: spec_label(w),
    }
}

/// The full reconciliation: one mask per kept window, in input order.
pub open spec fn spec_reconcile(
    panel: PanelView,
    ws: Seq<WindowView>,
    screen_height: int,
) -> Seq<MaskView>
    decreases ws.len(),
{
    if ws.len() == 0 {
        Seq::empty()
    } else {
        let prefix = spec_reconcile(panel, ws.drop_last(), screen_height);
        if spec_keeps(panel, ws.last(), screen_height) {
            prefix.push(spec_mask_of(panel, ws.last(), screen_height))
        } else {
            prefix
        }
    }
}

/// Converts a window's screen-space top edge into the panel convention.
pub fn flipped_window_y(screen_height: i64, y: i64, height: i64) -> (ns_y: i64)
    requires
        in_coord_range(screen_height as int),
        in_coord_range(y as int),
        in_coord_range(height as int),
    ensures
        ns_y == spec_flipped_y(screen_height as int, y as int, height as int),
{
    screen_height - y - height
}

/// Computes the masks for the current window list: discards the panel's own
/// surface, flips each remaining window into the panel convention, keeps the
/// strictly overlapping ones, and emits their descriptors in input order.
pub fn reconcile(panel: &PanelState, windows: &Vec<WindowInfo>, screen_height: i64) -> (masks: Vec<
    MaskDescriptor,
>)
    requires
        panel.deep_view().wf(),
        in_coord_range(screen_height as int),
        forall|i: int|
            0 <= i < windows.deep_view().len() ==> (#[trigger] windows.deep_view()[i]).wf(),
    ensures
        masks.deep_view() == spec_reconcile(
            panel.deep_view(),
            windows.deep_view(),
            screen_height as int,
        ),
        masks@.len() <= windows@.len(),
{
    let ghost pv = panel.deep_view();
    let ghost wsv = windows.deep_view();
    let mut masks: Vec<MaskDescriptor> = Vec::new();
    let mut i: usize = 0;
    while i < windows.len()
        invariant
            pv == panel.deep_view(),
            wsv == windows.deep_view(),
            pv.wf(),
            in_coord_range(screen_height as int),
            forall|j: int| 0 <= j < wsv.len() ==> (#[trigger] wsv[j]).wf(),
            i <= windows@.len(),
            wsv.len() == windows@.len(),
            masks.deep_view() == spec_reconcile(
                pv,
                wsv.subrange(0, i as int),
                screen_height as int,
            ),
            masks@.len() <= i,
        decreases windows@.len() - i,
    {
        let w = &windows[i];
        proof {
            assert(wsv[i as int] == w.deep_view());
            assert(wsv[i as int].wf());
        }
        if w.window_number != panel.window_number {
            let ns_y = flipped_window_y(screen_height, w.y, w.height);
            let rel_x = w.x - panel.frame.x;
            let rel_y = ns_y - panel.frame.y;
            if rel_x + w.width > 0 && rel_x < panel.frame.width && rel_y + w.height > 0 && rel_y
                < panel.frame.height {
                let color = match &w.bundle_identifier {
                    Some(b) => get_mask_color(b.as_str()),
                    None => get_mask_color(""),
                };
                let label_text = match &w.bundle_identifier {
                    Some(b) => b.clone(),
                    None => w.app_name.clone(),
                };
                let mask = MaskDescriptor {
                    rect: Rect { x: rel_x, y: rel_y, width: w.width, height: w.height },
                    color,
                    label_text,
                };
                proof {
                    assert(mask.deep_view() == spec_mask_of(
                        pv,
                        wsv[i as int],
                        screen_height as int,
                    ));
                }
                masks.push(mask);
                proof {
                    assert(masks.deep_view() =~= spec_reconcile(
                        pv,
                        wsv.subrange(0, i as int),
                        screen_height as int,
                    ).push(spec_mask_of(pv, wsv[i as int], screen_height as int)));
                }
            }
        }
        proof {
            assert(wsv.subrange(0, i + 1 as int).drop_last() =~= wsv.subrange(0, i as int));
            assert(wsv.subrange(0, i + 1 as int).last() == wsv[i as int]);
        }
        i += 1;
    }
    proof {
        assert(wsv.subrange(0, wsv.len() as int) =~= wsv);
    }
    masks
}

/// The mask stems from some window of the list that passed the
/// self-exclusion and strict-overlap tests.
pub open spec fn from_kept_window(
    m: MaskView,
    panel: PanelView,
    ws: Seq<WindowView>,
    screen_height: int,
) -> bool {
    exists|j: int|
        0 <= j < ws.len() && #[trigger] spec_keeps(panel, ws[j], screen_height) && m
            == spec_mask_of(panel, ws[j], screen_height)
}

/// Law: reconciliation never invents entries — its output is never longer
/// than its input — and every output mask stems from an input window that is
/// not the panel's own surface and strictly overlaps the panel. In
/// particular, no mask of the panel's own surface ever appears.
pub proof fn lemma_reconcile_no_self(panel: PanelView, ws: Seq<WindowView>, screen_height: int)
    ensures
        spec_reconcile(panel, ws, screen_height).len() <= ws.len(),
        forall|i: int|
            0 <= i < spec_reconcile(panel, ws, screen_height).len() ==> from_kept_window(
                #[trigger] spec_reconcile(panel, ws, screen_height)[i],
                panel,
                ws,
                screen_height,
            ),
    decreases ws.len(),
{
    if ws.len() > 0 {
        let prev = ws.drop_last();
        lemma_reconcile_no_self(panel, prev, screen_height);
        let result = spec_reconcile(panel, ws, screen_height);
        let prefix = spec_reconcile(panel, prev, screen_height);
        assert forall|i: int| 0 <= i < result.len() implies from_kept_window(
            result[i],
            panel,
            ws,
            screen_height,
        ) by {
            if i < prefix.len() {
                assert(from_kept_window(prefix[i], panel, prev, screen_height));
                let j = choose|j: int|
                    0 <= j < prev.len() && #[trigger] spec_keeps(panel, prev[j], screen_height)
                        && prefix[i] == spec_mask_of(panel, prev[j], screen_height);
                assert(prev[j] == ws[j]);
                assert(spec_keeps(panel, ws[j], screen_height) && result[i] == spec_mask_of(
                    panel,
                    ws[j],
                    screen_height,
                ));
            } else {
                let j = ws.len() - 1;
                assert(spec_keeps(panel, ws[j], screen_height) && result[i] == spec_mask_of(
                    panel,
                    ws[j],
                    screen_height,
                ));
            }
        }
    }
}

/// Law: the overlap test is strict. A window exactly edge-adjacent to the
/// panel on any of the four sides — zero-width contact, no shared area —
/// is excluded from reconciliation.
pub proof fn lemma_overlap_strict(panel: PanelView, w: WindowView, screen_height: int)
    requires
        spec_rel_x(panel, w) + w.width == 0 || spec_rel_x(panel, w) == panel.frame.width as int
            || spec_rel_y(panel, w, screen_height) + w.height == 0 || spec_rel_y(
            panel,
            w,
            screen_height,
        ) == panel.frame.height as int,
    ensures
        !spec_overlaps(panel, w, screen_height),
        !spec_keeps(panel, w, screen_height),
{
}

/// Law: every mask a kept window produces has positive overlap with the
/// panel's own rectangle in panel-local space: its rect, placed at its
/// panel-relative position, strictly crosses all four of the panel's edges'
/// half-planes, even though it is not clipped to the panel's bounds.
pub proof fn lemma_mask_overlaps_panel(panel: PanelView, w: WindowView, screen_height: int)
    requires
        panel.wf(),
        w.wf(),
        in_coord_range(screen_height),
        spec_keeps(panel, w, screen_height),
    ensures
        ({
            let r = spec_mask_of(panel, w, screen_height).rect;
            r.x + r.width > 0 && (r.x as int) < panel.frame.width && r.y + r.height > 0 && (
            r.y as int) < panel.frame.height
        }),
{
}

/// Law: reconciliation is a pure function of its inputs. Two passes over
/// identical inputs yield identical mask sequences, entry for entry and in
/// the same order.
pub proof fn lemma_reconcile_deterministic(
    panel: PanelView,
    ws: Seq<WindowView>,
    screen_height: int,
    m1: Seq<MaskView>,
    m2: Seq<MaskView>,
)
    requires
        m1 == spec_reconcile(panel, ws, screen_height),
        m2 == spec_reconcile(panel, ws, screen_height),
    ensures
        m1 == m2,
{
}

} // verus!
