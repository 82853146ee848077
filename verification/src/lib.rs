//! Core logic of a screen-overlay masking panel: a borderless always-on-top
//! panel that covers, with colored labeled rectangles, the portions of other
//! application windows that intersect its own screen region.
//!
//! This crate holds the verified engine: the ignore filter over window owner
//! names, the geometry reconciler that maps screen-space window bounds into
//! panel-local coordinates and keeps the intersecting ones, the mask color
//! policy, the debouncer that coalesces bursts of panel-move notifications,
//! and the assembly of window records from loosely-decoded field sets.
//! The GUI shell and the window-server queries live outside the library and
//! exchange plain values with it.

pub mod color;
pub mod debounce;
pub mod enumerate;
pub mod filter;
pub mod geometry;
pub mod text;

use crate::enumerate::{assemble_windows, raw_wf, spec_assemble, EnumerationError, RawWindow};
use crate::geometry::{in_coord_range, reconcile, spec_reconcile, MaskDescriptor, PanelState};
use vstd::prelude::*;

verus! {

/// One whole reconciliation pass over a fresh enumeration: assembles the
/// window records from the raw query result, filtered by the panel's ignore
/// set, and reconciles them against the panel's frame. Fails exactly when the
/// query returned no list; the pass is then skipped and no masks change.
pub fn compute_masks(panel: &PanelState, query: Option<Vec<RawWindow>>, screen_height: i64) -> (r:
    Result<Vec<MaskDescriptor>, EnumerationError>)
    requires
        panel.deep_view().wf(),
        in_coord_range(screen_height as int),
        query matches Some(raws) ==> forall|i: int|
            0 <= i < raws.deep_view().len() ==> raw_wf(#[trigger] raws.deep_view()[i]),
    ensures
        r is Err <==> query is None,
        query matches Some(raws) ==> r matches Ok(masks) && masks.deep_view() == spec_reconcile(
            panel.deep_view(),
            spec_assemble(raws.deep_view(), panel.deep_view().ignored_apps),
            screen_height as int,
        ),
{
    let windows = match assemble_windows(query, &panel.ignored_apps) {
        Ok(windows) => windows,
        Err(e) => {
            return Err(e);
        },
    };
    Ok(reconcile(panel, &windows, screen_height))
}

} // verus!
