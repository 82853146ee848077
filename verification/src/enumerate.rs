//! Assembly of window records from loosely-decoded property maps.
//!
//! The window-server query hands back, per surface, a property map whose
//! fields may each be absent or malformed. The shell decodes every field into
//! an optional plain value and passes the lot here; this module applies the
//! default-substitution policy (empty string or zero per failed field, whole
//! record dropped only when its bounds map is missing), filters ignored
//! applications, and builds the window records a reconciliation pass works
//! on. A query that returned no list at all is the one fatal outcome.

use crate::filter::{should_ignore_app, spec_is_ignored};
use crate::geometry::{in_coord_range, WindowInfo, WindowView};
use vstd::prelude::*;

verus! {

/// The four components of a window's bounds map, each `None` when it failed
/// to decode.
#[derive(Clone, Copy, Debug)]
pub struct RawBounds {
    pub x: Option<i64>,
    pub y: Option<i64>,
    pub width: Option<i64>,
    pub height: Option<i64>,
}

/// One window surface as decoded from the window server's property map; a
/// field that was absent or failed to decode is `None`, and `bounds` is
/// `None` when the whole bounds map was missing.
pub struct RawWindow {
    pub owner_name: Option<String>,
    pub title: Option<String>,
    pub window_number: Option<i64>,
    pub owner_pid: Option<i32>,
    pub bundle_identifier: Option<String>,
    pub bounds: Option<RawBounds>,
}

/// The mathematical content of a [`RawWindow`].
pub struct RawWindowView {
    pub owner_name: Option<Seq<char>>,
    pub title: Option<Seq<char>>,
    pub window_number: Option<i64>,
    pub owner_pid: Option<i32>,
    pub bundle_identifier: Option<Seq<char>>,
    pub bounds: Option<RawBounds>,
}

impl DeepView for RawWindow {
    type V = RawWindowView;

    open spec fn deep_view(&self) -> RawWindowView {
        RawWindowView {
            owner_name: match self.owner_name {
                Some(s) => Some(s@),
                None => None,
            },
            title: match self.title {
                Some(s) => Some(s@),
                None => None,
            },
            window_number: self.window_number,
            owner_pid: self.owner_pid,
            bundle_identifier: match self.bundle_identifier {
                Some(s) => Some(s@),
                None => None,
            },
            bounds: self.bounds,
        }
    }
}

/// The characters of an optional string, with the empty sequence as default.
pub open spec fn opt_seq_or_empty(o: Option<Seq<char>>) -> Seq<char> {
    match o {
        Some(s) => s,
        None => Seq::empty(),
    }
}

/// An optional number, with zero as default.
pub open spec fn opt_i64_or_zero(o: Option<i64>) -> i64 {
    match o {
        Some(v) => v,
        None => 0,
    }
}

/// An optional process id, with zero as default.
pub open spec fn opt_i32_or_zero(o: Option<i32>) -> i32 {
    match o {
        Some(v) => v,
        None => 0,
    }
}

/// The bounds map of a record, with a fully-undecoded map as default.
pub open spec fn spec_bounds_or_none(o: Option<RawBounds>) -> RawBounds {
    match o {
        Some(b) => b,
        None => RawBounds { x: None, y: None, width: None, height: None },
    }
}

/// Every component of the bounds, after default substitution, lies within
/// the accepted coordinate range.
pub open spec fn raw_wf(raw: RawWindowView) -> bool {
    let b = spec_bounds_or_none(raw.bounds);
    in_coord_range(opt_i64_or_zero(b.x) as int) && in_coord_range(opt_i64_or_zero(b.y) as int)
        && in_coord_range(opt_i64_or_zero(b.width) as int) && in_coord_range(
        opt_i64_or_zero(b.height) as int,
    )
}

/// The record survives assembly: its owner name, after default substitution,
/// is not ignored, and its bounds map was present.
pub open spec fn spec_admits(raw: RawWindowView, ignored: Seq<Seq<char>>) -> bool {
    !spec_is_ignored(opt_seq_or_empty(raw.owner_name), ignored) && raw.bounds is Some
}

/// The window record an admitted raw record produces, every failed field
/// replaced by its default.
pub open spec fn spec_window_of(raw: RawWindowView) -> WindowView {
    let b = spec_bounds_or_none(raw.bounds);
    WindowView {
        title: opt_seq_or_empty(raw.title),
        app_name: opt_seq_or_empty(raw.owner_name),
        bundle_identifier: raw.bundle_identifier,
        x: opt_i64_or_zero(b.x),
        y: opt_i64_or_zero(b.y),
        width: opt_i64_or_zero(b.width),
        height: opt_i64_or_zero(b.height),
        window_number: opt_i64_or_zero(raw.window_number),
        pid: opt_i32_or_zero(raw.owner_pid),
    }
}

/// The records the whole raw list produces, in input order.
pub open spec fn spec_assemble(raws: Seq<RawWindowView>, ignored: Seq<Seq<char>>) -> Seq<
    WindowView,
>
    decreases raws.len(),
{
    if raws.len() == 0 {
        Seq::empty()
    } else {
        let prefix = spec_assemble(raws.drop_last(), ignored);
        if spec_admits(raws.last(), ignored) {
            prefix.push(spec_window_of(raws.last()))
        } else {
            prefix
        }
    }
}

/// The window-system query returned no usable list; the whole pass is
/// skipped and the next trigger retries fresh.
#[derive(Clone, Copy, Debug, PartialEq, Eq, Structural)]
pub struct EnumerationError {}

impl EnumerationError {
    /// The failure's report text.
    pub fn message(&self) -> (s: String)
        ensures
            s@ == "Failed to get window list"@,
    {
        String::from_str("Failed to get window list")
    }
}

/// Builds the window records of one enumeration: fails only when the query
/// returned no list at all; otherwise applies per-field defaults, drops
/// records whose owner name is ignored or whose bounds map is missing, and
/// keeps the input order.
pub fn assemble_windows(query: Option<Vec<RawWindow>>, ignored_apps: &Vec<String>) -> (r: Result<
    Vec<WindowInfo>,
    EnumerationError,
>)
    requires
        query matches Some(raws) ==> forall|i: int|
            0 <= i < raws.deep_view().len() ==> raw_wf(#[trigger] raws.deep_view()[i]),
    ensures
        r is Err <==> query is None,
        query matches Some(raws) ==> r matches Ok(ws) && ws.deep_view() == spec_assemble(
            raws.deep_view(),
            ignored_apps.deep_view(),
        ),
        r matches Ok(ws) ==> forall|i: int|
            0 <= i < ws.deep_view().len() ==> (#[trigger] ws.deep_view()[i]).wf(),
{
    let raws = match query {
        None => {
            return Err(EnumerationError {});
        },
        Some(raws) => raws,
    };
    let ghost rv = raws.deep_view();
    let mut out: Vec<WindowInfo> = Vec::new();
    let mut i: usize = 0;
    while i < raws.len()
        invariant
            rv == raws.deep_view(),
            forall|j: int| 0 <= j < rv.len() ==> raw_wf(#[trigger] rv[j]),
            i <= raws@.len(),
            rv.len() == raws@.len(),
            out.deep_view() == spec_assemble(rv.subrange(0, i as int), ignored_apps.deep_view()),
            forall|j: int| 0 <= j < out.deep_view().len() ==> (#[trigger] out.deep_view()[j]).wf(),
        decreases raws@.len() - i,
    {
        let raw = &raws[i];
        proof {
            assert(rv[i as int] == raw.deep_view());
            assert(raw_wf(rv[i as int]));
        }
        let app_name = match &raw.owner_name {
            Some(s) => s.clone(),
            None => String::new(),
        };
        if !should_ignore_app(app_name.as_str(), ignored_apps) {
            match &raw.bounds {
                Some(b) => {
                    let title = match &raw.title {
                        Some(s) => s.clone(),
                        None => String::new(),
                    };
                    let bundle_identifier = match &raw.bundle_identifier {
                        Some(s) => Some(s.clone()),
                        None => None,
                    };
                    let x = match b.x {
                        Some(v) => v,
                        None => 0,
                    };
                    let y = match b.y {
                        Some(v) => v,
                        None => 0,
                    };
                    let width = match b.width {
                        Some(v) => v,
                        None => 0,
                    };
                    let height = match b.height {
                        Some(v) => v,
                        None => 0,
                    };
                    let window_number = match raw.window_number {
                        Some(v) => v,
                        None => 0,
                    };
                    let pid = match raw.owner_pid {
                        Some(v) => v,
                        None => 0,
                    };
                    let w = WindowInfo {
                        title,
                        app_name,
                        bundle_identifier,
                        x,
                        y,
                        width,
                        height,
                        window_number,
                        pid,
                    };
                    proof {
                        assert(w.deep_view() == spec_window_of(rv[i as int]));
                    }
                    out.push(w);
                    proof {
                        assert(out.deep_view() =~= spec_assemble(
                            rv.subrange(0, i as int),
                            ignored_apps.deep_view(),
                        ).push(spec_window_of(rv[i as int])));
                    }
                },
                None => {},
            }
        }
        proof {
            assert(rv.subrange(0, i + 1 as int).drop_last() =~= rv.subrange(0, i as int));
            assert(rv.subrange(0, i + 1 as int).last() == rv[i as int]);
        }
        i += 1;
    }
    proof {
        assert(rv.subrange(0, rv.len() as int) =~= rv);
    }
    Ok(out)
}

} // verus!
