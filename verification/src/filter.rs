//! Ignore filter: drops windows whose owner application name contains, after
//! lower-casing, any entry of a fixed set of substrings that identify system
//! chrome, the overlay itself, and known overlay tools.

use crate::text::{contains_substring, is_substring};
use vstd::prelude::*;

verus! {

/// Lower-cased form of a character sequence, as `str::to_lowercase` computes
/// it; the result is a function of the characters alone.
pub uninterp spec fn lower_of(s: Seq<char>) -> Seq<char>;

/// Relies on `str::to_lowercase`: returns the lower-cased form of `s`, which
/// depends on the characters of `s` alone.
#[verifier::external_body]
fn to_lowercase(s: &str) -> (r: String)
    ensures
        r@ == lower_of(s@),
{
    s.to_lowercase()
}

/// An application name is ignored when some entry of the ignore set occurs as
/// a substring of its lower-cased form.
pub open spec fn spec_is_ignored(app_name: Seq<char>, ignored: Seq<Seq<char>>) -> bool {
    exists|k: int| 0 <= k < ignored.len() && is_substring(#[trigger] ignored[k], lower_of(app_name))
}

/// Lower-cases the application name and tests it against every entry of the
/// ignore set by substring containment.
pub fn should_ignore_app(app_name: &str, ignored_apps: &Vec<String>) -> (r: bool)
    ensures
        r == spec_is_ignored(app_name@, ignored_apps.deep_view()),
{
    let lower = to_lowercase(app_name);
    let mut k: usize = 0;
    while k < ignored_apps.len()
        invariant
            k <= ignored_apps.len(),
            lower@ == lower_of(app_name@),
            forall|j: int|
                0 <= j < k ==> !is_substring(
                    #[trigger] ignored_apps.deep_view()[j],
                    lower_of(app_name@),
                ),
        decreases ignored_apps.len() - k,
    {
        if contains_substring(lower.as_str(), ignored_apps[k].as_str()) {
            proof {
                assert(0 <= k < ignored_apps.deep_view().len() && is_substring(
                    ignored_apps.deep_view()[k as int],
                    lower_of(app_name@),
                ));
            }
            return true;
        }
        k += 1;
    }
    false
}

/// The characters of the fixed ignore set, in the order the builder inserts
/// them; every entry is already lower-cased.
pub open spec fn spec_ignored_apps() -> Seq<Seq<char>> {
    seq![
        "notification center"@,
        "notificationcenter"@,
        "sketchybar"@,
        "borders"@,
        "control center"@,
        "controlcenter"@,
        "dock"@,
        "menubar"@,
        "spotlight"@,
        "screen masking"@,
        "finder"@,
        "window server"@,
    ]
}

/// Builds the fixed ignore set.
pub fn get_ignored_apps() -> (r: Vec<String>)
    ensures
        r.deep_view() == spec_ignored_apps(),
{
    let mut ignored: Vec<String> = Vec::new();
    ignored.push(String::from_str("notification center"));
    ignored.push(String::from_str("notificationcenter"));
    ignored.push(String::from_str("sketchybar"));
    ignored.push(String::from_str("borders"));
    ignored.push(String::from_str("control center"));
    ignored.push(String::from_str("controlcenter"));
    ignored.push(String::from_str("dock"));
    ignored.push(String::from_str("menubar"));
    ignored.push(String::from_str("spotlight"));
    ignored.push(String::from_str("screen masking"));
    ignored.push(String::from_str("finder"));
    ignored.push(String::from_str("window server"));
    proof {
        assert(ignored.deep_view() =~= spec_ignored_apps());
    }
    ignored
}

} // verus!
