//! The texts shown in the tray menu for each profile.  Rendering the
//! menu itself is the caller's job; the labels are computed here.

use vstd::prelude::*;
use vstd::string::*;

use crate::types::ProfileStatus;

verus! {

/// The menu label for a profile when only its active flag is known: a
/// check mark before the name when active, full-width padding otherwise.
pub fn profile_menu_label(profile_name: &str, is_active: bool) -> (r: String)
    ensures
        is_active ==> r@ == "✅ "@ + profile_name@,
        !is_active ==> r@ == "　  "@ + profile_name@,
{
    if is_active {
        String::from_str("✅ ").concat(profile_name)
    } else {
        String::from_str("　  ").concat(profile_name)
    }
}

/// The menu label for a profile with a classified status: a check mark
/// for a full match, a cycle for a partial match, padding for no match,
/// and a cross for an error.
pub fn status_menu_label(profile_name: &str, status: &ProfileStatus) -> (r: String)
    ensures
        status is FullMatch ==> r@ == "✅ "@ + profile_name@,
        status is PartialMatch ==> r@ == "🔄 "@ + profile_name@,
        status is NoMatch ==> r@ == "　  "@ + profile_name@,
        status is Error ==> r@ == "❌ "@ + profile_name@,
{
    match status {
        ProfileStatus::FullMatch => String::from_str("✅ ").concat(profile_name),
        ProfileStatus::PartialMatch => String::from_str("🔄 ").concat(profile_name),
        ProfileStatus::NoMatch => String::from_str("　  ").concat(profile_name),
        ProfileStatus::Error(_) => String::from_str("❌ ").concat(profile_name),
    }
}

} // verus!
