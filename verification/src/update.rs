//! The decision of the update check: whether the latest published release
//! differs from the running one.

use crate::text::same_text;
use vstd::prelude::*;
use vstd::string::*;

verus! {

/// The tag under which `version` is released: the version behind a `v`.
pub open spec fn release_tag(version: Seq<char>) -> Seq<char> {
    "v"@ + version
}

/// The tag to announce: the latest one, unless it is the tag of the running
/// version.
pub open spec fn announced(latest_tag: Seq<char>, current_version: Seq<char>) -> Option<
    Seq<char>,
> {
    if latest_tag == release_tag(current_version) {
        None
    } else {
        Some(latest_tag)
    }
}

/// Decides whether to announce the release tagged `latest_tag` to a user who
/// runs `current_version`.
pub fn pending_update(latest_tag: &str, current_version: &str) -> (r: Option<String>)
    ensures
        match r {
            Some(tag) => announced(latest_tag@, current_version@) == Some(tag@),
            None => announced(latest_tag@, current_version@) is None,
        },
{
    let mut current_tag = "v".to_owned();
    current_tag.append(current_version);
    if same_text(latest_tag, current_tag.as_str()) {
        None
    } else {
        Some(latest_tag.to_owned())
    }
}

} // verus!
