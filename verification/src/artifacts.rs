//! Which outputs a build is asked for.

use vstd::prelude::*;
use vstd::string::*;

verus! {

/// Whether `name` is one of `artifacts`.
pub open spec fn requested(artifacts: Seq<&str>, name: Seq<char>) -> bool {
    exists|i: int| 0 <= i < artifacts.len() && (#[trigger] artifacts[i])@ == name
}

/// What a build writes.
#[derive(Clone, Copy, Debug, PartialEq, Eq, Structural)]
pub struct Plan {
    /// The JSON document of the crate.
    pub json: bool,
    /// The static files of the front end.
    pub assets: bool,
}

/// Whether `name` is one of `artifacts`, letter for letter.
pub fn is_requested(artifacts: &[&str], name: &str) -> (yes: bool)
    ensures
        yes == requested(artifacts@, name@),
{
    let wanted = String::from_str(name);
    let mut i: usize = 0;
    while i < artifacts.len()
        invariant
            i <= artifacts.len(),
            wanted@ == name@,
            forall|j: int| 0 <= j < i ==> (#[trigger] artifacts@[j])@ != name@,
        decreases artifacts.len() - i,
    {
        if String::from_str(artifacts[i]) == wanted {
            return true;
        }
        i += 1;
    }
    false
}

/// The outputs that `artifacts` asks for: the document for `json`, the
/// static files for `assets`. Other names ask for nothing.
pub fn plan(artifacts: &[&str]) -> (plan: Plan)
    ensures
        plan.json == requested(artifacts@, "json"@),
        plan.assets == requested(artifacts@, "assets"@),
{
    Plan { json: is_requested(artifacts, "json"), assets: is_requested(artifacts, "assets") }
}

} // verus!
