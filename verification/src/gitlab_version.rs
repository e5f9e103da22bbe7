//! A normalized Gitlab version string, compared by exact equality.

use vstd::prelude::*;

verus! {

/// A Gitlab version, held as its normalized text (no leading 'v').
///
/// One instance comes from the newest stable release tag, another from the
/// running instance's own version report; the check compares the two for
/// exact string equality and nothing more.
#[derive(Debug)]
pub struct GitlabVersion {
    /// The version text, e.g. "13.9.1".
    version: String,
}

impl View for GitlabVersion {
    type V = Seq<char>;

    closed spec fn view(&self) -> Seq<char> {
        self.version@
    }
}

impl GitlabVersion {
    /// Wraps an already-normalized version string.
    pub fn new(version: String) -> (v: Self)
        ensures
            v@ == version@,
    {
        GitlabVersion { version }
    }

    /// The version text, for display and message building.
    pub fn text(&self) -> (r: &str)
        ensures
            r@ == self@,
    {
        self.version.as_str()
    }
}

impl PartialEq for GitlabVersion {
    fn eq(&self, other: &Self) -> (r: bool) {
        self.version == other.version
    }
}

impl vstd::std_specs::cmp::PartialEqSpecImpl for GitlabVersion {
    open spec fn obeys_eq_spec() -> bool {
        true
    }

    open spec fn eq_spec(&self, other: &Self) -> bool {
        self@ == other@
    }
}

} // verus!
