//! Release tags and the latest-stable-release resolver.

use vstd::prelude::*;

use crate::error::BotError;
use crate::gitlab_version::GitlabVersion;
use crate::text::{
    is_prerelease, lemma_lex_le_total, lemma_lex_le_trans, seq_lex_le, spec_is_prerelease,
    str_lex_le, strip_leading_v, strip_v,
};

verus! {

/// One git tag name as listed by the release endpoint, e.g. "v13.9.3" or
/// "v14.0.0-rc1".
pub struct GitlabTag {
    /// The raw tag name.
    name: String,
}

impl View for GitlabTag {
    type V = Seq<char>;

    closed spec fn view(&self) -> Seq<char> {
        self.name@
    }
}

impl GitlabTag {
    /// Wraps a raw tag name.
    pub fn new(name: String) -> (t: Self)
        ensures
            t@ == name@,
    {
        GitlabTag { name }
    }

    /// The raw tag name.
    pub fn name(&self) -> (r: &str)
        ensures
            r@ == self@,
    {
        self.name.as_str()
    }
}

/// The name of the newest stable tag in the list, or `None` when every tag
/// carries the release-candidate marker.
///
/// "Newest" means greatest in plain lexicographic string order, the order the
/// tag ranking is specified with; it is not semantic-version aware ("v10.0.0"
/// ranks below "v9.0.0").
pub open spec fn latest_stable(tags: Seq<GitlabTag>) -> Option<Seq<char>>
    decreases tags.len(),
{
    if tags.len() == 0 {
        None
    } else {
        let rest = latest_stable(tags.drop_last());
        let last = tags.last()@;
        if spec_is_prerelease(last) {
            rest
        } else {
            match rest {
                None => Some(last),
                Some(m) => if seq_lex_le(m, last) {
                    Some(last)
                } else {
                    Some(m)
                },
            }
        }
    }
}

/// `m` is the name of a stable tag of the list, and no stable tag of the list
/// ranks above it lexicographically.
pub open spec fn is_greatest_stable(tags: Seq<GitlabTag>, m: Seq<char>) -> bool {
    &&& exists|i: int| 0 <= i < tags.len() && tags[i]@ == m
    &&& !spec_is_prerelease(m)
    &&& forall|i: int|
        0 <= i < tags.len() && !spec_is_prerelease(#[trigger] tags[i]@) ==> seq_lex_le(tags[i]@, m)
}

/// Every tag of the list carries the release-candidate marker.
pub open spec fn all_prerelease(tags: Seq<GitlabTag>) -> bool {
    forall|i: int| 0 <= i < tags.len() ==> spec_is_prerelease(#[trigger] tags[i]@)
}

/// The resolver law: on any tag list with at least one stable entry, the
/// resolved name is a stable entry of the list and ranks at least as high as
/// every other stable entry; with no stable entry, resolution yields nothing.
pub proof fn lemma_latest_stable_greatest(tags: Seq<GitlabTag>)
    ensures
        latest_stable(tags) matches Some(m) ==> is_greatest_stable(tags, m),
        latest_stable(tags) is None ==> all_prerelease(tags),
    decreases tags.len(),
{
    if tags.len() == 0 {
    } else {
        let prefix = tags.drop_last();
        let last = tags.last()@;
        lemma_latest_stable_greatest(prefix);
        assert(tags[tags.len() - 1]@ == last);
        assert(forall|i: int| 0 <= i < prefix.len() ==> prefix[i] == tags[i]);
        if !spec_is_prerelease(last) {
            lemma_lex_le_total(last, last);
            match latest_stable(prefix) {
                None => {
                    assert(latest_stable(tags) == Some(last));
                },
                Some(m) => {
                    lemma_lex_le_total(m, last);
                    if seq_lex_le(m, last) {
                        assert forall|i: int|
                            0 <= i < tags.len() && !spec_is_prerelease(#[trigger] tags[i]@)
                        implies seq_lex_le(tags[i]@, last) by {
                            if i < tags.len() - 1 {
                                lemma_lex_le_trans(tags[i]@, m, last);
                            }
                        }
                    } else {
                        let j = choose|j: int| 0 <= j < prefix.len() && prefix[j]@ == m;
                        assert(tags[j]@ == m);
                    }
                },
            }
        }
    }
}

impl GitlabTag {
    /// Resolves the newest stable release among the fetched tags.
    ///
    /// Tags whose name contains "rc" are discarded; of the rest the
    /// lexicographically greatest name wins and is normalized by stripping
    /// its leading 'v'. When no tag survives the filter the resolution fails
    /// with `NotFoundError`.
    pub fn get_latest_version(tags: Vec<GitlabTag>) -> (r: Result<GitlabVersion, BotError>)
        ensures
            latest_stable(tags@) matches Some(name) ==> (r matches Ok(v) && v@
                == strip_leading_v(name)),
            latest_stable(tags@) is None ==> r == Err::<GitlabVersion, BotError>(
                BotError::NotFoundError,
            ),
    {
        let n = tags.len();
        let mut best: Option<usize> = None;
        let mut idx: usize = 0;
        while idx < n
            invariant
                n == tags@.len(),
                idx <= n,
                best matches Some(j) ==> (j < idx && latest_stable(tags@.take(idx as int))
                    == Some(tags@[j as int]@)),
                best is None ==> latest_stable(tags@.take(idx as int)) is None,
            decreases n - idx,
        {
            proof {
                assert(tags@.take(idx as int + 1).drop_last() =~= tags@.take(idx as int));
                assert(tags@.take(idx as int + 1).last() == tags@[idx as int]);
            }
            let stable = !is_prerelease(tags[idx].name());
            if stable {
                match best {
                    None => {
                        best = Some(idx);
                    },
                    Some(j) => {
                        if str_lex_le(tags[j].name(), tags[idx].name()) {
                            best = Some(idx);
                        }
                    },
                }
            }
            idx = idx + 1;
        }
        proof {
            assert(tags@.take(n as int) =~= tags@);
        }
        match best {
            None => Err(BotError::NotFoundError),
            Some(j) => Ok(GitlabVersion::new(strip_v(tags[j].name()))),
        }
    }
}

} // verus!
