//! The check orchestrator: resolve the newest stable release, compare it with
//! what the instance reports, and decide whether a notification is due.

use vstd::prelude::*;
use vstd::string::StringExecFns;

use crate::error::BotError;
use crate::gitlab_tag::{latest_stable, GitlabTag};
use crate::gitlab_version::GitlabVersion;
use crate::text::strip_leading_v;

verus! {

/// The connection parameters of one check run.
///
/// All three are opaque credentials and addresses for the HTTP layer around
/// the library; the decision logic never inspects them.
#[derive(Debug)]
pub struct Bot {
    /// Base url of the Gitlab instance API.
    pub api: String,
    /// Gitlab API token presented to the instance.
    pub gitlab_token: String,
    /// Rocket Chat webhook token.
    pub rocket_token: String,
}

/// The notification text for an instance running `current` while `latest` is
/// the newest stable release: it embeds both version strings.
pub open spec fn mismatch_message(latest: Seq<char>, current: Seq<char>) -> Seq<char> {
    "New Gitlab version available: "@ + latest + " (instance is running "@ + current + ")"@
}

/// What one run decides, given what the two fetches returned.
///
/// The pipeline is linear: a failed tag fetch ends the run with that error;
/// a tag list with no stable entry ends it with `NotFoundError`; a failed
/// instance fetch ends it with that error; otherwise the two versions are
/// compared, and only a mismatch asks for a notification, carrying the
/// message to post. No notification is ever asked for on a failed run.
pub open spec fn run_outcome(
    tags: Result<Seq<GitlabTag>, BotError>,
    instance: Result<Seq<char>, BotError>,
) -> Result<Option<Seq<char>>, BotError> {
    match tags {
        Err(e) => Err(e),
        Ok(list) => match latest_stable(list) {
            None => Err(BotError::NotFoundError),
            Some(name) => match instance {
                Err(e) => Err(e),
                Ok(current) => if strip_leading_v(name) == current {
                    Ok(None)
                } else {
                    Ok(Some(mismatch_message(strip_leading_v(name), current)))
                },
            },
        },
    }
}

/// The fetched tag list, as `run_outcome` sees it.
pub open spec fn tags_view(tags: Result<Vec<GitlabTag>, BotError>) -> Result<
    Seq<GitlabTag>,
    BotError,
> {
    match tags {
        Ok(list) => Ok(list@),
        Err(e) => Err(e),
    }
}

/// The fetched instance version, as `run_outcome` sees it.
pub open spec fn instance_view(instance: Result<GitlabVersion, BotError>) -> Result<
    Seq<char>,
    BotError,
> {
    match instance {
        Ok(v) => Ok(v@),
        Err(e) => Err(e),
    }
}

/// A run's result, as `run_outcome` sees it.
pub open spec fn outcome_view(r: Result<Option<String>, BotError>) -> Result<
    Option<Seq<char>>,
    BotError,
> {
    match r {
        Ok(Some(message)) => Ok(Some(message@)),
        Ok(None) => Ok(None),
        Err(e) => Err(e),
    }
}

/// Builds the notification text embedding both version strings.
fn build_message(latest: &GitlabVersion, current: &GitlabVersion) -> (m: String)
    ensures
        m@ == mismatch_message(latest@, current@),
{
    let mut m = "New Gitlab version available: ".to_owned();
    m.append(latest.text());
    m.append(" (instance is running ");
    m.append(current.text());
    m.append(")");
    m
}

impl Bot {
    /// One check run over the two fetched responses.
    ///
    /// `tags` is what the release-listing fetch returned, `instance` what the
    /// instance-version fetch returned; each is an error when its HTTP call
    /// failed or its body did not parse. The run resolves the newest stable
    /// release, compares it with the instance's version, and returns
    /// `Ok(None)` when the instance is up to date, `Ok(Some(message))` when a
    /// notification with that text is due, and the first error of the
    /// pipeline otherwise.
    pub fn exec(
        &self,
        tags: Result<Vec<GitlabTag>, BotError>,
        instance: Result<GitlabVersion, BotError>,
    ) -> (r: Result<Option<String>, BotError>)
        ensures
            outcome_view(r) == run_outcome(tags_view(tags), instance_view(instance)),
    {
        let tag_list = match tags {
            Ok(list) => list,
            Err(e) => {
                return Err(e);
            },
        };
        let latest = match GitlabTag::get_latest_version(tag_list) {
            Ok(v) => v,
            Err(e) => {
                return Err(e);
            },
        };
        let current = match instance {
            Ok(v) => v,
            Err(e) => {
                return Err(e);
            },
        };
        if latest == current {
            Ok(None)
        } else {
            Ok(Some(build_message(&latest, &current)))
        }
    }
}

/// The run is idempotent: two runs over identical fetched responses decide
/// identically, message text included. The outcome is a function of the
/// responses alone, so no state carries from one run into the next.
pub proof fn lemma_run_idempotent(
    tags_first: Result<Seq<GitlabTag>, BotError>,
    instance_first: Result<Seq<char>, BotError>,
    tags_second: Result<Seq<GitlabTag>, BotError>,
    instance_second: Result<Seq<char>, BotError>,
)
    requires
        tags_first == tags_second,
        instance_first == instance_second,
    ensures
        run_outcome(tags_first, instance_first) == run_outcome(tags_second, instance_second),
{
}

} // verus!
