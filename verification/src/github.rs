//! The webhook events and their parser.
//!
//! The payload carries no discriminant field, so an event is recognized
//! structurally, trying each shape in a fixed order: `Ping` when `zen` and
//! `hook_id` are present, then `Push` when `ref`, `after` and the
//! repository are, then `Release` when `action`, the release and the
//! repository are. A payload matching none of the shapes is a
//! [`BodyParsingError`].

use vstd::prelude::*;
use crate::errors::BodyParsingError;
use crate::strutil::str_eq;

verus! {

/// The repository information carried by push and release events.
pub struct RepositoryRef {
    pub name: String,
    pub clone_url: String,
}

/// Information about a release.
pub struct Release {
    pub tag_name: String,
}

/// Possible release actions that can be done.
#[derive(Clone, Copy, Debug, PartialEq, Eq, Structural)]
pub enum ReleaseAction {
    Published,
    Unpublished,
    Created,
    Edited,
    Deleted,
    PreReleased,
    Released,
}

/// The overarching webhook types.
pub enum Github {
    Ping { zen: String, hook_id: i64 },
    Push { reference: String, after: String, repository: RepositoryRef },
    Release { action: ReleaseAction, repository: RepositoryRef, release: Release },
}

impl Github {
    /// The name of the webhook kind.
    pub open spec fn spec_name(self) -> Seq<char> {
        match self {
            Github::Ping { .. } => "ping"@,
            Github::Push { .. } => "push"@,
            Github::Release { .. } => "release"@,
        }
    }

    /// Get the name of the webhook being used.
    pub fn name<'a>(&self) -> (r: &'a str)
        ensures
            r@ == self.spec_name(),
    {
        match self {
            Github::Ping { .. } => "ping",
            Github::Push { .. } => "push",
            Github::Release { .. } => "release",
        }
    }
}

/// The release action denoted by `s`, written in lower case, if any.
pub open spec fn spec_release_action(s: Seq<char>) -> Option<ReleaseAction> {
    if s == "published"@ {
        Some(ReleaseAction::Published)
    } else if s == "unpublished"@ {
        Some(ReleaseAction::Unpublished)
    } else if s == "created"@ {
        Some(ReleaseAction::Created)
    } else if s == "edited"@ {
        Some(ReleaseAction::Edited)
    } else if s == "deleted"@ {
        Some(ReleaseAction::Deleted)
    } else if s == "prereleased"@ {
        Some(ReleaseAction::PreReleased)
    } else if s == "released"@ {
        Some(ReleaseAction::Released)
    } else {
        None
    }
}

/// Parses the lower-case name of a release action.
pub fn release_action_of(s: &str) -> (r: Option<ReleaseAction>)
    ensures
        r == spec_release_action(s@),
{
    if str_eq(s, "published") {
        Some(ReleaseAction::Published)
    } else if str_eq(s, "unpublished") {
        Some(ReleaseAction::Unpublished)
    } else if str_eq(s, "created") {
        Some(ReleaseAction::Created)
    } else if str_eq(s, "edited") {
        Some(ReleaseAction::Edited)
    } else if str_eq(s, "deleted") {
        Some(ReleaseAction::Deleted)
    } else if str_eq(s, "prereleased") {
        Some(ReleaseAction::PreReleased)
    } else if str_eq(s, "released") {
        Some(ReleaseAction::Released)
    } else {
        None
    }
}

/// The top-level fields a webhook payload may carry, each `None` when
/// absent or of the wrong JSON kind.
pub struct RawEvent {
    pub zen: Option<String>,
    pub hook_id: Option<i64>,
    pub reference: Option<String>,
    pub after: Option<String>,
    pub action: Option<String>,
    pub tag_name: Option<String>,
    pub repo_name: Option<String>,
    pub clone_url: Option<String>,
}

/// The event the fields `f` denote: the shapes are tried in the fixed
/// order ping, push, release, and the first whose required fields are all
/// present wins; fields a shape does not require are ignored. `None` when
/// no shape fits (for a release, the action must also be a known one).
pub open spec fn spec_classify(f: RawEvent) -> Option<Github> {
    if f.zen is Some && f.hook_id is Some {
        Some(Github::Ping { zen: f.zen->0, hook_id: f.hook_id->0 })
    } else if f.reference is Some && f.after is Some && f.repo_name is Some && f.clone_url
        is Some {
        Some(
            Github::Push {
                reference: f.reference->0,
                after: f.after->0,
                repository: RepositoryRef { name: f.repo_name->0, clone_url: f.clone_url->0 },
            },
        )
    } else if f.action is Some && spec_release_action((f.action->0)@) is Some && f.tag_name
        is Some && f.repo_name is Some && f.clone_url is Some {
        Some(
            Github::Release {
                action: spec_release_action((f.action->0)@)->0,
                repository: RepositoryRef { name: f.repo_name->0, clone_url: f.clone_url->0 },
                release: Release { tag_name: f.tag_name->0 },
            },
        )
    } else {
        None
    }
}

/// Classifies the extracted fields into an event, by the fixed shape order
/// that [`spec_classify`] states.
pub fn classify(f: RawEvent) -> (r: Option<Github>)
    ensures
        r == spec_classify(f),
{
    let RawEvent { zen, hook_id, reference, after, action, tag_name, repo_name, clone_url } = f;
    if zen.is_some() && hook_id.is_some() {
        return Some(Github::Ping { zen: zen.unwrap(), hook_id: hook_id.unwrap() });
    }
    if reference.is_some() && after.is_some() && repo_name.is_some() && clone_url.is_some() {
        return Some(
            Github::Push {
                reference: reference.unwrap(),
                after: after.unwrap(),
                repository: RepositoryRef {
                    name: repo_name.unwrap(),
                    clone_url: clone_url.unwrap(),
                },
            },
        );
    }
    if action.is_some() && tag_name.is_some() && repo_name.is_some() && clone_url.is_some() {
        let act = release_action_of(action.unwrap().as_str());
        if act.is_some() {
            return Some(
                Github::Release {
                    action: act.unwrap(),
                    repository: RepositoryRef {
                        name: repo_name.unwrap(),
                        clone_url: clone_url.unwrap(),
                    },
                    release: Release { tag_name: tag_name.unwrap() },
                },
            );
        }
        return None;
    }
    None
}

/// The webhook fields that the payload bytes `raw` denote: `None` when
/// the bytes are not well-formed JSON, otherwise the top-level fields of
/// the three shapes, each `None` when absent or of the wrong JSON kind.
/// The reading is done by an outside crate and is a function of the bytes
/// alone, so it is named here and left without a definition.
pub uninterp spec fn webhook_fields(raw: Seq<u8>) -> Option<RawEvent>;

/// Relies on `serde_json::from_slice` and `serde_json::Value::get`,
/// `Value::as_str`, `Value::as_i64` (with `str::to_owned`): parses the
/// body and moves the shapes' fields out of it — a fixed function of the
/// bytes, named [`webhook_fields`].
#[verifier::external_body]
fn read_fields(raw: &[u8]) -> (r: Option<RawEvent>)
    ensures
        r == webhook_fields(raw@),
{
    let v: serde_json::Value = serde_json::from_slice(raw).ok()?;
    let s = |k: &str| Some(v.get(k)?.as_str()?.to_owned());
    let t = |p: &str, k: &str| Some(v.get(p)?.get(k)?.as_str()?.to_owned());
    Some(RawEvent {
        zen: s("zen"),
        hook_id: v.get("hook_id").and_then(serde_json::Value::as_i64),
        reference: s("ref"),
        after: s("after"),
        action: s("action"),
        tag_name: t("release", "tag_name"),
        repo_name: t("repository", "full_name"),
        clone_url: t("repository", "clone_url"),
    })
}

/// The event the payload bytes denote: the fields they carry, classified
/// in the fixed shape order of [`spec_classify`]; `None` for bytes that
/// are not JSON or whose fields fit no shape.
pub open spec fn spec_parse_event(raw: Seq<u8>) -> Option<Github> {
    match webhook_fields(raw) {
        Some(f) => spec_classify(f),
        None => None,
    }
}

/// Parses a raw webhook body: exactly the event its bytes denote, and a
/// [`BodyParsingError`] precisely when they denote none.
pub fn parse_event(raw: &[u8]) -> (r: Result<Github, BodyParsingError>)
    ensures
        match r {
            Ok(e) => spec_parse_event(raw@) == Some(e),
            Err(_) => spec_parse_event(raw@) is None,
        },
{
    match read_fields(raw) {
        None => Err(BodyParsingError),
        Some(f) => {
            match classify(f) {
                Some(e) => Ok(e),
                None => Err(BodyParsingError),
            }
        },
    }
}

} // verus!
