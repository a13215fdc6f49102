//! The webhook gateway: authenticate the request, parse the event, consult
//! the policy, drive the sync engine, and on success produce the deployment
//! job to enqueue.

use vstd::prelude::*;
use vstd::string::{StrSliceExecFns, StringExecFns};
use crate::errors::RejectionKind;
use crate::github::{parse_event, spec_parse_event, Github, ReleaseAction, RepositoryRef};
use crate::mirror::{mirror_path, spec_folder_of};
use crate::policy::{spec_deployable, is_deployable, Event};
use crate::processor::Message;
use crate::repo::sync_repository;
use crate::signature::{signature_accepted, verify_signature};
use crate::strutil::str_eq;

verus! {

/// The branch a push reference names: the reference with every leading
/// `refs/heads/` stripped.
pub open spec fn spec_strip_heads(s: Seq<char>) -> Seq<char>
    decreases s.len(),
{
    if s.len() >= 11 && s.subrange(0, 11) == "refs/heads/"@ {
        spec_strip_heads(s.skip(11))
    } else {
        s
    }
}

/// Strips the leading `refs/heads/` off a push reference, repeatedly, and
/// returns the branch name that remains.
pub fn branch_of_reference(reference: &str) -> (r: String)
    ensures
        r@ == spec_strip_heads(reference@),
    decreases reference@.len(),
{
    let n = reference.unicode_len();
    proof {
        reveal_strlit("refs/heads/");
    }
    if n >= 11 {
        let head = reference.substring_char(0, 11);
        if str_eq(head, "refs/heads/") {
            let tail = reference.substring_char(11, n);
            proof {
                assert(tail@ =~= reference@.skip(11));
            }
            let r = branch_of_reference(tail);
            return r;
        }
    }
    reference.to_owned()
}

/// What the gateway decides to do with an event.
pub enum RouteDecision {
    /// Acknowledge and do nothing: a ping, or a release that was not
    /// released.
    Acknowledge,
    /// The policy forbids deploying this event; carries the repository,
    /// the branch (for a push) and the event kind, so the rejection can be
    /// logged as a warning naming them.
    Forbidden { repository: RepositoryRef, branch: Option<String>, hook: String },
    /// Synchronize the mirror: fetch this refspec, and for a push hard
    /// reset to this exact commit afterwards.
    Sync { fetch_refspec: String, checkout_after: Option<String>, repository: RepositoryRef },
}

/// The kind of decision the gateway takes, as a pure function of the event
/// and the rules: pings are acknowledged; a push synchronizes when the
/// policy allows its repository and branch; a release synchronizes only
/// when its action is `Released` and the policy allows its repository with
/// no branch, and is acknowledged when its action is anything else.
pub enum RouteKind {
    Acknowledge,
    Forbidden,
    Sync,
}

/// The decision kind for `event` under `rules`.
pub open spec fn spec_route_kind(event: Github, rules: Seq<Event>) -> RouteKind {
    match event {
        Github::Ping { .. } => RouteKind::Acknowledge,
        Github::Push { reference, repository, .. } => {
            if spec_deployable(rules, repository.name@, Some(spec_strip_heads(reference@))) {
                RouteKind::Sync
            } else {
                RouteKind::Forbidden
            }
        },
        Github::Release { action, repository, .. } => {
            if action != ReleaseAction::Released {
                RouteKind::Acknowledge
            } else if spec_deployable(rules, repository.name@, None) {
                RouteKind::Sync
            } else {
                RouteKind::Forbidden
            }
        },
    }
}

/// The decision kind a decision belongs to.
pub open spec fn spec_decision_kind(d: RouteDecision) -> RouteKind {
    match d {
        RouteDecision::Acknowledge => RouteKind::Acknowledge,
        RouteDecision::Forbidden { .. } => RouteKind::Forbidden,
        RouteDecision::Sync { .. } => RouteKind::Sync,
    }
}

/// Routes one event: the decision kind follows [`spec_route_kind`]; when
/// the decision is to synchronize, a push fetches its own reference and
/// afterwards checks out the exact pushed commit, while a release fetches
/// the tag reference `refs/tags/` + the tag name and has no checkout step.
pub fn route_event(event: Github, rules: &Vec<Event>) -> (d: RouteDecision)
    ensures
        spec_decision_kind(d) == spec_route_kind(event, rules@),
        event matches Github::Push { reference, after, repository } ==> (spec_route_kind(
            event,
            rules@,
        ) is Sync ==> (d matches RouteDecision::Sync {
            fetch_refspec,
            checkout_after,
            repository: rp,
        } && fetch_refspec == reference && checkout_after == Some(after) && rp == repository)),
        event matches Github::Release { action, repository, release } ==> (spec_route_kind(
            event,
            rules@,
        ) is Sync ==> (d matches RouteDecision::Sync {
            fetch_refspec,
            checkout_after,
            repository: rp,
        } && fetch_refspec@ == "refs/tags/"@ + release.tag_name@ && checkout_after is None && rp
            == repository)),
        event matches Github::Push { reference, repository, .. } ==> (spec_route_kind(
            event,
            rules@,
        ) is Forbidden ==> (d matches RouteDecision::Forbidden { repository: rp, branch, hook }
            && rp == repository && (branch matches Some(b) && b@ == spec_strip_heads(reference@))
            && hook@ == "push"@)),
        event matches Github::Release { repository, .. } ==> (spec_route_kind(
            event,
            rules@,
        ) is Forbidden ==> (d matches RouteDecision::Forbidden { repository: rp, branch, hook }
            && rp == repository && branch is None && hook@ == "release"@)),
{
    match event {
        Github::Ping { .. } => RouteDecision::Acknowledge,
        Github::Push { reference, after, repository } => {
            let branch = branch_of_reference(reference.as_str());
            if is_deployable(rules, &repository.name, Some(branch.as_str())) {
                RouteDecision::Sync {
                    fetch_refspec: reference,
                    checkout_after: Some(after),
                    repository,
                }
            } else {
                RouteDecision::Forbidden {
                    repository,
                    branch: Some(branch),
                    hook: String::from_str("push"),
                }
            }
        },
        Github::Release { action, repository, release } => {
            if !matches!(action, ReleaseAction::Released) {
                RouteDecision::Acknowledge
            } else if is_deployable(rules, &repository.name, None) {
                let refspec = String::from_str("refs/tags/").concat(release.tag_name.as_str());
                RouteDecision::Sync {
                    fetch_refspec: refspec,
                    checkout_after: None,
                    repository,
                }
            } else {
                RouteDecision::Forbidden {
                    repository,
                    branch: None,
                    hook: String::from_str("release"),
                }
            }
        },
    }
}

/// A release whose action is anything but `Released` is only acknowledged:
/// its decision kind is never to synchronize, so no deployment job can
/// arise from it.
pub proof fn lemma_non_released_is_acknowledged(event: Github, rules: Seq<Event>)
    requires
        event matches Github::Release { action, .. } && action != ReleaseAction::Released,
    ensures
        spec_route_kind(event, rules) == RouteKind::Acknowledge,
{
}

/// The repository name an event speaks of (the empty name for a ping,
/// which names none).
pub open spec fn spec_event_repo_name(event: Github) -> Seq<char> {
    match event {
        Github::Ping { .. } => Seq::empty(),
        Github::Push { repository, .. } => repository.name@,
        Github::Release { repository, .. } => repository.name@,
    }
}

/// Carries out the gateway's decision on an already-authenticated, parsed
/// event: an acknowledged event produces nothing; a policy rejection is the
/// forbidden outcome; otherwise the mirror under `mirror_root` is
/// synchronized, and on success the deployment job for that mirror is
/// returned, naming exactly the event's repository and its mirror path.
pub fn process_event(event: Github, rules: &Vec<Event>, mirror_root: &str) -> (r: Result<
    Option<Message>,
    RejectionKind,
>)
    ensures
        spec_route_kind(event, rules@) is Acknowledge ==> (r matches Ok(j) && j is None),
        spec_route_kind(event, rules@) is Forbidden ==> (r matches Err(k) && k matches
            RejectionKind::Undeployable { repository: rn, .. } && rn@ == spec_event_repo_name(
            event,
        )),
        spec_route_kind(event, rules@) is Sync ==> match r {
            Ok(j) => j matches Some(job) && job.path@ == mirror_root@ + seq!['/']
                + spec_folder_of(spec_event_repo_name(event)) && job.repository@
                == spec_event_repo_name(event),
            Err(k) => k is Git,
        },
{
    match route_event(event, rules) {
        RouteDecision::Acknowledge => Ok(None),
        RouteDecision::Forbidden { repository, branch, hook } => Err(
            RejectionKind::Undeployable { repository: repository.name, branch, hook },
        ),
        RouteDecision::Sync { fetch_refspec, checkout_after, repository } => {
            let path = mirror_path(mirror_root, repository.name.as_str());
            match sync_repository(
                path.as_str(),
                repository.clone_url.as_str(),
                fetch_refspec.as_str(),
                &checkout_after,
            ) {
                Err(e) => Err(RejectionKind::Git(e)),
                Ok(_outcome) => Ok(Some(Message { path, repository: repository.name })),
            }
        },
    }
}

/// Handles one webhook delivery, from the raw bytes up: the signature is
/// checked first, against the exact bytes received and before any parsing —
/// a request that fails it is rejected with zero side effects; then the
/// body is parsed, the policy consulted, the mirror synchronized, and on
/// success the job to enqueue is returned (`None` for an event that is
/// acknowledged without deploying). Bytes that denote no event are exactly
/// the body-parsing rejection; an event's fate follows its route kind, as
/// for [`process_event`]. The length bounds are machine limits of the
/// underlying HMAC.
pub fn handle_webhook(
    raw_body: &[u8],
    signature_header: &str,
    secret: &[u8],
    rules: &Vec<Event>,
    mirror_root: &str,
) -> (r: Result<Option<Message>, RejectionKind>)
    requires
        raw_body@.len() <= 0xffff_ffff,
        secret@.len() <= 0xffff_ffff,
    ensures
        !signature_accepted(signature_header@, secret@, raw_body@) ==> (r matches Err(k) && k
            is Signature),
        signature_accepted(signature_header@, secret@, raw_body@) ==> match spec_parse_event(
            raw_body@,
        ) {
            None => (r matches Err(k) && k is BodyParsing),
            Some(event) => {
                &&& spec_route_kind(event, rules@) is Acknowledge ==> (r matches Ok(j) && j
                    is None)
                &&& spec_route_kind(event, rules@) is Forbidden ==> (r matches Err(k) && k
                    is Undeployable)
                &&& spec_route_kind(event, rules@) is Sync ==> match r {
                    Ok(j) => j matches Some(job) && job.path@ == mirror_root@ + seq!['/']
                        + spec_folder_of(spec_event_repo_name(event)) && job.repository@
                        == spec_event_repo_name(event),
                    Err(k) => k is Git,
                }
            },
        },
        r matches Ok(j) ==> (j matches Some(job) ==> job.path@ == mirror_root@ + seq!['/']
            + spec_folder_of(job.repository@)),
{
    match verify_signature(raw_body, signature_header, secret) {
        Err(_) => Err(RejectionKind::Signature),
        Ok(()) => {
            match parse_event(raw_body) {
                Err(_) => Err(RejectionKind::BodyParsing),
                Ok(event) => {
                    let r = process_event(event, rules, mirror_root);
                    proof {
                        let rk = spec_route_kind(event, rules@);
                        assert(rk is Acknowledge || rk is Forbidden || rk is Sync);
                    }
                    r
                },
            }
        },
    }
}

} // verus!
