use autodeploy::errors::RejectionKind;
use autodeploy::gateway::handle_webhook;
use autodeploy::policy::{Action, Event, Mode};
use autodeploy::mirror::mirror_path;
use autodeploy::repo::{sync_repository, MergeKind, MergeOutcome};

fn scratch(name: &str) -> String {
    format!("/tmp/autodeploy-{}-{}", name, uuid::Uuid::new_v4())
}

fn init_repo(path: &str) -> git2::Repository {
    let repo = git2::Repository::init(path).unwrap();
    {
        let mut cfg = repo.config().unwrap();
        cfg.set_str("user.name", "tester").unwrap();
        cfg.set_str("user.email", "tester@example.test").unwrap();
    }
    repo
}

/// Commits one file on the given branch, on top of `parent` if any.
fn commit_file(
    repo: &git2::Repository,
    branch: &str,
    parent: Option<git2::Oid>,
    file: &str,
    content: &str,
    msg: &str,
) -> git2::Oid {
    let blob = repo.blob(content.as_bytes()).unwrap();
    let base_tree = parent.map(|p| repo.find_commit(p).unwrap().tree().unwrap());
    let mut tb = repo.treebuilder(base_tree.as_ref()).unwrap();
    tb.insert(file, blob, 0o100644).unwrap();
    let tree = repo.find_tree(tb.write().unwrap()).unwrap();
    let sig = git2::Signature::now("tester", "tester@example.test").unwrap();
    let parents: Vec<git2::Commit> =
        parent.map(|p| repo.find_commit(p).unwrap()).into_iter().collect();
    let parent_refs: Vec<&git2::Commit> = parents.iter().collect();
    let refname = format!("refs/heads/{}", branch);
    repo.commit(Some(&refname), &sig, &sig, msg, &tree, &parent_refs).unwrap()
}

fn head_commit(path: &str) -> git2::Oid {
    let repo = git2::Repository::open(path).unwrap();
    let oid = repo.head().unwrap().target().unwrap();
    oid
}

#[test]
fn fresh_mirror_first_push_fast_forwards_to_after() {
    let origin_dir = scratch("origin");
    let origin = init_repo(&origin_dir);
    let c1 = commit_file(&origin, "main", None, "file.txt", "one", "c1");

    let root = scratch("mirrors");
    let path = mirror_path(&root, "octo/hello");
    let report =
        sync_repository(&path, &origin_dir, "refs/heads/main", &Some(c1.to_string())).unwrap();
    assert_eq!(report.outcome, MergeOutcome::FastForward);
    assert_eq!(report.kind, MergeKind::FastForward);

    // the mirror exists, its head is exactly the pushed commit, and the
    // working tree matches it
    let mirror = git2::Repository::open(&path).unwrap();
    assert_eq!(mirror.head().unwrap().target().unwrap(), c1);
    let statuses = mirror.statuses(None).unwrap();
    assert!(statuses.is_empty());
}

#[test]
fn second_descendant_push_fast_forwards_to_the_new_tip() {
    let origin_dir = scratch("origin");
    let origin = init_repo(&origin_dir);
    let c1 = commit_file(&origin, "main", None, "file.txt", "one", "c1");

    let root = scratch("mirrors");
    let path = mirror_path(&root, "octo/hello");
    sync_repository(&path, &origin_dir, "refs/heads/main", &Some(c1.to_string())).unwrap();

    let c2 = commit_file(&origin, "main", Some(c1), "file.txt", "two", "c2");
    let report =
        sync_repository(&path, &origin_dir, "refs/heads/main", &Some(c2.to_string())).unwrap();
    assert_eq!(report.outcome, MergeOutcome::FastForward);
    assert_eq!(report.kind, MergeKind::FastForward);
    assert_eq!(head_commit(&path), c2);
}

#[test]
fn replaying_the_same_push_is_a_no_op() {
    let origin_dir = scratch("origin");
    let origin = init_repo(&origin_dir);
    let c1 = commit_file(&origin, "main", None, "file.txt", "one", "c1");

    let root = scratch("mirrors");
    let path = mirror_path(&root, "octo/hello");
    sync_repository(&path, &origin_dir, "refs/heads/main", &Some(c1.to_string())).unwrap();
    let report =
        sync_repository(&path, &origin_dir, "refs/heads/main", &Some(c1.to_string())).unwrap();
    assert_eq!(report.outcome, MergeOutcome::NoOp);
    assert_eq!(report.kind, MergeKind::UpToDate);
    assert_eq!(head_commit(&path), c1);
}

#[test]
fn diverging_histories_without_overlap_merge_with_two_parents() {
    let origin_dir = scratch("origin");
    let origin = init_repo(&origin_dir);
    let c1 = commit_file(&origin, "main", None, "base.txt", "base", "c1");

    let root = scratch("mirrors");
    let path = mirror_path(&root, "octo/hello");
    sync_repository(&path, &origin_dir, "refs/heads/main", &Some(c1.to_string())).unwrap();

    // the mirror and the origin advance independently, touching
    // different files
    let mirror = init_repo(&path);
    let m2 = commit_file(&mirror, "main", Some(c1), "local.txt", "local", "m2");
    let r2 = commit_file(&origin, "main", Some(c1), "remote.txt", "remote", "r2");

    let report = sync_repository(&path, &origin_dir, "refs/heads/main", &None).unwrap();
    assert_eq!(report.outcome, MergeOutcome::NormalMergeCommitted);
    assert_eq!(report.kind, MergeKind::Normal);
    assert!(!report.conflicted);

    let merged = git2::Repository::open(&path).unwrap();
    let head = merged.head().unwrap().peel_to_commit().unwrap();
    assert_eq!(head.parent_count(), 2);
    let parents: Vec<git2::Oid> = head.parent_ids().collect();
    assert!(parents.contains(&m2));
    assert!(parents.contains(&r2));
}

#[test]
fn diverging_histories_with_conflicts_commit_nothing() {
    let origin_dir = scratch("origin");
    let origin = init_repo(&origin_dir);
    let c1 = commit_file(&origin, "main", None, "base.txt", "base", "c1");

    let root = scratch("mirrors");
    let path = mirror_path(&root, "octo/hello");
    sync_repository(&path, &origin_dir, "refs/heads/main", &Some(c1.to_string())).unwrap();

    // both sides rewrite the same file differently
    let mirror = init_repo(&path);
    let m2 = commit_file(&mirror, "main", Some(c1), "base.txt", "local words", "m2");
    let _r2 = commit_file(&origin, "main", Some(c1), "base.txt", "remote words", "r2");

    let report = sync_repository(&path, &origin_dir, "refs/heads/main", &None).unwrap();
    assert_eq!(report.outcome, MergeOutcome::NormalMergeConflicted);
    assert_eq!(report.kind, MergeKind::Normal);
    assert!(report.conflicted);

    // no merge commit was created: the head still points at the local tip
    assert_eq!(head_commit(&path), m2);
}

#[test]
fn fetch_failure_surfaces_as_a_git_error() {
    let root = scratch("mirrors");
    let path = mirror_path(&root, "octo/hello");
    let gone = scratch("no-such-origin");
    let r = sync_repository(&path, &gone, "refs/heads/main", &None);
    assert!(r.is_err());
}

fn signature_header(secret: &[u8], body: &[u8]) -> String {
    let key = ring::hmac::Key::new(ring::hmac::HMAC_SHA256, secret);
    let tag = ring::hmac::sign(&key, body);
    format!("sha256={}", hex::encode(tag.as_ref()))
}

#[test]
fn webhook_push_end_to_end_creates_the_mirror_and_the_job() {
    let origin_dir = scratch("origin");
    let origin = init_repo(&origin_dir);
    let c1 = commit_file(&origin, "main", None, "file.txt", "one", "c1");

    let root = scratch("mirrors");
    let secret = b"it's a secret to everybody";
    let body = format!(
        r#"{{"ref":"refs/heads/main","after":"{}","repository":{{"full_name":"octo/hello","clone_url":"{}"}}}}"#,
        c1, origin_dir
    );
    let header = signature_header(secret, body.as_bytes());
    let rules = Vec::new();

    let job = handle_webhook(body.as_bytes(), &header, secret, &rules, &root)
        .expect("an authenticated, allowed push succeeds")
        .expect("a synchronized push produces a job");
    assert_eq!(job.repository, "octo/hello");
    assert_eq!(job.path, format!("{}/octo__hello", root));
    assert_eq!(head_commit(&job.path), c1);
}

#[test]
fn webhook_with_bad_signature_has_no_side_effects() {
    let root = scratch("mirrors");
    let secret = b"right";
    let body = br#"{"ref":"refs/heads/main","after":"a","repository":{"full_name":"octo/hello","clone_url":"u"}}"#;
    let header = signature_header(b"wrong", body);
    match handle_webhook(body, &header, secret, &Vec::new(), &root) {
        Err(RejectionKind::Signature) => {}
        _ => panic!("a bad signature is rejected as such"),
    }
    // no mirror was created
    assert!(git2::Repository::open(&format!("{}/octo__hello", root)).is_err());
}

#[test]
fn webhook_release_not_released_produces_no_job() {
    let root = scratch("mirrors");
    let secret = b"k";
    let body = br#"{"action":"published","release":{"tag_name":"v1"},"repository":{"full_name":"octo/hello","clone_url":"u"}}"#;
    let header = signature_header(secret, body);
    let job = handle_webhook(body, &header, secret, &Vec::new(), &root).unwrap();
    assert!(job.is_none());
    assert!(git2::Repository::open(&format!("{}/octo__hello", root)).is_err());
}

#[test]
fn webhook_forbidden_push_is_rejected_without_sync() {
    let root = scratch("mirrors");
    let secret = b"k";
    let body = br#"{"ref":"refs/heads/dev","after":"a","repository":{"full_name":"octo/hello","clone_url":"u"}}"#;
    let header = signature_header(secret, body);
    let rules =
        vec![Event { action: Action::Push { branch: "main".to_string() }, mode: Mode::All }];
    match handle_webhook(body, &header, secret, &rules, &root) {
        Err(RejectionKind::Undeployable { repository, branch, .. }) => {
            assert_eq!(repository, "octo/hello");
            assert_eq!(branch, Some("dev".to_string()));
        }
        _ => panic!("a push to a branch no rule allows is forbidden"),
    }
    assert!(git2::Repository::open(&format!("{}/octo__hello", root)).is_err());
}

#[test]
fn webhook_released_release_fetches_the_tag() {
    let origin_dir = scratch("origin");
    let origin = init_repo(&origin_dir);
    let c1 = commit_file(&origin, "main", None, "file.txt", "one", "c1");
    origin.tag_lightweight("v1", &origin.find_object(c1, None).unwrap(), true).unwrap();

    let root = scratch("mirrors");
    let secret = b"k";
    let body = format!(
        r#"{{"action":"released","release":{{"tag_name":"v1"}},"repository":{{"full_name":"octo/hello","clone_url":"{}"}}}}"#,
        origin_dir
    );
    let header = signature_header(secret, body.as_bytes());
    let job = handle_webhook(body.as_bytes(), &header, secret, &Vec::new(), &root)
        .expect("an authenticated, allowed release succeeds")
        .expect("a synchronized release produces a job");
    assert_eq!(job.repository, "octo/hello");
    assert_eq!(head_commit(&job.path), c1);
}
