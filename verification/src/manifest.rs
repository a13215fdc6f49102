//! The per-repository deployment manifest: an ordered list of actions,
//! read from the synced working tree at job-execution time.
//!
//! The manifest file is TOML; the `toml` crate parses it, behind one
//! trusted reader whose result — the `deploy` entries' plain fields, in
//! declared order — is a function of the bytes alone and is therefore
//! named. What each entry means is decided — and verified — by
//! [`action_from_parts`]. A missing or malformed manifest is `None`: the
//! job then fails with zero actions run.

use vstd::prelude::*;
use crate::strutil::str_eq;

verus! {

/// One deployment action: spawn a program, or copy a file out of the
/// mirror.
#[derive(Debug, Clone, PartialEq, Eq)]
pub enum Action {
    Command { command: String, args: Vec<String> },
    Copy { src: String, dest: String },
}

/// The plain fields of one manifest entry, each `None` when absent or of
/// the wrong TOML kind (for `args`, also when some element is not a
/// string).
pub struct RawEntry {
    pub kind: Option<String>,
    pub command: Option<String>,
    pub args: Option<Vec<String>>,
    pub src: Option<String>,
    pub dest: Option<String>,
}

/// The manifest entries that the bytes `raw` denote: `None` when the bytes
/// are not well-formed TOML or `deploy` is missing or not an array,
/// otherwise the entries' plain fields, in declared order. The reading is
/// done by an outside crate and is a function of the bytes alone, so it is
/// named here and left without a definition.
pub uninterp spec fn manifest_entries(raw: Seq<u8>) -> Option<Seq<RawEntry>>;

/// Relies on `toml::from_slice` and `toml::Value::get`, `Value::as_str`,
/// `Value::as_array` (with `str::to_owned`): parses the document and moves
/// the `deploy` entries' fields out of it — a fixed function of the bytes,
/// named [`manifest_entries`].
#[verifier::external_body]
fn read_entries(raw: &[u8]) -> (r: Option<Vec<RawEntry>>)
    ensures
        match r {
            Some(entries) => manifest_entries(raw@) == Some(entries@),
            None => manifest_entries(raw@) is None,
        },
{
    let doc: toml::Value = toml::from_slice(raw).ok()?;
    let s = |e: &toml::Value, k: &str| Some(e.get(k)?.as_str()?.to_owned());
    let list = |e: &toml::Value| -> Option<Vec<String>> {
        e.get("args")?.as_array()?.iter().map(|x| Some(x.as_str()?.to_owned())).collect()
    };
    Some(doc.get("deploy")?.as_array()?.iter().map(|e| RawEntry {
        kind: s(e, "action"),
        command: s(e, "command"),
        args: list(e),
        src: s(e, "src"),
        dest: s(e, "dest"),
    }).collect())
}

/// The action denoted by one manifest entry: `action = "command"` needs a
/// program and its argument list, `action = "copy"` a source and a
/// destination; any other kind, or a missing field, denotes nothing.
pub open spec fn spec_action_from_parts(
    kind: Seq<char>,
    command: Option<String>,
    args: Option<Vec<String>>,
    src: Option<String>,
    dest: Option<String>,
) -> Option<Action> {
    if kind == "command"@ && command is Some && args is Some {
        Some(Action::Command { command: command->0, args: args->0 })
    } else if kind == "copy"@ && src is Some && dest is Some {
        Some(Action::Copy { src: src->0, dest: dest->0 })
    } else {
        None
    }
}

/// Classifies one manifest entry's fields into an action, exactly as
/// [`spec_action_from_parts`] states.
pub fn action_from_parts(
    kind: &str,
    command: Option<String>,
    args: Option<Vec<String>>,
    src: Option<String>,
    dest: Option<String>,
) -> (r: Option<Action>)
    ensures
        r == spec_action_from_parts(kind@, command, args, src, dest),
{
    if str_eq(kind, "command") && command.is_some() && args.is_some() {
        Some(Action::Command { command: command.unwrap(), args: args.unwrap() })
    } else if str_eq(kind, "copy") && src.is_some() && dest.is_some() {
        Some(Action::Copy { src: src.unwrap(), dest: dest.unwrap() })
    } else {
        None
    }
}

/// The action one entry denotes: its `action` kind must be present, and
/// the fields must classify as [`spec_action_from_parts`] states.
pub open spec fn spec_entry_action(e: RawEntry) -> Option<Action> {
    match e.kind {
        Some(kind) => spec_action_from_parts(kind@, e.command, e.args, e.src, e.dest),
        None => None,
    }
}

/// Classifies one entry, exactly as [`spec_entry_action`] states.
fn entry_action(e: RawEntry) -> (r: Option<Action>)
    ensures
        r == spec_entry_action(e),
{
    let RawEntry { kind, command, args, src, dest } = e;
    match kind {
        Some(k) => action_from_parts(k.as_str(), command, args, src, dest),
        None => None,
    }
}

/// The actions a list of entries denotes: every entry must classify, and
/// the actions keep the entries' declared order; one entry that classifies
/// as nothing spoils the whole list.
pub open spec fn spec_manifest_actions(entries: Seq<RawEntry>) -> Option<Seq<Action>>
    decreases entries.len(),
{
    if entries.len() == 0 {
        Some(Seq::empty())
    } else {
        match spec_manifest_actions(entries.drop_last()) {
            Some(front) => match spec_entry_action(entries.last()) {
                Some(a) => Some(front.push(a)),
                None => None,
            },
            None => None,
        }
    }
}

/// A list whose prefix already classifies as nothing stays so, however the
/// list goes on.
proof fn lemma_manifest_none_extends(entries: Seq<RawEntry>, j: int)
    requires
        0 <= j <= entries.len(),
        spec_manifest_actions(entries.subrange(0, j)) is None,
    ensures
        spec_manifest_actions(entries) is None,
    decreases entries.len() - j,
{
    if j == entries.len() {
        assert(entries.subrange(0, j) =~= entries);
    } else {
        assert(entries.subrange(0, j + 1).drop_last() =~= entries.subrange(0, j));
        lemma_manifest_none_extends(entries, j + 1);
    }
}

/// The manifest the bytes denote: the entries they carry, each classified,
/// in declared order; `None` on any malformation.
pub open spec fn spec_parse_manifest(raw: Seq<u8>) -> Option<Seq<Action>> {
    match manifest_entries(raw) {
        Some(entries) => spec_manifest_actions(entries),
        None => None,
    }
}

/// Parses the deployment manifest: exactly the actions its bytes denote,
/// in declared order, and `None` precisely when the bytes denote none —
/// the caller then fails the job with zero actions run.
pub fn parse_manifest(raw: &[u8]) -> (r: Option<Vec<Action>>)
    ensures
        match r {
            Some(actions) => spec_parse_manifest(raw@) == Some(actions@),
            None => spec_parse_manifest(raw@) is None,
        },
{
    let mut entries = match read_entries(raw) {
        Some(es) => es,
        None => return None,
    };
    let ghost all = entries@;
    let mut out: Vec<Action> = Vec::new();
    while entries.len() > 0
        invariant
            manifest_entries(raw@) == Some(all),
            entries@.len() <= all.len(),
            entries@ =~= all.subrange(all.len() - entries@.len(), all.len() as int),
            spec_manifest_actions(all.subrange(0, all.len() - entries@.len())) == Some(out@),
        decreases entries@.len(),
    {
        let ghost i: int = all.len() - entries@.len();
        proof {
            assert(entries@[0] == all[i]);
        }
        let e = entries.remove(0);
        proof {
            assert(entries@ =~= all.subrange(i + 1, all.len() as int));
            assert(all.subrange(0, i + 1).drop_last() =~= all.subrange(0, i));
            assert(all.subrange(0, i + 1).last() == all[i]);
        }
        match entry_action(e) {
            Some(a) => {
                out.push(a);
                proof {
                    assert(spec_manifest_actions(all.subrange(0, i + 1)) == Some(out@));
                }
            },
            None => {
                proof {
                    assert(spec_manifest_actions(all.subrange(0, i + 1)) is None);
                    lemma_manifest_none_extends(all, i + 1);
                }
                return None;
            },
        }
    }
    proof {
        assert(all.subrange(0, all.len() as int) =~= all);
    }
    Some(out)
}

} // verus!
