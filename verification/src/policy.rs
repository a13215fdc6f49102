//! Policy evaluator: pure predicates deciding which repository, branch and
//! event kind combinations may be deployed.
//!
//! A rule pairs an action matcher ([`Action`]) with a repository matcher
//! ([`Mode`]); an event is deployable when some rule matches both its
//! repository name and its branch. An empty rule list allows everything.

use vstd::prelude::*;
use crate::strutil::str_eq;

verus! {

/// The action matcher of a policy rule: either pushes to one named branch,
/// or releases.
pub enum Action {
    Push { branch: String },
    Release,
}

/// The repository matcher of a policy rule.
pub enum Mode {
    All,
    Blacklist { repositories: Vec<String> },
    Whitelist { repositories: Vec<String> },
}

/// One policy rule: an event is allowed by the rule when both the action
/// matcher and the repository matcher accept it.
pub struct Event {
    pub action: Action,
    pub mode: Mode,
}

/// Whether one of the names in `rs` is exactly `name`.
pub open spec fn contains_name(rs: Seq<String>, name: Seq<char>) -> bool {
    exists|i: int| 0 <= i < rs.len() && rs[i]@ == name
}

impl Action {
    /// Whether this action matcher accepts a push to `branch`
    /// (`None` stands for a release-style event, which carries no branch).
    pub open spec fn spec_matches(self, branch: Option<Seq<char>>) -> bool {
        match self {
            Action::Push { branch: b } => branch matches Some(s) && s == b@,
            Action::Release => true,
        }
    }

    /// Checks that the branch is allowed: a `Push` matcher accepts exactly
    /// its own branch, and never a branchless (release-style) event; a
    /// `Release` matcher accepts anything.
    pub fn matches(&self, branch: Option<&str>) -> (r: bool)
        ensures
            r == self.spec_matches(view_branch(branch)),
    {
        match self {
            Action::Push { branch: b } => {
                match branch {
                    Some(s) => str_eq(s, b.as_str()),
                    None => false,
                }
            },
            Action::Release => true,
        }
    }
}

/// The view of an optional branch name: the sequence of its characters.
pub open spec fn view_branch(branch: Option<&str>) -> Option<Seq<char>> {
    match branch {
        Some(s) => Some(s@),
        None => None,
    }
}

/// Whether one of the strings in `rs` equals `name`.
fn vec_contains_name(rs: &Vec<String>, name: &String) -> (r: bool)
    ensures
        r == contains_name(rs@, name@),
{
    let mut i: usize = 0;
    while i < rs.len()
        invariant
            0 <= i <= rs@.len(),
            forall|j: int| 0 <= j < i ==> rs@[j]@ != name@,
        decreases rs@.len() - i,
    {
        if str_eq(rs[i].as_str(), name.as_str()) {
            return true;
        }
        i = i + 1;
    }
    false
}

impl Mode {
    /// Whether this repository matcher accepts the repository called `name`.
    pub open spec fn spec_matches(self, name: Seq<char>) -> bool {
        match self {
            Mode::All => true,
            Mode::Blacklist { repositories } => !contains_name(repositories@, name),
            Mode::Whitelist { repositories } => contains_name(repositories@, name),
        }
    }

    /// Checks that the repository name is allowed to be deployed: `All`
    /// accepts every repository, `Blacklist` all but the listed ones,
    /// `Whitelist` only the listed ones.
    pub fn matches(&self, repository: &String) -> (r: bool)
        ensures
            r == self.spec_matches(repository@),
    {
        match self {
            Mode::All => true,
            Mode::Blacklist { repositories } => !vec_contains_name(repositories, repository),
            Mode::Whitelist { repositories } => vec_contains_name(repositories, repository),
        }
    }
}

impl Event {
    /// Whether this rule accepts an event for repository `name` on `branch`.
    pub open spec fn spec_matches(self, name: Seq<char>, branch: Option<Seq<char>>) -> bool {
        self.mode.spec_matches(name) && self.action.spec_matches(branch)
    }

    /// Checks that the repository, branch and event kind are allowed by
    /// this rule: both its matchers must accept them.
    pub fn matches(&self, repository: &String, branch: Option<&str>) -> (r: bool)
        ensures
            r == self.spec_matches(repository@, view_branch(branch)),
    {
        self.mode.matches(repository) && self.action.matches(branch)
    }
}

/// Whether the rule list `rules` allows an event for repository `name` on
/// `branch`: an empty list allows everything, otherwise some rule must match.
pub open spec fn spec_deployable(
    rules: Seq<Event>,
    name: Seq<char>,
    branch: Option<Seq<char>>,
) -> bool {
    rules.len() == 0 || exists|i: int| 0 <= i < rules.len() && rules[i].spec_matches(name, branch)
}

/// Decides whether an event for `repository` on `branch` may be deployed
/// under `rules`: allowed exactly when the rule list is empty or some rule
/// matches both the repository and the branch. Pure; the first matching
/// rule short-circuits the scan.
pub fn is_deployable(rules: &Vec<Event>, repository: &String, branch: Option<&str>) -> (r: bool)
    ensures
        r == spec_deployable(rules@, repository@, view_branch(branch)),
{
    if rules.len() == 0 {
        return true;
    }
    let mut i: usize = 0;
    while i < rules.len()
        invariant
            0 <= i <= rules@.len(),
            forall|j: int| 0 <= j < i ==> !rules@[j].spec_matches(repository@, view_branch(branch)),
        decreases rules@.len() - i,
    {
        if rules[i].matches(repository, branch) {
            return true;
        }
        i = i + 1;
    }
    false
}

/// An empty rule list allows every repository, branch and event kind.
pub proof fn lemma_empty_rules_allow_all(name: Seq<char>, branch: Option<Seq<char>>)
    ensures
        spec_deployable(Seq::empty(), name, branch),
{
}

/// A push to branch `b` is allowed exactly when some rule both matches the
/// repository and carries the action matcher `Push` for that very branch.
/// This holds of every rule list in which no `Release`-action rule matches
/// the repository; a matching `Release` rule would allow the push as well,
/// its action matcher accepting any branch.
pub proof fn lemma_push_deployable_iff(rules: Seq<Event>, name: Seq<char>, b: Seq<char>)
    requires
        rules.len() > 0,
        forall|i: int|
            0 <= i < rules.len() && rules[i].action is Release ==> !rules[i].mode.spec_matches(
                name,
            ),
    ensures
        spec_deployable(rules, name, Some(b)) <==> exists|i: int|
            0 <= i < rules.len() && rules[i].mode.spec_matches(name) && (rules[i].action matches
            Action::Push { branch } && branch@ == b),
{
    if spec_deployable(rules, name, Some(b)) {
        let i = choose|i: int| 0 <= i < rules.len() && rules[i].spec_matches(name, Some(b));
        assert(rules[i].mode.spec_matches(name) && (rules[i].action matches Action::Push { branch }
            && branch@ == b));
    }
    if exists|i: int|
        0 <= i < rules.len() && rules[i].mode.spec_matches(name) && (rules[i].action matches
        Action::Push { branch } && branch@ == b) {
        let i = choose|i: int|
            0 <= i < rules.len() && rules[i].mode.spec_matches(name) && (rules[i].action matches
            Action::Push { branch } && branch@ == b);
        assert(rules[i].spec_matches(name, Some(b)));
    }
}

/// A release is allowed exactly when some rule's repository matcher matches
/// the repository. This holds of every rule list in which each rule that
/// matches the repository carries the `Release` action matcher; a matching
/// `Push` rule would count for the right-hand side without allowing the
/// release, its action matcher accepting no branchless event.
pub proof fn lemma_release_deployable_iff(rules: Seq<Event>, name: Seq<char>)
    requires
        rules.len() > 0,
        forall|i: int|
            0 <= i < rules.len() && rules[i].mode.spec_matches(name) ==> rules[i].action
                is Release,
    ensures
        spec_deployable(rules, name, None) <==> exists|i: int|
            0 <= i < rules.len() && rules[i].mode.spec_matches(name),
{
    if spec_deployable(rules, name, None) {
        let i = choose|i: int| 0 <= i < rules.len() && rules[i].spec_matches(name, None);
        assert(0 <= i < rules.len() && rules[i].mode.spec_matches(name));
    }
    if exists|i: int| 0 <= i < rules.len() && rules[i].mode.spec_matches(name) {
        let i = choose|i: int| 0 <= i < rules.len() && rules[i].mode.spec_matches(name);
        assert(rules[i].spec_matches(name, None));
    }
}

} // verus!
