//! The on-disk location of a repository mirror: a pure function of the
//! repository's full name, with the path separators of the name replaced so
//! that the name cannot escape the mirror root.

use vstd::prelude::*;
use vstd::string::{StrSliceExecFns, StringExecFns};
use crate::strutil::push_char;

verus! {

/// What one character of a repository name contributes to its mirror
/// folder: a separator becomes two underscores, anything else stays.
pub open spec fn spec_folder_char(c: char) -> Seq<char> {
    if c == '/' {
        seq!['_', '_']
    } else {
        seq![c]
    }
}

/// The mirror folder name of the repository called `s`: the name with each
/// `/` replaced by `__`.
pub open spec fn spec_folder_of(s: Seq<char>) -> Seq<char>
    decreases s.len(),
{
    if s.len() == 0 {
        Seq::empty()
    } else {
        spec_folder_of(s.drop_last()) + spec_folder_char(s.last())
    }
}

/// The folder name never contains a path separator, so the mirror always
/// lies directly under the mirror root.
pub proof fn lemma_folder_has_no_separator(s: Seq<char>)
    ensures
        forall|i: int| 0 <= i < spec_folder_of(s).len() ==> spec_folder_of(s)[i] != '/',
    decreases s.len(),
{
    if s.len() > 0 {
        lemma_folder_has_no_separator(s.drop_last());
        let pre = spec_folder_of(s.drop_last());
        let tail = spec_folder_char(s.last());
        assert forall|i: int| 0 <= i < spec_folder_of(s).len() implies spec_folder_of(s)[i]
            != '/' by {
            if i < pre.len() {
                assert(spec_folder_of(s)[i] == pre[i]);
            } else {
                assert(spec_folder_of(s)[i] == tail[i - pre.len()]);
            }
        }
    }
}

/// The folder name the mirror of repository `name` lives in.
pub fn mirror_folder(name: &str) -> (r: String)
    ensures
        r@ == spec_folder_of(name@),
{
    let n = name.unicode_len();
    let mut out = String::new();
    let mut i: usize = 0;
    while i < n
        invariant
            n == name@.len(),
            0 <= i <= n,
            out@ == spec_folder_of(name@.subrange(0, i as int)),
        decreases n - i,
    {
        let c = name.get_char(i);
        if c == '/' {
            out.append("__");
            proof {
                reveal_strlit("__");
                assert("__"@ =~= seq!['_', '_']);
            }
        } else {
            push_char(&mut out, c);
        }
        proof {
            assert(name@.subrange(0, i + 1).drop_last() =~= name@.subrange(0, i as int));
            assert(name@.subrange(0, i + 1).last() == name@[i as int]);
            assert(out@ =~= spec_folder_of(name@.subrange(0, i + 1)));
        }
        i = i + 1;
    }
    proof {
        assert(name@.subrange(0, n as int) =~= name@);
    }
    out
}

/// The mirror path of repository `name` under `root`: the root, one path
/// separator, and the repository's folder name.
pub fn mirror_path(root: &str, name: &str) -> (r: String)
    ensures
        r@ == root@ + seq!['/'] + spec_folder_of(name@),
{
    let mut out = root.to_owned();
    push_char(&mut out, '/');
    let folder = mirror_folder(name);
    out.append(folder.as_str());
    out
}

} // verus!
