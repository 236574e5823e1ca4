//! The path under which a route is registered.
//!
//! A configured path may be written with or without leading slashes; the
//! registered path always begins with exactly one.

use vstd::prelude::*;
use vstd::string::*;

verus! {

/// The first `k` characters of `s` are slashes and the next one, if any, is not.
pub open spec fn is_slash_run(s: Seq<char>, k: int) -> bool {
    &&& 0 <= k <= s.len()
    &&& forall|j: int| 0 <= j < k ==> s[j] == '/'
    &&& k < s.len() ==> s[k] != '/'
}

/// How many slashes `s` begins with.
pub open spec fn leading_slashes(s: Seq<char>) -> nat
    decreases s.len(),
{
    if s.len() > 0 && s[0] == '/' {
        1 + leading_slashes(s.drop_first())
    } else {
        0
    }
}

/// The path that a route for `old_path` is registered under: `old_path`
/// without its leading slashes, behind a single slash.
pub open spec fn registered_path(old_path: Seq<char>) -> Seq<char> {
    seq!['/'] + old_path.skip(leading_slashes(old_path) as int)
}

/// A path begins with exactly one slash.
pub open spec fn has_single_leading_slash(path: Seq<char>) -> bool {
    &&& path.len() > 0
    &&& path[0] == '/'
    &&& path.len() > 1 ==> path[1] != '/'
}

/// `leading_slashes` counts the run of slashes at the front, and nothing
/// else does.
pub proof fn lemma_leading_slashes(s: Seq<char>, k: int)
    ensures
        is_slash_run(s, leading_slashes(s) as int),
        is_slash_run(s, k) ==> k == leading_slashes(s),
    decreases s.len(),
{
    if s.len() > 0 && s[0] == '/' {
        let rest = s.drop_first();
        lemma_leading_slashes(rest, k - 1);
        let n = leading_slashes(rest) as int;
        assert forall|j: int| 0 <= j < n + 1 implies s[j] == '/' by {
            if j > 0 {
                assert(rest[j - 1] == s[j]);
            }
        }
        if n + 1 < s.len() {
            assert(rest[n] == s[n + 1]);
        }
        if is_slash_run(s, k) {
            assert(k > 0);
            assert forall|j: int| 0 <= j < k - 1 implies rest[j] == '/' by {
                assert(rest[j] == s[j + 1]);
            }
            if k - 1 < rest.len() {
                assert(rest[k - 1] == s[k]);
            }
            assert(is_slash_run(rest, k - 1));
        }
    } else {
        if is_slash_run(s, k) && k > 0 {
            assert(s[0] == '/');
        }
    }
}

/// A registered path begins with exactly one slash, whatever was configured.
pub proof fn lemma_registered_path_single_slash(old_path: Seq<char>)
    ensures
        has_single_leading_slash(registered_path(old_path)),
{
    lemma_leading_slashes(old_path, 0);
}

/// A path configured without a leading slash is registered as it stands,
/// behind one slash.
pub proof fn lemma_registered_path_prepends(old_path: Seq<char>)
    requires
        old_path.len() == 0 || old_path[0] != '/',
    ensures
        registered_path(old_path) == seq!['/'] + old_path,
{
    assert(old_path.skip(0) =~= old_path);
}

/// Leading slashes in the configuration make no difference: a path that
/// already is a registered path is registered unchanged.
pub proof fn lemma_registered_path_idempotent(old_path: Seq<char>)
    ensures
        registered_path(registered_path(old_path)) == registered_path(old_path),
{
    let once = registered_path(old_path);
    lemma_registered_path_single_slash(old_path);
    lemma_leading_slashes(once, 1);
    assert(once.skip(1) =~= old_path.skip(leading_slashes(old_path) as int));
}

/// Computes the path that a route for `old_path` is registered under.
pub fn register(old_path: &str) -> (route: String)
    ensures
        route@ == registered_path(old_path@),
        has_single_leading_slash(route@),
        old_path@.len() == 0 || old_path@[0] != '/' ==> route@ == seq!['/'] + old_path@,
{
    let n = old_path.unicode_len();
    let mut i: usize = 0;
    while i < n && old_path.get_char(i) == '/'
        invariant
            i <= n,
            n == old_path@.len(),
            forall|j: int| 0 <= j < i ==> old_path@[j] == '/',
        decreases n - i,
    {
        i = i + 1;
    }
    let rest = old_path.substring_char(i, n);
    proof {
        reveal_strlit("/");
        lemma_leading_slashes(old_path@, i as int);
        lemma_registered_path_single_slash(old_path@);
        if old_path@.len() == 0 || old_path@[0] != '/' {
            lemma_registered_path_prepends(old_path@);
        }
        assert("/"@ =~= seq!['/']);
        assert(old_path@.subrange(i as int, n as int) =~= old_path@.skip(i as int));
    }
    String::from_str("/").concat(rest)
}

} // verus!
