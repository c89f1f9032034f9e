//! The tool's own version and the latest released one.
use vstd::prelude::*;
use crate::formats::{json_string_field, read_json_string_field, FieldError};
use crate::text::substring;

verus! {

/// The version of this build of the tool.
pub const LOCAL_INSIDER_VERSION: &'static str = "0.1.0";

/// The address of the latest release's description.
pub const INSIDER_LATEST_RELEASE_URL: &'static str =
    "https://api.github.com/repos/truegoric/k8s-insider/releases/latest";

/// The number of leading `c`s of `t`.
pub open spec fn leading_count(t: Seq<char>, c: char) -> nat
    decreases t.len(),
{
    if t.len() > 0 && t[0] == c {
        1 + leading_count(t.drop_first(), c)
    } else {
        0
    }
}

/// `t` without its leading `c`s.
pub open spec fn trim_leading(t: Seq<char>, c: char) -> Seq<char> {
    t.subrange(leading_count(t, c) as int, t.len() as int)
}

proof fn lemma_leading_count(t: Seq<char>, c: char, i: int)
    requires
        0 <= i <= t.len(),
        forall|j: int| 0 <= j < i ==> t[j] == c,
        i == t.len() || t[i] != c,
    ensures
        leading_count(t, c) == i,
    decreases i,
{
    if i > 0 {
        let u = t.drop_first();
        assert forall|j: int| 0 <= j < i - 1 implies u[j] == c by {
            assert(u[j] == t[j + 1]);
        }
        if i - 1 < u.len() {
            assert(u[i - 1] == t[i]);
        }
        lemma_leading_count(u, c, i - 1);
    }
}

/// `t` without its leading `c`s.
pub fn trim_start_matches(t: &str, c: char) -> (r: String)
    ensures
        r@ == trim_leading(t@, c),
{
    let n = t.unicode_len();
    let mut i: usize = 0;
    while i < n && t.get_char(i) == c
        invariant
            n == t@.len(),
            i <= n,
            forall|j: int| 0 <= j < i ==> t@[j] == c,
        decreases n - i,
    {
        i = i + 1;
    }
    proof {
        lemma_leading_count(t@, c, i as int);
    }
    substring(t, i, n)
}

/// The version named by a release: its name without leading `v`s.
pub fn release_version(name: &str) -> (r: String)
    ensures
        r@ == trim_leading(name@, 'v'),
{
    trim_start_matches(name, 'v')
}

/// The latest version from the release description that the releases API
/// answered with: the `name` of its top-level object, without leading `v`s.
pub fn parse_latest_version(response_text: &str) -> (r: Result<String, FieldError>)
    ensures
        match json_string_field(response_text@, "name"@) {
            Ok(name) => r matches Ok(v) && v@ == trim_leading(name, 'v'),
            Err(e) => r == Err::<String, FieldError>(e),
        },
{
    match read_json_string_field(response_text, "name") {
        Ok(name) => Ok(release_version(name.as_str())),
        Err(e) => Err(e),
    }
}

/// Trimming leading characters twice trims nothing more than once: a
/// trimmed version starts with no `c`.
pub proof fn lemma_trim_leading_idempotent(t: Seq<char>, c: char)
    ensures
        trim_leading(trim_leading(t, c), c) == trim_leading(t, c),
        trim_leading(t, c).len() > 0 ==> trim_leading(t, c)[0] != c,
{
    lemma_leading_count_bounds(t, c);
    let u = trim_leading(t, c);
    lemma_leading_count(u, c, 0);
    assert(trim_leading(u, c) =~= u);
}

proof fn lemma_leading_count_bounds(t: Seq<char>, c: char)
    ensures
        leading_count(t, c) <= t.len(),
        forall|j: int| 0 <= j < leading_count(t, c) ==> t[j] == c,
        leading_count(t, c) < t.len() ==> t[leading_count(t, c) as int] != c,
    decreases t.len(),
{
    if t.len() > 0 && t[0] == c {
        let u = t.drop_first();
        lemma_leading_count_bounds(u, c);
        assert forall|j: int| 0 <= j < leading_count(t, c) implies t[j] == c by {
            if j > 0 {
                assert(t[j] == u[j - 1]);
            }
        }
        if leading_count(t, c) < t.len() {
            assert(t[leading_count(t, c) as int] == u[leading_count(u, c) as int]);
        }
    }
}

} // verus!
