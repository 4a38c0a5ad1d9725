//! Construction of the "today" status endpoint from a configured base URL.
//!
//! The endpoint is the base URL with every trailing slash removed, followed
//! by the fixed path of the "today" status resource.

use vstd::prelude::*;
use vstd::string::StrSliceExecFns;
use vstd::string::StringExecFns;

verus! {

/// The fixed path suffix naming the "today" status resource.
pub open spec fn spec_today_path() -> Seq<char> {
    "/users/current/statusbar/today"@
}

/// The base URL with every trailing `'/'` removed.
pub open spec fn spec_trim_trailing_slashes(s: Seq<char>) -> Seq<char>
    decreases s.len(),
{
    if s.len() > 0 && s[s.len() - 1] == '/' {
        spec_trim_trailing_slashes(s.drop_last())
    } else {
        s
    }
}

/// The endpoint URL derived from a base URL: trailing slashes trimmed,
/// then the fixed "today" path appended.
pub open spec fn spec_endpoint(base: Seq<char>) -> Seq<char> {
    spec_trim_trailing_slashes(base) + spec_today_path()
}

/// Builds the endpoint URL for the "today" status resource from a base URL.
pub fn endpoint_url(base: &str) -> (r: String)
    ensures
        r@ == spec_endpoint(base@),
{
    let n: usize = base.unicode_len();
    let mut end: usize = n;
    proof {
        assert(base@.subrange(0, n as int) =~= base@);
    }
    while end > 0 && base.get_char(end - 1) == '/'
        invariant
            end <= n,
            n == base@.len(),
            spec_trim_trailing_slashes(base@) == spec_trim_trailing_slashes(
                base@.subrange(0, end as int),
            ),
        decreases end,
    {
        proof {
            let s = base@.subrange(0, end as int);
            assert(s[s.len() - 1] == '/');
            assert(s.drop_last() =~= base@.subrange(0, end as int - 1));
        }
        end = end - 1;
    }
    proof {
        let s = base@.subrange(0, end as int);
        if end > 0 {
            assert(s[s.len() - 1] == base@[end as int - 1]);
        }
        assert(spec_trim_trailing_slashes(s) == s);
    }
    let prefix: &str = base.substring_char(0, end);
    let r = String::from_str(prefix).concat("/users/current/statusbar/today");
    proof {
        assert(r@ =~= spec_endpoint(base@));
    }
    r
}

/// Trimming trailing slashes makes endpoint construction idempotent:
/// appending one more `'/'` to the base URL leaves the endpoint unchanged.
pub proof fn lemma_endpoint_trailing_slash(base: Seq<char>)
    ensures
        spec_endpoint(base.push('/')) == spec_endpoint(base),
{
    assert(base.push('/').drop_last() =~= base);
}

/// Trimming trailing slashes is idempotent: a base URL already trimmed is
/// left as it is.
pub proof fn lemma_trim_idempotent(base: Seq<char>)
    ensures
        spec_trim_trailing_slashes(spec_trim_trailing_slashes(base)) == spec_trim_trailing_slashes(
            base,
        ),
    decreases base.len(),
{
    if base.len() > 0 && base[base.len() - 1] == '/' {
        lemma_trim_idempotent(base.drop_last());
    }
}

} // verus!
