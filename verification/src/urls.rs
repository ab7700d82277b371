//! Building the request URL: the server base, the literal `/v1/` separator
//! and the logical path, with the joint normalized so that a trailing slash
//! on the base or a leading slash on the path cannot produce `...//...`.

use vstd::prelude::*;
use vstd::string::StrSliceExecFns;
use vstd::string::StringExecFns;

verus! {

/// `s` with every trailing slash removed.
pub open spec fn trim_trailing_slashes(s: Seq<char>) -> Seq<char>
    decreases s.len(),
{
    if s.len() > 0 && s.last() == '/' {
        trim_trailing_slashes(s.drop_last())
    } else {
        s
    }
}

/// `s` with every leading slash removed.
pub open spec fn trim_leading_slashes(s: Seq<char>) -> Seq<char>
    decreases s.len(),
{
    if s.len() > 0 && s[0] == '/' {
        trim_leading_slashes(s.drop_first())
    } else {
        s
    }
}

/// The URL of an operation on `path`: the normalized base, `/v1/`, and the
/// normalized path.
pub open spec fn v1_url(base: Seq<char>, path: Seq<char>) -> Seq<char> {
    trim_trailing_slashes(base) + seq!['/', 'v', '1', '/'] + trim_leading_slashes(path)
}

/// `base` without its trailing slashes.
fn trimmed_base(base: &str) -> (r: &str)
    ensures
        r@ == trim_trailing_slashes(base@),
{
    let len = base.unicode_len();
    let mut end: usize = len;
    proof {
        assert(base@.subrange(0, len as int) =~= base@);
    }
    while end > 0 && base.get_char(end - 1) == '/'
        invariant
            0 <= end <= len,
            len == base@.len(),
            trim_trailing_slashes(base@) == trim_trailing_slashes(base@.subrange(0, end as int)),
        decreases end,
    {
        proof {
            assert(base@.subrange(0, end as int).last() == base@[end - 1]);
            assert(base@.subrange(0, end as int).drop_last() =~= base@.subrange(0, end as int - 1));
        }
        end = end - 1;
    }
    proof {
        let kept = base@.subrange(0, end as int);
        assert(end > 0 ==> kept.last() == base@[end - 1]);
        assert(trim_trailing_slashes(kept) == kept);
    }
    base.substring_char(0, end)
}

/// `path` without its leading slashes.
fn trimmed_path(path: &str) -> (r: &str)
    ensures
        r@ == trim_leading_slashes(path@),
{
    let len = path.unicode_len();
    let mut start: usize = 0;
    proof {
        assert(path@.subrange(0, len as int) =~= path@);
    }
    while start < len && path.get_char(start) == '/'
        invariant
            0 <= start <= len,
            len == path@.len(),
            trim_leading_slashes(path@) == trim_leading_slashes(path@.subrange(start as int, len as int)),
        decreases len - start,
    {
        proof {
            assert(path@.subrange(start as int, len as int)[0] == path@[start as int]);
            assert(path@.subrange(start as int, len as int).drop_first() =~= path@.subrange(
                start as int + 1,
                len as int,
            ));
        }
        start = start + 1;
    }
    proof {
        let kept = path@.subrange(start as int, len as int);
        assert(start < len ==> kept[0] == path@[start as int]);
        assert(trim_leading_slashes(kept) == kept);
    }
    path.substring_char(start, len)
}

/// The URL string for an operation on `path` under `base`, exactly as
/// `v1_url` states it.
pub fn request_url(base: &str, path: &str) -> (r: String)
    ensures
        r@ == v1_url(base@, path@),
{
    let mut out = String::from_str(trimmed_base(base));
    out.append("/v1/");
    proof {
        reveal_strlit("/v1/");
        assert("/v1/"@ =~= seq!['/', 'v', '1', '/']);
    }
    out.append(trimmed_path(path));
    proof {
        assert(out@ =~= v1_url(base@, path@));
    }
    out
}

} // verus!
