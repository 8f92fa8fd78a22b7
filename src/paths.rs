//! Slash-separated path joining, with the semantics of `PathBuf::join`
//! restricted to Unix-style paths.
use vstd::prelude::*;
use vstd::string::*;

verus! {

/// The path separator.
pub const SEPARATOR: &'static str = "/";

/// `part` appended to `base`: an absolute `part` replaces `base`; otherwise a
/// separator is inserted unless `base` is empty or already ends with one.
pub open spec fn join(base: Seq<char>, part: Seq<char>) -> Seq<char> {
    if part.len() > 0 && part[0] == '/' {
        part
    } else if base.len() == 0 || base.last() == '/' {
        base + part
    } else {
        base + seq!['/'] + part
    }
}

/// Joins `part` onto `base`.
pub fn join_path(base: &str, part: &str) -> (r: String)
    ensures
        r@ == join(base@, part@),
{
    proof {
        reveal_strlit("/");
    }
    let part_len = part.unicode_len();
    if part_len > 0 && part.get_char(0) == '/' {
        return String::from_str(part);
    }
    let base_len = base.unicode_len();
    let mut r = String::from_str(base);
    if base_len > 0 && base.get_char(base_len - 1) != '/' {
        r.append(SEPARATOR);
    }
    r.append(part);
    r
}

} // verus!
