use vstd::prelude::*;

use crate::strutil::split_on;
use crate::strutil::split_str;
use crate::strutil::str_eq;

verus! {

/// The file-name suffix that marks a server artifact.
pub open spec fn jar_suffix() -> Seq<char> {
    seq!['.', 'j', 'a', 'r']
}

/// The artifact stem: the file name with a trailing ".jar" removed,
/// or the name unchanged when it does not end so.
pub open spec fn stem_spec(name: Seq<char>) -> Seq<char> {
    if name.len() >= 4 && name.subrange(name.len() - 4, name.len() as int) == jar_suffix() {
        name.take(name.len() - 4)
    } else {
        name
    }
}

/// The `k`-th '/'-delimited segment of a URL, where there is one.
///
/// The server download file name is segment 6 of its download URL and the
/// pinned installer file name is segment 7 of its fixed URL.
pub fn url_segment(url: &str, k: usize) -> (r: Option<String>)
    ensures
        r is Some <==> k < split_on(url@, '/').len(),
        r matches Some(name) ==> name@ == split_on(url@, '/')[k as int],
{
    let parts = split_str(url, '/');
    if k < parts.len() {
        Some(parts[k].clone())
    } else {
        None
    }
}

/// Strips a trailing ".jar" from an artifact file name.
pub fn artifact_stem(name: &str) -> (r: String)
    ensures
        r@ == stem_spec(name@),
{
    let len = name.unicode_len();
    proof {
        reveal_strlit(".jar");
        assert(".jar"@ =~= jar_suffix());
    }
    if len >= 4 {
        let tail = name.substring_char(len - 4, len);
        if str_eq(tail, ".jar") {
            proof {
                assert(name@.subrange(0, len - 4) =~= name@.take(len - 4));
            }
            return String::from_str(name.substring_char(0, len - 4));
        }
    }
    String::from_str(name)
}

} // verus!
