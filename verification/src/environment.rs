use vstd::prelude::*;

use crate::errors::EnvironmentError;
use crate::strutil::split_on;
use crate::strutil::split_str;
use crate::strutil::str_eq;
use crate::strutil::lemma_split_on_nonempty;

verus! {

/// Picks the companion interpreter command for a host platform; any other
/// platform is unsupported.
pub fn companion_for_os(os: &str) -> (r: Result<&'static str, EnvironmentError>)
    ensures
        os@ == "windows"@ ==> (r matches Ok(c) && c@ == "py"@),
        os@ == "linux"@ ==> (r matches Ok(c) && c@ == "python3"@),
        os@ != "windows"@ && os@ != "linux"@ ==> r == Err::<&'static str, EnvironmentError>(
            EnvironmentError::UnsupportedPlatform,
        ),
{
    proof {
        reveal_strlit("windows");
        reveal_strlit("linux");
        assert("windows"@.len() == 7);
        assert("linux"@.len() == 5);
    }
    if str_eq(os, "windows") {
        Ok("py")
    } else if str_eq(os, "linux") {
        Ok("python3")
    } else {
        Err(EnvironmentError::UnsupportedPlatform)
    }
}

/// A package listing (one "name==version" line each) names `pkg` when the
/// part of some line before the first '=' equals it.
pub open spec fn listing_has_package(freeze: Seq<char>, pkg: Seq<char>) -> bool {
    exists|l: int|
        0 <= l < split_on(freeze, '\n').len() && split_on(split_on(freeze, '\n')[l], '=')[0] == pkg
}

/// Looks for a package name in an installed-packages listing.
pub fn package_installed(freeze: &str, pkg: &str) -> (r: bool)
    ensures
        r <==> listing_has_package(freeze@, pkg@),
{
    let lines = split_str(freeze, '\n');
    let mut l: usize = 0;
    while l < lines.len()
        invariant
            l <= lines@.len(),
            lines.deep_view() == split_on(freeze@, '\n'),
            forall|j: int|
                0 <= j < l ==> split_on(#[trigger] split_on(freeze@, '\n')[j], '=')[0] != pkg@,
        decreases lines@.len() - l,
    {
        let pieces = split_str(lines[l].as_str(), '=');
        proof {
            lemma_split_on_nonempty(lines@[l as int]@, '=');
        }
        if str_eq(pieces[0].as_str(), pkg) {
            proof {
                assert(split_on(split_on(freeze@, '\n')[l as int], '=')[0] == pkg@);
            }
            return true;
        }
        l = l + 1;
    }
    false
}

} // verus!
