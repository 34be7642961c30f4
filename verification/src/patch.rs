use vstd::prelude::*;

use crate::errors::PatchError;

verus! {

/// Line index of the start command in the management layer's main config.
pub const MCDR_START_COMMAND_LINE: usize = 19;

/// Line index of the console-thread toggle in the management layer's main config.
pub const MCDR_CONSOLE_THREAD_LINE: usize = 77;

/// Line index of the owner nickname in the management layer's permission file.
pub const PERMISSION_NICKNAME_LINE: usize = 13;

/// Line index of the acceptance flag in the license file.
pub const EULA_LINE: usize = 2;

/// One pending line replacement: which file, which line, what text.
pub struct ConfigPatch {
    pub file: String,
    pub line: usize,
    pub text: String,
}

/// `p` targets `file` at `line` with `text`.
pub open spec fn patch_is(p: ConfigPatch, file: Seq<char>, line: int, text: Seq<char>) -> bool {
    p.file@ == file && p.line == line && p.text@ == text
}

/// Replaces exactly the line at `index`, keeping every other line and the
/// order; refuses an index at or past the end.
pub fn patch_lines(lines: &Vec<String>, index: usize, text: &str) -> (r: Result<
    Vec<String>,
    PatchError,
>)
    ensures
        r is Ok <==> index < lines@.len(),
        r matches Ok(patched) ==> patched.deep_view() == lines.deep_view().update(
            index as int,
            text@,
        ),
        r is Err ==> r == Err::<Vec<String>, PatchError>(PatchError::OutOfRange),
{
    if index >= lines.len() {
        return Err(PatchError::OutOfRange);
    }
    let mut out: Vec<String> = Vec::new();
    let mut i: usize = 0;
    while i < lines.len()
        invariant
            i <= lines@.len(),
            index < lines@.len(),
            out@.len() == i,
            forall|j: int|
                0 <= j < i ==> #[trigger] out@[j]@ == (if j == index {
                    text@
                } else {
                    lines@[j]@
                }),
        decreases lines@.len() - i,
    {
        if i == index {
            out.push(String::from_str(text));
        } else {
            out.push(lines[i].clone());
        }
        i = i + 1;
    }
    proof {
        assert(forall|j: int| 0 <= j < out@.len() ==> out.deep_view()[j] == out@[j]@);
        assert(forall|j: int| 0 <= j < lines@.len() ==> lines.deep_view()[j] == lines@[j]@);
        assert(out.deep_view() =~= lines.deep_view().update(index as int, text@));
    }
    Ok(out)
}

} // verus!
