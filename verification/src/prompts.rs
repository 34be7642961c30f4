use vstd::prelude::*;

use owo_colors::OwoColorize;

use crate::workspace::lower_char;

verus! {

/// The ANSI escape that switches the foreground to blue.
pub open spec fn blue_fg() -> Seq<char> {
    seq!['\u{1b}', '[', '3', '4', 'm']
}

/// The ANSI escape that restores the default foreground.
pub open spec fn default_fg() -> Seq<char> {
    seq!['\u{1b}', '[', '3', '9', 'm']
}

/// Relies on owo_colors' OwoColorize::blue: displaying its result writes
/// the blue-foreground escape, the text, and the default-foreground escape.
#[verifier::external_body]
fn blue_text(s: &str) -> (r: String)
    ensures
        r@ == blue_fg() + s@ + default_fg(),
{
    format!("{}", s.blue())
}

/// Prefixes a prompt message with the colored input tag.
pub fn i(msg: &str) -> (r: String)
    ensures
        r@ == seq![' '] + blue_fg() + seq!['I', 'N', 'P', 'U', 'T'] + default_fg() + seq![' ']
            + msg@,
{
    let mut out = String::from_str(" ");
    let tag = blue_text("INPUT");
    out.append(tag.as_str());
    out.append(" ");
    out.append(msg);
    proof {
        reveal_strlit(" ");
        reveal_strlit("INPUT");
        assert(out@ =~= seq![' '] + blue_fg() + seq!['I', 'N', 'P', 'U', 'T'] + default_fg()
            + seq![' '] + msg@);
    }
    out
}

/// The sequence ASCII-lowercased.
pub open spec fn lower_seq(s: Seq<char>) -> Seq<char> {
    s.map_values(|c: char| lower_char(c))
}

/// Compares a string, ASCII-lowercased, against an expected lowercase string.
pub fn str_eq_lower(a: &str, b: &str) -> (r: bool)
    ensures
        r <==> lower_seq(a@) == b@,
{
    let alen = a.unicode_len();
    let blen = b.unicode_len();
    if alen != blen {
        proof {
            assert(lower_seq(a@).len() == a@.len());
        }
        return false;
    }
    let mut i: usize = 0;
    while i < alen
        invariant
            i <= alen,
            alen == a@.len(),
            alen == b@.len(),
            forall|j: int| 0 <= j < i ==> lower_char(a@[j]) == b@[j],
        decreases alen - i,
    {
        let c = a.get_char(i);
        let cv = c as u32;
        let lowered: char = if 65 <= cv && cv <= 90 {
            ((cv + 32) as u8) as char
        } else {
            c
        };
        if lowered != b.get_char(i) {
            proof {
                assert(lower_seq(a@)[i as int] == lower_char(a@[i as int]));
            }
            return false;
        }
        i = i + 1;
    }
    proof {
        assert(lower_seq(a@) =~= b@);
    }
    true
}

/// Reads a yes-or-no answer, case-blind: an empty answer takes the
/// default, anything unrecognized asks again.
pub fn interpret_yes_no(answer: &str, default_yes: bool) -> (r: Option<bool>)
    ensures
        answer@.len() == 0 ==> r == Some(default_yes),
        lower_seq(answer@) == "yes"@ || lower_seq(answer@) == "y"@ ==> r == Some(true),
        lower_seq(answer@) == "no"@ || lower_seq(answer@) == "n"@ ==> r == Some(false),
        answer@.len() != 0 && lower_seq(answer@) != "yes"@ && lower_seq(answer@) != "y"@
            && lower_seq(answer@) != "no"@ && lower_seq(answer@) != "n"@ ==> r is None,
{
    proof {
        reveal_strlit("yes");
        reveal_strlit("y");
        reveal_strlit("no");
        reveal_strlit("n");
        assert("yes"@.len() == 3);
        assert("y"@.len() == 1);
        assert("no"@.len() == 2);
        assert("n"@.len() == 1);
        assert("yes"@[0] == 'y' && "no"@[0] == 'n');
        assert("y"@[0] == 'y' && "n"@[0] == 'n');
    }
    if answer.unicode_len() == 0 {
        proof {
            assert(lower_seq(answer@).len() == 0);
        }
        return Some(default_yes);
    }
    if str_eq_lower(answer, "yes") || str_eq_lower(answer, "y") {
        return Some(true);
    }
    if str_eq_lower(answer, "no") || str_eq_lower(answer, "n") {
        return Some(false);
    }
    None
}

/// Reads the loader choice, case-blind: by number or by name; anything
/// unrecognized asks again.
pub fn interpret_loader_choice(answer: &str) -> (r: Option<i8>)
    ensures
        lower_seq(answer@) == "1"@ || lower_seq(answer@) == "vanilla"@ ==> r == Some(1i8),
        lower_seq(answer@) == "2"@ || lower_seq(answer@) == "fabric"@ ==> r == Some(2i8),
        lower_seq(answer@) != "1"@ && lower_seq(answer@) != "vanilla"@ && lower_seq(answer@)
            != "2"@ && lower_seq(answer@) != "fabric"@ ==> r is None,
{
    proof {
        reveal_strlit("1");
        reveal_strlit("vanilla");
        reveal_strlit("2");
        reveal_strlit("fabric");
        assert("1"@.len() == 1);
        assert("2"@.len() == 1);
        assert("vanilla"@.len() == 7);
        assert("fabric"@.len() == 6);
        assert("1"@[0] == '1' && "2"@[0] == '2');
    }
    if str_eq_lower(answer, "1") || str_eq_lower(answer, "vanilla") {
        return Some(1);
    }
    if str_eq_lower(answer, "2") || str_eq_lower(answer, "fabric") {
        return Some(2);
    }
    None
}

} // verus!
