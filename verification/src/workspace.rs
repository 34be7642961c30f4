use vstd::prelude::*;

verus! {

/// An ASCII word character: a letter, a digit or an underscore.
pub open spec fn is_word_char(c: char) -> bool {
    (48 <= c as u32 && c as u32 <= 57) || (65 <= c as u32 && c as u32 <= 90) || (97 <= c as u32
        && c as u32 <= 122) || c as u32 == 95
}

/// The ASCII-lowercase of a character.
pub open spec fn lower_char(c: char) -> char {
    if 65 <= c as u32 && c as u32 <= 90 {
        ((c as u32 + 32) as u8) as char
    } else {
        c
    }
}

/// What one character of a requested workspace name becomes: a space turns
/// into an underscore, a word character is kept lowercased, anything else
/// is dropped.
pub open spec fn sanitize_char(c: char) -> Seq<char> {
    if c == ' ' {
        seq!['_']
    } else if is_word_char(c) {
        seq![lower_char(c)]
    } else {
        Seq::empty()
    }
}

/// A whole requested name sanitized, character by character.
pub open spec fn sanitize_seq(s: Seq<char>) -> Seq<char>
    decreases s.len(),
{
    if s.len() == 0 {
        Seq::empty()
    } else {
        sanitize_seq(s.drop_last()) + sanitize_char(s.last())
    }
}

/// Sanitizes a requested workspace name; a name that sanitizes away
/// entirely falls back to the fixed default.
pub fn sanitize_folder_name(input: &str) -> (r: String)
    ensures
        sanitize_seq(input@).len() > 0 ==> r@ == sanitize_seq(input@),
        sanitize_seq(input@).len() == 0 ==> r@ == "minecraft_server"@,
{
    let len = input.unicode_len();
    let mut out = String::new();
    let mut i: usize = 0;
    while i < len
        invariant
            i <= len,
            len == input@.len(),
            out@ == sanitize_seq(input@.take(i as int)),
        decreases len - i,
    {
        let c = input.get_char(i);
        let cv = c as u32;
        proof {
            assert(input@.take(i + 1).drop_last() =~= input@.take(i as int));
            assert(input@.take(i + 1).last() == input@[i as int]);
        }
        if c == ' ' {
            out.push('_');
        } else if (48 <= cv && cv <= 57) || (97 <= cv && cv <= 122) || cv == 95 {
            out.push(c);
        } else if 65 <= cv && cv <= 90 {
            out.push(((cv + 32) as u8) as char);
        }
        proof {
            assert(out@ =~= sanitize_seq(input@.take(i + 1)));
        }
        i = i + 1;
    }
    proof {
        assert(input@.take(len as int) =~= input@);
    }
    if out.unicode_len() == 0 {
        return String::from_str("minecraft_server");
    }
    out
}

} // verus!
