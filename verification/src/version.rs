use vstd::prelude::*;

use crate::errors::VersionError;
use crate::strutil::split_on;
use crate::strutil::split_str;

verus! {

/// One decimal digit.
pub open spec fn is_digit_char(c: char) -> bool {
    48 <= c as u32 && c as u32 <= 57
}

/// Numeric value of a decimal digit.
pub open spec fn digit_val(c: char) -> int {
    c as u32 - 48
}

/// A dotted-version segment is numeric when it is nonempty and all digits.
pub open spec fn seg_numeric(s: Seq<char>) -> bool {
    s.len() > 0 && (forall|i: int| 0 <= i < s.len() ==> is_digit_char(s[i]))
}

/// Decimal value of a digit sequence.
pub open spec fn seg_value(s: Seq<char>) -> int
    decreases s.len(),
{
    if s.len() == 0 {
        0
    } else {
        seg_value(s.drop_last()) * 10 + digit_val(s.last())
    }
}

/// A segment parses as a small integer: numeric and within the range
/// the tool accepts for a version segment.
pub open spec fn seg_fits(s: Seq<char>) -> bool {
    seg_numeric(s) && seg_value(s) <= 127
}

/// Appending digits never shrinks the value.
proof fn lemma_seg_value_monotone(s: Seq<char>, i: int, j: int)
    requires
        0 <= i <= j <= s.len(),
        forall|k: int| 0 <= k < j ==> is_digit_char(s[k]),
    ensures
        seg_value(s.take(j)) >= seg_value(s.take(i)),
    decreases j - i,
{
    if i < j {
        lemma_seg_value_monotone(s, i, j - 1);
        assert(s.take(j).drop_last() =~= s.take(j - 1));
        assert(seg_value(s.take(j)) == seg_value(s.take(j - 1)) * 10 + digit_val(s[j - 1]));
        assert(forall|k: int| 0 <= k < s.take(j - 1).len() ==> #[trigger] is_digit_char(
            s.take(j - 1)[k],
        ));
        lemma_seg_value_nonneg(s.take(j - 1));
        assert(seg_value(s.take(j - 1)) * 10 >= seg_value(s.take(j - 1))) by (nonlinear_arith)
            requires
                seg_value(s.take(j - 1)) >= 0,
        {
        }
    }
}

/// The value of an all-digit sequence is never negative.
proof fn lemma_seg_value_nonneg(s: Seq<char>)
    requires
        forall|k: int| 0 <= k < s.len() ==> is_digit_char(s[k]),
    ensures
        seg_value(s) >= 0,
    decreases s.len(),
{
    if s.len() > 0 {
        lemma_seg_value_nonneg(s.drop_last());
    }
}

/// Parses a dotted-version segment as a small non-negative integer,
/// refusing anything non-numeric or too large.
pub fn parse_segment(s: &str) -> (r: Option<u8>)
    ensures
        r is Some <==> seg_fits(s@),
        r matches Some(v) ==> v as int == seg_value(s@),
{
    let len = s.unicode_len();
    if len == 0 {
        return None;
    }
    let mut val: u32 = 0;
    let mut i: usize = 0;
    while i < len
        invariant
            0 < len,
            len == s@.len(),
            i <= len,
            forall|j: int| 0 <= j < i ==> is_digit_char(s@[j]),
            val as int == seg_value(s@.take(i as int)),
            val <= 127,
        decreases len - i,
    {
        let c = s.get_char(i);
        let cv = c as u32;
        if cv < 48 || cv > 57 {
            return None;
        }
        let d = cv - 48;
        proof {
            assert(s@.take(i + 1).drop_last() =~= s@.take(i as int));
            assert(s@.take(i + 1).last() == s@[i as int]);
        }
        if val * 10 + d > 127 {
            proof {
                if seg_numeric(s@) {
                    lemma_seg_value_monotone(s@, i + 1, s@.len() as int);
                    assert(s@.take(s@.len() as int) =~= s@);
                }
            }
            return None;
        }
        val = val * 10 + d;
        i = i + 1;
    }
    proof {
        assert(s@.take(len as int) =~= s@);
    }
    Some(val as u8)
}

/// The dotted segments of a version string.
pub open spec fn version_parts(s: Seq<char>) -> Seq<Seq<char>> {
    split_on(s, '.')
}

/// The second dotted segment exists and parses: the tool treats it as the
/// effective ordinal of the version.
pub open spec fn has_ordinal(s: Seq<char>) -> bool {
    version_parts(s).len() >= 2 && seg_fits(version_parts(s)[1])
}

/// The effective ordinal: the value of the second dotted segment.
pub open spec fn ordinal_of(s: Seq<char>) -> int {
    seg_value(version_parts(s)[1])
}

/// The third dotted segment, where present, parses.
pub open spec fn has_sub(s: Seq<char>) -> bool {
    version_parts(s).len() < 3 || seg_fits(version_parts(s)[2])
}

/// The sub-ordinal: the value of the third dotted segment, or 0 when absent.
pub open spec fn sub_of(s: Seq<char>) -> int {
    if version_parts(s).len() >= 3 {
        seg_value(version_parts(s)[2])
    } else {
        0
    }
}

/// The minimum-version gate: versions below ordinal 2, or at ordinal 2 with
/// a sub-ordinal below 5, are unsupported.
pub open spec fn version_supported(s: Seq<char>) -> bool {
    !(ordinal_of(s) < 2 || (ordinal_of(s) == 2 && sub_of(s) < 5))
}

/// The license file exists only from ordinal 7, sub-ordinal 10 onward.
pub open spec fn eula_present(s: Seq<char>) -> bool {
    !(ordinal_of(s) < 7 || (ordinal_of(s) == 7 && sub_of(s) < 10))
}

/// Every character is a digit or a dot.
pub open spec fn version_chars_ok(s: Seq<char>) -> bool {
    forall|i: int| 0 <= i < s.len() ==> (is_digit_char(s[i]) || s[i] == '.')
}

/// Checks that a version string holds only digits and dots.
pub fn check_version_chars(s: &str) -> (r: bool)
    ensures
        r <==> version_chars_ok(s@),
{
    let len = s.unicode_len();
    let mut i: usize = 0;
    while i < len
        invariant
            i <= len,
            len == s@.len(),
            forall|j: int| 0 <= j < i ==> (is_digit_char(s@[j]) || s@[j] == '.'),
        decreases len - i,
    {
        let c = s.get_char(i);
        let cv = c as u32;
        if (cv < 48 || cv > 57) && c != '.' {
            return false;
        }
        i = i + 1;
    }
    true
}

/// What the minimum-version gate answers for a version string.
///
/// The ordinal is read first, so a version already below the minimum is
/// reported unsupported even when its remaining segments do not parse.
pub open spec fn gate_spec(s: Seq<char>) -> Result<(), VersionError> {
    if !has_ordinal(s) {
        Err(VersionError::ParseFailure)
    } else if ordinal_of(s) < 2 {
        Err(VersionError::Unsupported)
    } else if !has_sub(s) {
        Err(VersionError::ParseFailure)
    } else if !version_supported(s) {
        Err(VersionError::Unsupported)
    } else {
        Ok(())
    }
}

/// What the license-step decision answers for a version string.
pub open spec fn eula_spec(s: Seq<char>) -> Result<bool, VersionError> {
    if !has_ordinal(s) || !has_sub(s) {
        Err(VersionError::ParseFailure)
    } else {
        Ok(eula_present(s))
    }
}

/// Applies the minimum-version gate to a version string.
pub fn version_gate(s: &str) -> (r: Result<(), VersionError>)
    ensures
        r == gate_spec(s@),
{
    let parts = split_str(s, '.');
    if parts.len() < 2 {
        return Err(VersionError::ParseFailure);
    }
    let ordinal = match parse_segment(parts[1].as_str()) {
        Some(v) => v,
        None => {
            return Err(VersionError::ParseFailure);
        },
    };
    if ordinal < 2 {
        return Err(VersionError::Unsupported);
    }
    let sub: u8 = if parts.len() >= 3 {
        match parse_segment(parts[2].as_str()) {
            Some(v) => v,
            None => {
                return Err(VersionError::ParseFailure);
            },
        }
    } else {
        0
    };
    if ordinal == 2 && sub < 5 {
        return Err(VersionError::Unsupported);
    }
    Ok(())
}

/// Decides whether the license-acceptance step applies to a version:
/// it does only from ordinal 7, sub-ordinal 10 onward.
pub fn eula_applicable(s: &str) -> (r: Result<bool, VersionError>)
    ensures
        r == eula_spec(s@),
{
    let parts = split_str(s, '.');
    if parts.len() < 2 {
        return Err(VersionError::ParseFailure);
    }
    let ordinal = match parse_segment(parts[1].as_str()) {
        Some(v) => v,
        None => {
            return Err(VersionError::ParseFailure);
        },
    };
    let sub: u8 = if parts.len() >= 3 {
        match parse_segment(parts[2].as_str()) {
            Some(v) => v,
            None => {
                return Err(VersionError::ParseFailure);
            },
        }
    } else {
        0
    };
    Ok(!(ordinal < 7 || (ordinal == 7 && sub < 10)))
}

} // verus!
