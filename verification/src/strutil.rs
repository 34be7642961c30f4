use vstd::prelude::*;

verus! {

/// Relies on std's String::push: appends one character at the end.
pub assume_specification[ String::push ](s: &mut String, c: char)
    ensures
        final(s)@ == old(s)@.push(c),
;

/// `s` split at every occurrence of `sep`, character by character: an empty
/// input is one empty piece, a leading `sep` opens a fresh piece, and any
/// other leading character extends the first piece of the rest.
pub open spec fn split_on(s: Seq<char>, sep: char) -> Seq<Seq<char>>
    decreases s.len(),
{
    if s.len() == 0 {
        seq![Seq::<char>::empty()]
    } else if s[0] == sep {
        seq![Seq::<char>::empty()] + split_on(s.subrange(1, s.len() as int), sep)
    } else {
        let rest = split_on(s.subrange(1, s.len() as int), sep);
        seq![seq![s[0]] + rest[0]] + rest.subrange(1, rest.len() as int)
    }
}

/// Splitting yields at least one piece.
pub proof fn lemma_split_on_nonempty(s: Seq<char>, sep: char)
    ensures
        split_on(s, sep).len() >= 1,
    decreases s.len(),
{
    if s.len() == 0 {
    } else {
        lemma_split_on_nonempty(s.subrange(1, s.len() as int), sep);
    }
}

/// Splits `s` at every occurrence of `sep`.
pub fn split_str(s: &str, sep: char) -> (parts: Vec<String>)
    ensures
        parts.deep_view() == split_on(s@, sep),
{
    let len = s.unicode_len();
    let mut parts: Vec<String> = Vec::new();
    let mut cur: String = String::new();
    let mut i: usize = 0;
    proof {
        lemma_split_on_nonempty(s@, sep);
        assert(s@.subrange(0, s@.len() as int) =~= s@);
    }
    while i < len
        invariant
            i <= len,
            len == s@.len(),
            split_on(s@.subrange(i as int, s@.len() as int), sep).len() >= 1,
            split_on(s@, sep) =~= parts.deep_view() + seq![
                cur@ + split_on(s@.subrange(i as int, s@.len() as int), sep)[0],
            ] + split_on(s@.subrange(i as int, s@.len() as int), sep).subrange(
                1,
                split_on(s@.subrange(i as int, s@.len() as int), sep).len() as int,
            ),
        decreases len - i,
    {
        let ghost tail_i = s@.subrange(i as int, s@.len() as int);
        let ghost tail_next = s@.subrange(i as int + 1, s@.len() as int);
        proof {
            lemma_split_on_nonempty(tail_next, sep);
            assert(tail_i[0] == s@[i as int]);
            assert(tail_i.subrange(1, tail_i.len() as int) =~= tail_next);
        }
        let c = s.get_char(i);
        if c == sep {
            let done = cur;
            cur = String::new();
            parts.push(done);
            proof {
                assert(split_on(tail_i, sep) =~= seq![Seq::<char>::empty()] + split_on(
                    tail_next,
                    sep,
                ));
                assert(split_on(tail_i, sep)[0] =~= Seq::<char>::empty());
                assert(split_on(tail_i, sep).subrange(1, split_on(tail_i, sep).len() as int)
                    =~= split_on(tail_next, sep));
                assert(split_on(s@, sep) =~= parts.deep_view() + seq![
                    cur@ + split_on(tail_next, sep)[0],
                ] + split_on(tail_next, sep).subrange(1, split_on(tail_next, sep).len() as int));
            }
        } else {
            let ghost old_cur = cur@;
            cur.push(c);
            proof {
                let rest = split_on(tail_next, sep);
                assert(split_on(tail_i, sep) =~= seq![seq![s@[i as int]] + rest[0]] + rest.subrange(
                    1,
                    rest.len() as int,
                ));
                assert(cur@ =~= old_cur.push(c));
                assert(cur@ + rest[0] =~= old_cur + split_on(tail_i, sep)[0]);
                assert(split_on(tail_i, sep).subrange(1, split_on(tail_i, sep).len() as int)
                    =~= rest.subrange(1, rest.len() as int));
                assert(split_on(s@, sep) =~= parts.deep_view() + seq![cur@ + rest[0]]
                    + rest.subrange(1, rest.len() as int));
            }
        }
        i = i + 1;
    }
    proof {
        let ghost tail = s@.subrange(i as int, s@.len() as int);
        assert(tail =~= Seq::<char>::empty());
        assert(split_on(tail, sep) =~= seq![Seq::<char>::empty()]);
    }
    parts.push(cur);
    proof {
        assert(parts.deep_view() =~= split_on(s@, sep));
    }
    parts
}

/// Character-for-character string equality.
pub fn str_eq(a: &str, b: &str) -> (r: bool)
    ensures
        r <==> a@ == b@,
{
    let alen = a.unicode_len();
    let blen = b.unicode_len();
    if alen != blen {
        return false;
    }
    let mut i: usize = 0;
    while i < alen
        invariant
            i <= alen,
            alen == a@.len(),
            alen == b@.len(),
            forall|j: int| 0 <= j < i ==> a@[j] == b@[j],
        decreases alen - i,
    {
        if a.get_char(i) != b.get_char(i) {
            return false;
        }
        i = i + 1;
    }
    proof {
        assert(a@ =~= b@);
    }
    true
}

} // verus!
