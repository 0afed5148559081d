use vstd::prelude::*;
use vstd::utf8::*;
use vstd::string::*;

verus! {

/// The ASCII characters that separate words of a header value.
pub open spec fn is_space(c: char) -> bool {
    c == ' ' || ('\t' <= c && c <= '\r')
}

/// The length of `s` once trailing spaces are cut off.
pub open spec fn trimmed_len(s: Seq<char>) -> int
    decreases s.len(),
{
    if s.len() == 0 {
        0
    } else if is_space(s.last()) {
        trimmed_len(s.drop_last())
    } else {
        s.len() as int
    }
}

/// Where the last run of non-space characters of `s` begins.
pub open spec fn word_start(s: Seq<char>) -> int
    decreases s.len(),
{
    if s.len() == 0 {
        0
    } else if is_space(s.last()) {
        s.len() as int
    } else {
        word_start(s.drop_last())
    }
}

/// The last whitespace-separated word of a header value, if it has one.
pub open spec fn last_word(s: Seq<char>) -> Option<Seq<char>> {
    let e = trimmed_len(s);
    if e == 0 {
        None
    } else {
        Some(s.subrange(word_start(s.subrange(0, e)), e))
    }
}

proof fn lemma_word_start_after_space(p: Seq<char>, t: Seq<char>)
    requires
        p.len() > 0,
        is_space(p.last()),
        forall|i: int| 0 <= i < t.len() ==> !is_space(#[trigger] t[i]),
    ensures
        word_start(p + t) == p.len(),
    decreases t.len(),
{
    if t.len() == 0 {
        assert(p + t =~= p);
    } else {
        assert((p + t).drop_last() =~= p + t.drop_last());
        lemma_word_start_after_space(p, t.drop_last());
    }
}

/// A word that follows a space ends the header value, so it is the value's last word.
pub proof fn lemma_last_word_after_space(p: Seq<char>, t: Seq<char>)
    requires
        p.len() > 0,
        is_space(p.last()),
        t.len() > 0,
        forall|i: int| 0 <= i < t.len() ==> !is_space(#[trigger] t[i]),
    ensures
        last_word(p + t) == Some(t),
{
    let s = p + t;
    assert(s.last() == t.last());
    assert(trimmed_len(s) == s.len());
    assert(s.subrange(0, s.len() as int) =~= s);
    lemma_word_start_after_space(p, t);
    assert(s.subrange(p.len() as int, s.len() as int) =~= t);
}

fn is_space_byte(b: u8) -> (r: bool)
    ensures
        r == is_space(b as char),
{
    b == 32u8 || (9u8 <= b && b <= 13u8)
}

proof fn lemma_ascii_sub(s: &str, a: int, b: int)
    requires
        is_ascii_chars(s@),
        0 <= a <= b <= s@.len(),
    ensures
        s.spec_bytes().len() == s@.len(),
        encode_utf8(s@.subrange(a, b)) == s.spec_bytes().subrange(a, b),
        is_char_boundary(s.spec_bytes(), a),
{
    broadcast use is_ascii_chars_encode_utf8, encode_utf8_valid_utf8;
    let sub = s@.subrange(a, b);
    assert(is_ascii_chars(sub));
    assert(encode_utf8(sub) =~= s.spec_bytes().subrange(a, b));
    let bytes = encode_utf8(s@);
    assert(valid_utf8(bytes));
    if a < s@.len() {
        is_char_boundary_iff_not_is_continuation_byte(bytes, a);
        assert(bytes[a] == s@[a] as u8);
        assert('\0' <= s@[a] <= '\u{7f}');
        assert(!is_continuation_byte(bytes[a]));
    } else {
        is_char_boundary_start_end_of_seq(bytes);
    }
}

/// The token of an `Authorization` header value: its last whitespace-separated word. Header
/// values are visible ASCII; any other value holds no token.
pub fn bearer_token(value: &str) -> (r: Option<&str>)
    ensures
        r is Some <==> is_ascii_chars(value@) && last_word(value@) is Some,
        r matches Some(w) ==> Some(w@) == last_word(value@),
{
    if !value.is_ascii() {
        return None;
    }
    let bytes = value.as_bytes();
    proof {
        broadcast use is_ascii_chars_encode_utf8;
        lemma_ascii_sub(value, 0, value@.len() as int);
        assert(value@.subrange(0, value@.len() as int) =~= value@);
    }
    let ghost s = value@;
    let mut end: usize = bytes.len();
    while end > 0 && is_space_byte(bytes[end - 1])
        invariant
            bytes@ == value.spec_bytes(),
            bytes@.len() == s.len(),
            forall|i: int| 0 <= i < s.len() ==> s[i] as u8 == #[trigger] bytes@[i],
            is_ascii_chars(s),
            0 <= end <= s.len(),
            trimmed_len(s.subrange(0, end as int)) == trimmed_len(s),
        decreases end,
    {
        proof {
            let t = s.subrange(0, end as int);
            assert(t.drop_last() =~= s.subrange(0, end - 1));
            assert(is_space(t.last()));
        }
        end = end - 1;
    }
    proof {
        let t = s.subrange(0, end as int);
        if end > 0 {
            assert(!is_space(t.last()));
        }
        assert(trimmed_len(t) == end as int);
    }
    if end == 0 {
        return None;
    }
    let ghost w = s.subrange(0, end as int);
    let mut start: usize = end;
    while start > 0 && !is_space_byte(bytes[start - 1])
        invariant
            bytes@.len() == s.len(),
            forall|i: int| 0 <= i < s.len() ==> s[i] as u8 == #[trigger] bytes@[i],
            is_ascii_chars(s),
            0 <= start <= end <= s.len(),
            w == s.subrange(0, end as int),
            !is_space(w.last()),
            start < end ==> word_start(s.subrange(0, start as int)) == word_start(w),
        decreases start,
    {
        proof {
            let t = s.subrange(0, start as int);
            assert(t.drop_last() =~= s.subrange(0, start - 1));
            assert(!is_space(t.last()));
            if start == end {
                assert(t == w);
            }
        }
        start = start - 1;
    }
    proof {
        let t = s.subrange(0, start as int);
        if start == end {
            assert(w.drop_last() =~= t);
            if start > 0 {
                assert(is_space(t.last()));
            }
        } else if start > 0 {
            assert(is_space(t.last()));
        }
        assert(word_start(w) == start as int);
    }
    proof {
        lemma_ascii_sub(value, start as int, s.len() as int);
    }
    let (_, tail) = value.split_at(start);
    proof {
        broadcast use encode_utf8_decode_utf8;
        assert(tail.spec_bytes() =~= encode_utf8(s.subrange(start as int, s.len() as int)));
        assert(tail@ == decode_utf8(tail.spec_bytes()));
        assert(tail@ == s.subrange(start as int, s.len() as int));
        assert(is_ascii_chars(tail@));
        lemma_ascii_sub(tail, (end - start) as int, tail@.len() as int);
        lemma_ascii_sub(tail, 0, (end - start) as int);
    }
    let (word, _) = tail.split_at(end - start);
    proof {
        broadcast use encode_utf8_decode_utf8;
        assert(word.spec_bytes() =~= encode_utf8(tail@.subrange(0, (end - start) as int)));
        assert(word@ == decode_utf8(word.spec_bytes()));
        assert(word@ =~= s.subrange(start as int, end as int));
    }
    Some(word)
}

} // verus!
