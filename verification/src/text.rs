//! Small text helpers: building strings from parsed bytes, and the
//! line, word and substring machinery the route-text parsers rest on.

use vstd::prelude::*;

verus! {

/// Relies on std's `String::push`: appends exactly the one character.
#[verifier::external_body]
pub(crate) fn push_char(s: &mut String, c: char)
    ensures
        final(s)@ == old(s)@.push(c),
{
    s.push(c);
}

/// Relies on std's `String::from_utf8`: it accepts exactly the valid
/// UTF-8 byte sequences and yields their decoding (vstd defines a
/// string's bytes as the UTF-8 encoding of its characters, so the
/// contract is stated in vstd's own UTF-8 vocabulary).
#[verifier::external_body]
pub(crate) fn utf8_string(b: Vec<u8>) -> (r: Result<String, ()>)
    ensures
        r matches Ok(s) ==> vstd::utf8::valid_utf8(b@) && s@ == vstd::utf8::decode_utf8(b@),
        r is Err ==> !vstd::utf8::valid_utf8(b@),
{
    match String::from_utf8(b) {
        Ok(s) => Ok(s),
        Err(_) => Err(()),
    }
}

/// Copies the bytes `b[from..to]` into a vector.
pub fn bytes_of(b: &[u8], from: usize, to: usize) -> (r: Vec<u8>)
    requires
        from <= to <= b@.len(),
    ensures
        r@ == b@.subrange(from as int, to as int),
{
    let mut v: Vec<u8> = Vec::new();
    let mut i: usize = from;
    while i < to
        invariant
            from <= i <= to <= b@.len(),
            v@ == b@.subrange(from as int, i as int),
        decreases to - i,
    {
        v.push(b[i]);
        i = i + 1;
        proof {
            assert(v@ =~= b@.subrange(from as int, i as int));
        }
    }
    proof {
        assert(v@ =~= b@.subrange(from as int, to as int));
    }
    v
}

/// Compares two byte vectors for equality of contents.
pub fn vec_u8_eq(a: &Vec<u8>, b: &Vec<u8>) -> (r: bool)
    ensures
        r == (a@ == b@),
{
    if a.len() != b.len() {
        return false;
    }
    let mut i: usize = 0;
    while i < a.len()
        invariant
            i <= a.len(),
            a@.len() == b@.len(),
            forall|j: int| 0 <= j < i ==> a@[j] == b@[j],
        decreases a.len() - i,
    {
        if a[i] != b[i] {
            return false;
        }
        i = i + 1;
    }
    proof {
        assert(a@ =~= b@);
    }
    true
}

} // verus!

verus! {

/// ASCII whitespace, as the fields of route listings are separated.
pub open spec fn is_ascii_ws(c: char) -> bool {
    c == ' ' || c == '\t' || c == '\n' || c == '\r' || c == '\u{c}'
}

/// Exec form of the whitespace test.
pub fn ascii_ws(c: char) -> (r: bool)
    ensures
        r == is_ascii_ws(c),
{
    c == ' ' || c == '\t' || c == '\n' || c == '\r' || c == '\u{c}'
}

/// The index just past the word starting at `i`: the first whitespace
/// position at or after `i`, or the end.
pub open spec fn word_end(s: Seq<char>, i: int) -> int
    decreases s.len() - i,
{
    if i < 0 || i >= s.len() || is_ascii_ws(s[i]) {
        i
    } else {
        word_end(s, i + 1)
    }
}

/// A word's end never lies before its start and never past the end.
pub proof fn lemma_word_end_bounds(s: Seq<char>, i: int)
    requires
        0 <= i <= s.len(),
    ensures
        i <= word_end(s, i) <= s.len(),
    decreases s.len() - i,
{
    if i < s.len() && !is_ascii_ws(s[i]) {
        lemma_word_end_bounds(s, i + 1);
    }
}

/// The whitespace-separated words of `s`, from position `i` on.
pub open spec fn spec_words_from(s: Seq<char>, i: int) -> Seq<Seq<char>>
    decreases s.len() - i,
{
    if i < 0 || i >= s.len() {
        Seq::empty()
    } else if is_ascii_ws(s[i]) {
        spec_words_from(s, i + 1)
    } else {
        let e = if i < word_end(s, i) && word_end(s, i) <= s.len() {
            word_end(s, i)
        } else {
            i + 1
        };
        seq![s.subrange(i, e)] + spec_words_from(s, e)
    }
}

/// The whitespace-separated words of `s`.
pub open spec fn spec_words(s: Seq<char>) -> Seq<Seq<char>> {
    spec_words_from(s, 0)
}

/// The index of the newline ending the line that starts at `i`, or the
/// end.
pub open spec fn line_end(s: Seq<char>, i: int) -> int
    decreases s.len() - i,
{
    if i < 0 || i >= s.len() || s[i] == '\n' {
        i
    } else {
        line_end(s, i + 1)
    }
}

/// A line's end never lies before its start and never past the end.
pub proof fn lemma_line_end_bounds(s: Seq<char>, i: int)
    requires
        0 <= i <= s.len(),
    ensures
        i <= line_end(s, i) <= s.len(),
    decreases s.len() - i,
{
    if i < s.len() && s[i] != '\n' {
        lemma_line_end_bounds(s, i + 1);
    }
}

/// A line without its trailing carriage return, if it has one.
pub open spec fn strip_cr(l: Seq<char>) -> Seq<char> {
    if l.len() > 0 && l[l.len() - 1] == '\r' {
        l.drop_last()
    } else {
        l
    }
}

/// The lines of `s` from position `i` on: split at newlines, each
/// without its terminator, a trailing final newline producing no empty
/// line.
pub open spec fn spec_lines_from(s: Seq<char>, i: int) -> Seq<Seq<char>>
    decreases s.len() + 1 - i,
{
    if i < 0 || i >= s.len() {
        Seq::empty()
    } else {
        let e = if i <= line_end(s, i) && line_end(s, i) <= s.len() {
            line_end(s, i)
        } else {
            i
        };
        seq![strip_cr(s.subrange(i, e))] + spec_lines_from(s, e + 1)
    }
}

/// The lines of `s`.
pub open spec fn spec_lines(s: Seq<char>) -> Seq<Seq<char>> {
    spec_lines_from(s, 0)
}

/// The views of a vector of strings.
pub open spec fn string_views(v: Seq<String>) -> Seq<Seq<char>> {
    v.map_values(|w: String| w@)
}

/// Splits `s` into its whitespace-separated words.
pub fn words_of(s: &str) -> (r: Vec<String>)
    ensures
        string_views(r@) == spec_words(s@),
{
    let n = s.unicode_len();
    let mut out: Vec<String> = Vec::new();
    let mut i: usize = 0;
    proof {
        assert(string_views(out@) + spec_words_from(s@, 0) =~= spec_words_from(s@, 0));
    }
    while i < n
        invariant
            i <= n,
            n == s@.len(),
            spec_words(s@) == string_views(out@) + spec_words_from(s@, i as int),
        decreases n - i,
    {
        let c = s.get_char(i);
        if ascii_ws(c) {
            i = i + 1;
            proof {
                assert(string_views(out@) + spec_words_from(s@, i - 1) =~= string_views(out@)
                    + spec_words_from(s@, i as int));
            }
        } else {
            let ghost start = i as int;
            let mut w = String::new();
            let mut j: usize = i;
            proof {
                lemma_word_end_bounds(s@, start);
                assert(w@ =~= s@.subrange(start, start));
            }
            while j < n && !ascii_ws(s.get_char(j))
                invariant
                    0 <= start <= j <= n,
                    n == s@.len(),
                    w@ == s@.subrange(start, j as int),
                    word_end(s@, start) == word_end(s@, j as int),
                decreases n - j,
            {
                push_char(&mut w, s.get_char(j));
                j = j + 1;
                proof {
                    assert(w@ =~= s@.subrange(start, j as int));
                }
            }
            proof {
                assert(word_end(s@, j as int) == j);
                assert(word_end(s@, start) == j);
                assert(j > start);
            }
            out.push(w);
            i = j;
            proof {
                assert(spec_words_from(s@, start) == seq![s@.subrange(start, j as int)]
                    + spec_words_from(s@, j as int));
                assert(string_views(out@) =~= string_views(out@.drop_last()).push(
                    s@.subrange(start, j as int),
                ));
                assert(string_views(out@.drop_last()) + spec_words_from(s@, start) =~= (
                string_views(out@.drop_last()).push(s@.subrange(start, j as int)))
                    + spec_words_from(s@, j as int));
            }
        }
    }
    proof {
        assert(spec_words_from(s@, i as int) =~= Seq::<Seq<char>>::empty());
        assert(string_views(out@) + Seq::<Seq<char>>::empty() =~= string_views(out@));
    }
    out
}

/// Splits `s` into its lines.
pub fn lines_of(s: &str) -> (r: Vec<String>)
    ensures
        string_views(r@) == spec_lines(s@),
{
    let n = s.unicode_len();
    let mut out: Vec<String> = Vec::new();
    let mut i: usize = 0;
    proof {
        assert(string_views(out@) + spec_lines_from(s@, 0) =~= spec_lines_from(s@, 0));
    }
    while i < n
        invariant
            i <= n,
            n == s@.len(),
            spec_lines(s@) == string_views(out@) + spec_lines_from(s@, i as int),
        decreases n - i,
    {
        let ghost start = i as int;
        let mut l = String::new();
        let mut j: usize = i;
        proof {
            lemma_line_end_bounds(s@, start);
            assert(l@ =~= s@.subrange(start, start));
        }
        while j < n && s.get_char(j) != '\n'
            invariant
                0 <= start <= j <= n,
                n == s@.len(),
                l@ == s@.subrange(start, j as int),
                line_end(s@, start) == line_end(s@, j as int),
            decreases n - j,
        {
            push_char(&mut l, s.get_char(j));
            j = j + 1;
            proof {
                assert(l@ =~= s@.subrange(start, j as int));
            }
        }
        proof {
            assert(line_end(s@, j as int) == j);
            assert(line_end(s@, start) == j);
        }
        // Drop a trailing carriage return, as std's line iterator does.
        let llen = j - i;
        let stripped = if llen > 0 {
            let last = l.as_str().get_char(llen - 1);
            if last == '\r' {
                let ghost lv = l@;
                let r2 = substring_to(&l, llen - 1);
                proof {
                    assert(r2@ =~= strip_cr(lv));
                }
                r2
            } else {
                l
            }
        } else {
            l
        };
        proof {
            assert(stripped@ =~= strip_cr(s@.subrange(start, j as int)));
        }
        out.push(stripped);
        proof {
            assert(spec_lines_from(s@, start) == seq![strip_cr(s@.subrange(start, j as int))]
                + spec_lines_from(s@, j + 1));
            assert(string_views(out@) =~= string_views(out@.drop_last()).push(
                strip_cr(s@.subrange(start, j as int)),
            ));
            assert(string_views(out@.drop_last()) + spec_lines_from(s@, start) =~= (string_views(
                out@.drop_last(),
            ).push(strip_cr(s@.subrange(start, j as int)))) + spec_lines_from(s@, j + 1));
        }
        if j < n {
            i = j + 1;
        } else {
            i = n;
            proof {
                assert(spec_lines_from(s@, j + 1) =~= spec_lines_from(s@, n as int));
            }
        }
    }
    proof {
        assert(spec_lines_from(s@, i as int) =~= Seq::<Seq<char>>::empty());
        assert(string_views(out@) + Seq::<Seq<char>>::empty() =~= string_views(out@));
    }
    out
}

/// The first characters of `s`, up to position `to`.
fn substring_to(s: &String, to: usize) -> (r: String)
    requires
        to <= s@.len(),
    ensures
        r@ == s@.subrange(0, to as int),
{
    let mut r = String::new();
    let mut i: usize = 0;
    while i < to
        invariant
            i <= to <= s@.len(),
            r@ == s@.subrange(0, i as int),
        decreases to - i,
    {
        push_char(&mut r, s.as_str().get_char(i));
        i = i + 1;
        proof {
            assert(r@ =~= s@.subrange(0, i as int));
        }
    }
    r
}

/// Whether `a` begins with `pat`.
pub open spec fn spec_starts_with(a: Seq<char>, pat: Seq<char>) -> bool {
    a.len() >= pat.len() && a.subrange(0, pat.len() as int) == pat
}

/// Tests whether the string begins with the pattern.
pub fn starts_with_str(s: &String, pat: &str) -> (r: bool)
    ensures
        r == spec_starts_with(s@, pat@),
{
    let plen = pat.unicode_len();
    let slen = s.as_str().unicode_len();
    if slen < plen {
        return false;
    }
    let mut i: usize = 0;
    while i < plen
        invariant
            i <= plen,
            plen == pat@.len(),
            slen == s@.len(),
            slen >= plen,
            forall|k: int| 0 <= k < i ==> s@[k] == pat@[k],
        decreases plen - i,
    {
        if s.as_str().get_char(i) != pat.get_char(i) {
            return false;
        }
        i = i + 1;
    }
    proof {
        assert(s@.subrange(0, plen as int) =~= pat@);
    }
    true
}

/// Tests whether the string equals the pattern.
pub fn str_eq(s: &String, pat: &str) -> (r: bool)
    ensures
        r == (s@ == pat@),
{
    let plen = pat.unicode_len();
    let slen = s.as_str().unicode_len();
    if slen != plen {
        return false;
    }
    let mut i: usize = 0;
    while i < plen
        invariant
            i <= plen,
            plen == pat@.len(),
            slen == s@.len(),
            slen == plen,
            forall|k: int| 0 <= k < i ==> s@[k] == pat@[k],
        decreases plen - i,
    {
        if s.as_str().get_char(i) != pat.get_char(i) {
            return false;
        }
        i = i + 1;
    }
    proof {
        assert(s@ =~= pat@);
    }
    true
}

/// Whether `pat` occurs in `a` as a contiguous run.
pub open spec fn spec_contains_str(a: Seq<char>, pat: Seq<char>) -> bool {
    exists|k: int|
        0 <= k && k + pat.len() <= a.len() && #[trigger] a.subrange(k, k + pat.len() as int)
            == pat
}

/// Tests whether the string contains the pattern.
pub fn contains_str(s: &String, pat: &str) -> (r: bool)
    ensures
        r == spec_contains_str(s@, pat@),
{
    let plen = pat.unicode_len();
    let slen = s.as_str().unicode_len();
    if slen < plen {
        proof {
            assert(!spec_contains_str(s@, pat@));
        }
        return false;
    }
    if plen == 0 {
        proof {
            assert(s@.subrange(0, 0 + pat@.len() as int) =~= pat@);
            assert(spec_contains_str(s@, pat@));
        }
        return true;
    }
    let mut k: usize = 0;
    while k <= slen - plen
        invariant
            k <= slen - plen + 1,
            plen == pat@.len(),
            1 <= plen,
            slen == s@.len(),
            slen >= plen,
            forall|k0: int|
                0 <= k0 < k ==> #[trigger] s@.subrange(k0, k0 + pat@.len() as int) != pat@,
        decreases slen - plen - k + 1,
    {
        let mut i: usize = 0;
        let mut matched = true;
        while i < plen && matched
            invariant
                i <= plen,
                plen == pat@.len(),
                1 <= plen,
                slen == s@.len(),
                k + plen <= slen,
                matched ==> forall|j: int| 0 <= j < i ==> s@[k + j] == #[trigger] pat@[j],
                !matched ==> s@.subrange(k as int, k + pat@.len() as int) != pat@,
            decreases plen - i + (if matched { 1int } else { 0int }),
        {
            if s.as_str().get_char(k + i) != pat.get_char(i) {
                proof {
                    let ghost ii = i as int;
                    assert(s@.subrange(k as int, k + pat@.len() as int)[ii] != pat@[ii]);
                }
                matched = false;
            } else {
                i = i + 1;
            }
        }
        if matched {
            proof {
                assert(s@.subrange(k as int, k + pat@.len() as int) =~= pat@);
            }
            return true;
        }
        k = k + 1;
    }
    proof {
        assert forall|k0: int| 0 <= k0 && k0 + pat@.len() <= s@.len() implies #[trigger] s@
            .subrange(k0, k0 + pat@.len() as int) != pat@ by {
            assert(k0 < k);
        }
    }
    false
}

} // verus!
