//! ASCII text helpers shared by the colour resolver and the command
//! layer: lowercasing, underscore normalisation, joining tokens,
//! decimal digit parsing, and substring search.

use vstd::prelude::*;
use vstd::string::StrSliceExecFns;
use vstd::string::StringExecFns;

verus! {

/// ASCII whitespace, as `char::is_ascii_whitespace` defines it.
pub open spec fn is_space(c: char) -> bool {
    c == ' ' || c == '\t' || c == '\n' || c == '\r' || c == '\x0c'
}

/// ASCII uppercase letters map to their lowercase form; everything
/// else is unchanged.
pub open spec fn spec_lower_char(c: char) -> char {
    if 'A' <= c && c <= 'Z' {
        (((c as u8) + 32) as char)
    } else {
        c
    }
}

/// Underscores become spaces; everything else is unchanged.
pub open spec fn spec_underscore_to_space(c: char) -> char {
    if c == '_' {
        ' '
    } else {
        c
    }
}

pub open spec fn spec_lower(s: Seq<char>) -> Seq<char> {
    s.map_values(|c: char| spec_lower_char(c))
}

/// Lowercase a string and turn underscores into spaces: the canonical
/// form under which colour names are compared.
pub open spec fn spec_normalise(s: Seq<char>) -> Seq<char> {
    spec_lower(s).map_values(|c: char| spec_underscore_to_space(c))
}

/// The pieces joined with a single space between consecutive pieces.
pub open spec fn spec_join_spaces(parts: Seq<Seq<char>>) -> Seq<char>
    decreases parts.len(),
{
    if parts.len() == 0 {
        Seq::empty()
    } else if parts.len() == 1 {
        parts[0]
    } else {
        spec_join_spaces(parts.drop_last()) + seq![' '] + parts.last()
    }
}

pub open spec fn is_dec_digit(c: char) -> bool {
    '0' <= c && c <= '9'
}

pub open spec fn dec_digit_val(c: char) -> int {
    c as u8 - '0' as u8
}

pub open spec fn all_dec_digits(s: Seq<char>) -> bool {
    forall|i: int| 0 <= i < s.len() ==> is_dec_digit(#[trigger] s[i])
}

/// Value of a string of decimal digits, most significant first.
pub open spec fn spec_dec_value(s: Seq<char>) -> int
    decreases s.len(),
{
    if s.len() == 0 {
        0
    } else {
        spec_dec_value(s.drop_last()) * 10 + dec_digit_val(s.last())
    }
}

/// Whether a token parses as a decimal number no greater than `max`:
/// at least one digit, digits only, value in range.
pub open spec fn spec_dec_parses(s: Seq<char>, max: int) -> bool {
    s.len() > 0 && all_dec_digits(s) && spec_dec_value(s) <= max
}

pub open spec fn is_hex_digit(c: char) -> bool {
    ('0' <= c && c <= '9') || ('a' <= c && c <= 'f') || ('A' <= c && c <= 'F')
}

pub open spec fn hex_digit_val(c: char) -> int {
    if '0' <= c && c <= '9' {
        c as u8 - '0' as u8
    } else if 'a' <= c && c <= 'f' {
        c as u8 - 'a' as u8 + 10
    } else {
        c as u8 - 'A' as u8 + 10
    }
}

pub open spec fn all_hex_digits(s: Seq<char>) -> bool {
    forall|i: int| 0 <= i < s.len() ==> is_hex_digit(#[trigger] s[i])
}

/// Value of a string of hexadecimal digits, most significant first.
pub open spec fn spec_hex_value(s: Seq<char>) -> int
    decreases s.len(),
{
    if s.len() == 0 {
        0
    } else {
        spec_hex_value(s.drop_last()) * 16 + hex_digit_val(s.last())
    }
}

/// Whether `needle` occurs contiguously inside `hay`.
pub open spec fn spec_contains(hay: Seq<char>, needle: Seq<char>) -> bool {
    exists|k: int|
        0 <= k && k + needle.len() <= hay.len() && #[trigger] hay.subrange(k, k + needle.len())
            == needle
}

/// Relies on String::push: appends one character at the end.
#[verifier::external_body]
pub fn push_char(s: &mut String, c: char)
    ensures
        final(s)@ == old(s)@.push(c),
{
    s.push(c);
}

/// Lowercase one character, ASCII-style.
pub fn lower_char(c: char) -> (r: char)
    ensures
        r == spec_lower_char(c),
{
    if 'A' <= c && c <= 'Z' {
        ((c as u8) + 32) as char
    } else {
        c
    }
}

/// Lowercase a whole string, ASCII-style.
pub fn to_lower(s: &str) -> (r: String)
    ensures
        r@ == spec_lower(s@),
{
    let n: usize = s.unicode_len();
    let mut out = String::new();
    let mut i: usize = 0;
    while i < n
        invariant
            n == s@.len(),
            0 <= i <= n,
            out@ == spec_lower(s@.take(i as int)),
        decreases n - i,
    {
        let c = lower_char(s.get_char(i));
        push_char(&mut out, c);
        proof {
            assert(s@.take(i + 1).drop_last() =~= s@.take(i as int));
            assert(spec_lower(s@.take(i + 1)) =~= spec_lower(s@.take(i as int)).push(
                spec_lower_char(s@[i as int]),
            ));
        }
        i = i + 1;
    }
    proof {
        assert(s@.take(n as int) =~= s@);
    }
    out
}

/// Lowercase and replace underscores with spaces: the canonical form
/// of a colour name.
pub fn normalise(s: &str) -> (r: String)
    ensures
        r@ == spec_normalise(s@),
{
    let n: usize = s.unicode_len();
    let mut out = String::new();
    let mut i: usize = 0;
    while i < n
        invariant
            n == s@.len(),
            0 <= i <= n,
            out@ == spec_normalise(s@.take(i as int)),
        decreases n - i,
    {
        let lc = lower_char(s.get_char(i));
        let c = if lc == '_' {
            ' '
        } else {
            lc
        };
        push_char(&mut out, c);
        proof {
            assert(s@.take(i + 1).drop_last() =~= s@.take(i as int));
            assert(spec_normalise(s@.take(i + 1)) =~= spec_normalise(s@.take(i as int)).push(
                spec_underscore_to_space(spec_lower_char(s@[i as int])),
            ));
        }
        i = i + 1;
    }
    proof {
        assert(s@.take(n as int) =~= s@);
    }
    out
}

/// Whether the lowercased form of `s` equals `lit` exactly.
pub fn lower_eq(s: &str, lit: &str) -> (r: bool)
    ensures
        r == (spec_lower(s@) == lit@),
{
    let n: usize = s.unicode_len();
    let m: usize = lit.unicode_len();
    proof {
        assert(spec_lower(s@).len() == s@.len());
    }
    if n != m {
        return false;
    }
    let mut i: usize = 0;
    while i < n
        invariant
            n == s@.len(),
            n == lit@.len(),
            0 <= i <= n,
            forall|j: int| 0 <= j < i ==> spec_lower(s@)[j] == lit@[j],
        decreases n - i,
    {
        if lower_char(s.get_char(i)) != lit.get_char(i) {
            return false;
        }
        i = i + 1;
    }
    proof {
        assert(spec_lower(s@) =~= lit@);
    }
    true
}

/// Join string tokens with single spaces, as the resolver does before
/// looking a multi-word name up.
pub fn join_spaces(parts: &[String]) -> (r: String)
    ensures
        r@ == spec_join_spaces(parts.deep_view()),
{
    let mut out = String::new();
    let mut i: usize = 0;
    while i < parts.len()
        invariant
            0 <= i <= parts@.len(),
            parts.deep_view().len() == parts@.len(),
            out@ == spec_join_spaces(parts.deep_view().take(i as int)),
        decreases parts@.len() - i,
    {
        if i > 0 {
            push_char(&mut out, ' ');
        }
        let p = vstd::slice::slice_index_get(parts, i);
        out.append(p.as_str());
        proof {
            let dv = parts.deep_view();
            assert(dv.take(i + 1).drop_last() =~= dv.take(i as int));
            assert(dv.take(i + 1).last() == dv[i as int]);
            if i == 0 {
                assert(out@ =~= dv[0]);
            }
        }
        i = i + 1;
    }
    proof {
        assert(parts.deep_view().take(parts.deep_view().len() as int) =~= parts.deep_view());
    }
    out
}

/// Parse a token as a decimal number bounded by `max`: digits only,
/// at least one, value at most `max`.
pub fn parse_dec_bounded(s: &str, max: u32) -> (r: Option<u32>)
    ensures
        match r {
            Some(v) => spec_dec_parses(s@, max as int) && v == spec_dec_value(s@),
            None => !spec_dec_parses(s@, max as int),
        },
{
    let n: usize = s.unicode_len();
    if n == 0 {
        return None;
    }
    let mut value: u64 = 0;
    let mut i: usize = 0;
    while i < n
        invariant
            n == s@.len(),
            0 <= i <= n,
            all_dec_digits(s@.take(i as int)),
            value == spec_dec_value(s@.take(i as int)),
            value <= max,
        decreases n - i,
    {
        let c = s.get_char(i);
        if !('0' <= c && c <= '9') {
            assert(!all_dec_digits(s@));
            return None;
        }
        let d: u8 = (c as u8) - 48;
        proof {
            assert(s@.take(i + 1).drop_last() =~= s@.take(i as int));
            assert(s@.take(i + 1).last() == s@[i as int]);
        }
        value = value * 10 + (d as u64);
        if value > max as u64 {
            proof {
                if all_dec_digits(s@) {
                    lemma_dec_value_monotonic(s@, i + 1);
                }
            }
            return None;
        }
        i = i + 1;
    }
    proof {
        assert(s@.take(n as int) =~= s@);
    }
    Some(value as u32)
}

pub proof fn lemma_dec_value_nonneg(s: Seq<char>)
    requires
        all_dec_digits(s),
    ensures
        spec_dec_value(s) >= 0,
    decreases s.len(),
{
    if s.len() > 0 {
        assert(forall|i: int| 0 <= i < s.len() - 1 ==> s.drop_last()[i] == #[trigger] s[i]);
        lemma_dec_value_nonneg(s.drop_last());
    }
}

/// A digit string is worth at least as much as any prefix of it, so a
/// running value that exceeds a bound settles the whole token.
proof fn lemma_dec_value_monotonic(s: Seq<char>, k: int)
    requires
        0 <= k <= s.len(),
        all_dec_digits(s),
    ensures
        spec_dec_value(s.take(k)) <= spec_dec_value(s),
    decreases s.len() - k,
{
    if k < s.len() {
        assert(s.take(k + 1).drop_last() =~= s.take(k));
        assert(forall|i: int| 0 <= i < k ==> s.take(k)[i] == #[trigger] s[i]);
        lemma_dec_value_nonneg(s.take(k));
        assert(is_dec_digit(s[k]));
        assert(spec_dec_value(s.take(k)) <= spec_dec_value(s.take(k + 1)));
        lemma_dec_value_monotonic(s, k + 1);
    } else {
        assert(s.take(k) =~= s);
    }
}

pub proof fn lemma_hex_value_nonneg(s: Seq<char>)
    requires
        all_hex_digits(s),
    ensures
        spec_hex_value(s) >= 0,
    decreases s.len(),
{
    if s.len() > 0 {
        assert(forall|i: int| 0 <= i < s.len() - 1 ==> s.drop_last()[i] == #[trigger] s[i]);
        lemma_hex_value_nonneg(s.drop_last());
    }
}

/// A hex digit string is worth at least as much as any prefix of it,
/// so a running value that exceeds a bound settles the whole token.
pub proof fn lemma_hex_value_monotonic(s: Seq<char>, k: int)
    requires
        0 <= k <= s.len(),
        all_hex_digits(s),
    ensures
        spec_hex_value(s.take(k)) <= spec_hex_value(s),
    decreases s.len() - k,
{
    if k < s.len() {
        assert(s.take(k + 1).drop_last() =~= s.take(k));
        assert(forall|i: int| 0 <= i < k ==> s.take(k)[i] == #[trigger] s[i]);
        lemma_hex_value_nonneg(s.take(k));
        assert(is_hex_digit(s[k]));
        assert(spec_hex_value(s.take(k)) <= spec_hex_value(s.take(k + 1)));
        lemma_hex_value_monotonic(s, k + 1);
    } else {
        assert(s.take(k) =~= s);
    }
}

/// A text split at every newline character: always at least one
/// piece, with an empty final piece when the text ends in a newline.
pub open spec fn spec_split_lines(s: Seq<char>) -> Seq<Seq<char>>
    decreases s.len(),
{
    if s.len() == 0 {
        seq![Seq::empty()]
    } else if s[0] == '\n' {
        seq![Seq::empty()] + spec_split_lines(s.drop_first())
    } else {
        let r = spec_split_lines(s.drop_first());
        seq![seq![s[0]] + r[0]] + r.drop_first()
    }
}

/// A text without newlines splits into itself alone.
pub proof fn lemma_split_lines_whole(s: Seq<char>)
    requires
        forall|i: int| 0 <= i < s.len() ==> s[i] != '\n',
    ensures
        spec_split_lines(s) == seq![s],
    decreases s.len(),
{
    if s.len() == 0 {
        assert(Seq::<char>::empty() =~= s);
    } else {
        assert(forall|i: int|
            0 <= i < s.len() - 1 ==> s.drop_first()[i] == #[trigger] s[i + 1]);
        lemma_split_lines_whole(s.drop_first());
        let r = spec_split_lines(s.drop_first());
        assert(r == seq![s.drop_first()]);
        assert(seq![s[0]] + r[0] =~= s);
        assert(r.drop_first() =~= Seq::<Seq<char>>::empty());
        assert(spec_split_lines(s) =~= seq![s]);
    }
}

/// Splitting at the first newline: the prefix becomes the first
/// piece, and the rest splits on its own.
pub proof fn lemma_split_lines_step(s: Seq<char>, j: int)
    requires
        0 <= j < s.len(),
        s[j] == '\n',
        forall|i: int| 0 <= i < j ==> s[i] != '\n',
    ensures
        spec_split_lines(s) == seq![s.take(j)] + spec_split_lines(s.skip(j + 1)),
    decreases j,
{
    if j == 0 {
        assert(s.take(0) =~= Seq::<char>::empty());
        assert(s.skip(1) =~= s.drop_first());
    } else {
        let d = s.drop_first();
        assert(forall|i: int| 0 <= i < d.len() ==> d[i] == #[trigger] s[i + 1]);
        lemma_split_lines_step(d, j - 1);
        let r = spec_split_lines(d);
        assert(seq![s[0]] + r[0] =~= s.take(j));
        assert(d.skip(j) =~= s.skip(j + 1));
        assert(r.drop_first() =~= spec_split_lines(s.skip(j + 1)));
        assert(spec_split_lines(s) =~= seq![s.take(j)] + spec_split_lines(s.skip(j + 1)));
    }
}

/// A text split at ASCII whitespace, keeping only the (nonempty)
/// words between runs of whitespace.
pub open spec fn spec_tokens(s: Seq<char>) -> Seq<Seq<char>>
    decreases s.len(),
{
    if s.len() == 0 {
        seq![]
    } else if is_space(s[0]) {
        spec_tokens(s.drop_first())
    } else {
        let r = spec_tokens(s.drop_first());
        if s.len() == 1 || is_space(s[1]) {
            seq![seq![s[0]]] + r
        } else {
            seq![seq![s[0]] + r[0]] + r.drop_first()
        }
    }
}

/// Splitting off the first word: a maximal nonspace prefix becomes
/// the first token, and the rest splits on its own.
pub proof fn lemma_tokens_word(s: Seq<char>, j: int)
    requires
        0 < j <= s.len(),
        forall|i: int| 0 <= i < j ==> !is_space(#[trigger] s[i]),
        j == s.len() || is_space(s[j]),
    ensures
        spec_tokens(s) == seq![s.take(j)] + spec_tokens(s.skip(j)),
    decreases j,
{
    let d = s.drop_first();
    assert(forall|i: int| 0 <= i < d.len() ==> d[i] == #[trigger] s[i + 1]);
    if j == 1 {
        assert(s.take(1) =~= seq![s[0]]);
        assert(s.skip(1) =~= d);
        assert(spec_tokens(s) =~= seq![s.take(1)] + spec_tokens(s.skip(1)));
    } else {
        lemma_tokens_word(d, j - 1);
        let r = spec_tokens(d);
        assert(seq![s[0]] + r[0] =~= s.take(j));
        assert(d.skip(j - 1) =~= s.skip(j));
        assert(r.drop_first() =~= spec_tokens(s.skip(j)));
        assert(spec_tokens(s) =~= seq![s.take(j)] + spec_tokens(s.skip(j)));
    }
}

/// Whether the character at position `j` is ASCII whitespace.
fn space_at(line: &str, j: usize) -> (r: bool)
    requires
        line.is_ascii(),
        j < line@.len(),
    ensures
        r == is_space(line@[j as int]),
{
    let b = line.get_ascii(j);
    b == 32 || b == 9 || b == 10 || b == 13 || b == 12
}

/// Split an ASCII line at whitespace into its words.
pub fn split_tokens(line: &str) -> (r: Vec<String>)
    requires
        line.is_ascii(),
    ensures
        r.deep_view() == spec_tokens(line@),
{
    let n: usize = line.unicode_len();
    let mut toks: Vec<String> = Vec::new();
    let mut i: usize = 0;
    proof {
        assert(line@.skip(0) =~= line@);
    }
    while i < n
        invariant
            line.is_ascii(),
            n == line@.len(),
            0 <= i <= n,
            spec_tokens(line@) == toks.deep_view() + spec_tokens(line@.skip(i as int)),
        decreases n - i,
    {
        if space_at(line, i) {
            proof {
                assert(line@.skip(i as int).drop_first() =~= line@.skip(i + 1));
            }
            i = i + 1;
        } else {
            let start = i;
            let mut j: usize = i + 1;
            while j < n && !space_at(line, j)
                invariant
                    line.is_ascii(),
                    n == line@.len(),
                    0 <= start < j <= n,
                    !is_space(line@[start as int]),
                    forall|p: int| start <= p < j ==> !is_space(#[trigger] line@[p]),
                decreases n - j,
            {
                j = j + 1;
            }
            let tok = line.substring_ascii(start, j);
            let ghost old_dv = toks.deep_view();
            toks.push(tok.to_owned());
            proof {
                let sk = line@.skip(start as int);
                assert(forall|p: int|
                    0 <= p < sk.len() ==> sk[p] == #[trigger] line@[p + start]);
                lemma_tokens_word(sk, j - start);
                assert(sk.take(j - start) =~= line@.subrange(start as int, j as int));
                assert(sk.skip(j - start) =~= line@.skip(j as int));
                assert(toks.deep_view() =~= old_dv.push(tok@));
                assert(toks.deep_view() + spec_tokens(line@.skip(j as int)) =~= old_dv + (seq![
                    line@.subrange(start as int, j as int),
                ] + spec_tokens(line@.skip(j as int))));
            }
            i = j;
        }
    }
    proof {
        assert(line@.skip(n as int).len() == 0);
        assert(spec_tokens(line@) =~= toks.deep_view());
    }
    toks
}

/// Whether `needle` occurs contiguously inside `hay`.
pub fn contains_sub(hay: &str, needle: &str) -> (r: bool)
    ensures
        r == spec_contains(hay@, needle@),
{
    let n: usize = hay.unicode_len();
    let m: usize = needle.unicode_len();
    if m > n {
        return false;
    }
    if m == 0 {
        proof {
            assert(hay@.subrange(0, 0 + needle@.len() as int) =~= needle@);
        }
        return true;
    }
    let mut k: usize = 0;
    while k <= n - m
        invariant
            n == hay@.len(),
            m == needle@.len(),
            1 <= m <= n,
            0 <= k <= n - m + 1,
            forall|p: int|
                0 <= p < k ==> #[trigger] hay@.subrange(p, p + needle@.len()) != needle@,
        decreases n - m + 1 - k,
    {
        let mut j: usize = 0;
        let mut matched = true;
        while j < m
            invariant
                n == hay@.len(),
                m == needle@.len(),
                1 <= m <= n,
                0 <= k <= n - m,
                0 <= j <= m,
                matched ==> forall|q: int| 0 <= q < j ==> hay@[k + q] == needle@[q],
                !matched ==> hay@.subrange(k as int, k + needle@.len()) != needle@,
            decreases m - j,
        {
            if hay.get_char(k + j) != needle.get_char(j) {
                proof {
                    assert(hay@.subrange(k as int, k + needle@.len())[j as int] == hay@[k + j]);
                }
                matched = false;
                j = m;
            } else {
                j = j + 1;
            }
        }
        if matched {
            proof {
                assert(hay@.subrange(k as int, k + needle@.len()) =~= needle@);
            }
            return true;
        }
        k = k + 1;
    }
    proof {
        if spec_contains(hay@, needle@) {
            let p = choose|p: int|
                0 <= p && p + needle@.len() <= hay@.len() && #[trigger] hay@.subrange(
                    p,
                    p + needle@.len(),
                ) == needle@;
            assert(hay@.subrange(p, p + needle@.len()) == needle@);
            assert(false);
        }
    }
    false
}

} // verus!
