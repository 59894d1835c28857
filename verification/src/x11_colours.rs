//! The colour table and the argument resolver: named X11 colours,
//! hexadecimal colour values, random colours, and the greedy
//! multi-token resolution that fills the keyboard's regions.

use vstd::prelude::*;
use vstd::string::StrSliceExecFns;
use vstd::string::StringExecFns;

use crate::text::all_hex_digits;
use crate::text::is_space;
use crate::text::lemma_dec_value_nonneg;
use crate::text::lemma_split_lines_step;
use crate::text::lemma_split_lines_whole;
use crate::text::parse_dec_bounded;
use crate::text::push_char;
use crate::text::spec_contains;
use crate::text::spec_dec_parses;
use crate::text::spec_dec_value;
use crate::text::spec_split_lines;
use crate::text::spec_tokens;
use crate::text::split_tokens;
use crate::text::to_lower;
use crate::text::hex_digit_val;
use crate::text::is_hex_digit;
use crate::text::lemma_hex_value_monotonic;
use crate::text::spec_hex_value;
use crate::text::spec_join_spaces;
use crate::text::spec_lower;
use crate::text::spec_normalise;
use crate::text::join_spaces;
use crate::text::lower_eq;
use crate::text::normalise;

verus! {

/// The colour used when no colour argument is given: a warm white.
pub const DEFAULT_WHITE: u32 = 0xffd0c0;

/// How many entries the bundled colour list yields.
pub const NUM_X11_COLOURS: usize = 753;

/// An immutable table of colour names, each bound to a packed
/// 24-bit red/green/blue value.
pub struct ColourTable {
    entries: Vec<(String, u32)>,
}

impl View for ColourTable {
    type V = Seq<(Seq<char>, u32)>;

    closed spec fn view(&self) -> Seq<(Seq<char>, u32)> {
        self.entries.deep_view()
    }
}

/// First value bound to `name` in the entry list, if any.
pub open spec fn spec_lookup(entries: Seq<(Seq<char>, u32)>, name: Seq<char>) -> Option<u32>
    decreases entries.len(),
{
    if entries.len() == 0 {
        None
    } else if entries[0].0 == name {
        Some(entries[0].1)
    } else {
        spec_lookup(entries.drop_first(), name)
    }
}

/// What a name resolves to: it is lowercased, underscores become
/// spaces, and the result is looked up in the table.
pub open spec fn spec_colour_def(entries: Seq<(Seq<char>, u32)>, name: Seq<char>) -> Option<u32> {
    spec_lookup(entries, spec_normalise(name))
}

impl ColourTable {
    /// Every colour value in the table fits in 24 bits.
    pub open spec fn wf(&self) -> bool {
        forall|i: int| 0 <= i < self@.len() ==> (#[trigger] self@[i]).1 <= 0xffffff
    }

    /// Number of entries.
    pub fn len(&self) -> (r: usize)
        ensures
            r == self@.len(),
    {
        self.entries.len()
    }

    /// Look a canonical (lowercase, space-separated) name up.
    fn lookup(&self, name: &String) -> (r: Option<u32>)
        ensures
            r == spec_lookup(self@, name@),
    {
        let n: usize = self.entries.len();
        let mut k: usize = 0;
        proof {
            assert(self@.skip(0) =~= self@);
        }
        while k < n
            invariant
                n == self@.len(),
                0 <= k <= n,
                spec_lookup(self@, name@) == spec_lookup(self@.skip(k as int), name@),
            decreases n - k,
        {
            let e = &self.entries[k];
            proof {
                assert(self@.skip(k as int)[0] == self@[k as int]);
                assert(self@.skip(k as int).drop_first() =~= self@.skip(k + 1));
            }
            if e.0 == *name {
                return Some(e.1);
            }
            k = k + 1;
        }
        None
    }

}

/// The names of all table entries, in table order.
pub fn x11_colour_names(table: &ColourTable) -> (r: Vec<String>)
    ensures
        r.deep_view() == Seq::new(table@.len(), |i: int| table@[i].0),
{
    let n: usize = table.len();
    let mut out: Vec<String> = Vec::new();
    let mut k: usize = 0;
    while k < n
        invariant
            n == table@.len(),
            0 <= k <= n,
            out@.len() == k,
            forall|i: int| 0 <= i < k ==> out.deep_view()[i] == (#[trigger] table@[i]).0,
        decreases n - k,
    {
        let e = &table.entries[k];
        out.push(e.0.clone());
        k = k + 1;
    }
    proof {
        assert(out.deep_view() =~= Seq::new(table@.len(), |i: int| table@[i].0));
    }
    out
}

/// The entries whose name contains `t` as a substring, in table
/// order; an empty `t` keeps every entry.
pub open spec fn spec_matching(entries: Seq<(Seq<char>, u32)>, t: Seq<char>) -> Seq<
    (Seq<char>, u32),
>
    decreases entries.len(),
{
    if entries.len() == 0 {
        seq![]
    } else {
        let rest = spec_matching(entries.drop_first(), t);
        if spec_contains(entries[0].0, t) {
            seq![entries[0]] + rest
        } else {
            rest
        }
    }
}

impl ColourTable {
    /// The entries whose name contains the lowercased filter, in
    /// table order.
    pub fn matching_entries(&self, filter: &str) -> (r: Vec<(String, u32)>)
        ensures
            r.deep_view() == spec_matching(self@, spec_lower(filter@)),
    {
        let low = to_lower(filter);
        let n: usize = self.entries.len();
        let mut out: Vec<(String, u32)> = Vec::new();
        let mut k: usize = 0;
        proof {
            assert(self@.skip(0) =~= self@);
        }
        while k < n
            invariant
                n == self@.len(),
                0 <= k <= n,
                low@ == spec_lower(filter@),
                spec_matching(self@, low@) == out.deep_view() + spec_matching(
                    self@.skip(k as int),
                    low@,
                ),
            decreases n - k,
        {
            let e = &self.entries[k];
            proof {
                assert(self@.skip(k as int)[0] == self@[k as int]);
                assert(self@.skip(k as int).drop_first() =~= self@.skip(k + 1));
            }
            if crate::text::contains_sub(e.0.as_str(), low.as_str()) {
                let ghost old_dv = out.deep_view();
                out.push((e.0.clone(), e.1));
                proof {
                    assert(out.deep_view() =~= old_dv.push(self@[k as int]));
                    assert(out.deep_view() + spec_matching(self@.skip(k + 1), low@) =~= old_dv + (
                    seq![self@[k as int]] + spec_matching(self@.skip(k + 1), low@)));
                }
            }
            k = k + 1;
        }
        proof {
            assert(spec_matching(self@.skip(n as int), low@) =~= Seq::<(Seq<char>, u32)>::empty());
            assert(out.deep_view() =~= spec_matching(self@, low@));
        }
        out
    }
}

/// Expand a three-hex-digit colour `0xabc` into `0xaabbcc`; colours
/// with any of the upper twelve bits set pass through unchanged.
pub open spec fn spec_adjust3(colour: u32) -> u32 {
    if colour & 0xfff000 == 0 {
        let d1 = (colour & 0xf00) >> 8;
        let d2 = (colour & 0xf0) >> 4;
        let d3 = colour & 0xf;
        (((d1 * 16 + d1) as u32) << 16) | (((d2 * 16 + d2) as u32) << 8) | ((d3 * 16 + d3) as u32)
    } else {
        colour
    }
}

/// Expand a three-hex-digit colour `0xabc` into `0xaabbcc`: each
/// nibble `d` becomes the byte `d * 16 + d`. Values with any of the
/// upper twelve bits set pass through unchanged.
pub fn adjust_3_digit_colour(colour: u32) -> (r: u32)
    ensures
        r == spec_adjust3(colour),
{
    if colour & 0xfff000 == 0 {
        let d1: u32 = (colour & 0xf00) >> 8;
        let d2: u32 = (colour & 0xf0) >> 4;
        let d3: u32 = colour & 0xf;
        proof {
            assert((colour & 0xf00) >> 8 <= 15 && (colour & 0xf0) >> 4 <= 15 && colour & 0xf
                <= 15) by (bit_vector);
        }
        (((d1 * 16 + d1) as u32) << 16) | (((d2 * 16 + d2) as u32) << 8) | ((d3 * 16 + d3) as u32)
    } else {
        colour
    }
}

/// Expanding a three-digit colour doubles each nibble into a byte:
/// `0xabc` becomes `0xaabbcc`, whatever the digits are.
pub proof fn lemma_three_digit_expansion(d1: u32, d2: u32, d3: u32)
    requires
        d1 < 16,
        d2 < 16,
        d3 < 16,
    ensures
        spec_adjust3((d1 * 256 + d2 * 16 + d3) as u32) == (d1 * 16 + d1) * 65536 + (d2 * 16 + d2)
            * 256 + (d3 * 16 + d3),
{
    assert(spec_adjust3((d1 * 256 + d2 * 16 + d3) as u32) == (d1 * 16 + d1) * 65536 + (d2 * 16
        + d2) * 256 + (d3 * 16 + d3)) by (bit_vector)
        requires
            d1 < 16 && d2 < 16 && d3 < 16,
    ;
}

/// `0x` or `0X` stripped from the front of a hex token, if present.
pub open spec fn spec_strip_hex_prefix(s: Seq<char>) -> Seq<char> {
    if s.len() >= 2 && s[0] == '0' && (s[1] == 'x' || s[1] == 'X') {
        s.skip(2)
    } else {
        s
    }
}

/// What a token is worth when read as a hex colour: strip an optional
/// `0x`/`0X` prefix; the rest must be hex digits whose value fits in
/// 32 bits; the value is masked to 24 bits; exactly three digits are
/// expanded nibble-wise.
pub open spec fn spec_hex_colour(s: Seq<char>) -> Option<u32> {
    let d = spec_strip_hex_prefix(s);
    if d.len() > 0 && all_hex_digits(d) && spec_hex_value(d) <= u32::MAX {
        let v = (spec_hex_value(d) as u32) & 0xffffff;
        if d.len() == 3 {
            Some(spec_adjust3(v))
        } else {
            Some(v)
        }
    } else {
        None
    }
}

/// Read a token as a hex colour, if it is one.
fn hex_colour(tok: &str) -> (r: Option<u32>)
    ensures
        r == spec_hex_colour(tok@),
{
    let n: usize = tok.unicode_len();
    let has_prefix: bool = n >= 2 && tok.get_char(0) == '0' && (tok.get_char(1) == 'x'
        || tok.get_char(1) == 'X');
    let digits: &str = if has_prefix {
        tok.substring_char(2, n)
    } else {
        tok
    };
    proof {
        assert(digits@ =~= spec_strip_hex_prefix(tok@));
    }
    let dn: usize = if has_prefix {
        n - 2
    } else {
        n
    };
    if dn == 0 {
        return None;
    }
    let mut value: u64 = 0;
    let mut i: usize = 0;
    while i < dn
        invariant
            digits@ == spec_strip_hex_prefix(tok@),
            dn == digits@.len(),
            0 <= i <= dn,
            all_hex_digits(digits@.take(i as int)),
            value == spec_hex_value(digits@.take(i as int)),
            value <= u32::MAX,
        decreases dn - i,
    {
        let c = digits.get_char(i);
        let d: u8 = if '0' <= c && c <= '9' {
            (c as u8) - 48
        } else if 'a' <= c && c <= 'f' {
            (c as u8) - 87
        } else if 'A' <= c && c <= 'F' {
            (c as u8) - 55
        } else {
            assert(!all_hex_digits(digits@));
            return None;
        };
        proof {
            assert(digits@.take(i + 1).drop_last() =~= digits@.take(i as int));
            assert(digits@.take(i + 1).last() == digits@[i as int]);
        }
        value = value * 16 + (d as u64);
        if value > u32::MAX as u64 {
            proof {
                if all_hex_digits(digits@) {
                    lemma_hex_value_monotonic(digits@, i + 1);
                }
            }
            return None;
        }
        i = i + 1;
    }
    proof {
        assert(digits@.take(dn as int) =~= digits@);
    }
    let v: u32 = (value as u32) & 0xffffff;
    if dn == 3 {
        Some(adjust_3_digit_colour(v))
    } else {
        Some(v)
    }
}

/// A hex digit is worth less than sixteen.
pub proof fn lemma_hex_digit_val_bound(c: char)
    requires
        is_hex_digit(c),
    ensures
        0 <= hex_digit_val(c) < 16,
{
}

/// A valid hex token of any length other than three resolves to its
/// value masked to 24 bits, with or without a `0x` prefix.
pub proof fn lemma_hex_token_value(s: Seq<char>)
    requires
        s.len() > 0,
        s.len() != 3,
        all_hex_digits(s),
        spec_hex_value(s) <= u32::MAX,
    ensures
        spec_hex_colour(s) == Some((spec_hex_value(s) as u32) & 0xffffff),
        spec_hex_colour(seq!['0', 'x'] + s) == Some((spec_hex_value(s) as u32) & 0xffffff),
{
    if s.len() >= 2 && s[0] == '0' && (s[1] == 'x' || s[1] == 'X') {
        assert(is_hex_digit(s[1]));
        assert(false);
    }
    let p = seq!['0', 'x'] + s;
    assert(p[0] == '0' && p[1] == 'x');
    assert(p.skip(2) =~= s);
}

/// A three-digit hex token expands nibble-wise, with or without a
/// `0x` prefix: `abc` resolves to `aabbcc`.
pub proof fn lemma_three_digit_token(s: Seq<char>)
    requires
        s.len() == 3,
        all_hex_digits(s),
    ensures
        ({
            let d1 = hex_digit_val(s[0]) as u32;
            let d2 = hex_digit_val(s[1]) as u32;
            let d3 = hex_digit_val(s[2]) as u32;
            &&& spec_hex_colour(s) == Some(
                (((d1 * 16 + d1) * 65536 + (d2 * 16 + d2) * 256 + (d3 * 16 + d3)) as u32),
            )
            &&& spec_hex_colour(seq!['0', 'x'] + s) == spec_hex_colour(s)
        }),
{
    lemma_hex_digit_val_bound(s[0]);
    lemma_hex_digit_val_bound(s[1]);
    lemma_hex_digit_val_bound(s[2]);
    let d1 = hex_digit_val(s[0]) as u32;
    let d2 = hex_digit_val(s[1]) as u32;
    let d3 = hex_digit_val(s[2]) as u32;
    assert(seq![s[0]].drop_last() =~= Seq::<char>::empty());
    assert(seq![s[0], s[1]].drop_last() =~= seq![s[0]]);
    assert(s.drop_last() =~= seq![s[0], s[1]]);
    assert(spec_hex_value(Seq::<char>::empty()) == 0);
    assert(spec_hex_value(seq![s[0]]) == hex_digit_val(s[0]));
    assert(spec_hex_value(seq![s[0], s[1]]) == hex_digit_val(s[0]) * 16 + hex_digit_val(s[1]));
    assert(spec_hex_value(s) == spec_hex_value(seq![s[0], s[1]]) * 16 + hex_digit_val(s[2]));
    assert(spec_hex_value(s) == (d1 * 256 + d2 * 16 + d3) as int);
    if s.len() >= 2 && s[0] == '0' && (s[1] == 'x' || s[1] == 'X') {
        assert(is_hex_digit(s[1]));
        assert(false);
    }
    let v = (spec_hex_value(s) as u32);
    assert(v == d1 * 256 + d2 * 16 + d3);
    assert(v & 0xffffff == v) by (bit_vector)
        requires
            v < 0x1000,
    ;
    lemma_three_digit_expansion(d1, d2, d3);
    let p = seq!['0', 'x'] + s;
    assert(p[0] == '0' && p[1] == 'x');
    assert(p.skip(2) =~= s);
}

/// Looking a name up is insensitive to ASCII case and to writing
/// underscores for spaces: names with the same canonical form
/// resolve identically.
pub proof fn lemma_colour_def_insensitive(
    entries: Seq<(Seq<char>, u32)>,
    s1: Seq<char>,
    s2: Seq<char>,
)
    requires
        spec_normalise(s1) == spec_normalise(s2),
    ensures
        spec_colour_def(entries, s1) == spec_colour_def(entries, s2),
{
}

/// A name resolves exactly as its canonical lowercase,
/// space-separated form does.
pub proof fn lemma_colour_def_canonical(entries: Seq<(Seq<char>, u32)>, s: Seq<char>)
    ensures
        spec_colour_def(entries, s) == spec_colour_def(entries, spec_normalise(s)),
{
    assert(spec_normalise(spec_normalise(s)) =~= spec_normalise(s));
}

/// Whether a token asks for a uniformly random 24-bit colour.
pub open spec fn is_random_token(s: Seq<char>) -> bool {
    spec_lower(s) == "random"@
}

/// Whether a token asks for a random entry of the colour table.
pub open spec fn is_random_x11_token(s: Seq<char>) -> bool {
    spec_lower(s) == "randomx11"@
}

/// Whether a single token resolves to a colour: random requests
/// always do (a table pick needs a nonempty table), then hex values,
/// then named colours.
pub open spec fn single_resolves(entries: Seq<(Seq<char>, u32)>, s: Seq<char>) -> bool {
    if is_random_token(s) {
        true
    } else if is_random_x11_token(s) {
        entries.len() > 0
    } else if spec_hex_colour(s) is Some {
        true
    } else {
        spec_colour_def(entries, s) is Some
    }
}

/// What may come back for a single resolved token: random draws are
/// only bounded, table picks are some table value, hex values and
/// named colours are exact.
pub open spec fn resolution_ok(entries: Seq<(Seq<char>, u32)>, s: Seq<char>, v: u32) -> bool {
    if is_random_token(s) {
        v <= 0xffffff
    } else if is_random_x11_token(s) {
        exists|i: int| 0 <= i < entries.len() && (#[trigger] entries[i]).1 == v
    } else if spec_hex_colour(s) is Some {
        Some(v) == spec_hex_colour(s)
    } else {
        Some(v) == spec_colour_def(entries, s)
    }
}

/// Relies on rand::random: draws from the thread-local generator;
/// nothing is assumed about which value comes back.
#[verifier::external_body]
fn random_u32() -> u32 {
    rand::random::<u32>()
}

/// Relies on rand::random_range: the result lies in `0..n`; the
/// range must be nonempty, or the call would panic.
#[verifier::external_body]
fn random_below(n: usize) -> (r: usize)
    requires
        n > 0,
    ensures
        r < n,
{
    rand::random_range(0..n)
}

/// A uniformly random colour, masked to 24 bits.
pub fn random_colour() -> (r: u32)
    ensures
        r <= 0xffffff,
{
    let x = random_u32();
    proof {
        assert(x & 0xffffff <= 0xffffff) by (bit_vector);
    }
    x & 0xffffff
}

/// A uniformly random entry of the colour table: its name and value.
pub fn random_x11_colour(table: &ColourTable) -> (r: (String, u32))
    requires
        table@.len() > 0,
    ensures
        exists|i: int|
            0 <= i < table@.len() && #[trigger] table@[i] == (r.0@, r.1),
{
    let n = table.len();
    let k = random_below(n);
    let e = &table.entries[k];
    proof {
        assert(table@[k as int] == (e.0@, e.1));
    }
    (e.0.clone(), e.1)
}

/// Resolve one token: `random` and `randomx11` first, then hex
/// values, then a normalised name looked up in the table.
fn resolve_single(table: &ColourTable, tok: &str) -> (r: Option<u32>)
    ensures
        match r {
            Some(v) => single_resolves(table@, tok@) && resolution_ok(table@, tok@, v),
            None => !single_resolves(table@, tok@),
        },
{
    if lower_eq(tok, "random") {
        Some(random_colour())
    } else if lower_eq(tok, "randomx11") {
        if table.len() > 0 {
            Some(random_x11_colour(table).1)
        } else {
            None
        }
    } else {
        match hex_colour(tok) {
            Some(v) => Some(v),
            None => {
                let name = normalise(tok);
                table.lookup(&name)
            },
        }
    }
}

/// Resolve the colour name of a definition list entry, already in
/// canonical form apart from case and underscores.
pub fn get_colour_def(table: &ColourTable, name: &str) -> (r: Option<u32>)
    ensures
        r == spec_colour_def(table@, name@),
{
    let canonical = normalise(name);
    table.lookup(&canonical)
}

/// Resolve an argument list to one colour. No arguments give the
/// default white; a single token may be a random request, a hex
/// value or a name; two or three tokens are joined with spaces and
/// looked up as a name; four or more tokens never resolve.
pub fn get_x11_colour(table: &ColourTable, args: &[String]) -> (r: Option<u32>)
    ensures
        ({
            let a = args.deep_view();
            &&& a.len() == 0 ==> r == Some(DEFAULT_WHITE)
            &&& a.len() == 1 ==> match r {
                Some(v) => single_resolves(table@, a[0]) && resolution_ok(table@, a[0], v),
                None => !single_resolves(table@, a[0]),
            }
            &&& 2 <= a.len() <= 3 ==> r == spec_colour_def(table@, spec_join_spaces(a))
            &&& a.len() >= 4 ==> r is None
        }),
{
    let n: usize = args.len();
    if n == 0 {
        Some(DEFAULT_WHITE)
    } else if n == 1 {
        let tok = vstd::slice::slice_index_get(args, 0);
        resolve_single(table, tok.as_str())
    } else if n <= 3 {
        let joined = join_spaces(args);
        get_colour_def(table, joined.as_str())
    } else {
        None
    }
}

/// A line yields an entry when its first three words are decimal
/// colour components up to 255; the remaining words, joined with
/// single spaces and lowercased, are the colour's name, and the
/// value packs the components as `red * 65536 + green * 256 + blue`.
/// Comment lines, blank lines and anything else that does not fit
/// yield nothing.
pub open spec fn spec_parse_line(l: Seq<char>) -> Option<(Seq<char>, u32)> {
    let toks = spec_tokens(l);
    if toks.len() >= 4 && spec_dec_parses(toks[0], 255) && spec_dec_parses(toks[1], 255)
        && spec_dec_parses(toks[2], 255) {
        Some(
            (
                spec_lower(spec_join_spaces(toks.skip(3))),
                (spec_dec_value(toks[0]) * 65536 + spec_dec_value(toks[1]) * 256 + spec_dec_value(
                    toks[2],
                )) as u32,
            ),
        )
    } else {
        None
    }
}

/// The entries of a sequence of lines, in order.
pub open spec fn spec_parse_lines(ls: Seq<Seq<char>>) -> Seq<(Seq<char>, u32)>
    decreases ls.len(),
{
    if ls.len() == 0 {
        seq![]
    } else {
        match spec_parse_line(ls[0]) {
            Some(e) => seq![e] + spec_parse_lines(ls.drop_first()),
            None => spec_parse_lines(ls.drop_first()),
        }
    }
}

/// The colour definitions a whole text yields, line by line.
pub open spec fn spec_parse(s: Seq<char>) -> Seq<(Seq<char>, u32)> {
    spec_parse_lines(spec_split_lines(s))
}

/// Every entry a parse yields packs three components of at most 255
/// each, so its value fits in 24 bits.
pub proof fn lemma_parse_lines_wf(ls: Seq<Seq<char>>)
    ensures
        forall|k: int|
            0 <= k < spec_parse_lines(ls).len() ==> (#[trigger] spec_parse_lines(ls)[k]).1
                <= 0xffffff,
    decreases ls.len(),
{
    if ls.len() > 0 {
        lemma_parse_lines_wf(ls.drop_first());
        let toks = spec_tokens(ls[0]);
        let rest = spec_parse_lines(ls.drop_first());
        if spec_parse_line(ls[0]) is Some {
            lemma_dec_value_nonneg(toks[0]);
            lemma_dec_value_nonneg(toks[1]);
            lemma_dec_value_nonneg(toks[2]);
            assert(spec_parse_line(ls[0]).unwrap().1 <= 0xffffff);
            assert(forall|k: int|
                1 <= k < spec_parse_lines(ls).len() ==> spec_parse_lines(ls)[k] == #[trigger] rest[k
                    - 1]);
        } else {
            assert(forall|k: int|
                0 <= k < spec_parse_lines(ls).len() ==> spec_parse_lines(ls)[k]
                    == #[trigger] rest[k]);
        }
    }
}

/// Parse one line of the colour list.
fn parse_line(line: &str) -> (r: Option<(String, u32)>)
    requires
        line.is_ascii(),
    ensures
        match r {
            Some(e) => spec_parse_line(line@) == Some((e.0@, e.1)),
            None => spec_parse_line(line@) is None,
        },
{
    let toks = split_tokens(line);
    let ghost tv = spec_tokens(line@);
    let ntoks: usize = toks.len();
    if ntoks < 4 {
        return None;
    }
    let red = match parse_dec_bounded(toks[0].as_str(), 255) {
        Some(v) => v,
        None => {
            return None;
        },
    };
    let green = match parse_dec_bounded(toks[1].as_str(), 255) {
        Some(v) => v,
        None => {
            return None;
        },
    };
    let blue = match parse_dec_bounded(toks[2].as_str(), 255) {
        Some(v) => v,
        None => {
            return None;
        },
    };
    let mut name = String::new();
    let mut k: usize = 3;
    proof {
        assert(tv.skip(3).take(0) =~= Seq::<Seq<char>>::empty());
    }
    while k < ntoks
        invariant
            toks.deep_view() == tv,
            ntoks == tv.len(),
            3 <= k <= ntoks,
            name@ == spec_lower(spec_join_spaces(tv.skip(3).take(k - 3))),
        decreases ntoks - k,
    {
        if k > 3 {
            push_char(&mut name, ' ');
        }
        let low = to_lower(toks[k].as_str());
        name.append(low.as_str());
        proof {
            let parts = tv.skip(3);
            assert(parts.take(k - 3 + 1).drop_last() =~= parts.take(k - 3));
            assert(parts.take(k - 3 + 1).last() == parts[k - 3]);
            assert(parts[k - 3] == tv[k as int]);
            if k > 3 {
                assert(spec_join_spaces(parts.take(k - 3 + 1)) == spec_join_spaces(
                    parts.take(k - 3),
                ) + seq![' '] + parts[k - 3]);
                assert(spec_lower(
                    spec_join_spaces(parts.take(k - 3)) + seq![' '] + parts[k - 3],
                ) =~= spec_lower(spec_join_spaces(parts.take(k - 3))) + seq![' ']
                    + spec_lower(parts[k - 3]));
            } else {
                assert(spec_join_spaces(parts.take(1)) == parts[0]);
            }
        }
        k = k + 1;
    }
    proof {
        assert(tv.skip(3).take(ntoks - 3) =~= tv.skip(3));
    }
    Some((name, red * 65536 + green * 256 + blue))
}

/// Whether the character at position `j` is a newline.
fn newline_at(text: &str, j: usize) -> (r: bool)
    requires
        text.is_ascii(),
        j < text@.len(),
    ensures
        r == (text@[j as int] == '\n'),
{
    let b = text.get_ascii(j);
    b == 10
}

/// Parse a colour list: one definition per line, as
/// [`spec_parse_line`] describes, with unparseable lines ignored.
pub fn parse_x11_colours(text: &str) -> (r: Vec<(String, u32)>)
    requires
        text.is_ascii(),
    ensures
        r.deep_view() == spec_parse(text@),
{
    let n: usize = text.unicode_len();
    let mut entries: Vec<(String, u32)> = Vec::new();
    let mut i: usize = 0;
    let mut done = false;
    proof {
        assert(text@.skip(0) =~= text@);
    }
    while !done
        invariant
            text.is_ascii(),
            n == text@.len(),
            0 <= i <= n,
            !done ==> spec_parse(text@) == entries.deep_view() + spec_parse_lines(
                spec_split_lines(text@.skip(i as int)),
            ),
            done ==> spec_parse(text@) == entries.deep_view(),
        decreases n - i, (if done {
            0int
        } else {
            1int
        }),
    {
        let mut j: usize = i;
        while j < n && !newline_at(text, j)
            invariant
                text.is_ascii(),
                n == text@.len(),
                i <= j <= n,
                forall|p: int| i <= p < j ==> text@[p] != '\n',
            decreases n - j,
        {
            j = j + 1;
        }
        let line = text.substring_ascii(i, j);
        let ghost sk = text@.skip(i as int);
        let ghost tail = if j < n {
            spec_split_lines(text@.skip(j + 1))
        } else {
            Seq::<Seq<char>>::empty()
        };
        proof {
            assert(forall|p: int| 0 <= p < sk.len() ==> sk[p] == #[trigger] text@[p + i]);
            if j < n {
                lemma_split_lines_step(sk, j - i);
                assert(sk.take(j - i) =~= text@.subrange(i as int, j as int));
                assert(sk.skip(j - i + 1) =~= text@.skip(j + 1));
            } else {
                lemma_split_lines_whole(sk);
                assert(sk =~= text@.subrange(i as int, j as int));
            }
            assert(spec_split_lines(sk) =~= seq![line@] + tail);
            assert((seq![line@] + tail)[0] == line@);
            assert((seq![line@] + tail).drop_first() =~= tail);
            assert(spec_parse_lines(Seq::<Seq<char>>::empty()) =~= Seq::<(
                Seq<char>,
                u32,
            )>::empty());
        }
        let parsed = parse_line(line);
        let ghost old_dv = entries.deep_view();
        match parsed {
            Some(e) => {
                let ghost ev = (e.0@, e.1);
                entries.push(e);
                proof {
                    assert(entries.deep_view() =~= old_dv.push(ev));
                    assert(old_dv.push(ev) =~= old_dv + seq![ev]);
                }
            },
            None => {},
        }
        proof {
            assert(spec_parse_lines(spec_split_lines(sk)) =~= match spec_parse_line(line@) {
                Some(e) => seq![e] + spec_parse_lines(tail),
                None => spec_parse_lines(tail),
            });
            assert(entries.deep_view() + spec_parse_lines(tail) =~= old_dv + spec_parse_lines(
                spec_split_lines(sk),
            ));
        }
        if j < n {
            i = j + 1;
        } else {
            done = true;
        }
    }
    entries
}

/// What the bundled colour list yields: its parse when the list is
/// ASCII text, as it is, and nothing otherwise.
pub open spec fn spec_bundled_table() -> Seq<(Seq<char>, u32)> {
    if vstd::utf8::is_ascii_chars(crate::x11_data::spec_colour_list()) {
        spec_parse(crate::x11_data::spec_colour_list())
    } else {
        Seq::empty()
    }
}

/// Build the colour table from the bundled colour list. Every value
/// in the table fits in 24 bits.
impl ColourTable {
    pub fn new() -> (r: ColourTable)
        ensures
            r.wf(),
            r@ == spec_bundled_table(),
    {
        let text = crate::x11_data::colour_list_text();
        if text.is_ascii() {
            let entries = parse_x11_colours(text);
            proof {
                lemma_parse_lines_wf(spec_split_lines(text@));
            }
            ColourTable { entries }
        } else {
            let empty: Vec<(String, u32)> = Vec::new();
            proof {
                assert(empty.deep_view() =~= Seq::<(Seq<char>, u32)>::empty());
            }
            ColourTable { entries: empty }
        }
    }
}

/// Position of the first character at or after `start` that is not
/// ASCII whitespace, if there is one. Positions count characters.
pub fn next_non_whitespace(l: &str, start: usize) -> (r: Option<usize>)
    requires
        start <= l@.len(),
    ensures
        match r {
            Some(p) => start <= p < l@.len() && !is_space(l@[p as int]) && (forall|q: int|
                start <= q < p ==> is_space(#[trigger] l@[q])),
            None => forall|q: int| start <= q < l@.len() ==> is_space(#[trigger] l@[q]),
        },
{
    let n: usize = l.unicode_len();
    let mut p: usize = start;
    while p < n
        invariant
            n == l@.len(),
            start <= p <= n,
            forall|q: int| start <= q < p ==> is_space(#[trigger] l@[q]),
        decreases n - p,
    {
        let c = l.get_char(p);
        if !(c == ' ' || c == '\t' || c == '\n' || c == '\r' || c == '\x0c') {
            return Some(p);
        }
        p = p + 1;
    }
    None
}

/// The greedy segmentation behind multi-colour resolution: walk the
/// tokens in order, concatenating each onto an accumulator; whenever
/// the accumulator resolves as a single token it is emitted and the
/// accumulator resets; emission stops once `room` strings are out.
pub open spec fn spec_greedy(
    entries: Seq<(Seq<char>, u32)>,
    toks: Seq<Seq<char>>,
    acc: Seq<char>,
    room: nat,
) -> Seq<Seq<char>>
    decreases toks.len(),
{
    if room == 0 || toks.len() == 0 {
        seq![]
    } else {
        let acc2 = acc + toks[0];
        if single_resolves(entries, acc2) {
            seq![acc2] + spec_greedy(entries, toks.drop_first(), Seq::empty(), (room - 1) as nat)
        } else {
            spec_greedy(entries, toks.drop_first(), acc2, room)
        }
    }
}

/// The token string that decides slot `i`: its own segment while
/// segments last, then the final segment repeated.
pub open spec fn spec_padded(segs: Seq<Seq<char>>, i: int) -> Seq<char> {
    if i < segs.len() {
        segs[i]
    } else {
        segs.last()
    }
}

pub proof fn lemma_greedy_len(
    entries: Seq<(Seq<char>, u32)>,
    toks: Seq<Seq<char>>,
    acc: Seq<char>,
    room: nat,
)
    ensures
        spec_greedy(entries, toks, acc, room).len() <= room,
    decreases toks.len(),
{
    if room > 0 && toks.len() > 0 {
        let acc2 = acc + toks[0];
        if single_resolves(entries, acc2) {
            lemma_greedy_len(entries, toks.drop_first(), Seq::empty(), (room - 1) as nat);
        } else {
            lemma_greedy_len(entries, toks.drop_first(), acc2, room);
        }
    }
}

/// When every token resolves on its own, greedy segmentation takes
/// the tokens one by one, in order, up to the requested count; with
/// fewer tokens than slots the tail slots are filled by repeating
/// the final token.
pub proof fn lemma_greedy_all_single(
    entries: Seq<(Seq<char>, u32)>,
    toks: Seq<Seq<char>>,
    room: nat,
)
    requires
        forall|i: int| 0 <= i < toks.len() ==> single_resolves(entries, #[trigger] toks[i]),
    ensures
        spec_greedy(entries, toks, Seq::empty(), room) == (if toks.len() <= room {
            toks
        } else {
            toks.take(room as int)
        }),
    decreases toks.len(),
{
    if room == 0 || toks.len() == 0 {
        if room == 0 && toks.len() > 0 {
            assert(toks.take(0) =~= Seq::<Seq<char>>::empty());
        }
        if toks.len() == 0 {
            assert(toks =~= Seq::<Seq<char>>::empty());
        }
    } else {
        assert(Seq::<char>::empty() + toks[0] =~= toks[0]);
        let d = toks.drop_first();
        assert(forall|i: int| 0 <= i < d.len() ==> d[i] == #[trigger] toks[i + 1]);
        lemma_greedy_all_single(entries, d, (room - 1) as nat);
        if toks.len() <= room {
            assert(seq![toks[0]] + d =~= toks);
        } else {
            assert(seq![toks[0]] + d.take(room - 1) =~= toks.take(room as int));
        }
    }
}

/// Resolve a flat token list to exactly `num` colours. An empty list
/// gives `num` copies of the default white. Otherwise tokens are
/// concatenated greedily (see [`spec_greedy`]); if nothing ever
/// resolves the call fails, and if fewer than `num` segments resolve
/// the last one is resolved again to fill the remaining slots.
pub fn get_x11_colours(table: &ColourTable, args: &[String], num: u8) -> (r: Option<Vec<u32>>)
    ensures
        ({
            let toks = args.deep_view();
            let segs = spec_greedy(table@, toks, Seq::empty(), num as nat);
            &&& toks.len() == 0 ==> (r matches Some(cols) && cols@.len() == num as nat && (forall|
                i: int,
            |
                0 <= i < num as int ==> cols@[i] == DEFAULT_WHITE))
            &&& toks.len() > 0 && segs.len() == 0 ==> r is None
            &&& toks.len() > 0 && segs.len() > 0 ==> (r matches Some(cols) && cols@.len()
                == num as nat && (forall|i: int|
                0 <= i < num as int ==> #[trigger] resolution_ok(
                    table@,
                    spec_padded(segs, i),
                    cols@[i],
                )))
        }),
{
    let nargs: usize = args.len();
    if nargs == 0 {
        let mut cols: Vec<u32> = Vec::new();
        let mut k: usize = 0;
        while k < num as usize
            invariant
                0 <= k <= num as usize,
                cols@.len() == k,
                forall|i: int| 0 <= i < k ==> cols@[i] == DEFAULT_WHITE,
            decreases num as usize - k,
        {
            cols.push(DEFAULT_WHITE);
            k = k + 1;
        }
        return Some(cols);
    }
    let ghost toks = args.deep_view();
    let ghost gsegs = spec_greedy(table@, toks, Seq::empty(), num as nat);
    let mut cols: Vec<u32> = Vec::new();
    let mut acc = String::new();
    let mut last = String::new();
    let mut i: usize = 0;
    proof {
        assert(toks.skip(0) =~= toks);
        assert(gsegs.take(0) =~= Seq::<Seq<char>>::empty());
    }
    while i < nargs && cols.len() < num as usize
        invariant
            nargs == args@.len(),
            toks == args.deep_view(),
            toks.len() == nargs,
            gsegs == spec_greedy(table@, toks, Seq::empty(), num as nat),
            0 <= i <= nargs,
            cols@.len() <= num as nat,
            cols@.len() <= gsegs.len(),
            gsegs == gsegs.take(cols@.len() as int) + spec_greedy(
                table@,
                toks.skip(i as int),
                acc@,
                (num as nat - cols@.len()) as nat,
            ),
            forall|j: int|
                0 <= j < cols@.len() ==> #[trigger] resolution_ok(table@, gsegs[j], cols@[j]),
            cols@.len() > 0 ==> (single_resolves(table@, last@) && last@ == gsegs[cols@.len()
                - 1]),
        decreases nargs - i,
    {
        let ghost old_acc = acc@;
        let ghost k = cols@.len() as int;
        let tok = vstd::slice::slice_index_get(args, i);
        acc.append(tok.as_str());
        proof {
            assert(toks.skip(i as int)[0] == toks[i as int]);
            assert(toks.skip(i as int).drop_first() =~= toks.skip(i + 1));
            assert(acc@ == old_acc + toks[i as int]);
        }
        let resolved = resolve_single(table, acc.as_str());
        match resolved {
            Some(col) => {
                proof {
                    lemma_greedy_len(
                        table@,
                        toks.skip(i + 1),
                        Seq::<char>::empty(),
                        (num as nat - cols@.len() - 1) as nat,
                    );
                    assert(spec_greedy(table@, toks.skip(i as int), old_acc, (num as nat
                        - cols@.len()) as nat) == seq![acc@] + spec_greedy(
                        table@,
                        toks.skip(i + 1),
                        Seq::<char>::empty(),
                        (num as nat - cols@.len() - 1) as nat,
                    ));
                    assert(gsegs.take(k).len() == k);
                    assert(gsegs[k] == acc@);
                    assert(gsegs.take(k + 1) =~= gsegs.take(k) + seq![acc@]);
                    assert(gsegs =~= gsegs.take(k + 1) + spec_greedy(
                        table@,
                        toks.skip(i + 1),
                        Seq::<char>::empty(),
                        (num as nat - cols@.len() - 1) as nat,
                    ));
                }
                cols.push(col);
                last = acc.clone();
                acc = String::new();
            },
            None => {
                proof {
                    assert(spec_greedy(table@, toks.skip(i as int), old_acc, (num as nat
                        - cols@.len()) as nat) == spec_greedy(
                        table@,
                        toks.skip(i + 1),
                        acc@,
                        (num as nat - cols@.len()) as nat,
                    ));
                }
            },
        }
        i = i + 1;
    }
    proof {
        if i == nargs {
            assert(toks.skip(nargs as int).len() == 0);
        }
        assert(gsegs =~= gsegs.take(cols@.len() as int));
        assert(gsegs.len() == cols@.len());
    }
    if cols.len() == 0 {
        return None;
    }
    while cols.len() < num as usize
        invariant
            gsegs == spec_greedy(table@, args.deep_view(), Seq::empty(), num as nat),
            0 < gsegs.len() <= cols@.len() <= num as nat,
            forall|j: int|
                0 <= j < cols@.len() ==> #[trigger] resolution_ok(
                    table@,
                    spec_padded(gsegs, j),
                    cols@[j],
                ),
            single_resolves(table@, last@),
            last@ == gsegs.last(),
        decreases num as usize - cols.len(),
    {
        let filled = resolve_single(table, last.as_str());
        match filled {
            Some(col) => {
                cols.push(col);
            },
            None => {
                proof {
                    assert(false);
                }
            },
        }
    }
    proof {
        assert(forall|j: int|
            0 <= j < gsegs.len() ==> spec_padded(gsegs, j) == #[trigger] gsegs[j]);
    }
    Some(cols)
}

} // verus!
