//! Small text utilities shared by the job logic and the HTML fragments:
//! decimal rendering of integers, and the slug form of a tag.
use vstd::prelude::*;

verus! {

/// The character of a decimal digit `d` (0 through 9).
pub open spec fn digit_char(d: int) -> char {
    if d == 0 {
        '0'
    } else if d == 1 {
        '1'
    } else if d == 2 {
        '2'
    } else if d == 3 {
        '3'
    } else if d == 4 {
        '4'
    } else if d == 5 {
        '5'
    } else if d == 6 {
        '6'
    } else if d == 7 {
        '7'
    } else if d == 8 {
        '8'
    } else {
        '9'
    }
}

/// The decimal digits of a natural number, most significant first, without leading zeros.
pub open spec fn digits(n: nat) -> Seq<char>
    decreases n,
{
    if n < 10 {
        seq![digit_char(n as int)]
    } else {
        digits(n / 10).push(digit_char((n % 10) as int))
    }
}

/// The decimal form of an integer, with a leading `-` for negative values.
pub open spec fn decimal_of(n: int) -> Seq<char> {
    if n < 0 {
        seq!['-'] + digits((-n) as nat)
    } else {
        digits(n as nat)
    }
}

/// Relies on `String::push`: the character is appended at the end.
#[verifier::external_body]
pub(crate) fn push_char(s: &mut String, c: char)
    ensures
        final(s)@ == old(s)@.push(c),
{
    s.push(c);
}

fn digit_to_char(d: u128) -> (c: char)
    requires
        d < 10,
    ensures
        c == digit_char(d as int),
{
    if d == 0 {
        '0'
    } else if d == 1 {
        '1'
    } else if d == 2 {
        '2'
    } else if d == 3 {
        '3'
    } else if d == 4 {
        '4'
    } else if d == 5 {
        '5'
    } else if d == 6 {
        '6'
    } else if d == 7 {
        '7'
    } else if d == 8 {
        '8'
    } else {
        '9'
    }
}

/// Appends the decimal digits of `n` to `out`.
pub fn push_digits(out: &mut String, n: u128)
    ensures
        final(out)@ == old(out)@ + digits(n as nat),
    decreases n,
{
    if n < 10 {
        push_char(out, digit_to_char(n));
        assert(old(out)@.push(digit_char(n as int)) =~= old(out)@ + seq![digit_char(n as int)]);
    } else {
        push_digits(out, n / 10);
        push_char(out, digit_to_char(n % 10));
        assert(final(out)@ =~= old(out)@ + digits(n as nat));
    }
}

/// Appends the decimal form of `n` to `out`.
pub fn push_decimal(out: &mut String, n: i128)
    ensures
        final(out)@ == old(out)@ + decimal_of(n as int),
{
    if n < 0 {
        push_char(out, '-');
        let magnitude: u128 = (-(n + 1)) as u128 + 1;
        push_digits(out, magnitude);
        assert(final(out)@ =~= old(out)@ + decimal_of(n as int));
    } else {
        push_digits(out, n as u128);
    }
}

/// The decimal form of `n`, as `n.to_string()` writes it.
pub fn decimal(n: i64) -> (r: String)
    ensures
        r@ == decimal_of(n as int),
{
    let mut r = String::new();
    push_decimal(&mut r, n as i128);
    assert(r@ =~= decimal_of(n as int));
    r
}

/// Two digits for a value below 100: a leading zero below 10.
pub open spec fn two_digits(v: nat) -> Seq<char> {
    if v < 10 {
        seq!['0', digit_char(v as int)]
    } else {
        digits(v)
    }
}

/// Three digits for a value below 1000, with leading zeros.
pub open spec fn three_digits(v: nat) -> Seq<char> {
    seq![digit_char((v / 100) as int), digit_char(((v / 10) % 10) as int), digit_char((v % 10) as int)]
}

/// Appends `v` with at least two digits.
pub fn push_two_digits(out: &mut String, v: u128)
    ensures
        final(out)@ == old(out)@ + two_digits(v as nat),
{
    if v < 10 {
        push_char(out, '0');
        push_char(out, digit_to_char(v));
        assert(final(out)@ =~= old(out)@ + two_digits(v as nat));
    } else {
        push_digits(out, v);
    }
}

/// Appends `v` (below 1000) as exactly three digits.
pub fn push_three_digits(out: &mut String, v: u128)
    requires
        v < 1000,
    ensures
        final(out)@ == old(out)@ + three_digits(v as nat),
{
    push_char(out, digit_to_char(v / 100));
    push_char(out, digit_to_char((v / 10) % 10));
    push_char(out, digit_to_char(v % 10));
    assert(final(out)@ =~= old(out)@ + three_digits(v as nat));
}

/// Whether two texts hold the same characters.
pub fn same_text(a: &str, b: &str) -> (r: bool)
    ensures
        r == (a@ == b@),
{
    let x: String = a.to_owned();
    let y: String = b.to_owned();
    x == y
}

/// The characters with the Unicode `White_Space` property: tab through
/// carriage return, space, next line, no-break space, ogham space mark, the
/// spaces from en quad to hair space, line and paragraph separators, narrow
/// no-break space, medium mathematical space and ideographic space.
pub open spec fn whitespace_of(c: char) -> bool {
    ('\u{9}' <= c && c <= '\u{D}') || c == ' ' || c == '\u{85}' || c == '\u{A0}' || c == '\u{1680}'
        || ('\u{2000}' <= c && c <= '\u{200A}') || c == '\u{2028}' || c == '\u{2029}' || c == '\u{202F}'
        || c == '\u{205F}' || c == '\u{3000}'
}

/// Lower-case ASCII letters, digits and dashes only.
pub open spec fn ascii_lower_text(s: Seq<char>) -> bool {
    forall|i: int| 0 <= i < s.len() ==> ('a' <= #[trigger] s[i] && s[i] <= 'z') || ('0' <= s[i] && s[i] <= '9') || s[i] == '-'
}

/// What `str::to_lowercase` returns for a text.
pub uninterp spec fn lowercase_of(s: Seq<char>) -> Seq<char>;

/// Relies on `char::is_whitespace`: true exactly for the characters with the
/// Unicode `White_Space` property.
#[verifier::external_body]
pub(crate) fn is_whitespace(c: char) -> (r: bool)
    ensures
        r == whitespace_of(c),
{
    c.is_whitespace()
}

/// Relies on `str::to_lowercase`: the result depends on the characters alone
/// (Unicode lower-case mapping, not the locale). Lower-case ASCII letters,
/// digits and dashes map to themselves, and every ASCII capital maps to its
/// small letter, so a text made of the former is unchanged and no capital
/// `A` to `Z` is left in any result.
#[verifier::external_body]
pub(crate) fn to_lowercase(s: &str) -> (r: String)
    ensures
        r@ == lowercase_of(s@),
        ascii_lower_text(s@) ==> r@ == s@,
        forall|i: int| 0 <= i < r@.len() ==> !('A' <= #[trigger] r@[i] && r@[i] <= 'Z'),
{
    s.to_lowercase()
}

/// `s` without its leading whitespace.
pub open spec fn trim_start_of(s: Seq<char>) -> Seq<char>
    decreases s.len(),
{
    if s.len() > 0 && whitespace_of(s[0]) {
        trim_start_of(s.drop_first())
    } else {
        s
    }
}

/// `s` without its trailing whitespace.
pub open spec fn trim_end_of(s: Seq<char>) -> Seq<char>
    decreases s.len(),
{
    if s.len() > 0 && whitespace_of(s.last()) {
        trim_end_of(s.drop_last())
    } else {
        s
    }
}

/// `s` without leading and trailing whitespace.
pub open spec fn trimmed(s: Seq<char>) -> Seq<char> {
    trim_end_of(trim_start_of(s))
}

/// Relies on `str::trim`: leading and trailing characters with the Unicode
/// `White_Space` property (those for which `char::is_whitespace` holds) are removed.
#[verifier::external_body]
pub(crate) fn trim(s: &str) -> (r: String)
    ensures
        r@ == trimmed(s@),
{
    s.trim().to_string()
}

/// An ASCII letter or digit.
pub open spec fn ascii_alphanumeric(c: char) -> bool {
    ('a' <= c && c <= 'z') || ('A' <= c && c <= 'Z') || ('0' <= c && c <= '9')
}

/// Whitespace becomes `-`; ASCII letters, digits and `-` stay; everything else is dropped.
pub open spec fn slug_chars(s: Seq<char>) -> Seq<char>
    decreases s.len(),
{
    if s.len() == 0 {
        Seq::empty()
    } else {
        let c = s.last();
        let rest = slug_chars(s.drop_last());
        if whitespace_of(c) {
            rest.push('-')
        } else if ascii_alphanumeric(c) || c == '-' {
            rest.push(c)
        } else {
            rest
        }
    }
}

/// The slug of a tag: trimmed, lower-cased, whitespace turned into dashes, and
/// anything but ASCII letters, digits and dashes removed.
pub open spec fn slug_of(tag: Seq<char>) -> Seq<char> {
    slug_chars(lowercase_of(trimmed(tag)))
}

/// No capital `A` to `Z` in the text.
pub open spec fn no_ascii_capitals(s: Seq<char>) -> bool {
    forall|i: int| 0 <= i < s.len() ==> !('A' <= #[trigger] s[i] && s[i] <= 'Z')
}

/// A slug of a text without capitals is lower-case ASCII.
pub proof fn lemma_slug_chars_lower(s: Seq<char>)
    requires
        no_ascii_capitals(s),
    ensures
        ascii_lower_text(slug_chars(s)),
    decreases s.len(),
{
    if s.len() > 0 {
        assert(no_ascii_capitals(s.drop_last())) by {
            assert forall|i: int| 0 <= i < s.drop_last().len() implies !('A' <= #[trigger] s.drop_last()[i]
                && s.drop_last()[i] <= 'Z') by {
                assert(s.drop_last()[i] == s[i]);
            }
        }
        lemma_slug_chars_lower(s.drop_last());
        assert(!('A' <= s[s.len() - 1] && s[s.len() - 1] <= 'Z'));
    }
}

/// A text that is already lower-case ASCII is its own slug.
pub proof fn lemma_slug_chars_keeps(s: Seq<char>)
    requires
        ascii_lower_text(s),
    ensures
        slug_chars(s) == s,
    decreases s.len(),
{
    if s.len() > 0 {
        assert(ascii_lower_text(s.drop_last())) by {
            assert forall|i: int| 0 <= i < s.drop_last().len() implies ('a' <= #[trigger] s.drop_last()[i]
                && s.drop_last()[i] <= 'z') || ('0' <= s.drop_last()[i] && s.drop_last()[i] <= '9')
                || s.drop_last()[i] == '-' by {
                assert(s.drop_last()[i] == s[i]);
            }
        }
        lemma_slug_chars_keeps(s.drop_last());
        assert(ascii_lower_text(s) ==> ('a' <= s[s.len() - 1] && s[s.len() - 1] <= 'z') || ('0' <= s[s.len()
            - 1] && s[s.len() - 1] <= '9') || s[s.len() - 1] == '-');
        assert(s.drop_last().push(s.last()) =~= s);
    }
}

/// Lower-case ASCII text has no surrounding whitespace to trim.
pub proof fn lemma_trimmed_keeps(s: Seq<char>)
    requires
        ascii_lower_text(s),
    ensures
        trimmed(s) == s,
{
    if s.len() > 0 {
        assert(('a' <= s[0] && s[0] <= 'z') || ('0' <= s[0] && s[0] <= '9') || s[0] == '-');
        assert(('a' <= s[s.len() - 1] && s[s.len() - 1] <= 'z') || ('0' <= s[s.len() - 1] && s[s.len() - 1]
            <= '9') || s[s.len() - 1] == '-');
    }
}

/// Keeps the characters of `s` that belong in a slug, whitespace written as `-`.
pub fn slug_filter(s: &str) -> (r: String)
    ensures
        r@ == slug_chars(s@),
{
    let mut r = String::new();
    let ghost mut seen: Seq<char> = Seq::empty();
    for c in it: s.chars()
        invariant
            seen == it.seq().take(it.index() as int),
            r@ == slug_chars(seen),
            it.seq() == s@,
    {
        proof {
            assert(seen.push(c).drop_last() =~= seen);
            seen = seen.push(c);
        }
        if is_whitespace(c) {
            push_char(&mut r, '-');
        } else if ('a' <= c && c <= 'z') || ('A' <= c && c <= 'Z') || ('0' <= c && c <= '9')
            || c == '-' {
            push_char(&mut r, c);
        }
        assert(seen =~= it.seq().take(it.index() + 1));
    }
    assert(seen =~= s@);
    r
}

} // verus!
