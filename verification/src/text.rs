//! Character-level helpers: whitespace trimming, ASCII case folding, string
//! equality and the decimal / hexadecimal renderings used in tokens, origins
//! and identifiers.

use vstd::prelude::*;
use vstd::string::*;

verus! {

/// The Unicode `White_Space` property (PropList.txt): the characters that
/// `char::is_whitespace` and `str::trim` treat as whitespace.
pub open spec fn is_white_space(c: char) -> bool {
    let u = c as u32;
    ||| 0x09 <= u <= 0x0D
    ||| u == 0x20
    ||| u == 0x85
    ||| u == 0xA0
    ||| u == 0x1680
    ||| 0x2000 <= u <= 0x200A
    ||| u == 0x2028
    ||| u == 0x2029
    ||| u == 0x202F
    ||| u == 0x205F
    ||| u == 0x3000
}

/// `s` without its leading whitespace.
pub open spec fn trim_start_view(s: Seq<char>) -> Seq<char>
    decreases s.len(),
{
    if s.len() > 0 && is_white_space(s[0]) {
        trim_start_view(s.drop_first())
    } else {
        s
    }
}

/// `s` without its trailing whitespace.
pub open spec fn trim_end_view(s: Seq<char>) -> Seq<char>
    decreases s.len(),
{
    if s.len() > 0 && is_white_space(s.last()) {
        trim_end_view(s.drop_last())
    } else {
        s
    }
}

/// `s` without leading and trailing whitespace.
pub open spec fn trim_view(s: Seq<char>) -> Seq<char> {
    trim_end_view(trim_start_view(s))
}

/// A string that holds nothing but whitespace.
pub open spec fn is_blank(s: Seq<char>) -> bool {
    trim_view(s).len() == 0
}

/// ASCII lower-casing of one character: `A`..=`Z` map to `a`..=`z`.
pub open spec fn ascii_lower(c: char) -> char {
    if 'A' <= c && c <= 'Z' {
        ((c as u32) + 32) as char
    } else {
        c
    }
}

/// ASCII lower-casing of every character of `s`.
pub open spec fn ascii_lower_view(s: Seq<char>) -> Seq<char> {
    s.map_values(|c: char| ascii_lower(c))
}

/// Whether `c` has the Unicode `White_Space` property.
pub fn is_white_space_char(c: char) -> (r: bool)
    ensures
        r == is_white_space(c),
{
    let u = c as u32;
    (0x09 <= u && u <= 0x0D) || u == 0x20 || u == 0x85 || u == 0xA0 || u == 0x1680 || (0x2000
        <= u && u <= 0x200A) || u == 0x2028 || u == 0x2029 || u == 0x202F || u == 0x205F || u
        == 0x3000
}

/// `s` without leading and trailing whitespace, as `str::trim` gives it.
pub fn trim(s: &str) -> (r: &str)
    ensures
        r@ == trim_view(s@),
{
    let n = s.unicode_len();
    let mut i: usize = 0;
    assert(s@.skip(0) =~= s@);
    while i < n && is_white_space_char(s.get_char(i))
        invariant
            n == s@.len(),
            i <= n,
            trim_start_view(s@) == trim_start_view(s@.skip(i as int)),
        decreases n - i,
    {
        assert(s@.skip(i as int).drop_first() =~= s@.skip(i + 1));
        i = i + 1;
    }
    let t = s.substring_char(i, n);
    assert(t@ =~= s@.skip(i as int));
    assert(trim_start_view(s@) == t@);
    let m = t.unicode_len();
    let mut j: usize = m;
    assert(t@.take(m as int) =~= t@);
    while j > 0 && is_white_space_char(t.get_char(j - 1))
        invariant
            m == t@.len(),
            j <= m,
            trim_end_view(t@) == trim_end_view(t@.take(j as int)),
        decreases j,
    {
        assert(t@.take(j as int).drop_last() =~= t@.take(j - 1));
        j = j - 1;
    }
    let r = t.substring_char(0, j);
    assert(r@ =~= t@.take(j as int));
    r
}

/// Every ASCII upper-case letter of `s` lower-cased, as
/// `str::to_ascii_lowercase` gives it.
pub fn to_ascii_lowercase(s: &str) -> (r: String)
    ensures
        r@ == ascii_lower_view(s@),
{
    let n = s.unicode_len();
    let mut r = String::new();
    let mut i: usize = 0;
    while i < n
        invariant
            n == s@.len(),
            i <= n,
            r@ == ascii_lower_view(s@.take(i as int)),
        decreases n - i,
    {
        let c = s.get_char(i);
        let lower = if 'A' <= c && c <= 'Z' {
            ((c as u32) + 32) as u8 as char
        } else {
            c
        };
        push_char(&mut r, lower);
        assert(s@.take(i + 1) =~= s@.take(i as int).push(c));
        assert(ascii_lower_view(s@.take(i + 1)) =~= ascii_lower_view(s@.take(i as int)).push(
            ascii_lower(c),
        ));
        i = i + 1;
    }
    assert(s@.take(n as int) =~= s@);
    r
}

/// `String::push`: appends one character.
#[verifier::external_body]
pub(crate) fn push_char(s: &mut String, c: char)
    ensures
        final(s)@ == old(s)@.push(c),
{
    s.push(c)
}

/// Whether `s` holds nothing but whitespace.
pub fn is_blank_str(s: &str) -> (r: bool)
    ensures
        r == is_blank(s@),
{
    trim(s).is_empty()
}

/// Character-wise equality of two strings.
pub fn str_equal(a: &str, b: &str) -> (r: bool)
    ensures
        r == (a@ == b@),
{
    let n = a.unicode_len();
    if n != b.unicode_len() {
        return false;
    }
    let mut i: usize = 0;
    while i < n
        invariant
            n == a@.len(),
            n == b@.len(),
            i <= n,
            forall|k: int| 0 <= k < i ==> a@[k] == b@[k],
        decreases n - i,
    {
        if a.get_char(i) != b.get_char(i) {
            return false;
        }
        i = i + 1;
    }
    assert(a@ =~= b@);
    true
}

/// An owned copy of `s`.
pub fn to_string(s: &str) -> (r: String)
    ensures
        r@ == s@,
{
    s.to_owned()
}

/// The digit character for `d < 16`: `0`..`9` then `a`..`f`.
pub open spec fn digit_view(d: nat) -> char {
    if d < 10 {
        (('0' as u32) + d) as char
    } else {
        (('a' as u32) + d - 10) as char
    }
}

/// The decimal rendering of `n`, without leading zeros.
pub open spec fn decimal_view(n: nat) -> Seq<char>
    decreases n,
{
    if n < 10 {
        seq![digit_view(n)]
    } else {
        decimal_view(n / 10).push(digit_view(n % 10))
    }
}

/// The `width`-digit lower-case hexadecimal rendering of `n`, zero-padded
/// (only the lowest `width` digits are kept).
pub open spec fn hex_view(n: nat, width: nat) -> Seq<char>
    decreases width,
{
    if width == 0 {
        Seq::empty()
    } else {
        hex_view(n / 16, (width - 1) as nat).push(digit_view(n % 16))
    }
}

fn digit_char(d: u8) -> (c: char)
    requires
        d < 16,
    ensures
        c == digit_view(d as nat),
{
    match d {
        0 => '0',
        1 => '1',
        2 => '2',
        3 => '3',
        4 => '4',
        5 => '5',
        6 => '6',
        7 => '7',
        8 => '8',
        9 => '9',
        10 => 'a',
        11 => 'b',
        12 => 'c',
        13 => 'd',
        14 => 'e',
        _ => 'f',
    }
}

/// Appends the decimal rendering of `n`.
pub fn push_decimal(s: &mut String, n: u64)
    ensures
        final(s)@ == old(s)@ + decimal_view(n as nat),
    decreases n,
{
    if n >= 10 {
        push_decimal(s, n / 10);
    }
    push_char(s, digit_char((n % 10) as u8));
    assert(n < 10 ==> decimal_view(n as nat) =~= seq![digit_view(n as nat)]);
}

/// Appends the `width`-digit zero-padded hexadecimal rendering of `n`.
pub fn push_hex(s: &mut String, n: u128, width: usize)
    ensures
        final(s)@ == old(s)@ + hex_view(n as nat, width as nat),
    decreases width,
{
    if width > 0 {
        push_hex(s, n / 16, width - 1);
        push_char(s, digit_char((n % 16) as u8));
    } else {
        assert(old(s)@ + hex_view(n as nat, 0) =~= old(s)@);
    }
}

/// Trimming the start drops a whitespace prefix and leaves a string that is
/// empty or starts with a non-whitespace character.
pub proof fn lemma_trim_start(s: Seq<char>)
    ensures
        exists|k: int| 0 <= k <= s.len() && trim_start_view(s) == s.skip(k),
        trim_start_view(s).len() > 0 ==> !is_white_space(trim_start_view(s)[0]),
    decreases s.len(),
{
    if s.len() > 0 && is_white_space(s[0]) {
        lemma_trim_start(s.drop_first());
        let k = choose|k: int|
            0 <= k <= s.drop_first().len() && trim_start_view(s.drop_first()) == s.drop_first().skip(k);
        assert(s.drop_first().skip(k) =~= s.skip(k + 1));
    } else {
        assert(s.skip(0) =~= s);
    }
}

/// Trimming the end drops a whitespace suffix and leaves a string that is
/// empty or ends with a non-whitespace character.
pub proof fn lemma_trim_end(s: Seq<char>)
    ensures
        exists|m: int| 0 <= m <= s.len() && trim_end_view(s) == s.take(m),
        trim_end_view(s).len() > 0 ==> !is_white_space(trim_end_view(s).last()),
    decreases s.len(),
{
    if s.len() > 0 && is_white_space(s.last()) {
        lemma_trim_end(s.drop_last());
        let m = choose|m: int|
            0 <= m <= s.drop_last().len() && trim_end_view(s.drop_last()) == s.drop_last().take(m);
        assert(s.drop_last().take(m) =~= s.take(m));
    } else {
        assert(s.take(s.len() as int) =~= s);
    }
}

/// A trimmed string is empty or starts and ends with non-whitespace.
pub proof fn lemma_trim_ends(s: Seq<char>)
    ensures
        trim_view(s).len() > 0 ==> !is_white_space(trim_view(s)[0]) && !is_white_space(
            trim_view(s).last(),
        ),
{
    let u = trim_start_view(s);
    lemma_trim_start(s);
    lemma_trim_end(u);
    let m = choose|m: int| 0 <= m <= u.len() && trim_end_view(u) == u.take(m);
    if trim_view(s).len() > 0 {
        assert(trim_view(s)[0] == u[0]);
    }
}

/// A string that is empty or starts and ends with non-whitespace is its own
/// trimming.
pub proof fn lemma_trim_fixed(s: Seq<char>)
    requires
        s.len() > 0 ==> !is_white_space(s[0]) && !is_white_space(s.last()),
    ensures
        trim_view(s) == s,
{
}

/// ASCII lower-casing neither creates nor removes whitespace.
pub proof fn lemma_ascii_lower_white_space(c: char)
    ensures
        is_white_space(ascii_lower(c)) == is_white_space(c),
        ascii_lower(ascii_lower(c)) == ascii_lower(c),
{
}

} // verus!
