//! Character-level text handling: building strings, searching, and decimal numbers.
use vstd::prelude::*;
use vstd::utf8::*;

verus! {

broadcast use vstd::string::group_string_axioms;

// ---------------------------------------------------------------------------
// std functions on strings that vstd leaves unspecified
// ---------------------------------------------------------------------------

/// `String::push` appends one character to the end of the string.
pub assume_specification[ String::push ](s: &mut String, ch: char)
    ensures
        final(s)@ == old(s)@.push(ch),
;

/// `String::push_str` appends the given string slice to the end of the string.
pub assume_specification[ String::push_str ](s: &mut String, string: &str)
    ensures
        final(s)@ == old(s)@ + string@,
;

/// The text that `str::to_lowercase` returns for a given text
/// (the Unicode `Lowercase` mapping, applied character by character).
pub uninterp spec fn lowercase(s: Seq<char>) -> Seq<char>;

/// `str::to_lowercase` returns the lowercase form of the slice as a new `String`.
pub assume_specification[ str::to_lowercase ](s: &str) -> (r: String)
    ensures
        r@ == lowercase(s@),
;

/// A character with the Unicode `White_Space` property, which is what
/// `char::is_whitespace` tests.
pub open spec fn is_white_space(c: char) -> bool {
    ||| '\u{9}' <= c <= '\u{d}'
    ||| c == ' '
    ||| c == '\u{85}'
    ||| c == '\u{a0}'
    ||| c == '\u{1680}'
    ||| '\u{2000}' <= c <= '\u{200a}'
    ||| c == '\u{2028}'
    ||| c == '\u{2029}'
    ||| c == '\u{202f}'
    ||| c == '\u{205f}'
    ||| c == '\u{3000}'
}

/// The text without its leading whitespace.
pub open spec fn trim_start(s: Seq<char>) -> Seq<char>
    decreases s.len(),
{
    if s.len() > 0 && is_white_space(s[0]) {
        trim_start(s.drop_first())
    } else {
        s
    }
}

/// The text without its trailing whitespace.
pub open spec fn trim_end(s: Seq<char>) -> Seq<char>
    decreases s.len(),
{
    if s.len() > 0 && is_white_space(s.last()) {
        trim_end(s.drop_last())
    } else {
        s
    }
}

/// The text without leading and trailing whitespace.
pub open spec fn trimmed(s: Seq<char>) -> Seq<char> {
    trim_end(trim_start(s))
}

/// `str::trim` returns the slice with leading and trailing whitespace
/// (characters with the Unicode `White_Space` property) removed.
pub assume_specification[ str::trim ](s: &str) -> (r: &str)
    ensures
        r@ == trimmed(s@),
;

/// A text of digits has no whitespace to trim.
pub proof fn lemma_trimmed_digits(s: Seq<char>)
    requires
        all_digits(s),
    ensures
        trimmed(s) == s,
{
    if s.len() > 0 {
        assert(is_digit(s[0]));
        assert(is_digit(s[s.len() - 1]));
    }
}

/// The error `String::from_utf8` reports for bytes that are not UTF-8.
#[verifier::external_type_specification]
#[verifier::external_body]
pub struct ExFromUtf8Error(std::string::FromUtf8Error);

/// `String::from_utf8` succeeds exactly on valid UTF-8 and then holds the decoded text.
pub assume_specification[ String::from_utf8 ](vec: Vec<u8>) -> (r: Result<String, std::string::FromUtf8Error>)
    ensures
        r is Ok <==> valid_utf8(vec@),
        r matches Ok(s) ==> s@ == decode_utf8(vec@),
;

// ---------------------------------------------------------------------------
// Specification of the text operations
// ---------------------------------------------------------------------------

/// `needle` occurs in `hay` starting at position `i`.
pub open spec fn occurs_at(hay: Seq<char>, needle: Seq<char>, i: int) -> bool {
    &&& 0 <= i
    &&& i + needle.len() <= hay.len()
    &&& hay.subrange(i, i + needle.len()) == needle
}

/// `needle` occurs somewhere in `hay` (the empty text occurs everywhere).
pub open spec fn has_substring(hay: Seq<char>, needle: Seq<char>) -> bool {
    exists|i: int| occurs_at(hay, needle, i)
}

pub open spec fn is_digit(c: char) -> bool {
    '0' <= c && c <= '9'
}

pub open spec fn all_digits(s: Seq<char>) -> bool {
    forall|i: int| 0 <= i < s.len() ==> is_digit(#[trigger] s[i])
}

/// The numeric value of a decimal digit character.
pub open spec fn digit_value(c: char) -> nat {
    (c as int - '0' as int) as nat
}

/// The character of a decimal digit `d < 10`.
pub open spec fn digit_char(d: nat) -> char {
    (d + '0' as int) as char
}

/// The value of a text of decimal digits, most significant first.
pub open spec fn digits_value(s: Seq<char>) -> nat
    decreases s.len(),
{
    if s.len() == 0 {
        0
    } else {
        digits_value(s.drop_last()) * 10 + digit_value(s.last())
    }
}

/// The shortest decimal text of `n`.
pub open spec fn decimal_text(n: nat) -> Seq<char>
    decreases n,
{
    if n < 10 {
        seq![digit_char(n)]
    } else {
        decimal_text(n / 10).push(digit_char(n % 10))
    }
}

/// The digits of an unsigned number's text: one leading `+` is allowed.
pub open spec fn unsigned_body(s: Seq<char>) -> Seq<char> {
    if s.len() > 0 && s[0] == '+' {
        s.drop_first()
    } else {
        s
    }
}

/// What `str::parse` gives for an unsigned integer type whose largest value is `max`:
/// the value of the digits after an optional `+`, when there is at least one digit,
/// every character is a digit, and the value fits.
pub open spec fn parsed_unsigned(s: Seq<char>, max: nat) -> Option<nat> {
    let body = unsigned_body(s);
    if body.len() > 0 && all_digits(body) && digits_value(body) <= max {
        Some(digits_value(body))
    } else {
        None
    }
}

/// `s` padded on the left with spaces to at least `width` characters
/// (the `{:width}` format of a number).
pub open spec fn pad_left(s: Seq<char>, width: nat) -> Seq<char> {
    if s.len() < width {
        Seq::new((width - s.len()) as nat, |i: int| ' ') + s
    } else {
        s
    }
}

/// The ASCII bytes of an ASCII text.
pub open spec fn ascii_bytes(s: Seq<char>) -> Seq<u8> {
    s.map_values(|c: char| c as u8)
}

// ---------------------------------------------------------------------------
// Lemmas
// ---------------------------------------------------------------------------

proof fn lemma_digit_char(d: nat)
    requires
        d < 10,
    ensures
        is_digit(digit_char(d)),
        digit_value(digit_char(d)) == d,
{
}

/// The decimal text of a number is a non-empty run of digits whose value is the number.
pub proof fn lemma_decimal_text(n: nat)
    ensures
        decimal_text(n).len() > 0,
        all_digits(decimal_text(n)),
        digits_value(decimal_text(n)) == n,
        decimal_text(n)[0] != '+',
    decreases n,
{
    if n < 10 {
        lemma_digit_char(n);
        let t = decimal_text(n);
        assert(t.drop_last() =~= Seq::<char>::empty());
        assert(digits_value(t) == digits_value(t.drop_last()) * 10 + digit_value(t.last()));
    } else {
        lemma_decimal_text(n / 10);
        lemma_digit_char(n % 10);
        let t = decimal_text(n);
        assert(t.drop_last() =~= decimal_text(n / 10));
        assert(t.last() == digit_char(n % 10));
        assert(t[0] == decimal_text(n / 10)[0]);
        assert(n == (n / 10) * 10 + n % 10) by (nonlinear_arith);
        assert(digits_value(t) == digits_value(decimal_text(n / 10)) * 10 + digit_value(t.last()));
    }
}

/// A prefix of a run of digits is worth no more than the whole run.
pub proof fn lemma_digits_value_prefix(s: Seq<char>, k: int)
    requires
        0 <= k <= s.len(),
    ensures
        digits_value(s.take(k)) <= digits_value(s),
    decreases s.len(),
{
    if k == s.len() {
        assert(s.take(k) =~= s);
    } else {
        lemma_digits_value_prefix(s.drop_last(), k);
        assert(s.drop_last().take(k) =~= s.take(k));
    }
}

/// Reading back the decimal text of a number gives the number.
pub proof fn lemma_parse_decimal_text(n: nat, max: nat)
    requires
        n <= max,
    ensures
        parsed_unsigned(decimal_text(n), max) == Some(n),
{
    lemma_decimal_text(n);
    assert(unsigned_body(decimal_text(n)) == decimal_text(n));
}

// ---------------------------------------------------------------------------
// Executable text operations
// ---------------------------------------------------------------------------

/// The characters of a string slice.
pub fn chars_of(s: &str) -> (v: Vec<char>)
    ensures
        v@ == s@,
{
    let mut v: Vec<char> = Vec::new();
    for c in it: s.chars()
        invariant
            it.seq() == s@,
            v@ == it.seq().take(it.index() as int),
    {
        v.push(c);
        assert(v@ =~= it.seq().take(it.index() + 1));
    }
    assert(v@ =~= s@);
    v
}

/// The string made of the given characters.
pub fn string_of(v: &[char]) -> (s: String)
    ensures
        s@ == v@,
{
    let mut s = String::new();
    let mut i: usize = 0;
    while i < v.len()
        invariant
            i <= v@.len(),
            s@ == v@.take(i as int),
        decreases v@.len() - i,
    {
        s.push(v[i]);
        assert(s@ =~= v@.take(i + 1));
        i = i + 1;
    }
    assert(v@.take(v@.len() as int) =~= v@);
    s
}

/// Two string slices hold the same text.
pub fn same_text(a: &str, b: &str) -> (r: bool)
    ensures
        r == (a@ == b@),
{
    let x: String = a.to_string();
    let y: String = b.to_string();
    x == y
}

/// Whether `needle` occurs in `hay`.
pub fn contains_chars(hay: &[char], needle: &[char]) -> (r: bool)
    ensures
        r == has_substring(hay@, needle@),
{
    if needle.len() > hay.len() {
        assert forall|i: int| !occurs_at(hay@, needle@, i) by {}
        return false;
    }
    let hay_len: usize = hay.len();
    let last: usize = hay_len - needle.len();
    let mut i: usize = 0;
    loop
        invariant
            needle@.len() <= hay@.len(),
            hay@.len() == hay_len,
            last == hay@.len() - needle@.len(),
            i <= last,
            forall|k: int| 0 <= k < i ==> !occurs_at(hay@, needle@, k),
        decreases last - i,
    {
        let mut j: usize = 0;
        let mut matched = true;
        while j < needle.len()
            invariant
                needle@.len() <= hay@.len(),
                hay@.len() == hay_len,
                i + needle@.len() <= hay@.len(),
                i <= last,
                last == hay@.len() - needle@.len(),
                j <= needle@.len(),
                matched == (forall|m: int| 0 <= m < j ==> hay@[i + m] == needle@[m]),
            decreases needle@.len() - j,
        {
            if hay[i + j] != needle[j] {
                matched = false;
            }
            j = j + 1;
        }
        if matched {
            assert(hay@.subrange(i as int, i + needle@.len()) =~= needle@);
            assert(occurs_at(hay@, needle@, i as int));
            return true;
        }
        assert(!occurs_at(hay@, needle@, i as int)) by {
            if occurs_at(hay@, needle@, i as int) {
                let m = choose|m: int| 0 <= m < needle@.len() && hay@[i + m] != needle@[m];
                assert(hay@.subrange(i as int, i + needle@.len())[m] == hay@[i + m]);
            }
        }
        if i == last {
            assert forall|k: int| !occurs_at(hay@, needle@, k) by {
                if 0 <= k < i {
                } else if k == i {
                } else {
                }
            }
            return false;
        }
        i = i + 1;
    }
}

/// Whether the text of `needle` occurs in the text of `hay`.
pub fn contains_text(hay: &str, needle: &str) -> (r: bool)
    ensures
        r == has_substring(hay@, needle@),
{
    let h = chars_of(hay);
    let n = chars_of(needle);
    contains_chars(h.as_slice(), n.as_slice())
}

/// The first `n` characters of a text (all of it when it is shorter).
pub fn take_chars(s: &str, n: usize) -> (r: String)
    ensures
        r@ == s@.take(if n < s@.len() { n as int } else { s@.len() as int }),
{
    let v = chars_of(s);
    let mut out = String::new();
    let mut i: usize = 0;
    while i < n && i < v.len()
        invariant
            v@ == s@,
            i <= v@.len(),
            i <= n,
            out@ == v@.take(i as int),
        decreases v@.len() - i,
    {
        out.push(v[i]);
        assert(out@ =~= v@.take(i + 1));
        i = i + 1;
    }
    assert(i == (if n < v@.len() { n as int } else { v@.len() as int }));
    assert(out@ =~= s@.take(if n < s@.len() { n as int } else { s@.len() as int }));
    out
}

fn digit_char_of(d: u64) -> (c: char)
    requires
        d < 10,
    ensures
        c == digit_char(d as nat),
{
    match d {
        0 => '0',
        1 => '1',
        2 => '2',
        3 => '3',
        4 => '4',
        5 => '5',
        6 => '6',
        7 => '7',
        8 => '8',
        _ => '9',
    }
}

fn decimal_chars(n: u64) -> (v: Vec<char>)
    ensures
        v@ == decimal_text(n as nat),
    decreases n,
{
    if n < 10 {
        let mut v: Vec<char> = Vec::new();
        v.push(digit_char_of(n));
        assert(v@ =~= decimal_text(n as nat));
        v
    } else {
        let mut v = decimal_chars(n / 10);
        v.push(digit_char_of(n % 10));
        v
    }
}

/// The decimal text of a number (what `{}` prints for it).
pub fn decimal_string(n: u64) -> (s: String)
    ensures
        s@ == decimal_text(n as nat),
{
    let v = decimal_chars(n);
    string_of(v.as_slice())
}

/// The text padded on the left with spaces to at least `width` characters.
pub fn pad_left_string(s: &str, width: usize) -> (r: String)
    ensures
        r@ == pad_left(s@, width as nat),
{
    let v = chars_of(s);
    let mut out = String::new();
    if v.len() < width {
        let pad: usize = width - v.len();
        let mut i: usize = 0;
        while i < pad
            invariant
                i <= pad,
                out@ == Seq::new(i as nat, |k: int| ' '),
            decreases pad - i,
        {
            out.push(' ');
            assert(out@ =~= Seq::new((i + 1) as nat, |k: int| ' '));
            i = i + 1;
        }
    }
    out.push_str(s);
    assert(out@ =~= pad_left(s@, width as nat));
    out
}

/// Parses an unsigned decimal number as `str::parse::<u64>` does.
pub fn parse_u64(s: &str) -> (r: Option<u64>)
    ensures
        r matches Some(n) ==> parsed_unsigned(s@, u64::MAX as nat) == Some(n as nat),
        r is None ==> parsed_unsigned(s@, u64::MAX as nat) is None,
{
    let v = chars_of(s);
    let start: usize = if v.len() > 0 && v[0] == '+' { 1 } else { 0 };
    let ghost body = unsigned_body(s@);
    assert(body =~= v@.subrange(start as int, v@.len() as int));
    if start == v.len() {
        return None;
    }
    // every character must be a digit
    let mut k: usize = start;
    while k < v.len()
        invariant
            v@ == s@,
            start <= k <= v@.len(),
            body == unsigned_body(s@),
            body =~= v@.subrange(start as int, v@.len() as int),
            forall|m: int| start <= m < k ==> is_digit(#[trigger] v@[m]),
        decreases v@.len() - k,
    {
        if v[k] < '0' || v[k] > '9' {
            assert(!is_digit(v@[k as int]));
            assert(body[k - start] == v@[k as int]);
            assert(!is_digit(body[k - start]));
            assert(!all_digits(body));
            return None;
        }
        k = k + 1;
    }
    assert(all_digits(body));
    let mut value: u64 = 0;
    let mut i: usize = start;
    while i < v.len()
        invariant
            v@ == s@,
            start <= i <= v@.len(),
            body == unsigned_body(s@),
            body =~= v@.subrange(start as int, v@.len() as int),
            all_digits(body),
            value as nat == digits_value(body.take(i - start)),
        decreases v@.len() - i,
    {
        let ghost prefix = body.take(i - start + 1);
        assert(prefix.drop_last() =~= body.take(i - start));
        assert(prefix.last() == v@[i as int]);
        assert(is_digit(body[i - start]));
        let d: u64 = (v[i] as u32 - ('0' as u32)) as u64;
        assert(d == digit_value(v@[i as int]));
        if value > (u64::MAX - d) / 10 {
            assert(value * 10 + d > u64::MAX) by (nonlinear_arith)
                requires
                    value > (u64::MAX - d) / 10,
                    d < 10,
            ;
            proof {
                lemma_digits_value_prefix(body, i - start + 1);
                assert(digits_value(prefix) == digits_value(prefix.drop_last()) * 10 + digit_value(prefix.last()));
            }
            return None;
        }
        assert(value * 10 + d <= u64::MAX) by (nonlinear_arith)
            requires
                value <= (u64::MAX - d) / 10,
                d < 10,
        ;
        value = value * 10 + d;
        i = i + 1;
    }
    assert(body.take(v@.len() - start) =~= body);
    Some(value)
}

/// Parses an unsigned decimal number as `str::parse::<usize>` does.
pub fn parse_usize(s: &str) -> (r: Option<usize>)
    ensures
        r matches Some(n) ==> parsed_unsigned(s@, usize::MAX as nat) == Some(n as nat),
        r is None ==> parsed_unsigned(s@, usize::MAX as nat) is None,
{
    match parse_u64(s) {
        Some(n) => {
            if n as u128 <= usize::MAX as u128 {
                Some(n as usize)
            } else {
                None
            }
        },
        None => {
            assert(usize::MAX <= u64::MAX);
            None
        },
    }
}

} // verus!
