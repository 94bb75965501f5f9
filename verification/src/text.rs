use vstd::prelude::*;

verus! {

/// ASCII upper-case mapping of one character; other characters are unchanged.
pub open spec fn upper_char(c: char) -> char {
    if 'a' <= c && c <= 'z' {
        ((c as u32) - 32) as char
    } else {
        c
    }
}

/// ASCII upper-case mapping of a character sequence.
pub open spec fn upper_seq(s: Seq<char>) -> Seq<char> {
    s.map_values(|c: char| upper_char(c))
}

/// Two character sequences are equal when ASCII case is ignored.
pub open spec fn eq_ci(a: Seq<char>, b: Seq<char>) -> bool {
    upper_seq(a) == upper_seq(b)
}

/// Append one character to a string.
#[verifier::external_body]
pub(crate) fn push_char(s: &mut String, c: char)
    ensures
        final(s)@ == old(s)@.push(c),
{
    s.push(c)
}

/// ASCII upper case of one character.
pub fn char_to_upper(c: char) -> (r: char)
    ensures
        r == upper_char(c),
{
    if 'a' <= c && c <= 'z' {
        let b: u8 = (c as u8) - 32;
        b as char
    } else {
        c
    }
}


/// Number of characters of a string slice.
pub fn char_count(s: &str) -> (n: usize)
    ensures
        n == s@.len(),
{
    s.unicode_len()
}

/// Character at a given position of a string slice.
pub fn char_at(s: &str, i: usize) -> (c: char)
    requires
        i < s@.len(),
    ensures
        c == s@[i as int],
{
    s.get_char(i)
}

/// Whether two strings are equal when ASCII letters are compared without case.
pub fn eq_ignore_ascii_case(a: &str, b: &str) -> (r: bool)
    ensures
        r == eq_ci(a@, b@),
{
    let n = char_count(a);
    let m = char_count(b);
    if n != m {
        assert(upper_seq(a@).len() != upper_seq(b@).len());
        return false;
    }
    let mut i: usize = 0;
    while i < n
        invariant
            n == a@.len(),
            m == b@.len(),
            n == m,
            i <= n,
            forall|j: int| 0 <= j < i ==> upper_char(#[trigger] a@[j]) == upper_char(b@[j]),
        decreases n - i,
    {
        let ca = char_to_upper(char_at(a, i));
        let cb = char_to_upper(char_at(b, i));
        if ca != cb {
            assert(upper_seq(a@)[i as int] != upper_seq(b@)[i as int]);
            return false;
        }
        i += 1;
    }
    assert(upper_seq(a@) =~= upper_seq(b@));
    true
}

/// ASCII upper-case copy of a string.
pub fn to_ascii_uppercase(s: &str) -> (r: String)
    ensures
        r@ == upper_seq(s@),
{
    let n = char_count(s);
    let mut r = String::new();
    let mut i: usize = 0;
    while i < n
        invariant
            n == s@.len(),
            i <= n,
            r@ == upper_seq(s@.subrange(0, i as int)),
        decreases n - i,
    {
        let c = char_to_upper(char_at(s, i));
        push_char(&mut r, c);
        i += 1;
        assert(upper_seq(s@.subrange(0, i as int)) =~= upper_seq(s@.subrange(0, i - 1)).push(c));
    }
    assert(s@.subrange(0, n as int) =~= s@);
    r
}


/// `s` begins with an opening brace.
pub open spec fn opens(s: Seq<char>) -> bool {
    s.len() > 0 && s[0] == '{'
}

/// `s` ends with a closing brace.
pub open spec fn ends_with_close(s: Seq<char>) -> bool {
    s.len() > 0 && s.last() == '}'
}

/// `s` without all of its leading opening braces.
pub open spec fn trim_open(s: Seq<char>) -> Seq<char>
    decreases s.len(),
{
    if opens(s) {
        trim_open(s.drop_first())
    } else {
        s
    }
}

/// `s` closes a section named `name`: it is `}` alone, or `name}` with the name
/// compared ignoring ASCII case.
pub open spec fn closes(s: Seq<char>, name: Seq<char>) -> bool {
    s == seq!['}'] || (ends_with_close(s) && eq_ci(s.drop_last(), name))
}

/// Whether a string begins with an opening brace.
pub fn starts_with_open(s: &str) -> (b: bool)
    ensures
        b == opens(s@),
{
    let n = char_count(s);
    n > 0 && char_at(s, 0) == '{'
}

/// Whether a string ends with a closing brace.
pub fn ends_with_closing(s: &str) -> (b: bool)
    ensures
        b == ends_with_close(s@),
{
    let n = char_count(s);
    n > 0 && char_at(s, n - 1) == '}'
}

/// Copy of a string slice.
pub fn owned(s: &str) -> (r: String)
    ensures
        r@ == s@,
{
    s.to_owned()
}

/// A string without its leading opening braces.
pub fn trim_open_braces(s: &str) -> (r: String)
    ensures
        r@ == trim_open(s@),
{
    let n = char_count(s);
    let mut k: usize = 0;
    assert(s@.subrange(0, n as int) =~= s@);
    while k < n && char_at(s, k) == '{'
        invariant
            n == s@.len(),
            k <= n,
            trim_open(s@) == trim_open(s@.subrange(k as int, n as int)),
        decreases n - k,
    {
        assert(s@.subrange(k as int, n as int).drop_first() =~= s@.subrange(k + 1, n as int));
        k += 1;
    }
    let t = s.substring_char(k, n);
    owned(t)
}

/// Whether `s` closes a section named `name` (see `closes`).
pub fn closes_section(s: &str, name: &str) -> (b: bool)
    ensures
        b == closes(s@, name@),
{
    let n = char_count(s);
    if n == 1 && char_at(s, 0) == '}' {
        assert(s@ =~= seq!['}']);
        return true;
    }
    if n == 0 || char_at(s, n - 1) != '}' {
        return false;
    }
    let head = s.substring_char(0, n - 1);
    assert(head@ =~= s@.drop_last());
    eq_ignore_ascii_case(head, name)
}

/// `{` followed by a name: the text that opens a section.
pub fn open_marker(name: &str) -> (r: String)
    ensures
        r@ == seq!['{'] + name@,
{
    let mut r = String::new();
    push_char(&mut r, '{');
    r.append(name);
    r
}

/// `}`: the text that closes a section.
pub fn close_marker() -> (r: String)
    ensures
        r@ == seq!['}'],
{
    let mut r = String::new();
    push_char(&mut r, '}');
    r
}


/// Whether a number is a Unicode scalar value (a valid `char`).
pub open spec fn is_scalar(v: int) -> bool {
    0 <= v <= 0x10FFFF && !(0xD800 <= v <= 0xDFFF)
}

/// `char::from_u32`: the character with scalar value `v`, or `None` when `v` is
/// not a Unicode scalar value.
#[verifier::external_body]
pub(crate) fn char_from_u32(v: u32) -> (r: Option<char>)
    ensures
        is_scalar(v as int) ==> r == Some(v as char),
        !is_scalar(v as int) ==> r is None,
{
    char::from_u32(v)
}

/// UTF-16 decoding (Unicode, section 3.9): a unit outside the surrogate range is
/// a character; a high surrogate followed by a low surrogate is one
/// supplementary character; any other surrogate makes the input invalid.
pub open spec fn utf16_decode(units: Seq<u16>) -> Option<Seq<char>>
    decreases units.len(),
{
    if units.len() == 0 {
        Some(Seq::empty())
    } else {
        let u = units[0] as int;
        if u < 0xD800 || u > 0xDFFF {
            match utf16_decode(units.drop_first()) {
                Some(rest) => Some(seq![u as char] + rest),
                None => None,
            }
        } else if u <= 0xDBFF && units.len() >= 2 && 0xDC00 <= units[1] <= 0xDFFF {
            let c = 0x10000 + (u - 0xD800) * 0x400 + (units[1] - 0xDC00);
            match utf16_decode(units.subrange(2, units.len() as int)) {
                Some(rest) => Some(seq![c as char] + rest),
                None => None,
            }
        } else {
            None
        }
    }
}

/// UTF-16 code units of one character.
pub open spec fn utf16_units(c: char) -> Seq<u16> {
    let v = c as int;
    if v < 0x10000 {
        seq![v as u16]
    } else {
        seq![(0xD800 + (v - 0x10000) / 0x400) as u16, (0xDC00 + (v - 0x10000) % 0x400) as u16]
    }
}

/// UTF-16 encoding of a character sequence.
pub open spec fn utf16_encode(s: Seq<char>) -> Seq<u16>
    decreases s.len(),
{
    if s.len() == 0 {
        Seq::empty()
    } else {
        utf16_units(s[0]) + utf16_encode(s.drop_first())
    }
}

/// Decode UTF-16 code units into a string (`None` for invalid input).
pub fn decode_utf16(units: &Vec<u16>) -> (r: Option<String>)
    ensures
        match utf16_decode(units@) {
            Some(t) => r is Some && r->0@ == t,
            None => r is None,
        },
{
    let n = units.len();
    let mut out = String::new();
    let mut i: usize = 0;
    assert(units@.subrange(0, n as int) =~= units@);
    while i < n
        invariant
            n == units@.len(),
            i <= n,
            utf16_decode(units@) == (match utf16_decode(units@.subrange(i as int, n as int)) {
                Some(rest) => Some(out@ + rest),
                None => None::<Seq<char>>,
            }),
        decreases n - i,
    {
        let ghost rest = units@.subrange(i as int, n as int);
        let u = units[i];
        if u < 0xD800 || u > 0xDFFF {
            let c = match char_from_u32(u as u32) {
                Some(c) => c,
                None => {
                    return None;
                },
            };
            let ghost before = out@;
            push_char(&mut out, c);
            assert(rest.drop_first() =~= units@.subrange(i + 1, n as int));
            i += 1;
            proof {
                match utf16_decode(units@.subrange(i as int, n as int)) {
                    Some(r2) => {
                        assert(out@ + r2 =~= before + (seq![c] + r2));
                    },
                    None => {},
                }
            }
        } else if u <= 0xDBFF && i + 1 < n && 0xDC00 <= units[i + 1] && units[i + 1] <= 0xDFFF {
            let lo = units[i + 1];
            let v: u32 = 0x10000 + ((u as u32) - 0xD800) * 0x400 + ((lo as u32) - 0xDC00);
            let c = match char_from_u32(v) {
                Some(c) => c,
                None => {
                    return None;
                },
            };
            let ghost before = out@;
            push_char(&mut out, c);
            assert(rest.subrange(2, rest.len() as int) =~= units@.subrange(i + 2, n as int));
            i += 2;
            proof {
                match utf16_decode(units@.subrange(i as int, n as int)) {
                    Some(r2) => {
                        assert(out@ + r2 =~= before + (seq![c] + r2));
                    },
                    None => {},
                }
            }
        } else {
            return None;
        }
    }
    assert(units@.subrange(n as int, n as int) =~= Seq::<u16>::empty());
    assert(out@ + Seq::<char>::empty() =~= out@);
    Some(out)
}

/// UTF-16 code units of a string.
pub fn encode_utf16(s: &str) -> (r: Vec<u16>)
    ensures
        r@ == utf16_encode(s@),
{
    let n = char_count(s);
    let mut r: Vec<u16> = Vec::new();
    let mut i: usize = 0;
    assert(s@.subrange(0, n as int) =~= s@);
    while i < n
        invariant
            n == s@.len(),
            i <= n,
            utf16_encode(s@) == r@ + utf16_encode(s@.subrange(i as int, n as int)),
        decreases n - i,
    {
        let c = char_at(s, i);
        let v = c as u32;
        let ghost before = r@;
        if v < 0x10000 {
            r.push(v as u16);
        } else {
            r.push((0xD800 + (v - 0x10000) / 0x400) as u16);
            r.push((0xDC00 + (v - 0x10000) % 0x400) as u16);
        }
        assert(r@ =~= before + utf16_units(c));
        assert(s@.subrange(i as int, n as int).drop_first() =~= s@.subrange(i + 1, n as int));
        i += 1;
    }
    assert(s@.subrange(n as int, n as int) =~= Seq::<char>::empty());
    assert(r@ + Seq::<u16>::empty() =~= r@);
    r
}


/// Whether two strings are equal.
pub fn str_eq(a: &str, b: &str) -> (r: bool)
    ensures
        r == (a@ == b@),
{
    let n = char_count(a);
    if n != char_count(b) {
        return false;
    }
    let mut i: usize = 0;
    while i < n
        invariant
            n == a@.len(),
            n == b@.len(),
            i <= n,
            forall|j: int| 0 <= j < i ==> a@[j] == b@[j],
        decreases n - i,
    {
        if char_at(a, i) != char_at(b, i) {
            return false;
        }
        i += 1;
    }
    assert(a@ =~= b@);
    true
}

/// The character of a decimal digit.
pub open spec fn digit_char(d: int) -> char {
    (48 + d) as char
}

/// Decimal notation of a natural number, without leading zeros.
pub open spec fn decimal(n: nat) -> Seq<char>
    decreases n,
{
    if n < 10 {
        seq![digit_char(n as int)]
    } else {
        decimal(n / 10).push(digit_char((n % 10) as int))
    }
}

/// Decimal notation consists of at least one digit, and of at least two from ten on.
pub proof fn lemma_decimal_digits(n: nat)
    ensures
        decimal(n).len() >= 1,
        n >= 10 ==> decimal(n).len() >= 2,
        forall|i: int| 0 <= i < decimal(n).len() ==> 48 <= (#[trigger] decimal(n)[i]) as u32 <= 57,
    decreases n,
{
    if n >= 10 {
        lemma_decimal_digits(n / 10);
        let p = decimal(n / 10);
        assert forall|i: int| 0 <= i < decimal(n).len() implies 48 <= (#[trigger] decimal(n)[i]) as u32 <= 57 by {
            if i < p.len() {
                assert(decimal(n)[i] == p[i]);
            }
        }
    }
}

/// Different numbers have different decimal notations.
pub proof fn lemma_decimal_injective(n: nat, m: nat)
    requires
        decimal(n) == decimal(m),
    ensures
        n == m,
    decreases n,
{
    lemma_decimal_digits(n);
    lemma_decimal_digits(m);
    if n < 10 && m < 10 {
        assert(decimal(n)[0] == decimal(m)[0]);
        assert(decimal(n)[0] == digit_char(n as int));
        assert(decimal(m)[0] == digit_char(m as int));
        assert(digit_char(n as int) as u32 == 48 + n);
        assert(digit_char(m as int) as u32 == 48 + m);
    } else if n >= 10 && m >= 10 {
        assert(decimal(n).last() == decimal(m).last());
        assert(decimal(n).last() == digit_char((n % 10) as int));
        assert(decimal(m).last() == digit_char((m % 10) as int));
        assert(digit_char((n % 10) as int) as u32 == 48 + n % 10);
        assert(digit_char((m % 10) as int) as u32 == 48 + m % 10);
        assert(decimal(n).drop_last() =~= decimal(n / 10));
        assert(decimal(m).drop_last() =~= decimal(m / 10));
        lemma_decimal_injective(n / 10, m / 10);
        assert(n % 10 == m % 10);
        assert(n == 10 * (n / 10) + n % 10);
        assert(m == 10 * (m / 10) + m % 10);
    } else if n < 10 {
        assert(decimal(n).len() == 1);
    } else {
        assert(decimal(m).len() == 1);
    }
}

/// Decimal notation of a number.
pub fn decimal_string(n: usize) -> (r: String)
    ensures
        r@ == decimal(n as nat),
    decreases n,
{
    let d: u8 = (n % 10) as u8;
    let c: char = (48u8 + d) as char;
    if n < 10 {
        let mut s = String::new();
        push_char(&mut s, c);
        assert(s@ =~= seq![digit_char(n as int)]);
        s
    } else {
        let mut s = decimal_string(n / 10);
        push_char(&mut s, c);
        s
    }
}

} // verus!
