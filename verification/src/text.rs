use vstd::prelude::*;

verus! {

// ---------------------------------------------------------------------------
// Decimal rendering of integers
// ---------------------------------------------------------------------------

/// The character of a decimal digit.
pub open spec fn digit_char(d: nat) -> char {
    if d == 0 { '0' }
    else if d == 1 { '1' }
    else if d == 2 { '2' }
    else if d == 3 { '3' }
    else if d == 4 { '4' }
    else if d == 5 { '5' }
    else if d == 6 { '6' }
    else if d == 7 { '7' }
    else if d == 8 { '8' }
    else { '9' }
}

/// Decimal digits of a natural number, most significant first, no leading zeros.
pub open spec fn decimal_text(n: nat) -> Seq<char>
    decreases n,
{
    if n < 10 {
        seq![digit_char(n)]
    } else {
        decimal_text(n / 10).push(digit_char(n % 10))
    }
}

/// Decimal rendering of an integer, with a leading `-` when negative.
pub open spec fn int_text(i: int) -> Seq<char> {
    if i < 0 {
        seq!['-'] + decimal_text((-i) as nat)
    } else {
        decimal_text(i as nat)
    }
}

fn digit_str(d: u64) -> (s: &'static str)
    requires
        d < 10,
    ensures
        s@ == seq![digit_char(d as nat)],
{
    if d == 0 {
        proof { reveal_strlit("0"); }
        "0"
    } else if d == 1 {
        proof { reveal_strlit("1"); }
        "1"
    } else if d == 2 {
        proof { reveal_strlit("2"); }
        "2"
    } else if d == 3 {
        proof { reveal_strlit("3"); }
        "3"
    } else if d == 4 {
        proof { reveal_strlit("4"); }
        "4"
    } else if d == 5 {
        proof { reveal_strlit("5"); }
        "5"
    } else if d == 6 {
        proof { reveal_strlit("6"); }
        "6"
    } else if d == 7 {
        proof { reveal_strlit("7"); }
        "7"
    } else if d == 8 {
        proof { reveal_strlit("8"); }
        "8"
    } else {
        proof { reveal_strlit("9"); }
        "9"
    }
}

pub(crate) fn natural_to_text(n: u64) -> (s: String)
    ensures
        s@ == decimal_text(n as nat),
    decreases n,
{
    if n < 10 {
        String::from_str(digit_str(n))
    } else {
        let mut s = natural_to_text(n / 10);
        s.append(digit_str(n % 10));
        s
    }
}

/// Renders an `i32` in decimal, as `format!("{}", n)` does.
pub fn int_to_text(n: i32) -> (s: String)
    ensures
        s@ == int_text(n as int),
{
    if n < 0 {
        let magnitude: u64 = (-(n as i64)) as u64;
        let digits = natural_to_text(magnitude);
        proof { reveal_strlit("-"); }
        String::from_str("-").concat(digits.as_str())
    } else {
        natural_to_text(n as u64)
    }
}

/// `prefix`, the decimal id, then `suffix`, as `format!("{prefix}{id}{suffix}")`.
pub fn message_with_id(prefix: &str, id: i32, suffix: &str) -> (r: String)
    ensures
        r@ == prefix@ + int_text(id as int) + suffix@,
{
    let digits = int_to_text(id);
    String::from_str(prefix).concat(digits.as_str()).concat(suffix)
}

// ---------------------------------------------------------------------------
// White space and trimming
// ---------------------------------------------------------------------------

/// Unicode `White_Space`, the property that `char::is_whitespace` tests.
pub open spec fn is_white_space(c: char) -> bool {
    let u = c as u32;
    ||| 9 <= u <= 13
    ||| u == 32
    ||| u == 0x85
    ||| u == 0xA0
    ||| u == 0x1680
    ||| 0x2000 <= u <= 0x200A
    ||| u == 0x2028
    ||| u == 0x2029
    ||| u == 0x202F
    ||| u == 0x205F
    ||| u == 0x3000
}

/// The text without its leading white space.
pub open spec fn trim_front(s: Seq<char>) -> Seq<char>
    decreases s.len(),
{
    if s.len() > 0 && is_white_space(s[0]) {
        trim_front(s.drop_first())
    } else {
        s
    }
}

/// The text without its trailing white space.
pub open spec fn trim_back(s: Seq<char>) -> Seq<char>
    decreases s.len(),
{
    if s.len() > 0 && is_white_space(s.last()) {
        trim_back(s.drop_last())
    } else {
        s
    }
}

/// The text without leading and trailing white space, as `str::trim` gives it.
pub open spec fn trimmed(s: Seq<char>) -> Seq<char> {
    trim_back(trim_front(s))
}

/// Tests a character for Unicode white space.
pub fn char_is_white_space(c: char) -> (r: bool)
    ensures
        r == is_white_space(c),
{
    let u = c as u32;
    (9 <= u && u <= 13) || u == 32 || u == 0x85 || u == 0xA0 || u == 0x1680 || (0x2000 <= u
        && u <= 0x200A) || u == 0x2028 || u == 0x2029 || u == 0x202F || u == 0x205F || u == 0x3000
}

/// `s` with leading and trailing white space removed.
pub fn trim(s: &str) -> (r: &str)
    ensures
        r@ == trimmed(s@),
{
    let len = s.unicode_len();
    let mut i: usize = 0;
    assert(s@.subrange(0, len as int) =~= s@);
    while i < len && char_is_white_space(s.get_char(i))
        invariant
            i <= len,
            len == s@.len(),
            trim_front(s@) == trim_front(s@.subrange(i as int, len as int)),
        decreases len - i,
    {
        assert(s@.subrange(i as int, len as int).drop_first() =~= s@.subrange(
            i + 1,
            len as int,
        ));
        i = i + 1;
    }
    let ghost front = s@.subrange(i as int, len as int);
    assert(trim_front(front) == front);
    let mut j: usize = len;
    assert(s@.subrange(i as int, j as int) =~= front);
    while j > i && char_is_white_space(s.get_char(j - 1))
        invariant
            i <= j <= len,
            len == s@.len(),
            trim_back(front) == trim_back(s@.subrange(i as int, j as int)),
        decreases j - i,
    {
        assert(s@.subrange(i as int, j as int).drop_last() =~= s@.subrange(
            i as int,
            j - 1,
        ));
        j = j - 1;
    }
    s.substring_char(i, j)
}

/// `Some(trimmed text)` when the trimmed text is not empty, `None` otherwise.
pub open spec fn normalized_text(v: Option<Seq<char>>) -> Option<Seq<char>> {
    match v {
        Some(t) => if trimmed(t).len() == 0 { None } else { Some(trimmed(t)) },
        None => None,
    }
}

/// Optional free text as it is stored: trimmed, and absent when blank.
pub fn normalize_optional_text(value: Option<String>) -> (r: Option<String>)
    ensures
        match r {
            Some(t) => normalized_text(option_text(value)) == Some(t@),
            None => normalized_text(option_text(value)) is None,
        },
{
    match value {
        None => None,
        Some(v) => {
            let t = trim(v.as_str());
            if t.unicode_len() == 0 {
                None
            } else {
                Some(String::from_str(t))
            }
        },
    }
}

/// The characters of an optional text.
pub open spec fn option_text(v: Option<String>) -> Option<Seq<char>> {
    match v {
        Some(t) => Some(t@),
        None => None,
    }
}

/// A requested change of an optional text field: `None` leaves the field
/// alone, `Some(v)` sets it to the normalised `v`.
pub fn normalize_optional_string_change(value: Option<Option<String>>) -> (r: Option<Option<String>>)
    ensures
        match value {
            None => r is None,
            Some(inner) => r is Some && match r->0 {
                Some(t) => normalized_text(option_text(inner)) == Some(t@),
                None => normalized_text(option_text(inner)) is None,
            },
        },
{
    match value {
        None => None,
        Some(inner) => Some(normalize_optional_text(inner)),
    }
}

/// `s` trimmed, as an owned string.
pub fn trim_to_string(s: &str) -> (r: String)
    ensures
        r@ == trimmed(s@),
{
    String::from_str(trim(s))
}

/// Tests two texts for equality.
pub fn text_equals(a: &str, b: &str) -> (r: bool)
    ensures
        r == (a@ == b@),
{
    let n = a.unicode_len();
    if n != b.unicode_len() {
        return false;
    }
    let mut i: usize = 0;
    while i < n
        invariant
            i <= n,
            n == a@.len(),
            n == b@.len(),
            forall|k: int| 0 <= k < i ==> a@[k] == b@[k],
        decreases n - i,
    {
        if a.get_char(i) != b.get_char(i) {
            return false;
        }
        i = i + 1;
    }
    assert(a@ =~= b@);
    true
}

// ---------------------------------------------------------------------------
// ASCII case-insensitive comparison
// ---------------------------------------------------------------------------

/// Code point of a character after ASCII lower-casing.
pub open spec fn ascii_lower_code(c: char) -> u32 {
    if 65 <= (c as u32) <= 90 {
        ((c as u32) + 32) as u32
    } else {
        c as u32
    }
}

/// `s.to_ascii_lowercase() == keyword`.
pub open spec fn lowercases_to(s: Seq<char>, keyword: Seq<char>) -> bool {
    &&& s.len() == keyword.len()
    &&& forall|i: int| 0 <= i < s.len() ==> ascii_lower_code(#[trigger] s[i]) == keyword[i] as u32
}

/// Tests whether the ASCII lower-casing of `s` is `keyword`.
pub fn lowercase_equals(s: &str, keyword: &str) -> (r: bool)
    ensures
        r == lowercases_to(s@, keyword@),
{
    let n = s.unicode_len();
    if n != keyword.unicode_len() {
        return false;
    }
    let mut i: usize = 0;
    while i < n
        invariant
            i <= n,
            n == s@.len(),
            n == keyword@.len(),
            forall|k: int| 0 <= k < i ==> ascii_lower_code(#[trigger] s@[k]) == keyword@[k] as u32,
        decreases n - i,
    {
        let c = s.get_char(i) as u32;
        let lowered: u32 = if 65 <= c && c <= 90 { c + 32 } else { c };
        if lowered != keyword.get_char(i) as u32 {
            return false;
        }
        i = i + 1;
    }
    true
}

} // verus!
