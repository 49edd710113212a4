//! Text helpers: searching, numbers in decimal, and joining lines.

use vstd::prelude::*;
use vstd::string::StrSliceExecFns;
use vstd::string::StringExecFns;

verus! {

/// The text of an optional string.
pub open spec fn opt_text(s: Option<String>) -> Option<Seq<char>> {
    match s {
        Some(t) => Some(t@),
        None => None,
    }
}

/// Copies an optional string.
pub(crate) fn clone_opt(s: &Option<String>) -> (r: Option<String>)
    ensures
        opt_text(r) == opt_text(*s),
{
    match s {
        Some(t) => Some(t.clone()),
        None => None,
    }
}

/// Position of the first `c` in `s`, counted in characters.
pub(crate) fn find_char(s: &str, c: char) -> (r: Option<usize>)
    ensures
        match r {
            Some(i) => s@.index_of_first(c) == Some(i as int) && i < s@.len(),
            None => s@.index_of_first(c) is None,
        },
{
    proof {
        s@.index_of_first_ensures(c);
    }
    let len: usize = s.unicode_len();
    let mut i: usize = 0;
    while i < len
        invariant
            len == s@.len(),
            i <= len,
            forall|j: int| 0 <= j < i ==> s@[j] != c,
        decreases len - i,
    {
        if s.get_char(i) == c {
            proof {
                assert(s@[i as int] == c);
                s@.index_of_first_ensures(c);
            }
            return Some(i);
        }
        i += 1;
    }
    None
}

/// Position of the last `c` in `s`, counted in characters.
pub(crate) fn rfind_char(s: &str, c: char) -> (r: Option<usize>)
    ensures
        match r {
            Some(i) => s@.index_of_last(c) == Some(i as int) && i < s@.len(),
            None => s@.index_of_last(c) is None,
        },
{
    proof {
        s@.index_of_last_ensures(c);
    }
    let len: usize = s.unicode_len();
    let mut i: usize = len;
    while i > 0
        invariant
            len == s@.len(),
            i <= len,
            forall|j: int| i <= j < len ==> s@[j] != c,
        decreases i,
    {
        i -= 1;
        if s.get_char(i) == c {
            proof {
                assert(s@[i as int] == c);
                s@.index_of_last_ensures(c);
            }
            return Some(i);
        }
    }
    None
}

/// Whether `c` occurs in `s`.
pub(crate) fn contains_char(s: &str, c: char) -> (r: bool)
    ensures
        r == s@.contains(c),
{
    proof {
        s@.index_of_first_ensures(c);
    }
    find_char(s, c).is_some()
}

/// Whether two texts are the same.
pub(crate) fn same_text(a: &str, b: &str) -> (r: bool)
    ensures
        r == (a@ == b@),
{
    a.to_owned() == b.to_owned()
}

/// The lines of `lines`, with `sep` between each two of them.
pub open spec fn joined(lines: Seq<Seq<char>>, sep: Seq<char>) -> Seq<char>
    decreases lines.len(),
{
    if lines.len() == 0 {
        seq![]
    } else if lines.len() == 1 {
        lines[0]
    } else {
        joined(lines.drop_last(), sep) + sep + lines.last()
    }
}

/// The texts of a list of strings.
pub open spec fn texts(v: Seq<String>) -> Seq<Seq<char>> {
    v.map_values(|s: String| s@)
}

/// Joins `lines` with `sep` between each two of them.
pub(crate) fn join(lines: &Vec<String>, sep: &str) -> (r: String)
    ensures
        r@ == joined(texts(lines@), sep@),
{
    let mut r = String::new();
    let mut i: usize = 0;
    while i < lines.len()
        invariant
            i <= lines.len(),
            r@ == joined(texts(lines@).take(i as int), sep@),
        decreases lines.len() - i,
    {
        if i > 0 {
            r.append(sep);
        }
        r.append(lines[i].as_str());
        proof {
            let all = texts(lines@);
            assert(all.take(i + 1).drop_last() == all.take(i as int));
            assert(all.take(i + 1).last() == lines@[i as int]@);
        }
        i += 1;
    }
    proof {
        assert(texts(lines@).take(lines@.len() as int) == texts(lines@));
    }
    r
}

/// An ASCII decimal digit.
pub open spec fn is_digit(c: char) -> bool {
    '0' <= c <= '9'
}

/// The digit that stands for `d`.
pub open spec fn digit_char(d: nat) -> char {
    (('0' as u32) + d) as char
}

/// Whether every character of `s` is an ASCII decimal digit.
pub open spec fn all_digits(s: Seq<char>) -> bool {
    forall|i: int| 0 <= i < s.len() ==> is_digit(#[trigger] s[i])
}

/// The number that a run of digits stands for.
pub open spec fn digits_value(s: Seq<char>) -> nat
    decreases s.len(),
{
    if s.len() == 0 {
        0
    } else {
        digits_value(s.drop_last()) * 10 + (s.last() as u32 - '0' as u32) as nat
    }
}

/// The number written in `s`: one or more digits after an optional plus sign.
pub open spec fn unsigned_value(s: Seq<char>) -> Option<nat> {
    let digits = if s.len() > 0 && s[0] == '+' {
        s.skip(1)
    } else {
        s
    };
    if digits.len() > 0 && all_digits(digits) {
        Some(digits_value(digits))
    } else {
        None
    }
}

/// The decimal digits of `n`, without leading zeros.
pub open spec fn decimal(n: nat) -> Seq<char>
    decreases n,
{
    if n < 10 {
        seq![digit_char(n)]
    } else {
        decimal(n / 10).push(digit_char(n % 10))
    }
}

/// Spelling of one digit.
fn digit_text(d: u16) -> (r: &'static str)
    requires
        d < 10,
    ensures
        r@ == seq![digit_char(d as nat)],
{
    proof {
        reveal_strlit("0");
        reveal_strlit("1");
        reveal_strlit("2");
        reveal_strlit("3");
        reveal_strlit("4");
        reveal_strlit("5");
        reveal_strlit("6");
        reveal_strlit("7");
        reveal_strlit("8");
        reveal_strlit("9");
    }
    match d {
        0 => "0",
        1 => "1",
        2 => "2",
        3 => "3",
        4 => "4",
        5 => "5",
        6 => "6",
        7 => "7",
        8 => "8",
        _ => "9",
    }
}

/// Writes `n` in decimal.
pub(crate) fn decimal_text(n: u16) -> (r: String)
    ensures
        r@ == decimal(n as nat),
    decreases n,
{
    if n < 10 {
        digit_text(n).to_owned()
    } else {
        decimal_text(n / 10).concat(digit_text(n % 10))
    }
}

/// Reading back the decimal digits of a number gives the number.
pub proof fn law_decimal_reads_back(n: nat)
    ensures
        decimal(n).len() > 0,
        all_digits(decimal(n)),
        digits_value(decimal(n)) == n,
        unsigned_value(decimal(n)) == Some(n),
    decreases n,
{
    if n < 10 {
        let s = seq![digit_char(n)];
        assert(s.drop_last() == Seq::<char>::empty());
        assert(digits_value(s.drop_last()) == 0);
        assert(digits_value(s) == n);
    } else {
        law_decimal_reads_back(n / 10);
        let s = decimal(n);
        assert(s.drop_last() == decimal(n / 10));
        assert(is_digit(s.last()));
        assert forall|i: int| 0 <= i < s.len() implies is_digit(#[trigger] s[i]) by {
            if i < s.len() - 1 {
                assert(s[i] == decimal(n / 10)[i]);
            }
        }
    }
    assert(is_digit(decimal(n)[0]));
}

/// What `str::parse::<u16>` says of a text that it rejects.
pub uninterp spec fn u16_fault(s: Seq<char>) -> Seq<char>;

/// Calls `str::parse::<u16>`. It accepts one or more digits after an optional
/// plus sign whose value fits in a `u16`, and returns that value; on any other
/// text the result is the message of its error, named by `u16_fault`.
#[verifier::external_body]
pub(crate) fn parse_u16(s: &str) -> (r: Result<u16, String>)
    ensures
        match r {
            Ok(v) => unsigned_value(s@) == Some(v as nat),
            Err(e) => (unsigned_value(s@) matches Some(v) ==> v > u16::MAX) && e@ == u16_fault(s@),
        },
{
    s.parse::<u16>().map_err(|e| e.to_string())
}

/// What `str::parse::<u64>` says of a text that it rejects.
pub uninterp spec fn u64_fault(s: Seq<char>) -> Seq<char>;

/// Calls `str::parse::<u64>`. It accepts one or more digits after an optional
/// plus sign whose value fits in a `u64`, and returns that value; on any other
/// text the result is the message of its error, named by `u64_fault`.
#[verifier::external_body]
pub(crate) fn parse_u64(s: &str) -> (r: Result<u64, String>)
    ensures
        match r {
            Ok(v) => unsigned_value(s@) == Some(v as nat),
            Err(e) => (unsigned_value(s@) matches Some(v) ==> v > u64::MAX) && e@ == u64_fault(s@),
        },
{
    s.parse::<u64>().map_err(|e| e.to_string())
}

/// The text that `Debug` writes for a string: quoted and escaped.
pub uninterp spec fn quoted(s: Seq<char>) -> Seq<char>;

/// Calls `Debug` for `str` through `format!`: the text in double quotes, with
/// special characters escaped. The result is named by `quoted`.
#[verifier::external_body]
pub(crate) fn quote(s: &str) -> (r: String)
    ensures
        r@ == quoted(s@),
{
    format!("{:?}", s)
}

/// Each text of a list is that of the string in its place.
pub proof fn law_texts_keep_their_places(v: Seq<String>)
    ensures
        texts(v).len() == v.len(),
        forall|i: int| 0 <= i < v.len() ==> #[trigger] texts(v)[i] == v[i]@,
{
}

/// An optional string has a text exactly when it is there, even an empty one.
pub proof fn law_optional_text(s: Option<String>)
    ensures
        opt_text(s) is Some <==> s is Some,
        s matches Some(t) ==> opt_text(s) == Some(t@),
{
}

/// Joining puts the separator between neighbours and nowhere else: a list cut in
/// two joins into its joined parts with one separator between them.
pub proof fn law_joined_in_parts(a: Seq<Seq<char>>, b: Seq<Seq<char>>, sep: Seq<char>)
    ensures
        joined(Seq::empty(), sep) == Seq::<char>::empty(),
        a.len() == 1 ==> joined(a, sep) == a[0],
        a.len() > 0 && b.len() > 0 ==> joined(a + b, sep) == joined(a, sep) + sep + joined(b, sep),
    decreases b.len(),
{
    if a.len() > 0 && b.len() > 0 {
        let front = b.drop_last();
        assert((a + b).drop_last() == a + front);
        assert((a + b).last() == b.last());
        if b.len() == 1 {
            assert(a + front == a);
        } else {
            law_joined_in_parts(a, front, sep);
            assert(joined(a + b, sep) == joined(a, sep) + sep + (joined(front, sep) + sep
                + b.last()));
        }
    }
}

/// The digits are the ten ASCII digits.
pub proof fn law_digits(c: char, s: Seq<char>)
    ensures
        is_digit(c) <==> "0123456789"@.contains(c),
        all_digits(s) <==> (forall|i: int|
            0 <= i < s.len() ==> "0123456789"@.contains(#[trigger] s[i])),
{
    lemma_digit(c);
    assert forall|i: int| 0 <= i < s.len() implies (is_digit(#[trigger] s[i])
        <==> "0123456789"@.contains(s[i])) by {
        lemma_digit(s[i]);
    }
}

proof fn lemma_digit(c: char)
    ensures
        is_digit(c) <==> "0123456789"@.contains(c),
        forall|d: int|
            0 <= d < 10 && #[trigger] "0123456789"@[d] == c ==> d == c as u32 - '0' as u32,
{
    reveal_strlit("0123456789");
    let all = "0123456789"@;
    assert(all[0] == '0' && all[1] == '1' && all[2] == '2' && all[3] == '3' && all[4] == '4');
    assert(all[5] == '5' && all[6] == '6' && all[7] == '7' && all[8] == '8' && all[9] == '9');
}

/// Writing a digit behind a number makes it ten times as much and adds the digit.
pub proof fn law_digits_value(s: Seq<char>, d: int)
    requires
        0 <= d < 10,
    ensures
        digits_value(Seq::empty()) == 0,
        digits_value(s.push("0123456789"@[d])) == 10 * digits_value(s) + d,
{
    reveal_strlit("0123456789");
    lemma_digit("0123456789"@[d]);
    assert(s.push("0123456789"@[d]).drop_last() == s);
}

/// A number is written without leading zeros, and zero as one digit.
pub proof fn law_decimal_is_shortest(n: nat)
    ensures
        decimal(0) == "0"@,
        n > 0 ==> decimal(n)[0] != '0',
    decreases n,
{
    reveal_strlit("0");
    if n >= 10 {
        law_decimal_is_shortest(n / 10);
        law_decimal_reads_back(n / 10);
    }
}

/// A number is one or more digits, with or without a plus sign before them, and
/// no other text is one.
pub proof fn law_unsigned_value(s: Seq<char>)
    ensures
        s.len() > 0 && (forall|i: int| 0 <= i < s.len() ==> is_digit(#[trigger] s[i]))
            ==> unsigned_value(s) == Some(digits_value(s)) && unsigned_value("+"@ + s) == Some(
            digits_value(s),
        ),
        unsigned_value(s) is Some ==> s.len() > 0 && (is_digit(s[0]) || (s[0] == '+' && s.len()
            > 1)) && (forall|i: int| 1 <= i < s.len() ==> is_digit(#[trigger] s[i])),
{
    reveal_strlit("+");
    assert(("+"@ + s).skip(1) == s);
    if s.len() > 0 && s[0] == '+' {
        assert forall|i: int| 1 <= i < s.len() && unsigned_value(s) is Some implies is_digit(
            #[trigger] s[i],
        ) by {
            assert(s[i] == s.skip(1)[i - 1]);
        }
    }
}

} // verus!
