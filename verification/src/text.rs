//! The SID string form `S-1-<authority>-<sub-authority>...`: formatting and
//! strict parsing.

use vstd::prelude::*;
use vstd::std_specs::iter::IteratorSpec;
use vstd::string::StringExecFns;

use crate::authority::MAX_AUTHORITY;
use crate::error::{SidParseError, SidParseErrorKind};
use crate::sid::{Sid, SidBuf, SidValue, SID_MAX_SUB_AUTHORITIES};

verus! {

// ---------------------------------------------------------------------------
// Digits
/// The character of digit `d` (0 to 15), with uppercase letters above 9.
pub open spec fn digit_char(d: int) -> char {
    if d < 10 {
        (d + 48) as char
    } else {
        (d + 55) as char
    }
}

/// The value of `c` as a digit: decimal, or hexadecimal of either case when
/// `hex` holds; `None` if `c` is not such a digit.
pub open spec fn digit_value(c: char, hex: bool) -> Option<int> {
    let x = c as int;
    if 48 <= x <= 57 {
        Some(x - 48)
    } else if hex && 97 <= x <= 102 {
        Some(x - 87)
    } else if hex && 65 <= x <= 70 {
        Some(x - 55)
    } else {
        None
    }
}

/// Whether every character of `p` is a digit.
pub open spec fn all_digits(p: Seq<char>, hex: bool) -> bool {
    forall|i: int| 0 <= i < p.len() ==> (#[trigger] digit_value(p[i], hex)) is Some
}

/// The number that the digits `p` spell, most significant first.
pub open spec fn digits_value(p: Seq<char>, hex: bool) -> int
    decreases p.len(),
{
    if p.len() == 0 {
        0
    } else {
        let d = match digit_value(p.last(), hex) {
            Some(d) => d,
            None => 0,
        };
        if hex {
            digits_value(p.drop_last(), hex) * 16 + d
        } else {
            digits_value(p.drop_last(), hex) * 10 + d
        }
    }
}

/// A non-empty run of digits whose value is at most `limit`.
pub open spec fn number_field(p: Seq<char>, hex: bool, limit: int) -> Option<int> {
    if p.len() > 0 && all_digits(p, hex) && digits_value(p, hex) <= limit {
        Some(digits_value(p, hex))
    } else {
        None
    }
}

/// The decimal digits of `n`, without leading zeros.
pub open spec fn decimal(n: nat) -> Seq<char>
    decreases n,
{
    if n < 10 {
        seq![digit_char(n as int)]
    } else {
        decimal(n / 10).push(digit_char((n % 10) as int))
    }
}

/// The last `k` hexadecimal digits of `n`, uppercase.
pub open spec fn hex_digits(n: nat, k: nat) -> Seq<char>
    decreases k,
{
    if k == 0 {
        seq![]
    } else {
        hex_digits(n / 16, (k - 1) as nat).push(digit_char((n % 16) as int))
    }
}

// ---------------------------------------------------------------------------
// The SID string form
/// The authority as written in a SID string: decimal when it fits in 32 bits,
/// else `0x` and twelve uppercase hexadecimal digits.
pub open spec fn authority_text(a: int) -> Seq<char> {
    if a <= 0xFFFF_FFFF {
        decimal(a as nat)
    } else {
        seq!['0', 'x'] + hex_digits(a as nat, 12)
    }
}

/// Each sub-authority in decimal, each preceded by `-`.
pub open spec fn sub_authorities_text(s: Seq<u32>) -> Seq<char>
    decreases s.len(),
{
    if s.len() == 0 {
        seq![]
    } else {
        sub_authorities_text(s.drop_last()) + seq!['-'] + decimal(s.last() as nat)
    }
}

/// The canonical string of a SID, such as `S-1-5-32-544`.
pub open spec fn sid_text(v: SidValue) -> Seq<char> {
    seq!['S', '-', '1', '-'] + authority_text(v.authority) + sub_authorities_text(
        v.sub_authorities,
    )
}

/// The pieces of `s` between `-` separators (always at least one).
pub open spec fn split_dash(s: Seq<char>) -> Seq<Seq<char>>
    decreases s.len(),
{
    if s.len() == 0 {
        seq![seq![]]
    } else {
        let p = split_dash(s.drop_last());
        if s.last() == '-' {
            p.push(seq![])
        } else {
            p.update(p.len() - 1, p.last().push(s.last()))
        }
    }
}

/// The identifier authority field: `0x` or `0X` and hexadecimal digits, or
/// decimal digits; at most 48 bits either way.
pub open spec fn authority_field(p: Seq<char>) -> Option<int> {
    if p.len() >= 2 && p[0] == '0' && (p[1] == 'x' || p[1] == 'X') {
        number_field(p.skip(2), true, MAX_AUTHORITY as int)
    } else {
        number_field(p, false, MAX_AUTHORITY as int)
    }
}

/// A sub-authority field: decimal digits with a value of at most 32 bits.
pub open spec fn sub_authority_field(p: Seq<char>) -> Option<int> {
    number_field(p, false, u32::MAX as int)
}

/// The SID that a numeric SID string denotes, or `None` if the string is not
/// one: `S` or `s`, `1`, the authority, and zero to fifteen sub-authorities,
/// all separated by `-`.
pub open spec fn parse_sid_text(s: Seq<char>) -> Option<SidValue> {
    let parts = split_dash(s);
    if parts.len() >= 3 && (parts[0] == seq!['S'] || parts[0] == seq!['s']) && parts[1] == seq![
        '1',
    ] && authority_field(parts[2]) is Some && parts.len() - 3 <= SID_MAX_SUB_AUTHORITIES && (forall|
        i: int,
    |
        3 <= i < parts.len() ==> (#[trigger] sub_authority_field(parts[i])) is Some) {
        Some(
            SidValue {
                authority: authority_field(parts[2])->0,
                sub_authorities: Seq::new(
                    (parts.len() - 3) as nat,
                    |i: int| (sub_authority_field(parts[i + 3])->0) as u32,
                ),
            },
        )
    } else {
        None
    }
}

// ---------------------------------------------------------------------------
// Formatting
/// The one-character string of digit `d`.
fn digit_str(d: u64) -> (s: &'static str)
    requires
        d < 16,
    ensures
        s@ == seq![digit_char(d as int)],
{
    match d {
        0 => {
            proof {
                reveal_strlit("0");
            }
            "0"
        },
        1 => {
            proof {
                reveal_strlit("1");
            }
            "1"
        },
        2 => {
            proof {
                reveal_strlit("2");
            }
            "2"
        },
        3 => {
            proof {
                reveal_strlit("3");
            }
            "3"
        },
        4 => {
            proof {
                reveal_strlit("4");
            }
            "4"
        },
        5 => {
            proof {
                reveal_strlit("5");
            }
            "5"
        },
        6 => {
            proof {
                reveal_strlit("6");
            }
            "6"
        },
        7 => {
            proof {
                reveal_strlit("7");
            }
            "7"
        },
        8 => {
            proof {
                reveal_strlit("8");
            }
            "8"
        },
        9 => {
            proof {
                reveal_strlit("9");
            }
            "9"
        },
        10 => {
            proof {
                reveal_strlit("A");
            }
            "A"
        },
        11 => {
            proof {
                reveal_strlit("B");
            }
            "B"
        },
        12 => {
            proof {
                reveal_strlit("C");
            }
            "C"
        },
        13 => {
            proof {
                reveal_strlit("D");
            }
            "D"
        },
        14 => {
            proof {
                reveal_strlit("E");
            }
            "E"
        },
        _ => {
            proof {
                reveal_strlit("F");
            }
            "F"
        },
    }
}

/// Appends the decimal digits of `n`.
fn push_decimal(out: &mut String, n: u64)
    ensures
        final(out)@ == old(out)@ + decimal(n as nat),
    decreases n,
{
    if n >= 10 {
        push_decimal(out, n / 10);
    }
    out.append(digit_str(n % 10));
    assert(final(out)@ =~= old(out)@ + decimal(n as nat));
}

/// Appends the last `k` hexadecimal digits of `n`.
fn push_hex(out: &mut String, n: u64, k: u64)
    ensures
        final(out)@ == old(out)@ + hex_digits(n as nat, k as nat),
    decreases k,
{
    if k > 0 {
        push_hex(out, n / 16, k - 1);
        out.append(digit_str(n % 16));
    }
    assert(final(out)@ =~= old(out)@ + hex_digits(n as nat, k as nat));
}


impl Sid {
    /// Returns the canonical string of this SID, such as `S-1-5-32-544`.
    ///
    /// The authority is written in decimal when it fits in 32 bits and
    /// otherwise as `0x` followed by twelve uppercase hexadecimal digits.
    pub fn to_string(&self) -> (text: String)
        ensures
            text@ == sid_text(self@),
    {
        proof {
            reveal_strlit("S-1-");
            reveal_strlit("0x");
            reveal_strlit("-");
        }
        let mut out = String::from_str("S-1-");
        let a = self.authority();
        if a <= 0xFFFF_FFFF {
            push_decimal(&mut out, a);
        } else {
            out.append("0x");
            push_hex(&mut out, a, 12);
        }
        let ghost head = out@;
        assert(head =~= seq!['S', '-', '1', '-'] + authority_text(self@.authority));
        let subs = self.sub_authorities();
        let mut i: usize = 0;
        while i < subs.len()
            invariant
                subs@ == self@.sub_authorities,
                i <= subs@.len(),
                out@ == head + sub_authorities_text(subs@.take(i as int)),
            decreases subs@.len() - i,
        {
            let ghost prev = out@;
            proof {
                reveal_strlit("-");
            }
            out.append("-");
            push_decimal(&mut out, subs[i] as u64);
            assert(subs@.take(i + 1).drop_last() =~= subs@.take(i as int));
            assert(subs@.take(i + 1).last() == subs@[i as int]);
            assert(out@ =~= prev + seq!['-'] + decimal(subs@[i as int] as nat));
            assert(out@ =~= head + sub_authorities_text(subs@.take(i + 1)));
            i = i + 1;
        }
        assert(subs@.take(i as int) =~= subs@);
        out
    }

    /// Returns the canonical string of this SID in double quotes, as the
    /// debugging form shows it, such as `"S-1-5-18"`.
    pub fn debug_string(&self) -> (text: String)
        ensures
            text@ == seq!['"'] + sid_text(self@) + seq!['"'],
    {
        proof {
            reveal_strlit("\"");
        }
        let body = self.to_string();
        let out = String::from_str("\"").concat(body.as_str()).concat("\"");
        assert(out@ =~= seq!['"'] + sid_text(self@) + seq!['"']);
        out
    }
}

// ---------------------------------------------------------------------------
// Parsing
/// The characters of `s`.
fn collect_chars(s: &str) -> (v: Vec<char>)
    ensures
        v@ == s@,
{
    broadcast use vstd::string::group_string_axioms;

    let mut v: Vec<char> = Vec::new();
    for c in it: s.chars()
        invariant
            v@ == it.seq().take(it.index() as int),
    {
        v.push(c);
    }
    v
}

/// The characters of each field.
pub open spec fn fields_view(p: Seq<Vec<char>>) -> Seq<Seq<char>> {
    p.map_values(|f: Vec<char>| f@)
}

/// Splits `v` at each `-`.
fn split_fields(v: &Vec<char>) -> (parts: Vec<Vec<char>>)
    ensures
        fields_view(parts@) == split_dash(v@),
{
    let mut parts: Vec<Vec<char>> = Vec::new();
    parts.push(Vec::new());
    assert(fields_view(parts@) =~= split_dash(v@.take(0)));
    let mut i: usize = 0;
    while i < v.len()
        invariant
            i <= v@.len(),
            parts@.len() >= 1,
            fields_view(parts@) == split_dash(v@.take(i as int)),
        decreases v@.len() - i,
    {
        let c = v[i];
        let ghost before = fields_view(parts@);
        assert(v@.take(i + 1).drop_last() =~= v@.take(i as int));
        if c == '-' {
            parts.push(Vec::new());
            assert(fields_view(parts@) =~= before.push(seq![]));
        } else {
            let mut last = parts.pop().unwrap();
            last.push(c);
            parts.push(last);
            assert(fields_view(parts@) =~= before.update(
                before.len() - 1,
                before.last().push(c),
            ));
        }
        i = i + 1;
    }
    assert(v@.take(i as int) =~= v@);
    parts
}

/// The value of `c` as a digit.
fn digit_of(c: char, hex: bool) -> (d: Option<u64>)
    ensures
        d matches Some(x) ==> digit_value(c, hex) == Some(x as int) && x < 16,
        d is None ==> digit_value(c, hex) is None,
{
    let x = c as u32;
    if 48 <= x && x <= 57 {
        Some((x - 48) as u64)
    } else if hex && 97 <= x && x <= 102 {
        Some((x - 87) as u64)
    } else if hex && 65 <= x && x <= 70 {
        Some((x - 55) as u64)
    } else {
        None
    }
}

/// A run of digits is worth at least as much as any of its prefixes.
pub proof fn lemma_digits_value_prefix(p: Seq<char>, hex: bool, k: int)
    requires
        all_digits(p, hex),
        0 <= k <= p.len(),
    ensures
        0 <= digits_value(p.take(k), hex) <= digits_value(p, hex),
    decreases p.len(),
{
    if k == p.len() {
        assert(p.take(k) =~= p);
        lemma_digits_value_nonnegative(p, hex);
    } else {
        assert(all_digits(p.drop_last(), hex)) by {
            assert forall|i: int| 0 <= i < p.drop_last().len() implies (#[trigger] digit_value(
                p.drop_last()[i],
                hex,
            )) is Some by {
                assert(digit_value(p[i], hex) is Some);
            }
        }
        lemma_digits_value_prefix(p.drop_last(), hex, k);
        assert(p.drop_last().take(k) =~= p.take(k));
        lemma_digits_value_nonnegative(p.drop_last(), hex);
        assert(digit_value(p[p.len() - 1], hex) is Some);
    }
}

/// A run of digits is worth a non-negative amount.
pub proof fn lemma_digits_value_nonnegative(p: Seq<char>, hex: bool)
    ensures
        digits_value(p, hex) >= 0,
    decreases p.len(),
{
    if p.len() > 0 {
        lemma_digits_value_nonnegative(p.drop_last(), hex);
    }
}

/// Reads the run of digits that starts at `start` in `p`, if it is not
/// empty and is worth at most `limit`.
fn parse_number(p: &Vec<char>, start: usize, hex: bool, limit: u64) -> (r: Option<u64>)
    requires
        start <= p@.len(),
        limit <= MAX_AUTHORITY,
    ensures
        r matches Some(x) ==> number_field(p@.skip(start as int), hex, limit as int) == Some(
            x as int,
        ),
        r is None ==> number_field(p@.skip(start as int), hex, limit as int) is None,
{
    let ghost q = p@.skip(start as int);
    if start == p.len() {
        return None;
    }
    let mut v: u64 = 0;
    let mut i: usize = start;
    assert(q.take(0) =~= Seq::<char>::empty());
    while i < p.len()
        invariant
            start <= i <= p@.len(),
            q == p@.skip(start as int),
            limit <= MAX_AUTHORITY,
            all_digits(q.take(i - start), hex),
            v == digits_value(q.take(i - start), hex),
            v <= limit,
        decreases p@.len() - i,
    {
        let ghost k = i - start;
        assert(q.take(k + 1).drop_last() =~= q.take(k));
        assert(q[k] == p@[i as int]);
        let d = match digit_of(p[i], hex) {
            Some(d) => d,
            None => {
                assert(digit_value(q[k], hex) is None);
                assert(!all_digits(q, hex));
                return None;
            },
        };
        let nv = if hex {
            v * 16 + d
        } else {
            v * 10 + d
        };
        assert(nv == digits_value(q.take(k + 1), hex));
        assert(all_digits(q.take(k + 1), hex)) by {
            assert forall|j: int| 0 <= j < q.take(k + 1).len() implies (#[trigger] digit_value(
                q.take(k + 1)[j],
                hex,
            )) is Some by {
                if j < k {
                    assert(q.take(k + 1)[j] == q.take(k)[j]);
                }
            }
        }
        if nv > limit {
            proof {
                if all_digits(q, hex) {
                    lemma_digits_value_prefix(q, hex, k + 1);
                }
            }
            return None;
        }
        v = nv;
        i = i + 1;
    }
    assert(q.take(i - start) =~= q);
    Some(v)
}

/// Reads the identifier authority field.
fn parse_authority(p: &Vec<char>) -> (r: Option<u64>)
    ensures
        r matches Some(x) ==> authority_field(p@) == Some(x as int),
        r is None ==> authority_field(p@) is None,
{
    if p.len() >= 2 && p[0] == '0' && (p[1] == 'x' || p[1] == 'X') {
        parse_number(p, 2, true, MAX_AUTHORITY)
    } else {
        assert(p@.skip(0) =~= p@);
        parse_number(p, 0, false, MAX_AUTHORITY)
    }
}

/// Whether the field is exactly the one character `c`.
fn is_single(p: &Vec<char>, c: char) -> (r: bool)
    ensures
        r == (p@ == seq![c]),
{
    let r = p.len() == 1 && p[0] == c;
    if r {
        assert(p@ =~= seq![c]);
    }
    r
}

impl SidBuf {
    /// Parses a numeric SID string such as `S-1-5-32-544`.
    ///
    /// The format is `S-1-<authority>` followed by zero to fifteen
    /// `-<sub-authority>` components: the letter `S` (either case), the
    /// revision `1`, an identifier authority of at most 48 bits in decimal or
    /// `0x`/`0X`-prefixed hexadecimal, and decimal sub-authorities of at most
    /// 32 bits. Signs, whitespace, empty components, and non-ASCII digits are
    /// rejected.
    pub fn parse(s: &str) -> (r: Result<SidBuf, SidParseError>)
        ensures
            parse_sid_text(s@) matches Some(v) ==> (r matches Ok(sid) && sid@ == v),
            parse_sid_text(s@) is None ==> (r matches Err(e) && e.kind()
                == SidParseErrorKind::Invalid),
    {
        let chars = collect_chars(s);
        let parts = split_fields(&chars);
        let ghost fields = fields_view(parts@);
        assert(fields == split_dash(s@));
        if parts.len() < 3 {
            return Err(SidParseError::invalid());
        }
        assert(fields[0] == parts@[0]@);
        assert(fields[1] == parts@[1]@);
        assert(fields[2] == parts@[2]@);
        if !(is_single(&parts[0], 'S') || is_single(&parts[0], 's')) {
            return Err(SidParseError::invalid());
        }
        if !is_single(&parts[1], '1') {
            return Err(SidParseError::invalid());
        }
        let authority = match parse_authority(&parts[2]) {
            Some(a) => a,
            None => {
                return Err(SidParseError::invalid());
            },
        };
        if parts.len() - 3 > SID_MAX_SUB_AUTHORITIES as usize {
            return Err(SidParseError::invalid());
        }
        let mut subs: Vec<u32> = Vec::new();
        let mut i: usize = 3;
        while i < parts.len()
            invariant
                3 <= i <= parts@.len(),
                fields == fields_view(parts@),
                fields == split_dash(s@),
                subs@.len() == i - 3,
                forall|j: int| 3 <= j < i ==> (#[trigger] sub_authority_field(fields[j])) is Some,
                forall|j: int|
                    0 <= j < subs@.len() ==> subs@[j] == (sub_authority_field(fields[j + 3])->0) as u32,
            decreases parts@.len() - i,
        {
            assert(fields[i as int] == parts@[i as int]@);
            assert(parts@[i as int]@.skip(0) =~= parts@[i as int]@);
            match parse_number(&parts[i], 0, false, 0xFFFF_FFFF) {
                Some(x) => {
                    subs.push(x as u32);
                },
                None => {
                    assert(sub_authority_field(fields[i as int]) is None);
                    return Err(SidParseError::invalid());
                },
            }
            i = i + 1;
        }
        let ghost expected = parse_sid_text(s@);
        assert(expected is Some);
        assert(subs@ =~= expected->0.sub_authorities);
        match SidBuf::new(authority, subs.as_slice()) {
            Ok(sid) => Ok(sid),
            Err(_) => Err(SidParseError::invalid()),
        }
    }
}

// ---------------------------------------------------------------------------
// The string form read back
/// Sixteen to the power `k`.
pub open spec fn pow16(k: nat) -> nat
    decreases k,
{
    if k == 0 {
        1
    } else {
        16 * pow16((k - 1) as nat)
    }
}

/// Splitting at a `-` splits the two sides separately.
pub proof fn lemma_split_dash_concat(x: Seq<char>, y: Seq<char>)
    ensures
        split_dash(x + seq!['-'] + y) == split_dash(x) + split_dash(y),
    decreases y.len(),
{
    let xy = x + seq!['-'] + y;
    if y.len() == 0 {
        assert(xy.drop_last() =~= x);
        assert(split_dash(x).push(seq![]) =~= split_dash(x) + split_dash(y));
    } else {
        let y0 = y.drop_last();
        lemma_split_dash_concat(x, y0);
        assert(xy.drop_last() =~= x + seq!['-'] + y0);
        lemma_split_dash_nonempty(y0);
        if y.last() == '-' {
            assert(split_dash(xy) =~= split_dash(x) + split_dash(y));
        } else {
            assert(split_dash(xy) =~= split_dash(x) + split_dash(y));
        }
    }
}

/// Splitting always gives at least one piece.
pub proof fn lemma_split_dash_nonempty(y: Seq<char>)
    ensures
        split_dash(y).len() >= 1,
    decreases y.len(),
{
    if y.len() > 0 {
        lemma_split_dash_nonempty(y.drop_last());
    }
}

/// A string without `-` is a single piece.
pub proof fn lemma_split_dash_single(y: Seq<char>)
    requires
        forall|i: int| 0 <= i < y.len() ==> y[i] != '-',
    ensures
        split_dash(y) == seq![y],
    decreases y.len(),
{
    if y.len() > 0 {
        lemma_split_dash_single(y.drop_last());
        assert(y.drop_last().push(y.last()) =~= y);
        assert(split_dash(y) =~= seq![y]);
    } else {
        assert(y =~= seq![]);
    }
}

/// Digits below the base are read back as themselves.
pub proof fn lemma_digit_char(d: int, hex: bool)
    requires
        0 <= d < (if hex { 16int } else { 10int }),
    ensures
        digit_value(digit_char(d), hex) == Some(d),
        digit_char(d) != '-',
{
}

/// The decimal digits of `n` are digits and spell `n`.
pub proof fn lemma_decimal(n: nat)
    ensures
        decimal(n).len() >= 1,
        all_digits(decimal(n), false),
        digits_value(decimal(n), false) == n,
    decreases n,
{
    let p = decimal(n);
    if n < 10 {
        lemma_digit_char(n as int, false);
        assert(p.drop_last() =~= Seq::<char>::empty());
        assert(digits_value(p.drop_last(), false) == 0);
    } else {
        lemma_decimal(n / 10);
        lemma_digit_char((n % 10) as int, false);
        assert(p.drop_last() =~= decimal(n / 10));
        assert(p.last() == digit_char((n % 10) as int));
        assert(n == (n / 10) * 10 + n % 10);
        assert forall|i: int| 0 <= i < p.len() implies (#[trigger] digit_value(p[i], false)) is Some by {
            if i < p.len() - 1 {
                assert(p[i] == decimal(n / 10)[i]);
            }
        }
    }
}

/// The last `k` hexadecimal digits of a number below `16^k` are digits and
/// spell that number.
pub proof fn lemma_hex_digits(n: nat, k: nat)
    requires
        n < pow16(k),
    ensures
        hex_digits(n, k).len() == k,
        all_digits(hex_digits(n, k), true),
        digits_value(hex_digits(n, k), true) == n,
    decreases k,
{
    if k > 0 {
        let p = pow16((k - 1) as nat);
        assert(n / 16 < p) by (nonlinear_arith)
            requires
                n < 16 * p,
        ;
        lemma_hex_digits(n / 16, (k - 1) as nat);
        lemma_digit_char((n % 16) as int, true);
        let h = hex_digits(n, k);
        assert(h.drop_last() =~= hex_digits(n / 16, (k - 1) as nat));
        assert forall|i: int| 0 <= i < h.len() implies (#[trigger] digit_value(h[i], true)) is Some by {
            if i < h.len() - 1 {
                assert(h[i] == hex_digits(n / 16, (k - 1) as nat)[i]);
            }
        }
    }
}

/// A run of digits has no `-`.
pub proof fn lemma_digits_have_no_dash(p: Seq<char>, hex: bool)
    requires
        all_digits(p, hex),
    ensures
        forall|i: int| 0 <= i < p.len() ==> p[i] != '-',
{
    assert forall|i: int| 0 <= i < p.len() implies p[i] != '-' by {
        assert(digit_value(p[i], hex) is Some);
    }
}

/// The authority as written is read back as itself.
pub proof fn lemma_authority_text(a: int)
    requires
        0 <= a <= MAX_AUTHORITY,
    ensures
        authority_field(authority_text(a)) == Some(a),
        forall|i: int| 0 <= i < authority_text(a).len() ==> authority_text(a)[i] != '-',
{
    let t = authority_text(a);
    if a <= 0xFFFF_FFFF {
        lemma_decimal(a as nat);
        lemma_digits_have_no_dash(t, false);
        if t.len() >= 2 {
            assert(digit_value(t[1], false) is Some);
        }
    } else {
        assert(pow16(12) == 0x1_0000_0000_0000) by {
            reveal_with_fuel(pow16, 13);
        }
        lemma_hex_digits(a as nat, 12);
        let h = hex_digits(a as nat, 12);
        assert(t.skip(2) =~= h);
        lemma_digits_have_no_dash(h, true);
        assert forall|i: int| 0 <= i < t.len() implies t[i] != '-' by {
            if i >= 2 {
                assert(t[i] == h[i - 2]);
            }
        }
    }
}

/// How a SID string splits: `S`, `1`, the authority, and one piece per
/// sub-authority.
pub proof fn lemma_split_sid_text(a: Seq<char>, s: Seq<u32>)
    requires
        forall|i: int| 0 <= i < a.len() ==> a[i] != '-',
    ensures
        split_dash(seq!['S', '-', '1', '-'] + a + sub_authorities_text(s)) == seq![
            seq!['S'],
            seq!['1'],
            a,
        ] + Seq::new(s.len(), |i: int| decimal(s[i] as nat)),
    decreases s.len(),
{
    let head = seq!['S', '-', '1', '-'] + a;
    if s.len() == 0 {
        assert(head + sub_authorities_text(s) =~= seq!['S'] + seq!['-'] + (seq!['1'] + seq!['-']
            + a));
        lemma_split_dash_concat(seq!['S'], seq!['1'] + seq!['-'] + a);
        lemma_split_dash_concat(seq!['1'], a);
        lemma_split_dash_single(seq!['S']);
        lemma_split_dash_single(seq!['1']);
        lemma_split_dash_single(a);
        assert(split_dash(head + sub_authorities_text(s)) =~= seq![seq!['S'], seq!['1'], a]
            + Seq::new(s.len(), |i: int| decimal(s[i] as nat)));
    } else {
        let s0 = s.drop_last();
        lemma_split_sid_text(a, s0);
        let d = decimal(s.last() as nat);
        lemma_decimal(s.last() as nat);
        lemma_digits_have_no_dash(d, false);
        lemma_split_dash_single(d);
        assert(head + sub_authorities_text(s) =~= (head + sub_authorities_text(s0)) + seq!['-']
            + d);
        lemma_split_dash_concat(head + sub_authorities_text(s0), d);
        assert(split_dash(head + sub_authorities_text(s)) =~= seq![seq!['S'], seq!['1'], a]
            + Seq::new(s.len(), |i: int| decimal(s[i] as nat)));
    }
}

/// Every SID string that `to_string` produces parses back to the same SID:
/// `parse` is a left inverse of `to_string`.
pub proof fn lemma_parse_sid_text(v: SidValue)
    requires
        v.valid(),
    ensures
        parse_sid_text(sid_text(v)) == Some(v),
{
    let s = v.sub_authorities;
    lemma_authority_text(v.authority);
    let a = authority_text(v.authority);
    lemma_split_sid_text(a, s);
    let parts = split_dash(sid_text(v));
    assert(parts.len() == 3 + s.len());
    assert(parts[0] == seq!['S']);
    assert(parts[1] == seq!['1']);
    assert(parts[2] == a);
    assert forall|i: int| 3 <= i < parts.len() implies (#[trigger] sub_authority_field(
        parts[i],
    )) is Some && sub_authority_field(parts[i])->0 == s[i - 3] by {
        assert(parts[i] == decimal(s[i - 3] as nat));
        lemma_decimal(s[i - 3] as nat);
    }
    let w = Seq::new((parts.len() - 3) as nat, |i: int| (sub_authority_field(parts[i + 3])->0) as u32);
    assert(w =~= s);
}

/// Checks a string before it is handed to Windows as a C string: it must not
/// hold an interior NUL character.
pub fn check_string_sid(s: &str) -> (r: Result<(), SidParseError>)
    ensures
        s@.contains('\0') ==> (r matches Err(e) && e.kind() == SidParseErrorKind::InteriorNul),
        !s@.contains('\0') ==> r is Ok,
{
    let chars = collect_chars(s);
    let mut i: usize = 0;
    while i < chars.len()
        invariant
            chars@ == s@,
            i <= chars@.len(),
            forall|j: int| 0 <= j < i ==> chars@[j] != '\0',
        decreases chars@.len() - i,
    {
        if chars[i] == '\0' {
            assert(s@[i as int] == '\0');
            return Err(SidParseError::interior_nul());
        }
        i = i + 1;
    }
    Ok(())
}

impl std::str::FromStr for SidBuf {
    type Err = SidParseError;

    fn from_str(s: &str) -> (r: Result<SidBuf, SidParseError>)
        ensures
            parse_sid_text(s@) matches Some(v) ==> (r matches Ok(sid) && sid@ == v),
            parse_sid_text(s@) is None ==> (r matches Err(e) && e.kind()
                == SidParseErrorKind::Invalid),
    {
        SidBuf::parse(s)
    }
}

} // verus!
