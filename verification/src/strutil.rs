//! Verified string helpers: decimal rendering, parsing and comparison.
//!
//! The engine emits filter graphs and command arguments as text, and reads
//! numbers out of probe reports; these helpers give both directions exact
//! character-level contracts.

use vstd::prelude::*;

verus! {

/// The decimal digit character for a value in 0..=9.
pub open spec fn dec_digit(d: int) -> char {
    if d == 0 {
        '0'
    } else if d == 1 {
        '1'
    } else if d == 2 {
        '2'
    } else if d == 3 {
        '3'
    } else if d == 4 {
        '4'
    } else if d == 5 {
        '5'
    } else if d == 6 {
        '6'
    } else if d == 7 {
        '7'
    } else if d == 8 {
        '8'
    } else {
        '9'
    }
}

/// The decimal representation of a natural number, most significant digit
/// first, without leading zeros (zero itself is "0").
pub open spec fn dec_str(n: nat) -> Seq<char>
    decreases n,
{
    if n < 10 {
        seq![dec_digit(n as int)]
    } else {
        dec_str(n / 10) + seq![dec_digit((n % 10) as int)]
    }
}

/// The decimal representation of an integer: a minus sign for negative
/// values, then the digits of the magnitude.
pub open spec fn int_str(i: int) -> Seq<char> {
    if i < 0 {
        seq!['-'] + dec_str((-i) as nat)
    } else {
        dec_str(i as nat)
    }
}

/// Whether `c` is an ASCII decimal digit.
pub open spec fn is_dec_digit(c: char) -> bool {
    48 <= c as int <= 57
}

/// The numeric value of a digit character.
pub open spec fn digit_val(c: char) -> int {
    c as int - 48
}

/// Whether every character of `s` is an ASCII decimal digit.
pub open spec fn all_digits(s: Seq<char>) -> bool {
    forall|i: int| 0 <= i < s.len() ==> is_dec_digit(#[trigger] s[i])
}

/// The numeric value of a digit string, most significant digit first.
pub open spec fn dec_val(s: Seq<char>) -> int
    decreases s.len(),
{
    if s.len() == 0 {
        0
    } else {
        dec_val(s.drop_last()) * 10 + digit_val(s.last())
    }
}

/// The character views of a sequence of strings.
pub open spec fn string_views(ss: Seq<String>) -> Seq<Seq<char>> {
    ss.map_values(|s: String| s@)
}

/// The given sequences joined with a separator between consecutive elements.
pub open spec fn join_view(parts: Seq<Seq<char>>, sep: Seq<char>) -> Seq<char>
    decreases parts.len(),
{
    if parts.len() == 0 {
        Seq::<char>::empty()
    } else if parts.len() == 1 {
        parts[0]
    } else {
        parts[0] + sep + join_view(parts.drop_first(), sep)
    }
}

/// A value in thousandths rendered as a decimal: the integer part, then up
/// to three fraction digits with trailing zeros removed.
pub open spec fn milli_dec_view(v: nat) -> Seq<char> {
    let q = v / 1000;
    let r = v % 1000;
    if r == 0 {
        dec_str(q)
    } else if r % 100 == 0 {
        dec_str(q) + seq!['.', dec_digit((r / 100) as int)]
    } else if r % 10 == 0 {
        dec_str(q) + seq!['.', dec_digit((r / 100) as int), dec_digit(((r / 10) % 10) as int)]
    } else {
        dec_str(q) + seq!['.', dec_digit((r / 100) as int), dec_digit(((r / 10) % 10) as int), dec_digit((r % 10) as int)]
    }
}

/// Relies on String::push: appends exactly the given character.
#[verifier::external_body]
pub fn push_char(s: &mut String, c: char)
    ensures
        final(s)@ == old(s)@.push(c),
{
    s.push(c);
}

/// The digit character for a value in 0..=9, as executable code.
pub fn digit_char(d: u8) -> (c: char)
    requires
        d < 10,
    ensures
        c == dec_digit(d as int),
{
    match d {
        0u8 => '0',
        1u8 => '1',
        2u8 => '2',
        3u8 => '3',
        4u8 => '4',
        5u8 => '5',
        6u8 => '6',
        7u8 => '7',
        8u8 => '8',
        _ => '9',
    }
}

/// Render a u64 in decimal.
pub fn u64_to_string(n: u64) -> (s: String)
    ensures
        s@ == dec_str(n as nat),
    decreases n,
{
    if n < 10 {
        let mut s = String::new();
        push_char(&mut s, digit_char(n as u8));
        assert(s@ =~= dec_str(n as nat));
        s
    } else {
        let mut s = u64_to_string(n / 10);
        push_char(&mut s, digit_char((n % 10) as u8));
        assert(s@ =~= dec_str(n as nat));
        s
    }
}

/// Render an i64 in decimal, with a minus sign for negative values.
pub fn i64_to_string(n: i64) -> (s: String)
    ensures
        s@ == int_str(n as int),
{
    if n >= 0 {
        u64_to_string(n as u64)
    } else {
        let mag: u64 = (-(n as i128)) as u64;
        let mut s = String::new();
        push_char(&mut s, '-');
        let digits = u64_to_string(mag);
        s.append(digits.as_str());
        assert(s@ =~= int_str(n as int));
        s
    }
}

/// Render a u32 in decimal.
pub fn u32_to_string(n: u32) -> (s: String)
    ensures
        s@ == dec_str(n as nat),
{
    u64_to_string(n as u64)
}

/// Render an i32 in decimal, with a minus sign for negative values.
pub fn i32_to_string(n: i32) -> (s: String)
    ensures
        s@ == int_str(n as int),
{
    i64_to_string(n as i64)
}

/// Character-exact equality of two string slices.
pub fn str_eq(a: &str, b: &str) -> (r: bool)
    ensures
        r == (a@ == b@),
{
    let n = a.unicode_len();
    if n != b.unicode_len() {
        assert(a@ != b@) by {
            assert(a@.len() != b@.len());
        }
        return false;
    }
    let mut i: usize = 0;
    while i < n
        invariant
            n == a@.len(),
            n == b@.len(),
            0 <= i <= n,
            forall|j: int| 0 <= j < i ==> a@[j] == b@[j],
        decreases n - i,
    {
        if a.get_char(i) != b.get_char(i) {
            assert(a@ != b@) by {
                assert(a@[i as int] != b@[i as int]);
            }
            return false;
        }
        i = i + 1;
    }
    assert(a@ =~= b@);
    true
}

/// Every prefix of a digit string has a value no greater than the whole.
pub proof fn lemma_dec_val_bounds(s: Seq<char>)
    requires
        all_digits(s),
    ensures
        0 <= dec_val(s),
    decreases s.len(),
{
    if s.len() > 0 {
        assert(is_dec_digit(s[s.len() - 1]));
        assert(all_digits(s.drop_last()));
        lemma_dec_val_bounds(s.drop_last());
    }
}

/// Dropping trailing digits cannot increase the value of a digit string.
pub proof fn lemma_dec_val_prefix(s: Seq<char>, k: int)
    requires
        all_digits(s),
        0 <= k <= s.len(),
    ensures
        dec_val(s.subrange(0, k)) <= dec_val(s),
    decreases s.len() - k,
{
    if k == s.len() {
        assert(s.subrange(0, k) =~= s);
    } else {
        lemma_dec_val_prefix(s, k + 1);
        let t = s.subrange(0, k + 1);
        assert(t.drop_last() =~= s.subrange(0, k));
        assert(all_digits(t.drop_last()));
        lemma_dec_val_bounds(t.drop_last());
        assert(is_dec_digit(s[k]));
        assert(dec_val(t) == dec_val(s.subrange(0, k)) * 10 + digit_val(s[k]));
        assert(dec_val(s.subrange(0, k)) <= dec_val(s.subrange(0, k)) * 10);
    }
}

/// The u32 a digit string denotes, when it is one.
pub open spec fn parsed_u32(s: Seq<char>) -> Option<u32> {
    if s.len() > 0 && all_digits(s) && dec_val(s) <= u32::MAX {
        Some(dec_val(s) as u32)
    } else {
        None
    }
}

/// Parse a string of decimal digits into a u32.
///
/// Returns `Some` exactly when the string is nonempty, holds only digits,
/// and its value fits in a u32.
pub fn parse_u32(s: &str) -> (r: Option<u32>)
    ensures
        r == parsed_u32(s@),
        r is Some <==> (s@.len() > 0 && all_digits(s@) && dec_val(s@) <= u32::MAX),
        r matches Some(v) ==> v as int == dec_val(s@),
{
    let n = s.unicode_len();
    if n == 0 {
        return None;
    }
    let mut acc: u64 = 0;
    let mut i: usize = 0;
    while i < n
        invariant
            n == s@.len(),
            0 <= i <= n,
            all_digits(s@.subrange(0, i as int)),
            acc as int == dec_val(s@.subrange(0, i as int)),
            acc <= u32::MAX,
        decreases n - i,
    {
        let c = s.get_char(i);
        let cv = c as u32;
        if cv < 48 || cv > 57 {
            assert(!all_digits(s@)) by {
                assert(!is_dec_digit(s@[i as int]));
            }
            return None;
        }
        let d: u64 = (cv - 48) as u64;
        let acc2: u64 = acc * 10 + d;
        assert(s@.subrange(0, i + 1).drop_last() =~= s@.subrange(0, i as int));
        assert(s@.subrange(0, i + 1).last() == s@[i as int]);
        assert(acc2 as int == dec_val(s@.subrange(0, i + 1)));
        if acc2 > 0xffff_ffff {
            assert(dec_val(s@) > u32::MAX || !all_digits(s@)) by {
                if all_digits(s@) {
                    lemma_dec_val_prefix(s@, i + 1);
                }
            }
            return None;
        }
        acc = acc2;
        i = i + 1;
    }
    assert(s@.subrange(0, n as int) =~= s@);
    Some(acc as u32)
}

/// Appending one more element extends a join by a separator and the element.
pub proof fn lemma_join_push(parts: Seq<Seq<char>>, x: Seq<char>, sep: Seq<char>)
    ensures
        join_view(parts.push(x), sep) == if parts.len() == 0 {
            x
        } else {
            join_view(parts, sep) + sep + x
        },
    decreases parts.len(),
{
    if parts.len() == 0 {
        assert(parts.push(x).len() == 1);
        assert(parts.push(x)[0] == x);
    } else if parts.len() == 1 {
        assert(parts.push(x).drop_first() =~= seq![x]);
        assert(join_view(seq![x], sep) == x);
        assert(join_view(parts.push(x), sep) == parts[0] + sep + x);
        assert(join_view(parts, sep) == parts[0]);
    } else {
        assert(parts.push(x).drop_first() =~= parts.drop_first().push(x));
        lemma_join_push(parts.drop_first(), x, sep);
        assert(join_view(parts.push(x), sep) == parts[0] + sep + join_view(
            parts.drop_first().push(x),
            sep,
        ));
        assert(join_view(parts.drop_first().push(x), sep) == join_view(parts.drop_first(), sep)
            + sep + x);
        assert(parts[0] + sep + (join_view(parts.drop_first(), sep) + sep + x) =~= (parts[0] + sep
            + join_view(parts.drop_first(), sep)) + sep + x);
    }
}

/// Join strings with a separator between consecutive elements.
pub fn join_strings(parts: &Vec<String>, sep: &str) -> (r: String)
    ensures
        r@ == join_view(string_views(parts@), sep@),
{
    let ghost views = string_views(parts@);
    let mut r = String::new();
    let mut i: usize = 0;
    while i < parts.len()
        invariant
            views == string_views(parts@),
            views.len() == parts@.len(),
            forall|j: int| 0 <= j < views.len() ==> views[j] == #[trigger] parts@[j]@,
            0 <= i <= parts@.len(),
            r@ == join_view(views.subrange(0, i as int), sep@),
        decreases parts@.len() - i,
    {
        if i > 0 {
            r.append(sep);
        }
        r.append(parts[i].as_str());
        proof {
            let prefix = views.subrange(0, i as int);
            lemma_join_push(prefix, views[i as int], sep@);
            assert(views.subrange(0, i + 1) =~= prefix.push(views[i as int]));
        }
        i = i + 1;
    }
    assert(views.subrange(0, parts@.len() as int) =~= views);
    r
}

} // verus!

verus! {

/// The u64 a digit string denotes, when it is one.
pub open spec fn parsed_u64(s: Seq<char>) -> Option<u64> {
    if s.len() > 0 && all_digits(s) && dec_val(s) <= u64::MAX {
        Some(dec_val(s) as u64)
    } else {
        None
    }
}

/// Parse a string of decimal digits into a u64.
///
/// Returns `Some` exactly when the string is nonempty, holds only digits,
/// and its value fits in a u64.
pub fn parse_u64(s: &str) -> (r: Option<u64>)
    ensures
        r == parsed_u64(s@),
        r is Some <==> (s@.len() > 0 && all_digits(s@) && dec_val(s@) <= u64::MAX),
        r matches Some(v) ==> v as int == dec_val(s@),
{
    let n = s.unicode_len();
    if n == 0 {
        return None;
    }
    let mut acc: u128 = 0;
    let mut i: usize = 0;
    while i < n
        invariant
            n == s@.len(),
            0 <= i <= n,
            all_digits(s@.subrange(0, i as int)),
            acc as int == dec_val(s@.subrange(0, i as int)),
            acc <= u64::MAX,
        decreases n - i,
    {
        let c = s.get_char(i);
        let cv = c as u32;
        if cv < 48 || cv > 57 {
            assert(!all_digits(s@)) by {
                assert(!is_dec_digit(s@[i as int]));
            }
            return None;
        }
        let d: u128 = (cv - 48) as u128;
        let acc2: u128 = acc * 10 + d;
        assert(s@.subrange(0, i + 1).drop_last() =~= s@.subrange(0, i as int));
        assert(s@.subrange(0, i + 1).last() == s@[i as int]);
        assert(acc2 as int == dec_val(s@.subrange(0, i + 1)));
        if acc2 > 0xffff_ffff_ffff_ffff {
            assert(dec_val(s@) > u64::MAX || !all_digits(s@)) by {
                if all_digits(s@) {
                    lemma_dec_val_prefix(s@, i + 1);
                }
            }
            return None;
        }
        acc = acc2;
        i = i + 1;
    }
    assert(s@.subrange(0, n as int) =~= s@);
    Some(acc as u64)
}

/// Find the first occurrence of a character.
pub fn find_char(s: &str, c: char) -> (r: Option<usize>)
    ensures
        r matches Some(i) ==> 0 <= i < s@.len() && s@[i as int] == c && (forall|j: int|
            0 <= j < i ==> s@[j] != c),
        r is None ==> forall|j: int| 0 <= j < s@.len() ==> s@[j] != c,
{
    let n = s.unicode_len();
    let mut i: usize = 0;
    while i < n
        invariant
            n == s@.len(),
            0 <= i <= n,
            forall|j: int| 0 <= j < i ==> s@[j] != c,
        decreases n - i,
    {
        if s.get_char(i) == c {
            return Some(i);
        }
        i = i + 1;
    }
    None
}

/// The value of the first three fraction digits, scaled to milliseconds.
pub open spec fn frac_millis(fp: Seq<char>) -> int {
    if fp.len() == 0 {
        0
    } else if fp.len() == 1 {
        dec_val(fp) * 100
    } else if fp.len() == 2 {
        dec_val(fp) * 10
    } else {
        dec_val(fp.subrange(0, 3))
    }
}

/// One when the fourth fraction digit rounds the value up, else zero.
pub open spec fn frac_round_bit(fp: Seq<char>) -> int {
    if fp.len() > 3 && digit_val(fp[3]) >= 5 {
        1int
    } else {
        0int
    }
}

/// The millisecond value of a decimal seconds string split at `dot`.
pub open spec fn millis_of_parts(ip: Seq<char>, fp: Seq<char>) -> int {
    dec_val(ip) * 1000 + frac_millis(fp) + frac_round_bit(fp)
}

/// The dot position used to split a decimal seconds string: the first
/// dot, or the length when there is none.
pub open spec fn seconds_dot(s: Seq<char>) -> int {
    if first_index_of(s, '.') < 0 {
        s.len() as int
    } else {
        first_index_of(s, '.')
    }
}

/// The millisecond value a decimal seconds string denotes, when it is
/// well formed and fits in a u32; rounding is half up on the fourth
/// fraction digit.
pub open spec fn parsed_seconds_millis(s: Seq<char>) -> Option<u32> {
    let dot = seconds_dot(s);
    let ip = s.subrange(0, dot);
    let fp = if dot < s.len() {
        s.subrange(dot + 1, s.len() as int)
    } else {
        Seq::empty()
    };
    if dot > 0 && all_digits(ip) && all_digits(fp) && dec_val(ip) <= u32::MAX && millis_of_parts(
        ip,
        fp,
    ) <= u32::MAX {
        Some(millis_of_parts(ip, fp) as u32)
    } else {
        None
    }
}

/// Parse a decimal seconds string into milliseconds, rounding half up on
/// the fourth fraction digit.
///
/// Returns `Some` exactly when the string is digits, optionally followed by
/// a dot and more digits, and the resulting value fits in a u32.
pub fn parse_seconds_millis(s: &str) -> (r: Option<u32>)
    ensures
        r == parsed_seconds_millis(s@),
{
    let n = s.unicode_len();
    let dot_opt = find_char(s, '.');
    let dot: usize;
    match dot_opt {
        Some(d) => {
            proof {
                lemma_first_index_found(s@, '.', d as int);
            }
            dot = d;
        },
        None => {
            proof {
                lemma_first_index_absent(s@, '.');
            }
            dot = n;
        },
    }
    assert(seconds_dot(s@) == dot as int);
    let ghost ipv = s@.subrange(0, dot as int);
    let ghost fpv = if (dot as int) < s@.len() {
        s@.subrange(dot + 1, s@.len() as int)
    } else {
        Seq::<char>::empty()
    };
    if dot == 0 {
        return None;
    }
    let ip = s.substring_char(0, dot);
    assert(ip@ == ipv);
    let int_val = match parse_u64(ip) {
        Some(v) => v,
        None => {
            proof {
                if ipv.len() > 0 && all_digits(ipv) {
                    lemma_dec_val_bounds(ipv);
                }
            }
            return None;
        },
    };
    if int_val > 0xffff_ffff {
        return None;
    }
    let mut fm: u64 = 0;
    let mut rb: u64 = 0;
    if dot < n {
        let fp = s.substring_char(dot + 1, n);
        proof {
            assert(fp@ == fpv);
        }
        let fl = fp.unicode_len();
        let mut j: usize = 0;
        while j < fl
            invariant
                n == s@.len(),
                0 < dot < n,
                seconds_dot(s@) == dot as int,
                fpv == s@.subrange(dot + 1, s@.len() as int),
                fl == fp@.len(),
                fp@ == fpv,
                0 <= j <= fl,
                all_digits(fp@.subrange(0, j as int)),
            decreases fl - j,
        {
            let c = fp.get_char(j);
            let cv = c as u32;
            if cv < 48 || cv > 57 {
                assert(!is_dec_digit(fp@[j as int]));
                assert(!all_digits(fpv));
                return None;
            }
            assert(fp@.subrange(0, j + 1).drop_last() =~= fp@.subrange(0, j as int));
            j = j + 1;
        }
        assert(fp@.subrange(0, fl as int) =~= fp@);
        assert(all_digits(fpv));
        if fl == 0 {
            fm = 0;
        } else if fl == 1 {
            let d0 = fp.get_char(0) as u32;
            fm = ((d0 - 48) * 100) as u64;
            proof {
                reveal_with_fuel(dec_val, 5);
                assert(fp@.drop_last() =~= Seq::<char>::empty());
                assert(dec_val(fp@) == dec_val(fp@.drop_last()) * 10 + digit_val(fp@[0]));
                assert(dec_val(fp@.drop_last()) == 0);
            }
        } else if fl == 2 {
            let d0 = fp.get_char(0) as u32;
            let d1 = fp.get_char(1) as u32;
            fm = ((d0 - 48) * 100 + (d1 - 48) * 10) as u64;
            proof {
                reveal_with_fuel(dec_val, 5);
                assert(fp@.drop_last() =~= seq![fp@[0]]);
                assert(seq![fp@[0]].drop_last() =~= Seq::<char>::empty());
                assert(dec_val(seq![fp@[0]].drop_last()) == 0);
                assert(dec_val(seq![fp@[0]]) == digit_val(fp@[0]));
                assert(dec_val(fp@) == dec_val(fp@.drop_last()) * 10 + digit_val(fp@[1]));
                assert(dec_val(fp@) == digit_val(fp@[0]) * 10 + digit_val(fp@[1]));
            }
        } else {
            let d0 = fp.get_char(0) as u32;
            let d1 = fp.get_char(1) as u32;
            let d2 = fp.get_char(2) as u32;
            fm = ((d0 - 48) * 100 + (d1 - 48) * 10 + (d2 - 48)) as u64;
            proof {
                reveal_with_fuel(dec_val, 5);
                let f3 = fp@.subrange(0, 3);
                assert(f3.drop_last() =~= fp@.subrange(0, 2));
                assert(fp@.subrange(0, 2).drop_last() =~= fp@.subrange(0, 1));
                assert(fp@.subrange(0, 1).drop_last() =~= Seq::<char>::empty());
                assert(dec_val(fp@.subrange(0, 1).drop_last()) == 0);
                assert(dec_val(fp@.subrange(0, 1)) == digit_val(fp@[0]));
                assert(dec_val(fp@.subrange(0, 2)) == dec_val(fp@.subrange(0, 1)) * 10
                    + digit_val(fp@[1]));
                assert(dec_val(f3) == dec_val(fp@.subrange(0, 2)) * 10 + digit_val(fp@[2]));
            }
            if fl > 3 {
                let d3 = fp.get_char(3) as u32;
                if d3 - 48 >= 5 {
                    rb = 1;
                }
            }
        }
        assert(fm as int == frac_millis(fpv));
        assert(rb as int == frac_round_bit(fpv));
    } else {
        assert(fpv =~= Seq::<char>::empty());
        assert(fm as int == frac_millis(fpv));
        assert(rb as int == frac_round_bit(fpv));
    }
    let total: u64 = int_val * 1000 + fm + rb;
    assert(total as int == millis_of_parts(ipv, fpv));
    if total > 0xffff_ffff {
        return None;
    }
    Some(total as u32)
}

} // verus!

verus! {

/// Render a value in thousandths as a decimal string: "2500" becomes
/// "2.5", "2000" becomes "2".
pub fn milli_to_decimal_string(v: u64) -> (s: String)
    ensures
        s@ == milli_dec_view(v as nat),
{
    let q = v / 1000;
    let r = v % 1000;
    let mut s = u64_to_string(q);
    if r == 0 {
        assert(s@ =~= milli_dec_view(v as nat));
        return s;
    }
    push_char(&mut s, '.');
    push_char(&mut s, digit_char((r / 100) as u8));
    if r % 100 == 0 {
        assert(s@ =~= milli_dec_view(v as nat));
        return s;
    }
    push_char(&mut s, digit_char(((r / 10) % 10) as u8));
    if r % 10 == 0 {
        assert(s@ =~= milli_dec_view(v as nat));
        return s;
    }
    push_char(&mut s, digit_char((r % 10) as u8));
    assert(s@ =~= milli_dec_view(v as nat));
    s
}

/// The index of the first occurrence of a character, or -1 when absent.
pub open spec fn first_index_of(s: Seq<char>, c: char) -> int
    decreases s.len(),
{
    if s.len() == 0 {
        -1
    } else if s[0] == c {
        0
    } else {
        let r = first_index_of(s.drop_first(), c);
        if r < 0 {
            -1
        } else {
            1 + r
        }
    }
}

/// A found position with no earlier occurrence is the first index.
pub proof fn lemma_first_index_found(s: Seq<char>, c: char, i: int)
    requires
        0 <= i < s.len(),
        s[i] == c,
        forall|j: int| 0 <= j < i ==> s[j] != c,
    ensures
        first_index_of(s, c) == i,
    decreases i,
{
    if i == 0 {
    } else {
        assert(s[0] != c);
        lemma_first_index_found(s.drop_first(), c, i - 1);
    }
}

/// When no position holds the character, the first index is -1.
pub proof fn lemma_first_index_absent(s: Seq<char>, c: char)
    requires
        forall|j: int| 0 <= j < s.len() ==> s[j] != c,
    ensures
        first_index_of(s, c) == -1,
    decreases s.len(),
{
    if s.len() > 0 {
        assert(s[0] != c);
        lemma_first_index_absent(s.drop_first(), c);
    }
}

} // verus!

verus! {

/// Appending one string extends the sequence of views by its view.
pub proof fn lemma_string_views_push(pre: Seq<String>, post: Seq<String>)
    requires
        pre.len() + 1 == post.len(),
        forall|j: int| 0 <= j < pre.len() ==> post[j] == pre[j],
    ensures
        string_views(post) == string_views(pre).push(post.last()@),
{
    assert(string_views(post) =~= string_views(pre).push(post.last()@));
}

} // verus!

verus! {

/// Append one string to an argument list.
pub fn push_arg(args: &mut Vec<String>, a: &str)
    ensures
        string_views(final(args)@) == string_views(old(args)@).push(a@),
{
    let ghost pre = args@;
    args.push(String::from_str(a));
    proof {
        lemma_string_views_push(pre, args@);
    }
}

/// Append an owned string to an argument list.
pub fn push_arg_string(args: &mut Vec<String>, a: String)
    ensures
        string_views(final(args)@) == string_views(old(args)@).push(a@),
{
    let ghost pre = args@;
    args.push(a);
    proof {
        lemma_string_views_push(pre, args@);
    }
}

/// Append a flag and its value to an argument list.
pub fn push_pair(args: &mut Vec<String>, a: &str, b: &str)
    ensures
        string_views(final(args)@) == string_views(old(args)@).push(a@).push(b@),
{
    push_arg(args, a);
    push_arg(args, b);
}

} // verus!

verus! {

/// The frame rate in thousandths that a "NUM/DEN" fraction denotes, when
/// both parts parse, the denominator is positive, and the scaled value
/// fits; rounding is half away from zero.
pub open spec fn parsed_fraction_milli(s: Seq<char>) -> Option<u32> {
    let p = first_index_of(s, '/');
    if p < 0 {
        None
    } else {
        let num = s.subrange(0, p);
        let den = s.subrange(p + 1, s.len() as int);
        if num.len() > 0 && all_digits(num) && dec_val(num) <= u32::MAX && den.len() > 0
            && all_digits(den) && dec_val(den) <= u32::MAX && dec_val(den) > 0
            && crate::numeric::round_div(dec_val(num) * 1000, dec_val(den)) <= u32::MAX {
            Some(crate::numeric::round_div(dec_val(num) * 1000, dec_val(den)) as u32)
        } else {
            None
        }
    }
}

/// Parse a "NUM/DEN" fraction into a frame rate in thousandths.
pub fn parse_fraction_milli(s: &str) -> (r: Option<u32>)
    ensures
        r == parsed_fraction_milli(s@),
{
    let n = s.unicode_len();
    let p = match find_char(s, '/') {
        Some(p) => {
            proof {
                lemma_first_index_found(s@, '/', p as int);
            }
            p
        },
        None => {
            proof {
                lemma_first_index_absent(s@, '/');
            }
            return None;
        },
    };
    let num_str = s.substring_char(0, p);
    let den_str = s.substring_char(p + 1, n);
    let num = match parse_u32(num_str) {
        Some(v) => v,
        None => {
            return None;
        },
    };
    let den = match parse_u32(den_str) {
        Some(v) => v,
        None => {
            return None;
        },
    };
    if den == 0 {
        return None;
    }
    proof {
        crate::numeric::lemma_u32_mul_fits(num as int, 1000);
        crate::numeric::lemma_round_div_nonneg(num as int * 1000, den as int);
    }
    let q = crate::numeric::mul_div_round(num as i64, 1000, den as i64);
    if q > 0xffff_ffff {
        return None;
    }
    Some(q as u32)
}

} // verus!

verus! {

/// Whether `c` is an ASCII whitespace character.
pub open spec fn is_ascii_ws(c: char) -> bool {
    c == ' ' || c == '\t' || c == '\n' || c == '\r'
}

/// The sequence with leading ASCII whitespace removed.
pub open spec fn trim_front_view(s: Seq<char>) -> Seq<char>
    decreases s.len(),
{
    if s.len() > 0 && is_ascii_ws(s.first()) {
        trim_front_view(s.drop_first())
    } else {
        s
    }
}

/// The sequence with trailing ASCII whitespace removed.
pub open spec fn trim_back_view(s: Seq<char>) -> Seq<char>
    decreases s.len(),
{
    if s.len() > 0 && is_ascii_ws(s.last()) {
        trim_back_view(s.drop_last())
    } else {
        s
    }
}

/// The sequence with ASCII whitespace removed from both ends.
pub open spec fn trim_view(s: Seq<char>) -> Seq<char> {
    trim_back_view(trim_front_view(s))
}

/// Dropping a whitespace prefix reaches the front-trimmed sequence.
pub proof fn lemma_trim_front(s: Seq<char>, lo: int)
    requires
        0 <= lo <= s.len(),
        forall|j: int| 0 <= j < lo ==> is_ascii_ws(s[j]),
        lo < s.len() ==> !is_ascii_ws(s[lo]),
    ensures
        trim_front_view(s) == s.subrange(lo, s.len() as int),
    decreases lo,
{
    if lo == 0 {
        assert(s.subrange(0, s.len() as int) =~= s);
    } else {
        assert(is_ascii_ws(s[0]));
        lemma_trim_front(s.drop_first(), lo - 1);
        assert(s.drop_first().subrange(lo - 1, s.drop_first().len() as int) =~= s.subrange(
            lo,
            s.len() as int,
        ));
    }
}

/// Dropping a whitespace suffix reaches the back-trimmed sequence.
pub proof fn lemma_trim_back(s: Seq<char>, hi: int)
    requires
        0 <= hi <= s.len(),
        forall|j: int| hi <= j < s.len() ==> is_ascii_ws(s[j]),
        hi > 0 ==> !is_ascii_ws(s[hi - 1]),
    ensures
        trim_back_view(s) == s.subrange(0, hi),
    decreases s.len() - hi,
{
    if hi == s.len() {
        assert(s.subrange(0, hi) =~= s);
    } else {
        assert(is_ascii_ws(s.last()));
        lemma_trim_back(s.drop_last(), hi);
        assert(s.drop_last().subrange(0, hi) =~= s.subrange(0, hi));
    }
}

/// Remove ASCII whitespace from both ends of a string.
pub fn trim_ascii(s: &str) -> (r: String)
    ensures
        r@ == trim_view(s@),
{
    let n = s.unicode_len();
    let mut lo: usize = 0;
    let mut front_done = false;
    while lo < n && !front_done
        invariant
            n == s@.len(),
            0 <= lo <= n,
            forall|j: int| 0 <= j < lo ==> is_ascii_ws(s@[j]),
            front_done ==> lo < n && !is_ascii_ws(s@[lo as int]),
        decreases n - lo, (if front_done {
            0int
        } else {
            1int
        }),
    {
        let c = s.get_char(lo);
        if c == ' ' || c == '\t' || c == '\n' || c == '\r' {
            lo = lo + 1;
        } else {
            front_done = true;
        }
    }
    proof {
        lemma_trim_front(s@, lo as int);
    }
    let mut hi: usize = n;
    let mut back_done = false;
    while hi > lo && !back_done
        invariant
            n == s@.len(),
            0 <= lo <= hi <= n,
            forall|j: int| 0 <= j < lo ==> is_ascii_ws(s@[j]),
            forall|j: int| hi <= j < n ==> is_ascii_ws(s@[j]),
            lo < n ==> !is_ascii_ws(s@[lo as int]),
            back_done ==> hi > lo && !is_ascii_ws(s@[hi - 1]),
        decreases hi, (if back_done {
            0int
        } else {
            1int
        }),
    {
        let c = s.get_char(hi - 1);
        if c == ' ' || c == '\t' || c == '\n' || c == '\r' {
            hi = hi - 1;
        } else {
            back_done = true;
        }
    }
    proof {
        let front = s@.subrange(lo as int, n as int);
        assert(forall|j: int|
            hi - lo <= j < front.len() ==> is_ascii_ws(#[trigger] front[j]));
        if hi > lo {
            assert(!is_ascii_ws(front[hi - lo - 1]));
        }
        lemma_trim_back(front, hi - lo as int);
        assert(front.subrange(0, hi - lo as int) =~= s@.subrange(lo as int, hi as int));
    }
    let r = s.substring_char(lo, hi);
    String::from_str(r)
}

} // verus!
