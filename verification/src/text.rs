//! Character and string helpers shared by the command logic.

use vstd::prelude::*;

verus! {

/// `String::push` appends one character at the end of the string.
pub assume_specification[ std::string::String::push ](s: &mut std::string::String, ch: char)
    ensures
        final(s)@ == old(s)@.push(ch),
;

/// The Unicode `Alphabetic`-or-`Numeric` property that `char::is_alphanumeric` reports.
pub uninterp spec fn alphanumeric(c: char) -> bool;

/// Calls `char::is_alphanumeric`; the result is the property named `alphanumeric`.
#[verifier::external_body]
pub fn is_alphanumeric(c: char) -> (r: bool)
    ensures
        r == alphanumeric(c),
{
    c.is_alphanumeric()
}

/// The characters of `s` that are alphanumeric, in order.
pub open spec fn keep_alphanumeric(s: Seq<char>) -> Seq<char>
    decreases s.len(),
{
    if s.len() == 0 {
        s
    } else {
        let rest = keep_alphanumeric(s.drop_last());
        if alphanumeric(s.last()) {
            rest.push(s.last())
        } else {
            rest
        }
    }
}

/// Keeps only the alphanumeric characters of `s`.
pub fn filter_alphanumeric(s: &str) -> (r: String)
    ensures
        r@ == keep_alphanumeric(s@),
{
    let mut r = String::new();
    for c in it: s.chars()
        invariant
            it.seq() == s@,
            r@ == keep_alphanumeric(s@.take(it.index() as int)),
    {
        let ghost i = it.index() as int;
        proof {
            assert(c == s@[i]);
            assert(s@.take(i + 1).drop_last() =~= s@.take(i));
        }
        if is_alphanumeric(c) {
            r.push(c);
        }
    }
    proof {
        assert(s@.take(s@.len() as int) =~= s@);
    }
    r
}

} // verus!

verus! {

/// The characters of `s`, one by one.
pub fn chars_of(s: &str) -> (v: Vec<char>)
    ensures
        v@ == s@,
{
    let mut v: Vec<char> = Vec::new();
    for c in it: s.chars()
        invariant
            it.seq() == s@,
            v@ == s@.take(it.index() as int),
    {
        let ghost i = it.index() as int;
        proof {
            assert(c == s@[i]);
        }
        v.push(c);
        proof {
            assert(v@ =~= s@.take(i + 1));
        }
    }
    proof {
        assert(s@.take(s@.len() as int) =~= s@);
    }
    v
}

/// The string made of the characters `v[from..to]`.
pub fn string_of(v: &Vec<char>, from: usize, to: usize) -> (s: String)
    requires
        from <= to <= v@.len(),
    ensures
        s@ == v@.subrange(from as int, to as int),
{
    let mut s = String::new();
    let mut i = from;
    while i < to
        invariant
            from <= i <= to <= v@.len(),
            s@ == v@.subrange(from as int, i as int),
        decreases to - i,
    {
        s.push(v[i]);
        proof {
            assert(s@ =~= v@.subrange(from as int, i + 1));
        }
        i = i + 1;
    }
    s
}

/// Number of bytes that UTF-8 takes for `c`.
pub open spec fn utf8_len(c: char) -> nat {
    let v = c as u32;
    if v < 0x80 {
        1
    } else if v < 0x800 {
        2
    } else if v < 0x10000 {
        3
    } else {
        4
    }
}

/// Number of bytes that UTF-8 takes for the characters `s`.
pub open spec fn byte_len(s: Seq<char>) -> nat
    decreases s.len(),
{
    if s.len() == 0 {
        0
    } else {
        byte_len(s.drop_last()) + utf8_len(s.last())
    }
}

/// Number of bytes that UTF-8 takes for `c`.
pub fn char_utf8_len(c: char) -> (n: usize)
    ensures
        n == utf8_len(c),
{
    let v = c as u32;
    if v < 0x80 {
        1
    } else if v < 0x800 {
        2
    } else if v < 0x10000 {
        3
    } else {
        4
    }
}

/// Taking more characters never gives fewer bytes.
pub proof fn lemma_byte_len_take_mono(s: Seq<char>, i: int, j: int)
    requires
        0 <= i <= j <= s.len(),
    ensures
        byte_len(s.take(i)) + (j - i) <= byte_len(s.take(j)),
    decreases j - i,
{
    if i < j {
        lemma_byte_len_take_mono(s, i, j - 1);
        assert(s.take(j).drop_last() =~= s.take(j - 1));
    }
}

/// `s` has a character boundary `b` bytes from its start.
pub open spec fn has_boundary_at(s: Seq<char>, b: nat) -> bool {
    exists|k: int| 0 <= k <= s.len() && byte_len(#[trigger] s.take(k)) == b
}

/// The longest prefix of `s` that fits in `max` bytes, when that prefix ends
/// exactly at `max` bytes or is the whole of `s`; `None` when `max` falls
/// inside a character (where `String::truncate` would panic).
pub open spec fn truncated_to_bytes(s: Seq<char>, max: nat) -> Option<Seq<char>> {
    if byte_len(s) <= max {
        Some(s)
    } else if has_boundary_at(s, max) {
        Some(s.take(choose|k: int| 0 <= k <= s.len() && byte_len(#[trigger] s.take(k)) == max))
    } else {
        None
    }
}

/// Cuts `v` to at most `max` bytes of UTF-8, as `String::truncate` does when
/// the string is longer; `None` when `max` is not on a character boundary.
pub fn truncate_to_bytes(v: &Vec<char>, max: usize) -> (r: Option<String>)
    ensures
        match r {
            Some(s) => truncated_to_bytes(v@, max as nat) == Some(s@),
            None => truncated_to_bytes(v@, max as nat) is None,
        },
{
    let mut i: usize = 0;
    let mut bytes: usize = 0;
    while i < v.len()
        invariant
            i <= v@.len(),
            bytes == byte_len(v@.take(i as int)),
            bytes <= max,
        decreases v@.len() - i,
    {
        let w = char_utf8_len(v[i]);
        proof {
            assert(v@.take(i + 1).drop_last() =~= v@.take(i as int));
        }
        if w > max - bytes {
            // the next character does not fit
            proof {
                assert(byte_len(v@.take(i + 1)) > max);
                lemma_byte_len_take_mono(v@, i + 1, v@.len() as int);
                assert(v@.take(v@.len() as int) =~= v@);
            }
            if bytes == max {
                let s = string_of(v, 0, i);
                proof {
                    assert(v@.subrange(0, i as int) =~= v@.take(i as int));
                    assert(has_boundary_at(v@, max as nat));
                    let k = choose|k: int| 0 <= k <= v@.len() && byte_len(#[trigger] v@.take(k)) == max;
                    if k < i {
                        lemma_byte_len_take_mono(v@, k, i as int);
                    } else if k > i {
                        lemma_byte_len_take_mono(v@, i + 1, k);
                    }
                    assert(k == i);
                }
                return Some(s);
            } else {
                proof {
                    assert forall|k: int| 0 <= k <= v@.len() implies byte_len(
                        #[trigger] v@.take(k),
                    ) != max by {
                        if k <= i {
                            lemma_byte_len_take_mono(v@, k, i as int);
                        } else {
                            lemma_byte_len_take_mono(v@, i + 1, k);
                        }
                    }
                }
                return None;
            }
        }
        bytes = bytes + w;
        i = i + 1;
    }
    proof {
        assert(v@.take(v@.len() as int) =~= v@);
    }
    let s = string_of(v, 0, v.len());
    proof {
        assert(v@.subrange(0, v@.len() as int) =~= v@);
    }
    Some(s)
}

} // verus!

verus! {

/// `s` with every occurrence of the non-empty `pat` replaced by `rep`,
/// occurrences being taken from left to right without overlap.
pub open spec fn replaced(s: Seq<char>, pat: Seq<char>, rep: Seq<char>) -> Seq<char>
    recommends
        pat.len() > 0,
    decreases s.len(),
{
    if pat.len() == 0 || s.len() < pat.len() {
        s
    } else if s.take(pat.len() as int) == pat {
        rep + replaced(s.skip(pat.len() as int), pat, rep)
    } else {
        seq![s[0]] + replaced(s.skip(1), pat, rep)
    }
}

/// Whether `pat` occurs in `s` at position `i`.
fn occurs_at(s: &Vec<char>, i: usize, pat: &Vec<char>) -> (r: bool)
    requires
        i + pat@.len() <= s@.len(),
    ensures
        r == (s@.subrange(i as int, i + pat@.len()) == pat@),
{
    let n = s.len();
    let mut t: usize = 0;
    while t < pat.len()
        invariant
            n == s@.len(),
            t <= pat@.len(),
            i + pat@.len() <= s@.len(),
            forall|u: int| 0 <= u < t ==> s@[i + u] == pat@[u],
        decreases pat@.len() - t,
    {
        assert(i + t < s@.len());
        if s[i + t] != pat[t] {
            proof {
                assert(s@.subrange(i as int, i + pat@.len())[t as int] != pat@[t as int]);
            }
            return false;
        }
        t = t + 1;
    }
    proof {
        assert(s@.subrange(i as int, i + pat@.len()) =~= pat@);
    }
    true
}

/// Replaces every occurrence of `pat` in `s` by `rep`, left to right and
/// without overlap, as `str::replace` does.
pub fn replace_all(s: &str, pat: &str, rep: &str) -> (r: String)
    requires
        pat@.len() > 0,
    ensures
        r@ == replaced(s@, pat@, rep@),
{
    let v = chars_of(s);
    let p = chars_of(pat);
    let m = p.len();
    let mut r = String::new();
    let mut i: usize = 0;
    proof {
        assert(s@.skip(0) =~= s@);
        assert(r@ + replaced(s@, pat@, rep@) =~= replaced(s@, pat@, rep@));
    }
    while i < v.len()
        invariant
            v@ == s@,
            p@ == pat@,
            m == p@.len(),
            m > 0,
            i <= v@.len(),
            replaced(s@, pat@, rep@) == r@ + replaced(s@.skip(i as int), pat@, rep@),
        decreases v@.len() - i,
    {
        let ghost rest = s@.skip(i as int);
        if m <= v.len() - i && occurs_at(&v, i, &p) {
            proof {
                assert(rest.take(m as int) =~= v@.subrange(i as int, i + m));
                assert(rest.skip(m as int) =~= s@.skip(i + m));
            }
            let ghost before = r@;
            r.append(rep);
            proof {
                assert(before + (rep@ + replaced(s@.skip(i + m), pat@, rep@)) =~= r@ + replaced(
                    s@.skip(i + m),
                    pat@,
                    rep@,
                ));
            }
            i = i + m;
        } else {
            proof {
                if m <= v@.len() - i {
                    assert(rest.take(m as int) =~= v@.subrange(i as int, i + m));
                }
                assert(rest.skip(1) =~= s@.skip(i + 1));
                assert(rest[0] == v@[i as int]);
            }
            let ghost before = r@;
            r.push(v[i]);
            proof {
                assert(before + (seq![v@[i as int]] + replaced(s@.skip(i + 1), pat@, rep@)) =~= r@
                    + replaced(s@.skip(i + 1), pat@, rep@));
            }
            i = i + 1;
        }
    }
    proof {
        assert(s@.skip(v@.len() as int) =~= Seq::<char>::empty());
        assert(r@ + Seq::<char>::empty() =~= r@);
    }
    r
}

} // verus!

verus! {

/// `c` is one of the ASCII digits `0`..`9`.
pub open spec fn is_digit(c: char) -> bool {
    '0' <= c <= '9'
}

/// The value of the decimal digit `c`.
pub open spec fn digit_value(c: char) -> nat {
    (c as u32 - '0' as u32) as nat
}

/// The number written by the decimal digits `d` (most significant first).
pub open spec fn decimal_value(d: Seq<char>) -> nat
    decreases d.len(),
{
    if d.len() == 0 {
        0
    } else {
        decimal_value(d.drop_last()) * 10 + digit_value(d.last())
    }
}

/// The digits part of a number as `u64::from_str` reads it: an optional
/// leading `+` is dropped.
pub open spec fn unsigned_digits(s: Seq<char>) -> Seq<char> {
    if s.len() > 0 && s[0] == '+' {
        s.skip(1)
    } else {
        s
    }
}

/// What `s.parse::<u64>()` gives: an optional `+`, then one or more ASCII
/// digits, whose value fits in a `u64`; anything else is refused.
pub open spec fn parsed_u64(s: Seq<char>) -> Option<u64> {
    let d = unsigned_digits(s);
    if d.len() > 0 && (forall|i: int| 0 <= i < d.len() ==> is_digit(#[trigger] d[i]))
        && decimal_value(d) <= u64::MAX {
        Some(decimal_value(d) as u64)
    } else {
        None
    }
}

proof fn lemma_decimal_value_prefix_mono(d: Seq<char>, i: int)
    requires
        0 <= i <= d.len(),
        forall|j: int| 0 <= j < d.len() ==> is_digit(#[trigger] d[j]),
    ensures
        decimal_value(d.take(i)) <= decimal_value(d),
    decreases d.len() - i,
{
    if i < d.len() {
        lemma_decimal_value_prefix_mono(d, i + 1);
        assert(d.take(i + 1).drop_last() =~= d.take(i));
    } else {
        assert(d.take(i) =~= d);
    }
}

/// Reads an unsigned decimal number as `str::parse::<u64>` does.
pub fn parse_u64(s: &str) -> (r: Option<u64>)
    ensures
        r == parsed_u64(s@),
{
    let v = chars_of(s);
    let start: usize = if v.len() > 0 && v[0] == '+' {
        1
    } else {
        0
    };
    let ghost d = unsigned_digits(s@);
    proof {
        assert(d =~= v@.skip(start as int));
    }
    if start == v.len() {
        return None;
    }
    let mut value: u64 = 0;
    let mut i: usize = start;
    while i < v.len()
        invariant
            v@ == s@,
            d == v@.skip(start as int),
            d == unsigned_digits(s@),
            d.len() > 0,
            start <= i <= v@.len(),
            value == decimal_value(d.take(i - start)),
            forall|j: int| 0 <= j < i - start ==> is_digit(#[trigger] d[j]),
        decreases v@.len() - i,
    {
        let c = v[i];
        proof {
            assert(d[i - start] == c);
            assert(d.take(i - start + 1).drop_last() =~= d.take(i - start));
        }
        if !('0' <= c && c <= '9') {
            proof {
                assert(!is_digit(d[i - start]));
            }
            return None;
        }
        let digit = (c as u32 - '0' as u32) as u64;
        if value > 1844674407370955161 || (value == 1844674407370955161 && digit > 5) {
            proof {
                let dv = digit_value(c);
                assert(dv == digit);
                assert(value * 10 + dv > u64::MAX) by (nonlinear_arith)
                    requires
                        value > 1844674407370955161 || (value == 1844674407370955161 && dv > 5),
                ;
                assert(decimal_value(d.take(i - start + 1)) > u64::MAX);
                if forall|j: int| 0 <= j < d.len() ==> is_digit(#[trigger] d[j]) {
                    lemma_decimal_value_prefix_mono(d, i - start + 1);
                }
            }
            return None;
        }
        value = value * 10 + digit;
        i = i + 1;
    }
    proof {
        assert(d.take(d.len() as int) =~= d);
    }
    Some(value)
}

} // verus!

verus! {

/// The lowercase hexadecimal digit for `d < 16`.
pub open spec fn hex_digit(d: nat) -> char {
    seq!['0', '1', '2', '3', '4', '5', '6', '7', '8', '9', 'a', 'b', 'c', 'd', 'e', 'f'][d as int]
}

/// `n` in lowercase hexadecimal, without leading zeros (`0` for zero).
pub open spec fn lower_hex(n: nat) -> Seq<char>
    decreases n,
{
    if n < 16 {
        seq![hex_digit(n)]
    } else {
        lower_hex(n / 16).push(hex_digit(n % 16))
    }
}

/// `v` as `{:x}` prints a signed big integer: a `-` before the magnitude
/// when negative.
pub open spec fn signed_lower_hex(v: int) -> Seq<char> {
    if v < 0 {
        seq!['-'] + lower_hex((-v) as nat)
    } else {
        lower_hex(v as nat)
    }
}

/// The unsigned number held by the big-endian bytes `b`.
pub open spec fn be_value(b: Seq<u8>) -> nat
    decreases b.len(),
{
    if b.len() == 0 {
        0
    } else {
        be_value(b.drop_last()) * 256 + (b.last() as nat)
    }
}

/// 256 to the power `n`.
pub open spec fn pow256(n: nat) -> nat
    decreases n,
{
    if n == 0 {
        1
    } else {
        256 * pow256((n - 1) as nat)
    }
}

/// The number held by the big-endian two's complement bytes `b`.
pub open spec fn twos_complement_be(b: Seq<u8>) -> int {
    if b.len() > 0 && b[0] >= 128 {
        be_value(b) - pow256(b.len())
    } else {
        be_value(b) as int
    }
}

} // verus!

verus! {

/// Whether `a` and `b` hold the same characters.
pub fn same_text(a: &str, b: &str) -> (r: bool)
    ensures
        r == (a@ == b@),
{
    let x = chars_of(a);
    let y = chars_of(b);
    if x.len() != y.len() {
        return false;
    }
    let mut i: usize = 0;
    while i < x.len()
        invariant
            x@ == a@,
            y@ == b@,
            x@.len() == y@.len(),
            i <= x@.len(),
            forall|j: int| 0 <= j < i ==> x@[j] == y@[j],
        decreases x@.len() - i,
    {
        if x[i] != y[i] {
            return false;
        }
        i = i + 1;
    }
    proof {
        assert(x@ =~= y@);
    }
    true
}

/// Whether `v` holds `x`.
pub fn contains_u64(v: &Vec<u64>, x: u64) -> (r: bool)
    ensures
        r == v@.contains(x),
{
    let mut i: usize = 0;
    while i < v.len()
        invariant
            i <= v@.len(),
            forall|j: int| 0 <= j < i ==> v@[j] != x,
        decreases v@.len() - i,
    {
        if v[i] == x {
            proof {
                assert(v@[i as int] == x);
            }
            return true;
        }
        i = i + 1;
    }
    false
}

} // verus!

verus! {

/// Every character kept by `keep_alphanumeric` is alphanumeric, and the
/// result is no longer than the input.
pub proof fn lemma_kept_alphanumeric(s: Seq<char>)
    ensures
        forall|i: int|
            0 <= i < keep_alphanumeric(s).len() ==> alphanumeric(#[trigger] keep_alphanumeric(s)[i]),
        keep_alphanumeric(s).len() <= s.len(),
    decreases s.len(),
{
    if s.len() > 0 {
        lemma_kept_alphanumeric(s.drop_last());
    }
}

/// A string cut to `max` bytes is a prefix of the original that takes at
/// most `max` bytes.
pub proof fn lemma_truncated_is_short_prefix(s: Seq<char>, max: nat)
    ensures
        truncated_to_bytes(s, max) matches Some(t) ==> byte_len(t) <= max && t.len() <= s.len()
            && t == s.take(t.len() as int),
{
    if byte_len(s) <= max {
        assert(s.take(s.len() as int) =~= s);
    }
}

} // verus!
