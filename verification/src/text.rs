//! Small verified string utilities: equality, substring search, and decimal /
//! hexadecimal rendering of integers.  Route keys, URLs and JSON bodies are all
//! assembled from these.

use vstd::prelude::*;
use vstd::string::StrSliceExecFns;
use vstd::string::StringExecFns;

verus! {

// ---------------------------------------------------------------------------
// Equality and search
// ---------------------------------------------------------------------------

/// Character-by-character string equality.
pub fn str_eq(a: &str, b: &str) -> (r: bool)
    ensures
        r == (a@ == b@),
{
    let alen = a.unicode_len();
    let blen = b.unicode_len();
    if alen != blen {
        return false;
    }
    for i in 0..alen
        invariant
            alen == a@.len(),
            alen == b@.len(),
            forall|j: int| 0 <= j < i ==> a@[j] == b@[j],
    {
        if a.get_char(i) != b.get_char(i) {
            return false;
        }
    }
    proof {
        assert(a@ =~= b@);
    }
    true
}

/// The pattern `p` occurs in `s` starting at index `i`.
pub open spec fn occurs_at(s: Seq<char>, p: Seq<char>, i: int) -> bool {
    0 <= i && i + p.len() <= s.len() && s.subrange(i, i + p.len() as int) == p
}

/// The pattern `p` occurs somewhere in `s`.
pub open spec fn occurs_in(s: Seq<char>, p: Seq<char>) -> bool {
    exists|i: int| occurs_at(s, p, i)
}

/// Whether `p` occurs in `s` starting exactly at `i`.
fn matches_at(s: &str, p: &str, i: usize) -> (r: bool)
    requires
        i + p@.len() <= s@.len(),
        i + p@.len() <= usize::MAX,
    ensures
        r == occurs_at(s@, p@, i as int),
{
    let plen = p.unicode_len();
    for j in 0..plen
        invariant
            plen == p@.len(),
            i + plen <= s@.len(),
            i + plen <= usize::MAX,
            forall|k: int| 0 <= k < j ==> s@[i + k] == p@[k],
    {
        if s.get_char(i + j) != p.get_char(j) {
            proof {
                assert(s@.subrange(i as int, i + p@.len() as int)[j as int] != p@[j as int]);
            }
            return false;
        }
    }
    proof {
        assert(s@.subrange(i as int, i + p@.len() as int) =~= p@);
    }
    true
}

/// Substring search.
pub fn str_contains(s: &str, p: &str) -> (r: bool)
    ensures
        r == occurs_in(s@, p@),
{
    let slen = s.unicode_len();
    let plen = p.unicode_len();
    if plen > slen {
        proof {
            assert(forall|i: int| !occurs_at(s@, p@, i));
        }
        return false;
    }
    if plen == 0 {
        proof {
            assert(s@.subrange(0, 0) =~= p@);
            assert(occurs_at(s@, p@, 0));
        }
        return true;
    }
    let end = slen - plen;
    for i in 0..end + 1
        invariant
            slen == s@.len(),
            plen == p@.len(),
            plen <= slen,
            end == slen - plen,
            forall|k: int| 0 <= k < i ==> !occurs_at(s@, p@, k),
    {
        if matches_at(s, p, i) {
            return true;
        }
    }
    proof {
        assert(forall|k: int| occurs_at(s@, p@, k) ==> 0 <= k <= end);
    }
    false
}

// ---------------------------------------------------------------------------
// Decimal rendering
// ---------------------------------------------------------------------------

/// The character for a single decimal digit.
pub open spec fn digit_char(d: int) -> char {
    if d == 0 {
        '0'
    } else if d == 1 {
        '1'
    } else if d == 2 {
        '2'
    } else if d == 3 {
        '3'
    } else if d == 4 {
        '4'
    } else if d == 5 {
        '5'
    } else if d == 6 {
        '6'
    } else if d == 7 {
        '7'
    } else if d == 8 {
        '8'
    } else {
        '9'
    }
}

/// Decimal representation of a natural number, most significant digit first.
pub open spec fn spec_dec(n: nat) -> Seq<char>
    decreases n,
{
    if n < 10 {
        seq![digit_char(n as int)]
    } else {
        spec_dec(n / 10).push(digit_char((n % 10) as int))
    }
}

/// A one-character string for a decimal digit.
fn digit_str(d: u64) -> (r: &'static str)
    requires
        d < 10,
    ensures
        r@ =~= seq![digit_char(d as int)],
{
    proof {
        reveal_strlit("0");
        reveal_strlit("1");
        reveal_strlit("2");
        reveal_strlit("3");
        reveal_strlit("4");
        reveal_strlit("5");
        reveal_strlit("6");
        reveal_strlit("7");
        reveal_strlit("8");
        reveal_strlit("9");
    }
    if d == 0 {
        "0"
    } else if d == 1 {
        "1"
    } else if d == 2 {
        "2"
    } else if d == 3 {
        "3"
    } else if d == 4 {
        "4"
    } else if d == 5 {
        "5"
    } else if d == 6 {
        "6"
    } else if d == 7 {
        "7"
    } else if d == 8 {
        "8"
    } else {
        "9"
    }
}

/// Render a `u64` in decimal.
pub fn u64_to_dec(n: u64) -> (r: String)
    ensures
        r@ == spec_dec(n as nat),
    decreases n,
{
    if n < 10 {
        digit_str(n).to_owned()
    } else {
        let mut s = u64_to_dec(n / 10);
        s.append(digit_str(n % 10));
        proof {
            assert(s@ =~= spec_dec(n as nat));
        }
        s
    }
}

/// Decimal rendering of `n`, left-padded with zeros to at least `width`
/// characters, as the `{:0w}` format does.
pub open spec fn spec_dec_pad(n: nat, width: nat) -> Seq<char> {
    let d = spec_dec(n);
    if d.len() >= width {
        d
    } else {
        Seq::new((width - d.len()) as nat, |i: int| '0') + d
    }
}

/// Render a `u64` in decimal, zero-padded to at least `width` characters.
pub fn u64_to_dec_pad(n: u64, width: usize) -> (r: String)
    ensures
        r@ == spec_dec_pad(n as nat, width as nat),
{
    let digits = u64_to_dec(n);
    let dlen = digits.as_str().unicode_len();
    if dlen >= width {
        proof {
            assert(digits@ =~= spec_dec_pad(n as nat, width as nat));
        }
        return digits;
    }
    let mut s = String::new();
    let pad = width - dlen;
    for i in 0..pad
        invariant
            s@ =~= Seq::new(i as nat, |k: int| '0'),
    {
        proof {
            reveal_strlit("0");
        }
        s.append("0");
        proof {
            assert(s@ =~= Seq::new((i + 1) as nat, |k: int| '0'));
        }
    }
    s.append(digits.as_str());
    proof {
        assert(s@ =~= spec_dec_pad(n as nat, width as nat));
    }
    s
}

/// Decimal rendering of a signed value, zero-padded to at least `width`
/// characters in total (the sign counts toward the width), as `{:0w}` does.
pub open spec fn spec_dec_pad_signed(n: int, width: nat) -> Seq<char> {
    if n >= 0 {
        spec_dec_pad(n as nat, width)
    } else {
        seq!['-'] + spec_dec_pad((-n) as nat, if width > 0 { (width - 1) as nat } else { 0 })
    }
}

/// Render an `i64` in decimal, zero-padded to at least `width` characters.
pub fn i64_to_dec_pad(n: i64, width: usize) -> (r: String)
    requires
        n > i64::MIN,
    ensures
        r@ == spec_dec_pad_signed(n as int, width as nat),
{
    if n >= 0 {
        u64_to_dec_pad(n as u64, width)
    } else {
        proof {
            reveal_strlit("-");
        }
        let mut s: String = "-".to_owned();
        let inner_width = if width > 0 { width - 1 } else { 0 };
        let digits = u64_to_dec_pad((-n) as u64, inner_width);
        s.append(digits.as_str());
        proof {
            assert(s@ =~= spec_dec_pad_signed(n as int, width as nat));
        }
        s
    }
}

// ---------------------------------------------------------------------------
// Hexadecimal rendering
// ---------------------------------------------------------------------------

/// The character for a single hexadecimal digit (lower case).
pub open spec fn hex_char(d: int) -> char {
    if d < 10 {
        digit_char(d)
    } else if d == 10 {
        'a'
    } else if d == 11 {
        'b'
    } else if d == 12 {
        'c'
    } else if d == 13 {
        'd'
    } else if d == 14 {
        'e'
    } else {
        'f'
    }
}

/// Sixteen to the power `k`.
pub open spec fn pow16(k: nat) -> nat
    decreases k,
{
    if k == 0 {
        1
    } else {
        16 * pow16((k - 1) as nat)
    }
}

/// The 16-digit lower-case hexadecimal rendering of `n`, as `{:016x}` does.
pub open spec fn spec_hex16(n: u64) -> Seq<char> {
    Seq::new(16, |i: int| hex_char(((n as nat / pow16((15 - i) as nat)) % 16) as int))
}

/// A one-character string for a hexadecimal digit.
pub(crate) fn hex_digit_str(d: u64) -> (r: &'static str)
    requires
        d < 16,
    ensures
        r@ =~= seq![hex_char(d as int)],
{
    if d < 10 {
        digit_str(d)
    } else {
        proof {
            reveal_strlit("a");
            reveal_strlit("b");
            reveal_strlit("c");
            reveal_strlit("d");
            reveal_strlit("e");
            reveal_strlit("f");
        }
        if d == 10 {
            "a"
        } else if d == 11 {
            "b"
        } else if d == 12 {
            "c"
        } else if d == 13 {
            "d"
        } else if d == 14 {
            "e"
        } else {
            "f"
        }
    }
}

proof fn lemma_pow16_pos(k: nat)
    ensures
        pow16(k) >= 1,
    decreases k,
{
    if k > 0 {
        lemma_pow16_pos((k - 1) as nat);
    }
}

proof fn lemma_pow16_mono(a: nat, b: nat)
    requires
        a <= b,
    ensures
        pow16(a) <= pow16(b),
    decreases b,
{
    if a < b {
        lemma_pow16_mono(a, (b - 1) as nat);
        lemma_pow16_pos((b - 1) as nat);
    }
}

proof fn lemma_pow16_bound(k: nat)
    requires
        k <= 15,
    ensures
        pow16(k) >= 1,
        pow16(k) <= 0x1000_0000_0000_0000,
{
    lemma_pow16_pos(k);
    lemma_pow16_mono(k, 15);
    assert(pow16(15) == 0x1000_0000_0000_0000) by {
        reveal_with_fuel(pow16, 17);
    }
}

/// Render a `u64` as 16 lower-case hexadecimal digits.
pub fn u64_to_hex16(n: u64) -> (r: String)
    ensures
        r@ == spec_hex16(n),
{
    let mut s = String::new();
    let mut p: u64 = 0x1000_0000_0000_0000;
    proof {
        lemma_pow16_bound(15);
        assert(pow16(15) == 0x1000_0000_0000_0000) by {
            reveal_with_fuel(pow16, 17);
        }
    }
    for i in 0..16usize
        invariant
            i < 16 ==> p as nat == pow16((15 - i) as nat),
            p >= 1,
            s@ =~= spec_hex16(n).take(i as int),
    {
        let d = (n / p) % 16;
        s.append(hex_digit_str(d));
        proof {
            assert(s@ =~= spec_hex16(n).take(i + 1 as int));
            if i < 15 {
                assert(pow16((15 - i) as nat) == 16 * pow16((14 - i) as nat));
                lemma_pow16_bound((14 - i) as nat);
            }
        }
        if i < 15 {
            p = p / 16;
            proof {
                assert(p as nat == pow16((14 - i) as nat)) by {
                    assert((16 * pow16((14 - i) as nat)) / 16 == pow16((14 - i) as nat)) by (nonlinear_arith);
                }
            }
        }
    }
    proof {
        assert(s@ =~= spec_hex16(n));
    }
    s
}

} // verus!
