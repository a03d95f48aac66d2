//! Small verified string helpers shared by the rule tables.

use vstd::prelude::*;
use vstd::string::*;

verus! {

/// Character-wise equality of two string slices.
pub fn str_eq(a: &str, b: &str) -> (r: bool)
    ensures
        r == (a@ == b@),
{
    let n = a.unicode_len();
    let m = b.unicode_len();
    if n != m {
        return false;
    }
    let mut i: usize = 0;
    while i < n
        invariant
            n == a@.len(),
            m == b@.len(),
            n == m,
            i <= n,
            forall|k: int| 0 <= k < i ==> a@[k] == b@[k],
        decreases n - i,
    {
        if a.get_char(i) != b.get_char(i) {
            return false;
        }
        i = i + 1;
    }
    assert(a@ =~= b@);
    true
}

/// An owned copy of a string slice.
pub fn owned(s: &str) -> (r: String)
    ensures
        r@ == s@,
{
    String::from_str(s)
}


/// Digit character of `d` in base 16 (upper case).
pub open spec fn digit_char(d: int) -> char {
    if d < 10 { (48 + d) as char } else { (55 + d) as char }
}

/// Digits of `v` in `base`, most significant first, without padding.
pub open spec fn digits(v: nat, base: nat) -> Seq<char>
    decreases v,
{
    if base < 2 || v < base {
        seq![digit_char(v as int)]
    } else {
        proof {
            assert(v / base < v) by (nonlinear_arith)
                requires
                    base >= 2,
                    v >= base,
            ;
        }
        digits(v / base, base).push(digit_char((v % base) as int))
    }
}

/// `'0'` repeated `n` times.
pub open spec fn zeros(n: int) -> Seq<char>
    decreases n,
{
    if n <= 0 { Seq::empty() } else { zeros(n - 1).push('0') }
}

/// Digits of `v` in `base`, left-padded with zeros to at least `width`.
pub open spec fn padded_digits(v: nat, base: nat, width: nat) -> Seq<char> {
    let d = digits(v, base);
    zeros(width - d.len()) + d
}

fn digit_text(d: u64) -> (r: &'static str)
    requires
        d < 16,
    ensures
        r@ == seq![digit_char(d as int)],
{
    let r = match d {
        0 => "0",
        1 => "1",
        2 => "2",
        3 => "3",
        4 => "4",
        5 => "5",
        6 => "6",
        7 => "7",
        8 => "8",
        9 => "9",
        10 => "A",
        11 => "B",
        12 => "C",
        13 => "D",
        14 => "E",
        _ => "F",
    };
    proof {
        reveal_strlit("0");
        reveal_strlit("1");
        reveal_strlit("2");
        reveal_strlit("3");
        reveal_strlit("4");
        reveal_strlit("5");
        reveal_strlit("6");
        reveal_strlit("7");
        reveal_strlit("8");
        reveal_strlit("9");
        reveal_strlit("A");
        reveal_strlit("B");
        reveal_strlit("C");
        reveal_strlit("D");
        reveal_strlit("E");
        reveal_strlit("F");
    }
    assert(r@ =~= seq![digit_char(d as int)]);
    r
}

/// Append the digits of `v` in `base` to `s`.
pub fn append_digits(s: &mut String, v: u64, base: u64)
    requires
        2 <= base <= 16,
    ensures
        final(s)@ == old(s)@ + digits(v as nat, base as nat),
    decreases v,
{
    if v < base {
        s.append(digit_text(v));
    } else {
        let ghost s0 = s@;
        assert(v / base < v) by (nonlinear_arith)
            requires
                base >= 2,
                v >= base,
        ;
        append_digits(s, v / base, base);
        let ghost s1 = s@;
        s.append(digit_text(v % base));
        assert(s@ =~= s0 + digits(v as nat, base as nat));
    }
}

proof fn lemma_zeros_push(n: int)
    requires
        n >= 0,
    ensures
        zeros(n + 1) == zeros(n).push('0'),
{
}

/// Append the digits of `v` in `base` to `s`, zero-padded to `width`.
pub fn append_padded(s: &mut String, v: u64, base: u64, width: usize)
    requires
        2 <= base <= 16,
    ensures
        final(s)@ == old(s)@ + padded_digits(v as nat, base as nat, width as nat),
{
    let mut d = String::new();
    append_digits(&mut d, v, base);
    assert(d@ =~= digits(v as nat, base as nat));
    let len = d.unicode_len();
    let ghost s0 = s@;
    if len < width {
        let mut k: usize = 0;
        while k < width - len
            invariant
                len < width,
                k <= width - len,
                s@ == s0 + zeros(k as int),
            decreases width - len - k,
        {
            s.append("0");
            proof {
                reveal_strlit("0");
                lemma_zeros_push(k as int);
                assert(s@ =~= s0 + zeros(k + 1));
            }
            k = k + 1;
        }
    } else {
        assert(zeros(width - len) =~= Seq::<char>::empty());
        assert(s@ =~= s0 + zeros(width - len));
    }
    s.append(d.as_str());
    assert(s@ =~= s0 + padded_digits(v as nat, base as nat, width as nat));
}

} // verus!
