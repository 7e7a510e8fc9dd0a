//! Text helpers shared by the filter and the formatters: positions of a
//! character in a string and decimal rendering of numbers.
use vstd::prelude::*;
use vstd::string::StrSliceExecFns;

verus! {

/// Index of the last occurrence of `c` in `s`, or -1 if `c` does not occur.
pub open spec fn last_index_of(s: Seq<char>, c: char) -> int
    decreases s.len(),
{
    if s.len() == 0 {
        -1
    } else if s[s.len() - 1] == c {
        s.len() - 1
    } else {
        last_index_of(s.drop_last(), c)
    }
}

/// A position that holds `c` with none after it is the last occurrence.
pub proof fn lemma_last_index_of_at(s: Seq<char>, c: char, p: int)
    requires
        0 <= p < s.len(),
        s[p] == c,
        forall|j: int| p < j < s.len() ==> s[j] != c,
    ensures
        last_index_of(s, c) == p,
    decreases s.len(),
{
    if p == s.len() - 1 {
    } else {
        assert(s.drop_last()[p] == s[p]);
        assert forall|j: int| p < j < s.drop_last().len() implies s.drop_last()[j] != c by {
            assert(s.drop_last()[j] == s[j]);
        }
        lemma_last_index_of_at(s.drop_last(), c, p);
    }
}

/// Position just after the last occurrence of `c` in `s`; 0 when `c` is
/// absent.
pub fn after_last(s: &str, c: char) -> (r: usize)
    ensures
        r == last_index_of(s@, c) + 1,
        r <= s@.len(),
{
    let n = s.unicode_len();
    let mut j: usize = n;
    while j > 0
        invariant
            0 <= j <= n,
            n == s@.len(),
            forall|m: int| j <= m < n ==> s@[m] != c,
        decreases j,
    {
        if s.get_char(j - 1) == c {
            proof {
                lemma_last_index_of_at(s@, c, j - 1);
            }
            return j;
        }
        j -= 1;
    }
    proof {
        lemma_last_index_of_none(s@, c);
    }
    0
}

/// When no position holds `c`, there is no last occurrence.
pub proof fn lemma_last_index_of_none(s: Seq<char>, c: char)
    requires
        forall|j: int| 0 <= j < s.len() ==> s[j] != c,
    ensures
        last_index_of(s, c) == -1,
    decreases s.len(),
{
    if s.len() > 0 {
        assert forall|j: int| 0 <= j < s.drop_last().len() implies s.drop_last()[j] != c by {
            assert(s.drop_last()[j] == s[j]);
        }
        lemma_last_index_of_none(s.drop_last(), c);
    }
}

/// Character for the decimal digit `d`.
pub open spec fn dec_digit(d: int) -> char {
    if d == 0 {
        '0'
    } else if d == 1 {
        '1'
    } else if d == 2 {
        '2'
    } else if d == 3 {
        '3'
    } else if d == 4 {
        '4'
    } else if d == 5 {
        '5'
    } else if d == 6 {
        '6'
    } else if d == 7 {
        '7'
    } else if d == 8 {
        '8'
    } else {
        '9'
    }
}

/// Decimal rendering of `n`, most significant digit first.
pub open spec fn dec_str(n: nat) -> Seq<char>
    decreases n,
{
    if n < 10 {
        seq![dec_digit(n as int)]
    } else {
        dec_str(n / 10) + seq![dec_digit((n % 10) as int)]
    }
}

/// Decimal rendering of `n`, zero-padded to at least two places.
pub open spec fn pad2(n: nat) -> Seq<char> {
    if n < 10 {
        seq!['0'] + dec_str(n)
    } else {
        dec_str(n)
    }
}

/// Decimal rendering of `n`, zero-padded to at least four places.
pub open spec fn pad4(n: nat) -> Seq<char> {
    if n < 10 {
        seq!['0', '0', '0'] + dec_str(n)
    } else if n < 100 {
        seq!['0', '0'] + dec_str(n)
    } else if n < 1000 {
        seq!['0'] + dec_str(n)
    } else {
        dec_str(n)
    }
}

/// Whether `c` is a decimal digit character.
pub open spec fn is_ascii_digit(c: char) -> bool {
    48 <= c as int <= 57
}

/// Every character of a decimal rendering is a digit, and there is at
/// least one of them.
pub proof fn lemma_dec_str_digits(n: nat)
    ensures
        dec_str(n).len() >= 1,
        forall|i: int| 0 <= i < dec_str(n).len() ==> is_ascii_digit(#[trigger] dec_str(n)[i]),
    decreases n,
{
    if n >= 10 {
        lemma_dec_str_digits(n / 10);
    }
}

/// Length of the decimal rendering of a small number.
pub proof fn lemma_dec_str_len(n: nat)
    requires
        n <= 9999,
    ensures
        dec_str(n).len() == if n < 10 {
            1int
        } else if n < 100 {
            2int
        } else if n < 1000 {
            3int
        } else {
            4int
        },
    decreases n,
{
    if n >= 10 {
        lemma_dec_str_len(n / 10);
    }
}

/// A two-place padded rendering of a value below 100 is two digits.
pub proof fn lemma_pad2_form(n: nat)
    requires
        n <= 99,
    ensures
        pad2(n).len() == 2,
        forall|i: int| 0 <= i < 2 ==> is_ascii_digit(#[trigger] pad2(n)[i]),
{
    lemma_dec_str_len(n);
    lemma_dec_str_digits(n);
}

/// A four-place padded rendering of a value below 10000 is four digits.
pub proof fn lemma_pad4_form(n: nat)
    requires
        n <= 9999,
    ensures
        pad4(n).len() == 4,
        forall|i: int| 0 <= i < 4 ==> is_ascii_digit(#[trigger] pad4(n)[i]),
{
    lemma_dec_str_len(n);
    lemma_dec_str_digits(n);
}

/// Relies on std's `String::push`: appends exactly the one character to
/// the end of the string.
#[verifier::external_body]
pub fn push_char(s: &mut String, c: char)
    ensures
        final(s)@ == old(s)@.push(c),
{
    s.push(c)
}

/// The decimal digit character for `d`.
pub fn digit_char(d: u64) -> (c: char)
    requires
        d < 10,
    ensures
        c == dec_digit(d as int),
{
    match d {
        0 => '0',
        1 => '1',
        2 => '2',
        3 => '3',
        4 => '4',
        5 => '5',
        6 => '6',
        7 => '7',
        8 => '8',
        _ => '9',
    }
}

/// Appends the decimal rendering of `n` to `out`.
pub fn push_dec(n: u64, out: &mut String)
    ensures
        final(out)@ == old(out)@ + dec_str(n as nat),
    decreases n,
{
    if n >= 10 {
        push_dec(n / 10, out);
    }
    push_char(out, digit_char(n % 10));
    proof {
        assert(out@ =~= old(out)@ + dec_str(n as nat));
    }
}

/// Appends the decimal rendering of `n`, zero-padded to two places.
pub fn push_pad2(n: u64, out: &mut String)
    ensures
        final(out)@ == old(out)@ + pad2(n as nat),
{
    if n < 10 {
        push_char(out, '0');
    }
    push_dec(n, out);
    proof {
        assert(out@ =~= old(out)@ + pad2(n as nat));
    }
}

/// Appends the decimal rendering of `n`, zero-padded to four places.
pub fn push_pad4(n: u64, out: &mut String)
    ensures
        final(out)@ == old(out)@ + pad4(n as nat),
{
    if n < 10 {
        push_char(out, '0');
        push_char(out, '0');
        push_char(out, '0');
    } else if n < 100 {
        push_char(out, '0');
        push_char(out, '0');
    } else if n < 1000 {
        push_char(out, '0');
    }
    push_dec(n, out);
    proof {
        assert(out@ =~= old(out)@ + pad4(n as nat));
    }
}

/// Decimal rendering of `n` as a fresh string.
pub fn u64_to_string(n: u64) -> (r: String)
    ensures
        r@ == dec_str(n as nat),
{
    let mut s = String::new();
    push_dec(n, &mut s);
    proof {
        assert(s@ =~= dec_str(n as nat));
    }
    s
}

} // verus!
