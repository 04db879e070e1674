//! Pure text helpers: segment extraction around a separator, comparison
//! that inspects every character, and decimal rendering of integers.

use vstd::prelude::*;
use vstd::string::*;

verus! {

/// Everything after the last occurrence of `sep`; the whole sequence when
/// `sep` does not occur.
pub open spec fn tail_after(s: Seq<char>, sep: char) -> Seq<char>
    decreases s.len(),
{
    if s.len() == 0 {
        s
    } else if s.last() == sep {
        Seq::empty()
    } else {
        tail_after(s.drop_last(), sep).push(s.last())
    }
}

/// Everything before the first occurrence of `sep`; the whole sequence when
/// `sep` does not occur.
pub open spec fn head_before(s: Seq<char>, sep: char) -> Seq<char>
    decreases s.len(),
{
    if s.len() == 0 {
        s
    } else if s[0] == sep {
        Seq::empty()
    } else {
        seq![s[0]] + head_before(s.drop_first(), sep)
    }
}

proof fn lemma_tail_after_no_sep(s: Seq<char>, sep: char)
    requires
        forall|k: int| 0 <= k < s.len() ==> s[k] != sep,
    ensures
        tail_after(s, sep) == s,
    decreases s.len(),
{
    if s.len() > 0 {
        lemma_tail_after_no_sep(s.drop_last(), sep);
        assert(tail_after(s, sep) =~= s);
    }
}

proof fn lemma_tail_after_cut(s: Seq<char>, sep: char, m: int)
    requires
        0 <= m < s.len(),
        s[m] == sep,
        forall|k: int| m < k < s.len() ==> s[k] != sep,
    ensures
        tail_after(s, sep) == s.subrange(m + 1, s.len() as int),
    decreases s.len(),
{
    if m == s.len() - 1 {
        assert(tail_after(s, sep) =~= s.subrange(m + 1, s.len() as int));
    } else {
        lemma_tail_after_cut(s.drop_last(), sep, m);
        assert(s.drop_last().subrange(m + 1, s.len() - 1).push(s.last()) =~= s.subrange(
            m + 1,
            s.len() as int,
        ));
    }
}

/// The last `sep`-delimited segment of `s`, as a fresh string.
pub fn tail_after_last(s: &str, sep: char) -> (r: String)
    ensures
        r@ == tail_after(s@, sep),
{
    let n = s.unicode_len();
    let mut j = n;
    let mut cut: usize = 0;
    let mut found = false;
    while j > 0 && !found
        invariant
            0 <= j <= n,
            n == s@.len(),
            !found ==> cut == 0 && forall|k: int| j <= k < n ==> s@[k] != sep,
            found ==> cut >= 1 && j == cut && s@[cut - 1] == sep && forall|k: int|
                cut <= k < n ==> s@[k] != sep,
        decreases j + (if found { 0int } else { 1int }),
    {
        if s.get_char(j - 1) == sep {
            cut = j;
            found = true;
        } else {
            j = j - 1;
        }
    }
    proof {
        if found {
            lemma_tail_after_cut(s@, sep, cut - 1);
        } else {
            lemma_tail_after_no_sep(s@, sep);
            assert(s@.subrange(0, n as int) =~= s@);
        }
    }
    let piece = s.substring_char(cut, n);
    String::from_str(piece)
}

proof fn lemma_head_before_no_sep(s: Seq<char>, sep: char)
    requires
        forall|k: int| 0 <= k < s.len() ==> s[k] != sep,
    ensures
        head_before(s, sep) == s,
    decreases s.len(),
{
    if s.len() > 0 {
        lemma_head_before_no_sep(s.drop_first(), sep);
        assert(head_before(s, sep) =~= s);
    }
}

proof fn lemma_head_before_cut(s: Seq<char>, sep: char, m: int)
    requires
        0 <= m < s.len(),
        s[m] == sep,
        forall|k: int| 0 <= k < m ==> s[k] != sep,
    ensures
        head_before(s, sep) == s.subrange(0, m),
    decreases s.len(),
{
    if m == 0 {
        assert(head_before(s, sep) =~= s.subrange(0, 0));
    } else {
        lemma_head_before_cut(s.drop_first(), sep, m - 1);
        assert(seq![s[0]] + s.drop_first().subrange(0, m - 1) =~= s.subrange(0, m));
    }
}

/// The first `sep`-delimited segment of `s`, as a fresh string.
pub fn head_before_first(s: &str, sep: char) -> (r: String)
    ensures
        r@ == head_before(s@, sep),
{
    let n = s.unicode_len();
    let mut i: usize = 0;
    let mut found = false;
    while i < n && !found
        invariant
            0 <= i <= n,
            n == s@.len(),
            forall|k: int| 0 <= k < i ==> s@[k] != sep,
            found ==> i < n && s@[i as int] == sep,
        decreases n - i + (if found { 0int } else { 1int }),
    {
        if s.get_char(i) == sep {
            found = true;
        } else {
            i = i + 1;
        }
    }
    proof {
        if found {
            lemma_head_before_cut(s@, sep, i as int);
        } else {
            lemma_head_before_no_sep(s@, sep);
            assert(s@.subrange(0, n as int) =~= s@);
        }
    }
    let piece = s.substring_char(0, i);
    String::from_str(piece)
}

/// Character-for-character equality that inspects every position of the
/// shorter string rather than stopping at the first difference, so the
/// work done does not depend on where the strings diverge.
pub fn eq_verbatim(a: &str, b: &str) -> (r: bool)
    ensures
        r == (a@ == b@),
{
    let na = a.unicode_len();
    let nb = b.unicode_len();
    let n = if na < nb {
        na
    } else {
        nb
    };
    let mut diff = na != nb;
    let mut i: usize = 0;
    while i < n
        invariant
            0 <= i <= n,
            na == a@.len(),
            nb == b@.len(),
            n == if na < nb {
                na
            } else {
                nb
            },
            diff == (na != nb || exists|k: int| 0 <= k < i && a@[k] != b@[k]),
        decreases n - i,
    {
        let ca = a.get_char(i);
        let cb = b.get_char(i);
        diff = diff || ca != cb;
        i = i + 1;
    }
    proof {
        if !diff {
            assert(a@ =~= b@);
        }
    }
    !diff
}

/// The decimal digit characters.
pub open spec fn digit_char(d: nat) -> char {
    if d == 0 {
        '0'
    } else if d == 1 {
        '1'
    } else if d == 2 {
        '2'
    } else if d == 3 {
        '3'
    } else if d == 4 {
        '4'
    } else if d == 5 {
        '5'
    } else if d == 6 {
        '6'
    } else if d == 7 {
        '7'
    } else if d == 8 {
        '8'
    } else {
        '9'
    }
}

/// The decimal rendering of `n`, without sign or leading zeroes.
pub open spec fn dec_digits(n: nat) -> Seq<char>
    decreases n,
{
    if n < 10 {
        seq![digit_char(n)]
    } else {
        dec_digits(n / 10).push(digit_char(n % 10))
    }
}

fn digit_str(d: u32) -> (r: &'static str)
    requires
        d < 10,
    ensures
        r@ == seq![digit_char(d as nat)],
{
    proof {
        reveal_strlit("0");
        reveal_strlit("1");
        reveal_strlit("2");
        reveal_strlit("3");
        reveal_strlit("4");
        reveal_strlit("5");
        reveal_strlit("6");
        reveal_strlit("7");
        reveal_strlit("8");
        reveal_strlit("9");
    }
    match d {
        0 => "0",
        1 => "1",
        2 => "2",
        3 => "3",
        4 => "4",
        5 => "5",
        6 => "6",
        7 => "7",
        8 => "8",
        _ => "9",
    }
}

/// Renders `n` in decimal.
pub fn u32_to_dec(n: u32) -> (r: String)
    ensures
        r@ == dec_digits(n as nat),
    decreases n,
{
    if n < 10 {
        String::from_str(digit_str(n))
    } else {
        let mut s = u32_to_dec(n / 10);
        s.append(digit_str(n % 10));
        proof {
            assert(dec_digits((n / 10) as nat).push(digit_char((n % 10) as nat)) =~= dec_digits(
                (n / 10) as nat,
            ) + seq![digit_char((n % 10) as nat)]);
        }
        s
    }
}


} // verus!
