//! Character and byte helpers used by the request parser and the response
//! writer, each with the mathematical definition it is proved against.
use vstd::prelude::*;

verus! {

/// The pieces of `s` between occurrences of `sep`, as `str::split` with a
/// single character yields them: `k` separators give `k + 1` pieces, some of
/// them possibly empty.
pub open spec fn split_on(s: Seq<char>, sep: char) -> Seq<Seq<char>>
    decreases s.len(),
{
    if s.len() == 0 {
        seq![Seq::empty()]
    } else {
        let init = split_on(s.drop_last(), sep);
        if s.last() == sep {
            init.push(Seq::empty())
        } else {
            init.update(init.len() - 1, init.last().push(s.last()))
        }
    }
}

/// Splitting never yields an empty list of pieces.
pub proof fn lemma_split_on_nonempty(s: Seq<char>, sep: char)
    ensures
        split_on(s, sep).len() >= 1,
    decreases s.len(),
{
    if s.len() > 0 {
        lemma_split_on_nonempty(s.drop_last(), sep);
    }
}

/// A carriage return followed by a line feed starts at index `i` of `s`.
pub open spec fn crlf_at(s: Seq<char>, i: int) -> bool {
    0 <= i && i + 1 < s.len() && s[i] == '\r' && s[i + 1] == '\n'
}

/// The part of `s` before its first `"\r\n"`; all of `s` when there is none.
/// This is the first piece of `s.split("\r\n")`.
pub open spec fn before_crlf(s: Seq<char>) -> Seq<char>
    decreases s.len(),
{
    if s.len() == 0 {
        s
    } else if crlf_at(s, 0) {
        Seq::empty()
    } else {
        seq![s[0]] + before_crlf(s.drop_first())
    }
}

/// `before_crlf` is the prefix up to the first `"\r\n"`, or the whole sequence.
pub proof fn lemma_before_crlf_prefix(s: Seq<char>, k: int)
    requires
        0 <= k <= s.len(),
        forall|j: int| 0 <= j < k ==> !crlf_at(s, j),
        k == s.len() || crlf_at(s, k),
    ensures
        before_crlf(s) == s.take(k),
    decreases k,
{
    if k == 0 {
        assert(s.take(0) =~= Seq::<char>::empty());
        if s.len() == 0 {
            assert(s =~= Seq::<char>::empty());
        }
    } else {
        assert(!crlf_at(s, 0));
        let rest = s.drop_first();
        assert forall|j: int| 0 <= j < k - 1 implies !crlf_at(rest, j) by {
            assert(!crlf_at(s, j + 1));
        }
        if k < s.len() {
            assert(crlf_at(s, k));
            assert(crlf_at(rest, k - 1));
        }
        lemma_before_crlf_prefix(rest, k - 1);
        assert(seq![s[0]] + rest.take(k - 1) =~= s.take(k));
    }
}

/// `s` ends with `suffix`.
pub open spec fn ends_with(s: Seq<char>, suffix: Seq<char>) -> bool {
    suffix.len() <= s.len() && s.subrange(s.len() - suffix.len(), s.len() as int) == suffix
}

/// The decimal digits of `n` as ASCII bytes, most significant first, with no
/// leading zero.
pub open spec fn decimal(n: nat) -> Seq<u8>
    decreases n,
{
    if n < 10 {
        seq![(48 + n) as u8]
    } else {
        decimal(n / 10).push((48 + n % 10) as u8)
    }
}

/// The number that a string of ASCII decimal digits denotes.
pub open spec fn digits_value(d: Seq<u8>) -> nat
    decreases d.len(),
{
    if d.len() == 0 {
        0
    } else {
        digits_value(d.drop_last()) * 10 + (d.last() - 48) as nat
    }
}

/// Reading back the digits that `decimal` writes gives the number again, and
/// every byte written is an ASCII digit.
pub proof fn lemma_decimal_round_trip(n: nat)
    ensures
        digits_value(decimal(n)) == n,
        decimal(n).len() >= 1,
        forall|i: int| 0 <= i < decimal(n).len() ==> 48 <= #[trigger] decimal(n)[i] <= 57,
    decreases n,
{
    let d = decimal(n);
    if n >= 10 {
        lemma_decimal_round_trip(n / 10);
        assert(d.drop_last() =~= decimal(n / 10));
        assert(d.last() == (48 + n % 10) as u8);
        assert((d.last() - 48) as nat == n % 10);
        assert(digits_value(d) == digits_value(d.drop_last()) * 10 + (d.last() - 48) as nat);
        assert(digits_value(d) == (n / 10) * 10 + n % 10);
        assert(n == (n / 10) * 10 + n % 10) by (nonlinear_arith);
    } else {
        assert(d.drop_last() =~= Seq::<u8>::empty());
        assert(d.last() == (48 + n) as u8);
        assert(digits_value(d) == digits_value(d.drop_last()) * 10 + (d.last() - 48) as nat);
    }
}

/// The characters of `s`, in order.
pub fn chars_of(s: &str) -> (chars: Vec<char>)
    ensures
        chars@ == s@,
{
    let n = s.unicode_len();
    let mut chars: Vec<char> = Vec::new();
    let mut i: usize = 0;
    while i < n
        invariant
            n == s@.len(),
            i <= n,
            chars@ == s@.take(i as int),
        decreases n - i,
    {
        let c = s.get_char(i);
        chars.push(c);
        assert(s@.take((i + 1) as int) =~= s@.take(i as int).push(c));
        i = i + 1;
    }
    assert(s@.take(n as int) =~= s@);
    chars
}

/// Whether two strings hold the same characters.
pub fn same_text(a: &str, b: &str) -> (same: bool)
    ensures
        same == (a@ == b@),
{
    let ca = chars_of(a);
    let cb = chars_of(b);
    if ca.len() != cb.len() {
        return false;
    }
    let n = ca.len();
    let mut i: usize = 0;
    while i < n
        invariant
            ca@ == a@,
            cb@ == b@,
            n == a@.len(),
            n == b@.len(),
            i <= n,
            forall|j: int| 0 <= j < i ==> a@[j] == b@[j],
        decreases n - i,
    {
        if ca[i] != cb[i] {
            return false;
        }
        i = i + 1;
    }
    assert(a@ =~= b@);
    true
}

/// Whether `s` ends with `suffix`.
pub fn text_ends_with(s: &str, suffix: &str) -> (b: bool)
    ensures
        b == ends_with(s@, suffix@),
{
    let cs = chars_of(s);
    let cx = chars_of(suffix);
    let n = cs.len();
    let m = cx.len();
    if m > n {
        return false;
    }
    let off = n - m;
    let mut i: usize = 0;
    while i < m
        invariant
            cs@ == s@,
            cx@ == suffix@,
            n == s@.len(),
            m == suffix@.len(),
            m <= n,
            off == n - m,
            i <= m,
            forall|j: int| 0 <= j < i ==> s@[off + j] == suffix@[j],
        decreases m - i,
    {
        if cs[off + i] != cx[i] {
            assert(s@.subrange(off as int, n as int)[i as int] != suffix@[i as int]);
            return false;
        }
        i = i + 1;
    }
    assert(s@.subrange(off as int, n as int) =~= suffix@);
    true
}

/// The pieces of `s` separated by `sep`, as owned strings.
pub fn split_text(s: &str, sep: char) -> (pieces: Vec<String>)
    ensures
        pieces@.map_values(|p: String| p@) == split_on(s@, sep),
{
    let chars = chars_of(s);
    let n = chars.len();
    let mut pieces: Vec<String> = Vec::new();
    let mut start: usize = 0;
    let mut i: usize = 0;
    assert(s@.take(0) =~= Seq::<char>::empty());
    assert(pieces@.map_values(|p: String| p@).push(s@.subrange(0, 0)) =~= seq![
        Seq::<char>::empty(),
    ]);
    while i < n
        invariant
            chars@ == s@,
            n == s@.len(),
            start <= i <= n,
            pieces@.map_values(|p: String| p@).push(s@.subrange(start as int, i as int))
                == split_on(s@.take(i as int), sep),
        decreases n - i,
    {
        let ghost before = pieces@.map_values(|p: String| p@);
        proof {
            assert(s@.take((i + 1) as int).drop_last() =~= s@.take(i as int));
            lemma_split_on_nonempty(s@.take(i as int), sep);
        }
        if chars[i] == sep {
            let piece = s.substring_char(start, i).to_owned();
            pieces.push(piece);
            assert(pieces@.map_values(|p: String| p@) =~= before.push(
                s@.subrange(start as int, i as int),
            ));
            assert(s@.subrange((i + 1) as int, (i + 1) as int) =~= Seq::<char>::empty());
            start = i + 1;
        } else {
            assert(s@.subrange(start as int, i as int).push(s@[i as int]) =~= s@.subrange(
                start as int,
                (i + 1) as int,
            ));
            assert(before.push(s@.subrange(start as int, i as int)).update(
                before.len() as int,
                s@.subrange(start as int, (i + 1) as int),
            ) =~= before.push(s@.subrange(start as int, (i + 1) as int)));
        }
        i = i + 1;
    }
    let ghost before = pieces@.map_values(|p: String| p@);
    let last = s.substring_char(start, n).to_owned();
    pieces.push(last);
    assert(pieces@.map_values(|p: String| p@) =~= before.push(
        s@.subrange(start as int, n as int),
    ));
    assert(s@.take(n as int) =~= s@);
    pieces
}

/// The part of `s` before its first `"\r\n"`.
pub fn text_before_crlf(s: &str) -> (r: String)
    ensures
        r@ == before_crlf(s@),
{
    let chars = chars_of(s);
    let n = chars.len();
    let mut i: usize = 0;
    while i < n
        invariant
            chars@ == s@,
            n == s@.len(),
            i <= n,
            forall|j: int| 0 <= j < i ==> !crlf_at(s@, j),
        decreases n - i,
    {
        if i + 1 < n && chars[i] == '\r' && chars[i + 1] == '\n' {
            proof {
                lemma_before_crlf_prefix(s@, i as int);
            }
            return s.substring_char(0, i).to_owned();
        }
        i = i + 1;
    }
    proof {
        lemma_before_crlf_prefix(s@, n as int);
        assert(s@.take(n as int) =~= s@);
    }
    s.to_owned()
}

/// The ASCII decimal digits of `n`.
pub fn decimal_bytes(n: usize) -> (digits: Vec<u8>)
    ensures
        digits@ == decimal(n as nat),
    decreases n,
{
    if n < 10 {
        let mut digits: Vec<u8> = Vec::new();
        digits.push(48u8 + n as u8);
        assert(digits@ =~= decimal(n as nat));
        digits
    } else {
        let mut digits = decimal_bytes(n / 10);
        digits.push(48u8 + (n % 10) as u8);
        digits
    }
}

/// Appends `bytes` to `out`.
pub fn append_bytes(out: &mut Vec<u8>, bytes: &[u8])
    ensures
        final(out)@ == old(out)@ + bytes@,
{
    let n = bytes.len();
    let mut i: usize = 0;
    while i < n
        invariant
            n == bytes@.len(),
            i <= n,
            out@ == old(out)@ + bytes@.take(i as int),
        decreases n - i,
    {
        out.push(bytes[i]);
        assert(bytes@.take((i + 1) as int) =~= bytes@.take(i as int).push(bytes@[i as int]));
        i = i + 1;
    }
    assert(bytes@.take(n as int) =~= bytes@);
}

} // verus!
