//! Splitting and number parsing over character sequences, with the
//! meaning of the corresponding `str` methods stated as spec functions.
use vstd::prelude::*;
use crate::text::{is_ws, is_whitespace, slice_vec};

verus! {

/// The pieces of `s` between occurrences of `c` (`str::split` with a
/// character pattern): always at least one piece.
pub open spec fn split_on(s: Seq<char>, c: char) -> Seq<Seq<char>>
    decreases s.len(),
{
    if s.len() == 0 {
        seq![Seq::<char>::empty()]
    } else {
        let prev = split_on(s.drop_last(), c);
        if s.last() == c {
            prev.push(Seq::<char>::empty())
        } else {
            prev.update(prev.len() - 1, prev.last().push(s.last()))
        }
    }
}

/// At most `n` pieces of `s` between occurrences of `c`, the last piece
/// holding the rest (`str::splitn` with a character pattern, `n >= 1`).
pub open spec fn splitn_on(s: Seq<char>, c: char, n: nat) -> Seq<Seq<char>>
    decreases s.len(),
{
    if s.len() == 0 {
        seq![Seq::<char>::empty()]
    } else {
        let prev = splitn_on(s.drop_last(), c, n);
        if s.last() == c && prev.len() < n {
            prev.push(Seq::<char>::empty())
        } else {
            prev.update(prev.len() - 1, prev.last().push(s.last()))
        }
    }
}

pub proof fn lemma_split_len(s: Seq<char>, c: char)
    ensures
        split_on(s, c).len() >= 1,
    decreases s.len(),
{
    if s.len() > 0 {
        lemma_split_len(s.drop_last(), c);
    }
}

pub proof fn lemma_splitn_len(s: Seq<char>, c: char, n: nat)
    requires
        n >= 1,
    ensures
        1 <= splitn_on(s, c, n).len() <= n,
    decreases s.len(),
{
    if s.len() > 0 {
        lemma_splitn_len(s.drop_last(), c, n);
    }
}

/// The views of a vector of character vectors.
pub open spec fn views(v: Seq<Vec<char>>) -> Seq<Seq<char>> {
    v.map_values(|x: Vec<char>| x@)
}

/// Splits `s` at every occurrence of `c`.
pub fn split_char(s: &[char], c: char) -> (out: Vec<Vec<char>>)
    ensures
        views(out@) == split_on(s@, c),
        out@.len() >= 1,
{
    let mut pieces: Vec<Vec<char>> = Vec::new();
    let mut cur: Vec<char> = Vec::new();
    let mut i: usize = 0;
    while i < s.len()
        invariant
            0 <= i <= s@.len(),
            views(pieces@).push(cur@) == split_on(s@.take(i as int), c),
        decreases s@.len() - i,
    {
        proof {
            lemma_split_len(s@.take(i as int), c);
        }
        assert(s@.take(i + 1).drop_last() =~= s@.take(i as int));
        if s[i] == c {
            let done = cur;
            pieces.push(done);
            cur = Vec::new();
            assert(views(pieces@).push(cur@) =~= split_on(s@.take(i + 1), c));
        } else {
            cur.push(s[i]);
            assert(views(pieces@).push(cur@) =~= split_on(s@.take(i + 1), c));
        }
        i = i + 1;
    }
    pieces.push(cur);
    assert(s@.take(s@.len() as int) =~= s@);
    assert(views(pieces@) =~= split_on(s@, c));
    pieces
}

/// Splits `s` into at most `n` pieces at occurrences of `c`.
pub fn splitn_char(s: &[char], c: char, n: usize) -> (out: Vec<Vec<char>>)
    requires
        n >= 1,
    ensures
        views(out@) == splitn_on(s@, c, n as nat),
        1 <= out@.len() <= n,
{
    let mut pieces: Vec<Vec<char>> = Vec::new();
    let mut cur: Vec<char> = Vec::new();
    let mut i: usize = 0;
    while i < s.len()
        invariant
            n >= 1,
            0 <= i <= s@.len(),
            views(pieces@).push(cur@) == splitn_on(s@.take(i as int), c, n as nat),
        decreases s@.len() - i,
    {
        proof {
            lemma_splitn_len(s@.take(i as int), c, n as nat);
        }
        assert(s@.take(i + 1).drop_last() =~= s@.take(i as int));
        if s[i] == c && pieces.len() + 1 < n {
            let done = cur;
            pieces.push(done);
            cur = Vec::new();
            assert(views(pieces@).push(cur@) =~= splitn_on(s@.take(i + 1), c, n as nat));
        } else {
            cur.push(s[i]);
            assert(views(pieces@).push(cur@) =~= splitn_on(s@.take(i + 1), c, n as nat));
        }
        i = i + 1;
    }
    pieces.push(cur);
    assert(s@.take(s@.len() as int) =~= s@);
    assert(views(pieces@) =~= splitn_on(s@, c, n as nat));
    proof {
        lemma_splitn_len(s@, c, n as nat);
    }
    pieces
}

/// A line without the carriage return that ended it.
pub open spec fn strip_cr(l: Seq<char>) -> Seq<char> {
    if l.len() > 0 && l.last() == '\r' {
        l.drop_last()
    } else {
        l
    }
}

/// The lines of `s` (`str::lines`): split at `\n`, a `\r` before that `\n`
/// removed, and no empty line after a final `\n`.
pub open spec fn lines_of(s: Seq<char>) -> Seq<Seq<char>> {
    let parts = split_on(s, '\n');
    let init = parts.drop_last().map_values(|l: Seq<char>| strip_cr(l));
    if parts.last().len() == 0 {
        init
    } else {
        init.push(parts.last())
    }
}

/// The lines of `s`.
pub fn lines(s: &[char]) -> (out: Vec<Vec<char>>)
    ensures
        views(out@) == lines_of(s@),
{
    let parts = split_char(s, '\n');
    let ghost p = split_on(s@, '\n');
    let mut out: Vec<Vec<char>> = Vec::new();
    let mut i: usize = 0;
    let last = parts.len() - 1;
    while i < last
        invariant
            last == parts@.len() - 1,
            views(parts@) == p,
            0 <= i <= last,
            out@.len() == i,
            forall|k: int| 0 <= k < i ==> out@[k]@ == strip_cr(p[k]),
        decreases last - i,
    {
        let piece = &parts[i];
        assert(piece@ == p[i as int]);
        let n = piece.len();
        let line = if n > 0 && piece[n - 1] == '\r' {
            slice_vec(piece, 0, n - 1)
        } else {
            slice_vec(piece, 0, n)
        };
        assert(line@ =~= strip_cr(p[i as int]));
        out.push(line);
        i = i + 1;
    }
    let ghost init = p.drop_last().map_values(|l: Seq<char>| strip_cr(l));
    assert(views(out@) =~= init);
    let tail = &parts[last];
    assert(tail@ == p.last());
    if tail.len() > 0 {
        let t = slice_vec(tail, 0, tail.len());
        assert(t@ =~= p.last());
        let ghost before = out@;
        out.push(t);
        assert(out@ =~= before.push(t));
        assert(views(out@) =~= views(before).push(t@));
    }
    out
}

/// The white-space separated words of `s` (`str::split_whitespace`).
pub open spec fn words(s: Seq<char>) -> Seq<Seq<char>>
    decreases s.len(),
{
    if s.len() == 0 {
        Seq::empty()
    } else {
        let prev = words(s.drop_last());
        if is_ws(s.last()) {
            prev
        } else if s.len() >= 2 && !is_ws(s[s.len() - 2]) {
            prev.update(prev.len() - 1, prev.last().push(s.last()))
        } else {
            prev.push(seq![s.last()])
        }
    }
}

pub proof fn lemma_words_nonempty(s: Seq<char>)
    requires
        s.len() > 0,
        !is_ws(s.last()),
    ensures
        words(s).len() >= 1,
    decreases s.len(),
{
    if s.len() >= 2 && !is_ws(s[s.len() - 2]) {
        assert(s.drop_last().last() == s[s.len() - 2]);
        lemma_words_nonempty(s.drop_last());
    }
}

/// Splits `s` into its white-space separated words.
pub fn split_whitespace(s: &[char]) -> (out: Vec<Vec<char>>)
    ensures
        views(out@) == words(s@),
        forall|k: int| 0 <= k < out@.len() ==> out@[k]@.len() > 0,
{
    let mut pieces: Vec<Vec<char>> = Vec::new();
    let mut cur: Vec<char> = Vec::new();
    let mut i: usize = 0;
    while i < s.len()
        invariant
            0 <= i <= s@.len(),
            forall|k: int| 0 <= k < pieces@.len() ==> pieces@[k]@.len() > 0,
            i > 0 && !is_ws(s@[i - 1]) ==> cur@.len() > 0 && views(pieces@).push(cur@) == words(
                s@.take(i as int),
            ),
            !(i > 0 && !is_ws(s@[i - 1])) ==> cur@.len() == 0 && views(pieces@) == words(
                s@.take(i as int),
            ),
        decreases s@.len() - i,
    {
        assert(s@.take(i + 1).drop_last() =~= s@.take(i as int));
        let ch = s[i];
        if is_whitespace(ch) {
            if cur.len() > 0 {
                let done = cur;
                pieces.push(done);
                cur = Vec::new();
            }
            assert(views(pieces@) =~= words(s@.take(i + 1)));
        } else {
            let ghost t = s@.take(i + 1);
            assert(t.last() == ch);
            if i > 0 && !is_whitespace(s[i - 1]) {
                assert(t[t.len() - 2] == s@[i - 1]);
                let ghost prev = words(s@.take(i as int));
                assert(prev == views(pieces@).push(cur@));
                assert(words(t) == prev.update(prev.len() - 1, prev.last().push(ch)));
                cur.push(ch);
                assert(views(pieces@).push(cur@) =~= words(t));
            } else {
                assert(cur@.len() == 0);
                assert(words(t) == words(s@.take(i as int)).push(seq![ch]));
                cur.push(ch);
                assert(cur@ =~= seq![ch]);
                assert(views(pieces@).push(cur@) =~= words(t));
            }
        }
        i = i + 1;
    }
    assert(s@.take(s@.len() as int) =~= s@);
    if cur.len() > 0 {
        pieces.push(cur);
        assert(views(pieces@) =~= words(s@));
    } else {
        assert(views(pieces@) =~= words(s@));
    }
    pieces
}

/// An ASCII decimal digit.
pub open spec fn is_digit(c: char) -> bool {
    48 <= c as u32 <= 57
}

/// Every character of `s` is a decimal digit.
pub open spec fn all_digits(s: Seq<char>) -> bool {
    forall|i: int| 0 <= i < s.len() ==> is_digit(s[i])
}

/// The value of a run of decimal digits.
pub open spec fn digits_value(s: Seq<char>) -> nat
    decreases s.len(),
{
    if s.len() == 0 {
        0
    } else {
        digits_value(s.drop_last()) * 10 + ((s.last() as u32 - 48) as nat)
    }
}

/// The digits of an unsigned number: an optional leading `+` removed.
pub open spec fn unsigned_digits(s: Seq<char>) -> Seq<char> {
    if s.len() > 0 && s[0] == '+' {
        s.drop_first()
    } else {
        s
    }
}

/// What `str::parse` gives for an unsigned integer type whose largest value
/// is `max`: an optional `+`, then at least one digit, and nothing else.
pub open spec fn parse_unsigned(s: Seq<char>, max: nat) -> Option<nat> {
    let d = unsigned_digits(s);
    if d.len() > 0 && all_digits(d) && digits_value(d) <= max {
        Some(digits_value(d))
    } else {
        None
    }
}

/// What `str::parse` gives for a signed integer type ranging over
/// `-min_mag ..= max`: an optional sign, then at least one digit.
pub open spec fn parse_signed(s: Seq<char>, min_mag: nat, max: nat) -> Option<int> {
    if s.len() > 0 && s[0] == '-' {
        let d = s.drop_first();
        if d.len() > 0 && all_digits(d) && digits_value(d) <= min_mag {
            Some(-(digits_value(d) as int))
        } else {
            None
        }
    } else {
        match parse_unsigned(s, max) {
            Some(v) => Some(v as int),
            None => None,
        }
    }
}

/// Value of the digits `s[from..]`, with `None` when a character is not a
/// digit, there is no digit, or the value exceeds `max`.
fn digits_in_range(s: &[char], from: usize, max: u64) -> (r: Option<u64>)
    requires
        from <= s@.len(),
    ensures
        ({
            let d = s@.skip(from as int);
            r == (if d.len() > 0 && all_digits(d) && digits_value(d) <= max {
                Some(digits_value(d) as u64)
            } else {
                None::<u64>
            })
        }),
{
    let ghost d = s@.skip(from as int);
    if from == s.len() {
        return None;
    }
    let cap: u128 = max as u128 + 1;
    let mut acc: u128 = 0;
    let mut i: usize = from;
    while i < s.len()
        invariant
            from <= i <= s@.len(),
            d == s@.skip(from as int),
            cap == max + 1,
            forall|k: int| from <= k < i ==> is_digit(s@[k]),
            acc == (if digits_value(d.take(i - from)) < cap {
                digits_value(d.take(i - from))
            } else {
                cap as nat
            }),
        decreases s@.len() - i,
    {
        let c = s[i];
        let u = c as u32;
        if u < 48 || u > 57 {
            assert(!is_digit(d[i - from]));
            return None;
        }
        let ghost prev = digits_value(d.take(i - from));
        assert(d.take(i + 1 - from).drop_last() =~= d.take(i - from));
        assert(d.take(i + 1 - from).last() == c);
        let dig = (u - 48) as u128;
        let next = acc * 10 + dig;
        assert(digits_value(d.take(i + 1 - from)) == prev * 10 + dig);
        assert((if prev * 10 + dig < cap { prev * 10 + dig } else { cap as int }) == (if next
            < cap {
            next as int
        } else {
            cap as int
        })) by (nonlinear_arith)
            requires
                acc == (if prev < cap {
                    prev as int
                } else {
                    cap as int
                }),
                next == acc * 10 + dig,
                cap >= 1,
                0 <= dig < 10,
        ;
        acc = if next < cap {
            next
        } else {
            cap
        };
        i = i + 1;
    }
    assert(d.take(i - from) =~= d);
    if acc < cap {
        Some(acc as u64)
    } else {
        None
    }
}

/// `str::parse` into an unsigned type whose largest value is `max`.
pub fn parse_unsigned_exec(s: &[char], max: u64) -> (r: Option<u64>)
    ensures
        r == (match parse_unsigned(s@, max as nat) {
            Some(v) => Some(v as u64),
            None => None::<u64>,
        }),
{
    if s.len() > 0 && s[0] == '+' {
        assert(s@.skip(1) =~= s@.drop_first());
        digits_in_range(s, 1, max)
    } else {
        assert(s@.skip(0) =~= s@);
        digits_in_range(s, 0, max)
    }
}

/// `str::parse::<u32>`.
pub fn parse_u32(s: &[char]) -> (r: Option<u32>)
    ensures
        r == (match parse_unsigned(s@, u32::MAX as nat) {
            Some(v) => Some(v as u32),
            None => None::<u32>,
        }),
{
    match parse_unsigned_exec(s, u32::MAX as u64) {
        Some(v) => Some(v as u32),
        None => None,
    }
}

/// `str::parse::<u64>`.
pub fn parse_u64(s: &[char]) -> (r: Option<u64>)
    ensures
        r == (match parse_unsigned(s@, u64::MAX as nat) {
            Some(v) => Some(v as u64),
            None => None::<u64>,
        }),
{
    parse_unsigned_exec(s, u64::MAX)
}

/// `str::parse::<usize>`.
pub fn parse_usize(s: &[char]) -> (r: Option<usize>)
    ensures
        r == (match parse_unsigned(s@, usize::MAX as nat) {
            Some(v) => Some(v as usize),
            None => None::<usize>,
        }),
{
    match parse_unsigned_exec(s, usize::MAX as u64) {
        Some(v) => Some(v as usize),
        None => None,
    }
}

/// `str::parse::<u8>`.
pub fn parse_u8(s: &[char]) -> (r: Option<u8>)
    ensures
        r == (match parse_unsigned(s@, u8::MAX as nat) {
            Some(v) => Some(v as u8),
            None => None::<u8>,
        }),
{
    match parse_unsigned_exec(s, u8::MAX as u64) {
        Some(v) => Some(v as u8),
        None => None,
    }
}

/// `str::parse::<i32>`.
pub fn parse_i32(s: &[char]) -> (r: Option<i32>)
    ensures
        r == (match parse_signed(s@, 0x8000_0000, i32::MAX as nat) {
            Some(v) => Some(v as i32),
            None => None::<i32>,
        }),
{
    if s.len() > 0 && s[0] == '-' {
        assert(s@.skip(1) =~= s@.drop_first());
        match digits_in_range(s, 1, 0x8000_0000u64) {
            Some(m) => Some((0i64 - m as i64) as i32),
            None => None,
        }
    } else {
        match parse_unsigned_exec(s, i32::MAX as u64) {
            Some(v) => Some(v as i32),
            None => None,
        }
    }
}

} // verus!
