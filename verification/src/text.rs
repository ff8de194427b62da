//! Small text functions: finding characters, taking lines, reading numbers.
use vstd::prelude::*;
use vstd::std_specs::iter::IteratorSpec;

verus! {

broadcast use vstd::string::group_string_axioms;

/// The characters of `s`.
pub fn chars_of(s: &str) -> (v: Vec<char>)
    ensures
        v@ == s@,
{
    let mut it = s.chars();
    let mut v: Vec<char> = Vec::new();
    loop
        invariant
            v@ + it.remaining() == s@,
            it.obeys_prophetic_iter_laws(),
            it.decrease() is Some,
        decreases it.decrease()->0,
    {
        match it.next() {
            Some(c) => {
                v.push(c);
                assert(v@ + it.remaining() =~= s@);
            },
            None => {
                assert(v@ =~= s@);
                return v;
            },
        }
    }
}


/// Position `i` holds the first `c` of `s`.
pub open spec fn is_first(s: Seq<char>, c: char, i: int) -> bool {
    &&& 0 <= i < s.len()
    &&& s[i] == c
    &&& forall|j: int| 0 <= j < i ==> s[j] != c
}

/// The position of the first `c` in `s`, if any.
pub open spec fn find_char(s: Seq<char>, c: char) -> Option<int> {
    if exists|i: int| is_first(s, c, i) {
        Some(choose|i: int| is_first(s, c, i))
    } else {
        None
    }
}

/// The position of the first `c` in `v` at or after `from`, counted from
/// `from`.
pub fn find_char_from(v: &Vec<char>, from: usize, c: char) -> (r: Option<usize>)
    requires
        from <= v@.len(),
    ensures
        match r {
            Some(i) => find_char(v@.skip(from as int), c) == Some(i as int) && from + i < v@.len(),
            None => find_char(v@.skip(from as int), c) is None,
        },
{
    let ghost s = v@.skip(from as int);
    let mut k: usize = from;
    while k < v.len()
        invariant
            from <= k <= v@.len(),
            s == v@.skip(from as int),
            forall|j: int| 0 <= j < k - from ==> s[j] != c,
        decreases v@.len() - k,
    {
        if v[k] == c {
            let i = k - from;
            proof {
                assert(is_first(s, c, i as int));
                let w = choose|w: int| is_first(s, c, w);
                if w < i {
                    assert(s[w] != c);
                }
                if w > i {
                    assert(s[i as int] != c);
                }
            }
            return Some(i);
        }
        k = k + 1;
    }
    proof {
        if exists|w: int| is_first(s, c, w) {
            let w = choose|w: int| is_first(s, c, w);
            assert(s[w] != c);
        }
    }
    None
}

/// Line `k` of `s`, counting from 0, lines being separated by `\n`.
pub open spec fn nth_line(s: Seq<char>, k: nat) -> Option<Seq<char>>
    decreases k,
{
    match find_char(s, '\n') {
        None => if k == 0 {
            Some(s)
        } else {
            None
        },
        Some(i) => if k == 0 {
            Some(s.take(i))
        } else {
            nth_line(s.skip(i + 1), (k - 1) as nat)
        },
    }
}

/// Where line `k` of `v` starts and ends, if it exists.
pub fn line_bounds(v: &Vec<char>, k: usize) -> (r: Option<(usize, usize)>)
    ensures
        match r {
            Some((a, b)) => a <= b <= v@.len() && nth_line(v@, k as nat) == Some(v@.subrange(a as int, b as int)),
            None => nth_line(v@, k as nat) is None,
        },
{
    let len = v.len();
    let mut pos: usize = 0;
    let mut t: usize = 0;
    assert(v@.skip(0) =~= v@);
    while t < k
        invariant
            t <= k,
            len == v@.len(),
            pos <= v@.len(),
            nth_line(v@, k as nat) == nth_line(v@.skip(pos as int), (k - t) as nat),
        decreases k - t,
    {
        match find_char_from(v, pos, '\n') {
            None => {
                return None;
            },
            Some(i) => {
                proof {
                    assert(v@.skip(pos as int).skip(i + 1) =~= v@.skip(pos + i + 1));
                }
                pos = pos + i + 1;
                t = t + 1;
            },
        }
    }
    match find_char_from(v, pos, '\n') {
        None => {
            assert(v@.skip(pos as int) =~= v@.subrange(pos as int, v@.len() as int));
            Some((pos, v.len()))
        },
        Some(i) => {
            assert(v@.skip(pos as int).take(i as int) =~= v@.subrange(pos as int, pos + i));
            Some((pos, pos + i))
        },
    }
}

/// The value of the decimal digits `s`.
pub open spec fn digits_value(s: Seq<char>) -> int
    decreases s.len(),
{
    if s.len() == 0 {
        0
    } else {
        digits_value(s.drop_last()) * 10 + (s.last() as int - '0' as int)
    }
}

/// Whether every character of `s` is a decimal digit.
pub open spec fn all_digits(s: Seq<char>) -> bool {
    forall|i: int| 0 <= i < s.len() ==> '0' <= #[trigger] s[i] <= '9'
}

/// What `str::parse::<u32>` reads from `s`: an optional `+`, then one or
/// more decimal digits whose value fits in 32 bits.
pub open spec fn parse_u32(s: Seq<char>) -> Option<u32> {
    let body = if s.len() > 0 && s[0] == '+' {
        s.drop_first()
    } else {
        s
    };
    if body.len() > 0 && all_digits(body) && digits_value(body) <= u32::MAX {
        Some(digits_value(body) as u32)
    } else {
        None
    }
}

proof fn lemma_digits_value_nonneg(s: Seq<char>)
    requires
        all_digits(s),
    ensures
        digits_value(s) >= 0,
    decreases s.len(),
{
    if s.len() > 0 {
        assert(all_digits(s.drop_last()));
        lemma_digits_value_nonneg(s.drop_last());
    }
}

proof fn lemma_digits_value_grows(s: Seq<char>, m: int)
    requires
        all_digits(s),
        0 <= m <= s.len(),
    ensures
        digits_value(s.take(m)) <= digits_value(s),
    decreases s.len() - m,
{
    if m < s.len() {
        lemma_digits_value_grows(s, m + 1);
        assert(s.take(m + 1).drop_last() =~= s.take(m));
        assert(all_digits(s.take(m)));
        lemma_digits_value_nonneg(s.take(m));
        let d = s.take(m + 1).last() as int - '0' as int;
        assert(0 <= d <= 9);
        assert(digits_value(s.take(m + 1)) == digits_value(s.take(m)) * 10 + d);
    } else {
        assert(s.take(m) =~= s);
    }
}

/// Reads `v[a..b]` as `str::parse::<u32>` does.
pub fn parse_u32_range(v: &Vec<char>, a: usize, b: usize) -> (r: Option<u32>)
    requires
        a <= b <= v@.len(),
    ensures
        r == parse_u32(v@.subrange(a as int, b as int)),
{
    let ghost s = v@.subrange(a as int, b as int);
    let mut start = a;
    if a < b && v[a] == '+' {
        start = a + 1;
    }
    let ghost body = v@.subrange(start as int, b as int);
    proof {
        if a < b && v@[a as int] == '+' {
            assert(body =~= s.drop_first());
        } else {
            assert(body =~= s);
        }
    }
    let ghost spec_body = if s.len() > 0 && s[0] == '+' {
        s.drop_first()
    } else {
        s
    };
    assert(body == spec_body);
    if start == b {
        return None;
    }
    let mut value: u64 = 0;
    let mut k: usize = start;
    while k < b
        invariant
            start <= k <= b <= v@.len(),
            body == v@.subrange(start as int, b as int),
            body == spec_body,
            s == v@.subrange(a as int, b as int),
            spec_body == (if s.len() > 0 && s[0] == '+' {
                s.drop_first()
            } else {
                s
            }),
            all_digits(body.take(k - start)),
            value == digits_value(body.take(k - start)),
            value <= u32::MAX,
        decreases b - k,
    {
        let c = v[k];
        if !('0' <= c && c <= '9') {
            proof {
                assert(body[k - start] == c);
                assert(!all_digits(body));
            }
            return None;
        }
        proof {
            assert(body.take(k - start + 1).drop_last() =~= body.take(k - start));
            assert(body.take(k - start + 1).last() == c);
            assert(all_digits(body.take(k - start + 1)));
        }
        let d = (c as u32 - '0' as u32) as u64;
        let next = value * 10 + d;
        if next > 4294967295u64 {
            proof {
                if all_digits(body) {
                    lemma_digits_value_grows(body, k - start + 1);
                }
            }
            return None;
        }
        value = next;
        k = k + 1;
    }
    assert(body.take(b - start) =~= body);
    Some(value as u32)
}

/// The character offset of line `line`, column `col` (both counting from
/// 1) in `s`; a line past the end gives the end.
pub open spec fn lc_offset(s: Seq<char>, line: nat, col: nat) -> nat
    decreases s.len(),
{
    if line <= 1 {
        if col >= 1 {
            (col - 1) as nat
        } else {
            0
        }
    } else if s.len() == 0 {
        0
    } else if s[0] == '\n' {
        1 + lc_offset(s.drop_first(), (line - 1) as nat, col)
    } else {
        1 + lc_offset(s.drop_first(), line, col)
    }
}

/// The offset of line `line`, column `col` in `v`, or `usize::MAX` if it
/// does not fit.
pub fn from_lc(v: &Vec<char>, line: u32, col: u32) -> (r: usize)
    ensures
        r == (if lc_offset(v@, line as nat, col as nat) <= usize::MAX {
            lc_offset(v@, line as nat, col as nat) as usize
        } else {
            usize::MAX
        }),
{
    let mut i: usize = 0;
    let mut l: u32 = line;
    assert(v@.skip(0) =~= v@);
    while l > 1 && i < v.len()
        invariant
            i <= v@.len(),
            l <= line,
            lc_offset(v@, line as nat, col as nat) == i + lc_offset(v@.skip(i as int), l as nat, col as nat),
        decreases v@.len() - i,
    {
        proof {
            assert(v@.skip(i as int).drop_first() =~= v@.skip(i + 1));
        }
        if v[i] == '\n' {
            l = l - 1;
        }
        i = i + 1;
    }
    if l <= 1 {
        let c: usize = if col >= 1 { (col - 1) as usize } else { 0 };
        match i.checked_add(c) {
            Some(r) => r,
            None => usize::MAX,
        }
    } else {
        assert(v@.skip(i as int).len() == 0);
        i
    }
}

} // verus!
