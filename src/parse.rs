use vstd::prelude::*;

use crate::util::is_digit;

verus! {

pub open spec fn digit_value(c: char) -> int {
    c as int - '0' as int
}

/// The number a run of decimal digits writes.
pub open spec fn digits_value(s: Seq<char>) -> int
    decreases s.len(),
{
    if s.len() == 0 {
        0
    } else {
        digits_value(s.drop_last()) * 10 + digit_value(s.last())
    }
}

pub open spec fn all_digits(s: Seq<char>) -> bool {
    forall|i: int| 0 <= i < s.len() ==> is_digit(#[trigger] s[i])
}

/// The `i32` that `s` writes in decimal: an optional sign, then at least one
/// digit, nothing else, and a value in range.
pub open spec fn i32_value(s: Seq<char>) -> Option<i32> {
    let signed = s.len() > 0 && (s[0] == '-' || s[0] == '+');
    let body = if signed {
        s.drop_first()
    } else {
        s
    };
    let v = if signed && s[0] == '-' {
        -digits_value(body)
    } else {
        digits_value(body)
    };
    if body.len() == 0 || !all_digits(body) || v < i32::MIN || v > i32::MAX {
        None
    } else {
        Some(v as i32)
    }
}

/// The index of the first comma of `s` from `from` on, or its length.
pub open spec fn next_comma(s: Seq<char>, from: int) -> int
    decreases s.len() - from,
{
    if from >= s.len() {
        s.len() as int
    } else if s[from] == ',' {
        from
    } else {
        next_comma(s, from + 1)
    }
}

/// The numbers of the comma-separated pieces of `s` from `start` on; `None`
/// when one piece is no `i32`.
pub open spec fn pieces_value(s: Seq<char>, start: int) -> Option<Seq<i32>>
    decreases s.len() - start,
{
    if start < 0 || start > s.len() {
        None
    } else {
        let e = next_comma(s, start);
        match i32_value(s.subrange(start, e)) {
            None => None,
            Some(x) => if e < start || e >= s.len() {
                Some(seq![x])
            } else {
                match pieces_value(s, e + 1) {
                    Some(rest) => Some(seq![x] + rest),
                    None => None,
                }
            },
        }
    }
}

/// The ids a comma-separated list writes: none for the empty text, `None`
/// when a piece is no `i32`.
pub open spec fn id_list_value(s: Seq<char>) -> Option<Seq<i32>> {
    if s.len() == 0 {
        Some(Seq::empty())
    } else {
        pieces_value(s, 0)
    }
}

proof fn lemma_next_comma(s: Seq<char>, from: int)
    requires
        0 <= from <= s.len(),
    ensures
        from <= next_comma(s, from) <= s.len(),
        next_comma(s, from) < s.len() ==> s[next_comma(s, from)] == ',',
        forall|i: int| from <= i < next_comma(s, from) ==> #[trigger] s[i] != ',',
    decreases s.len() - from,
{
    if from < s.len() && s[from] != ',' {
        lemma_next_comma(s, from + 1);
    }
}

/// The `i32` that characters `start..end` of `s` write, as `str::parse`
/// reads it.
pub fn parse_i32(s: &str, start: usize, end: usize) -> (r: Option<i32>)
    requires
        start <= end <= s@.len(),
    ensures
        r == i32_value(s@.subrange(start as int, end as int)),
{
    let ghost sub = s@.subrange(start as int, end as int);
    if start == end {
        return None;
    }
    let c0 = s.get_char(start);
    assert(sub[0] == s@[start as int]);
    let signed = c0 == '-' || c0 == '+';
    let negative = c0 == '-';
    let first: usize = if signed {
        start + 1
    } else {
        start
    };
    let ghost body = s@.subrange(first as int, end as int);
    assert(body =~= (if signed {
        sub.drop_first()
    } else {
        sub
    }));
    if first == end {
        return None;
    }
    let mut acc: u64 = 0;
    let mut big = false;
    let mut i = first;
    while i < end
        invariant
            first <= i <= end <= s@.len(),
            body == s@.subrange(first as int, end as int),
            sub == s@.subrange(start as int, end as int),
            sub.len() > 0 && sub[0] == c0,
            signed == (c0 == '-' || c0 == '+'),
            first == (if signed { start + 1 } else { start as int }),
            body == (if signed { sub.drop_first() } else { sub }),
            all_digits(s@.subrange(first as int, i as int)),
            !big ==> acc == digits_value(s@.subrange(first as int, i as int)) && acc <= 2147483648,
            big ==> digits_value(s@.subrange(first as int, i as int)) > 2147483648,
            digits_value(s@.subrange(first as int, i as int)) >= 0,
        decreases end - i,
    {
        let c = s.get_char(i);
        let ghost pre = s@.subrange(first as int, i as int);
        let ghost next = s@.subrange(first as int, i + 1);
        assert(next.drop_last() =~= pre);
        assert(next.last() == c);
        if !('0' <= c && c <= '9') {
            assert(body[i - first] == c);
            assert(!is_digit(body[i - first]));
            assert(!all_digits(body));
            return None;
        }
        assert forall|j: int| 0 <= j < next.len() implies is_digit(#[trigger] next[j]) by {
            if j < pre.len() {
                assert(next[j] == pre[j]);
            }
        }
        if !big {
            let d = (c as u32 - '0' as u32) as u64;
            acc = acc * 10 + d;
            if acc > 2147483648 {
                big = true;
            }
        }
        i += 1;
    }
    assert(s@.subrange(first as int, i as int) =~= body);
    if big {
        return None;
    }
    if negative {
        Some((0 - (acc as i64)) as i32)
    } else if acc > 2147483647 {
        None
    } else {
        Some(acc as i32)
    }
}

/// The ids of a comma-separated list such as `"3,14,15"`; an empty text is
/// the empty list, and a piece that is no `i32` voids the whole.
pub fn parse_id_list(s: &str) -> (r: Option<Vec<i32>>)
    ensures
        match r {
            Some(v) => id_list_value(s@) == Some(v@),
            None => id_list_value(s@) == None::<Seq<i32>>,
        },
{
    let n = s.unicode_len();
    let mut out: Vec<i32> = Vec::new();
    if n == 0 {
        assert(out@ =~= Seq::<i32>::empty());
        return Some(out);
    }
    let mut start: usize = 0;
    loop
        invariant
            n == s@.len(),
            n > 0,
            start <= n,
            id_list_value(s@) == (match pieces_value(s@, start as int) {
                Some(rest) => Some(out@ + rest),
                None => None,
            }),
        decreases n - start,
    {
        proof {
            lemma_next_comma(s@, start as int);
        }
        let mut e = start;
        while e < n && s.get_char(e) != ','
            invariant
                start <= e <= n,
                n == s@.len(),
                next_comma(s@, start as int) == next_comma(s@, e as int),
            decreases n - e,
        {
            e += 1;
        }
        assert(e == next_comma(s@, start as int));
        match parse_i32(s, start, e) {
            None => {
                return None;
            },
            Some(x) => {
                let ghost before = out@;
                out.push(x);
                if e >= n {
                    assert(pieces_value(s@, start as int) == Some(seq![x]));
                    assert(before + seq![x] =~= out@);
                    return Some(out);
                }
                proof {
                    match pieces_value(s@, e + 1) {
                        Some(rest) => {
                            assert(before + (seq![x] + rest) =~= out@ + rest);
                        },
                        None => {},
                    }
                }
                start = e + 1;
            },
        }
    }
}

} // verus!
