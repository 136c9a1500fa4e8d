use vstd::prelude::*;
use crate::http_url::{HttpUrl, HttpUrlView, query_pairs_of};

verus! {

pub open spec fn is_digit(c: char) -> bool {
    '0' <= c <= '9'
}

pub open spec fn digit_value(c: char) -> int {
    (c as u32) - ('0' as u32)
}

/// The value of a string of decimal digits
pub open spec fn decimal_value(s: Seq<char>) -> int
    decreases s.len(),
{
    if s.len() == 0 {
        0
    } else {
        decimal_value(s.drop_last()) * 10 + digit_value(s.last())
    }
}

/// The digits of an unsigned integer literal: an optional leading `+` is
/// dropped
pub open spec fn unsigned_digits(s: Seq<char>) -> Seq<char> {
    if s.len() > 0 && s[0] == '+' {
        s.drop_first()
    } else {
        s
    }
}

/// What `str::parse::<u64>` returns on `s`: the value of an optional `+`
/// followed by one or more decimal digits, if it fits in a `u64`
pub open spec fn parse_u64_spec(s: Seq<char>) -> Option<u64> {
    let d = unsigned_digits(s);
    if d.len() > 0 && (forall|i: int| 0 <= i < d.len() ==> is_digit(#[trigger] d[i])) && decimal_value(d)
        <= u64::MAX {
        Some(decimal_value(d) as u64)
    } else {
        None
    }
}

proof fn lemma_decimal_value_nonneg(s: Seq<char>)
    requires
        forall|i: int| 0 <= i < s.len() ==> is_digit(#[trigger] s[i]),
    ensures
        decimal_value(s) >= 0,
    decreases s.len(),
{
    if s.len() > 0 {
        assert forall|i: int| 0 <= i < s.drop_last().len() implies is_digit(#[trigger] s.drop_last()[i]) by {
            assert(s.drop_last()[i] == s[i]);
        }
        lemma_decimal_value_nonneg(s.drop_last());
    }
}

/// Parse a decimal unsigned integer, as `str::parse::<u64>` does
pub fn parse_u64(s: &str) -> (r: Option<u64>)
    ensures
        r == parse_u64_spec(s@),
{
    let n = s.unicode_len();
    let mut start: usize = 0;
    if n > 0 && s.get_char(0) == '+' {
        start = 1;
    }
    let ghost d = unsigned_digits(s@);
    assert(d == s@.subrange(start as int, n as int));
    if start == n {
        assert(d.len() == 0);
        return None;
    }
    let mut acc: u64 = 0;
    let mut overflow = false;
    let mut i: usize = start;
    while i < n
        invariant
            n == s@.len(),
            start <= i <= n,
            d == s@.subrange(start as int, n as int),
            d == unsigned_digits(s@),
            forall|j: int| start <= j < i ==> is_digit(#[trigger] s@[j]),
            !overflow ==> acc as int == decimal_value(s@.subrange(start as int, i as int)),
            overflow ==> decimal_value(s@.subrange(start as int, i as int)) > u64::MAX,
        decreases n - i,
    {
        let c = s.get_char(i);
        if !('0' <= c && c <= '9') {
            proof {
                assert(d[i - start] == c);
                assert(!is_digit(d[(i - start) as int]));
                assert(!(forall|k: int| 0 <= k < d.len() ==> is_digit(#[trigger] d[k])));
                assert(parse_u64_spec(s@) is None);
            }
            return None;
        }
        let dv = (c as u32 - '0' as u32) as u64;
        let ghost prev = s@.subrange(start as int, i as int);
        let ghost next = s@.subrange(start as int, i + 1 as int);
        proof {
            assert(next.drop_last() =~= prev);
            assert(next.last() == c);
            assert forall|j: int| 0 <= j < prev.len() implies is_digit(#[trigger] prev[j]) by {
                assert(prev[j] == s@[start + j]);
            }
            lemma_decimal_value_nonneg(prev);
        }
        if !overflow {
            if acc > (u64::MAX - dv) / 10 {
                overflow = true;
                proof {
                    assert(decimal_value(next) == acc * 10 + dv);
                    assert(acc * 10 + dv > u64::MAX) by (nonlinear_arith)
                        requires acc > (u64::MAX - dv) / 10, dv <= 9;
                }
            } else {
                proof {
                    assert(acc * 10 + dv <= u64::MAX) by (nonlinear_arith)
                        requires acc <= (u64::MAX - dv) / 10, dv <= 9;
                }
                acc = acc * 10 + dv;
            }
        } else {
            proof {
                assert(decimal_value(next) == decimal_value(prev) * 10 + dv);
            }
        }
        i = i + 1;
    }
    proof {
        assert forall|j: int| 0 <= j < d.len() implies is_digit(#[trigger] d[j]) by {
            assert(d[j] == s@[start + j]);
        }
    }
    if overflow {
        None
    } else {
        Some(acc)
    }
}

/// The value of the last `page` parameter among decoded query pairs
pub open spec fn last_page_value(pairs: Seq<(Seq<char>, Seq<char>)>) -> Option<Seq<char>>
    decreases pairs.len(),
{
    if pairs.len() == 0 {
        None
    } else if pairs.last().0 == "page"@ {
        Some(pairs.last().1)
    } else {
        last_page_value(pairs.drop_last())
    }
}

/// The page number that a URL asks for: the last `page` query parameter,
/// read as a `u64`
pub open spec fn page_number_of(v: HttpUrlView) -> Option<u64> {
    match v.query {
        None => None,
        Some(q) => match last_page_value(query_pairs_of(q)) {
            None => None,
            Some(t) => parse_u64_spec(t),
        },
    }
}

/// Extract the page number from the `page` query parameter of a URL.  If the
/// parameter occurs several times, the last occurrence is used; if it is
/// absent or not a number, `None` is returned.
pub fn get_page_number(url: &HttpUrl) -> (r: Option<u64>)
    ensures
        r == page_number_of(url@),
{
    let qo = url.query();
    if qo.is_none() {
        return None;
    }
    let q = qo.unwrap();
    assert(url@.query == Some(q@));
    let pairs = crate::http_url::query_pairs(q.as_str());
    let ghost pv = pairs@.map_values(|p: (String, String)| (p.0@, p.1@));
    let page = "page".to_owned();
    let mut i: usize = pairs.len();
    assert(pv.subrange(0, i as int) =~= pv);
    while i > 0
        invariant
            i <= pairs@.len(),
            pv == query_pairs_of(q@),
            pv == pairs@.map_values(|p: (String, String)| (p.0@, p.1@)),
            page@ == "page"@,
            url@.query == Some(q@),
            last_page_value(pv) == last_page_value(pv.subrange(0, i as int)),
        decreases i,
    {
        let ghost sub = pv.subrange(0, i as int);
        assert(sub.last() == pv[i - 1]);
        assert(pv[i - 1] == (pairs@[i - 1].0@, pairs@[i - 1].1@));
        if pairs[i - 1].0 == page {
            proof {
                assert(last_page_value(sub) == Some(pairs@[i - 1].1@));
                assert(url@.query == Some(q@));
            }
            return parse_u64(pairs[i - 1].1.as_str());
        }
        proof {
            assert(sub.drop_last() =~= pv.subrange(0, i - 1));
        }
        i = i - 1;
    }
    None
}

/// The last `page` parameter decides the page number: appending one makes
/// its value the one read, whatever came before, and appending another
/// parameter changes nothing.
pub proof fn lemma_last_page_param_wins(pairs: Seq<(Seq<char>, Seq<char>)>, key: Seq<char>, value: Seq<char>)
    ensures
        key == "page"@ ==> last_page_value(pairs.push((key, value))) == Some(value),
        key != "page"@ ==> last_page_value(pairs.push((key, value))) == last_page_value(pairs),
{
    assert(pairs.push((key, value)).drop_last() =~= pairs);
}

/// A URL without a query has no page number.
pub proof fn lemma_no_query_no_page(v: HttpUrlView)
    requires
        v.query is None,
    ensures
        page_number_of(v) is None,
{
}

} // verus!
