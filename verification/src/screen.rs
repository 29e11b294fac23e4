use vstd::prelude::*;

verus! {

/// The ASCII whitespace bytes that token splitting breaks on: space, tab,
/// line feed, vertical tab, form feed, carriage return.
pub open spec fn is_space(b: u8) -> bool {
    b == 32 || (9 <= b <= 13)
}

/// The first index at or after `i` holding a non-space byte, or the length.
pub open spec fn skip_spaces(s: Seq<u8>, i: int) -> int
    decreases s.len() - i when 0 <= i <= s.len()
{
    if i >= s.len() {
        s.len() as int
    } else if is_space(s[i]) {
        skip_spaces(s, i + 1)
    } else {
        i
    }
}

/// The first index at or after `i` holding a space byte, or the length.
pub open spec fn skip_token(s: Seq<u8>, i: int) -> int
    decreases s.len() - i when 0 <= i <= s.len()
{
    if i >= s.len() {
        s.len() as int
    } else if !is_space(s[i]) {
        skip_token(s, i + 1)
    } else {
        i
    }
}

pub open spec fn is_digit(b: u8) -> bool {
    48 <= b <= 57
}

/// Every byte is a decimal digit, and there is at least one.
pub open spec fn dec_digits(t: Seq<u8>) -> bool {
    &&& t.len() > 0
    &&& forall|j: int| 0 <= j < t.len() ==> is_digit(#[trigger] t[j])
}

/// The value of a string of decimal digits.
pub open spec fn dec_val(t: Seq<u8>) -> int
    decreases t.len(),
{
    if t.len() == 0 {
        0
    } else {
        dec_val(t.drop_last()) * 10 + (t.last() - 48)
    }
}

/// What `str::parse::<u32>` accepts: an optional leading plus sign, then
/// decimal digits whose value fits.
pub open spec fn parse_u32_spec(t: Seq<u8>) -> Option<u32> {
    let body = if t.len() > 0 && t[0] == 43 {
        t.subrange(1, t.len() as int)
    } else {
        t
    };
    if dec_digits(body) && dec_val(body) <= u32::MAX {
        Some(dec_val(body) as u32)
    } else {
        None
    }
}

/// The token holds exactly one 'x' byte.
pub open spec fn one_x(t: Seq<u8>) -> bool {
    exists|k: int|
        0 <= k < t.len() && t[k] == 120 && (forall|j: int|
            0 <= j < t.len() && j != k ==> t[j] != 120)
}

/// Where that one 'x' sits.
pub open spec fn x_pos(t: Seq<u8>) -> int {
    choose|k: int|
        0 <= k < t.len() && t[k] == 120 && (forall|j: int|
            0 <= j < t.len() && j != k ==> t[j] != 120)
}

/// What a screen-probe report parses to: its second whitespace-separated
/// token must be two u32 numerals joined by a single 'x', and the result is
/// that pair of dimensions.
pub open spec fn parse_dims_spec(s: Seq<u8>) -> Option<(u32, u32)> {
    let t0_start = skip_spaces(s, 0);
    let t0_end = skip_token(s, t0_start);
    let t1_start = skip_spaces(s, t0_end);
    let t1_end = skip_token(s, t1_start);
    if t1_start >= s.len() {
        None
    } else {
        let tok = s.subrange(t1_start, t1_end);
        if !one_x(tok) {
            None
        } else {
            let k = x_pos(tok);
            match (
                parse_u32_spec(tok.subrange(0, k)),
                parse_u32_spec(tok.subrange(k + 1, tok.len() as int)),
            ) {
                (Some(w), Some(h)) => Some((w, h)),
                _ => None,
            }
        }
    }
}

fn is_space_byte(b: u8) -> (r: bool)
    ensures
        r == is_space(b),
{
    b == 32 || (b >= 9 && b <= 13)
}

proof fn lemma_dec_val_nonneg(t: Seq<u8>)
    requires
        forall|j: int| 0 <= j < t.len() ==> is_digit(#[trigger] t[j]),
    ensures
        dec_val(t) >= 0,
    decreases t.len(),
{
    if t.len() > 0 {
        lemma_dec_val_nonneg(t.drop_last());
    }
}

/// A digit string's value only grows as digits are appended.
proof fn lemma_dec_val_prefix(t: Seq<u8>, k: int)
    requires
        forall|j: int| 0 <= j < t.len() ==> is_digit(#[trigger] t[j]),
        0 <= k <= t.len(),
    ensures
        dec_val(t) >= dec_val(t.subrange(0, k)),
    decreases t.len() - k,
{
    if k == t.len() {
        assert(t.subrange(0, k) =~= t);
    } else {
        lemma_dec_val_prefix(t, k + 1);
        let p = t.subrange(0, k + 1);
        assert(p.drop_last() =~= t.subrange(0, k));
        lemma_dec_val_nonneg(t.subrange(0, k));
    }
}

/// Parse the bytes of `s` from `lo` to `hi` as `str::parse::<u32>` would.
#[verifier::loop_isolation(false)]
fn parse_u32_range(s: &[u8], lo: usize, hi: usize) -> (r: Option<u32>)
    requires
        lo <= hi <= s@.len(),
    ensures
        r == parse_u32_spec(s@.subrange(lo as int, hi as int)),
{
    let ghost t = s@.subrange(lo as int, hi as int);
    let mut start: usize = lo;
    if lo < hi && s[lo] == 43 {
        start = lo + 1;
    }
    let ghost body = s@.subrange(start as int, hi as int);
    proof {
        if t.len() > 0 && t[0] == 43 {
            assert(body =~= t.subrange(1, t.len() as int));
        } else {
            assert(body =~= t);
        }
    }
    if start == hi {
        // no digits at all
        return None;
    }
    let mut acc: u64 = 0;
    let mut j: usize = start;
    while j < hi
        invariant
            start <= j <= hi <= s@.len(),
            body == s@.subrange(start as int, hi as int),
            hi > start,
            acc == dec_val(s@.subrange(start as int, j as int)),
            acc <= u32::MAX,
            forall|m: int| start <= m < j ==> is_digit(#[trigger] s@[m]),
        decreases hi - j,
    {
        let b = s[j];
        if b < 48 || b > 57 {
            // a non-digit byte: the numeral is malformed
            assert(body[j - start] == s@[j as int]);
            return None;
        }
        let d: u64 = (b - 48) as u64;
        let next: u64 = acc * 10 + d;
        proof {
            let p = s@.subrange(start as int, j as int + 1);
            assert(p.drop_last() =~= s@.subrange(start as int, j as int));
            assert(p.last() == s@[j as int]);
        }
        if next > u32::MAX as u64 {
            // the numeral overflows a u32; every longer prefix is at least
            // as large
            proof {
                assert forall|m: int| 0 <= m < body.len() implies is_digit(
                    #[trigger] body[m],
                ) || !dec_digits(body) by {}
                if dec_digits(body) {
                    assert forall|m: int| start <= m < hi implies is_digit(
                        #[trigger] s@[m],
                    ) by {
                        assert(body[m - start] == s@[m]);
                    }
                    lemma_dec_val_prefix(body, j + 1 - start as int);
                    assert(body.subrange(0, j + 1 - start as int) =~= s@.subrange(
                        start as int,
                        j as int + 1,
                    ));
                }
            }
            return None;
        }
        acc = next;
        j = j + 1;
    }
    proof {
        assert(body =~= s@.subrange(start as int, hi as int));
        assert forall|m: int| 0 <= m < body.len() implies is_digit(#[trigger] body[m]) by {
            assert(body[m] == s@[m + start]);
        }
        assert(dec_digits(body));
    }
    Some(acc as u32)
}

/// Read a screen-probe report such as `dimensions 1920x1080 pixels`: the
/// second whitespace-separated token names the dimensions, two u32 numerals
/// joined by a single 'x'. Anything else parses to nothing.
#[verifier::loop_isolation(false)]
#[verifier::rlimit(60)]
pub fn parse_screen_dimensions(s: &[u8]) -> (r: Option<(u32, u32)>)
    ensures
        r == parse_dims_spec(s@),
{
    let n = s.len();

    let mut i: usize = 0;
    while i < n && is_space_byte(s[i])
        invariant
            i <= n == s@.len(),
            skip_spaces(s@, 0) == skip_spaces(s@, i as int),
        decreases n - i,
    {
        i = i + 1;
    }
    // i is where the first token starts
    assert(i as int == skip_spaces(s@, 0));

    let mut j: usize = i;
    while j < n && !is_space_byte(s[j])
        invariant
            i <= j <= n == s@.len(),
            skip_token(s@, i as int) == skip_token(s@, j as int),
        decreases n - j,
    {
        j = j + 1;
    }
    // j is where the first token ends
    assert(j as int == skip_token(s@, i as int));

    let mut k: usize = j;
    while k < n && is_space_byte(s[k])
        invariant
            j <= k <= n == s@.len(),
            skip_spaces(s@, j as int) == skip_spaces(s@, k as int),
        decreases n - k,
    {
        k = k + 1;
    }
    // k is where the second token starts
    assert(k as int == skip_spaces(s@, j as int));

    if k == n {
        // fewer than two tokens
        return None;
    }

    let mut e: usize = k;
    while e < n && !is_space_byte(s[e])
        invariant
            k <= e <= n == s@.len(),
            skip_token(s@, k as int) == skip_token(s@, e as int),
        decreases n - e,
    {
        e = e + 1;
    }
    // e is where the second token ends
    assert(e as int == skip_token(s@, k as int));

    let ghost tok = s@.subrange(k as int, e as int);

    // look for exactly one 'x' inside the token
    let mut p: usize = k;
    let mut x_first: usize = 0;
    let mut x_count: usize = 0;
    let ghost mut x_second: int = 0;
    while p < e
        invariant
            k <= p <= e <= s@.len(),
            tok == s@.subrange(k as int, e as int),
            x_count == 0 ==> forall|m: int| k <= m < p ==> s@[m] != 120,
            x_count >= 1 ==> {
                &&& k <= x_first < p
                &&& s@[x_first as int] == 120
                &&& forall|m: int| k <= m < x_first ==> s@[m] != 120
            },
            x_count == 1 ==> forall|m: int| x_first < m < p ==> s@[m] != 120,
            x_count >= 2 ==> {
                &&& x_first < x_second < p
                &&& s@[x_second] == 120
            },
            x_count <= p,
        decreases e - p,
    {
        if s[p] == 120 {
            if x_count == 0 {
                x_first = p;
            } else if x_count == 1 {
                proof {
                    x_second = p as int;
                }
            }
            x_count = x_count + 1;
        }
        p = p + 1;
    }

    if x_count != 1 {
        proof {
            if x_count == 0 {
                assert forall|c: int|
                    !(0 <= c < tok.len() && tok[c] == 120 && (forall|m: int|
                        0 <= m < tok.len() && m != c ==> tok[m] != 120)) by {
                    if 0 <= c < tok.len() {
                        assert(tok[c] == s@[c + k]);
                    }
                }
                assert(!one_x(tok));
            } else {
                // two distinct 'x' bytes refute uniqueness for any candidate
                assert(tok[x_first - k as int] == 120);
                assert(tok[x_second - k as int] == 120);
                assert forall|c: int|
                    !(0 <= c < tok.len() && tok[c] == 120 && (forall|m: int|
                        0 <= m < tok.len() && m != c ==> tok[m] != 120)) by {
                    if 0 <= c < tok.len() && tok[c] == 120 {
                        if c != x_first - k as int {
                            assert(tok[x_first - k as int] == 120);
                        } else {
                            assert(tok[x_second - k as int] == 120);
                        }
                    }
                }
                assert(!one_x(tok));
            }
        }
        return None;
    }

    proof {
        // the single 'x' found is the spec's witness, and the unique one
        assert forall|m: int| 0 <= m < tok.len() && m != x_first - k as int implies tok[m]
            != 120 by {
            assert(tok[m] == s@[m + k]);
        }
        assert(tok[x_first - k as int] == 120);
        assert(one_x(tok));
        let c = x_pos(tok);
        if c != x_first - k as int {
            assert(tok[x_first - k as int] != 120);
        }
        assert(x_pos(tok) == x_first - k as int);
    }

    let left = parse_u32_range(s, k, x_first);
    let right = parse_u32_range(s, x_first + 1, e);
    proof {
        assert(tok.subrange(0, x_first - k as int) =~= s@.subrange(k as int, x_first as int));
        assert(tok.subrange(x_first - k as int + 1, tok.len() as int) =~= s@.subrange(
            x_first as int + 1,
            e as int,
        ));
    }
    match (left, right) {
        (Some(w), Some(h)) => Some((w, h)),
        _ => None,
    }
}

} // verus!
