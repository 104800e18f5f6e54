//! The executor's pre-flight check: a caller-supplied SQL template and the
//! number of values to be bound must match before any network round-trip.
//! A placeholder is a `$` immediately followed by a run of decimal digits;
//! the template matches a count `n` when every placeholder references one
//! of the parameters 1..=n and every parameter is referenced at least once
//! (the backend rejects both a reference past the count and a parameter it
//! cannot type, so the check fails closed up front).

use vstd::prelude::*;

verus! {

/// An ASCII decimal digit.
pub open spec fn is_digit(c: char) -> bool {
    '0' as u32 <= c as u32 && c as u32 <= '9' as u32
}

/// The value of one digit; characters outside the digits count as zero so
/// that runs are always well-defined.
pub open spec fn digit_val(c: char) -> int {
    if is_digit(c) {
        c as u32 - '0' as u32
    } else {
        0
    }
}

/// The index just past the run of digits that starts at `i`.
pub open spec fn run_end(s: Seq<char>, i: int) -> int
    decreases s.len() - i when 0 <= i <= s.len()
{
    if i < s.len() && is_digit(s[i]) {
        run_end(s, i + 1)
    } else {
        i
    }
}

/// The number the digits of `s[i..j)` spell, most significant first.
pub open spec fn run_value(s: Seq<char>, i: int, j: int) -> int
    decreases j - i when i <= j
{
    if i < j {
        run_value(s, i, j - 1) * 10 + digit_val(s[j - 1])
    } else {
        0
    }
}

/// A placeholder occurrence: `$` at `i` immediately followed by at least
/// one digit; the whole digit run after the `$` spells the parameter
/// index `k`.
pub open spec fn placeholder_at(s: Seq<char>, i: int, k: int) -> bool {
    &&& 0 <= i && i + 1 < s.len()
    &&& s[i] == '$'
    &&& is_digit(s[i + 1])
    &&& k == run_value(s, i + 1, run_end(s, i + 1))
}

/// Some placeholder of the template references parameter `k`.
pub open spec fn references(s: Seq<char>, k: int) -> bool {
    exists|i: int| placeholder_at(s, i, k)
}

/// The template references exactly the parameters 1..=n: no placeholder
/// falls outside that range, and none of the range goes unreferenced.
pub open spec fn placeholders_match(s: Seq<char>, n: int) -> bool {
    &&& forall|i: int, k: int| placeholder_at(s, i, k) ==> 1 <= k <= n
    &&& forall|k: int| 1 <= k <= n ==> references(s, k)
}

proof fn lemma_run_value_nonneg(s: Seq<char>, i: int, j: int)
    requires
        i <= j,
    ensures
        run_value(s, i, j) >= 0,
    decreases j - i,
{
    if i < j {
        lemma_run_value_nonneg(s, i, j - 1);
    }
}

/// A run of digits that ends where the digits end is the run that `run_end`
/// finds.
proof fn lemma_run_end_is(s: Seq<char>, a: int, j: int)
    requires
        0 <= a <= j <= s.len(),
        forall|m: int| a <= m < j ==> is_digit(s[m]),
        j == s.len() || !is_digit(s[j]),
    ensures
        run_end(s, a) == j,
    decreases j - a,
{
    if a < j {
        lemma_run_end_is(s, a + 1, j);
    }
}

/// Looks at one position of the template. When a placeholder starts there,
/// its parameter gets marked as referenced and an out-of-range reference
/// clears `in_range`; any other position changes nothing.
fn note_occurrence(sql: &str, i: usize, n: usize, seen: &mut Vec<bool>, in_range: &mut bool)
    requires
        i < sql@.len(),
        old(seen)@.len() == n,
        n <= 10000,
    ensures
        final(seen)@.len() == n,
        forall|q: int|
            0 <= q < n ==> (#[trigger] final(seen)@[q] <==> old(seen)@[q] || placeholder_at(
                sql@,
                i as int,
                q + 1,
            )),
        *final(in_range) <==> *old(in_range) && (forall|k: int|
            #[trigger] placeholder_at(sql@, i as int, k) ==> 1 <= k <= n),
{
    let len = sql.unicode_len();
    let c = sql.get_char(i);
    if !(c == '$' && i + 1 < len) {
        proof {
            assert forall|k: int| !(#[trigger] placeholder_at(sql@, i as int, k)) by {}
        }
        return ;
    }
    let d0 = sql.get_char(i + 1);
    let u0 = d0 as u32;
    if !(u0 >= 48 && u0 <= 57) {
        proof {
            assert forall|k: int| !(#[trigger] placeholder_at(sql@, i as int, k)) by {}
        }
        return ;
    }
    let mut j: usize = i + 1;
    let mut val: usize = 0;
    let mut over = false;
    loop
        invariant
            len == sql@.len(),
            i + 1 <= j <= len,
            n <= 10000,
            val <= n,
            forall|m: int| i + 1 <= m < j ==> is_digit(sql@[m]),
            !over ==> val == run_value(sql@, i as int + 1, j as int),
            over ==> run_value(sql@, i as int + 1, j as int) > n,
        ensures
            i + 1 <= j <= len,
            val <= n,
            forall|m: int| i + 1 <= m < j ==> is_digit(sql@[m]),
            j == len || !is_digit(sql@[j as int]),
            !over ==> val == run_value(sql@, i as int + 1, j as int),
            over ==> run_value(sql@, i as int + 1, j as int) > n,
        decreases len - j,
    {
        if j >= len {
            break ;
        }
        let cj = sql.get_char(j);
        let uj = cj as u32;
        if !(uj >= 48 && uj <= 57) {
            break ;
        }
        let d = (uj - 48) as usize;
        proof {
            assert(is_digit(sql@[j as int]));
            assert(digit_val(sql@[j as int]) == d);
            assert(run_value(sql@, i as int + 1, j as int + 1) == run_value(
                sql@,
                i as int + 1,
                j as int,
            ) * 10 + d);
            lemma_run_value_nonneg(sql@, i as int + 1, j as int);
        }
        if !over {
            let nv = val * 10 + d;
            if nv > n {
                over = true;
            } else {
                val = nv;
            }
        }
        j = j + 1;
    }
    proof {
        lemma_run_end_is(sql@, i as int + 1, j as int);
        lemma_run_value_nonneg(sql@, i as int + 1, j as int);
    }
    let ghost k0: int = run_value(sql@, i as int + 1, j as int);
    proof {
        assert(placeholder_at(sql@, i as int, k0));
        assert(forall|k: int| #[trigger] placeholder_at(sql@, i as int, k) ==> k == k0);
    }
    if over || val == 0 {
        proof {
            assert(!(1 <= k0 <= n));
        }
        *in_range = false;
    } else {
        proof {
            assert(k0 == val);
            assert(1 <= k0 <= n);
        }
        seen[val - 1] = true;
    }
}

/// Checks a caller-supplied template against the number of values that will
/// be bound to it. The count bound keeps the digit accumulator within the
/// machine's integers; the executor binds at most a handful of parameters.
pub fn check_placeholders(sql: &str, n: usize) -> (r: bool)
    requires
        n <= 10000,
    ensures
        r == placeholders_match(sql@, n as int),
{
    let len = sql.unicode_len();
    let mut seen: Vec<bool> = Vec::new();
    for t in 0..n
        invariant
            seen@.len() == t,
            forall|q: int| 0 <= q < t ==> !seen@[q],
    {
        seen.push(false);
    }
    let mut in_range = true;
    let mut i: usize = 0;
    while i < len
        invariant
            len == sql@.len(),
            i <= len,
            n <= 10000,
            seen@.len() == n,
            in_range <==> (forall|p: int, k: int|
                p < i && placeholder_at(sql@, p, k) ==> 1 <= k <= n),
            forall|q: int|
                0 <= q < n ==> (#[trigger] seen@[q] <==> exists|p: int|
                    p < i && #[trigger] placeholder_at(sql@, p, q + 1)),
        decreases len - i,
    {
        let ghost pre_seen = seen@;
        let ghost pre_in = in_range;
        note_occurrence(sql, i, n, &mut seen, &mut in_range);
        proof {
            assert forall|q: int|
                0 <= q < n implies (#[trigger] seen@[q] <==> exists|p: int|
                    p < i + 1 && #[trigger] placeholder_at(sql@, p, q + 1)) by {
                if seen@[q] {
                    if pre_seen[q] {
                        let p = choose|p: int| p < i && #[trigger] placeholder_at(sql@, p, q + 1);
                        assert(p < i + 1 && placeholder_at(sql@, p, q + 1));
                    } else {
                        assert(placeholder_at(sql@, i as int, q + 1));
                        assert((i as int) < i + 1 && placeholder_at(sql@, i as int, q + 1));
                    }
                } else {
                    assert(!pre_seen[q]);
                    if exists|p: int| p < i + 1 && #[trigger] placeholder_at(sql@, p, q + 1) {
                        let p = choose|p: int| p < i + 1 && #[trigger] placeholder_at(
                            sql@,
                            p,
                            q + 1,
                        );
                        if p == i as int {
                            assert(seen@[q]);
                        } else {
                            assert(p < i && placeholder_at(sql@, p, q + 1));
                            assert(pre_seen[q]);
                        }
                        assert(false);
                    }
                }
            }
            assert((in_range <==> (forall|p: int, k: int|
                p < i + 1 && placeholder_at(sql@, p, k) ==> 1 <= k <= n))) by {
                if in_range {
                    assert forall|p: int, k: int|
                        p < i + 1 && placeholder_at(sql@, p, k) implies 1 <= k <= n by {
                        if p < i {
                            assert(pre_in);
                        } else {
                            assert(placeholder_at(sql@, i as int, k));
                        }
                    }
                } else {
                    if pre_in {
                        let k = choose|k: int|
                            #[trigger] placeholder_at(sql@, i as int, k) && !(1 <= k <= n);
                        assert((i as int) < i + 1 && placeholder_at(sql@, i as int, k) && !(1 <= k
                            <= n));
                    } else {
                        let (p, k) = choose|p: int, k: int|
                            p < i && #[trigger] placeholder_at(sql@, p, k) && !(1 <= k <= n);
                        assert(p < i + 1 && placeholder_at(sql@, p, k) && !(1 <= k <= n));
                    }
                }
            }
        }
        i = i + 1;
    }
    if !in_range {
        proof {
            assert(!placeholders_match(sql@, n as int));
        }
        return false;
    }
    let mut all = true;
    for t in 0..n
        invariant
            seen@.len() == n,
            all <==> (forall|q: int| 0 <= q < t ==> seen@[q]),
    {
        if !seen[t] {
            all = false;
        }
    }
    proof {
        if all {
            assert forall|p: int, k: int| placeholder_at(sql@, p, k) implies 1 <= k <= n as int by {
                assert(p < len);
            }
            assert forall|k: int| 1 <= k <= n as int implies references(sql@, k) by {
                assert(seen@[k - 1]);
                let p = choose|p: int| p < len && #[trigger] placeholder_at(sql@, p, k);
                assert(placeholder_at(sql@, p, k));
            }
            assert(placeholders_match(sql@, n as int));
        } else {
            let q = choose|q: int| 0 <= q < n && !seen@[q];
            assert(!seen@[q]);
            assert forall|p: int| !(#[trigger] placeholder_at(sql@, p, q + 1)) by {
                if placeholder_at(sql@, p, q + 1) {
                    assert(p + 1 < sql@.len());
                    assert(p < len);
                }
            }
            assert(!references(sql@, q + 1));
            assert(!placeholders_match(sql@, n as int));
        }
    }
    all
}

} // verus!
