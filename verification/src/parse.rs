use vstd::prelude::*;
use vstd::arithmetic::div_mod::lemma_fundamental_div_mod;
use vstd::arithmetic::div_mod::lemma_mod_bound;
use vstd::arithmetic::mul::lemma_mul_inequality;

verus! {

/// Whether `c` is a decimal digit.
pub open spec fn is_digit(c: char) -> bool {
    '0' as int <= c as int && c as int <= '9' as int
}

/// Whether every character of `s` is a decimal digit.
pub open spec fn all_digits(s: Seq<char>) -> bool {
    forall|i: int| 0 <= i < s.len() ==> is_digit(#[trigger] s[i])
}

/// The value of `s` read as a decimal numeral, most significant digit
/// first.
pub open spec fn digits_value(s: Seq<char>) -> int
    decreases s.len(),
{
    if s.len() == 0 {
        0
    } else {
        10 * digits_value(s.drop_last()) + (s.last() as int - '0' as int)
    }
}

/// What parsing a selection argument yields: the numeric value of `s`,
/// provided `s` is a non-empty digit string whose value fits in `usize`;
/// nothing otherwise.
pub open spec fn parse_index_spec(s: Seq<char>) -> Option<int> {
    if s.len() > 0 && all_digits(s) && digits_value(s) <= usize::MAX {
        Some(digits_value(s))
    } else {
        None
    }
}

proof fn lemma_digits_value_nonneg(s: Seq<char>)
    requires
        all_digits(s),
    ensures
        digits_value(s) >= 0,
    decreases s.len(),
{
    if s.len() > 0 {
        assert(all_digits(s.drop_last()));
        lemma_digits_value_nonneg(s.drop_last());
    }
}

proof fn lemma_digits_value_step(s: Seq<char>, k: int)
    requires
        0 <= k < s.len(),
    ensures
        digits_value(s.take(k + 1)) == 10 * digits_value(s.take(k)) + (s[k] as int - '0' as int),
{
    let t = s.take(k + 1);
    assert(t.drop_last() =~= s.take(k));
    assert(t.last() == s[k]);
}

proof fn lemma_digits_value_mono(s: Seq<char>, k: int)
    requires
        all_digits(s),
        0 <= k <= s.len(),
    ensures
        digits_value(s.take(k)) <= digits_value(s),
    decreases s.len() - k,
{
    if k < s.len() {
        lemma_digits_value_step(s, k);
        assert(all_digits(s.take(k)));
        lemma_digits_value_nonneg(s.take(k));
        lemma_digits_value_mono(s, k + 1);
    } else {
        assert(s.take(k) =~= s);
    }
}

/// Parses a selection argument as a decimal index, exactly as
/// `parse_index_spec` describes: digits only, non-empty, value within
/// `usize`.
pub fn parse_index(sel: &str) -> (r: Option<usize>)
    ensures
        r matches Some(v) ==> parse_index_spec(sel@) == Some(v as int),
        r is None ==> parse_index_spec(sel@) is None,
{
    let n = sel.unicode_len();
    if n == 0 {
        return None;
    }
    let mut val: usize = 0;
    let mut k: usize = 0;
    while k < n
        invariant
            0 <= k <= n,
            n == sel@.len(),
            all_digits(sel@.take(k as int)),
            val == digits_value(sel@.take(k as int)),
        decreases n - k,
    {
        let c = sel.get_char(k);
        let cu = c as u32;
        if cu < '0' as u32 || cu > '9' as u32 {
            assert(!is_digit(sel@[k as int]));
            return None;
        }
        let d = (cu - '0' as u32) as usize;
        let m = usize::MAX - d;
        proof {
            lemma_fundamental_div_mod(m as int, 10);
            lemma_mod_bound(m as int, 10);
            lemma_digits_value_step(sel@, k as int);
        }
        if val > m / 10 {
            proof {
                // 10 * val exceeds m, so the numeral's value cannot fit.
                lemma_mul_inequality(m as int / 10 + 1, val as int, 10);
                if sel@.len() > 0 && all_digits(sel@) && digits_value(sel@) <= usize::MAX {
                    lemma_digits_value_mono(sel@, k as int + 1);
                }
            }
            return None;
        }
        proof {
            lemma_mul_inequality(val as int, m as int / 10, 10);
        }
        val = val * 10 + d;
        k = k + 1;
        proof {
            assert(all_digits(sel@.take(k as int))) by {
                assert(forall|i: int|
                    0 <= i < k ==> #[trigger] sel@.take(k as int)[i] == sel@.take(k as int - 1)[i]
                        || sel@.take(k as int)[i] == sel@[k - 1]);
            }
        }
    }
    proof {
        assert(sel@.take(n as int) =~= sel@);
    }
    Some(val)
}

} // verus!
