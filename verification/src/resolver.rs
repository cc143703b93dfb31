//! The selection resolver: maps the user's startup choice — an empty line
//! for "the monitor under the cursor" or a 1-based decimal index — to one
//! catalog entry. Any other input yields `None`, which the caller treats as
//! a fatal invalid selection.

use vstd::prelude::*;

use crate::catalog::MonitorCatalog;
use crate::geometry::MonitorGeometry;

verus! {

/// `c` is an ASCII decimal digit.
pub open spec fn is_ascii_digit(c: char) -> bool {
    '0' <= c && c <= '9'
}

/// The numeric value of an ASCII decimal digit.
pub open spec fn digit_value(c: char) -> int {
    c as int - '0' as int
}

/// Every character of `s` is an ASCII decimal digit.
pub open spec fn all_digits(s: Seq<char>) -> bool {
    forall|i: int| 0 <= i < s.len() ==> is_ascii_digit(s[i])
}

/// The value of a decimal digit string, most significant digit first.
pub open spec fn decimal_value(s: Seq<char>) -> int
    decreases s.len(),
{
    if s.len() == 0 {
        0
    } else {
        decimal_value(s.drop_last()) * 10 + digit_value(s.last())
    }
}

/// The value of a digit string is non-negative.
proof fn lemma_decimal_value_nonneg(s: Seq<char>)
    requires
        all_digits(s),
    ensures
        decimal_value(s) >= 0,
    decreases s.len(),
{
    if s.len() > 0 {
        assert(all_digits(s.drop_last()));
        lemma_decimal_value_nonneg(s.drop_last());
    }
}

/// A digit string is worth at least any of its prefixes.
proof fn lemma_decimal_value_take_le(s: Seq<char>, j: int)
    requires
        all_digits(s),
        0 <= j <= s.len(),
    ensures
        decimal_value(s.take(j)) <= decimal_value(s),
    decreases s.len() - j,
{
    if j == s.len() {
        assert(s.take(j) =~= s);
    } else {
        lemma_decimal_value_take_le(s, j + 1);
        assert(s.take(j + 1).drop_last() =~= s.take(j));
        assert(all_digits(s.take(j)));
        lemma_decimal_value_nonneg(s.take(j));
        assert(decimal_value(s.take(j + 1)) == decimal_value(s.take(j)) * 10 + digit_value(
            s[j],
        ));
    }
}

/// Parses the input as an unsigned decimal number. Returns `Some` exactly
/// when the input is non-empty, consists of decimal digits only, and its
/// value fits in `usize`.
pub fn parse_selection(input: &str) -> (r: Option<usize>)
    ensures
        r is Some <==> input@.len() > 0 && all_digits(input@) && decimal_value(input@)
            <= usize::MAX,
        r is Some ==> r->Some_0 == decimal_value(input@),
{
    let n = input.unicode_len();
    if n == 0 {
        return None;
    }
    let mut value: usize = 0;
    let mut i: usize = 0;
    while i < n
        invariant
            n == input@.len(),
            0 < n <= usize::MAX,
            i <= n,
            all_digits(input@.take(i as int)),
            value == decimal_value(input@.take(i as int)),
        decreases n - i,
    {
        let c = input.get_char(i);
        let code = c as u32;
        if code < 48 || code > 57 {
            proof {
                assert(!is_ascii_digit(input@[i as int]));
            }
            return None;
        }
        let d = (code - 48) as usize;
        proof {
            assert(input@.take(i + 1).drop_last() =~= input@.take(i as int));
            assert(input@.take(i + 1).last() == input@[i as int]);
        }
        let next = match value.checked_mul(10) {
            Some(v10) => v10.checked_add(d),
            None => None,
        };
        match next {
            Some(v) => {
                value = v;
            },
            None => {
                proof {
                    assert(decimal_value(input@.take(i + 1)) > usize::MAX);
                    if all_digits(input@) {
                        lemma_decimal_value_take_le(input@, i + 1);
                    }
                }
                return None;
            },
        }
        i += 1;
    }
    proof {
        assert(input@.take(n as int) =~= input@);
    }
    Some(value)
}

/// Maps the user's choice to a catalog entry.
///
/// An empty input selects the monitor at `current_index` — the catalog
/// position of the monitor under the cursor — and fails when there is none.
/// A non-empty input must be a 1-based decimal index into the catalog;
/// anything else (not a number, zero, or out of range) fails. A failure is
/// a fatal startup error for the caller.
pub fn resolve(input: &str, catalog: &MonitorCatalog, current_index: Option<usize>) -> (r:
    Option<MonitorGeometry>)
    ensures
        input@.len() == 0 ==> r == (match current_index {
            Some(i) => if i < catalog@.len() {
                Some(catalog@[i as int])
            } else {
                None
            },
            None => None::<MonitorGeometry>,
        }),
        input@.len() > 0 ==> r == (if all_digits(input@) && 1 <= decimal_value(input@)
            <= catalog@.len() {
            Some(catalog@[decimal_value(input@) - 1])
        } else {
            None::<MonitorGeometry>
        }),
{
    let len = catalog.len();
    if input.unicode_len() == 0 {
        match current_index {
            Some(i) => {
                if i < len {
                    Some(*catalog.get(i))
                } else {
                    None
                }
            },
            None => None,
        }
    } else {
        match parse_selection(input) {
            Some(n) => {
                if 1 <= n && n <= len {
                    Some(*catalog.get(n - 1))
                } else {
                    None
                }
            },
            None => {
                proof {
                    if all_digits(input@) && decimal_value(input@) <= catalog@.len() {
                        assert(decimal_value(input@) <= usize::MAX);
                    }
                }
                None
            },
        }
    }
}

} // verus!
