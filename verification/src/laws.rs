//! Laws of the digit stream, proved over the model: the search budget never
//! changes which character comes next, runs are deterministic and
//! concatenate, every character is a digit or the one decimal point, and a
//! fresh stream starts with `'3'` and `'.'`.

use crate::model::EngineModel;
use crate::model::Spigot;
use crate::model::certified;
use crate::model::digit_char;
use crate::model::init_model;
use crate::model::is_decimal_digit;
use crate::model::next_result;
use crate::model::refined;
use crate::model::run;
use crate::model::search;
use vstd::prelude::*;

verus! {

/// A larger search budget finds the same certified state: the search stops
/// at the first certified state, and extra budget is never spent past it.
pub proof fn lemma_search_monotone(s: Spigot, f1: nat, f2: nat)
    requires
        f1 <= f2,
        search(s, f1) is Some,
    ensures
        search(s, f2) == search(s, f1),
    decreases f1,
{
    if !certified(s) {
        lemma_search_monotone(refined(s), (f1 - 1) as nat, (f2 - 1) as nat);
    }
}

/// Two digit requests from the same state agree whenever both produce a
/// character: the budget decides only whether a character is found, never
/// which one, nor where the state ends up.
pub proof fn lemma_next_result_fuel_independent(m: EngineModel, f1: nat, f2: nat)
    requires
        next_result(m, f1).0 is Some,
        next_result(m, f2).0 is Some,
    ensures
        next_result(m, f1) == next_result(m, f2),
{
    if !(m.given_first && !m.given_second) {
        if f1 <= f2 {
            lemma_search_monotone(m.sp, f1, f2);
        } else {
            lemma_search_monotone(m.sp, f2, f1);
        }
    }
}

/// A run that produces its characters produces exactly `count` of them.
pub proof fn lemma_run_len(m: EngineModel, count: nat, fuel: nat)
    requires
        run(m, count, fuel).0 is Some,
    ensures
        run(m, count, fuel).0->0.len() == count,
    decreases count,
{
    if count > 0 {
        let step = next_result(m, fuel);
        lemma_run_len(step.1, (count - 1) as nat, fuel);
    }
}

/// Determinism: two runs of the same length from the same state that both
/// produce their characters produce the same characters and end in the same
/// state, whatever their budgets.
pub proof fn lemma_run_deterministic(m: EngineModel, count: nat, f1: nat, f2: nat)
    requires
        run(m, count, f1).0 is Some,
        run(m, count, f2).0 is Some,
    ensures
        run(m, count, f1) == run(m, count, f2),
    decreases count,
{
    if count > 0 {
        lemma_next_result_fuel_independent(m, f1, f2);
        lemma_run_deterministic(next_result(m, f1).1, (count - 1) as nat, f1, f2);
    }
}

/// Prefix stability: asking one engine for `k1` characters and then `k2`
/// more is the same as asking a fresh run from its state for `k1 + k2` in
/// one pass — same characters, same final state.
pub proof fn lemma_run_concat(m: EngineModel, k1: nat, k2: nat, fuel: nat)
    requires
        run(m, k1, fuel).0 is Some,
    ensures
        ({
            let first = run(m, k1, fuel);
            let second = run(first.1, k2, fuel);
            run(m, k1 + k2, fuel) == ((match second.0 {
                Some(s2) => Some(first.0->0 + s2),
                None => None::<Seq<char>>,
            }), second.1)
        }),
    decreases k1,
{
    let first = run(m, k1, fuel);
    let second = run(first.1, k2, fuel);
    if k1 == 0 {
        if second.0 is Some {
            assert(first.0->0 + second.0->0 =~= second.0->0);
        }
    } else {
        let step = next_result(m, fuel);
        let ch = step.0->0;
        lemma_run_concat(step.1, (k1 - 1) as nat, k2, fuel);
        let rest = run(step.1, (k1 - 1) as nat, fuel);
        if second.0 is Some {
            assert(first.0->0 + second.0->0 =~= seq![ch] + (rest.0->0 + second.0->0));
        }
    }
}

/// Every character a digit request produces is a decimal digit or the
/// decimal point.
pub proof fn lemma_output_alphabet(m: EngineModel, fuel: nat)
    ensures
        next_result(m, fuel).0 matches Some(c) ==> c == '.' || is_decimal_digit(c),
{
}

/// After the decimal point is out, every further character is a digit.
proof fn lemma_digits_after_point(m: EngineModel, count: nat, fuel: nat)
    requires
        m.given_first,
        m.given_second,
        run(m, count, fuel).0 is Some,
    ensures
        forall|i: int|
            0 <= i < run(m, count, fuel).0->0.len() ==> is_decimal_digit(
                #[trigger] run(m, count, fuel).0->0[i],
            ),
    decreases count,
{
    if count > 0 {
        let step = next_result(m, fuel);
        lemma_digits_after_point(step.1, (count - 1) as nat, fuel);
    }
}

/// The very first certified digit of a fresh engine is 3: one refinement
/// step from the initial state certifies it.
proof fn lemma_first_search(fuel: nat)
    requires
        fuel >= 1,
    ensures
        search(init_model().sp, fuel) == Some(Spigot { q: 1, r: 6, t: 3, k: 2, n: 3, l: 5 }),
{
    let s0 = init_model().sp;
    let s1 = Spigot { q: 1, r: 6, t: 3, k: 2, n: 3, l: 5 };
    assert(s0.n * s0.t == 3) by (nonlinear_arith)
        requires
            s0.n == 3,
            s0.t == 1,
    ;
    assert(!certified(s0));
    let r1 = refined(s0);
    assert(7 * s0.k * s0.q + 2 + s0.r * s0.l == 9) by (nonlinear_arith)
        requires
            s0.k == 1,
            s0.q == 1,
            s0.r == 0,
            s0.l == 3,
    ;
    assert(s0.t * s0.l == 3) by (nonlinear_arith)
        requires
            s0.t == 1,
            s0.l == 3,
    ;
    assert(s0.q * s0.k == 1) by (nonlinear_arith)
        requires
            s0.q == 1,
            s0.k == 1,
    ;
    assert((2 * s0.q + s0.r) * s0.l == 6) by (nonlinear_arith)
        requires
            s0.q == 1,
            s0.r == 0,
            s0.l == 3,
    ;
    assert(9int / 3int == 3);
    assert(r1 == s1);
    assert(s1.n * s1.t == 9) by (nonlinear_arith)
        requires
            s1.n == 3,
            s1.t == 3,
    ;
    assert(certified(s1));
    reveal_with_fuel(search, 2);
    assert(search(s0, 1) == Some(s1));
    lemma_search_monotone(s0, 1, fuel);
}

/// The shape of a fresh stream: it begins `'3'`, `'.'`, and after that every
/// character is a decimal digit — the point appears exactly at position 1.
pub proof fn lemma_run_shape(count: nat, fuel: nat)
    requires
        run(init_model(), count, fuel).0 is Some,
    ensures
        ({
            let s = run(init_model(), count, fuel).0->0;
            &&& s.len() == count
            &&& (count >= 1 ==> s[0] == '3')
            &&& forall|i: int| 0 <= i < count ==> ((#[trigger] s[i]) == '.' <==> i == 1)
            &&& forall|i: int| 0 <= i < count ==> (s[i] == '.' || is_decimal_digit(#[trigger] s[i]))
        }),
{
    let m0 = init_model();
    lemma_run_len(m0, count, fuel);
    let s = run(m0, count, fuel).0->0;
    if count >= 1 {
        let step1 = next_result(m0, fuel);
        assert(search(m0.sp, fuel) is Some);
        assert(fuel >= 1) by {
            if fuel == 0 {
                let s0 = m0.sp;
                assert(s0.n * s0.t == 3) by (nonlinear_arith)
                    requires
                        s0.n == 3,
                        s0.t == 1,
                ;
                assert(!certified(s0));
            }
        }
        lemma_first_search(fuel);
        assert(step1.0 == Some('3'));
        let m1 = step1.1;
        assert(m1.given_first && !m1.given_second);
        lemma_run_len(m1, (count - 1) as nat, fuel);
        let s1 = run(m1, (count - 1) as nat, fuel).0->0;
        assert(s =~= seq!['3'] + s1);
        if count >= 2 {
            let step2 = next_result(m1, fuel);
            assert(step2.0 == Some('.'));
            let m2 = step2.1;
            assert(m2.given_first && m2.given_second);
            lemma_run_len(m2, (count - 2) as nat, fuel);
            let s2 = run(m2, (count - 2) as nat, fuel).0->0;
            assert(s1 =~= seq!['.'] + s2);
            lemma_digits_after_point(m2, (count - 2) as nat, fuel);
            assert(forall|i: int| 0 <= i < count - 2 ==> is_decimal_digit(#[trigger] s2[i]));
            assert(forall|i: int|
                2 <= i < count ==> (#[trigger] s[i]) == s2[i - 2] && is_decimal_digit(s[i]));
        }
    }
}

/// The first two characters of a fresh stream are always `'3'` then `'.'`,
/// whenever the budgets allow any characters at all.
pub proof fn lemma_leading_digit_and_point(f1: nat, f2: nat)
    requires
        f1 >= 1,
    ensures
        next_result(init_model(), f1).0 == Some('3'),
        next_result(next_result(init_model(), f1).1, f2).0 == Some('.'),
{
    lemma_first_search(f1);
    let m1 = next_result(init_model(), f1).1;
    assert(m1.given_first && !m1.given_second);
}

} // verus!
