//! The mathematical model of the digit engine.
//!
//! The engine's behaviour is stated here over unbounded `int` state: one
//! refinement step, the certification test, the digit-extraction rescale,
//! and what a single digit request returns and how it moves the state.

use crate::big::trunc_div;
use vstd::prelude::*;

verus! {

/// The six spigot variables, as unbounded integers.
pub ghost struct Spigot {
    pub q: int,
    pub r: int,
    pub t: int,
    pub k: int,
    pub n: int,
    pub l: int,
}

/// Abstract state of the digit engine: the spigot variables and the two
/// emission flags.
pub ghost struct EngineModel {
    pub given_first: bool,
    pub given_second: bool,
    pub sp: Spigot,
}

/// The fixed initial spigot state.
pub open spec fn init_spigot() -> Spigot {
    Spigot { q: 1, r: 0, t: 1, k: 1, n: 3, l: 3 }
}

/// A fresh engine: initial spigot state, nothing emitted yet.
pub open spec fn init_model() -> EngineModel {
    EngineModel { given_first: false, given_second: false, sp: init_spigot() }
}

/// The divisors `t` and `t*l` stay positive.
pub open spec fn spigot_wf(s: Spigot) -> bool {
    s.t >= 1 && s.l >= 1
}

/// The decimal point can only follow the leading digit.
pub open spec fn model_wf(m: EngineModel) -> bool {
    spigot_wf(m.sp) && (m.given_second ==> m.given_first)
}

/// The certification test: the next digit is pinned down once
/// `4q + r - t < n*t`.
pub open spec fn certified(s: Spigot) -> bool {
    4 * s.q + s.r - s.t < s.n * s.t
}

/// One refinement step of the spigot recurrence.
pub open spec fn refined(s: Spigot) -> Spigot {
    Spigot {
        q: s.q * s.k,
        r: (2 * s.q + s.r) * s.l,
        t: s.t * s.l,
        k: s.k + 1,
        n: trunc_div(7 * s.k * s.q + 2 + s.r * s.l, s.t * s.l),
        l: s.l + 2,
    }
}

/// Emit digit `n`, then magnify the remaining fractional window by 10.
pub open spec fn extracted(s: Spigot) -> Spigot {
    Spigot {
        q: s.q * 10,
        r: (s.r - s.n * s.t) * 10,
        t: s.t,
        k: s.k,
        n: trunc_div((3 * s.q + s.r) * 10, s.t) - s.n * 10,
        l: s.l,
    }
}

/// The state after `count` refinement steps.
pub open spec fn refined_n(s: Spigot, count: nat) -> Spigot
    decreases count,
{
    if count == 0 {
        s
    } else {
        refined(refined_n(s, (count - 1) as nat))
    }
}

/// The first certified state reached from `s` within `fuel` refinement steps,
/// if there is one.
pub open spec fn search(s: Spigot, fuel: nat) -> Option<Spigot>
    decreases fuel,
{
    if certified(s) {
        Some(s)
    } else if fuel == 0 {
        None
    } else {
        search(refined(s), (fuel - 1) as nat)
    }
}

/// The character for a single decimal digit.
pub open spec fn digit_char(d: int) -> char {
    if d == 0 {
        '0'
    } else if d == 1 {
        '1'
    } else if d == 2 {
        '2'
    } else if d == 3 {
        '3'
    } else if d == 4 {
        '4'
    } else if d == 5 {
        '5'
    } else if d == 6 {
        '6'
    } else if d == 7 {
        '7'
    } else if d == 8 {
        '8'
    } else {
        '9'
    }
}

/// A character in `'0'..='9'`.
pub open spec fn is_decimal_digit(c: char) -> bool {
    c == '0' || c == '1' || c == '2' || c == '3' || c == '4' || c == '5' || c == '6' || c == '7'
        || c == '8' || c == '9'
}

/// What one digit request returns, and how it moves the state.
///
/// If the decimal point is owed it is produced at once, with no arithmetic.
/// Otherwise the engine refines until the certification test holds, spending
/// at most `fuel` refinement steps; if a certified state is reached and its
/// candidate `n` is a single decimal digit, that digit is produced and the
/// state is rescaled, else no character is produced.
pub open spec fn next_result(m: EngineModel, fuel: nat) -> (Option<char>, EngineModel) {
    if m.given_first && !m.given_second {
        (
            Some('.'),
            EngineModel { given_first: m.given_first, given_second: true, sp: m.sp },
        )
    } else {
        match search(m.sp, fuel) {
            None => (
                None,
                EngineModel {
                    given_first: m.given_first,
                    given_second: m.given_second,
                    sp: refined_n(m.sp, fuel),
                },
            ),
            Some(c) => if 0 <= c.n <= 9 {
                (
                    Some(digit_char(c.n)),
                    EngineModel {
                        given_first: true,
                        given_second: m.given_second,
                        sp: extracted(c),
                    },
                )
            } else {
                (
                    None,
                    EngineModel {
                        given_first: m.given_first,
                        given_second: m.given_second,
                        sp: c,
                    },
                )
            },
        }
    }
}

/// The outcome of `count` consecutive digit requests, each with the same
/// `fuel`: the characters produced — or `None` as soon as one request
/// produces none — together with the final state.
pub open spec fn run(m: EngineModel, count: nat, fuel: nat) -> (Option<Seq<char>>, EngineModel)
    decreases count,
{
    if count == 0 {
        (Some(Seq::empty()), m)
    } else {
        let step = next_result(m, fuel);
        match step.0 {
            None => (None, step.1),
            Some(ch) => {
                let rest = run(step.1, (count - 1) as nat, fuel);
                match rest.0 {
                    None => (None, rest.1),
                    Some(s) => (Some(seq![ch] + s), rest.1),
                }
            },
        }
    }
}

} // verus!
