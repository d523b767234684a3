//! The digit engine: verified executable code over the trusted `BigInt`
//! arithmetic, pinned to the model in `model` by its contracts.

use crate::big::big_add;
use crate::big::big_div;
use crate::big::big_from_u64;
use crate::big::big_lt;
use crate::big::big_mul;
use crate::big::big_sub;
use crate::big::big_value;
use crate::model::EngineModel;
use crate::model::Spigot;
use crate::model::certified;
use crate::model::digit_char;
use crate::model::extracted;
use crate::model::init_model;
use crate::model::model_wf;
use crate::model::next_result;
use crate::model::refined;
use crate::model::refined_n;
use crate::model::run;
use crate::model::search;
use crate::model::spigot_wf;
use num_bigint::BigInt;
use vstd::prelude::*;

verus! {

/// A pull-based, stateful source of the decimal digits of pi.
///
/// A fresh engine produces `'3'`, then `'.'`, then the fractional digits of
/// pi, one character per request, and never recomputes from scratch: each
/// request resumes from the exact state the previous one left.
pub struct Engine {
    given_first: bool,
    given_second: bool,
    q: BigInt,
    r: BigInt,
    t: BigInt,
    k: BigInt,
    n: BigInt,
    l: BigInt,
}

impl View for Engine {
    type V = EngineModel;

    closed spec fn view(&self) -> EngineModel {
        EngineModel {
            given_first: self.given_first,
            given_second: self.given_second,
            sp: Spigot {
                q: big_value(self.q),
                r: big_value(self.r),
                t: big_value(self.t),
                k: big_value(self.k),
                n: big_value(self.n),
                l: big_value(self.l),
            },
        }
    }
}

impl Engine {
    /// A fresh engine: q=1, r=0, t=1, k=1, n=3, l=3, nothing emitted yet.
    pub fn new() -> (e: Engine)
        ensures
            e@ == init_model(),
            model_wf(e@),
    {
        Engine {
            given_first: false,
            given_second: false,
            q: big_from_u64(1),
            r: big_from_u64(0),
            t: big_from_u64(1),
            k: big_from_u64(1),
            n: big_from_u64(3),
            l: big_from_u64(3),
        }
    }

    /// The certification test `4q + r - t < n*t`.
    fn digit_ready(&self) -> (r: bool)
        ensures
            r == certified(self@.sp),
    {
        let four = big_from_u64(4);
        let lhs = big_sub(&big_add(&big_mul(&four, &self.q), &self.r), &self.t);
        let rhs = big_mul(&self.n, &self.t);
        big_lt(&lhs, &rhs)
    }

    /// One refinement step of the spigot recurrence.
    fn refine_step(&mut self)
        requires
            spigot_wf(old(self)@.sp),
        ensures
            final(self)@.sp == refined(old(self)@.sp),
            final(self)@.given_first == old(self)@.given_first,
            final(self)@.given_second == old(self)@.given_second,
            spigot_wf(final(self)@.sp),
    {
        let one = big_from_u64(1);
        let two = big_from_u64(2);
        let seven = big_from_u64(7);
        let nr = big_mul(&big_add(&big_mul(&two, &self.q), &self.r), &self.l);
        let tl = big_mul(&self.t, &self.l);
        proof {
            let t = big_value(self.t);
            let l = big_value(self.l);
            assert(t * l >= 1) by (nonlinear_arith)
                requires
                    t >= 1,
                    l >= 1,
            ;
        }
        let num = big_add(
            &big_add(&big_mul(&big_mul(&seven, &self.k), &self.q), &two),
            &big_mul(&self.r, &self.l),
        );
        let nn = big_div(&num, &tl);
        let nq = big_mul(&self.q, &self.k);
        let nk = big_add(&self.k, &one);
        let nl = big_add(&self.l, &two);
        self.q = nq;
        self.t = tl;
        self.l = nl;
        self.k = nk;
        self.n = nn;
        self.r = nr;
    }

    /// Certified digit extraction: emit `n`, rescale the window by 10.
    fn extract_step(&mut self)
        requires
            spigot_wf(old(self)@.sp),
        ensures
            final(self)@.sp == extracted(old(self)@.sp),
            final(self)@.given_first,
            final(self)@.given_second == old(self)@.given_second,
            spigot_wf(final(self)@.sp),
    {
        let three = big_from_u64(3);
        let ten = big_from_u64(10);
        let nr = big_mul(&big_sub(&self.r, &big_mul(&self.n, &self.t)), &ten);
        let nn = big_sub(
            &big_div(&big_mul(&big_add(&big_mul(&three, &self.q), &self.r), &ten), &self.t),
            &big_mul(&self.n, &ten),
        );
        let nq = big_mul(&self.q, &ten);
        self.given_first = true;
        self.q = nq;
        self.r = nr;
        self.n = nn;
    }

    /// The value of `n`, if it is a single decimal digit.
    fn small_digit(&self) -> (r: Option<u8>)
        ensures
            match r {
                Some(d) => d <= 9 && big_value(self.n) == d as int,
                None => !(0 <= big_value(self.n) <= 9),
            },
    {
        let mut d: u8 = 0;
        while d < 10
            invariant
                d <= 10,
                !(0 <= big_value(self.n) < d as int),
            decreases 10 - d,
        {
            let cand = big_from_u64(d as u64);
            let below = big_lt(&self.n, &cand);
            let above = big_lt(&cand, &self.n);
            if !below && !above {
                return Some(d);
            }
            d = d + 1;
        }
        None
    }

    /// The character for a digit value.
    fn digit_to_char(d: u8) -> (c: char)
        requires
            d <= 9,
        ensures
            c == digit_char(d as int),
    {
        if d == 0 {
            '0'
        } else if d == 1 {
            '1'
        } else if d == 2 {
            '2'
        } else if d == 3 {
            '3'
        } else if d == 4 {
            '4'
        } else if d == 5 {
            '5'
        } else if d == 6 {
            '6'
        } else if d == 7 {
            '7'
        } else if d == 8 {
            '8'
        } else {
            '9'
        }
    }

    /// Produce the next character of the expansion, spending at most `fuel`
    /// refinement steps on the digit search.
    ///
    /// The search always certifies a digit after a few steps in practice, but
    /// its convergence has no provable step bound, so the caller supplies the
    /// budget; `None` means the budget ran out (the work done is kept, and a
    /// later request resumes the search).
    pub fn next(&mut self, fuel: u64) -> (r: Option<char>)
        requires
            model_wf(old(self)@),
        ensures
            model_wf(final(self)@),
            r == next_result(old(self)@, fuel as nat).0,
            final(self)@ == next_result(old(self)@, fuel as nat).1,
    {
        if self.given_first && !self.given_second {
            self.given_second = true;
            return Some('.');
        }
        let mut remaining: u64 = fuel;
        let mut found = self.digit_ready();
        while !found && remaining > 0
            invariant
                spigot_wf(self@.sp),
                self@.given_first == old(self)@.given_first,
                self@.given_second == old(self)@.given_second,
                remaining <= fuel,
                found == certified(self@.sp),
                search(old(self)@.sp, fuel as nat) == search(self@.sp, remaining as nat),
                self@.sp == refined_n(old(self)@.sp, (fuel - remaining) as nat),
            decreases remaining,
        {
            self.refine_step();
            remaining = remaining - 1;
            found = self.digit_ready();
        }
        if found {
            match self.small_digit() {
                Some(d) => {
                    let c = Engine::digit_to_char(d);
                    self.extract_step();
                    Some(c)
                },
                None => None,
            }
        } else {
            None
        }
    }

    /// Produce the next `count` characters, spending at most `fuel`
    /// refinement steps per character; `None` as soon as one request runs
    /// out of budget.
    pub fn take_chars(&mut self, count: usize, fuel: u64) -> (r: Option<Vec<char>>)
        requires
            model_wf(old(self)@),
        ensures
            model_wf(final(self)@),
            final(self)@ == run(old(self)@, count as nat, fuel as nat).1,
            match r {
                Some(v) => run(old(self)@, count as nat, fuel as nat).0 == Some(v@),
                None => run(old(self)@, count as nat, fuel as nat).0 is None,
            },
    {
        let mut out: Vec<char> = Vec::new();
        let mut i: usize = 0;
        while i < count
            invariant
                model_wf(self@),
                i <= count,
                out@.len() == i as int,
                run(old(self)@, count as nat, fuel as nat).1 == run(
                    self@,
                    (count - i) as nat,
                    fuel as nat,
                ).1,
                run(old(self)@, count as nat, fuel as nat).0 == (match run(
                    self@,
                    (count - i) as nat,
                    fuel as nat,
                ).0 {
                    Some(s) => Some(out@ + s),
                    None => None::<Seq<char>>,
                }),
            decreases count - i,
        {
            let ghost pre = self@;
            let ghost out_old = out@;
            let step = self.next(fuel);
            match step {
                None => {
                    return None;
                },
                Some(ch) => {
                    out.push(ch);
                    i = i + 1;
                    proof {
                        let rest = run(self@, (count - i) as nat, fuel as nat);
                        assert(out@ =~= out_old + seq![ch]);
                        if rest.0 is Some {
                            assert(out@ + rest.0->0 =~= out_old + (seq![ch] + rest.0->0));
                        }
                    }
                },
            }
        }
        proof {
            assert(out@ + Seq::<char>::empty() =~= out@);
        }
        Some(out)
    }
}

impl Default for Engine {
    /// Same fresh state as `Engine::new`.
    fn default() -> (e: Engine)
        ensures
            e@ == init_model(),
            model_wf(e@),
    {
        Engine::new()
    }
}

} // verus!
