//! Evaluation of textual scalar expressions over the single variable `t`,
//! and the symmetric finite-difference primitive that derives higher
//! derivatives from any such expression.
//!
//! Whether an expression evaluates at all is fasteval's own deterministic
//! parse-and-lookup decision, named below by [`eval_ok`]. The evaluated
//! value, however, goes through the platform's double-precision math
//! library, whose precision Rust leaves open, so no spec function names it:
//! the contracts state only what holds of every outcome — a failed
//! evaluation yields the quiet NaN, and a derivative is some value built
//! from such outcomes by the stated difference dag.

use vstd::prelude::*;
use crate::scalar::{Scalar, NAN_BITS, TWO_BITS, s_of, s_add, s_sub, s_mul, s_div};

verus! {

/// Whether `fasteval::ez_eval` succeeds on an expression over the single
/// variable `t` with the given binding: parsing and error detection are
/// fasteval's own code, so success is determined by the expression text and
/// the binding alone. The evaluated value is deliberately not named.
pub uninterp spec fn eval_ok(expr: Seq<char>, t_bits: u64) -> bool;

/// Relies on `fasteval::ez_eval`: parses the expression and evaluates it
/// with `t` bound to the given double. `libm::copysign` of a value with
/// itself is the bit-exact identity that gives the bit-cast binding its
/// floating type.
#[verifier::external_body]
fn eval_expr(expr: &str, t: Scalar) -> (r: Option<Scalar>)
    ensures
        r is Some <==> eval_ok(expr@, t.bits),
{
    let tv = libm::copysign(bytemuck::cast(t.bits), bytemuck::cast(t.bits));
    let mut ns = std::collections::BTreeMap::new();
    ns.insert("t".to_owned(), tv);
    match fasteval::ez_eval(expr, &mut ns) {
        Ok(v) => Some(Scalar { bits: bytemuck::cast(v) }),
        Err(_) => None,
    }
}

/// What holds of every evaluation outcome: where fasteval fails, the
/// reported value is the quiet NaN, which then propagates through the
/// arithmetic instead of being recovered from. Where it succeeds, the value
/// is whatever the platform's math library produced.
pub open spec fn spec_eval_outcome(expr: Seq<char>, t: Scalar, r: Scalar) -> bool {
    !eval_ok(expr, t.bits) ==> r.bits == NAN_BITS
}

/// Evaluates the expression at `t`; where fasteval fails the result is the
/// quiet NaN.
pub fn eval_or_nan(expr: &str, t: Scalar) -> (r: Scalar)
    ensures
        spec_eval_outcome(expr@, t, r),
{
    match eval_expr(expr, t) {
        Some(v) => v,
        None => Scalar::from_bits(NAN_BITS),
    }
}

/// What holds of an `n`-fold symmetric difference of the expression's
/// value: order 0 is an evaluation outcome itself, and each further order
/// is `(previous(x + delta) - previous(x - delta)) / (delta * 2)` for some
/// pair of previous-order outcomes.
pub open spec fn spec_df_rel(expr: Seq<char>, n: nat, x: Scalar, delta: Scalar, r: Scalar) -> bool
    decreases n,
{
    if n == 0 {
        spec_eval_outcome(expr, x, r)
    } else {
        exists|a: Scalar, b: Scalar|
            #![auto]
            spec_df_rel(expr, (n - 1) as nat, s_add(x, delta), delta, a)
                && spec_df_rel(expr, (n - 1) as nat, s_sub(x, delta), delta, b)
                && r == s_div(s_sub(a, b), s_mul(delta, s_of(TWO_BITS)))
    }
}

/// The derivative order an `i32` request denotes: zero for any
/// non-positive request.
pub open spec fn spec_df_order(n: i32) -> nat {
    if n <= 0 {
        0
    } else {
        n as nat
    }
}

/// The generic symmetric-difference primitive: recursively applies
/// `(f(x + d) - f(x - d)) / (2 d)` `n` times to the expression's value.
/// Pure and unbounded: the recursion depth is exactly the derivative order.
pub fn df(expr: &str, n: i32, x: Scalar, delta: Scalar) -> (r: Scalar)
    ensures
        spec_df_rel(expr@, spec_df_order(n), x, delta, r),
    decreases spec_df_order(n),
{
    if n <= 0 {
        eval_or_nan(expr, x)
    } else {
        let a = df(expr, n - 1, x.add_s(delta), delta);
        let b = df(expr, n - 1, x.sub_s(delta), delta);
        let r = a.sub_s(b).div_s(delta.mul_s(Scalar::from_bits(TWO_BITS)));
        proof {
            let nn = spec_df_order(n);
            assert(spec_df_order((n - 1) as i32) == (nn - 1) as nat);
            assert(spec_df_rel(expr@, (nn - 1) as nat, s_add(x, delta), delta, a));
            assert(spec_df_rel(expr@, (nn - 1) as nat, s_sub(x, delta), delta, b));
            assert(r == s_div(s_sub(a, b), s_mul(delta, s_of(TWO_BITS))));
            assert(spec_df_rel(expr@, nn, x, delta, r));
        }
        r
    }
}

} // verus!
