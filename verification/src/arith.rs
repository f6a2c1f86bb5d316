//! Small facts of integer arithmetic that the algebraic proofs are assembled from.
//!
//! Each lemma expands one product of short sums into monomials, so that the
//! identities built on top of them reduce to linear arithmetic over those
//! monomials.
use vstd::prelude::*;

verus! {

/// Multiplication distributes over a sum of four terms, on either side.
pub proof fn lemma_mul_distributes_over_four(t1: int, t2: int, t3: int, t4: int, k: int)
    by (nonlinear_arith)
    ensures
        (t1 + t2 + t3 + t4) * k == t1 * k + t2 * k + t3 * k + t4 * k,
        k * (t1 + t2 + t3 + t4) == k * t1 + k * t2 + k * t3 + k * t4,
{
}

/// A coefficient `c` can be pulled out of a product with `k`, on either side.
pub proof fn lemma_mul_pull_coefficient(c: int, p: int, k: int)
    by (nonlinear_arith)
    ensures
        (c * p) * k == c * (p * k),
        k * (c * p) == c * (k * p),
{
}

/// Multiplication of integers is associative.
pub proof fn lemma_mul_reassociate(k: int, x: int, y: int)
    by (nonlinear_arith)
    ensures
        k * (x * y) == (k * x) * y,
{
}

/// A sum of four signed products, multiplied by `k` on the right, term by term.
pub proof fn lemma_expand_right(
    m: int, k: int,
    c1: int, x1: int, y1: int,
    c2: int, x2: int, y2: int,
    c3: int, x3: int, y3: int,
    c4: int, x4: int, y4: int,
)
    requires
        m == c1 * (x1 * y1) + c2 * (x2 * y2) + c3 * (x3 * y3) + c4 * (x4 * y4),
    ensures
        m * k == c1 * ((x1 * y1) * k) + c2 * ((x2 * y2) * k) + c3 * ((x3 * y3) * k) + c4 * ((x4
            * y4) * k),
{
    lemma_mul_distributes_over_four(
        c1 * (x1 * y1), c2 * (x2 * y2), c3 * (x3 * y3), c4 * (x4 * y4), k);
    lemma_mul_pull_coefficient(c1, x1 * y1, k);
    lemma_mul_pull_coefficient(c2, x2 * y2, k);
    lemma_mul_pull_coefficient(c3, x3 * y3, k);
    lemma_mul_pull_coefficient(c4, x4 * y4, k);
}

/// A sum of four signed products, multiplied by `k` on the left, term by term.
pub proof fn lemma_expand_left(
    k: int, m: int,
    c1: int, x1: int, y1: int,
    c2: int, x2: int, y2: int,
    c3: int, x3: int, y3: int,
    c4: int, x4: int, y4: int,
)
    requires
        m == c1 * (x1 * y1) + c2 * (x2 * y2) + c3 * (x3 * y3) + c4 * (x4 * y4),
    ensures
        k * m == c1 * ((k * x1) * y1) + c2 * ((k * x2) * y2) + c3 * ((k * x3) * y3) + c4 * ((k
            * x4) * y4),
{
    lemma_mul_distributes_over_four(
        c1 * (x1 * y1), c2 * (x2 * y2), c3 * (x3 * y3), c4 * (x4 * y4), k);
    lemma_mul_pull_coefficient(c1, x1 * y1, k);
    lemma_mul_pull_coefficient(c2, x2 * y2, k);
    lemma_mul_pull_coefficient(c3, x3 * y3, k);
    lemma_mul_pull_coefficient(c4, x4 * y4, k);
    lemma_mul_reassociate(k, x1, y1);
    lemma_mul_reassociate(k, x2, y2);
    lemma_mul_reassociate(k, x3, y3);
    lemma_mul_reassociate(k, x4, y4);
}

/// Multiplication distributes over a sum of two terms, on either side.
pub proof fn lemma_mul_distributes_over_two(t1: int, t2: int, k: int)
    by (nonlinear_arith)
    ensures
        (t1 + t2) * k == t1 * k + t2 * k,
        k * (t1 + t2) == k * t1 + k * t2,
{
}

/// The product of two binomials `c1·x1 + c2·x2` and `d1·y1 + d2·y2`, as a
/// combination of the four products `x_·y_`.
pub proof fn lemma_mul_binomials(
    u: int, v: int,
    c1: int, x1: int, c2: int, x2: int,
    d1: int, y1: int, d2: int, y2: int,
)
    requires
        u == c1 * x1 + c2 * x2,
        v == d1 * y1 + d2 * y2,
    ensures
        u * v == c1 * (d1 * (x1 * y1) + d2 * (x1 * y2)) + c2 * (d1 * (x2 * y1) + d2 * (x2 * y2)),
{
    lemma_mul_distributes_over_two(c1 * x1, c2 * x2, v);
    lemma_mul_pull_coefficient(c1, x1, v);
    lemma_mul_pull_coefficient(c2, x2, v);
    lemma_mul_distributes_over_two(d1 * y1, d2 * y2, x1);
    lemma_mul_distributes_over_two(d1 * y1, d2 * y2, x2);
    lemma_mul_pull_coefficient(d1, y1, x1);
    lemma_mul_pull_coefficient(d2, y2, x1);
    lemma_mul_pull_coefficient(d1, y1, x2);
    lemma_mul_pull_coefficient(d2, y2, x2);
}

/// Multiplication of integers is commutative.
pub proof fn lemma_mul_commutes(x: int, y: int)
    by (nonlinear_arith)
    ensures
        x * y == y * x,
{
}

/// Signs move freely out of a product.
pub proof fn lemma_mul_signs(x: int, y: int)
    by (nonlinear_arith)
    ensures
        (-x) * y == -(x * y),
        x * (-y) == -(x * y),
        (-x) * (-y) == x * y,
{
}

/// `(x y) k = (x k) y`.
pub proof fn lemma_mul_swap(x: int, y: int, k: int)
    by (nonlinear_arith)
    ensures
        (x * y) * k == (x * k) * y,
{
}

/// A product with a factor zero is zero.
pub proof fn lemma_mul_by_zero(z: int, x: int)
    by (nonlinear_arith)
    requires
        z == 0,
    ensures
        z * x == 0,
        x * z == 0,
{
}

/// A sum of two signed products `x_ y_`, multiplied by `k`, as a sum of
/// products `(x_ k) y_`.
pub proof fn lemma_expand_two(
    u: int, k: int,
    c1: int, x1: int, y1: int,
    c2: int, x2: int, y2: int,
)
    requires
        u == c1 * (x1 * y1) + c2 * (x2 * y2),
    ensures
        u * k == c1 * ((x1 * k) * y1) + c2 * ((x2 * k) * y2),
{
    lemma_mul_distributes_over_two(c1 * (x1 * y1), c2 * (x2 * y2), k);
    lemma_mul_pull_coefficient(c1, x1 * y1, k);
    lemma_mul_pull_coefficient(c2, x2 * y2, k);
    lemma_mul_swap(x1, y1, k);
    lemma_mul_swap(x2, y2, k);
}

/// A sum of two signed terms, multiplied by `k`, term by term.
pub proof fn lemma_expand_terms(c1: int, t1: int, c2: int, t2: int, k: int)
    ensures
        (c1 * t1 + c2 * t2) * k == c1 * (t1 * k) + c2 * (t2 * k),
{
    lemma_mul_distributes_over_two(c1 * t1, c2 * t2, k);
    lemma_mul_pull_coefficient(c1, t1, k);
    lemma_mul_pull_coefficient(c2, t2, k);
}

/// `(a b) (c d) = (a c) (b d)`.
pub proof fn lemma_mul_interchange(a: int, b: int, c: int, d: int)
    by (nonlinear_arith)
    ensures
        (a * b) * (c * d) == (a * c) * (b * d),
{
}

/// Multiplication distributes over a difference, on either side.
pub proof fn lemma_mul_distributes_over_difference(x: int, y: int, k: int)
    by (nonlinear_arith)
    ensures
        (x - y) * k == x * k - y * k,
        k * (x - y) == k * x - k * y,
{
}

} // verus!
