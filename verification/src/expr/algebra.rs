//! Steps of real algebra, one at a time.
use vstd::prelude::*;

verus! {

pub proof fn mul_comm(a: real, b: real)
    ensures
        a * b == b * a,
{
    assert(a * b == b * a) by (nonlinear_arith);
}

pub proof fn mul_assoc(a: real, b: real, c: real)
    ensures
        (a * b) * c == a * (b * c),
{
    assert((a * b) * c == a * (b * c)) by (nonlinear_arith);
}

/// The last two factors can change places.
pub proof fn mul_swap(a: real, b: real, c: real)
    ensures
        (a * b) * c == (a * c) * b,
{
    mul_assoc(a, b, c);
    mul_assoc(a, c, b);
    mul_comm(b, c);
}

/// A factor moves to the front.
pub proof fn mul_front(a: real, k: real, b: real)
    ensures
        a * (k * b) == k * (a * b),
{
    mul_assoc(a, k, b);
    mul_assoc(k, a, b);
    mul_comm(a, k);
}

/// Equal factors give equal products.
pub proof fn mul_eq(a: real, b: real, c: real, d: real)
    requires
        a == c,
        b == d,
    ensures
        a * b == c * d,
{
}

pub proof fn dist_add(a: real, b: real, w: real)
    ensures
        (a + b) * w == a * w + b * w,
{
    assert((a + b) * w == a * w + b * w) by (nonlinear_arith);
}

pub proof fn dist_sub(a: real, b: real, w: real)
    ensures
        (a - b) * w == a * w - b * w,
{
    assert((a - b) * w == a * w - b * w) by (nonlinear_arith);
}

pub proof fn dist_neg(a: real, w: real)
    ensures
        (-a) * w == -(a * w),
{
    assert((-a) * w == -(a * w)) by (nonlinear_arith);
}

pub proof fn dist_add_left(w: real, a: real, b: real)
    ensures
        w * (a + b) == w * a + w * b,
{
    assert(w * (a + b) == w * a + w * b) by (nonlinear_arith);
}

pub proof fn dist_sub_left(w: real, a: real, b: real)
    ensures
        w * (a - b) == w * a - w * b,
{
    assert(w * (a - b) == w * a - w * b) by (nonlinear_arith);
}

pub proof fn dist_neg_left(w: real, a: real)
    ensures
        w * (-a) == -(w * a),
{
    assert(w * (-a) == -(w * a)) by (nonlinear_arith);
}

/// A quotient is the product with the reciprocal.
pub proof fn div_is_mul(a: real, b: real)
    requires
        b != 0real,
    ensures
        a / b == a * (1real / b),
{
    assert(a / b == a * (1real / b)) by (nonlinear_arith)
        requires
            b != 0real,
    ;
}

/// A quotient times its divisor is the dividend.
pub proof fn div_undone(a: real, b: real)
    requires
        b != 0real,
    ensures
        (a / b) * b == a,
{
    assert((a / b) * b == a) by (nonlinear_arith)
        requires
            b != 0real,
    ;
}

/// A product of numbers that are not zero is not zero.
pub proof fn product_not_zero(a: real, b: real)
    requires
        a != 0real,
        b != 0real,
    ensures
        a * b != 0real,
{
    assert(a * b != 0real) by (nonlinear_arith)
        requires
            a != 0real,
            b != 0real,
    ;
}

/// A number times its reciprocal is one.
pub proof fn reciprocal(l: real)
    requires
        l != 0real,
    ensures
        l * (1real / l) == 1real,
{
    assert(l * (1real / l) == 1real) by (nonlinear_arith)
        requires
            l != 0real,
    ;
}

/// A root of a positive number is positive.
pub proof fn root_positive(l: real, sq: real)
    requires
        l * l == sq,
        l >= 0real,
        sq > 0real,
    ensures
        l > 0real,
{
    if l == 0real {
        assert(l * l == 0real) by (nonlinear_arith)
            requires
                l == 0real,
        ;
    }
}

/// Roots that are not negative are equal where their squares are.
pub proof fn same_root(l: real, r: real, sq: real)
    requires
        l >= 0real,
        r >= 0real,
        l * l == sq,
        r * r == sq,
    ensures
        l == r,
{
    assert((l - r) * (l + r) == l * l - r * r) by (nonlinear_arith);
    if l != r {
        assert((l - r) * (l + r) != 0real) by (nonlinear_arith)
            requires
                l >= 0real,
                r >= 0real,
                l != r,
        ;
    }
}

} // verus!
