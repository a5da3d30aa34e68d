//! Identities between polynomials behind the laws of vectors and matrices.
use crate::expr::algebra::{
    dist_add, dist_add_left, dist_neg, dist_neg_left, dist_sub, dist_sub_left, mul_assoc, mul_comm,
    mul_eq, mul_front, mul_swap,
};
use vstd::prelude::*;

verus! {

pub(crate) proof fn unit3(x: real, y: real, z: real, l: real, i: real)
    requires
        l * l == x * x + y * y + z * z,
        l * i == 1real,
    ensures
        x * i * (x * i) + y * i * (y * i) + z * i * (z * i) == 1real,
{
    assert(x * i * (x * i) == x * x * i * i) by {
        mul_swap(x, i, x);
        mul_assoc(x * i, x, i);
    }
    assert(y * i * (y * i) == y * y * i * i) by {
        mul_swap(y, i, y);
        mul_assoc(y * i, y, i);
    }
    assert(z * i * (z * i) == z * z * i * i) by {
        mul_swap(z, i, z);
        mul_assoc(z * i, z, i);
    }
    assert(l * l * i * i == x * x * i * i + y * y * i * i + z * z * i * i) by {
        mul_eq(i * i, l * l, i * i, x * x + y * y + z * z);
        mul_swap(i, i, l);
        mul_comm(i, l);
        mul_assoc(i * i, l, l);
        mul_swap(l * i, i, l);
        mul_swap(l, i, l);
        dist_add_left(i * i, x * x + y * y, z * z);
        dist_add_left(i * i, x * x, y * y);
        mul_swap(i, i, x);
        mul_comm(i, x);
        mul_assoc(i * i, x, x);
        mul_swap(x * i, i, x);
        mul_swap(x, i, x);
        mul_swap(i, i, y);
        mul_comm(i, y);
        mul_assoc(i * i, y, y);
        mul_swap(y * i, i, y);
        mul_swap(y, i, y);
        mul_swap(i, i, z);
        mul_comm(i, z);
        mul_assoc(i * i, z, z);
        mul_swap(z * i, i, z);
        mul_swap(z, i, z);
    }
    assert(l * l * i * i == l * i) by {
        mul_eq(l * i, l * i, l * i, 1real);
        mul_swap(l, i, l);
        mul_assoc(l * i, l, i);
    }
}

pub(crate) proof fn unit4(w: real, x: real, y: real, z: real, l: real, i: real)
    requires
        l * l == w * w + x * x + y * y + z * z,
        l * i == 1real,
    ensures
        w * i * (w * i) + x * i * (x * i) + y * i * (y * i) + z * i * (z * i) == 1real,
{
    assert(w * i * (w * i) == w * w * i * i) by {
        mul_swap(w, i, w);
        mul_assoc(w * i, w, i);
    }
    assert(x * i * (x * i) == x * x * i * i) by {
        mul_swap(x, i, x);
        mul_assoc(x * i, x, i);
    }
    assert(y * i * (y * i) == y * y * i * i) by {
        mul_swap(y, i, y);
        mul_assoc(y * i, y, i);
    }
    assert(z * i * (z * i) == z * z * i * i) by {
        mul_swap(z, i, z);
        mul_assoc(z * i, z, i);
    }
    assert(l * l * i * i == w * w * i * i + x * x * i * i + y * y * i * i + z * z * i * i) by {
        mul_eq(i * i, l * l, i * i, w * w + x * x + y * y + z * z);
        mul_swap(i, i, l);
        mul_comm(i, l);
        mul_assoc(i * i, l, l);
        mul_swap(l * i, i, l);
        mul_swap(l, i, l);
        dist_add_left(i * i, w * w + x * x + y * y, z * z);
        dist_add_left(i * i, w * w + x * x, y * y);
        dist_add_left(i * i, w * w, x * x);
        mul_swap(i, i, w);
        mul_comm(i, w);
        mul_assoc(i * i, w, w);
        mul_swap(w * i, i, w);
        mul_swap(w, i, w);
        mul_swap(i, i, x);
        mul_comm(i, x);
        mul_assoc(i * i, x, x);
        mul_swap(x * i, i, x);
        mul_swap(x, i, x);
        mul_swap(i, i, y);
        mul_comm(i, y);
        mul_assoc(i * i, y, y);
        mul_swap(y * i, i, y);
        mul_swap(y, i, y);
        mul_swap(i, i, z);
        mul_comm(i, z);
        mul_assoc(i * i, z, z);
        mul_swap(z * i, i, z);
        mul_swap(z, i, z);
    }
    assert(l * l * i * i == l * i) by {
        mul_eq(l * i, l * i, l * i, 1real);
        mul_swap(l, i, l);
        mul_assoc(l * i, l, i);
    }
}

pub(crate) proof fn product_row(
    a: real,
    b: real,
    c: real,
    x0: real,
    y0: real,
    z0: real,
    x1: real,
    y1: real,
    z1: real,
    x2: real,
    y2: real,
    z2: real,
    x: real,
    y: real,
    z: real,
)
    ensures
        (a * x0 + b * y0 + c * z0) * x + (a * x1 + b * y1 + c * z1) * y
            + (a * x2 + b * y2 + c * z2) * z
            == a * (x0 * x + x1 * y + x2 * z) + b * (y0 * x + y1 * y + y2 * z)
            + c * (z0 * x + z1 * y + z2 * z),
{
    assert((a * x0 + b * y0 + c * z0) * x == a * x0 * x + b * y0 * x + c * z0 * x) by {
        dist_add(a * x0 + b * y0, c * z0, x);
        dist_add(a * x0, b * y0, x);
    }
    assert((a * x1 + b * y1 + c * z1) * y == a * x1 * y + b * y1 * y + c * z1 * y) by {
        dist_add(a * x1 + b * y1, c * z1, y);
        dist_add(a * x1, b * y1, y);
    }
    assert((a * x2 + b * y2 + c * z2) * z == a * x2 * z + b * y2 * z + c * z2 * z) by {
        dist_add(a * x2 + b * y2, c * z2, z);
        dist_add(a * x2, b * y2, z);
    }
    assert(a * (x0 * x + x1 * y + x2 * z) == a * x0 * x + a * x1 * y + a * x2 * z) by {
        dist_add_left(a, x0 * x + x1 * y, x2 * z);
        dist_add_left(a, x0 * x, x1 * y);
        mul_assoc(a, x0, x);
        mul_assoc(a, x1, y);
        mul_assoc(a, x2, z);
    }
    assert(b * (y0 * x + y1 * y + y2 * z) == b * y0 * x + b * y1 * y + b * y2 * z) by {
        dist_add_left(b, y0 * x + y1 * y, y2 * z);
        dist_add_left(b, y0 * x, y1 * y);
        mul_assoc(b, y0, x);
        mul_assoc(b, y1, y);
        mul_assoc(b, y2, z);
    }
    assert(c * (z0 * x + z1 * y + z2 * z) == c * z0 * x + c * z1 * y + c * z2 * z) by {
        dist_add_left(c, z0 * x + z1 * y, z2 * z);
        dist_add_left(c, z0 * x, z1 * y);
        mul_assoc(c, z0, x);
        mul_assoc(c, z1, y);
        mul_assoc(c, z2, z);
    }
}

pub(crate) proof fn adjoint3(
    x0: real,
    y0: real,
    z0: real,
    x1: real,
    y1: real,
    z1: real,
    x2: real,
    y2: real,
    z2: real,
    x: real,
    y: real,
    z: real,
    a: real,
    b: real,
    c: real,
)
    ensures
        (x0 * x + x1 * y + x2 * z) * a + (y0 * x + y1 * y + y2 * z) * b
            + (z0 * x + z1 * y + z2 * z) * c
            == x * (x0 * a + y0 * b + z0 * c) + y * (x1 * a + y1 * b + z1 * c)
            + z * (x2 * a + y2 * b + z2 * c),
{
    assert((x0 * x + x1 * y + x2 * z) * a == x0 * x * a + x1 * y * a + x2 * z * a) by {
        dist_add(x0 * x + x1 * y, x2 * z, a);
        dist_add(x0 * x, x1 * y, a);
    }
    assert((y0 * x + y1 * y + y2 * z) * b == y0 * x * b + y1 * y * b + y2 * z * b) by {
        dist_add(y0 * x + y1 * y, y2 * z, b);
        dist_add(y0 * x, y1 * y, b);
    }
    assert((z0 * x + z1 * y + z2 * z) * c == z0 * x * c + z1 * y * c + z2 * z * c) by {
        dist_add(z0 * x + z1 * y, z2 * z, c);
        dist_add(z0 * x, z1 * y, c);
    }
    assert(x * (x0 * a + y0 * b + z0 * c) == x0 * x * a + y0 * x * b + z0 * x * c) by {
        dist_add_left(x, x0 * a + y0 * b, z0 * c);
        dist_add_left(x, x0 * a, y0 * b);
        mul_comm(x, x0);
        mul_assoc(x, x0, a);
        mul_comm(x, y0);
        mul_assoc(x, y0, b);
        mul_comm(x, z0);
        mul_assoc(x, z0, c);
    }
    assert(y * (x1 * a + y1 * b + z1 * c) == x1 * y * a + y1 * y * b + z1 * y * c) by {
        dist_add_left(y, x1 * a + y1 * b, z1 * c);
        dist_add_left(y, x1 * a, y1 * b);
        mul_comm(y, x1);
        mul_assoc(y, x1, a);
        mul_comm(y, y1);
        mul_assoc(y, y1, b);
        mul_comm(y, z1);
        mul_assoc(y, z1, c);
    }
    assert(z * (x2 * a + y2 * b + z2 * c) == x2 * z * a + y2 * z * b + z2 * z * c) by {
        dist_add_left(z, x2 * a + y2 * b, z2 * c);
        dist_add_left(z, x2 * a, y2 * b);
        mul_comm(z, x2);
        mul_assoc(z, x2, a);
        mul_comm(z, y2);
        mul_assoc(z, y2, b);
        mul_comm(z, z2);
        mul_assoc(z, z2, c);
    }
}

pub(crate) proof fn adjoint2(
    x0: real,
    y0: real,
    x1: real,
    y1: real,
    x2: real,
    y2: real,
    x: real,
    y: real,
    z: real,
    a: real,
    b: real,
)
    ensures
        (x0 * x + x1 * y + x2 * z) * a + (y0 * x + y1 * y + y2 * z) * b
            == x * (x0 * a + y0 * b) + y * (x1 * a + y1 * b) + z * (x2 * a + y2 * b),
{
    assert((x0 * x + x1 * y + x2 * z) * a == x0 * x * a + x1 * y * a + x2 * z * a) by {
        dist_add(x0 * x + x1 * y, x2 * z, a);
        dist_add(x0 * x, x1 * y, a);
    }
    assert((y0 * x + y1 * y + y2 * z) * b == y0 * x * b + y1 * y * b + y2 * z * b) by {
        dist_add(y0 * x + y1 * y, y2 * z, b);
        dist_add(y0 * x, y1 * y, b);
    }
    assert(x * (x0 * a + y0 * b) == x0 * x * a + y0 * x * b) by {
        dist_add_left(x, x0 * a, y0 * b);
        mul_comm(x, x0);
        mul_assoc(x, x0, a);
        mul_comm(x, y0);
        mul_assoc(x, y0, b);
    }
    assert(y * (x1 * a + y1 * b) == x1 * y * a + y1 * y * b) by {
        dist_add_left(y, x1 * a, y1 * b);
        mul_comm(y, x1);
        mul_assoc(y, x1, a);
        mul_comm(y, y1);
        mul_assoc(y, y1, b);
    }
    assert(z * (x2 * a + y2 * b) == x2 * z * a + y2 * z * b) by {
        dist_add_left(z, x2 * a, y2 * b);
        mul_comm(z, x2);
        mul_assoc(z, x2, a);
        mul_comm(z, y2);
        mul_assoc(z, y2, b);
    }
}

pub(crate) proof fn gram_row(
    a: real,
    b: real,
    c: real,
    x0: real,
    y0: real,
    z0: real,
    x1: real,
    y1: real,
    z1: real,
    x2: real,
    y2: real,
    z2: real,
    x: real,
    y: real,
    z: real,
)
    ensures
        (a * x0 + b * x1 + c * x2) * x + (a * y0 + b * y1 + c * y2) * y
            + (a * z0 + b * z1 + c * z2) * z
            == a * (x0 * x + y0 * y + z0 * z) + b * (x1 * x + y1 * y + z1 * z)
            + c * (x2 * x + y2 * y + z2 * z),
{
    assert((a * x0 + b * x1 + c * x2) * x == a * x0 * x + b * x1 * x + c * x2 * x) by {
        dist_add(a * x0 + b * x1, c * x2, x);
        dist_add(a * x0, b * x1, x);
    }
    assert((a * y0 + b * y1 + c * y2) * y == a * y0 * y + b * y1 * y + c * y2 * y) by {
        dist_add(a * y0 + b * y1, c * y2, y);
        dist_add(a * y0, b * y1, y);
    }
    assert((a * z0 + b * z1 + c * z2) * z == a * z0 * z + b * z1 * z + c * z2 * z) by {
        dist_add(a * z0 + b * z1, c * z2, z);
        dist_add(a * z0, b * z1, z);
    }
    assert(a * (x0 * x + y0 * y + z0 * z) == a * x0 * x + a * y0 * y + a * z0 * z) by {
        dist_add_left(a, x0 * x + y0 * y, z0 * z);
        dist_add_left(a, x0 * x, y0 * y);
        mul_assoc(a, x0, x);
        mul_assoc(a, y0, y);
        mul_assoc(a, z0, z);
    }
    assert(b * (x1 * x + y1 * y + z1 * z) == b * x1 * x + b * y1 * y + b * z1 * z) by {
        dist_add_left(b, x1 * x + y1 * y, z1 * z);
        dist_add_left(b, x1 * x, y1 * y);
        mul_assoc(b, x1, x);
        mul_assoc(b, y1, y);
        mul_assoc(b, z1, z);
    }
    assert(c * (x2 * x + y2 * y + z2 * z) == c * x2 * x + c * y2 * y + c * z2 * z) by {
        dist_add_left(c, x2 * x + y2 * y, z2 * z);
        dist_add_left(c, x2 * x, y2 * y);
        mul_assoc(c, x2, x);
        mul_assoc(c, y2, y);
        mul_assoc(c, z2, z);
    }
}

pub(crate) proof fn inverse_undone(a: real, b: real, c: real, i: real, x: real, y: real)
    requires
        (a * c - b * b) * i == 1real,
    ensures
        a * (c * i * x + (-b) * i * y) + b * ((-b) * i * x + a * i * y) == x,
        b * (c * i * x + (-b) * i * y) + c * ((-b) * i * x + a * i * y) == y,
        c * i * (a * x + b * y) + (-b) * i * (b * x + c * y) == x,
        (-b) * i * (a * x + b * y) + a * i * (b * x + c * y) == y,
{
    assert((a * c - b * b) * i == a * c * i - b * b * i) by {
        dist_sub(a * c, b * b, i);
    }
    assert((-b) * i == -(b * i)) by {
        dist_neg(b, i);
    }
    assert((-b) * i * y == -(b * i * y)) by {
        mul_eq((-b) * i, y, -(b * i), y);
        dist_neg(b * i, y);
    }
    assert(a * (c * i * x + (-b) * i * y) == -(a * b * i * y) + a * c * i * x) by {
        mul_eq(a, c * i * x + (-b) * i * y, a, -(b * i * y) + c * i * x);
        dist_add_left(a, -(b * i * y), c * i * x);
        dist_neg_left(a, b * i * y);
        mul_assoc(a, b, i);
        mul_assoc(a, b * i, y);
        mul_assoc(a, c, i);
        mul_assoc(a, c * i, x);
    }
    assert((-b) * i * x == -(b * i * x)) by {
        mul_eq((-b) * i, x, -(b * i), x);
        dist_neg(b * i, x);
    }
    assert(b * ((-b) * i * x + a * i * y) == a * b * i * y - b * b * i * x) by {
        mul_eq(b, (-b) * i * x + a * i * y, b, a * i * y - b * i * x);
        dist_sub_left(b, a * i * y, b * i * x);
        mul_comm(b, a);
        mul_assoc(b, a, i);
        mul_assoc(b, a * i, y);
        mul_assoc(b, b, i);
        mul_assoc(b, b * i, x);
    }
    assert(a * c * i * x - b * b * i * x == x) by {
        mul_eq(x, (a * c - b * b) * i, x, 1real);
        mul_eq(x, (a * c - b * b) * i, x, a * c * i - b * b * i);
        dist_sub_left(x, a * c * i, b * b * i);
        mul_comm(x, a);
        mul_assoc(x, a, c);
        mul_swap(a, x, c);
        mul_assoc(x, a * c, i);
        mul_swap(a * c, x, i);
        mul_comm(x, b);
        mul_assoc(x, b, b);
        mul_swap(b, x, b);
        mul_assoc(x, b * b, i);
        mul_swap(b * b, x, i);
    }
    assert(b * (c * i * x + (-b) * i * y) == -(b * b * i * y) + b * c * i * x) by {
        mul_eq(b, c * i * x + (-b) * i * y, b, -(b * i * y) + c * i * x);
        dist_add_left(b, -(b * i * y), c * i * x);
        dist_neg_left(b, b * i * y);
        mul_assoc(b, b, i);
        mul_assoc(b, b * i, y);
        mul_assoc(b, c, i);
        mul_assoc(b, c * i, x);
    }
    assert(c * ((-b) * i * x + a * i * y) == a * c * i * y - b * c * i * x) by {
        mul_eq(c, (-b) * i * x + a * i * y, c, a * i * y - b * i * x);
        dist_sub_left(c, a * i * y, b * i * x);
        mul_comm(c, a);
        mul_assoc(c, a, i);
        mul_assoc(c, a * i, y);
        mul_comm(c, b);
        mul_assoc(c, b, i);
        mul_assoc(c, b * i, x);
    }
    assert(a * c * i * y - b * b * i * y == y) by {
        mul_eq(y, (a * c - b * b) * i, y, 1real);
        mul_eq(y, (a * c - b * b) * i, y, a * c * i - b * b * i);
        dist_sub_left(y, a * c * i, b * b * i);
        mul_comm(y, a);
        mul_assoc(y, a, c);
        mul_swap(a, y, c);
        mul_assoc(y, a * c, i);
        mul_swap(a * c, y, i);
        mul_comm(y, b);
        mul_assoc(y, b, b);
        mul_swap(b, y, b);
        mul_assoc(y, b * b, i);
        mul_swap(b * b, y, i);
    }
    assert(c * i * (a * x + b * y) == a * c * i * x + b * c * i * y) by {
        dist_add_left(c * i, a * x, b * y);
        mul_swap(c, i, a);
        mul_comm(c, a);
        mul_assoc(c * i, a, x);
        mul_swap(c, i, b);
        mul_comm(c, b);
        mul_assoc(c * i, b, y);
    }
    assert((-b) * i * (b * x + c * y) == -(b * b * i * x) - b * c * i * y) by {
        mul_eq((-b) * i, b * x + c * y, -(b * i), b * x + c * y);
        dist_neg(b * i, b * x + c * y);
        dist_add_left(b * i, b * x, c * y);
        mul_swap(b, i, b);
        mul_assoc(b * i, b, x);
        mul_swap(b, i, c);
        mul_assoc(b * i, c, y);
    }
    assert((-b) * i * (a * x + b * y) == -(a * b * i * x) - b * b * i * y) by {
        mul_eq((-b) * i, a * x + b * y, -(b * i), a * x + b * y);
        dist_neg(b * i, a * x + b * y);
        dist_add_left(b * i, a * x, b * y);
        mul_swap(b, i, a);
        mul_comm(b, a);
        mul_assoc(b * i, a, x);
        mul_swap(b, i, b);
        mul_assoc(b * i, b, y);
    }
    assert(a * i * (b * x + c * y) == a * b * i * x + a * c * i * y) by {
        dist_add_left(a * i, b * x, c * y);
        mul_swap(a, i, b);
        mul_assoc(a * i, b, x);
        mul_swap(a, i, c);
        mul_assoc(a * i, c, y);
    }
}

pub(crate) proof fn rotation_columns(w: real, x: real, y: real, z: real)
    requires
        w * w + x * x + y * y + z * z == 1real,
    ensures
        (1real - 2real * (y * y + z * z)) * (1real - 2real * (y * y + z * z))
            + 2real * (x * y + w * z) * (2real * (x * y + w * z))
            + 2real * (x * z - w * y) * (2real * (x * z - w * y)) == 1real,
        2real * (x * y - w * z) * (2real * (x * y - w * z))
            + (1real - 2real * (x * x + z * z)) * (1real - 2real * (x * x + z * z))
            + 2real * (y * z + w * x) * (2real * (y * z + w * x)) == 1real,
        2real * (x * z + w * y) * (2real * (x * z + w * y))
            + 2real * (y * z - w * x) * (2real * (y * z - w * x))
            + (1real - 2real * (x * x + y * y)) * (1real - 2real * (x * x + y * y)) == 1real,
        (1real - 2real * (y * y + z * z)) * (2real * (x * y - w * z))
            + 2real * (x * y + w * z) * (1real - 2real * (x * x + z * z))
            + 2real * (x * z - w * y) * (2real * (y * z + w * x)) == 0real,
        (1real - 2real * (y * y + z * z)) * (2real * (x * z + w * y))
            + 2real * (x * y + w * z) * (2real * (y * z - w * x))
            + 2real * (x * z - w * y) * (1real - 2real * (x * x + y * y)) == 0real,
        2real * (x * y - w * z) * (2real * (x * z + w * y))
            + (1real - 2real * (x * x + z * z)) * (2real * (y * z - w * x))
            + 2real * (y * z + w * x) * (1real - 2real * (x * x + y * y)) == 0real,
{
    assert((1real - 2real * (y * y + z * z)) * (1real - 2real * (y * y + z * z))
        == 1real - 4real * (y * y) - 4real * (z * z) + 4real * (y * y * y * y)
        + 8real * (y * y * z * z) + 4real * (z * z * z * z)) by {
        mul_eq(1real - 2real * (y * y + z * z), 1real - 2real * (y * y + z * z),
            1real - 2real * (y * y) - 2real * (z * z), 1real - 2real * (y * y) - 2real * (z * z));
        dist_sub(1real - 2real * (y * y), 2real * (z * z),
            1real - 2real * (y * y) - 2real * (z * z));
        dist_sub(1real, 2real * (y * y), 1real - 2real * (y * y) - 2real * (z * z));
        mul_assoc(2real, y * y, 1real - 2real * (y * y) - 2real * (z * z));
        dist_sub_left(y * y, 1real - 2real * (y * y), 2real * (z * z));
        dist_sub_left(y * y, 1real, 2real * (y * y));
        mul_front(y * y, 2real, y * y);
        mul_assoc(y * y, y, y);
        mul_front(y * y, 2real, z * z);
        mul_assoc(y * y, z, z);
        mul_assoc(2real, z * z, 1real - 2real * (y * y) - 2real * (z * z));
        dist_sub_left(z * z, 1real - 2real * (y * y), 2real * (z * z));
        dist_sub_left(z * z, 1real, 2real * (y * y));
        mul_front(z * z, 2real, y * y);
        mul_swap(z, z, y);
        mul_comm(z, y);
        mul_assoc(z * z, y, y);
        mul_swap(y * z, z, y);
        mul_swap(y, z, y);
        mul_front(z * z, 2real, z * z);
        mul_assoc(z * z, z, z);
    }
    assert(2real * (x * y + w * z) * (2real * (x * y + w * z))
        == 4real * (w * w * z * z) + 8real * (w * x * y * z) + 4real * (x * x * y * y)) by {
        mul_eq(2real * (x * y + w * z), 2real * (x * y + w * z), 2real * (w * z) + 2real * (x * y),
            2real * (w * z) + 2real * (x * y));
        dist_add(2real * (w * z), 2real * (x * y), 2real * (w * z) + 2real * (x * y));
        mul_assoc(2real, w * z, 2real * (w * z) + 2real * (x * y));
        dist_add_left(w * z, 2real * (w * z), 2real * (x * y));
        mul_front(w * z, 2real, w * z);
        mul_swap(w, z, w);
        mul_assoc(w * z, w, z);
        mul_front(w * z, 2real, x * y);
        mul_swap(w, z, x);
        mul_assoc(w * z, x, y);
        mul_swap(w * x, z, y);
        mul_assoc(2real, x * y, 2real * (w * z) + 2real * (x * y));
        dist_add_left(x * y, 2real * (w * z), 2real * (x * y));
        mul_front(x * y, 2real, w * z);
        mul_swap(x, y, w);
        mul_comm(x, w);
        mul_assoc(x * y, w, z);
        mul_front(x * y, 2real, x * y);
        mul_swap(x, y, x);
        mul_assoc(x * y, x, y);
    }
    assert(2real * (x * z - w * y) * (2real * (x * z - w * y))
        == 4real * (w * w * y * y) - 8real * (w * x * y * z) + 4real * (x * x * z * z)) by {
        mul_eq(2real * (x * z - w * y), 2real * (x * z - w * y),
            -(2real * (w * y)) + 2real * (x * z), -(2real * (w * y)) + 2real * (x * z));
        dist_add(-(2real * (w * y)), 2real * (x * z), -(2real * (w * y)) + 2real * (x * z));
        dist_neg(2real * (w * y), -(2real * (w * y)) + 2real * (x * z));
        mul_assoc(2real, w * y, -(2real * (w * y)) + 2real * (x * z));
        dist_add_left(w * y, -(2real * (w * y)), 2real * (x * z));
        dist_neg_left(w * y, 2real * (w * y));
        mul_front(w * y, 2real, w * y);
        mul_swap(w, y, w);
        mul_assoc(w * y, w, y);
        mul_front(w * y, 2real, x * z);
        mul_swap(w, y, x);
        mul_assoc(w * y, x, z);
        mul_assoc(2real, x * z, -(2real * (w * y)) + 2real * (x * z));
        dist_add_left(x * z, -(2real * (w * y)), 2real * (x * z));
        dist_neg_left(x * z, 2real * (w * y));
        mul_front(x * z, 2real, w * y);
        mul_swap(x, z, w);
        mul_comm(x, w);
        mul_assoc(x * z, w, y);
        mul_swap(w * x, z, y);
        mul_front(x * z, 2real, x * z);
        mul_swap(x, z, x);
        mul_assoc(x * z, x, z);
    }
    assert(w * w * y * y + x * x * y * y + y * y * y * y + y * y * z * z == y * y) by {
        mul_eq(y * y, w * w + x * x + y * y + z * z, y * y, 1real);
        dist_add_left(y * y, w * w + x * x + y * y, z * z);
        dist_add_left(y * y, w * w + x * x, y * y);
        dist_add_left(y * y, w * w, x * x);
        mul_swap(y, y, w);
        mul_comm(y, w);
        mul_assoc(y * y, w, w);
        mul_swap(w * y, y, w);
        mul_swap(w, y, w);
        mul_swap(y, y, x);
        mul_comm(y, x);
        mul_assoc(y * y, x, x);
        mul_swap(x * y, y, x);
        mul_swap(x, y, x);
        mul_assoc(y * y, y, y);
        mul_assoc(y * y, z, z);
    }
    assert(w * w * z * z + x * x * z * z + y * y * z * z + z * z * z * z == z * z) by {
        mul_eq(z * z, w * w + x * x + y * y + z * z, z * z, 1real);
        dist_add_left(z * z, w * w + x * x + y * y, z * z);
        dist_add_left(z * z, w * w + x * x, y * y);
        dist_add_left(z * z, w * w, x * x);
        mul_swap(z, z, w);
        mul_comm(z, w);
        mul_assoc(z * z, w, w);
        mul_swap(w * z, z, w);
        mul_swap(w, z, w);
        mul_swap(z, z, x);
        mul_comm(z, x);
        mul_assoc(z * z, x, x);
        mul_swap(x * z, z, x);
        mul_swap(x, z, x);
        mul_swap(z, z, y);
        mul_comm(z, y);
        mul_assoc(z * z, y, y);
        mul_swap(y * z, z, y);
        mul_swap(y, z, y);
        mul_assoc(z * z, z, z);
    }
    assert(2real * (x * y - w * z) * (2real * (x * y - w * z))
        == 4real * (w * w * z * z) - 8real * (w * x * y * z) + 4real * (x * x * y * y)) by {
        mul_eq(2real * (x * y - w * z), 2real * (x * y - w * z),
            -(2real * (w * z)) + 2real * (x * y), -(2real * (w * z)) + 2real * (x * y));
        dist_add(-(2real * (w * z)), 2real * (x * y), -(2real * (w * z)) + 2real * (x * y));
        dist_neg(2real * (w * z), -(2real * (w * z)) + 2real * (x * y));
        mul_assoc(2real, w * z, -(2real * (w * z)) + 2real * (x * y));
        dist_add_left(w * z, -(2real * (w * z)), 2real * (x * y));
        dist_neg_left(w * z, 2real * (w * z));
        mul_front(w * z, 2real, w * z);
        mul_swap(w, z, w);
        mul_assoc(w * z, w, z);
        mul_front(w * z, 2real, x * y);
        mul_swap(w, z, x);
        mul_assoc(w * z, x, y);
        mul_swap(w * x, z, y);
        mul_assoc(2real, x * y, -(2real * (w * z)) + 2real * (x * y));
        dist_add_left(x * y, -(2real * (w * z)), 2real * (x * y));
        dist_neg_left(x * y, 2real * (w * z));
        mul_front(x * y, 2real, w * z);
        mul_swap(x, y, w);
        mul_comm(x, w);
        mul_assoc(x * y, w, z);
        mul_front(x * y, 2real, x * y);
        mul_swap(x, y, x);
        mul_assoc(x * y, x, y);
    }
    assert((1real - 2real * (x * x + z * z)) * (1real - 2real * (x * x + z * z))
        == 1real - 4real * (x * x) - 4real * (z * z) + 4real * (x * x * x * x)
        + 8real * (x * x * z * z) + 4real * (z * z * z * z)) by {
        mul_eq(1real - 2real * (x * x + z * z), 1real - 2real * (x * x + z * z),
            1real - 2real * (x * x) - 2real * (z * z), 1real - 2real * (x * x) - 2real * (z * z));
        dist_sub(1real - 2real * (x * x), 2real * (z * z),
            1real - 2real * (x * x) - 2real * (z * z));
        dist_sub(1real, 2real * (x * x), 1real - 2real * (x * x) - 2real * (z * z));
        mul_assoc(2real, x * x, 1real - 2real * (x * x) - 2real * (z * z));
        dist_sub_left(x * x, 1real - 2real * (x * x), 2real * (z * z));
        dist_sub_left(x * x, 1real, 2real * (x * x));
        mul_front(x * x, 2real, x * x);
        mul_assoc(x * x, x, x);
        mul_front(x * x, 2real, z * z);
        mul_assoc(x * x, z, z);
        mul_assoc(2real, z * z, 1real - 2real * (x * x) - 2real * (z * z));
        dist_sub_left(z * z, 1real - 2real * (x * x), 2real * (z * z));
        dist_sub_left(z * z, 1real, 2real * (x * x));
        mul_front(z * z, 2real, x * x);
        mul_swap(z, z, x);
        mul_comm(z, x);
        mul_assoc(z * z, x, x);
        mul_swap(x * z, z, x);
        mul_swap(x, z, x);
        mul_front(z * z, 2real, z * z);
        mul_assoc(z * z, z, z);
    }
    assert(2real * (y * z + w * x) * (2real * (y * z + w * x))
        == 4real * (w * w * x * x) + 8real * (w * x * y * z) + 4real * (y * y * z * z)) by {
        mul_eq(2real * (y * z + w * x), 2real * (y * z + w * x), 2real * (w * x) + 2real * (y * z),
            2real * (w * x) + 2real * (y * z));
        dist_add(2real * (w * x), 2real * (y * z), 2real * (w * x) + 2real * (y * z));
        mul_assoc(2real, w * x, 2real * (w * x) + 2real * (y * z));
        dist_add_left(w * x, 2real * (w * x), 2real * (y * z));
        mul_front(w * x, 2real, w * x);
        mul_swap(w, x, w);
        mul_assoc(w * x, w, x);
        mul_front(w * x, 2real, y * z);
        mul_assoc(w * x, y, z);
        mul_assoc(2real, y * z, 2real * (w * x) + 2real * (y * z));
        dist_add_left(y * z, 2real * (w * x), 2real * (y * z));
        mul_front(y * z, 2real, w * x);
        mul_swap(y, z, w);
        mul_comm(y, w);
        mul_assoc(y * z, w, x);
        mul_swap(w * y, z, x);
        mul_swap(w, y, x);
        mul_front(y * z, 2real, y * z);
        mul_swap(y, z, y);
        mul_assoc(y * z, y, z);
    }
    assert(w * w * x * x + x * x * x * x + x * x * y * y + x * x * z * z == x * x) by {
        mul_eq(x * x, w * w + x * x + y * y + z * z, x * x, 1real);
        dist_add_left(x * x, w * w + x * x + y * y, z * z);
        dist_add_left(x * x, w * w + x * x, y * y);
        dist_add_left(x * x, w * w, x * x);
        mul_swap(x, x, w);
        mul_comm(x, w);
        mul_assoc(x * x, w, w);
        mul_swap(w * x, x, w);
        mul_swap(w, x, w);
        mul_assoc(x * x, x, x);
        mul_assoc(x * x, y, y);
        mul_assoc(x * x, z, z);
    }
    assert(2real * (x * z + w * y) * (2real * (x * z + w * y))
        == 4real * (w * w * y * y) + 8real * (w * x * y * z) + 4real * (x * x * z * z)) by {
        mul_eq(2real * (x * z + w * y), 2real * (x * z + w * y), 2real * (w * y) + 2real * (x * z),
            2real * (w * y) + 2real * (x * z));
        dist_add(2real * (w * y), 2real * (x * z), 2real * (w * y) + 2real * (x * z));
        mul_assoc(2real, w * y, 2real * (w * y) + 2real * (x * z));
        dist_add_left(w * y, 2real * (w * y), 2real * (x * z));
        mul_front(w * y, 2real, w * y);
        mul_swap(w, y, w);
        mul_assoc(w * y, w, y);
        mul_front(w * y, 2real, x * z);
        mul_swap(w, y, x);
        mul_assoc(w * y, x, z);
        mul_assoc(2real, x * z, 2real * (w * y) + 2real * (x * z));
        dist_add_left(x * z, 2real * (w * y), 2real * (x * z));
        mul_front(x * z, 2real, w * y);
        mul_swap(x, z, w);
        mul_comm(x, w);
        mul_assoc(x * z, w, y);
        mul_swap(w * x, z, y);
        mul_front(x * z, 2real, x * z);
        mul_swap(x, z, x);
        mul_assoc(x * z, x, z);
    }
    assert(2real * (y * z - w * x) * (2real * (y * z - w * x))
        == 4real * (w * w * x * x) - 8real * (w * x * y * z) + 4real * (y * y * z * z)) by {
        mul_eq(2real * (y * z - w * x), 2real * (y * z - w * x),
            -(2real * (w * x)) + 2real * (y * z), -(2real * (w * x)) + 2real * (y * z));
        dist_add(-(2real * (w * x)), 2real * (y * z), -(2real * (w * x)) + 2real * (y * z));
        dist_neg(2real * (w * x), -(2real * (w * x)) + 2real * (y * z));
        mul_assoc(2real, w * x, -(2real * (w * x)) + 2real * (y * z));
        dist_add_left(w * x, -(2real * (w * x)), 2real * (y * z));
        dist_neg_left(w * x, 2real * (w * x));
        mul_front(w * x, 2real, w * x);
        mul_swap(w, x, w);
        mul_assoc(w * x, w, x);
        mul_front(w * x, 2real, y * z);
        mul_assoc(w * x, y, z);
        mul_assoc(2real, y * z, -(2real * (w * x)) + 2real * (y * z));
        dist_add_left(y * z, -(2real * (w * x)), 2real * (y * z));
        dist_neg_left(y * z, 2real * (w * x));
        mul_front(y * z, 2real, w * x);
        mul_swap(y, z, w);
        mul_comm(y, w);
        mul_assoc(y * z, w, x);
        mul_swap(w * y, z, x);
        mul_swap(w, y, x);
        mul_front(y * z, 2real, y * z);
        mul_swap(y, z, y);
        mul_assoc(y * z, y, z);
    }
    assert((1real - 2real * (x * x + y * y)) * (1real - 2real * (x * x + y * y))
        == 1real - 4real * (x * x) - 4real * (y * y) + 4real * (x * x * x * x)
        + 8real * (x * x * y * y) + 4real * (y * y * y * y)) by {
        mul_eq(1real - 2real * (x * x + y * y), 1real - 2real * (x * x + y * y),
            1real - 2real * (x * x) - 2real * (y * y), 1real - 2real * (x * x) - 2real * (y * y));
        dist_sub(1real - 2real * (x * x), 2real * (y * y),
            1real - 2real * (x * x) - 2real * (y * y));
        dist_sub(1real, 2real * (x * x), 1real - 2real * (x * x) - 2real * (y * y));
        mul_assoc(2real, x * x, 1real - 2real * (x * x) - 2real * (y * y));
        dist_sub_left(x * x, 1real - 2real * (x * x), 2real * (y * y));
        dist_sub_left(x * x, 1real, 2real * (x * x));
        mul_front(x * x, 2real, x * x);
        mul_assoc(x * x, x, x);
        mul_front(x * x, 2real, y * y);
        mul_assoc(x * x, y, y);
        mul_assoc(2real, y * y, 1real - 2real * (x * x) - 2real * (y * y));
        dist_sub_left(y * y, 1real - 2real * (x * x), 2real * (y * y));
        dist_sub_left(y * y, 1real, 2real * (x * x));
        mul_front(y * y, 2real, x * x);
        mul_swap(y, y, x);
        mul_comm(y, x);
        mul_assoc(y * y, x, x);
        mul_swap(x * y, y, x);
        mul_swap(x, y, x);
        mul_front(y * y, 2real, y * y);
        mul_assoc(y * y, y, y);
    }
    assert((1real - 2real * (y * y + z * z)) * (2real * (x * y - w * z))
        == -(2real * (w * z)) + 2real * (x * y) + 4real * (w * y * y * z) + 4real * (w * z * z * z)
        - 4real * (x * y * y * y) - 4real * (x * y * z * z)) by {
        mul_eq(1real - 2real * (y * y + z * z), 2real * (x * y - w * z),
            1real - 2real * (y * y) - 2real * (z * z), -(2real * (w * z)) + 2real * (x * y));
        dist_sub(1real - 2real * (y * y), 2real * (z * z), -(2real * (w * z)) + 2real * (x * y));
        dist_sub(1real, 2real * (y * y), -(2real * (w * z)) + 2real * (x * y));
        mul_assoc(2real, y * y, -(2real * (w * z)) + 2real * (x * y));
        dist_add_left(y * y, -(2real * (w * z)), 2real * (x * y));
        dist_neg_left(y * y, 2real * (w * z));
        mul_front(y * y, 2real, w * z);
        mul_swap(y, y, w);
        mul_comm(y, w);
        mul_assoc(y * y, w, z);
        mul_front(y * y, 2real, x * y);
        mul_swap(y, y, x);
        mul_comm(y, x);
        mul_assoc(y * y, x, y);
        mul_assoc(2real, z * z, -(2real * (w * z)) + 2real * (x * y));
        dist_add_left(z * z, -(2real * (w * z)), 2real * (x * y));
        dist_neg_left(z * z, 2real * (w * z));
        mul_front(z * z, 2real, w * z);
        mul_swap(z, z, w);
        mul_comm(z, w);
        mul_assoc(z * z, w, z);
        mul_front(z * z, 2real, x * y);
        mul_swap(z, z, x);
        mul_comm(z, x);
        mul_assoc(z * z, x, y);
        mul_swap(x * z, z, y);
        mul_swap(x, z, y);
    }
    assert(2real * (x * y + w * z) * (1real - 2real * (x * x + z * z))
        == 2real * (w * z) + 2real * (x * y) - 4real * (w * x * x * z) - 4real * (w * z * z * z)
        - 4real * (x * x * x * y) - 4real * (x * y * z * z)) by {
        mul_eq(2real * (x * y + w * z), 1real - 2real * (x * x + z * z),
            2real * (w * z) + 2real * (x * y), 1real - 2real * (x * x) - 2real * (z * z));
        dist_add(2real * (w * z), 2real * (x * y), 1real - 2real * (x * x) - 2real * (z * z));
        mul_assoc(2real, w * z, 1real - 2real * (x * x) - 2real * (z * z));
        dist_sub_left(w * z, 1real - 2real * (x * x), 2real * (z * z));
        dist_sub_left(w * z, 1real, 2real * (x * x));
        mul_front(w * z, 2real, x * x);
        mul_swap(w, z, x);
        mul_assoc(w * z, x, x);
        mul_swap(w * x, z, x);
        mul_front(w * z, 2real, z * z);
        mul_assoc(w * z, z, z);
        mul_assoc(2real, x * y, 1real - 2real * (x * x) - 2real * (z * z));
        dist_sub_left(x * y, 1real - 2real * (x * x), 2real * (z * z));
        dist_sub_left(x * y, 1real, 2real * (x * x));
        mul_front(x * y, 2real, x * x);
        mul_swap(x, y, x);
        mul_assoc(x * y, x, x);
        mul_swap(x * x, y, x);
        mul_front(x * y, 2real, z * z);
        mul_assoc(x * y, z, z);
    }
    assert(2real * (x * z - w * y) * (2real * (y * z + w * x))
        == -(4real * (w * w * x * y)) + 4real * (w * x * x * z) - 4real * (w * y * y * z)
        + 4real * (x * y * z * z)) by {
        mul_eq(2real * (x * z - w * y), 2real * (y * z + w * x),
            -(2real * (w * y)) + 2real * (x * z), 2real * (w * x) + 2real * (y * z));
        dist_add(-(2real * (w * y)), 2real * (x * z), 2real * (w * x) + 2real * (y * z));
        dist_neg(2real * (w * y), 2real * (w * x) + 2real * (y * z));
        mul_assoc(2real, w * y, 2real * (w * x) + 2real * (y * z));
        dist_add_left(w * y, 2real * (w * x), 2real * (y * z));
        mul_front(w * y, 2real, w * x);
        mul_swap(w, y, w);
        mul_assoc(w * y, w, x);
        mul_swap(w * w, y, x);
        mul_front(w * y, 2real, y * z);
        mul_assoc(w * y, y, z);
        mul_assoc(2real, x * z, 2real * (w * x) + 2real * (y * z));
        dist_add_left(x * z, 2real * (w * x), 2real * (y * z));
        mul_front(x * z, 2real, w * x);
        mul_swap(x, z, w);
        mul_comm(x, w);
        mul_assoc(x * z, w, x);
        mul_swap(w * x, z, x);
        mul_front(x * z, 2real, y * z);
        mul_swap(x, z, y);
        mul_assoc(x * z, y, z);
    }
    assert(w * w * x * y + x * x * x * y + x * y * y * y + x * y * z * z == x * y) by {
        mul_eq(x * y, w * w + x * x + y * y + z * z, x * y, 1real);
        dist_add_left(x * y, w * w + x * x + y * y, z * z);
        dist_add_left(x * y, w * w + x * x, y * y);
        dist_add_left(x * y, w * w, x * x);
        mul_swap(x, y, w);
        mul_comm(x, w);
        mul_assoc(x * y, w, w);
        mul_swap(w * x, y, w);
        mul_swap(w, x, w);
        mul_swap(x, y, x);
        mul_assoc(x * y, x, x);
        mul_swap(x * x, y, x);
        mul_assoc(x * y, y, y);
        mul_assoc(x * y, z, z);
    }
    assert((1real - 2real * (y * y + z * z)) * (2real * (x * z + w * y))
        == 2real * (w * y) + 2real * (x * z) - 4real * (w * y * y * y) - 4real * (w * y * z * z)
        - 4real * (x * y * y * z) - 4real * (x * z * z * z)) by {
        mul_eq(1real - 2real * (y * y + z * z), 2real * (x * z + w * y),
            1real - 2real * (y * y) - 2real * (z * z), 2real * (w * y) + 2real * (x * z));
        dist_sub(1real - 2real * (y * y), 2real * (z * z), 2real * (w * y) + 2real * (x * z));
        dist_sub(1real, 2real * (y * y), 2real * (w * y) + 2real * (x * z));
        mul_assoc(2real, y * y, 2real * (w * y) + 2real * (x * z));
        dist_add_left(y * y, 2real * (w * y), 2real * (x * z));
        mul_front(y * y, 2real, w * y);
        mul_swap(y, y, w);
        mul_comm(y, w);
        mul_assoc(y * y, w, y);
        mul_front(y * y, 2real, x * z);
        mul_swap(y, y, x);
        mul_comm(y, x);
        mul_assoc(y * y, x, z);
        mul_assoc(2real, z * z, 2real * (w * y) + 2real * (x * z));
        dist_add_left(z * z, 2real * (w * y), 2real * (x * z));
        mul_front(z * z, 2real, w * y);
        mul_swap(z, z, w);
        mul_comm(z, w);
        mul_assoc(z * z, w, y);
        mul_swap(w * z, z, y);
        mul_swap(w, z, y);
        mul_front(z * z, 2real, x * z);
        mul_swap(z, z, x);
        mul_comm(z, x);
        mul_assoc(z * z, x, z);
    }
    assert(2real * (x * y + w * z) * (2real * (y * z - w * x))
        == -(4real * (w * w * x * z)) - 4real * (w * x * x * y) + 4real * (w * y * z * z)
        + 4real * (x * y * y * z)) by {
        mul_eq(2real * (x * y + w * z), 2real * (y * z - w * x), 2real * (w * z) + 2real * (x * y),
            -(2real * (w * x)) + 2real * (y * z));
        dist_add(2real * (w * z), 2real * (x * y), -(2real * (w * x)) + 2real * (y * z));
        mul_assoc(2real, w * z, -(2real * (w * x)) + 2real * (y * z));
        dist_add_left(w * z, -(2real * (w * x)), 2real * (y * z));
        dist_neg_left(w * z, 2real * (w * x));
        mul_front(w * z, 2real, w * x);
        mul_swap(w, z, w);
        mul_assoc(w * z, w, x);
        mul_swap(w * w, z, x);
        mul_front(w * z, 2real, y * z);
        mul_swap(w, z, y);
        mul_assoc(w * z, y, z);
        mul_assoc(2real, x * y, -(2real * (w * x)) + 2real * (y * z));
        dist_add_left(x * y, -(2real * (w * x)), 2real * (y * z));
        dist_neg_left(x * y, 2real * (w * x));
        mul_front(x * y, 2real, w * x);
        mul_swap(x, y, w);
        mul_comm(x, w);
        mul_assoc(x * y, w, x);
        mul_swap(w * x, y, x);
        mul_front(x * y, 2real, y * z);
        mul_assoc(x * y, y, z);
    }
    assert(2real * (x * z - w * y) * (1real - 2real * (x * x + y * y))
        == -(2real * (w * y)) + 2real * (x * z) + 4real * (w * x * x * y) + 4real * (w * y * y * y)
        - 4real * (x * x * x * z) - 4real * (x * y * y * z)) by {
        mul_eq(2real * (x * z - w * y), 1real - 2real * (x * x + y * y),
            -(2real * (w * y)) + 2real * (x * z), 1real - 2real * (x * x) - 2real * (y * y));
        dist_add(-(2real * (w * y)), 2real * (x * z), 1real - 2real * (x * x) - 2real * (y * y));
        dist_neg(2real * (w * y), 1real - 2real * (x * x) - 2real * (y * y));
        mul_assoc(2real, w * y, 1real - 2real * (x * x) - 2real * (y * y));
        dist_sub_left(w * y, 1real - 2real * (x * x), 2real * (y * y));
        dist_sub_left(w * y, 1real, 2real * (x * x));
        mul_front(w * y, 2real, x * x);
        mul_swap(w, y, x);
        mul_assoc(w * y, x, x);
        mul_swap(w * x, y, x);
        mul_front(w * y, 2real, y * y);
        mul_assoc(w * y, y, y);
        mul_assoc(2real, x * z, 1real - 2real * (x * x) - 2real * (y * y));
        dist_sub_left(x * z, 1real - 2real * (x * x), 2real * (y * y));
        dist_sub_left(x * z, 1real, 2real * (x * x));
        mul_front(x * z, 2real, x * x);
        mul_swap(x, z, x);
        mul_assoc(x * z, x, x);
        mul_swap(x * x, z, x);
        mul_front(x * z, 2real, y * y);
        mul_swap(x, z, y);
        mul_assoc(x * z, y, y);
        mul_swap(x * y, z, y);
    }
    assert(w * w * x * z + x * x * x * z + x * y * y * z + x * z * z * z == x * z) by {
        mul_eq(x * z, w * w + x * x + y * y + z * z, x * z, 1real);
        dist_add_left(x * z, w * w + x * x + y * y, z * z);
        dist_add_left(x * z, w * w + x * x, y * y);
        dist_add_left(x * z, w * w, x * x);
        mul_swap(x, z, w);
        mul_comm(x, w);
        mul_assoc(x * z, w, w);
        mul_swap(w * x, z, w);
        mul_swap(w, x, w);
        mul_swap(x, z, x);
        mul_assoc(x * z, x, x);
        mul_swap(x * x, z, x);
        mul_swap(x, z, y);
        mul_assoc(x * z, y, y);
        mul_swap(x * y, z, y);
        mul_assoc(x * z, z, z);
    }
    assert(2real * (x * y - w * z) * (2real * (x * z + w * y))
        == -(4real * (w * w * y * z)) + 4real * (w * x * y * y) - 4real * (w * x * z * z)
        + 4real * (x * x * y * z)) by {
        mul_eq(2real * (x * y - w * z), 2real * (x * z + w * y),
            -(2real * (w * z)) + 2real * (x * y), 2real * (w * y) + 2real * (x * z));
        dist_add(-(2real * (w * z)), 2real * (x * y), 2real * (w * y) + 2real * (x * z));
        dist_neg(2real * (w * z), 2real * (w * y) + 2real * (x * z));
        mul_assoc(2real, w * z, 2real * (w * y) + 2real * (x * z));
        dist_add_left(w * z, 2real * (w * y), 2real * (x * z));
        mul_front(w * z, 2real, w * y);
        mul_swap(w, z, w);
        mul_assoc(w * z, w, y);
        mul_swap(w * w, z, y);
        mul_front(w * z, 2real, x * z);
        mul_swap(w, z, x);
        mul_assoc(w * z, x, z);
        mul_assoc(2real, x * y, 2real * (w * y) + 2real * (x * z));
        dist_add_left(x * y, 2real * (w * y), 2real * (x * z));
        mul_front(x * y, 2real, w * y);
        mul_swap(x, y, w);
        mul_comm(x, w);
        mul_assoc(x * y, w, y);
        mul_front(x * y, 2real, x * z);
        mul_swap(x, y, x);
        mul_assoc(x * y, x, z);
    }
    assert((1real - 2real * (x * x + z * z)) * (2real * (y * z - w * x))
        == -(2real * (w * x)) + 2real * (y * z) + 4real * (w * x * x * x) + 4real * (w * x * z * z)
        - 4real * (x * x * y * z) - 4real * (y * z * z * z)) by {
        mul_eq(1real - 2real * (x * x + z * z), 2real * (y * z - w * x),
            1real - 2real * (x * x) - 2real * (z * z), -(2real * (w * x)) + 2real * (y * z));
        dist_sub(1real - 2real * (x * x), 2real * (z * z), -(2real * (w * x)) + 2real * (y * z));
        dist_sub(1real, 2real * (x * x), -(2real * (w * x)) + 2real * (y * z));
        mul_assoc(2real, x * x, -(2real * (w * x)) + 2real * (y * z));
        dist_add_left(x * x, -(2real * (w * x)), 2real * (y * z));
        dist_neg_left(x * x, 2real * (w * x));
        mul_front(x * x, 2real, w * x);
        mul_swap(x, x, w);
        mul_comm(x, w);
        mul_assoc(x * x, w, x);
        mul_front(x * x, 2real, y * z);
        mul_assoc(x * x, y, z);
        mul_assoc(2real, z * z, -(2real * (w * x)) + 2real * (y * z));
        dist_add_left(z * z, -(2real * (w * x)), 2real * (y * z));
        dist_neg_left(z * z, 2real * (w * x));
        mul_front(z * z, 2real, w * x);
        mul_swap(z, z, w);
        mul_comm(z, w);
        mul_assoc(z * z, w, x);
        mul_swap(w * z, z, x);
        mul_swap(w, z, x);
        mul_front(z * z, 2real, y * z);
        mul_swap(z, z, y);
        mul_comm(z, y);
        mul_assoc(z * z, y, z);
    }
    assert(2real * (y * z + w * x) * (1real - 2real * (x * x + y * y))
        == 2real * (w * x) + 2real * (y * z) - 4real * (w * x * x * x) - 4real * (w * x * y * y)
        - 4real * (x * x * y * z) - 4real * (y * y * y * z)) by {
        mul_eq(2real * (y * z + w * x), 1real - 2real * (x * x + y * y),
            2real * (w * x) + 2real * (y * z), 1real - 2real * (x * x) - 2real * (y * y));
        dist_add(2real * (w * x), 2real * (y * z), 1real - 2real * (x * x) - 2real * (y * y));
        mul_assoc(2real, w * x, 1real - 2real * (x * x) - 2real * (y * y));
        dist_sub_left(w * x, 1real - 2real * (x * x), 2real * (y * y));
        dist_sub_left(w * x, 1real, 2real * (x * x));
        mul_front(w * x, 2real, x * x);
        mul_assoc(w * x, x, x);
        mul_front(w * x, 2real, y * y);
        mul_assoc(w * x, y, y);
        mul_assoc(2real, y * z, 1real - 2real * (x * x) - 2real * (y * y));
        dist_sub_left(y * z, 1real - 2real * (x * x), 2real * (y * y));
        dist_sub_left(y * z, 1real, 2real * (x * x));
        mul_front(y * z, 2real, x * x);
        mul_swap(y, z, x);
        mul_comm(y, x);
        mul_assoc(y * z, x, x);
        mul_swap(x * y, z, x);
        mul_swap(x, y, x);
        mul_front(y * z, 2real, y * y);
        mul_swap(y, z, y);
        mul_assoc(y * z, y, y);
        mul_swap(y * y, z, y);
    }
    assert(w * w * y * z + x * x * y * z + y * y * y * z + y * z * z * z == y * z) by {
        mul_eq(y * z, w * w + x * x + y * y + z * z, y * z, 1real);
        dist_add_left(y * z, w * w + x * x + y * y, z * z);
        dist_add_left(y * z, w * w + x * x, y * y);
        dist_add_left(y * z, w * w, x * x);
        mul_swap(y, z, w);
        mul_comm(y, w);
        mul_assoc(y * z, w, w);
        mul_swap(w * y, z, w);
        mul_swap(w, y, w);
        mul_swap(y, z, x);
        mul_comm(y, x);
        mul_assoc(y * z, x, x);
        mul_swap(x * y, z, x);
        mul_swap(x, y, x);
        mul_swap(y, z, y);
        mul_assoc(y * z, y, y);
        mul_swap(y * y, z, y);
        mul_assoc(y * z, z, z);
    }
}

pub(crate) proof fn half_form(a: real, b: real, c: real, h: real, x: real, y: real)
    requires
        2real * h == 1real,
    ensures
        2real * (h * (a * x * x + c * y * y) + b * x * y)
            == (a * x + b * y) * x + (b * x + c * y) * y,
{
    assert(h * (a * x * x + c * y * y) == a * h * x * x + c * h * y * y) by {
        dist_add_left(h, a * x * x, c * y * y);
        mul_comm(h, a);
        mul_assoc(h, a, x);
        mul_assoc(h, a * x, x);
        mul_comm(h, c);
        mul_assoc(h, c, y);
        mul_assoc(h, c * y, y);
    }
    assert((a * x + b * y) * x == a * x * x + b * x * y) by {
        dist_add(a * x, b * y, x);
        mul_swap(b, y, x);
    }
    assert((b * x + c * y) * y == b * x * y + c * y * y) by {
        dist_add(b * x, c * y, y);
    }
    assert(2real * (a * h * x * x) == a * x * x) by {
        mul_eq(a * x * x, 2real * h, a * x * x, 1real);
        mul_front(a * x * x, 2real, h);
        mul_swap(a * x, x, h);
        mul_swap(a, x, h);
    }
    assert(2real * (c * h * y * y) == c * y * y) by {
        mul_eq(c * y * y, 2real * h, c * y * y, 1real);
        mul_front(c * y * y, 2real, h);
        mul_swap(c * y, y, h);
        mul_swap(c, y, h);
    }
}

pub(crate) proof fn turned(w: real, x: real, y: real, z: real, a: real, b: real, c: real)
    requires
        w * w + x * x + y * y + z * z == 1real,
    ensures
        -(x * a + y * b + z * c) == -(((1real - 2real * (y * y + z * z)) * a
            + 2real * (x * y - w * z) * b + 2real * (x * z + w * y) * c) * x
            + (2real * (x * y + w * z) * a + (1real - 2real * (x * x + z * z)) * b
            + 2real * (y * z - w * x) * c) * y
            + (2real * (x * z - w * y) * a + 2real * (y * z + w * x) * b
            + (1real - 2real * (x * x + y * y)) * c) * z),
        w * a + y * c - z * b == ((1real - 2real * (y * y + z * z)) * a
            + 2real * (x * y - w * z) * b + 2real * (x * z + w * y) * c) * w
            + (2real * (x * y + w * z) * a + (1real - 2real * (x * x + z * z)) * b
            + 2real * (y * z - w * x) * c) * z
            - (2real * (x * z - w * y) * a + 2real * (y * z + w * x) * b
            + (1real - 2real * (x * x + y * y)) * c) * y,
        w * b + z * a - x * c == (2real * (x * y + w * z) * a
            + (1real - 2real * (x * x + z * z)) * b + 2real * (y * z - w * x) * c) * w
            + (2real * (x * z - w * y) * a + 2real * (y * z + w * x) * b
            + (1real - 2real * (x * x + y * y)) * c) * x
            - ((1real - 2real * (y * y + z * z)) * a + 2real * (x * y - w * z) * b
            + 2real * (x * z + w * y) * c) * z,
        w * c + x * b - y * a == (2real * (x * z - w * y) * a + 2real * (y * z + w * x) * b
            + (1real - 2real * (x * x + y * y)) * c) * w
            + ((1real - 2real * (y * y + z * z)) * a + 2real * (x * y - w * z) * b
            + 2real * (x * z + w * y) * c) * y
            - (2real * (x * y + w * z) * a + (1real - 2real * (x * x + z * z)) * b
            + 2real * (y * z - w * x) * c) * x,
{
    assert((1real - 2real * (y * y + z * z)) * a
        == a - 2real * (y * y * a) - 2real * (z * z * a)) by {
        mul_eq(1real - 2real * (y * y + z * z), a, 1real - 2real * (y * y) - 2real * (z * z), a);
        dist_sub(1real - 2real * (y * y), 2real * (z * z), a);
        dist_sub(1real, 2real * (y * y), a);
        mul_assoc(2real, y * y, a);
        mul_assoc(2real, z * z, a);
    }
    assert(2real * (x * y - w * z) * b == -(2real * (w * z * b)) + 2real * (x * y * b)) by {
        mul_eq(2real * (x * y - w * z), b, -(2real * (w * z)) + 2real * (x * y), b);
        dist_add(-(2real * (w * z)), 2real * (x * y), b);
        dist_neg(2real * (w * z), b);
        mul_assoc(2real, w * z, b);
        mul_assoc(2real, x * y, b);
    }
    assert(2real * (x * z + w * y) * c == 2real * (w * y * c) + 2real * (x * z * c)) by {
        mul_eq(2real * (x * z + w * y), c, 2real * (w * y) + 2real * (x * z), c);
        dist_add(2real * (w * y), 2real * (x * z), c);
        mul_assoc(2real, w * y, c);
        mul_assoc(2real, x * z, c);
    }
    assert(((1real - 2real * (y * y + z * z)) * a + 2real * (x * y - w * z) * b
        + 2real * (x * z + w * y) * c) * x
        == x * a + 2real * (w * x * y * c) - 2real * (w * x * z * b) + 2real * (x * x * y * b)
        + 2real * (x * x * z * c) - 2real * (x * y * y * a) - 2real * (x * z * z * a)) by {
        mul_eq((1real - 2real * (y * y + z * z)) * a + 2real * (x * y - w * z) * b
            + 2real * (x * z + w * y) * c, x,
            a + 2real * (w * y * c) - 2real * (w * z * b) + 2real * (x * y * b)
            + 2real * (x * z * c) - 2real * (y * y * a) - 2real * (z * z * a), x);
        dist_sub(a + 2real * (w * y * c) - 2real * (w * z * b) + 2real * (x * y * b)
            + 2real * (x * z * c) - 2real * (y * y * a), 2real * (z * z * a), x);
        dist_sub(a + 2real * (w * y * c) - 2real * (w * z * b) + 2real * (x * y * b)
            + 2real * (x * z * c), 2real * (y * y * a), x);
        dist_add(a + 2real * (w * y * c) - 2real * (w * z * b) + 2real * (x * y * b),
            2real * (x * z * c), x);
        dist_add(a + 2real * (w * y * c) - 2real * (w * z * b), 2real * (x * y * b), x);
        dist_sub(a + 2real * (w * y * c), 2real * (w * z * b), x);
        dist_add(a, 2real * (w * y * c), x);
        mul_comm(a, x);
        mul_assoc(2real, w * y * c, x);
        mul_swap(w * y, c, x);
        mul_swap(w, y, x);
        mul_assoc(2real, w * z * b, x);
        mul_swap(w * z, b, x);
        mul_swap(w, z, x);
        mul_assoc(2real, x * y * b, x);
        mul_swap(x * y, b, x);
        mul_swap(x, y, x);
        mul_assoc(2real, x * z * c, x);
        mul_swap(x * z, c, x);
        mul_swap(x, z, x);
        mul_assoc(2real, y * y * a, x);
        mul_swap(y * y, a, x);
        mul_swap(y, y, x);
        mul_comm(y, x);
        mul_assoc(2real, z * z * a, x);
        mul_swap(z * z, a, x);
        mul_swap(z, z, x);
        mul_comm(z, x);
    }
    assert(2real * (x * y + w * z) * a == 2real * (w * z * a) + 2real * (x * y * a)) by {
        mul_eq(2real * (x * y + w * z), a, 2real * (w * z) + 2real * (x * y), a);
        dist_add(2real * (w * z), 2real * (x * y), a);
        mul_assoc(2real, w * z, a);
        mul_assoc(2real, x * y, a);
    }
    assert((1real - 2real * (x * x + z * z)) * b
        == b - 2real * (x * x * b) - 2real * (z * z * b)) by {
        mul_eq(1real - 2real * (x * x + z * z), b, 1real - 2real * (x * x) - 2real * (z * z), b);
        dist_sub(1real - 2real * (x * x), 2real * (z * z), b);
        dist_sub(1real, 2real * (x * x), b);
        mul_assoc(2real, x * x, b);
        mul_assoc(2real, z * z, b);
    }
    assert(2real * (y * z - w * x) * c == -(2real * (w * x * c)) + 2real * (y * z * c)) by {
        mul_eq(2real * (y * z - w * x), c, -(2real * (w * x)) + 2real * (y * z), c);
        dist_add(-(2real * (w * x)), 2real * (y * z), c);
        dist_neg(2real * (w * x), c);
        mul_assoc(2real, w * x, c);
        mul_assoc(2real, y * z, c);
    }
    assert((2real * (x * y + w * z) * a + (1real - 2real * (x * x + z * z)) * b
        + 2real * (y * z - w * x) * c) * y
        == y * b - 2real * (w * x * y * c) + 2real * (w * y * z * a) - 2real * (x * x * y * b)
        + 2real * (x * y * y * a) + 2real * (y * y * z * c) - 2real * (y * z * z * b)) by {
        mul_eq(2real * (x * y + w * z) * a + (1real - 2real * (x * x + z * z)) * b
            + 2real * (y * z - w * x) * c, y,
            b - 2real * (w * x * c) + 2real * (w * z * a) - 2real * (x * x * b)
            + 2real * (x * y * a) + 2real * (y * z * c) - 2real * (z * z * b), y);
        dist_sub(b - 2real * (w * x * c) + 2real * (w * z * a) - 2real * (x * x * b)
            + 2real * (x * y * a) + 2real * (y * z * c), 2real * (z * z * b), y);
        dist_add(b - 2real * (w * x * c) + 2real * (w * z * a) - 2real * (x * x * b)
            + 2real * (x * y * a), 2real * (y * z * c), y);
        dist_add(b - 2real * (w * x * c) + 2real * (w * z * a) - 2real * (x * x * b),
            2real * (x * y * a), y);
        dist_sub(b - 2real * (w * x * c) + 2real * (w * z * a), 2real * (x * x * b), y);
        dist_add(b - 2real * (w * x * c), 2real * (w * z * a), y);
        dist_sub(b, 2real * (w * x * c), y);
        mul_comm(b, y);
        mul_assoc(2real, w * x * c, y);
        mul_swap(w * x, c, y);
        mul_assoc(2real, w * z * a, y);
        mul_swap(w * z, a, y);
        mul_swap(w, z, y);
        mul_assoc(2real, x * x * b, y);
        mul_swap(x * x, b, y);
        mul_assoc(2real, x * y * a, y);
        mul_swap(x * y, a, y);
        mul_assoc(2real, y * z * c, y);
        mul_swap(y * z, c, y);
        mul_swap(y, z, y);
        mul_assoc(2real, z * z * b, y);
        mul_swap(z * z, b, y);
        mul_swap(z, z, y);
        mul_comm(z, y);
    }
    assert(2real * (x * z - w * y) * a == -(2real * (w * y * a)) + 2real * (x * z * a)) by {
        mul_eq(2real * (x * z - w * y), a, -(2real * (w * y)) + 2real * (x * z), a);
        dist_add(-(2real * (w * y)), 2real * (x * z), a);
        dist_neg(2real * (w * y), a);
        mul_assoc(2real, w * y, a);
        mul_assoc(2real, x * z, a);
    }
    assert(2real * (y * z + w * x) * b == 2real * (w * x * b) + 2real * (y * z * b)) by {
        mul_eq(2real * (y * z + w * x), b, 2real * (w * x) + 2real * (y * z), b);
        dist_add(2real * (w * x), 2real * (y * z), b);
        mul_assoc(2real, w * x, b);
        mul_assoc(2real, y * z, b);
    }
    assert((1real - 2real * (x * x + y * y)) * c
        == c - 2real * (x * x * c) - 2real * (y * y * c)) by {
        mul_eq(1real - 2real * (x * x + y * y), c, 1real - 2real * (x * x) - 2real * (y * y), c);
        dist_sub(1real - 2real * (x * x), 2real * (y * y), c);
        dist_sub(1real, 2real * (x * x), c);
        mul_assoc(2real, x * x, c);
        mul_assoc(2real, y * y, c);
    }
    assert((2real * (x * z - w * y) * a + 2real * (y * z + w * x) * b
        + (1real - 2real * (x * x + y * y)) * c) * z
        == z * c + 2real * (w * x * z * b) - 2real * (w * y * z * a) - 2real * (x * x * z * c)
        + 2real * (x * z * z * a) - 2real * (y * y * z * c) + 2real * (y * z * z * b)) by {
        mul_eq(2real * (x * z - w * y) * a + 2real * (y * z + w * x) * b
            + (1real - 2real * (x * x + y * y)) * c, z,
            c + 2real * (w * x * b) - 2real * (w * y * a) - 2real * (x * x * c)
            + 2real * (x * z * a) - 2real * (y * y * c) + 2real * (y * z * b), z);
        dist_add(c + 2real * (w * x * b) - 2real * (w * y * a) - 2real * (x * x * c)
            + 2real * (x * z * a) - 2real * (y * y * c), 2real * (y * z * b), z);
        dist_sub(c + 2real * (w * x * b) - 2real * (w * y * a) - 2real * (x * x * c)
            + 2real * (x * z * a), 2real * (y * y * c), z);
        dist_add(c + 2real * (w * x * b) - 2real * (w * y * a) - 2real * (x * x * c),
            2real * (x * z * a), z);
        dist_sub(c + 2real * (w * x * b) - 2real * (w * y * a), 2real * (x * x * c), z);
        dist_sub(c + 2real * (w * x * b), 2real * (w * y * a), z);
        dist_add(c, 2real * (w * x * b), z);
        mul_comm(c, z);
        mul_assoc(2real, w * x * b, z);
        mul_swap(w * x, b, z);
        mul_assoc(2real, w * y * a, z);
        mul_swap(w * y, a, z);
        mul_assoc(2real, x * x * c, z);
        mul_swap(x * x, c, z);
        mul_assoc(2real, x * z * a, z);
        mul_swap(x * z, a, z);
        mul_assoc(2real, y * y * c, z);
        mul_swap(y * y, c, z);
        mul_assoc(2real, y * z * b, z);
        mul_swap(y * z, b, z);
    }
    assert(((1real - 2real * (y * y + z * z)) * a + 2real * (x * y - w * z) * b
        + 2real * (x * z + w * y) * c) * w
        == w * a + 2real * (w * w * y * c) - 2real * (w * w * z * b) + 2real * (w * x * y * b)
        + 2real * (w * x * z * c) - 2real * (w * y * y * a) - 2real * (w * z * z * a)) by {
        mul_eq((1real - 2real * (y * y + z * z)) * a + 2real * (x * y - w * z) * b
            + 2real * (x * z + w * y) * c, w,
            a + 2real * (w * y * c) - 2real * (w * z * b) + 2real * (x * y * b)
            + 2real * (x * z * c) - 2real * (y * y * a) - 2real * (z * z * a), w);
        dist_sub(a + 2real * (w * y * c) - 2real * (w * z * b) + 2real * (x * y * b)
            + 2real * (x * z * c) - 2real * (y * y * a), 2real * (z * z * a), w);
        dist_sub(a + 2real * (w * y * c) - 2real * (w * z * b) + 2real * (x * y * b)
            + 2real * (x * z * c), 2real * (y * y * a), w);
        dist_add(a + 2real * (w * y * c) - 2real * (w * z * b) + 2real * (x * y * b),
            2real * (x * z * c), w);
        dist_add(a + 2real * (w * y * c) - 2real * (w * z * b), 2real * (x * y * b), w);
        dist_sub(a + 2real * (w * y * c), 2real * (w * z * b), w);
        dist_add(a, 2real * (w * y * c), w);
        mul_comm(a, w);
        mul_assoc(2real, w * y * c, w);
        mul_swap(w * y, c, w);
        mul_swap(w, y, w);
        mul_assoc(2real, w * z * b, w);
        mul_swap(w * z, b, w);
        mul_swap(w, z, w);
        mul_assoc(2real, x * y * b, w);
        mul_swap(x * y, b, w);
        mul_swap(x, y, w);
        mul_comm(x, w);
        mul_assoc(2real, x * z * c, w);
        mul_swap(x * z, c, w);
        mul_swap(x, z, w);
        mul_comm(x, w);
        mul_assoc(2real, y * y * a, w);
        mul_swap(y * y, a, w);
        mul_swap(y, y, w);
        mul_comm(y, w);
        mul_assoc(2real, z * z * a, w);
        mul_swap(z * z, a, w);
        mul_swap(z, z, w);
        mul_comm(z, w);
    }
    assert((2real * (x * y + w * z) * a + (1real - 2real * (x * x + z * z)) * b
        + 2real * (y * z - w * x) * c) * z
        == z * b - 2real * (w * x * z * c) + 2real * (w * z * z * a) - 2real * (x * x * z * b)
        + 2real * (x * y * z * a) + 2real * (y * z * z * c) - 2real * (z * z * z * b)) by {
        mul_eq(2real * (x * y + w * z) * a + (1real - 2real * (x * x + z * z)) * b
            + 2real * (y * z - w * x) * c, z,
            b - 2real * (w * x * c) + 2real * (w * z * a) - 2real * (x * x * b)
            + 2real * (x * y * a) + 2real * (y * z * c) - 2real * (z * z * b), z);
        dist_sub(b - 2real * (w * x * c) + 2real * (w * z * a) - 2real * (x * x * b)
            + 2real * (x * y * a) + 2real * (y * z * c), 2real * (z * z * b), z);
        dist_add(b - 2real * (w * x * c) + 2real * (w * z * a) - 2real * (x * x * b)
            + 2real * (x * y * a), 2real * (y * z * c), z);
        dist_add(b - 2real * (w * x * c) + 2real * (w * z * a) - 2real * (x * x * b),
            2real * (x * y * a), z);
        dist_sub(b - 2real * (w * x * c) + 2real * (w * z * a), 2real * (x * x * b), z);
        dist_add(b - 2real * (w * x * c), 2real * (w * z * a), z);
        dist_sub(b, 2real * (w * x * c), z);
        mul_comm(b, z);
        mul_assoc(2real, w * x * c, z);
        mul_swap(w * x, c, z);
        mul_assoc(2real, w * z * a, z);
        mul_swap(w * z, a, z);
        mul_assoc(2real, x * x * b, z);
        mul_swap(x * x, b, z);
        mul_assoc(2real, x * y * a, z);
        mul_swap(x * y, a, z);
        mul_assoc(2real, y * z * c, z);
        mul_swap(y * z, c, z);
        mul_assoc(2real, z * z * b, z);
        mul_swap(z * z, b, z);
    }
    assert((2real * (x * z - w * y) * a + 2real * (y * z + w * x) * b
        + (1real - 2real * (x * x + y * y)) * c) * y
        == y * c + 2real * (w * x * y * b) - 2real * (w * y * y * a) - 2real * (x * x * y * c)
        + 2real * (x * y * z * a) - 2real * (y * y * y * c) + 2real * (y * y * z * b)) by {
        mul_eq(2real * (x * z - w * y) * a + 2real * (y * z + w * x) * b
            + (1real - 2real * (x * x + y * y)) * c, y,
            c + 2real * (w * x * b) - 2real * (w * y * a) - 2real * (x * x * c)
            + 2real * (x * z * a) - 2real * (y * y * c) + 2real * (y * z * b), y);
        dist_add(c + 2real * (w * x * b) - 2real * (w * y * a) - 2real * (x * x * c)
            + 2real * (x * z * a) - 2real * (y * y * c), 2real * (y * z * b), y);
        dist_sub(c + 2real * (w * x * b) - 2real * (w * y * a) - 2real * (x * x * c)
            + 2real * (x * z * a), 2real * (y * y * c), y);
        dist_add(c + 2real * (w * x * b) - 2real * (w * y * a) - 2real * (x * x * c),
            2real * (x * z * a), y);
        dist_sub(c + 2real * (w * x * b) - 2real * (w * y * a), 2real * (x * x * c), y);
        dist_sub(c + 2real * (w * x * b), 2real * (w * y * a), y);
        dist_add(c, 2real * (w * x * b), y);
        mul_comm(c, y);
        mul_assoc(2real, w * x * b, y);
        mul_swap(w * x, b, y);
        mul_assoc(2real, w * y * a, y);
        mul_swap(w * y, a, y);
        mul_assoc(2real, x * x * c, y);
        mul_swap(x * x, c, y);
        mul_assoc(2real, x * z * a, y);
        mul_swap(x * z, a, y);
        mul_swap(x, z, y);
        mul_assoc(2real, y * y * c, y);
        mul_swap(y * y, c, y);
        mul_assoc(2real, y * z * b, y);
        mul_swap(y * z, b, y);
        mul_swap(y, z, y);
    }
    assert(w * w * y * c + x * x * y * c + y * y * y * c + y * z * z * c == y * c) by {
        mul_eq(y * c, w * w + x * x + y * y + z * z, y * c, 1real);
        dist_add_left(y * c, w * w + x * x + y * y, z * z);
        dist_add_left(y * c, w * w + x * x, y * y);
        dist_add_left(y * c, w * w, x * x);
        mul_swap(y, c, w);
        mul_comm(y, w);
        mul_assoc(y * c, w, w);
        mul_swap(w * y, c, w);
        mul_swap(w, y, w);
        mul_swap(y, c, x);
        mul_comm(y, x);
        mul_assoc(y * c, x, x);
        mul_swap(x * y, c, x);
        mul_swap(x, y, x);
        mul_swap(y, c, y);
        mul_assoc(y * c, y, y);
        mul_swap(y * y, c, y);
        mul_swap(y, c, z);
        mul_assoc(y * c, z, z);
        mul_swap(y * z, c, z);
    }
    assert(w * w * z * b + x * x * z * b + y * y * z * b + z * z * z * b == z * b) by {
        mul_eq(z * b, w * w + x * x + y * y + z * z, z * b, 1real);
        dist_add_left(z * b, w * w + x * x + y * y, z * z);
        dist_add_left(z * b, w * w + x * x, y * y);
        dist_add_left(z * b, w * w, x * x);
        mul_swap(z, b, w);
        mul_comm(z, w);
        mul_assoc(z * b, w, w);
        mul_swap(w * z, b, w);
        mul_swap(w, z, w);
        mul_swap(z, b, x);
        mul_comm(z, x);
        mul_assoc(z * b, x, x);
        mul_swap(x * z, b, x);
        mul_swap(x, z, x);
        mul_swap(z, b, y);
        mul_comm(z, y);
        mul_assoc(z * b, y, y);
        mul_swap(y * z, b, y);
        mul_swap(y, z, y);
        mul_swap(z, b, z);
        mul_assoc(z * b, z, z);
        mul_swap(z * z, b, z);
    }
    assert((2real * (x * y + w * z) * a + (1real - 2real * (x * x + z * z)) * b
        + 2real * (y * z - w * x) * c) * w
        == w * b - 2real * (w * w * x * c) + 2real * (w * w * z * a) - 2real * (w * x * x * b)
        + 2real * (w * x * y * a) + 2real * (w * y * z * c) - 2real * (w * z * z * b)) by {
        mul_eq(2real * (x * y + w * z) * a + (1real - 2real * (x * x + z * z)) * b
            + 2real * (y * z - w * x) * c, w,
            b - 2real * (w * x * c) + 2real * (w * z * a) - 2real * (x * x * b)
            + 2real * (x * y * a) + 2real * (y * z * c) - 2real * (z * z * b), w);
        dist_sub(b - 2real * (w * x * c) + 2real * (w * z * a) - 2real * (x * x * b)
            + 2real * (x * y * a) + 2real * (y * z * c), 2real * (z * z * b), w);
        dist_add(b - 2real * (w * x * c) + 2real * (w * z * a) - 2real * (x * x * b)
            + 2real * (x * y * a), 2real * (y * z * c), w);
        dist_add(b - 2real * (w * x * c) + 2real * (w * z * a) - 2real * (x * x * b),
            2real * (x * y * a), w);
        dist_sub(b - 2real * (w * x * c) + 2real * (w * z * a), 2real * (x * x * b), w);
        dist_add(b - 2real * (w * x * c), 2real * (w * z * a), w);
        dist_sub(b, 2real * (w * x * c), w);
        mul_comm(b, w);
        mul_assoc(2real, w * x * c, w);
        mul_swap(w * x, c, w);
        mul_swap(w, x, w);
        mul_assoc(2real, w * z * a, w);
        mul_swap(w * z, a, w);
        mul_swap(w, z, w);
        mul_assoc(2real, x * x * b, w);
        mul_swap(x * x, b, w);
        mul_swap(x, x, w);
        mul_comm(x, w);
        mul_assoc(2real, x * y * a, w);
        mul_swap(x * y, a, w);
        mul_swap(x, y, w);
        mul_comm(x, w);
        mul_assoc(2real, y * z * c, w);
        mul_swap(y * z, c, w);
        mul_swap(y, z, w);
        mul_comm(y, w);
        mul_assoc(2real, z * z * b, w);
        mul_swap(z * z, b, w);
        mul_swap(z, z, w);
        mul_comm(z, w);
    }
    assert((2real * (x * z - w * y) * a + 2real * (y * z + w * x) * b
        + (1real - 2real * (x * x + y * y)) * c) * x
        == x * c + 2real * (w * x * x * b) - 2real * (w * x * y * a) - 2real * (x * x * x * c)
        + 2real * (x * x * z * a) - 2real * (x * y * y * c) + 2real * (x * y * z * b)) by {
        mul_eq(2real * (x * z - w * y) * a + 2real * (y * z + w * x) * b
            + (1real - 2real * (x * x + y * y)) * c, x,
            c + 2real * (w * x * b) - 2real * (w * y * a) - 2real * (x * x * c)
            + 2real * (x * z * a) - 2real * (y * y * c) + 2real * (y * z * b), x);
        dist_add(c + 2real * (w * x * b) - 2real * (w * y * a) - 2real * (x * x * c)
            + 2real * (x * z * a) - 2real * (y * y * c), 2real * (y * z * b), x);
        dist_sub(c + 2real * (w * x * b) - 2real * (w * y * a) - 2real * (x * x * c)
            + 2real * (x * z * a), 2real * (y * y * c), x);
        dist_add(c + 2real * (w * x * b) - 2real * (w * y * a) - 2real * (x * x * c),
            2real * (x * z * a), x);
        dist_sub(c + 2real * (w * x * b) - 2real * (w * y * a), 2real * (x * x * c), x);
        dist_sub(c + 2real * (w * x * b), 2real * (w * y * a), x);
        dist_add(c, 2real * (w * x * b), x);
        mul_comm(c, x);
        mul_assoc(2real, w * x * b, x);
        mul_swap(w * x, b, x);
        mul_assoc(2real, w * y * a, x);
        mul_swap(w * y, a, x);
        mul_swap(w, y, x);
        mul_assoc(2real, x * x * c, x);
        mul_swap(x * x, c, x);
        mul_assoc(2real, x * z * a, x);
        mul_swap(x * z, a, x);
        mul_swap(x, z, x);
        mul_assoc(2real, y * y * c, x);
        mul_swap(y * y, c, x);
        mul_swap(y, y, x);
        mul_comm(y, x);
        mul_assoc(2real, y * z * b, x);
        mul_swap(y * z, b, x);
        mul_swap(y, z, x);
        mul_comm(y, x);
    }
    assert(((1real - 2real * (y * y + z * z)) * a + 2real * (x * y - w * z) * b
        + 2real * (x * z + w * y) * c) * z
        == z * a + 2real * (w * y * z * c) - 2real * (w * z * z * b) + 2real * (x * y * z * b)
        + 2real * (x * z * z * c) - 2real * (y * y * z * a) - 2real * (z * z * z * a)) by {
        mul_eq((1real - 2real * (y * y + z * z)) * a + 2real * (x * y - w * z) * b
            + 2real * (x * z + w * y) * c, z,
            a + 2real * (w * y * c) - 2real * (w * z * b) + 2real * (x * y * b)
            + 2real * (x * z * c) - 2real * (y * y * a) - 2real * (z * z * a), z);
        dist_sub(a + 2real * (w * y * c) - 2real * (w * z * b) + 2real * (x * y * b)
            + 2real * (x * z * c) - 2real * (y * y * a), 2real * (z * z * a), z);
        dist_sub(a + 2real * (w * y * c) - 2real * (w * z * b) + 2real * (x * y * b)
            + 2real * (x * z * c), 2real * (y * y * a), z);
        dist_add(a + 2real * (w * y * c) - 2real * (w * z * b) + 2real * (x * y * b),
            2real * (x * z * c), z);
        dist_add(a + 2real * (w * y * c) - 2real * (w * z * b), 2real * (x * y * b), z);
        dist_sub(a + 2real * (w * y * c), 2real * (w * z * b), z);
        dist_add(a, 2real * (w * y * c), z);
        mul_comm(a, z);
        mul_assoc(2real, w * y * c, z);
        mul_swap(w * y, c, z);
        mul_assoc(2real, w * z * b, z);
        mul_swap(w * z, b, z);
        mul_assoc(2real, x * y * b, z);
        mul_swap(x * y, b, z);
        mul_assoc(2real, x * z * c, z);
        mul_swap(x * z, c, z);
        mul_assoc(2real, y * y * a, z);
        mul_swap(y * y, a, z);
        mul_assoc(2real, z * z * a, z);
        mul_swap(z * z, a, z);
    }
    assert(w * w * x * c + x * x * x * c + x * y * y * c + x * z * z * c == x * c) by {
        mul_eq(x * c, w * w + x * x + y * y + z * z, x * c, 1real);
        dist_add_left(x * c, w * w + x * x + y * y, z * z);
        dist_add_left(x * c, w * w + x * x, y * y);
        dist_add_left(x * c, w * w, x * x);
        mul_swap(x, c, w);
        mul_comm(x, w);
        mul_assoc(x * c, w, w);
        mul_swap(w * x, c, w);
        mul_swap(w, x, w);
        mul_swap(x, c, x);
        mul_assoc(x * c, x, x);
        mul_swap(x * x, c, x);
        mul_swap(x, c, y);
        mul_assoc(x * c, y, y);
        mul_swap(x * y, c, y);
        mul_swap(x, c, z);
        mul_assoc(x * c, z, z);
        mul_swap(x * z, c, z);
    }
    assert(w * w * z * a + x * x * z * a + y * y * z * a + z * z * z * a == z * a) by {
        mul_eq(z * a, w * w + x * x + y * y + z * z, z * a, 1real);
        dist_add_left(z * a, w * w + x * x + y * y, z * z);
        dist_add_left(z * a, w * w + x * x, y * y);
        dist_add_left(z * a, w * w, x * x);
        mul_swap(z, a, w);
        mul_comm(z, w);
        mul_assoc(z * a, w, w);
        mul_swap(w * z, a, w);
        mul_swap(w, z, w);
        mul_swap(z, a, x);
        mul_comm(z, x);
        mul_assoc(z * a, x, x);
        mul_swap(x * z, a, x);
        mul_swap(x, z, x);
        mul_swap(z, a, y);
        mul_comm(z, y);
        mul_assoc(z * a, y, y);
        mul_swap(y * z, a, y);
        mul_swap(y, z, y);
        mul_swap(z, a, z);
        mul_assoc(z * a, z, z);
        mul_swap(z * z, a, z);
    }
    assert((2real * (x * z - w * y) * a + 2real * (y * z + w * x) * b
        + (1real - 2real * (x * x + y * y)) * c) * w
        == w * c + 2real * (w * w * x * b) - 2real * (w * w * y * a) - 2real * (w * x * x * c)
        + 2real * (w * x * z * a) - 2real * (w * y * y * c) + 2real * (w * y * z * b)) by {
        mul_eq(2real * (x * z - w * y) * a + 2real * (y * z + w * x) * b
            + (1real - 2real * (x * x + y * y)) * c, w,
            c + 2real * (w * x * b) - 2real * (w * y * a) - 2real * (x * x * c)
            + 2real * (x * z * a) - 2real * (y * y * c) + 2real * (y * z * b), w);
        dist_add(c + 2real * (w * x * b) - 2real * (w * y * a) - 2real * (x * x * c)
            + 2real * (x * z * a) - 2real * (y * y * c), 2real * (y * z * b), w);
        dist_sub(c + 2real * (w * x * b) - 2real * (w * y * a) - 2real * (x * x * c)
            + 2real * (x * z * a), 2real * (y * y * c), w);
        dist_add(c + 2real * (w * x * b) - 2real * (w * y * a) - 2real * (x * x * c),
            2real * (x * z * a), w);
        dist_sub(c + 2real * (w * x * b) - 2real * (w * y * a), 2real * (x * x * c), w);
        dist_sub(c + 2real * (w * x * b), 2real * (w * y * a), w);
        dist_add(c, 2real * (w * x * b), w);
        mul_comm(c, w);
        mul_assoc(2real, w * x * b, w);
        mul_swap(w * x, b, w);
        mul_swap(w, x, w);
        mul_assoc(2real, w * y * a, w);
        mul_swap(w * y, a, w);
        mul_swap(w, y, w);
        mul_assoc(2real, x * x * c, w);
        mul_swap(x * x, c, w);
        mul_swap(x, x, w);
        mul_comm(x, w);
        mul_assoc(2real, x * z * a, w);
        mul_swap(x * z, a, w);
        mul_swap(x, z, w);
        mul_comm(x, w);
        mul_assoc(2real, y * y * c, w);
        mul_swap(y * y, c, w);
        mul_swap(y, y, w);
        mul_comm(y, w);
        mul_assoc(2real, y * z * b, w);
        mul_swap(y * z, b, w);
        mul_swap(y, z, w);
        mul_comm(y, w);
    }
    assert(((1real - 2real * (y * y + z * z)) * a + 2real * (x * y - w * z) * b
        + 2real * (x * z + w * y) * c) * y
        == y * a + 2real * (w * y * y * c) - 2real * (w * y * z * b) + 2real * (x * y * y * b)
        + 2real * (x * y * z * c) - 2real * (y * y * y * a) - 2real * (y * z * z * a)) by {
        mul_eq((1real - 2real * (y * y + z * z)) * a + 2real * (x * y - w * z) * b
            + 2real * (x * z + w * y) * c, y,
            a + 2real * (w * y * c) - 2real * (w * z * b) + 2real * (x * y * b)
            + 2real * (x * z * c) - 2real * (y * y * a) - 2real * (z * z * a), y);
        dist_sub(a + 2real * (w * y * c) - 2real * (w * z * b) + 2real * (x * y * b)
            + 2real * (x * z * c) - 2real * (y * y * a), 2real * (z * z * a), y);
        dist_sub(a + 2real * (w * y * c) - 2real * (w * z * b) + 2real * (x * y * b)
            + 2real * (x * z * c), 2real * (y * y * a), y);
        dist_add(a + 2real * (w * y * c) - 2real * (w * z * b) + 2real * (x * y * b),
            2real * (x * z * c), y);
        dist_add(a + 2real * (w * y * c) - 2real * (w * z * b), 2real * (x * y * b), y);
        dist_sub(a + 2real * (w * y * c), 2real * (w * z * b), y);
        dist_add(a, 2real * (w * y * c), y);
        mul_comm(a, y);
        mul_assoc(2real, w * y * c, y);
        mul_swap(w * y, c, y);
        mul_assoc(2real, w * z * b, y);
        mul_swap(w * z, b, y);
        mul_swap(w, z, y);
        mul_assoc(2real, x * y * b, y);
        mul_swap(x * y, b, y);
        mul_assoc(2real, x * z * c, y);
        mul_swap(x * z, c, y);
        mul_swap(x, z, y);
        mul_assoc(2real, y * y * a, y);
        mul_swap(y * y, a, y);
        mul_assoc(2real, z * z * a, y);
        mul_swap(z * z, a, y);
        mul_swap(z, z, y);
        mul_comm(z, y);
    }
    assert((2real * (x * y + w * z) * a + (1real - 2real * (x * x + z * z)) * b
        + 2real * (y * z - w * x) * c) * x
        == x * b - 2real * (w * x * x * c) + 2real * (w * x * z * a) - 2real * (x * x * x * b)
        + 2real * (x * x * y * a) + 2real * (x * y * z * c) - 2real * (x * z * z * b)) by {
        mul_eq(2real * (x * y + w * z) * a + (1real - 2real * (x * x + z * z)) * b
            + 2real * (y * z - w * x) * c, x,
            b - 2real * (w * x * c) + 2real * (w * z * a) - 2real * (x * x * b)
            + 2real * (x * y * a) + 2real * (y * z * c) - 2real * (z * z * b), x);
        dist_sub(b - 2real * (w * x * c) + 2real * (w * z * a) - 2real * (x * x * b)
            + 2real * (x * y * a) + 2real * (y * z * c), 2real * (z * z * b), x);
        dist_add(b - 2real * (w * x * c) + 2real * (w * z * a) - 2real * (x * x * b)
            + 2real * (x * y * a), 2real * (y * z * c), x);
        dist_add(b - 2real * (w * x * c) + 2real * (w * z * a) - 2real * (x * x * b),
            2real * (x * y * a), x);
        dist_sub(b - 2real * (w * x * c) + 2real * (w * z * a), 2real * (x * x * b), x);
        dist_add(b - 2real * (w * x * c), 2real * (w * z * a), x);
        dist_sub(b, 2real * (w * x * c), x);
        mul_comm(b, x);
        mul_assoc(2real, w * x * c, x);
        mul_swap(w * x, c, x);
        mul_assoc(2real, w * z * a, x);
        mul_swap(w * z, a, x);
        mul_swap(w, z, x);
        mul_assoc(2real, x * x * b, x);
        mul_swap(x * x, b, x);
        mul_assoc(2real, x * y * a, x);
        mul_swap(x * y, a, x);
        mul_swap(x, y, x);
        mul_assoc(2real, y * z * c, x);
        mul_swap(y * z, c, x);
        mul_swap(y, z, x);
        mul_comm(y, x);
        mul_assoc(2real, z * z * b, x);
        mul_swap(z * z, b, x);
        mul_swap(z, z, x);
        mul_comm(z, x);
    }
    assert(w * w * x * b + x * x * x * b + x * y * y * b + x * z * z * b == x * b) by {
        mul_eq(x * b, w * w + x * x + y * y + z * z, x * b, 1real);
        dist_add_left(x * b, w * w + x * x + y * y, z * z);
        dist_add_left(x * b, w * w + x * x, y * y);
        dist_add_left(x * b, w * w, x * x);
        mul_swap(x, b, w);
        mul_comm(x, w);
        mul_assoc(x * b, w, w);
        mul_swap(w * x, b, w);
        mul_swap(w, x, w);
        mul_swap(x, b, x);
        mul_assoc(x * b, x, x);
        mul_swap(x * x, b, x);
        mul_swap(x, b, y);
        mul_assoc(x * b, y, y);
        mul_swap(x * y, b, y);
        mul_swap(x, b, z);
        mul_assoc(x * b, z, z);
        mul_swap(x * z, b, z);
    }
    assert(w * w * y * a + x * x * y * a + y * y * y * a + y * z * z * a == y * a) by {
        mul_eq(y * a, w * w + x * x + y * y + z * z, y * a, 1real);
        dist_add_left(y * a, w * w + x * x + y * y, z * z);
        dist_add_left(y * a, w * w + x * x, y * y);
        dist_add_left(y * a, w * w, x * x);
        mul_swap(y, a, w);
        mul_comm(y, w);
        mul_assoc(y * a, w, w);
        mul_swap(w * y, a, w);
        mul_swap(w, y, w);
        mul_swap(y, a, x);
        mul_comm(y, x);
        mul_assoc(y * a, x, x);
        mul_swap(x * y, a, x);
        mul_swap(x, y, x);
        mul_swap(y, a, y);
        mul_assoc(y * a, y, y);
        mul_swap(y * y, a, y);
        mul_swap(y, a, z);
        mul_assoc(y * a, z, z);
        mul_swap(y * z, a, z);
    }
}

} // verus!
