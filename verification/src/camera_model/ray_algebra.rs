//! Identities behind the laws of fisheye images along a ray.
use crate::expr::algebra::{
    dist_add, dist_add_left, dist_neg, dist_neg_left, dist_sub, dist_sub_left, mul_assoc, mul_comm,
    mul_eq, mul_front, mul_swap,
};
use vstd::prelude::*;

verus! {

pub(crate) proof fn ray_angle(x: real, y: real, z: real, r: real, i: real, b: real)
    requires
        r * r == x * x + y * y,
        r * i == 1real,
    ensures
        x * z * (b * i) * x + y * z * (b * i) * y + (-r) * b * z == 0real,
{
    assert(b * i == i * b) by {
        mul_comm(b, i);
    }
    assert(x * z * (b * i) == x * z * i * b) by {
        mul_eq(x * z, b * i, x * z, i * b);
        mul_assoc(x * z, i, b);
    }
    assert(x * z * (b * i) * x == x * x * z * i * b) by {
        mul_eq(x * z * (b * i), x, x * z * i * b, x);
        mul_swap(x * z * i, b, x);
        mul_swap(x * z, i, x);
        mul_swap(x, z, x);
    }
    assert(y * z * (b * i) == y * z * i * b) by {
        mul_eq(y * z, b * i, y * z, i * b);
        mul_assoc(y * z, i, b);
    }
    assert(y * z * (b * i) * y == y * y * z * i * b) by {
        mul_eq(y * z * (b * i), y, y * z * i * b, y);
        mul_swap(y * z * i, b, y);
        mul_swap(y * z, i, y);
        mul_swap(y, z, y);
    }
    assert((-r) * b == -(r * b)) by {
        dist_neg(r, b);
    }
    assert((-r) * b * z == -(z * r * b)) by {
        mul_eq((-r) * b, z, -(r * b), z);
        dist_neg(r * b, z);
        mul_swap(r, b, z);
        mul_comm(r, z);
    }
    assert(z * r * r * i * b == x * x * z * i * b + y * y * z * i * b) by {
        mul_eq(z * i * b, r * r, z * i * b, x * x + y * y);
        mul_swap(z * i, b, r);
        mul_swap(z, i, r);
        mul_assoc(z * i * b, r, r);
        mul_swap(z * r * i, b, r);
        mul_swap(z * r, i, r);
        dist_add_left(z * i * b, x * x, y * y);
        mul_swap(z * i, b, x);
        mul_swap(z, i, x);
        mul_comm(z, x);
        mul_assoc(z * i * b, x, x);
        mul_swap(x * z * i, b, x);
        mul_swap(x * z, i, x);
        mul_swap(x, z, x);
        mul_swap(z * i, b, y);
        mul_swap(z, i, y);
        mul_comm(z, y);
        mul_assoc(z * i * b, y, y);
        mul_swap(y * z * i, b, y);
        mul_swap(y * z, i, y);
        mul_swap(y, z, y);
    }
    assert(z * r * r * i * b == z * r * b) by {
        mul_eq(z * r * b, r * i, z * r * b, 1real);
        mul_swap(z * r, b, r);
        mul_assoc(z * r * b, r, i);
        mul_swap(z * r * r, b, i);
    }
}

pub(crate) proof fn ray_row_u(
    f: real,
    q: real,
    tx: real,
    ty: real,
    tz: real,
    w: real,
    x: real,
    y: real,
    z: real,
    i: real,
    c: real,
)
    requires
        tx * x + ty * y + tz * z == 0real,
    ensures
        f * (q * tx * (x * i) + w * (y * y * c)) * x
            + f * (q * ty * (x * i) + w * ((-(x * y)) * c)) * y + f * (q * tz * (x * i)) * z
            == 0real,
{
    assert(q * tx * (x * i) == q * tx * x * i) by {
        mul_assoc(q * tx, x, i);
    }
    assert(w * (y * y * c) == w * y * y * c) by {
        mul_assoc(w, y, y);
        mul_assoc(w, y * y, c);
    }
    assert(f * (q * tx * (x * i) + w * (y * y * c)) == f * q * tx * x * i + f * w * y * y * c) by {
        mul_eq(f, q * tx * (x * i) + w * (y * y * c), f, q * tx * x * i + w * y * y * c);
        dist_add_left(f, q * tx * x * i, w * y * y * c);
        mul_assoc(f, q, tx);
        mul_assoc(f, q * tx, x);
        mul_assoc(f, q * tx * x, i);
        mul_assoc(f, w, y);
        mul_assoc(f, w * y, y);
        mul_assoc(f, w * y * y, c);
    }
    assert(f * (q * tx * (x * i) + w * (y * y * c)) * x
        == f * q * tx * x * x * i + f * w * x * y * y * c) by {
        mul_eq(f * (q * tx * (x * i) + w * (y * y * c)), x, f * q * tx * x * i + f * w * y * y * c,
            x);
        dist_add(f * q * tx * x * i, f * w * y * y * c, x);
        mul_swap(f * q * tx * x, i, x);
        mul_swap(f * w * y * y, c, x);
        mul_swap(f * w * y, y, x);
        mul_swap(f * w, y, x);
    }
    assert(q * ty * (x * i) == q * ty * x * i) by {
        mul_assoc(q * ty, x, i);
    }
    assert((-(x * y)) * c == -(x * y * c)) by {
        dist_neg(x * y, c);
    }
    assert(w * ((-(x * y)) * c) == -(w * x * y * c)) by {
        mul_eq(w, (-(x * y)) * c, w, -(x * y * c));
        dist_neg_left(w, x * y * c);
        mul_assoc(w, x, y);
        mul_assoc(w, x * y, c);
    }
    assert(f * (q * ty * (x * i) + w * ((-(x * y)) * c))
        == f * q * ty * x * i - f * w * x * y * c) by {
        mul_eq(f, q * ty * (x * i) + w * ((-(x * y)) * c), f, q * ty * x * i - w * x * y * c);
        dist_sub_left(f, q * ty * x * i, w * x * y * c);
        mul_assoc(f, q, ty);
        mul_assoc(f, q * ty, x);
        mul_assoc(f, q * ty * x, i);
        mul_assoc(f, w, x);
        mul_assoc(f, w * x, y);
        mul_assoc(f, w * x * y, c);
    }
    assert(f * (q * ty * (x * i) + w * ((-(x * y)) * c)) * y
        == f * q * ty * x * y * i - f * w * x * y * y * c) by {
        mul_eq(f * (q * ty * (x * i) + w * ((-(x * y)) * c)), y,
            f * q * ty * x * i - f * w * x * y * c, y);
        dist_sub(f * q * ty * x * i, f * w * x * y * c, y);
        mul_swap(f * q * ty * x, i, y);
        mul_swap(f * w * x * y, c, y);
    }
    assert(q * tz * (x * i) == q * tz * x * i) by {
        mul_assoc(q * tz, x, i);
    }
    assert(f * (q * tz * (x * i)) == f * q * tz * x * i) by {
        mul_eq(f, q * tz * (x * i), f, q * tz * x * i);
        mul_assoc(f, q, tz);
        mul_assoc(f, q * tz, x);
        mul_assoc(f, q * tz * x, i);
    }
    assert(f * (q * tz * (x * i)) * z == f * q * tz * x * z * i) by {
        mul_eq(f * (q * tz * (x * i)), z, f * q * tz * x * i, z);
        mul_swap(f * q * tz * x, i, z);
    }
    assert(f * q * tx * x * x * i + f * q * ty * x * y * i + f * q * tz * x * z * i == 0real) by {
        mul_eq(f * q * x * i, tx * x + ty * y + tz * z, f * q * x * i, 0real);
        dist_add_left(f * q * x * i, tx * x + ty * y, tz * z);
        dist_add_left(f * q * x * i, tx * x, ty * y);
        mul_swap(f * q * x, i, tx);
        mul_swap(f * q, x, tx);
        mul_assoc(f * q * x * i, tx, x);
        mul_swap(f * q * tx * x, i, x);
        mul_swap(f * q * x, i, ty);
        mul_swap(f * q, x, ty);
        mul_assoc(f * q * x * i, ty, y);
        mul_swap(f * q * ty * x, i, y);
        mul_swap(f * q * x, i, tz);
        mul_swap(f * q, x, tz);
        mul_assoc(f * q * x * i, tz, z);
        mul_swap(f * q * tz * x, i, z);
    }
}

pub(crate) proof fn ray_row_v(
    f: real,
    q: real,
    tx: real,
    ty: real,
    tz: real,
    w: real,
    x: real,
    y: real,
    z: real,
    i: real,
    c: real,
)
    requires
        tx * x + ty * y + tz * z == 0real,
    ensures
        f * (q * tx * (y * i) + w * ((-(x * y)) * c)) * x
            + f * (q * ty * (y * i) + w * (x * x * c)) * y + f * (q * tz * (y * i)) * z == 0real,
{
    assert(q * tx * (y * i) == q * tx * y * i) by {
        mul_assoc(q * tx, y, i);
    }
    assert((-(x * y)) * c == -(x * y * c)) by {
        dist_neg(x * y, c);
    }
    assert(w * ((-(x * y)) * c) == -(w * x * y * c)) by {
        mul_eq(w, (-(x * y)) * c, w, -(x * y * c));
        dist_neg_left(w, x * y * c);
        mul_assoc(w, x, y);
        mul_assoc(w, x * y, c);
    }
    assert(f * (q * tx * (y * i) + w * ((-(x * y)) * c))
        == f * q * tx * y * i - f * w * x * y * c) by {
        mul_eq(f, q * tx * (y * i) + w * ((-(x * y)) * c), f, q * tx * y * i - w * x * y * c);
        dist_sub_left(f, q * tx * y * i, w * x * y * c);
        mul_assoc(f, q, tx);
        mul_assoc(f, q * tx, y);
        mul_assoc(f, q * tx * y, i);
        mul_assoc(f, w, x);
        mul_assoc(f, w * x, y);
        mul_assoc(f, w * x * y, c);
    }
    assert(f * (q * tx * (y * i) + w * ((-(x * y)) * c)) * x
        == f * q * tx * x * y * i - f * w * x * x * y * c) by {
        mul_eq(f * (q * tx * (y * i) + w * ((-(x * y)) * c)), x,
            f * q * tx * y * i - f * w * x * y * c, x);
        dist_sub(f * q * tx * y * i, f * w * x * y * c, x);
        mul_swap(f * q * tx * y, i, x);
        mul_swap(f * q * tx, y, x);
        mul_swap(f * w * x * y, c, x);
        mul_swap(f * w * x, y, x);
    }
    assert(q * ty * (y * i) == q * ty * y * i) by {
        mul_assoc(q * ty, y, i);
    }
    assert(w * (x * x * c) == w * x * x * c) by {
        mul_assoc(w, x, x);
        mul_assoc(w, x * x, c);
    }
    assert(f * (q * ty * (y * i) + w * (x * x * c)) == f * q * ty * y * i + f * w * x * x * c) by {
        mul_eq(f, q * ty * (y * i) + w * (x * x * c), f, q * ty * y * i + w * x * x * c);
        dist_add_left(f, q * ty * y * i, w * x * x * c);
        mul_assoc(f, q, ty);
        mul_assoc(f, q * ty, y);
        mul_assoc(f, q * ty * y, i);
        mul_assoc(f, w, x);
        mul_assoc(f, w * x, x);
        mul_assoc(f, w * x * x, c);
    }
    assert(f * (q * ty * (y * i) + w * (x * x * c)) * y
        == f * q * ty * y * y * i + f * w * x * x * y * c) by {
        mul_eq(f * (q * ty * (y * i) + w * (x * x * c)), y, f * q * ty * y * i + f * w * x * x * c,
            y);
        dist_add(f * q * ty * y * i, f * w * x * x * c, y);
        mul_swap(f * q * ty * y, i, y);
        mul_swap(f * w * x * x, c, y);
    }
    assert(q * tz * (y * i) == q * tz * y * i) by {
        mul_assoc(q * tz, y, i);
    }
    assert(f * (q * tz * (y * i)) == f * q * tz * y * i) by {
        mul_eq(f, q * tz * (y * i), f, q * tz * y * i);
        mul_assoc(f, q, tz);
        mul_assoc(f, q * tz, y);
        mul_assoc(f, q * tz * y, i);
    }
    assert(f * (q * tz * (y * i)) * z == f * q * tz * y * z * i) by {
        mul_eq(f * (q * tz * (y * i)), z, f * q * tz * y * i, z);
        mul_swap(f * q * tz * y, i, z);
    }
    assert(f * q * tx * x * y * i + f * q * ty * y * y * i + f * q * tz * y * z * i == 0real) by {
        mul_eq(f * q * y * i, tx * x + ty * y + tz * z, f * q * y * i, 0real);
        dist_add_left(f * q * y * i, tx * x + ty * y, tz * z);
        dist_add_left(f * q * y * i, tx * x, ty * y);
        mul_swap(f * q * y, i, tx);
        mul_swap(f * q, y, tx);
        mul_assoc(f * q * y * i, tx, x);
        mul_swap(f * q * tx * y, i, x);
        mul_swap(f * q * tx, y, x);
        mul_swap(f * q * y, i, ty);
        mul_swap(f * q, y, ty);
        mul_assoc(f * q * y * i, ty, y);
        mul_swap(f * q * ty * y, i, y);
        mul_swap(f * q * y, i, tz);
        mul_swap(f * q, y, tz);
        mul_assoc(f * q * y * i, tz, z);
        mul_swap(f * q * tz * y, i, z);
    }
}

pub(crate) proof fn ray_pinhole(f: real, q: real, x: real, z: real)
    requires
        q * z == 1real,
    ensures
        f * q * x + (-(f * q)) * x * q * z == 0real,
{
    assert((-(f * q)) * x == -(f * q * x)) by {
        dist_neg(f * q, x);
    }
    assert((-(f * q)) * x * q == -(f * q * q * x)) by {
        mul_eq((-(f * q)) * x, q, -(f * q * x), q);
        dist_neg(f * q * x, q);
        mul_swap(f * q, x, q);
    }
    assert((-(f * q)) * x * q * z == -(f * q * q * x * z)) by {
        mul_eq((-(f * q)) * x * q, z, -(f * q * q * x), z);
        dist_neg(f * q * q * x, z);
    }
    assert(f * q * q * x * z == f * q * x) by {
        mul_eq(f * q * x, q * z, f * q * x, 1real);
        mul_swap(f * q, x, q);
        mul_assoc(f * q * x, q, z);
    }
}

pub(crate) proof fn scaled_square(s: real, x: real, y: real, r: real)
    requires
        r * r == x * x + y * y,
    ensures
        s * x * (s * x) + s * y * (s * y) == s * r * (s * r),
{
    assert(s * x * (s * x) == s * s * x * x) by {
        mul_swap(s, x, s);
        mul_assoc(s * x, s, x);
    }
    assert(s * y * (s * y) == s * s * y * y) by {
        mul_swap(s, y, s);
        mul_assoc(s * y, s, y);
    }
    assert(s * r * (s * r) == s * s * r * r) by {
        mul_swap(s, r, s);
        mul_assoc(s * r, s, r);
    }
    assert(s * s * r * r == s * s * x * x + s * s * y * y) by {
        mul_eq(s * s, r * r, s * s, x * x + y * y);
        mul_assoc(s * s, r, r);
        dist_add_left(s * s, x * x, y * y);
        mul_assoc(s * s, x, x);
        mul_assoc(s * s, y, y);
    }
}

pub(crate) proof fn scaled_reciprocal(s: real, u: real, r: real, i: real, j: real)
    requires
        s * u == 1real,
        r * i == 1real,
        s * r * j == 1real,
    ensures
        j == i * u,
{
    assert(i * u == u * i) by {
        mul_comm(i, u);
    }
    assert(s * u * r * i * j == r * i * j) by {
        mul_eq(r * i * j, s * u, r * i * j, 1real);
        mul_swap(r * i, j, s);
        mul_swap(r, i, s);
        mul_comm(r, s);
        mul_assoc(r * i * j, s, u);
        mul_swap(s * r * i, j, u);
        mul_swap(s * r, i, u);
        mul_swap(s, r, u);
    }
    assert(s * u * r * i * j == u * i) by {
        mul_eq(u * i, s * r * j, u * i, 1real);
        mul_swap(u, i, s);
        mul_comm(u, s);
        mul_assoc(u * i, s, r);
        mul_swap(s * u, i, r);
        mul_assoc(u * i, s * r, j);
    }
    assert(r * i * j == j) by {
        mul_eq(j, r * i, j, 1real);
        mul_comm(j, r);
        mul_assoc(j, r, i);
        mul_swap(r, j, i);
    }
}

pub(crate) proof fn scaled_inverse_square(
    s: real,
    u: real,
    x: real,
    y: real,
    z: real,
    b: real,
    d: real,
)
    requires
        s * u == 1real,
        (x * x + y * y + z * z) * b == 1real,
        (s * x * (s * x) + s * y * (s * y) + s * z * (s * z)) * d == 1real,
    ensures
        d == b * (u * u),
{
    assert((x * x + y * y + z * z) * b == x * x * b + y * y * b + z * z * b) by {
        dist_add(x * x + y * y, z * z, b);
        dist_add(x * x, y * y, b);
    }
    assert(s * x * (s * x) == s * s * x * x) by {
        mul_swap(s, x, s);
        mul_assoc(s * x, s, x);
    }
    assert(s * y * (s * y) == s * s * y * y) by {
        mul_swap(s, y, s);
        mul_assoc(s * y, s, y);
    }
    assert(s * z * (s * z) == s * s * z * z) by {
        mul_swap(s, z, s);
        mul_assoc(s * z, s, z);
    }
    assert((s * x * (s * x) + s * y * (s * y) + s * z * (s * z)) * d
        == s * s * x * x * d + s * s * y * y * d + s * s * z * z * d) by {
        mul_eq(s * x * (s * x) + s * y * (s * y) + s * z * (s * z), d,
            s * s * x * x + s * s * y * y + s * s * z * z, d);
        dist_add(s * s * x * x + s * s * y * y, s * s * z * z, d);
        dist_add(s * s * x * x, s * s * y * y, d);
    }
    assert(b * (u * u) == u * u * b) by {
        mul_comm(b, u);
        mul_assoc(b, u, u);
        mul_swap(u, b, u);
    }
    assert(s * s * u * u * x * x * b * d + s * s * u * u * y * y * b * d
        + s * s * u * u * z * z * b * d == s * s * u * u * d) by {
        mul_eq(s * s * u * u * d, (x * x + y * y + z * z) * b, s * s * u * u * d, 1real);
        mul_eq(s * s * u * u * d, (x * x + y * y + z * z) * b, s * s * u * u * d,
            x * x * b + y * y * b + z * z * b);
        dist_add_left(s * s * u * u * d, x * x * b + y * y * b, z * z * b);
        dist_add_left(s * s * u * u * d, x * x * b, y * y * b);
        mul_swap(s * s * u * u, d, x);
        mul_assoc(s * s * u * u * d, x, x);
        mul_swap(s * s * u * u * x, d, x);
        mul_assoc(s * s * u * u * d, x * x, b);
        mul_swap(s * s * u * u * x * x, d, b);
        mul_swap(s * s * u * u, d, y);
        mul_assoc(s * s * u * u * d, y, y);
        mul_swap(s * s * u * u * y, d, y);
        mul_assoc(s * s * u * u * d, y * y, b);
        mul_swap(s * s * u * u * y * y, d, b);
        mul_swap(s * s * u * u, d, z);
        mul_assoc(s * s * u * u * d, z, z);
        mul_swap(s * s * u * u * z, d, z);
        mul_assoc(s * s * u * u * d, z * z, b);
        mul_swap(s * s * u * u * z * z, d, b);
    }
    assert(s * s * u * u * x * x * b * d + s * s * u * u * y * y * b * d
        + s * s * u * u * z * z * b * d == u * u * b) by {
        mul_eq(u * u * b, (s * x * (s * x) + s * y * (s * y) + s * z * (s * z)) * d, u * u * b,
            1real);
        mul_eq(u * u * b, (s * x * (s * x) + s * y * (s * y) + s * z * (s * z)) * d, u * u * b,
            s * s * x * x * d + s * s * y * y * d + s * s * z * z * d);
        dist_add_left(u * u * b, s * s * x * x * d + s * s * y * y * d, s * s * z * z * d);
        dist_add_left(u * u * b, s * s * x * x * d, s * s * y * y * d);
        mul_swap(u * u, b, s);
        mul_swap(u, u, s);
        mul_comm(u, s);
        mul_assoc(u * u * b, s, s);
        mul_swap(s * u * u, b, s);
        mul_swap(s * u, u, s);
        mul_swap(s, u, s);
        mul_assoc(u * u * b, s * s, x);
        mul_swap(s * s * u * u, b, x);
        mul_assoc(u * u * b, s * s * x, x);
        mul_swap(s * s * u * u * x, b, x);
        mul_assoc(u * u * b, s * s * x * x, d);
        mul_swap(u * u, b, s);
        mul_swap(u, u, s);
        mul_comm(u, s);
        mul_assoc(u * u * b, s, s);
        mul_swap(s * u * u, b, s);
        mul_swap(s * u, u, s);
        mul_swap(s, u, s);
        mul_assoc(u * u * b, s * s, y);
        mul_swap(s * s * u * u, b, y);
        mul_assoc(u * u * b, s * s * y, y);
        mul_swap(s * s * u * u * y, b, y);
        mul_assoc(u * u * b, s * s * y * y, d);
        mul_swap(u * u, b, s);
        mul_swap(u, u, s);
        mul_comm(u, s);
        mul_assoc(u * u * b, s, s);
        mul_swap(s * u * u, b, s);
        mul_swap(s * u, u, s);
        mul_swap(s, u, s);
        mul_assoc(u * u * b, s * s, z);
        mul_swap(s * s * u * u, b, z);
        mul_assoc(u * u * b, s * s * z, z);
        mul_swap(s * s * u * u * z, b, z);
        mul_assoc(u * u * b, s * s * z * z, d);
    }
    assert(s * s * u * u * d == s * u * d) by {
        mul_eq(s * u * d, s * u, s * u * d, 1real);
        mul_swap(s * u, d, s);
        mul_swap(s, u, s);
        mul_assoc(s * u * d, s, u);
        mul_swap(s * s * u, d, u);
    }
    assert(s * u * d == d) by {
        mul_eq(d, s * u, d, 1real);
        mul_comm(d, s);
        mul_assoc(d, s, u);
        mul_swap(s, d, u);
    }
}

pub(crate) proof fn scaled_angle(s: real, u: real, a: real, z: real, b: real, i: real)
    requires
        s * u == 1real,
    ensures
        s * a * (s * z) * (b * (u * u) * (i * u)) == u * (a * z * (b * i)),
{
    assert(s * a * (s * z) == s * s * a * z) by {
        mul_swap(s, a, s);
        mul_assoc(s * a, s, z);
    }
    assert(b * (u * u) == u * u * b) by {
        mul_comm(b, u);
        mul_assoc(b, u, u);
        mul_swap(u, b, u);
    }
    assert(i * u == u * i) by {
        mul_comm(i, u);
    }
    assert(b * (u * u) * (i * u) == u * u * u * b * i) by {
        mul_eq(b * (u * u), i * u, u * u * b, u * i);
        mul_swap(u * u, b, u);
        mul_assoc(u * u * b, u, i);
    }
    assert(s * a * (s * z) * (b * (u * u) * (i * u)) == s * s * u * u * u * a * z * b * i) by {
        mul_eq(s * a * (s * z), b * (u * u) * (i * u), s * s * a * z, u * u * u * b * i);
        mul_swap(s * s * a, z, u);
        mul_swap(s * s, a, u);
        mul_assoc(s * s * a * z, u, u);
        mul_swap(s * s * u * a, z, u);
        mul_swap(s * s * u, a, u);
        mul_assoc(s * s * a * z, u * u, u);
        mul_swap(s * s * u * u * a, z, u);
        mul_swap(s * s * u * u, a, u);
        mul_assoc(s * s * a * z, u * u * u, b);
        mul_assoc(s * s * a * z, u * u * u * b, i);
    }
    assert(a * z * (b * i) == a * z * b * i) by {
        mul_assoc(a * z, b, i);
    }
    assert(u * (a * z * (b * i)) == u * a * z * b * i) by {
        mul_eq(u, a * z * (b * i), u, a * z * b * i);
        mul_assoc(u, a, z);
        mul_assoc(u, a * z, b);
        mul_assoc(u, a * z * b, i);
    }
    assert(s * s * u * u * u * a * z * b * i == s * u * u * a * z * b * i) by {
        mul_eq(s * u * u * a * z * b * i, s * u, s * u * u * a * z * b * i, 1real);
        mul_swap(s * u * u * a * z * b, i, s);
        mul_swap(s * u * u * a * z, b, s);
        mul_swap(s * u * u * a, z, s);
        mul_swap(s * u * u, a, s);
        mul_swap(s * u, u, s);
        mul_swap(s, u, s);
        mul_assoc(s * u * u * a * z * b * i, s, u);
        mul_swap(s * s * u * u * a * z * b, i, u);
        mul_swap(s * s * u * u * a * z, b, u);
        mul_swap(s * s * u * u * a, z, u);
        mul_swap(s * s * u * u, a, u);
    }
    assert(s * u * u * a * z * b * i == u * a * z * b * i) by {
        mul_eq(u * a * z * b * i, s * u, u * a * z * b * i, 1real);
        mul_swap(u * a * z * b, i, s);
        mul_swap(u * a * z, b, s);
        mul_swap(u * a, z, s);
        mul_swap(u, a, s);
        mul_comm(u, s);
        mul_assoc(u * a * z * b * i, s, u);
        mul_swap(s * u * a * z * b, i, u);
        mul_swap(s * u * a * z, b, u);
        mul_swap(s * u * a, z, u);
        mul_swap(s * u, a, u);
    }
}

pub(crate) proof fn scaled_depth_angle(s: real, u: real, r: real, b: real)
    requires
        s * u == 1real,
    ensures
        (-(s * r)) * (b * (u * u)) == u * ((-r) * b),
{
    assert(b * (u * u) == u * u * b) by {
        mul_comm(b, u);
        mul_assoc(b, u, u);
        mul_swap(u, b, u);
    }
    assert((-(s * r)) * (b * (u * u)) == -(s * u * u * r * b)) by {
        mul_eq(-(s * r), b * (u * u), -(s * r), u * u * b);
        dist_neg(s * r, u * u * b);
        mul_swap(s, r, u);
        mul_assoc(s * r, u, u);
        mul_swap(s * u, r, u);
        mul_assoc(s * r, u * u, b);
    }
    assert((-r) * b == -(r * b)) by {
        dist_neg(r, b);
    }
    assert(u * ((-r) * b) == -(u * r * b)) by {
        mul_eq(u, (-r) * b, u, -(r * b));
        dist_neg_left(u, r * b);
        mul_assoc(u, r, b);
    }
    assert(s * u * u * r * b == u * r * b) by {
        mul_eq(u * r * b, s * u, u * r * b, 1real);
        mul_swap(u * r, b, s);
        mul_swap(u, r, s);
        mul_comm(u, s);
        mul_assoc(u * r * b, s, u);
        mul_swap(s * u * r, b, u);
        mul_swap(s * u, r, u);
    }
}

pub(crate) proof fn scaled_entry(
    s: real,
    u: real,
    f: real,
    q: real,
    t: real,
    a: real,
    i: real,
    w: real,
    e: real,
    g: real,
)
    requires
        s * u == 1real,
    ensures
        f * (q * (u * t) * (s * a * (i * u)) + w * (s * e * (s * g) * (i * u * (i * u) * (i * u))))
            == u * (f * (q * t * (a * i) + w * (e * g * (i * i * i)))),
{
    assert(q * (u * t) == u * q * t) by {
        mul_comm(q, u);
        mul_assoc(q, u, t);
    }
    assert(i * u == u * i) by {
        mul_comm(i, u);
    }
    assert(s * a * (i * u) == s * u * a * i) by {
        mul_eq(s * a, i * u, s * a, u * i);
        mul_swap(s, a, u);
        mul_assoc(s * a, u, i);
    }
    assert(q * (u * t) * (s * a * (i * u)) == s * u * u * q * t * a * i) by {
        mul_eq(q * (u * t), s * a * (i * u), u * q * t, s * u * a * i);
        mul_swap(u * q, t, s);
        mul_swap(u, q, s);
        mul_comm(u, s);
        mul_assoc(u * q * t, s, u);
        mul_swap(s * u * q, t, u);
        mul_swap(s * u, q, u);
        mul_assoc(u * q * t, s * u, a);
        mul_assoc(u * q * t, s * u * a, i);
    }
    assert(s * e * (s * g) == s * s * e * g) by {
        mul_swap(s, e, s);
        mul_assoc(s * e, s, g);
    }
    assert(i * u * (i * u) == u * u * i * i) by {
        mul_eq(i * u, i * u, u * i, u * i);
        mul_swap(u, i, u);
        mul_assoc(u * i, u, i);
    }
    assert(i * u * (i * u) * (i * u) == u * u * u * i * i * i) by {
        mul_eq(i * u * (i * u), i * u, u * u * i * i, u * i);
        mul_swap(u * u * i, i, u);
        mul_swap(u * u, i, u);
        mul_assoc(u * u * i * i, u, i);
    }
    assert(s * e * (s * g) * (i * u * (i * u) * (i * u))
        == s * s * u * u * u * i * i * i * e * g) by {
        mul_eq(s * e * (s * g), i * u * (i * u) * (i * u), s * s * e * g, u * u * u * i * i * i);
        mul_swap(s * s * e, g, u);
        mul_swap(s * s, e, u);
        mul_assoc(s * s * e * g, u, u);
        mul_swap(s * s * u * e, g, u);
        mul_swap(s * s * u, e, u);
        mul_assoc(s * s * e * g, u * u, u);
        mul_swap(s * s * u * u * e, g, u);
        mul_swap(s * s * u * u, e, u);
        mul_assoc(s * s * e * g, u * u * u, i);
        mul_swap(s * s * u * u * u * e, g, i);
        mul_swap(s * s * u * u * u, e, i);
        mul_assoc(s * s * e * g, u * u * u * i, i);
        mul_swap(s * s * u * u * u * i * e, g, i);
        mul_swap(s * s * u * u * u * i, e, i);
        mul_assoc(s * s * e * g, u * u * u * i * i, i);
        mul_swap(s * s * u * u * u * i * i * e, g, i);
        mul_swap(s * s * u * u * u * i * i, e, i);
    }
    assert(w * (s * e * (s * g) * (i * u * (i * u) * (i * u)))
        == s * s * u * u * u * i * i * i * w * e * g) by {
        mul_eq(w, s * e * (s * g) * (i * u * (i * u) * (i * u)), w,
            s * s * u * u * u * i * i * i * e * g);
        mul_comm(w, s);
        mul_assoc(w, s, s);
        mul_swap(s, w, s);
        mul_assoc(w, s * s, u);
        mul_swap(s * s, w, u);
        mul_assoc(w, s * s * u, u);
        mul_swap(s * s * u, w, u);
        mul_assoc(w, s * s * u * u, u);
        mul_swap(s * s * u * u, w, u);
        mul_assoc(w, s * s * u * u * u, i);
        mul_swap(s * s * u * u * u, w, i);
        mul_assoc(w, s * s * u * u * u * i, i);
        mul_swap(s * s * u * u * u * i, w, i);
        mul_assoc(w, s * s * u * u * u * i * i, i);
        mul_swap(s * s * u * u * u * i * i, w, i);
        mul_assoc(w, s * s * u * u * u * i * i * i, e);
        mul_assoc(w, s * s * u * u * u * i * i * i * e, g);
    }
    assert(f * (q * (u * t) * (s * a * (i * u))
        + w * (s * e * (s * g) * (i * u * (i * u) * (i * u))))
        == s * u * u * f * q * t * a * i + s * s * u * u * u * f * i * i * i * w * e * g) by {
        mul_eq(f, q * (u * t) * (s * a * (i * u))
            + w * (s * e * (s * g) * (i * u * (i * u) * (i * u))), f,
            s * u * u * q * t * a * i + s * s * u * u * u * i * i * i * w * e * g);
        dist_add_left(f, s * u * u * q * t * a * i, s * s * u * u * u * i * i * i * w * e * g);
        mul_comm(f, s);
        mul_assoc(f, s, u);
        mul_swap(s, f, u);
        mul_assoc(f, s * u, u);
        mul_swap(s * u, f, u);
        mul_assoc(f, s * u * u, q);
        mul_assoc(f, s * u * u * q, t);
        mul_assoc(f, s * u * u * q * t, a);
        mul_assoc(f, s * u * u * q * t * a, i);
        mul_comm(f, s);
        mul_assoc(f, s, s);
        mul_swap(s, f, s);
        mul_assoc(f, s * s, u);
        mul_swap(s * s, f, u);
        mul_assoc(f, s * s * u, u);
        mul_swap(s * s * u, f, u);
        mul_assoc(f, s * s * u * u, u);
        mul_swap(s * s * u * u, f, u);
        mul_assoc(f, s * s * u * u * u, i);
        mul_assoc(f, s * s * u * u * u * i, i);
        mul_assoc(f, s * s * u * u * u * i * i, i);
        mul_assoc(f, s * s * u * u * u * i * i * i, w);
        mul_assoc(f, s * s * u * u * u * i * i * i * w, e);
        mul_assoc(f, s * s * u * u * u * i * i * i * w * e, g);
    }
    assert(q * t * (a * i) == q * t * a * i) by {
        mul_assoc(q * t, a, i);
    }
    assert(e * g * (i * i * i) == i * i * i * e * g) by {
        mul_swap(e, g, i);
        mul_comm(e, i);
        mul_assoc(e * g, i, i);
        mul_swap(i * e, g, i);
        mul_swap(i, e, i);
        mul_assoc(e * g, i * i, i);
        mul_swap(i * i * e, g, i);
        mul_swap(i * i, e, i);
    }
    assert(w * (e * g * (i * i * i)) == i * i * i * w * e * g) by {
        mul_eq(w, e * g * (i * i * i), w, i * i * i * e * g);
        mul_comm(w, i);
        mul_assoc(w, i, i);
        mul_swap(i, w, i);
        mul_assoc(w, i * i, i);
        mul_swap(i * i, w, i);
        mul_assoc(w, i * i * i, e);
        mul_assoc(w, i * i * i * e, g);
    }
    assert(f * (q * t * (a * i) + w * (e * g * (i * i * i)))
        == f * q * t * a * i + f * i * i * i * w * e * g) by {
        mul_eq(f, q * t * (a * i) + w * (e * g * (i * i * i)), f,
            q * t * a * i + i * i * i * w * e * g);
        dist_add_left(f, q * t * a * i, i * i * i * w * e * g);
        mul_assoc(f, q, t);
        mul_assoc(f, q * t, a);
        mul_assoc(f, q * t * a, i);
        mul_assoc(f, i, i);
        mul_assoc(f, i * i, i);
        mul_assoc(f, i * i * i, w);
        mul_assoc(f, i * i * i * w, e);
        mul_assoc(f, i * i * i * w * e, g);
    }
    assert(u * (f * (q * t * (a * i) + w * (e * g * (i * i * i))))
        == u * f * q * t * a * i + u * f * i * i * i * w * e * g) by {
        mul_eq(u, f * (q * t * (a * i) + w * (e * g * (i * i * i))), u,
            f * q * t * a * i + f * i * i * i * w * e * g);
        dist_add_left(u, f * q * t * a * i, f * i * i * i * w * e * g);
        mul_assoc(u, f, q);
        mul_assoc(u, f * q, t);
        mul_assoc(u, f * q * t, a);
        mul_assoc(u, f * q * t * a, i);
        mul_assoc(u, f, i);
        mul_assoc(u, f * i, i);
        mul_assoc(u, f * i * i, i);
        mul_assoc(u, f * i * i * i, w);
        mul_assoc(u, f * i * i * i * w, e);
        mul_assoc(u, f * i * i * i * w * e, g);
    }
    assert(s * s * u * u * u * f * i * i * i * w * e * g
        == s * u * u * f * i * i * i * w * e * g) by {
        mul_eq(s * u * u * f * i * i * i * w * e * g, s * u, s * u * u * f * i * i * i * w * e * g,
            1real);
        mul_swap(s * u * u * f * i * i * i * w * e, g, s);
        mul_swap(s * u * u * f * i * i * i * w, e, s);
        mul_swap(s * u * u * f * i * i * i, w, s);
        mul_swap(s * u * u * f * i * i, i, s);
        mul_swap(s * u * u * f * i, i, s);
        mul_swap(s * u * u * f, i, s);
        mul_swap(s * u * u, f, s);
        mul_swap(s * u, u, s);
        mul_swap(s, u, s);
        mul_assoc(s * u * u * f * i * i * i * w * e * g, s, u);
        mul_swap(s * s * u * u * f * i * i * i * w * e, g, u);
        mul_swap(s * s * u * u * f * i * i * i * w, e, u);
        mul_swap(s * s * u * u * f * i * i * i, w, u);
        mul_swap(s * s * u * u * f * i * i, i, u);
        mul_swap(s * s * u * u * f * i, i, u);
        mul_swap(s * s * u * u * f, i, u);
        mul_swap(s * s * u * u, f, u);
    }
    assert(s * u * u * f * q * t * a * i == u * f * q * t * a * i) by {
        mul_eq(u * f * q * t * a * i, s * u, u * f * q * t * a * i, 1real);
        mul_swap(u * f * q * t * a, i, s);
        mul_swap(u * f * q * t, a, s);
        mul_swap(u * f * q, t, s);
        mul_swap(u * f, q, s);
        mul_swap(u, f, s);
        mul_comm(u, s);
        mul_assoc(u * f * q * t * a * i, s, u);
        mul_swap(s * u * f * q * t * a, i, u);
        mul_swap(s * u * f * q * t, a, u);
        mul_swap(s * u * f * q, t, u);
        mul_swap(s * u * f, q, u);
        mul_swap(s * u, f, u);
    }
    assert(s * u * u * f * i * i * i * w * e * g == u * f * i * i * i * w * e * g) by {
        mul_eq(u * f * i * i * i * w * e * g, s * u, u * f * i * i * i * w * e * g, 1real);
        mul_swap(u * f * i * i * i * w * e, g, s);
        mul_swap(u * f * i * i * i * w, e, s);
        mul_swap(u * f * i * i * i, w, s);
        mul_swap(u * f * i * i, i, s);
        mul_swap(u * f * i, i, s);
        mul_swap(u * f, i, s);
        mul_swap(u, f, s);
        mul_comm(u, s);
        mul_assoc(u * f * i * i * i * w * e * g, s, u);
        mul_swap(s * u * f * i * i * i * w * e, g, u);
        mul_swap(s * u * f * i * i * i * w, e, u);
        mul_swap(s * u * f * i * i * i, w, u);
        mul_swap(s * u * f * i * i, i, u);
        mul_swap(s * u * f * i, i, u);
        mul_swap(s * u * f, i, u);
        mul_swap(s * u, f, u);
    }
}

pub(crate) proof fn scaled_entry_across(
    s: real,
    u: real,
    f: real,
    q: real,
    t: real,
    a: real,
    i: real,
    w: real,
    e: real,
    g: real,
)
    requires
        s * u == 1real,
    ensures
        f * (q * (u * t) * (s * a * (i * u))
            + w * ((-(s * e * (s * g))) * (i * u * (i * u) * (i * u))))
            == u * (f * (q * t * (a * i) + w * ((-(e * g)) * (i * i * i)))),
{
    assert(q * (u * t) == u * q * t) by {
        mul_comm(q, u);
        mul_assoc(q, u, t);
    }
    assert(i * u == u * i) by {
        mul_comm(i, u);
    }
    assert(s * a * (i * u) == s * u * a * i) by {
        mul_eq(s * a, i * u, s * a, u * i);
        mul_swap(s, a, u);
        mul_assoc(s * a, u, i);
    }
    assert(q * (u * t) * (s * a * (i * u)) == s * u * u * q * t * a * i) by {
        mul_eq(q * (u * t), s * a * (i * u), u * q * t, s * u * a * i);
        mul_swap(u * q, t, s);
        mul_swap(u, q, s);
        mul_comm(u, s);
        mul_assoc(u * q * t, s, u);
        mul_swap(s * u * q, t, u);
        mul_swap(s * u, q, u);
        mul_assoc(u * q * t, s * u, a);
        mul_assoc(u * q * t, s * u * a, i);
    }
    assert(s * e * (s * g) == s * s * e * g) by {
        mul_swap(s, e, s);
        mul_assoc(s * e, s, g);
    }
    assert(i * u * (i * u) == u * u * i * i) by {
        mul_eq(i * u, i * u, u * i, u * i);
        mul_swap(u, i, u);
        mul_assoc(u * i, u, i);
    }
    assert(i * u * (i * u) * (i * u) == u * u * u * i * i * i) by {
        mul_eq(i * u * (i * u), i * u, u * u * i * i, u * i);
        mul_swap(u * u * i, i, u);
        mul_swap(u * u, i, u);
        mul_assoc(u * u * i * i, u, i);
    }
    assert((-(s * e * (s * g))) * (i * u * (i * u) * (i * u))
        == -(s * s * u * u * u * i * i * i * e * g)) by {
        mul_eq(-(s * e * (s * g)), i * u * (i * u) * (i * u), -(s * s * e * g),
            u * u * u * i * i * i);
        dist_neg(s * s * e * g, u * u * u * i * i * i);
        mul_swap(s * s * e, g, u);
        mul_swap(s * s, e, u);
        mul_assoc(s * s * e * g, u, u);
        mul_swap(s * s * u * e, g, u);
        mul_swap(s * s * u, e, u);
        mul_assoc(s * s * e * g, u * u, u);
        mul_swap(s * s * u * u * e, g, u);
        mul_swap(s * s * u * u, e, u);
        mul_assoc(s * s * e * g, u * u * u, i);
        mul_swap(s * s * u * u * u * e, g, i);
        mul_swap(s * s * u * u * u, e, i);
        mul_assoc(s * s * e * g, u * u * u * i, i);
        mul_swap(s * s * u * u * u * i * e, g, i);
        mul_swap(s * s * u * u * u * i, e, i);
        mul_assoc(s * s * e * g, u * u * u * i * i, i);
        mul_swap(s * s * u * u * u * i * i * e, g, i);
        mul_swap(s * s * u * u * u * i * i, e, i);
    }
    assert(w * ((-(s * e * (s * g))) * (i * u * (i * u) * (i * u)))
        == -(s * s * u * u * u * i * i * i * w * e * g)) by {
        mul_eq(w, (-(s * e * (s * g))) * (i * u * (i * u) * (i * u)), w,
            -(s * s * u * u * u * i * i * i * e * g));
        dist_neg_left(w, s * s * u * u * u * i * i * i * e * g);
        mul_comm(w, s);
        mul_assoc(w, s, s);
        mul_swap(s, w, s);
        mul_assoc(w, s * s, u);
        mul_swap(s * s, w, u);
        mul_assoc(w, s * s * u, u);
        mul_swap(s * s * u, w, u);
        mul_assoc(w, s * s * u * u, u);
        mul_swap(s * s * u * u, w, u);
        mul_assoc(w, s * s * u * u * u, i);
        mul_swap(s * s * u * u * u, w, i);
        mul_assoc(w, s * s * u * u * u * i, i);
        mul_swap(s * s * u * u * u * i, w, i);
        mul_assoc(w, s * s * u * u * u * i * i, i);
        mul_swap(s * s * u * u * u * i * i, w, i);
        mul_assoc(w, s * s * u * u * u * i * i * i, e);
        mul_assoc(w, s * s * u * u * u * i * i * i * e, g);
    }
    assert(f * (q * (u * t) * (s * a * (i * u))
        + w * ((-(s * e * (s * g))) * (i * u * (i * u) * (i * u))))
        == s * u * u * f * q * t * a * i - s * s * u * u * u * f * i * i * i * w * e * g) by {
        mul_eq(f, q * (u * t) * (s * a * (i * u))
            + w * ((-(s * e * (s * g))) * (i * u * (i * u) * (i * u))), f,
            s * u * u * q * t * a * i - s * s * u * u * u * i * i * i * w * e * g);
        dist_sub_left(f, s * u * u * q * t * a * i, s * s * u * u * u * i * i * i * w * e * g);
        mul_comm(f, s);
        mul_assoc(f, s, u);
        mul_swap(s, f, u);
        mul_assoc(f, s * u, u);
        mul_swap(s * u, f, u);
        mul_assoc(f, s * u * u, q);
        mul_assoc(f, s * u * u * q, t);
        mul_assoc(f, s * u * u * q * t, a);
        mul_assoc(f, s * u * u * q * t * a, i);
        mul_comm(f, s);
        mul_assoc(f, s, s);
        mul_swap(s, f, s);
        mul_assoc(f, s * s, u);
        mul_swap(s * s, f, u);
        mul_assoc(f, s * s * u, u);
        mul_swap(s * s * u, f, u);
        mul_assoc(f, s * s * u * u, u);
        mul_swap(s * s * u * u, f, u);
        mul_assoc(f, s * s * u * u * u, i);
        mul_assoc(f, s * s * u * u * u * i, i);
        mul_assoc(f, s * s * u * u * u * i * i, i);
        mul_assoc(f, s * s * u * u * u * i * i * i, w);
        mul_assoc(f, s * s * u * u * u * i * i * i * w, e);
        mul_assoc(f, s * s * u * u * u * i * i * i * w * e, g);
    }
    assert(q * t * (a * i) == q * t * a * i) by {
        mul_assoc(q * t, a, i);
    }
    assert((-(e * g)) * (i * i * i) == -(i * i * i * e * g)) by {
        dist_neg(e * g, i * i * i);
        mul_swap(e, g, i);
        mul_comm(e, i);
        mul_assoc(e * g, i, i);
        mul_swap(i * e, g, i);
        mul_swap(i, e, i);
        mul_assoc(e * g, i * i, i);
        mul_swap(i * i * e, g, i);
        mul_swap(i * i, e, i);
    }
    assert(w * ((-(e * g)) * (i * i * i)) == -(i * i * i * w * e * g)) by {
        mul_eq(w, (-(e * g)) * (i * i * i), w, -(i * i * i * e * g));
        dist_neg_left(w, i * i * i * e * g);
        mul_comm(w, i);
        mul_assoc(w, i, i);
        mul_swap(i, w, i);
        mul_assoc(w, i * i, i);
        mul_swap(i * i, w, i);
        mul_assoc(w, i * i * i, e);
        mul_assoc(w, i * i * i * e, g);
    }
    assert(f * (q * t * (a * i) + w * ((-(e * g)) * (i * i * i)))
        == f * q * t * a * i - f * i * i * i * w * e * g) by {
        mul_eq(f, q * t * (a * i) + w * ((-(e * g)) * (i * i * i)), f,
            q * t * a * i - i * i * i * w * e * g);
        dist_sub_left(f, q * t * a * i, i * i * i * w * e * g);
        mul_assoc(f, q, t);
        mul_assoc(f, q * t, a);
        mul_assoc(f, q * t * a, i);
        mul_assoc(f, i, i);
        mul_assoc(f, i * i, i);
        mul_assoc(f, i * i * i, w);
        mul_assoc(f, i * i * i * w, e);
        mul_assoc(f, i * i * i * w * e, g);
    }
    assert(u * (f * (q * t * (a * i) + w * ((-(e * g)) * (i * i * i))))
        == u * f * q * t * a * i - u * f * i * i * i * w * e * g) by {
        mul_eq(u, f * (q * t * (a * i) + w * ((-(e * g)) * (i * i * i))), u,
            f * q * t * a * i - f * i * i * i * w * e * g);
        dist_sub_left(u, f * q * t * a * i, f * i * i * i * w * e * g);
        mul_assoc(u, f, q);
        mul_assoc(u, f * q, t);
        mul_assoc(u, f * q * t, a);
        mul_assoc(u, f * q * t * a, i);
        mul_assoc(u, f, i);
        mul_assoc(u, f * i, i);
        mul_assoc(u, f * i * i, i);
        mul_assoc(u, f * i * i * i, w);
        mul_assoc(u, f * i * i * i * w, e);
        mul_assoc(u, f * i * i * i * w * e, g);
    }
    assert(s * s * u * u * u * f * i * i * i * w * e * g
        == s * u * u * f * i * i * i * w * e * g) by {
        mul_eq(s * u * u * f * i * i * i * w * e * g, s * u, s * u * u * f * i * i * i * w * e * g,
            1real);
        mul_swap(s * u * u * f * i * i * i * w * e, g, s);
        mul_swap(s * u * u * f * i * i * i * w, e, s);
        mul_swap(s * u * u * f * i * i * i, w, s);
        mul_swap(s * u * u * f * i * i, i, s);
        mul_swap(s * u * u * f * i, i, s);
        mul_swap(s * u * u * f, i, s);
        mul_swap(s * u * u, f, s);
        mul_swap(s * u, u, s);
        mul_swap(s, u, s);
        mul_assoc(s * u * u * f * i * i * i * w * e * g, s, u);
        mul_swap(s * s * u * u * f * i * i * i * w * e, g, u);
        mul_swap(s * s * u * u * f * i * i * i * w, e, u);
        mul_swap(s * s * u * u * f * i * i * i, w, u);
        mul_swap(s * s * u * u * f * i * i, i, u);
        mul_swap(s * s * u * u * f * i, i, u);
        mul_swap(s * s * u * u * f, i, u);
        mul_swap(s * s * u * u, f, u);
    }
    assert(s * u * u * f * q * t * a * i == u * f * q * t * a * i) by {
        mul_eq(u * f * q * t * a * i, s * u, u * f * q * t * a * i, 1real);
        mul_swap(u * f * q * t * a, i, s);
        mul_swap(u * f * q * t, a, s);
        mul_swap(u * f * q, t, s);
        mul_swap(u * f, q, s);
        mul_swap(u, f, s);
        mul_comm(u, s);
        mul_assoc(u * f * q * t * a * i, s, u);
        mul_swap(s * u * f * q * t * a, i, u);
        mul_swap(s * u * f * q * t, a, u);
        mul_swap(s * u * f * q, t, u);
        mul_swap(s * u * f, q, u);
        mul_swap(s * u, f, u);
    }
    assert(s * u * u * f * i * i * i * w * e * g == u * f * i * i * i * w * e * g) by {
        mul_eq(u * f * i * i * i * w * e * g, s * u, u * f * i * i * i * w * e * g, 1real);
        mul_swap(u * f * i * i * i * w * e, g, s);
        mul_swap(u * f * i * i * i * w, e, s);
        mul_swap(u * f * i * i * i, w, s);
        mul_swap(u * f * i * i, i, s);
        mul_swap(u * f * i, i, s);
        mul_swap(u * f, i, s);
        mul_swap(u, f, s);
        mul_comm(u, s);
        mul_assoc(u * f * i * i * i * w * e * g, s, u);
        mul_swap(s * u * f * i * i * i * w * e, g, u);
        mul_swap(s * u * f * i * i * i * w, e, u);
        mul_swap(s * u * f * i * i * i, w, u);
        mul_swap(s * u * f * i * i, i, u);
        mul_swap(s * u * f * i, i, u);
        mul_swap(s * u * f, i, u);
        mul_swap(s * u, f, u);
    }
}

pub(crate) proof fn scaled_entry_depth(
    s: real,
    u: real,
    f: real,
    q: real,
    t: real,
    a: real,
    i: real,
)
    requires
        s * u == 1real,
    ensures
        f * (q * (u * t) * (s * a * (i * u))) == u * (f * (q * t * (a * i))),
{
    assert(q * (u * t) == u * q * t) by {
        mul_comm(q, u);
        mul_assoc(q, u, t);
    }
    assert(i * u == u * i) by {
        mul_comm(i, u);
    }
    assert(s * a * (i * u) == s * u * a * i) by {
        mul_eq(s * a, i * u, s * a, u * i);
        mul_swap(s, a, u);
        mul_assoc(s * a, u, i);
    }
    assert(q * (u * t) * (s * a * (i * u)) == s * u * u * q * t * a * i) by {
        mul_eq(q * (u * t), s * a * (i * u), u * q * t, s * u * a * i);
        mul_swap(u * q, t, s);
        mul_swap(u, q, s);
        mul_comm(u, s);
        mul_assoc(u * q * t, s, u);
        mul_swap(s * u * q, t, u);
        mul_swap(s * u, q, u);
        mul_assoc(u * q * t, s * u, a);
        mul_assoc(u * q * t, s * u * a, i);
    }
    assert(f * (q * (u * t) * (s * a * (i * u))) == s * u * u * f * q * t * a * i) by {
        mul_eq(f, q * (u * t) * (s * a * (i * u)), f, s * u * u * q * t * a * i);
        mul_comm(f, s);
        mul_assoc(f, s, u);
        mul_swap(s, f, u);
        mul_assoc(f, s * u, u);
        mul_swap(s * u, f, u);
        mul_assoc(f, s * u * u, q);
        mul_assoc(f, s * u * u * q, t);
        mul_assoc(f, s * u * u * q * t, a);
        mul_assoc(f, s * u * u * q * t * a, i);
    }
    assert(q * t * (a * i) == q * t * a * i) by {
        mul_assoc(q * t, a, i);
    }
    assert(f * (q * t * (a * i)) == f * q * t * a * i) by {
        mul_eq(f, q * t * (a * i), f, q * t * a * i);
        mul_assoc(f, q, t);
        mul_assoc(f, q * t, a);
        mul_assoc(f, q * t * a, i);
    }
    assert(u * (f * (q * t * (a * i))) == u * f * q * t * a * i) by {
        mul_eq(u, f * (q * t * (a * i)), u, f * q * t * a * i);
        mul_assoc(u, f, q);
        mul_assoc(u, f * q, t);
        mul_assoc(u, f * q * t, a);
        mul_assoc(u, f * q * t * a, i);
    }
    assert(s * u * u * f * q * t * a * i == u * f * q * t * a * i) by {
        mul_eq(u * f * q * t * a * i, s * u, u * f * q * t * a * i, 1real);
        mul_swap(u * f * q * t * a, i, s);
        mul_swap(u * f * q * t, a, s);
        mul_swap(u * f * q, t, s);
        mul_swap(u * f, q, s);
        mul_swap(u, f, s);
        mul_comm(u, s);
        mul_assoc(u * f * q * t * a * i, s, u);
        mul_swap(s * u * f * q * t * a, i, u);
        mul_swap(s * u * f * q * t, a, u);
        mul_swap(s * u * f * q, t, u);
        mul_swap(s * u * f, q, u);
        mul_swap(s * u, f, u);
    }
}

pub(crate) proof fn scaled_pinhole(s: real, u: real, f: real, q: real, x: real)
    requires
        s * u == 1real,
    ensures
        f * (q * u) == u * (f * q),
        (-(f * (q * u))) * (s * x) * (q * u) == u * ((-(f * q)) * x * q),
{
    assert(q * u == u * q) by {
        mul_comm(q, u);
    }
    assert(f * (q * u) == u * f * q) by {
        mul_eq(f, q * u, f, u * q);
        mul_comm(f, u);
        mul_assoc(f, u, q);
    }
    assert(u * (f * q) == u * f * q) by {
        mul_assoc(u, f, q);
    }
    assert((-(f * (q * u))) * (s * x) == -(s * u * f * q * x)) by {
        mul_eq(-(f * (q * u)), s * x, -(u * f * q), s * x);
        dist_neg(u * f * q, s * x);
        mul_swap(u * f, q, s);
        mul_swap(u, f, s);
        mul_comm(u, s);
        mul_assoc(u * f * q, s, x);
    }
    assert((-(f * (q * u))) * (s * x) * (q * u) == -(s * u * u * f * q * q * x)) by {
        mul_eq((-(f * (q * u))) * (s * x), q * u, -(s * u * f * q * x), u * q);
        dist_neg(s * u * f * q * x, u * q);
        mul_swap(s * u * f * q, x, u);
        mul_swap(s * u * f, q, u);
        mul_swap(s * u, f, u);
        mul_assoc(s * u * f * q * x, u, q);
        mul_swap(s * u * u * f * q, x, q);
    }
    assert((-(f * q)) * x == -(f * q * x)) by {
        dist_neg(f * q, x);
    }
    assert((-(f * q)) * x * q == -(f * q * q * x)) by {
        mul_eq((-(f * q)) * x, q, -(f * q * x), q);
        dist_neg(f * q * x, q);
        mul_swap(f * q, x, q);
    }
    assert(u * ((-(f * q)) * x * q) == -(u * f * q * q * x)) by {
        mul_eq(u, (-(f * q)) * x * q, u, -(f * q * q * x));
        dist_neg_left(u, f * q * q * x);
        mul_assoc(u, f, q);
        mul_assoc(u, f * q, q);
        mul_assoc(u, f * q * q, x);
    }
    assert(s * u * u * f * q * q * x == u * f * q * q * x) by {
        mul_eq(u * f * q * q * x, s * u, u * f * q * q * x, 1real);
        mul_swap(u * f * q * q, x, s);
        mul_swap(u * f * q, q, s);
        mul_swap(u * f, q, s);
        mul_swap(u, f, s);
        mul_comm(u, s);
        mul_assoc(u * f * q * q * x, s, u);
        mul_swap(s * u * f * q * q, x, u);
        mul_swap(s * u * f * q, q, u);
        mul_swap(s * u * f, q, u);
        mul_swap(s * u, f, u);
    }
}

pub(crate) proof fn ray_root(x: real, y: real, r: real, i: real, dr: real)
    requires
        2real * dr == (x * x + x * x + (y * y + y * y)) * i,
        r * r == x * x + y * y,
        r * i == 1real,
    ensures
        dr == r,
{
    assert((x * x + x * x + (y * y + y * y)) * i == 2real * (x * x * i) + 2real * (y * y * i)) by {
        mul_eq(x * x + x * x + (y * y + y * y), i, 2real * (x * x) + 2real * (y * y), i);
        dist_add(2real * (x * x), 2real * (y * y), i);
        mul_assoc(2real, x * x, i);
        mul_assoc(2real, y * y, i);
    }
    assert(r * r * i == x * x * i + y * y * i) by {
        mul_eq(i, r * r, i, x * x + y * y);
        mul_comm(i, r);
        mul_assoc(i, r, r);
        mul_swap(r, i, r);
        dist_add_left(i, x * x, y * y);
        mul_comm(i, x);
        mul_assoc(i, x, x);
        mul_swap(x, i, x);
        mul_comm(i, y);
        mul_assoc(i, y, y);
        mul_swap(y, i, y);
    }
    assert(r * r * i == r) by {
        mul_eq(r, r * i, r, 1real);
        mul_assoc(r, r, i);
    }
}

pub(crate) proof fn ray_reciprocals(
    x: real,
    y: real,
    z: real,
    r: real,
    i: real,
    b: real,
    dr: real,
    di: real,
    db: real,
)
    requires
        dr == r,
        r * i == 1real,
        di == -(dr * (i * i)),
        db == -((x * x + x * x + (y * y + y * y) + (z * z + z * z)) * (b * b)),
        (x * x + y * y + z * z) * b == 1real,
    ensures
        di == -i,
        db == (0real - 2real) * b,
        (z * dr - r * z) * b == 0real,
{
    assert(dr * (i * i) == i * i * dr) by {
        mul_comm(dr, i);
        mul_assoc(dr, i, i);
        mul_swap(i, dr, i);
    }
    assert((x * x + x * x + (y * y + y * y) + (z * z + z * z)) * (b * b)
        == 2real * (x * x * b * b) + 2real * (y * y * b * b) + 2real * (z * z * b * b)) by {
        mul_eq(x * x + x * x + (y * y + y * y) + (z * z + z * z), b * b,
            2real * (x * x) + 2real * (y * y) + 2real * (z * z), b * b);
        dist_add(2real * (x * x) + 2real * (y * y), 2real * (z * z), b * b);
        dist_add(2real * (x * x), 2real * (y * y), b * b);
        mul_assoc(2real, x * x, b * b);
        mul_assoc(x * x, b, b);
        mul_assoc(2real, y * y, b * b);
        mul_assoc(y * y, b, b);
        mul_assoc(2real, z * z, b * b);
        mul_assoc(z * z, b, b);
    }
    assert((x * x + y * y + z * z) * b == x * x * b + y * y * b + z * z * b) by {
        dist_add(x * x + y * y, z * z, b);
        dist_add(x * x, y * y, b);
    }
    assert(i * i * dr == r * i * i) by {
        mul_eq(i * i, dr, i * i, r);
        mul_swap(i, i, r);
        mul_comm(i, r);
    }
    assert(r * i * i == i) by {
        mul_eq(i, r * i, i, 1real);
        mul_comm(i, r);
        mul_assoc(i, r, i);
    }
    assert((0real - 2real) * b == -(2real * b)) by {
        mul_eq(0real - 2real, b, -(2real), b);
        dist_neg(2real, b);
    }
    assert(x * x * b * b + y * y * b * b + z * z * b * b == b) by {
        mul_eq(b, (x * x + y * y + z * z) * b, b, 1real);
        mul_eq(b, (x * x + y * y + z * z) * b, b, x * x * b + y * y * b + z * z * b);
        dist_add_left(b, x * x * b + y * y * b, z * z * b);
        dist_add_left(b, x * x * b, y * y * b);
        mul_comm(b, x);
        mul_assoc(b, x, x);
        mul_swap(x, b, x);
        mul_assoc(b, x * x, b);
        mul_comm(b, y);
        mul_assoc(b, y, y);
        mul_swap(y, b, y);
        mul_assoc(b, y * y, b);
        mul_comm(b, z);
        mul_assoc(b, z, z);
        mul_swap(z, b, z);
        mul_assoc(b, z * z, b);
    }
    assert(r * z == z * r) by {
        mul_comm(r, z);
    }
    assert((z * dr - r * z) * b == -(z * r * b) + z * b * dr) by {
        mul_eq(z * dr - r * z, b, -(z * r) + z * dr, b);
        dist_add(-(z * r), z * dr, b);
        dist_neg(z * r, b);
        mul_swap(z, dr, b);
    }
    assert(z * b * dr == z * r * b) by {
        mul_eq(z * b, dr, z * b, r);
        mul_swap(z, b, r);
    }
}

pub(crate) proof fn ray_angle_rates(
    a: real,
    z: real,
    r: real,
    i: real,
    b: real,
    dr: real,
    di: real,
    db: real,
)
    requires
        dr == r,
        di == -i,
        db == (0real - 2real) * b,
    ensures
        (a * z + a * z) * (b * i) + a * z * (db * i + b * di) == -(a * z * (b * i)),
        (-dr) * b + (-r) * db == -((-r) * b),
{
    assert((0real - 2real) * b == -(2real * b)) by {
        mul_eq(0real - 2real, b, -(2real), b);
        dist_neg(2real, b);
    }
    assert(b * i == i * b) by {
        mul_comm(b, i);
    }
    assert((a * z + a * z) * (b * i) == 2real * (a * z * i * b)) by {
        mul_eq(a * z + a * z, b * i, 2real * (a * z), i * b);
        mul_assoc(2real, a * z, i * b);
        mul_assoc(a * z, i, b);
    }
    assert(db * i == i * db) by {
        mul_comm(db, i);
    }
    assert(a * z * (db * i + b * di) == a * z * i * db + a * z * b * di) by {
        mul_eq(a * z, db * i + b * di, a * z, i * db + b * di);
        dist_add_left(a * z, i * db, b * di);
        mul_assoc(a * z, i, db);
        mul_assoc(a * z, b, di);
    }
    assert(a * z * (b * i) == a * z * i * b) by {
        mul_eq(a * z, b * i, a * z, i * b);
        mul_assoc(a * z, i, b);
    }
    assert(a * z * b * di == -(a * z * i * b)) by {
        mul_eq(a * z * b, di, a * z * b, -i);
        dist_neg_left(a * z * b, i);
        mul_swap(a * z, b, i);
    }
    assert(a * z * i * db == -(2real * (a * z * i * b))) by {
        mul_eq(a * z * i, db, a * z * i, (0real - 2real) * b);
        mul_eq(a * z * i, (0real - 2real) * b, a * z * i, -(2real * b));
        dist_neg_left(a * z * i, 2real * b);
        mul_front(a * z * i, 2real, b);
    }
    assert((-dr) * b == -(b * dr)) by {
        dist_neg(dr, b);
        mul_comm(dr, b);
    }
    assert((-r) * db == -(r * db)) by {
        dist_neg(r, db);
    }
    assert((-r) * b == -(r * b)) by {
        dist_neg(r, b);
    }
    assert(b * dr == r * b) by {
        mul_eq(b, dr, b, r);
        mul_comm(b, r);
    }
    assert(r * db == -(2real * (r * b))) by {
        mul_eq(r, db, r, (0real - 2real) * b);
        mul_eq(r, (0real - 2real) * b, r, -(2real * b));
        dist_neg_left(r, 2real * b);
        mul_front(r, 2real, b);
    }
}

pub(crate) proof fn ray_bend(e: real, g: real, i: real, di: real)
    requires
        di == -i,
    ensures
        (e * g + e * g) * (i * i * i) + e * g * ((di * i + i * di) * i + i * i * di)
            == -(e * g * (i * i * i)),
        (-(e * g + e * g)) * (i * i * i) + (-(e * g)) * ((di * i + i * di) * i + i * i * di)
            == -((-(e * g)) * (i * i * i)),
{
    assert((e * g + e * g) * (i * i * i) == 2real * (e * g * i * i * i)) by {
        mul_eq(e * g + e * g, i * i * i, 2real * (e * g), i * i * i);
        mul_assoc(2real, e * g, i * i * i);
        mul_assoc(e * g, i, i);
        mul_assoc(e * g, i * i, i);
    }
    assert(di * i == i * di) by {
        mul_comm(di, i);
    }
    assert((di * i + i * di) * i == 2real * (i * i * di)) by {
        mul_eq(di * i + i * di, i, 2real * (i * di), i);
        mul_assoc(2real, i * di, i);
        mul_swap(i, di, i);
    }
    assert(e * g * ((di * i + i * di) * i + i * i * di) == 3real * (e * g * i * i * di)) by {
        mul_eq(e * g, (di * i + i * di) * i + i * i * di, e * g, 3real * (i * i * di));
        mul_front(e * g, 3real, i * i * di);
        mul_assoc(e * g, i, i);
        mul_assoc(e * g, i * i, di);
    }
    assert(e * g * (i * i * i) == e * g * i * i * i) by {
        mul_assoc(e * g, i, i);
        mul_assoc(e * g, i * i, i);
    }
    assert(e * g * i * i * di == -(e * g * i * i * i)) by {
        mul_eq(e * g * i * i, di, e * g * i * i, -i);
        dist_neg_left(e * g * i * i, i);
    }
    assert((-(e * g + e * g)) * (i * i * i) == -(2real * (e * g * i * i * i))) by {
        mul_eq(-(e * g + e * g), i * i * i, -(2real * (e * g)), i * i * i);
        dist_neg(2real * (e * g), i * i * i);
        mul_assoc(2real, e * g, i * i * i);
        mul_assoc(e * g, i, i);
        mul_assoc(e * g, i * i, i);
    }
    assert((-(e * g)) * ((di * i + i * di) * i + i * i * di)
        == -(3real * (e * g * i * i * di))) by {
        mul_eq(-(e * g), (di * i + i * di) * i + i * i * di, -(e * g), 3real * (i * i * di));
        dist_neg(e * g, 3real * (i * i * di));
        mul_front(e * g, 3real, i * i * di);
        mul_assoc(e * g, i, i);
        mul_assoc(e * g, i * i, di);
    }
    assert((-(e * g)) * (i * i * i) == -(e * g * i * i * i)) by {
        dist_neg(e * g, i * i * i);
        mul_assoc(e * g, i, i);
        mul_assoc(e * g, i * i, i);
    }
}

pub(crate) proof fn ray_direction(a: real, i: real, di: real)
    requires
        di == -i,
    ensures
        a * i + a * di == 0real,
{
    assert(a * di == -(a * i)) by {
        mul_eq(a, di, a, -i);
        dist_neg_left(a, i);
    }
}

pub(crate) proof fn ray_entry(
    f: real,
    g: real,
    gr: real,
    w: real,
    wr: real,
    t: real,
    tr: real,
    b: real,
    br: real,
)
    requires
        gr == -g,
        wr == 0real,
        tr == 0real,
        br == -b,
    ensures
        f * (gr * w + g * wr + (tr * b + t * br)) == -(f * (g * w + t * b)),
        f * (gr * w + g * wr) == -(f * (g * w)),
{
    assert(f * (gr * w + g * wr + (tr * b + t * br))
        == f * g * wr + f * gr * w + f * t * br + f * tr * b) by {
        mul_eq(f, gr * w + g * wr + (tr * b + t * br), f, g * wr + gr * w + t * br + tr * b);
        dist_add_left(f, g * wr + gr * w + t * br, tr * b);
        dist_add_left(f, g * wr + gr * w, t * br);
        dist_add_left(f, g * wr, gr * w);
        mul_assoc(f, g, wr);
        mul_assoc(f, gr, w);
        mul_assoc(f, t, br);
        mul_assoc(f, tr, b);
    }
    assert(f * (g * w + t * b) == f * g * w + f * t * b) by {
        dist_add_left(f, g * w, t * b);
        mul_assoc(f, g, w);
        mul_assoc(f, t, b);
    }
    assert(f * gr * w == -(f * g * w)) by {
        mul_eq(f * w, gr, f * w, -g);
        mul_swap(f, w, gr);
        dist_neg_left(f * w, g);
        mul_swap(f, w, g);
    }
    assert(f * g * wr == 0real) by {
        mul_eq(f * g, wr, f * g, 0real);
    }
    assert(f * tr * b == 0real) by {
        mul_eq(f * b, tr, f * b, 0real);
        mul_swap(f, b, tr);
    }
    assert(f * t * br == -(f * t * b)) by {
        mul_eq(f * t, br, f * t, -b);
        dist_neg_left(f * t, b);
    }
    assert(f * (gr * w + g * wr) == f * g * wr + f * gr * w) by {
        mul_eq(f, gr * w + g * wr, f, g * wr + gr * w);
        dist_add_left(f, g * wr, gr * w);
        mul_assoc(f, g, wr);
        mul_assoc(f, gr, w);
    }
    assert(f * (g * w) == f * g * w) by {
        mul_assoc(f, g, w);
    }
}

pub(crate) proof fn ray_slope(p: real, ax: real, ay: real, az: real, x: real, y: real, z: real)
    requires
        ax * x + ay * y + az * z == 0real,
    ensures
        p * ax * x + p * ay * y + p * az * z == 0real,
{
    assert(p * ax * x + p * ay * y + p * az * z == 0real) by {
        mul_eq(p, ax * x + ay * y + az * z, p, 0real);
        dist_add_left(p, ax * x + ay * y, az * z);
        dist_add_left(p, ax * x, ay * y);
        mul_assoc(p, ax, x);
        mul_assoc(p, ay, y);
        mul_assoc(p, az, z);
    }
}

pub(crate) proof fn negated_pairing(
    wu0: real,
    wv0: real,
    wu1: real,
    wv1: real,
    wu2: real,
    wv2: real,
    ju0: real,
    jv0: real,
    ju1: real,
    jv1: real,
    ju2: real,
    jv2: real,
)
    ensures
        wu0 * (-ju0) + wv0 * (-jv0) + wu1 * (-ju1) + wv1 * (-jv1) + wu2 * (-ju2) + wv2 * (-jv2)
            == -(wu0 * ju0 + wv0 * jv0 + wu1 * ju1 + wv1 * jv1 + wu2 * ju2 + wv2 * jv2),
{
    assert(wu0 * (-ju0) == -(wu0 * ju0)) by {
        dist_neg_left(wu0, ju0);
    }
    assert(wv0 * (-jv0) == -(wv0 * jv0)) by {
        dist_neg_left(wv0, jv0);
    }
    assert(wu1 * (-ju1) == -(wu1 * ju1)) by {
        dist_neg_left(wu1, ju1);
    }
    assert(wv1 * (-jv1) == -(wv1 * jv1)) by {
        dist_neg_left(wv1, jv1);
    }
    assert(wu2 * (-ju2) == -(wu2 * ju2)) by {
        dist_neg_left(wu2, ju2);
    }
    assert(wv2 * (-jv2) == -(wv2 * jv2)) by {
        dist_neg_left(wv2, jv2);
    }
}

pub(crate) proof fn symmetric_form(
    a0: real,
    a1: real,
    a2: real,
    b0: real,
    b1: real,
    b2: real,
    s00: real,
    s01: real,
    s02: real,
    s11: real,
    s12: real,
    s22: real,
)
    ensures
        a0 * (s00 * b0 + s01 * b1 + s02 * b2) + a1 * (s01 * b0 + s11 * b1 + s12 * b2)
            + a2 * (s02 * b0 + s12 * b1 + s22 * b2)
            == b0 * (s00 * a0 + s01 * a1 + s02 * a2) + b1 * (s01 * a0 + s11 * a1 + s12 * a2)
            + b2 * (s02 * a0 + s12 * a1 + s22 * a2),
{
    assert(s00 * b0 == b0 * s00) by {
        mul_comm(s00, b0);
    }
    assert(s01 * b1 == b1 * s01) by {
        mul_comm(s01, b1);
    }
    assert(s02 * b2 == b2 * s02) by {
        mul_comm(s02, b2);
    }
    assert(a0 * (s00 * b0 + s01 * b1 + s02 * b2)
        == a0 * b0 * s00 + a0 * b1 * s01 + a0 * b2 * s02) by {
        mul_eq(a0, s00 * b0 + s01 * b1 + s02 * b2, a0, b0 * s00 + b1 * s01 + b2 * s02);
        dist_add_left(a0, b0 * s00 + b1 * s01, b2 * s02);
        dist_add_left(a0, b0 * s00, b1 * s01);
        mul_assoc(a0, b0, s00);
        mul_assoc(a0, b1, s01);
        mul_assoc(a0, b2, s02);
    }
    assert(s01 * b0 == b0 * s01) by {
        mul_comm(s01, b0);
    }
    assert(s11 * b1 == b1 * s11) by {
        mul_comm(s11, b1);
    }
    assert(s12 * b2 == b2 * s12) by {
        mul_comm(s12, b2);
    }
    assert(a1 * (s01 * b0 + s11 * b1 + s12 * b2)
        == a1 * b0 * s01 + a1 * b1 * s11 + a1 * b2 * s12) by {
        mul_eq(a1, s01 * b0 + s11 * b1 + s12 * b2, a1, b0 * s01 + b1 * s11 + b2 * s12);
        dist_add_left(a1, b0 * s01 + b1 * s11, b2 * s12);
        dist_add_left(a1, b0 * s01, b1 * s11);
        mul_assoc(a1, b0, s01);
        mul_assoc(a1, b1, s11);
        mul_assoc(a1, b2, s12);
    }
    assert(s02 * b0 == b0 * s02) by {
        mul_comm(s02, b0);
    }
    assert(s12 * b1 == b1 * s12) by {
        mul_comm(s12, b1);
    }
    assert(s22 * b2 == b2 * s22) by {
        mul_comm(s22, b2);
    }
    assert(a2 * (s02 * b0 + s12 * b1 + s22 * b2)
        == a2 * b0 * s02 + a2 * b1 * s12 + a2 * b2 * s22) by {
        mul_eq(a2, s02 * b0 + s12 * b1 + s22 * b2, a2, b0 * s02 + b1 * s12 + b2 * s22);
        dist_add_left(a2, b0 * s02 + b1 * s12, b2 * s22);
        dist_add_left(a2, b0 * s02, b1 * s12);
        mul_assoc(a2, b0, s02);
        mul_assoc(a2, b1, s12);
        mul_assoc(a2, b2, s22);
    }
    assert(s00 * a0 == a0 * s00) by {
        mul_comm(s00, a0);
    }
    assert(s01 * a1 == a1 * s01) by {
        mul_comm(s01, a1);
    }
    assert(s02 * a2 == a2 * s02) by {
        mul_comm(s02, a2);
    }
    assert(b0 * (s00 * a0 + s01 * a1 + s02 * a2)
        == a0 * b0 * s00 + a1 * b0 * s01 + a2 * b0 * s02) by {
        mul_eq(b0, s00 * a0 + s01 * a1 + s02 * a2, b0, a0 * s00 + a1 * s01 + a2 * s02);
        dist_add_left(b0, a0 * s00 + a1 * s01, a2 * s02);
        dist_add_left(b0, a0 * s00, a1 * s01);
        mul_comm(b0, a0);
        mul_assoc(b0, a0, s00);
        mul_comm(b0, a1);
        mul_assoc(b0, a1, s01);
        mul_comm(b0, a2);
        mul_assoc(b0, a2, s02);
    }
    assert(s01 * a0 == a0 * s01) by {
        mul_comm(s01, a0);
    }
    assert(s11 * a1 == a1 * s11) by {
        mul_comm(s11, a1);
    }
    assert(s12 * a2 == a2 * s12) by {
        mul_comm(s12, a2);
    }
    assert(b1 * (s01 * a0 + s11 * a1 + s12 * a2)
        == a0 * b1 * s01 + a1 * b1 * s11 + a2 * b1 * s12) by {
        mul_eq(b1, s01 * a0 + s11 * a1 + s12 * a2, b1, a0 * s01 + a1 * s11 + a2 * s12);
        dist_add_left(b1, a0 * s01 + a1 * s11, a2 * s12);
        dist_add_left(b1, a0 * s01, a1 * s11);
        mul_comm(b1, a0);
        mul_assoc(b1, a0, s01);
        mul_comm(b1, a1);
        mul_assoc(b1, a1, s11);
        mul_comm(b1, a2);
        mul_assoc(b1, a2, s12);
    }
    assert(s02 * a0 == a0 * s02) by {
        mul_comm(s02, a0);
    }
    assert(s12 * a1 == a1 * s12) by {
        mul_comm(s12, a1);
    }
    assert(s22 * a2 == a2 * s22) by {
        mul_comm(s22, a2);
    }
    assert(b2 * (s02 * a0 + s12 * a1 + s22 * a2)
        == a0 * b2 * s02 + a1 * b2 * s12 + a2 * b2 * s22) by {
        mul_eq(b2, s02 * a0 + s12 * a1 + s22 * a2, b2, a0 * s02 + a1 * s12 + a2 * s22);
        dist_add_left(b2, a0 * s02 + a1 * s12, a2 * s22);
        dist_add_left(b2, a0 * s02, a1 * s12);
        mul_comm(b2, a0);
        mul_assoc(b2, a0, s02);
        mul_comm(b2, a1);
        mul_assoc(b2, a1, s12);
        mul_comm(b2, a2);
        mul_assoc(b2, a2, s22);
    }
}

pub(crate) proof fn twice_inner(v00: real, v01: real, v11: real, a: real, b: real, e: real, d: real)
    requires
        e == b,
    ensures
        v00 * (2real * a) + 2real * v01 * (b + e) + v11 * (2real * d)
            == 2real * (v00 * a + 2real * v01 * b + v11 * d),
{
    assert(v00 * (2real * a) == 2real * (v00 * a)) by {
        mul_front(v00, 2real, a);
    }
    assert(2real * v01 * (b + e) == 2real * (v01 * b) + 2real * (v01 * e)) by {
        mul_assoc(2real, v01, b + e);
        dist_add_left(v01, b, e);
    }
    assert(v11 * (2real * d) == 2real * (v11 * d)) by {
        mul_front(v11, 2real, d);
    }
    assert(2real * v01 * b == 2real * (v01 * b)) by {
        mul_assoc(2real, v01, b);
    }
    assert(v01 * e == v01 * b) by {
        mul_eq(v01, e, v01, b);
    }
}

pub(crate) proof fn prism_euler_u(a: real, b: real, s: real, x: real, y: real)
    ensures
        2real * (a * y + (3real * b + s) * x) * x + 2real * (a * x + (b + s) * y) * y
            == 2real * (2real * a * (x * y) + b * (3real * (x * x) + y * y) + s * (x * x + y * y)),
        (6real * b + 2real * s) * x + 2real * a * y == 2real * (a * y + (3real * b + s) * x),
        2real * a * x + (2real * b + 2real * s) * y == 2real * (a * x + (b + s) * y),
{
    assert((3real * b + s) * x == 3real * (b * x) + s * x) by {
        dist_add(3real * b, s, x);
        mul_assoc(3real, b, x);
    }
    assert(2real * (a * y + (3real * b + s) * x) * x
        == 2real * (a * x * y) + 6real * (b * x * x) + 2real * (s * x * x)) by {
        mul_eq(2real * (a * y + (3real * b + s) * x), x,
            2real * (a * y) + 6real * (b * x) + 2real * (s * x), x);
        dist_add(2real * (a * y) + 6real * (b * x), 2real * (s * x), x);
        dist_add(2real * (a * y), 6real * (b * x), x);
        mul_assoc(2real, a * y, x);
        mul_swap(a, y, x);
        mul_assoc(6real, b * x, x);
        mul_assoc(2real, s * x, x);
    }
    assert((b + s) * y == b * y + s * y) by {
        dist_add(b, s, y);
    }
    assert(2real * (a * x + (b + s) * y) * y
        == 2real * (a * x * y) + 2real * (b * y * y) + 2real * (s * y * y)) by {
        mul_eq(2real * (a * x + (b + s) * y), y,
            2real * (a * x) + 2real * (b * y) + 2real * (s * y), y);
        dist_add(2real * (a * x) + 2real * (b * y), 2real * (s * y), y);
        dist_add(2real * (a * x), 2real * (b * y), y);
        mul_assoc(2real, a * x, y);
        mul_assoc(2real, b * y, y);
        mul_assoc(2real, s * y, y);
    }
    assert(2real * a * (x * y) == 2real * (a * x * y)) by {
        mul_assoc(2real, a, x * y);
        mul_assoc(a, x, y);
    }
    assert(b * (3real * (x * x) + y * y) == 3real * (b * x * x) + b * y * y) by {
        dist_add_left(b, 3real * (x * x), y * y);
        mul_front(b, 3real, x * x);
        mul_assoc(b, x, x);
        mul_assoc(b, y, y);
    }
    assert(s * (x * x + y * y) == s * x * x + s * y * y) by {
        dist_add_left(s, x * x, y * y);
        mul_assoc(s, x, x);
        mul_assoc(s, y, y);
    }
    assert((6real * b + 2real * s) * x == 6real * (b * x) + 2real * (s * x)) by {
        dist_add(6real * b, 2real * s, x);
        mul_assoc(6real, b, x);
        mul_assoc(2real, s, x);
    }
    assert(2real * a * y == 2real * (a * y)) by {
        mul_assoc(2real, a, y);
    }
    assert(2real * a * x == 2real * (a * x)) by {
        mul_assoc(2real, a, x);
    }
    assert((2real * b + 2real * s) * y == 2real * (b * y) + 2real * (s * y)) by {
        dist_add(2real * b, 2real * s, y);
        mul_assoc(2real, b, y);
        mul_assoc(2real, s, y);
    }
}

pub(crate) proof fn prism_euler_v(a: real, b: real, s: real, x: real, y: real)
    ensures
        2real * (b * y + (a + s) * x) * x + 2real * (b * x + (3real * a + s) * y) * y
            == 2real * (2real * b * (x * y) + a * (x * x + 3real * (y * y)) + s * (x * x + y * y)),
        (2real * a + 2real * s) * x + 2real * b * y == 2real * (b * y + (a + s) * x),
        2real * b * x + (6real * a + 2real * s) * y == 2real * (b * x + (3real * a + s) * y),
{
    assert((a + s) * x == a * x + s * x) by {
        dist_add(a, s, x);
    }
    assert(2real * (b * y + (a + s) * x) * x
        == 2real * (a * x * x) + 2real * (b * x * y) + 2real * (s * x * x)) by {
        mul_eq(2real * (b * y + (a + s) * x), x,
            2real * (a * x) + 2real * (b * y) + 2real * (s * x), x);
        dist_add(2real * (a * x) + 2real * (b * y), 2real * (s * x), x);
        dist_add(2real * (a * x), 2real * (b * y), x);
        mul_assoc(2real, a * x, x);
        mul_assoc(2real, b * y, x);
        mul_swap(b, y, x);
        mul_assoc(2real, s * x, x);
    }
    assert((3real * a + s) * y == 3real * (a * y) + s * y) by {
        dist_add(3real * a, s, y);
        mul_assoc(3real, a, y);
    }
    assert(2real * (b * x + (3real * a + s) * y) * y
        == 6real * (a * y * y) + 2real * (b * x * y) + 2real * (s * y * y)) by {
        mul_eq(2real * (b * x + (3real * a + s) * y), y,
            6real * (a * y) + 2real * (b * x) + 2real * (s * y), y);
        dist_add(6real * (a * y) + 2real * (b * x), 2real * (s * y), y);
        dist_add(6real * (a * y), 2real * (b * x), y);
        mul_assoc(6real, a * y, y);
        mul_assoc(2real, b * x, y);
        mul_assoc(2real, s * y, y);
    }
    assert(2real * b * (x * y) == 2real * (b * x * y)) by {
        mul_assoc(2real, b, x * y);
        mul_assoc(b, x, y);
    }
    assert(a * (x * x + 3real * (y * y)) == a * x * x + 3real * (a * y * y)) by {
        dist_add_left(a, x * x, 3real * (y * y));
        mul_assoc(a, x, x);
        mul_front(a, 3real, y * y);
        mul_assoc(a, y, y);
    }
    assert(s * (x * x + y * y) == s * x * x + s * y * y) by {
        dist_add_left(s, x * x, y * y);
        mul_assoc(s, x, x);
        mul_assoc(s, y, y);
    }
    assert((2real * a + 2real * s) * x == 2real * (a * x) + 2real * (s * x)) by {
        dist_add(2real * a, 2real * s, x);
        mul_assoc(2real, a, x);
        mul_assoc(2real, s, x);
    }
    assert(2real * b * y == 2real * (b * y)) by {
        mul_assoc(2real, b, y);
    }
    assert(2real * b * x == 2real * (b * x)) by {
        mul_assoc(2real, b, x);
    }
    assert((6real * a + 2real * s) * y == 6real * (a * y) + 2real * (s * y)) by {
        dist_add(6real * a, 2real * s, y);
        mul_assoc(6real, a, y);
        mul_assoc(2real, s, y);
    }
}

pub(crate) proof fn prism_ray(
    f: real,
    n: real,
    nx: real,
    ny: real,
    q: real,
    x: real,
    y: real,
    z: real,
)
    requires
        nx * x + ny * y == 2real * n,
        q * z == 1real,
    ensures
        f * nx * (q * q) * x + f * ny * (q * q) * y + (0real - 2real) * f * n * (q * q * q) * z
            == 0real,
{
    assert(f * nx * (q * q) == f * nx * q * q) by {
        mul_assoc(f * nx, q, q);
    }
    assert(f * nx * (q * q) * x == f * nx * q * q * x) by {
        mul_eq(f * nx * (q * q), x, f * nx * q * q, x);
    }
    assert(f * ny * (q * q) == f * ny * q * q) by {
        mul_assoc(f * ny, q, q);
    }
    assert(f * ny * (q * q) * y == f * ny * q * q * y) by {
        mul_eq(f * ny * (q * q), y, f * ny * q * q, y);
    }
    assert((0real - 2real) * f == -(2real * f)) by {
        mul_eq(0real - 2real, f, -(2real), f);
        dist_neg(2real, f);
    }
    assert((0real - 2real) * f * n == -(2real * (f * n))) by {
        mul_eq((0real - 2real) * f, n, -(2real * f), n);
        dist_neg(2real * f, n);
        mul_assoc(2real, f, n);
    }
    assert((0real - 2real) * f * n * (q * q * q) == -(2real * (f * n * q * q * q))) by {
        mul_eq((0real - 2real) * f * n, q * q * q, -(2real * (f * n)), q * q * q);
        dist_neg(2real * (f * n), q * q * q);
        mul_assoc(2real, f * n, q * q * q);
        mul_assoc(f * n, q, q);
        mul_assoc(f * n, q * q, q);
    }
    assert((0real - 2real) * f * n * (q * q * q) * z == -(2real * (f * n * q * q * q * z))) by {
        mul_eq((0real - 2real) * f * n * (q * q * q), z, -(2real * (f * n * q * q * q)), z);
        dist_neg(2real * (f * n * q * q * q), z);
        mul_assoc(2real, f * n * q * q * q, z);
    }
    assert(f * nx * q * q * x + f * ny * q * q * y == 2real * (f * n * q * q)) by {
        mul_eq(f * q * q, nx * x + ny * y, f * q * q, 2real * n);
        dist_add_left(f * q * q, nx * x, ny * y);
        mul_swap(f * q, q, nx);
        mul_swap(f, q, nx);
        mul_assoc(f * q * q, nx, x);
        mul_swap(f * q, q, ny);
        mul_swap(f, q, ny);
        mul_assoc(f * q * q, ny, y);
        mul_front(f * q * q, 2real, n);
        mul_swap(f * q, q, n);
        mul_swap(f, q, n);
    }
    assert(f * n * q * q * q * z == f * n * q * q) by {
        mul_eq(f * n * q * q, q * z, f * n * q * q, 1real);
        mul_assoc(f * n * q * q, q, z);
    }
}

pub(crate) proof fn prism_ray_rates(f: real, n: real, g: real, nr: real, q: real, dq: real)
    requires
        dq == -q,
        nr == 2real * n,
    ensures
        f * g * (q * q) + f * g * (dq * q + q * dq) == -(f * g * (q * q)),
        (0real - 2real) * f * nr * (q * q * q)
            + (0real - 2real) * f * n * ((dq * q + q * dq) * q + q * q * dq)
            == -((0real - 2real) * f * n * (q * q * q)),
{
    assert(f * g * (q * q) == f * g * q * q) by {
        mul_assoc(f * g, q, q);
    }
    assert(dq * q == q * dq) by {
        mul_comm(dq, q);
    }
    assert(f * g * (dq * q + q * dq) == 2real * (f * g * q * dq)) by {
        mul_eq(f * g, dq * q + q * dq, f * g, 2real * (q * dq));
        mul_front(f * g, 2real, q * dq);
        mul_assoc(f * g, q, dq);
    }
    assert(f * g * q * dq == -(f * g * q * q)) by {
        mul_eq(f * g * q, dq, f * g * q, -q);
        dist_neg_left(f * g * q, q);
    }
    assert((0real - 2real) * f == -(2real * f)) by {
        mul_eq(0real - 2real, f, -(2real), f);
        dist_neg(2real, f);
    }
    assert((0real - 2real) * f * nr == -(2real * (f * nr))) by {
        mul_eq((0real - 2real) * f, nr, -(2real * f), nr);
        dist_neg(2real * f, nr);
        mul_assoc(2real, f, nr);
    }
    assert((0real - 2real) * f * nr * (q * q * q) == -(2real * (f * nr * q * q * q))) by {
        mul_eq((0real - 2real) * f * nr, q * q * q, -(2real * (f * nr)), q * q * q);
        dist_neg(2real * (f * nr), q * q * q);
        mul_assoc(2real, f * nr, q * q * q);
        mul_assoc(f * nr, q, q);
        mul_assoc(f * nr, q * q, q);
    }
    assert((0real - 2real) * f * n == -(2real * (f * n))) by {
        mul_eq((0real - 2real) * f, n, -(2real * f), n);
        dist_neg(2real * f, n);
        mul_assoc(2real, f, n);
    }
    assert((dq * q + q * dq) * q == 2real * (q * q * dq)) by {
        mul_eq(dq * q + q * dq, q, 2real * (q * dq), q);
        mul_assoc(2real, q * dq, q);
        mul_swap(q, dq, q);
    }
    assert((0real - 2real) * f * n * ((dq * q + q * dq) * q + q * q * dq)
        == -(6real * (f * n * q * q * dq))) by {
        mul_eq((0real - 2real) * f * n, (dq * q + q * dq) * q + q * q * dq, -(2real * (f * n)),
            3real * (q * q * dq));
        dist_neg(2real * (f * n), 3real * (q * q * dq));
        mul_assoc(2real, f * n, 3real * (q * q * dq));
        mul_front(f * n, 3real, q * q * dq);
        mul_assoc(f * n, q, q);
        mul_assoc(f * n, q * q, dq);
    }
    assert((0real - 2real) * f * n * (q * q * q) == -(2real * (f * n * q * q * q))) by {
        mul_eq((0real - 2real) * f * n, q * q * q, -(2real * (f * n)), q * q * q);
        dist_neg(2real * (f * n), q * q * q);
        mul_assoc(2real, f * n, q * q * q);
        mul_assoc(f * n, q, q);
        mul_assoc(f * n, q * q, q);
    }
    assert(f * n * q * q * dq == -(f * n * q * q * q)) by {
        mul_eq(f * n * q * q, dq, f * n * q * q, -q);
        dist_neg_left(f * n * q * q, q);
    }
    assert(f * nr * q * q * q == 2real * (f * n * q * q * q)) by {
        mul_eq(f * q * q * q, nr, f * q * q * q, 2real * n);
        mul_swap(f * q * q, q, nr);
        mul_swap(f * q, q, nr);
        mul_swap(f, q, nr);
        mul_front(f * q * q * q, 2real, n);
        mul_swap(f * q * q, q, n);
        mul_swap(f * q, q, n);
        mul_swap(f, q, n);
    }
}

pub(crate) proof fn prism_scaled_u(k: real, a: real, b: real, s: real, x: real, y: real)
    ensures
        2real * a * (k * x * (k * y)) + b * (3real * (k * x * (k * x)) + k * y * (k * y))
            + s * (k * x * (k * x) + k * y * (k * y))
            == k * k * (2real * a * (x * y) + b * (3real * (x * x) + y * y) + s * (x * x + y * y)),
        2real * (a * (k * y) + (3real * b + s) * (k * x))
            == k * (2real * (a * y + (3real * b + s) * x)),
        2real * (a * (k * x) + (b + s) * (k * y)) == k * (2real * (a * x + (b + s) * y)),
{
    assert(k * x * (k * y) == k * k * x * y) by {
        mul_swap(k, x, k);
        mul_assoc(k * x, k, y);
    }
    assert(2real * a * (k * x * (k * y)) == 2real * (k * k * a * x * y)) by {
        mul_eq(2real * a, k * x * (k * y), 2real * a, k * k * x * y);
        mul_assoc(2real, a, k * k * x * y);
        mul_comm(a, k);
        mul_assoc(a, k, k);
        mul_swap(k, a, k);
        mul_assoc(a, k * k, x);
        mul_assoc(a, k * k * x, y);
    }
    assert(k * x * (k * x) == k * k * x * x) by {
        mul_swap(k, x, k);
        mul_assoc(k * x, k, x);
    }
    assert(k * y * (k * y) == k * k * y * y) by {
        mul_swap(k, y, k);
        mul_assoc(k * y, k, y);
    }
    assert(b * (3real * (k * x * (k * x)) + k * y * (k * y))
        == 3real * (k * k * b * x * x) + k * k * b * y * y) by {
        mul_eq(b, 3real * (k * x * (k * x)) + k * y * (k * y), b,
            3real * (k * k * x * x) + k * k * y * y);
        dist_add_left(b, 3real * (k * k * x * x), k * k * y * y);
        mul_front(b, 3real, k * k * x * x);
        mul_comm(b, k);
        mul_assoc(b, k, k);
        mul_swap(k, b, k);
        mul_assoc(b, k * k, x);
        mul_assoc(b, k * k * x, x);
        mul_comm(b, k);
        mul_assoc(b, k, k);
        mul_swap(k, b, k);
        mul_assoc(b, k * k, y);
        mul_assoc(b, k * k * y, y);
    }
    assert(s * (k * x * (k * x) + k * y * (k * y)) == k * k * s * x * x + k * k * s * y * y) by {
        mul_eq(s, k * x * (k * x) + k * y * (k * y), s, k * k * x * x + k * k * y * y);
        dist_add_left(s, k * k * x * x, k * k * y * y);
        mul_comm(s, k);
        mul_assoc(s, k, k);
        mul_swap(k, s, k);
        mul_assoc(s, k * k, x);
        mul_assoc(s, k * k * x, x);
        mul_comm(s, k);
        mul_assoc(s, k, k);
        mul_swap(k, s, k);
        mul_assoc(s, k * k, y);
        mul_assoc(s, k * k * y, y);
    }
    assert(2real * a * (x * y) == 2real * (a * x * y)) by {
        mul_assoc(2real, a, x * y);
        mul_assoc(a, x, y);
    }
    assert(b * (3real * (x * x) + y * y) == 3real * (b * x * x) + b * y * y) by {
        dist_add_left(b, 3real * (x * x), y * y);
        mul_front(b, 3real, x * x);
        mul_assoc(b, x, x);
        mul_assoc(b, y, y);
    }
    assert(s * (x * x + y * y) == s * x * x + s * y * y) by {
        dist_add_left(s, x * x, y * y);
        mul_assoc(s, x, x);
        mul_assoc(s, y, y);
    }
    assert(k * k * (2real * a * (x * y) + b * (3real * (x * x) + y * y) + s * (x * x + y * y))
        == 2real * (k * k * a * x * y) + 3real * (k * k * b * x * x) + k * k * b * y * y
        + k * k * s * x * x + k * k * s * y * y) by {
        mul_eq(k * k, 2real * a * (x * y) + b * (3real * (x * x) + y * y) + s * (x * x + y * y),
            k * k, 2real * (a * x * y) + 3real * (b * x * x) + b * y * y + s * x * x + s * y * y);
        dist_add_left(k * k, 2real * (a * x * y) + 3real * (b * x * x) + b * y * y + s * x * x,
            s * y * y);
        dist_add_left(k * k, 2real * (a * x * y) + 3real * (b * x * x) + b * y * y, s * x * x);
        dist_add_left(k * k, 2real * (a * x * y) + 3real * (b * x * x), b * y * y);
        dist_add_left(k * k, 2real * (a * x * y), 3real * (b * x * x));
        mul_front(k * k, 2real, a * x * y);
        mul_assoc(k * k, a, x);
        mul_assoc(k * k, a * x, y);
        mul_front(k * k, 3real, b * x * x);
        mul_assoc(k * k, b, x);
        mul_assoc(k * k, b * x, x);
        mul_assoc(k * k, b, y);
        mul_assoc(k * k, b * y, y);
        mul_assoc(k * k, s, x);
        mul_assoc(k * k, s * x, x);
        mul_assoc(k * k, s, y);
        mul_assoc(k * k, s * y, y);
    }
    assert(a * (k * y) == k * a * y) by {
        mul_comm(a, k);
        mul_assoc(a, k, y);
    }
    assert((3real * b + s) * (k * x) == 3real * (k * b * x) + k * s * x) by {
        dist_add(3real * b, s, k * x);
        mul_assoc(3real, b, k * x);
        mul_comm(b, k);
        mul_assoc(b, k, x);
        mul_comm(s, k);
        mul_assoc(s, k, x);
    }
    assert((3real * b + s) * x == 3real * (b * x) + s * x) by {
        dist_add(3real * b, s, x);
        mul_assoc(3real, b, x);
    }
    assert(k * (2real * (a * y + (3real * b + s) * x))
        == 2real * (k * a * y) + 6real * (k * b * x) + 2real * (k * s * x)) by {
        mul_eq(k, 2real * (a * y + (3real * b + s) * x), k,
            2real * (a * y) + 6real * (b * x) + 2real * (s * x));
        dist_add_left(k, 2real * (a * y) + 6real * (b * x), 2real * (s * x));
        dist_add_left(k, 2real * (a * y), 6real * (b * x));
        mul_front(k, 2real, a * y);
        mul_assoc(k, a, y);
        mul_front(k, 6real, b * x);
        mul_assoc(k, b, x);
        mul_front(k, 2real, s * x);
        mul_assoc(k, s, x);
    }
    assert(a * (k * x) == k * a * x) by {
        mul_comm(a, k);
        mul_assoc(a, k, x);
    }
    assert((b + s) * (k * y) == k * b * y + k * s * y) by {
        dist_add(b, s, k * y);
        mul_comm(b, k);
        mul_assoc(b, k, y);
        mul_comm(s, k);
        mul_assoc(s, k, y);
    }
    assert((b + s) * y == b * y + s * y) by {
        dist_add(b, s, y);
    }
    assert(k * (2real * (a * x + (b + s) * y))
        == 2real * (k * a * x) + 2real * (k * b * y) + 2real * (k * s * y)) by {
        mul_eq(k, 2real * (a * x + (b + s) * y), k,
            2real * (a * x) + 2real * (b * y) + 2real * (s * y));
        dist_add_left(k, 2real * (a * x) + 2real * (b * y), 2real * (s * y));
        dist_add_left(k, 2real * (a * x), 2real * (b * y));
        mul_front(k, 2real, a * x);
        mul_assoc(k, a, x);
        mul_front(k, 2real, b * y);
        mul_assoc(k, b, y);
        mul_front(k, 2real, s * y);
        mul_assoc(k, s, y);
    }
}

pub(crate) proof fn prism_scaled_v(k: real, a: real, b: real, s: real, x: real, y: real)
    ensures
        2real * b * (k * x * (k * y)) + a * (k * x * (k * x) + 3real * (k * y * (k * y)))
            + s * (k * x * (k * x) + k * y * (k * y))
            == k * k * (2real * b * (x * y) + a * (x * x + 3real * (y * y)) + s * (x * x + y * y)),
        2real * (b * (k * y) + (a + s) * (k * x)) == k * (2real * (b * y + (a + s) * x)),
        2real * (b * (k * x) + (3real * a + s) * (k * y))
            == k * (2real * (b * x + (3real * a + s) * y)),
{
    assert(k * x * (k * y) == k * k * x * y) by {
        mul_swap(k, x, k);
        mul_assoc(k * x, k, y);
    }
    assert(2real * b * (k * x * (k * y)) == 2real * (k * k * b * x * y)) by {
        mul_eq(2real * b, k * x * (k * y), 2real * b, k * k * x * y);
        mul_assoc(2real, b, k * k * x * y);
        mul_comm(b, k);
        mul_assoc(b, k, k);
        mul_swap(k, b, k);
        mul_assoc(b, k * k, x);
        mul_assoc(b, k * k * x, y);
    }
    assert(k * x * (k * x) == k * k * x * x) by {
        mul_swap(k, x, k);
        mul_assoc(k * x, k, x);
    }
    assert(k * y * (k * y) == k * k * y * y) by {
        mul_swap(k, y, k);
        mul_assoc(k * y, k, y);
    }
    assert(a * (k * x * (k * x) + 3real * (k * y * (k * y)))
        == k * k * a * x * x + 3real * (k * k * a * y * y)) by {
        mul_eq(a, k * x * (k * x) + 3real * (k * y * (k * y)), a,
            k * k * x * x + 3real * (k * k * y * y));
        dist_add_left(a, k * k * x * x, 3real * (k * k * y * y));
        mul_comm(a, k);
        mul_assoc(a, k, k);
        mul_swap(k, a, k);
        mul_assoc(a, k * k, x);
        mul_assoc(a, k * k * x, x);
        mul_front(a, 3real, k * k * y * y);
        mul_comm(a, k);
        mul_assoc(a, k, k);
        mul_swap(k, a, k);
        mul_assoc(a, k * k, y);
        mul_assoc(a, k * k * y, y);
    }
    assert(s * (k * x * (k * x) + k * y * (k * y)) == k * k * s * x * x + k * k * s * y * y) by {
        mul_eq(s, k * x * (k * x) + k * y * (k * y), s, k * k * x * x + k * k * y * y);
        dist_add_left(s, k * k * x * x, k * k * y * y);
        mul_comm(s, k);
        mul_assoc(s, k, k);
        mul_swap(k, s, k);
        mul_assoc(s, k * k, x);
        mul_assoc(s, k * k * x, x);
        mul_comm(s, k);
        mul_assoc(s, k, k);
        mul_swap(k, s, k);
        mul_assoc(s, k * k, y);
        mul_assoc(s, k * k * y, y);
    }
    assert(2real * b * (x * y) == 2real * (b * x * y)) by {
        mul_assoc(2real, b, x * y);
        mul_assoc(b, x, y);
    }
    assert(a * (x * x + 3real * (y * y)) == a * x * x + 3real * (a * y * y)) by {
        dist_add_left(a, x * x, 3real * (y * y));
        mul_assoc(a, x, x);
        mul_front(a, 3real, y * y);
        mul_assoc(a, y, y);
    }
    assert(s * (x * x + y * y) == s * x * x + s * y * y) by {
        dist_add_left(s, x * x, y * y);
        mul_assoc(s, x, x);
        mul_assoc(s, y, y);
    }
    assert(k * k * (2real * b * (x * y) + a * (x * x + 3real * (y * y)) + s * (x * x + y * y))
        == k * k * a * x * x + 3real * (k * k * a * y * y) + 2real * (k * k * b * x * y)
        + k * k * s * x * x + k * k * s * y * y) by {
        mul_eq(k * k, 2real * b * (x * y) + a * (x * x + 3real * (y * y)) + s * (x * x + y * y),
            k * k, a * x * x + 3real * (a * y * y) + 2real * (b * x * y) + s * x * x + s * y * y);
        dist_add_left(k * k, a * x * x + 3real * (a * y * y) + 2real * (b * x * y) + s * x * x,
            s * y * y);
        dist_add_left(k * k, a * x * x + 3real * (a * y * y) + 2real * (b * x * y), s * x * x);
        dist_add_left(k * k, a * x * x + 3real * (a * y * y), 2real * (b * x * y));
        dist_add_left(k * k, a * x * x, 3real * (a * y * y));
        mul_assoc(k * k, a, x);
        mul_assoc(k * k, a * x, x);
        mul_front(k * k, 3real, a * y * y);
        mul_assoc(k * k, a, y);
        mul_assoc(k * k, a * y, y);
        mul_front(k * k, 2real, b * x * y);
        mul_assoc(k * k, b, x);
        mul_assoc(k * k, b * x, y);
        mul_assoc(k * k, s, x);
        mul_assoc(k * k, s * x, x);
        mul_assoc(k * k, s, y);
        mul_assoc(k * k, s * y, y);
    }
    assert(b * (k * y) == k * b * y) by {
        mul_comm(b, k);
        mul_assoc(b, k, y);
    }
    assert((a + s) * (k * x) == k * a * x + k * s * x) by {
        dist_add(a, s, k * x);
        mul_comm(a, k);
        mul_assoc(a, k, x);
        mul_comm(s, k);
        mul_assoc(s, k, x);
    }
    assert((a + s) * x == a * x + s * x) by {
        dist_add(a, s, x);
    }
    assert(k * (2real * (b * y + (a + s) * x))
        == 2real * (k * a * x) + 2real * (k * b * y) + 2real * (k * s * x)) by {
        mul_eq(k, 2real * (b * y + (a + s) * x), k,
            2real * (a * x) + 2real * (b * y) + 2real * (s * x));
        dist_add_left(k, 2real * (a * x) + 2real * (b * y), 2real * (s * x));
        dist_add_left(k, 2real * (a * x), 2real * (b * y));
        mul_front(k, 2real, a * x);
        mul_assoc(k, a, x);
        mul_front(k, 2real, b * y);
        mul_assoc(k, b, y);
        mul_front(k, 2real, s * x);
        mul_assoc(k, s, x);
    }
    assert(b * (k * x) == k * b * x) by {
        mul_comm(b, k);
        mul_assoc(b, k, x);
    }
    assert((3real * a + s) * (k * y) == 3real * (k * a * y) + k * s * y) by {
        dist_add(3real * a, s, k * y);
        mul_assoc(3real, a, k * y);
        mul_comm(a, k);
        mul_assoc(a, k, y);
        mul_comm(s, k);
        mul_assoc(s, k, y);
    }
    assert((3real * a + s) * y == 3real * (a * y) + s * y) by {
        dist_add(3real * a, s, y);
        mul_assoc(3real, a, y);
    }
    assert(k * (2real * (b * x + (3real * a + s) * y))
        == 6real * (k * a * y) + 2real * (k * b * x) + 2real * (k * s * y)) by {
        mul_eq(k, 2real * (b * x + (3real * a + s) * y), k,
            6real * (a * y) + 2real * (b * x) + 2real * (s * y));
        dist_add_left(k, 6real * (a * y) + 2real * (b * x), 2real * (s * y));
        dist_add_left(k, 6real * (a * y), 2real * (b * x));
        mul_front(k, 6real, a * y);
        mul_assoc(k, a, y);
        mul_front(k, 2real, b * x);
        mul_assoc(k, b, x);
        mul_front(k, 2real, s * y);
        mul_assoc(k, s, y);
    }
}

pub(crate) proof fn prism_scaled_row(s: real, u: real, f: real, n: real, g: real, q: real)
    requires
        s * u == 1real,
    ensures
        f * (s * g) * (q * u * (q * u)) == u * (f * g * (q * q)),
        (0real - 2real) * f * (s * s * n) * (q * u * (q * u) * (q * u))
            == u * ((0real - 2real) * f * n * (q * q * q)),
{
    assert(f * (s * g) == s * f * g) by {
        mul_comm(f, s);
        mul_assoc(f, s, g);
    }
    assert(q * u == u * q) by {
        mul_comm(q, u);
    }
    assert(q * u * (q * u) == u * u * q * q) by {
        mul_eq(q * u, q * u, u * q, u * q);
        mul_swap(u, q, u);
        mul_assoc(u * q, u, q);
    }
    assert(f * (s * g) * (q * u * (q * u)) == s * u * u * f * g * q * q) by {
        mul_eq(f * (s * g), q * u * (q * u), s * f * g, u * u * q * q);
        mul_swap(s * f, g, u);
        mul_swap(s, f, u);
        mul_assoc(s * f * g, u, u);
        mul_swap(s * u * f, g, u);
        mul_swap(s * u, f, u);
        mul_assoc(s * f * g, u * u, q);
        mul_assoc(s * f * g, u * u * q, q);
    }
    assert(f * g * (q * q) == f * g * q * q) by {
        mul_assoc(f * g, q, q);
    }
    assert(u * (f * g * (q * q)) == u * f * g * q * q) by {
        mul_eq(u, f * g * (q * q), u, f * g * q * q);
        mul_assoc(u, f, g);
        mul_assoc(u, f * g, q);
        mul_assoc(u, f * g * q, q);
    }
    assert(s * u * u * f * g * q * q == u * f * g * q * q) by {
        mul_eq(u * f * g * q * q, s * u, u * f * g * q * q, 1real);
        mul_swap(u * f * g * q, q, s);
        mul_swap(u * f * g, q, s);
        mul_swap(u * f, g, s);
        mul_swap(u, f, s);
        mul_comm(u, s);
        mul_assoc(u * f * g * q * q, s, u);
        mul_swap(s * u * f * g * q, q, u);
        mul_swap(s * u * f * g, q, u);
        mul_swap(s * u * f, g, u);
        mul_swap(s * u, f, u);
    }
    assert((0real - 2real) * f == -(2real * f)) by {
        mul_eq(0real - 2real, f, -(2real), f);
        dist_neg(2real, f);
    }
    assert((0real - 2real) * f * (s * s * n) == -(2real * (s * s * f * n))) by {
        mul_eq((0real - 2real) * f, s * s * n, -(2real * f), s * s * n);
        dist_neg(2real * f, s * s * n);
        mul_assoc(2real, f, s * s * n);
        mul_comm(f, s);
        mul_assoc(f, s, s);
        mul_swap(s, f, s);
        mul_assoc(f, s * s, n);
    }
    assert(q * u * (q * u) * (q * u) == u * u * u * q * q * q) by {
        mul_eq(q * u * (q * u), q * u, u * u * q * q, u * q);
        mul_swap(u * u * q, q, u);
        mul_swap(u * u, q, u);
        mul_assoc(u * u * q * q, u, q);
    }
    assert((0real - 2real) * f * (s * s * n) * (q * u * (q * u) * (q * u))
        == -(2real * (s * s * u * u * u * f * n * q * q * q))) by {
        mul_eq((0real - 2real) * f * (s * s * n), q * u * (q * u) * (q * u),
            -(2real * (s * s * f * n)), u * u * u * q * q * q);
        dist_neg(2real * (s * s * f * n), u * u * u * q * q * q);
        mul_assoc(2real, s * s * f * n, u * u * u * q * q * q);
        mul_swap(s * s * f, n, u);
        mul_swap(s * s, f, u);
        mul_assoc(s * s * f * n, u, u);
        mul_swap(s * s * u * f, n, u);
        mul_swap(s * s * u, f, u);
        mul_assoc(s * s * f * n, u * u, u);
        mul_swap(s * s * u * u * f, n, u);
        mul_swap(s * s * u * u, f, u);
        mul_assoc(s * s * f * n, u * u * u, q);
        mul_assoc(s * s * f * n, u * u * u * q, q);
        mul_assoc(s * s * f * n, u * u * u * q * q, q);
    }
    assert((0real - 2real) * f * n == -(2real * (f * n))) by {
        mul_eq((0real - 2real) * f, n, -(2real * f), n);
        dist_neg(2real * f, n);
        mul_assoc(2real, f, n);
    }
    assert((0real - 2real) * f * n * (q * q * q) == -(2real * (f * n * q * q * q))) by {
        mul_eq((0real - 2real) * f * n, q * q * q, -(2real * (f * n)), q * q * q);
        dist_neg(2real * (f * n), q * q * q);
        mul_assoc(2real, f * n, q * q * q);
        mul_assoc(f * n, q, q);
        mul_assoc(f * n, q * q, q);
    }
    assert(u * ((0real - 2real) * f * n * (q * q * q)) == -(2real * (u * f * n * q * q * q))) by {
        mul_eq(u, (0real - 2real) * f * n * (q * q * q), u, -(2real * (f * n * q * q * q)));
        dist_neg_left(u, 2real * (f * n * q * q * q));
        mul_front(u, 2real, f * n * q * q * q);
        mul_assoc(u, f, n);
        mul_assoc(u, f * n, q);
        mul_assoc(u, f * n * q, q);
        mul_assoc(u, f * n * q * q, q);
    }
    assert(s * s * u * u * u * f * n * q * q * q == s * u * u * f * n * q * q * q) by {
        mul_eq(s * u * u * f * n * q * q * q, s * u, s * u * u * f * n * q * q * q, 1real);
        mul_swap(s * u * u * f * n * q * q, q, s);
        mul_swap(s * u * u * f * n * q, q, s);
        mul_swap(s * u * u * f * n, q, s);
        mul_swap(s * u * u * f, n, s);
        mul_swap(s * u * u, f, s);
        mul_swap(s * u, u, s);
        mul_swap(s, u, s);
        mul_assoc(s * u * u * f * n * q * q * q, s, u);
        mul_swap(s * s * u * u * f * n * q * q, q, u);
        mul_swap(s * s * u * u * f * n * q, q, u);
        mul_swap(s * s * u * u * f * n, q, u);
        mul_swap(s * s * u * u * f, n, u);
        mul_swap(s * s * u * u, f, u);
    }
    assert(s * u * u * f * n * q * q * q == u * f * n * q * q * q) by {
        mul_eq(u * f * n * q * q * q, s * u, u * f * n * q * q * q, 1real);
        mul_swap(u * f * n * q * q, q, s);
        mul_swap(u * f * n * q, q, s);
        mul_swap(u * f * n, q, s);
        mul_swap(u * f, n, s);
        mul_swap(u, f, s);
        mul_comm(u, s);
        mul_assoc(u * f * n * q * q * q, s, u);
        mul_swap(s * u * f * n * q * q, q, u);
        mul_swap(s * u * f * n * q, q, u);
        mul_swap(s * u * f * n, q, u);
        mul_swap(s * u * f, n, u);
        mul_swap(s * u, f, u);
    }
}

pub(crate) proof fn vanishing_form(
    v: real,
    w: real,
    a0: real,
    b0: real,
    a1: real,
    b1: real,
    a2: real,
    b2: real,
    c0: real,
    c1: real,
    c2: real,
)
    requires
        v == 0real,
        w == 0real,
    ensures
        2real * ((v * a0 + w * b0) * c0 + (v * a1 + w * b1) * c1 + (v * a2 + w * b2) * c2) == 0real,
{
    assert((v * a0 + w * b0) * c0 == v * a0 * c0 + w * b0 * c0) by {
        dist_add(v * a0, w * b0, c0);
    }
    assert((v * a1 + w * b1) * c1 == v * a1 * c1 + w * b1 * c1) by {
        dist_add(v * a1, w * b1, c1);
    }
    assert((v * a2 + w * b2) * c2 == v * a2 * c2 + w * b2 * c2) by {
        dist_add(v * a2, w * b2, c2);
    }
    assert(v * a0 * c0 == 0real) by {
        mul_eq(a0 * c0, v, a0 * c0, 0real);
        mul_swap(a0, c0, v);
        mul_comm(a0, v);
    }
    assert(v * a1 * c1 == 0real) by {
        mul_eq(a1 * c1, v, a1 * c1, 0real);
        mul_swap(a1, c1, v);
        mul_comm(a1, v);
    }
    assert(v * a2 * c2 == 0real) by {
        mul_eq(a2 * c2, v, a2 * c2, 0real);
        mul_swap(a2, c2, v);
        mul_comm(a2, v);
    }
    assert(w * b0 * c0 == 0real) by {
        mul_eq(b0 * c0, w, b0 * c0, 0real);
        mul_swap(b0, c0, w);
        mul_comm(b0, w);
    }
    assert(w * b1 * c1 == 0real) by {
        mul_eq(b1 * c1, w, b1 * c1, 0real);
        mul_swap(b1, c1, w);
        mul_comm(b1, w);
    }
    assert(w * b2 * c2 == 0real) by {
        mul_eq(b2 * c2, w, b2 * c2, 0real);
        mul_swap(b2, c2, w);
        mul_comm(b2, w);
    }
}

pub(crate) proof fn vanishing_shift_weights(
    wu0: real,
    wv0: real,
    wu1: real,
    wv1: real,
    wu2: real,
    wv2: real,
    f: real,
    g: real,
    d0: real,
    e0: real,
    d1: real,
    e1: real,
    d2: real,
    e2: real,
)
    requires
        wu0 == 0real,
        wv0 == 0real,
        wu1 == 0real,
        wv1 == 0real,
        wu2 == 0real,
        wv2 == 0real,
    ensures
        f * (wu0 * d0 + wu1 * d1 + wu2 * d2) + g * (wv0 * e0 + wv1 * e1 + wv2 * e2) == 0real,
{
    assert(f * (wu0 * d0 + wu1 * d1 + wu2 * d2) == wu0 * f * d0 + wu1 * f * d1 + wu2 * f * d2) by {
        dist_add_left(f, wu0 * d0 + wu1 * d1, wu2 * d2);
        dist_add_left(f, wu0 * d0, wu1 * d1);
        mul_comm(f, wu0);
        mul_assoc(f, wu0, d0);
        mul_comm(f, wu1);
        mul_assoc(f, wu1, d1);
        mul_comm(f, wu2);
        mul_assoc(f, wu2, d2);
    }
    assert(g * (wv0 * e0 + wv1 * e1 + wv2 * e2) == wv0 * g * e0 + wv1 * g * e1 + wv2 * g * e2) by {
        dist_add_left(g, wv0 * e0 + wv1 * e1, wv2 * e2);
        dist_add_left(g, wv0 * e0, wv1 * e1);
        mul_comm(g, wv0);
        mul_assoc(g, wv0, e0);
        mul_comm(g, wv1);
        mul_assoc(g, wv1, e1);
        mul_comm(g, wv2);
        mul_assoc(g, wv2, e2);
    }
    assert(wu0 * f * d0 == 0real) by {
        mul_eq(f * d0, wu0, f * d0, 0real);
        mul_swap(f, d0, wu0);
        mul_comm(f, wu0);
    }
    assert(wv0 * g * e0 == 0real) by {
        mul_eq(g * e0, wv0, g * e0, 0real);
        mul_swap(g, e0, wv0);
        mul_comm(g, wv0);
    }
    assert(wu1 * f * d1 == 0real) by {
        mul_eq(f * d1, wu1, f * d1, 0real);
        mul_swap(f, d1, wu1);
        mul_comm(f, wu1);
    }
    assert(wv1 * g * e1 == 0real) by {
        mul_eq(g * e1, wv1, g * e1, 0real);
        mul_swap(g, e1, wv1);
        mul_comm(g, wv1);
    }
    assert(wu2 * f * d2 == 0real) by {
        mul_eq(f * d2, wu2, f * d2, 0real);
        mul_swap(f, d2, wu2);
        mul_comm(f, wu2);
    }
    assert(wv2 * g * e2 == 0real) by {
        mul_eq(g * e2, wv2, g * e2, 0real);
        mul_swap(g, e2, wv2);
        mul_comm(g, wv2);
    }
}

pub(crate) proof fn vanishing_shift(
    d0: real,
    e0: real,
    d1: real,
    e1: real,
    d2: real,
    e2: real,
    f: real,
    g: real,
    wu0: real,
    wv0: real,
    wu1: real,
    wv1: real,
    wu2: real,
    wv2: real,
)
    requires
        d0 == 0real,
        e0 == 0real,
        d1 == 0real,
        e1 == 0real,
        d2 == 0real,
        e2 == 0real,
    ensures
        f * (wu0 * d0 + wu1 * d1 + wu2 * d2) + g * (wv0 * e0 + wv1 * e1 + wv2 * e2) == 0real,
{
    assert(wu0 * d0 == d0 * wu0) by {
        mul_comm(wu0, d0);
    }
    assert(wu1 * d1 == d1 * wu1) by {
        mul_comm(wu1, d1);
    }
    assert(wu2 * d2 == d2 * wu2) by {
        mul_comm(wu2, d2);
    }
    assert(f * (wu0 * d0 + wu1 * d1 + wu2 * d2) == d0 * f * wu0 + d1 * f * wu1 + d2 * f * wu2) by {
        mul_eq(f, wu0 * d0 + wu1 * d1 + wu2 * d2, f, d0 * wu0 + d1 * wu1 + d2 * wu2);
        dist_add_left(f, d0 * wu0 + d1 * wu1, d2 * wu2);
        dist_add_left(f, d0 * wu0, d1 * wu1);
        mul_comm(f, d0);
        mul_assoc(f, d0, wu0);
        mul_comm(f, d1);
        mul_assoc(f, d1, wu1);
        mul_comm(f, d2);
        mul_assoc(f, d2, wu2);
    }
    assert(wv0 * e0 == e0 * wv0) by {
        mul_comm(wv0, e0);
    }
    assert(wv1 * e1 == e1 * wv1) by {
        mul_comm(wv1, e1);
    }
    assert(wv2 * e2 == e2 * wv2) by {
        mul_comm(wv2, e2);
    }
    assert(g * (wv0 * e0 + wv1 * e1 + wv2 * e2) == e0 * g * wv0 + e1 * g * wv1 + e2 * g * wv2) by {
        mul_eq(g, wv0 * e0 + wv1 * e1 + wv2 * e2, g, e0 * wv0 + e1 * wv1 + e2 * wv2);
        dist_add_left(g, e0 * wv0 + e1 * wv1, e2 * wv2);
        dist_add_left(g, e0 * wv0, e1 * wv1);
        mul_comm(g, e0);
        mul_assoc(g, e0, wv0);
        mul_comm(g, e1);
        mul_assoc(g, e1, wv1);
        mul_comm(g, e2);
        mul_assoc(g, e2, wv2);
    }
    assert(d0 * f * wu0 == 0real) by {
        mul_eq(f * wu0, d0, f * wu0, 0real);
        mul_swap(f, wu0, d0);
        mul_comm(f, d0);
    }
    assert(e0 * g * wv0 == 0real) by {
        mul_eq(g * wv0, e0, g * wv0, 0real);
        mul_swap(g, wv0, e0);
        mul_comm(g, e0);
    }
    assert(d1 * f * wu1 == 0real) by {
        mul_eq(f * wu1, d1, f * wu1, 0real);
        mul_swap(f, wu1, d1);
        mul_comm(f, d1);
    }
    assert(e1 * g * wv1 == 0real) by {
        mul_eq(g * wv1, e1, g * wv1, 0real);
        mul_swap(g, wv1, e1);
        mul_comm(g, e1);
    }
    assert(d2 * f * wu2 == 0real) by {
        mul_eq(f * wu2, d2, f * wu2, 0real);
        mul_swap(f, wu2, d2);
        mul_comm(f, d2);
    }
    assert(e2 * g * wv2 == 0real) by {
        mul_eq(g * wv2, e2, g * wv2, 0real);
        mul_swap(g, wv2, e2);
        mul_comm(g, e2);
    }
}

pub(crate) proof fn vanishing_prism_u(a: real, b: real, s: real, x: real, y: real)
    requires
        a == 0real,
        b == 0real,
        s == 0real,
    ensures
        2real * a * (x * y) + b * (3real * (x * x) + y * y) + s * (x * x + y * y) == 0real,
        2real * (a * y + (3real * b + s) * x) == 0real,
        2real * (a * x + (b + s) * y) == 0real,
{
    assert(2real * a * (x * y) == 2real * (a * x * y)) by {
        mul_assoc(2real, a, x * y);
        mul_assoc(a, x, y);
    }
    assert(b * (3real * (x * x) + y * y) == 3real * (b * x * x) + b * y * y) by {
        dist_add_left(b, 3real * (x * x), y * y);
        mul_front(b, 3real, x * x);
        mul_assoc(b, x, x);
        mul_assoc(b, y, y);
    }
    assert(s * (x * x + y * y) == s * x * x + s * y * y) by {
        dist_add_left(s, x * x, y * y);
        mul_assoc(s, x, x);
        mul_assoc(s, y, y);
    }
    assert(a * x * y == 0real) by {
        mul_eq(x * y, a, x * y, 0real);
        mul_swap(x, y, a);
        mul_comm(x, a);
    }
    assert(b * x * x == 0real) by {
        mul_eq(x * x, b, x * x, 0real);
        mul_swap(x, x, b);
        mul_comm(x, b);
    }
    assert(b * y * y == 0real) by {
        mul_eq(y * y, b, y * y, 0real);
        mul_swap(y, y, b);
        mul_comm(y, b);
    }
    assert(s * x * x == 0real) by {
        mul_eq(x * x, s, x * x, 0real);
        mul_swap(x, x, s);
        mul_comm(x, s);
    }
    assert(s * y * y == 0real) by {
        mul_eq(y * y, s, y * y, 0real);
        mul_swap(y, y, s);
        mul_comm(y, s);
    }
    assert((3real * b + s) * x == 3real * (b * x) + s * x) by {
        dist_add(3real * b, s, x);
        mul_assoc(3real, b, x);
    }
    assert(a * y == 0real) by {
        mul_eq(y, a, y, 0real);
        mul_comm(y, a);
    }
    assert(b * x == 0real) by {
        mul_eq(x, b, x, 0real);
        mul_comm(x, b);
    }
    assert(s * x == 0real) by {
        mul_eq(x, s, x, 0real);
        mul_comm(x, s);
    }
    assert((b + s) * y == b * y + s * y) by {
        dist_add(b, s, y);
    }
    assert(a * x == 0real) by {
        mul_eq(x, a, x, 0real);
        mul_comm(x, a);
    }
    assert(b * y == 0real) by {
        mul_eq(y, b, y, 0real);
        mul_comm(y, b);
    }
    assert(s * y == 0real) by {
        mul_eq(y, s, y, 0real);
        mul_comm(y, s);
    }
}

pub(crate) proof fn vanishing_prism_v(a: real, b: real, s: real, x: real, y: real)
    requires
        a == 0real,
        b == 0real,
        s == 0real,
    ensures
        2real * b * (x * y) + a * (x * x + 3real * (y * y)) + s * (x * x + y * y) == 0real,
        2real * (b * y + (a + s) * x) == 0real,
        2real * (b * x + (3real * a + s) * y) == 0real,
{
    assert(2real * b * (x * y) == 2real * (b * x * y)) by {
        mul_assoc(2real, b, x * y);
        mul_assoc(b, x, y);
    }
    assert(a * (x * x + 3real * (y * y)) == a * x * x + 3real * (a * y * y)) by {
        dist_add_left(a, x * x, 3real * (y * y));
        mul_assoc(a, x, x);
        mul_front(a, 3real, y * y);
        mul_assoc(a, y, y);
    }
    assert(s * (x * x + y * y) == s * x * x + s * y * y) by {
        dist_add_left(s, x * x, y * y);
        mul_assoc(s, x, x);
        mul_assoc(s, y, y);
    }
    assert(a * x * x == 0real) by {
        mul_eq(x * x, a, x * x, 0real);
        mul_swap(x, x, a);
        mul_comm(x, a);
    }
    assert(a * y * y == 0real) by {
        mul_eq(y * y, a, y * y, 0real);
        mul_swap(y, y, a);
        mul_comm(y, a);
    }
    assert(b * x * y == 0real) by {
        mul_eq(x * y, b, x * y, 0real);
        mul_swap(x, y, b);
        mul_comm(x, b);
    }
    assert(s * x * x == 0real) by {
        mul_eq(x * x, s, x * x, 0real);
        mul_swap(x, x, s);
        mul_comm(x, s);
    }
    assert(s * y * y == 0real) by {
        mul_eq(y * y, s, y * y, 0real);
        mul_swap(y, y, s);
        mul_comm(y, s);
    }
    assert((a + s) * x == a * x + s * x) by {
        dist_add(a, s, x);
    }
    assert(a * x == 0real) by {
        mul_eq(x, a, x, 0real);
        mul_comm(x, a);
    }
    assert(b * y == 0real) by {
        mul_eq(y, b, y, 0real);
        mul_comm(y, b);
    }
    assert(s * x == 0real) by {
        mul_eq(x, s, x, 0real);
        mul_comm(x, s);
    }
    assert((3real * a + s) * y == 3real * (a * y) + s * y) by {
        dist_add(3real * a, s, y);
        mul_assoc(3real, a, y);
    }
    assert(a * y == 0real) by {
        mul_eq(y, a, y, 0real);
        mul_comm(y, a);
    }
    assert(b * x == 0real) by {
        mul_eq(x, b, x, 0real);
        mul_comm(x, b);
    }
    assert(s * y == 0real) by {
        mul_eq(y, s, y, 0real);
        mul_comm(y, s);
    }
}

pub(crate) proof fn vanishing_row(n: real, g: real, h: real, f: real, q: real)
    requires
        n == 0real,
        g == 0real,
        h == 0real,
    ensures
        f * g * (q * q) == 0real,
        f * h * (q * q) == 0real,
        (0real - 2real) * f * n * (q * q * q) == 0real,
{
    assert(f * g == g * f) by {
        mul_comm(f, g);
    }
    assert(f * g * (q * q) == g * f * q * q) by {
        mul_eq(f * g, q * q, g * f, q * q);
        mul_assoc(g * f, q, q);
    }
    assert(g * f * q * q == 0real) by {
        mul_eq(f * q * q, g, f * q * q, 0real);
        mul_swap(f * q, q, g);
        mul_swap(f, q, g);
        mul_comm(f, g);
    }
    assert(f * h == h * f) by {
        mul_comm(f, h);
    }
    assert(f * h * (q * q) == h * f * q * q) by {
        mul_eq(f * h, q * q, h * f, q * q);
        mul_assoc(h * f, q, q);
    }
    assert(h * f * q * q == 0real) by {
        mul_eq(f * q * q, h, f * q * q, 0real);
        mul_swap(f * q, q, h);
        mul_swap(f, q, h);
        mul_comm(f, h);
    }
    assert((0real - 2real) * f == -(2real * f)) by {
        mul_eq(0real - 2real, f, -(2real), f);
        dist_neg(2real, f);
    }
    assert((0real - 2real) * f * n == -(2real * (n * f))) by {
        mul_eq((0real - 2real) * f, n, -(2real * f), n);
        dist_neg(2real * f, n);
        mul_assoc(2real, f, n);
        mul_comm(f, n);
    }
    assert((0real - 2real) * f * n * (q * q * q) == -(2real * (n * f * q * q * q))) by {
        mul_eq((0real - 2real) * f * n, q * q * q, -(2real * (n * f)), q * q * q);
        dist_neg(2real * (n * f), q * q * q);
        mul_assoc(2real, n * f, q * q * q);
        mul_assoc(n * f, q, q);
        mul_assoc(n * f, q * q, q);
    }
    assert(n * f * q * q * q == 0real) by {
        mul_eq(f * q * q * q, n, f * q * q * q, 0real);
        mul_swap(f * q * q, q, n);
        mul_swap(f * q, q, n);
        mul_swap(f, q, n);
        mul_comm(f, n);
    }
}

pub(crate) proof fn vanishing_second(
    n: real,
    nx: real,
    ny: real,
    n00: real,
    n01: real,
    n11: real,
    q: real,
)
    requires
        n == 0real,
        nx == 0real,
        ny == 0real,
        n00 == 0real,
        n01 == 0real,
        n11 == 0real,
    ensures
        n00 * (q * q) == 0real,
        n01 * (q * q) == 0real,
        n11 * (q * q) == 0real,
        (0real - 2real) * nx * (q * q * q) == 0real,
        (0real - 2real) * ny * (q * q * q) == 0real,
        6real * n * (q * q * (q * q)) == 0real,
{
    assert(n00 * (q * q) == n00 * q * q) by {
        mul_assoc(n00, q, q);
    }
    assert(n00 * q * q == 0real) by {
        mul_eq(q * q, n00, q * q, 0real);
        mul_swap(q, q, n00);
        mul_comm(q, n00);
    }
    assert(n01 * (q * q) == n01 * q * q) by {
        mul_assoc(n01, q, q);
    }
    assert(n01 * q * q == 0real) by {
        mul_eq(q * q, n01, q * q, 0real);
        mul_swap(q, q, n01);
        mul_comm(q, n01);
    }
    assert(n11 * (q * q) == n11 * q * q) by {
        mul_assoc(n11, q, q);
    }
    assert(n11 * q * q == 0real) by {
        mul_eq(q * q, n11, q * q, 0real);
        mul_swap(q, q, n11);
        mul_comm(q, n11);
    }
    assert((0real - 2real) * nx == -(2real * nx)) by {
        mul_eq(0real - 2real, nx, -(2real), nx);
        dist_neg(2real, nx);
    }
    assert((0real - 2real) * nx * (q * q * q) == -(2real * (nx * q * q * q))) by {
        mul_eq((0real - 2real) * nx, q * q * q, -(2real * nx), q * q * q);
        dist_neg(2real * nx, q * q * q);
        mul_assoc(2real, nx, q * q * q);
        mul_assoc(nx, q, q);
        mul_assoc(nx, q * q, q);
    }
    assert(nx * q * q * q == 0real) by {
        mul_eq(q * q * q, nx, q * q * q, 0real);
        mul_swap(q * q, q, nx);
        mul_swap(q, q, nx);
        mul_comm(q, nx);
    }
    assert((0real - 2real) * ny == -(2real * ny)) by {
        mul_eq(0real - 2real, ny, -(2real), ny);
        dist_neg(2real, ny);
    }
    assert((0real - 2real) * ny * (q * q * q) == -(2real * (ny * q * q * q))) by {
        mul_eq((0real - 2real) * ny, q * q * q, -(2real * ny), q * q * q);
        dist_neg(2real * ny, q * q * q);
        mul_assoc(2real, ny, q * q * q);
        mul_assoc(ny, q, q);
        mul_assoc(ny, q * q, q);
    }
    assert(ny * q * q * q == 0real) by {
        mul_eq(q * q * q, ny, q * q * q, 0real);
        mul_swap(q * q, q, ny);
        mul_swap(q, q, ny);
        mul_comm(q, ny);
    }
    assert(q * q * (q * q) == q * q * q * q) by {
        mul_assoc(q * q, q, q);
    }
    assert(6real * n * (q * q * (q * q)) == 6real * (n * q * q * q * q)) by {
        mul_eq(6real * n, q * q * (q * q), 6real * n, q * q * q * q);
        mul_assoc(6real, n, q * q * q * q);
        mul_assoc(n, q, q);
        mul_assoc(n, q * q, q);
        mul_assoc(n, q * q * q, q);
    }
    assert(n * q * q * q * q == 0real) by {
        mul_eq(q * q * q * q, n, q * q * q * q, 0real);
        mul_swap(q * q * q, q, n);
        mul_swap(q * q, q, n);
        mul_swap(q, q, n);
        mul_comm(q, n);
    }
}

} // verus!
