//! Identities behind the derivatives of the thin-prism displacement.
use crate::expr::algebra::{
    dist_add, dist_add_left, dist_neg, dist_neg_left, mul_assoc, mul_comm, mul_eq, mul_front,
    mul_swap,
};
use vstd::prelude::*;

verus! {

pub(crate) proof fn displacement_u(f: real, a: real, b: real, s: real, x: real, y: real, q: real)
    ensures
        f * (2real * a * (x * y) + b * (3real * (x * x) + y * y) + s * (x * x + y * y)) * (q * q)
            == f * (2real * a * (x * q * (y * q))
            + b * (x * q * (x * q) + y * q * (y * q) + 2real * (x * q * (x * q)))
            + s * (x * q * (x * q) + y * q * (y * q))),
{
    assert(2real * a * (x * y) == 2real * (a * x * y)) by {
        mul_assoc(2real, a, x * y);
        mul_assoc(a, x, y);
    }
    assert(b * (3real * (x * x) + y * y) == 3real * (b * x * x) + b * y * y) by {
        dist_add_left(b, 3real * (x * x), y * y);
        mul_front(b, 3real, x * x);
        mul_assoc(b, x, x);
        mul_assoc(b, y, y);
    }
    assert(s * (x * x + y * y) == s * x * x + s * y * y) by {
        dist_add_left(s, x * x, y * y);
        mul_assoc(s, x, x);
        mul_assoc(s, y, y);
    }
    assert(f * (2real * a * (x * y) + b * (3real * (x * x) + y * y) + s * (x * x + y * y))
        == 2real * (f * a * x * y) + 3real * (f * b * x * x) + f * b * y * y + f * s * x * x
        + f * s * y * y) by {
        mul_eq(f, 2real * a * (x * y) + b * (3real * (x * x) + y * y) + s * (x * x + y * y), f,
            2real * (a * x * y) + 3real * (b * x * x) + b * y * y + s * x * x + s * y * y);
        dist_add_left(f, 2real * (a * x * y) + 3real * (b * x * x) + b * y * y + s * x * x,
            s * y * y);
        dist_add_left(f, 2real * (a * x * y) + 3real * (b * x * x) + b * y * y, s * x * x);
        dist_add_left(f, 2real * (a * x * y) + 3real * (b * x * x), b * y * y);
        dist_add_left(f, 2real * (a * x * y), 3real * (b * x * x));
        mul_front(f, 2real, a * x * y);
        mul_assoc(f, a, x);
        mul_assoc(f, a * x, y);
        mul_front(f, 3real, b * x * x);
        mul_assoc(f, b, x);
        mul_assoc(f, b * x, x);
        mul_assoc(f, b, y);
        mul_assoc(f, b * y, y);
        mul_assoc(f, s, x);
        mul_assoc(f, s * x, x);
        mul_assoc(f, s, y);
        mul_assoc(f, s * y, y);
    }
    assert(f * (2real * a * (x * y) + b * (3real * (x * x) + y * y) + s * (x * x + y * y)) * (q * q)
        == 2real * (f * a * x * y * q * q) + 3real * (f * b * x * x * q * q) + f * b * y * y * q * q
        + f * s * x * x * q * q + f * s * y * y * q * q) by {
        mul_eq(f * (2real * a * (x * y) + b * (3real * (x * x) + y * y) + s * (x * x + y * y)),
            q * q, 2real * (f * a * x * y) + 3real * (f * b * x * x) + f * b * y * y + f * s * x * x
            + f * s * y * y, q * q);
        dist_add(2real * (f * a * x * y) + 3real * (f * b * x * x) + f * b * y * y + f * s * x * x,
            f * s * y * y, q * q);
        dist_add(2real * (f * a * x * y) + 3real * (f * b * x * x) + f * b * y * y, f * s * x * x,
            q * q);
        dist_add(2real * (f * a * x * y) + 3real * (f * b * x * x), f * b * y * y, q * q);
        dist_add(2real * (f * a * x * y), 3real * (f * b * x * x), q * q);
        mul_assoc(2real, f * a * x * y, q * q);
        mul_assoc(f * a * x * y, q, q);
        mul_assoc(3real, f * b * x * x, q * q);
        mul_assoc(f * b * x * x, q, q);
        mul_assoc(f * b * y * y, q, q);
        mul_assoc(f * s * x * x, q, q);
        mul_assoc(f * s * y * y, q, q);
    }
    assert(x * q * (y * q) == x * y * q * q) by {
        mul_swap(x, q, y);
        mul_assoc(x * q, y, q);
    }
    assert(2real * a * (x * q * (y * q)) == 2real * (a * x * y * q * q)) by {
        mul_eq(2real * a, x * q * (y * q), 2real * a, x * y * q * q);
        mul_assoc(2real, a, x * y * q * q);
        mul_assoc(a, x, y);
        mul_assoc(a, x * y, q);
        mul_assoc(a, x * y * q, q);
    }
    assert(x * q * (x * q) == x * x * q * q) by {
        mul_swap(x, q, x);
        mul_assoc(x * q, x, q);
    }
    assert(y * q * (y * q) == y * y * q * q) by {
        mul_swap(y, q, y);
        mul_assoc(y * q, y, q);
    }
    assert(b * (x * q * (x * q) + y * q * (y * q) + 2real * (x * q * (x * q)))
        == 3real * (b * x * x * q * q) + b * y * y * q * q) by {
        mul_eq(b, x * q * (x * q) + y * q * (y * q) + 2real * (x * q * (x * q)), b,
            3real * (x * x * q * q) + y * y * q * q);
        dist_add_left(b, 3real * (x * x * q * q), y * y * q * q);
        mul_front(b, 3real, x * x * q * q);
        mul_assoc(b, x, x);
        mul_assoc(b, x * x, q);
        mul_assoc(b, x * x * q, q);
        mul_assoc(b, y, y);
        mul_assoc(b, y * y, q);
        mul_assoc(b, y * y * q, q);
    }
    assert(s * (x * q * (x * q) + y * q * (y * q)) == s * x * x * q * q + s * y * y * q * q) by {
        mul_eq(s, x * q * (x * q) + y * q * (y * q), s, x * x * q * q + y * y * q * q);
        dist_add_left(s, x * x * q * q, y * y * q * q);
        mul_assoc(s, x, x);
        mul_assoc(s, x * x, q);
        mul_assoc(s, x * x * q, q);
        mul_assoc(s, y, y);
        mul_assoc(s, y * y, q);
        mul_assoc(s, y * y * q, q);
    }
    assert(f * (2real * a * (x * q * (y * q))
        + b * (x * q * (x * q) + y * q * (y * q) + 2real * (x * q * (x * q)))
        + s * (x * q * (x * q) + y * q * (y * q)))
        == 2real * (f * a * x * y * q * q) + 3real * (f * b * x * x * q * q) + f * b * y * y * q * q
        + f * s * x * x * q * q + f * s * y * y * q * q) by {
        mul_eq(f, 2real * a * (x * q * (y * q))
            + b * (x * q * (x * q) + y * q * (y * q) + 2real * (x * q * (x * q)))
            + s * (x * q * (x * q) + y * q * (y * q)), f,
            2real * (a * x * y * q * q) + 3real * (b * x * x * q * q) + b * y * y * q * q
            + s * x * x * q * q + s * y * y * q * q);
        dist_add_left(f, 2real * (a * x * y * q * q) + 3real * (b * x * x * q * q)
            + b * y * y * q * q + s * x * x * q * q, s * y * y * q * q);
        dist_add_left(f, 2real * (a * x * y * q * q) + 3real * (b * x * x * q * q)
            + b * y * y * q * q, s * x * x * q * q);
        dist_add_left(f, 2real * (a * x * y * q * q) + 3real * (b * x * x * q * q),
            b * y * y * q * q);
        dist_add_left(f, 2real * (a * x * y * q * q), 3real * (b * x * x * q * q));
        mul_front(f, 2real, a * x * y * q * q);
        mul_assoc(f, a, x);
        mul_assoc(f, a * x, y);
        mul_assoc(f, a * x * y, q);
        mul_assoc(f, a * x * y * q, q);
        mul_front(f, 3real, b * x * x * q * q);
        mul_assoc(f, b, x);
        mul_assoc(f, b * x, x);
        mul_assoc(f, b * x * x, q);
        mul_assoc(f, b * x * x * q, q);
        mul_assoc(f, b, y);
        mul_assoc(f, b * y, y);
        mul_assoc(f, b * y * y, q);
        mul_assoc(f, b * y * y * q, q);
        mul_assoc(f, s, x);
        mul_assoc(f, s * x, x);
        mul_assoc(f, s * x * x, q);
        mul_assoc(f, s * x * x * q, q);
        mul_assoc(f, s, y);
        mul_assoc(f, s * y, y);
        mul_assoc(f, s * y * y, q);
        mul_assoc(f, s * y * y * q, q);
    }
}

pub(crate) proof fn displacement_v(f: real, a: real, b: real, s: real, x: real, y: real, q: real)
    ensures
        f * (2real * b * (x * y) + a * (x * x + 3real * (y * y)) + s * (x * x + y * y)) * (q * q)
            == f * (2real * b * (x * q * (y * q))
            + a * (x * q * (x * q) + y * q * (y * q) + 2real * (y * q * (y * q)))
            + s * (x * q * (x * q) + y * q * (y * q))),
{
    assert(2real * b * (x * y) == 2real * (b * x * y)) by {
        mul_assoc(2real, b, x * y);
        mul_assoc(b, x, y);
    }
    assert(a * (x * x + 3real * (y * y)) == a * x * x + 3real * (a * y * y)) by {
        dist_add_left(a, x * x, 3real * (y * y));
        mul_assoc(a, x, x);
        mul_front(a, 3real, y * y);
        mul_assoc(a, y, y);
    }
    assert(s * (x * x + y * y) == s * x * x + s * y * y) by {
        dist_add_left(s, x * x, y * y);
        mul_assoc(s, x, x);
        mul_assoc(s, y, y);
    }
    assert(f * (2real * b * (x * y) + a * (x * x + 3real * (y * y)) + s * (x * x + y * y))
        == f * a * x * x + 3real * (f * a * y * y) + 2real * (f * b * x * y) + f * s * x * x
        + f * s * y * y) by {
        mul_eq(f, 2real * b * (x * y) + a * (x * x + 3real * (y * y)) + s * (x * x + y * y), f,
            a * x * x + 3real * (a * y * y) + 2real * (b * x * y) + s * x * x + s * y * y);
        dist_add_left(f, a * x * x + 3real * (a * y * y) + 2real * (b * x * y) + s * x * x,
            s * y * y);
        dist_add_left(f, a * x * x + 3real * (a * y * y) + 2real * (b * x * y), s * x * x);
        dist_add_left(f, a * x * x + 3real * (a * y * y), 2real * (b * x * y));
        dist_add_left(f, a * x * x, 3real * (a * y * y));
        mul_assoc(f, a, x);
        mul_assoc(f, a * x, x);
        mul_front(f, 3real, a * y * y);
        mul_assoc(f, a, y);
        mul_assoc(f, a * y, y);
        mul_front(f, 2real, b * x * y);
        mul_assoc(f, b, x);
        mul_assoc(f, b * x, y);
        mul_assoc(f, s, x);
        mul_assoc(f, s * x, x);
        mul_assoc(f, s, y);
        mul_assoc(f, s * y, y);
    }
    assert(f * (2real * b * (x * y) + a * (x * x + 3real * (y * y)) + s * (x * x + y * y)) * (q * q)
        == f * a * x * x * q * q + 3real * (f * a * y * y * q * q) + 2real * (f * b * x * y * q * q)
        + f * s * x * x * q * q + f * s * y * y * q * q) by {
        mul_eq(f * (2real * b * (x * y) + a * (x * x + 3real * (y * y)) + s * (x * x + y * y)),
            q * q, f * a * x * x + 3real * (f * a * y * y) + 2real * (f * b * x * y) + f * s * x * x
            + f * s * y * y, q * q);
        dist_add(f * a * x * x + 3real * (f * a * y * y) + 2real * (f * b * x * y) + f * s * x * x,
            f * s * y * y, q * q);
        dist_add(f * a * x * x + 3real * (f * a * y * y) + 2real * (f * b * x * y), f * s * x * x,
            q * q);
        dist_add(f * a * x * x + 3real * (f * a * y * y), 2real * (f * b * x * y), q * q);
        dist_add(f * a * x * x, 3real * (f * a * y * y), q * q);
        mul_assoc(f * a * x * x, q, q);
        mul_assoc(3real, f * a * y * y, q * q);
        mul_assoc(f * a * y * y, q, q);
        mul_assoc(2real, f * b * x * y, q * q);
        mul_assoc(f * b * x * y, q, q);
        mul_assoc(f * s * x * x, q, q);
        mul_assoc(f * s * y * y, q, q);
    }
    assert(x * q * (y * q) == x * y * q * q) by {
        mul_swap(x, q, y);
        mul_assoc(x * q, y, q);
    }
    assert(2real * b * (x * q * (y * q)) == 2real * (b * x * y * q * q)) by {
        mul_eq(2real * b, x * q * (y * q), 2real * b, x * y * q * q);
        mul_assoc(2real, b, x * y * q * q);
        mul_assoc(b, x, y);
        mul_assoc(b, x * y, q);
        mul_assoc(b, x * y * q, q);
    }
    assert(x * q * (x * q) == x * x * q * q) by {
        mul_swap(x, q, x);
        mul_assoc(x * q, x, q);
    }
    assert(y * q * (y * q) == y * y * q * q) by {
        mul_swap(y, q, y);
        mul_assoc(y * q, y, q);
    }
    assert(a * (x * q * (x * q) + y * q * (y * q) + 2real * (y * q * (y * q)))
        == a * x * x * q * q + 3real * (a * y * y * q * q)) by {
        mul_eq(a, x * q * (x * q) + y * q * (y * q) + 2real * (y * q * (y * q)), a,
            x * x * q * q + 3real * (y * y * q * q));
        dist_add_left(a, x * x * q * q, 3real * (y * y * q * q));
        mul_assoc(a, x, x);
        mul_assoc(a, x * x, q);
        mul_assoc(a, x * x * q, q);
        mul_front(a, 3real, y * y * q * q);
        mul_assoc(a, y, y);
        mul_assoc(a, y * y, q);
        mul_assoc(a, y * y * q, q);
    }
    assert(s * (x * q * (x * q) + y * q * (y * q)) == s * x * x * q * q + s * y * y * q * q) by {
        mul_eq(s, x * q * (x * q) + y * q * (y * q), s, x * x * q * q + y * y * q * q);
        dist_add_left(s, x * x * q * q, y * y * q * q);
        mul_assoc(s, x, x);
        mul_assoc(s, x * x, q);
        mul_assoc(s, x * x * q, q);
        mul_assoc(s, y, y);
        mul_assoc(s, y * y, q);
        mul_assoc(s, y * y * q, q);
    }
    assert(f * (2real * b * (x * q * (y * q))
        + a * (x * q * (x * q) + y * q * (y * q) + 2real * (y * q * (y * q)))
        + s * (x * q * (x * q) + y * q * (y * q)))
        == f * a * x * x * q * q + 3real * (f * a * y * y * q * q) + 2real * (f * b * x * y * q * q)
        + f * s * x * x * q * q + f * s * y * y * q * q) by {
        mul_eq(f, 2real * b * (x * q * (y * q))
            + a * (x * q * (x * q) + y * q * (y * q) + 2real * (y * q * (y * q)))
            + s * (x * q * (x * q) + y * q * (y * q)), f,
            a * x * x * q * q + 3real * (a * y * y * q * q) + 2real * (b * x * y * q * q)
            + s * x * x * q * q + s * y * y * q * q);
        dist_add_left(f, a * x * x * q * q + 3real * (a * y * y * q * q)
            + 2real * (b * x * y * q * q) + s * x * x * q * q, s * y * y * q * q);
        dist_add_left(f, a * x * x * q * q + 3real * (a * y * y * q * q)
            + 2real * (b * x * y * q * q), s * x * x * q * q);
        dist_add_left(f, a * x * x * q * q + 3real * (a * y * y * q * q),
            2real * (b * x * y * q * q));
        dist_add_left(f, a * x * x * q * q, 3real * (a * y * y * q * q));
        mul_assoc(f, a, x);
        mul_assoc(f, a * x, x);
        mul_assoc(f, a * x * x, q);
        mul_assoc(f, a * x * x * q, q);
        mul_front(f, 3real, a * y * y * q * q);
        mul_assoc(f, a, y);
        mul_assoc(f, a * y, y);
        mul_assoc(f, a * y * y, q);
        mul_assoc(f, a * y * y * q, q);
        mul_front(f, 2real, b * x * y * q * q);
        mul_assoc(f, b, x);
        mul_assoc(f, b * x, y);
        mul_assoc(f, b * x * y, q);
        mul_assoc(f, b * x * y * q, q);
        mul_assoc(f, s, x);
        mul_assoc(f, s * x, x);
        mul_assoc(f, s * x * x, q);
        mul_assoc(f, s * x * x * q, q);
        mul_assoc(f, s, y);
        mul_assoc(f, s * y, y);
        mul_assoc(f, s * y * y, q);
        mul_assoc(f, s * y * y * q, q);
    }
}

pub(crate) proof fn displacement_u_rate(
    a: real,
    b: real,
    s: real,
    x: real,
    y: real,
    dx: real,
    dy: real,
)
    ensures
        2real * a * (dx * y + x * dy) + b * (3real * (dx * x + x * dx) + (dy * y + y * dy))
            + s * (dx * x + x * dx + (dy * y + y * dy))
            == 2real * (a * y + (3real * b + s) * x) * dx + 2real * (a * x + (b + s) * y) * dy,
{
    assert(dx * y == y * dx) by {
        mul_comm(dx, y);
    }
    assert(2real * a * (dx * y + x * dy) == 2real * (a * x * dy) + 2real * (a * y * dx)) by {
        mul_eq(2real * a, dx * y + x * dy, 2real * a, x * dy + y * dx);
        mul_assoc(2real, a, x * dy + y * dx);
        dist_add_left(a, x * dy, y * dx);
        mul_assoc(a, x, dy);
        mul_assoc(a, y, dx);
    }
    assert(dx * x == x * dx) by {
        mul_comm(dx, x);
    }
    assert(dy * y == y * dy) by {
        mul_comm(dy, y);
    }
    assert(b * (3real * (dx * x + x * dx) + (dy * y + y * dy))
        == 6real * (b * x * dx) + 2real * (b * y * dy)) by {
        mul_eq(b, 3real * (dx * x + x * dx) + (dy * y + y * dy), b,
            6real * (x * dx) + 2real * (y * dy));
        dist_add_left(b, 6real * (x * dx), 2real * (y * dy));
        mul_front(b, 6real, x * dx);
        mul_assoc(b, x, dx);
        mul_front(b, 2real, y * dy);
        mul_assoc(b, y, dy);
    }
    assert(s * (dx * x + x * dx + (dy * y + y * dy))
        == 2real * (s * x * dx) + 2real * (s * y * dy)) by {
        mul_eq(s, dx * x + x * dx + (dy * y + y * dy), s, 2real * (x * dx) + 2real * (y * dy));
        dist_add_left(s, 2real * (x * dx), 2real * (y * dy));
        mul_front(s, 2real, x * dx);
        mul_assoc(s, x, dx);
        mul_front(s, 2real, y * dy);
        mul_assoc(s, y, dy);
    }
    assert((3real * b + s) * x == 3real * (b * x) + s * x) by {
        dist_add(3real * b, s, x);
        mul_assoc(3real, b, x);
    }
    assert(2real * (a * y + (3real * b + s) * x) * dx
        == 2real * (a * y * dx) + 6real * (b * x * dx) + 2real * (s * x * dx)) by {
        mul_eq(2real * (a * y + (3real * b + s) * x), dx,
            2real * (a * y) + 6real * (b * x) + 2real * (s * x), dx);
        dist_add(2real * (a * y) + 6real * (b * x), 2real * (s * x), dx);
        dist_add(2real * (a * y), 6real * (b * x), dx);
        mul_assoc(2real, a * y, dx);
        mul_assoc(6real, b * x, dx);
        mul_assoc(2real, s * x, dx);
    }
    assert((b + s) * y == b * y + s * y) by {
        dist_add(b, s, y);
    }
    assert(2real * (a * x + (b + s) * y) * dy
        == 2real * (a * x * dy) + 2real * (b * y * dy) + 2real * (s * y * dy)) by {
        mul_eq(2real * (a * x + (b + s) * y), dy,
            2real * (a * x) + 2real * (b * y) + 2real * (s * y), dy);
        dist_add(2real * (a * x) + 2real * (b * y), 2real * (s * y), dy);
        dist_add(2real * (a * x), 2real * (b * y), dy);
        mul_assoc(2real, a * x, dy);
        mul_assoc(2real, b * y, dy);
        mul_assoc(2real, s * y, dy);
    }
}

pub(crate) proof fn displacement_v_rate(
    a: real,
    b: real,
    s: real,
    x: real,
    y: real,
    dx: real,
    dy: real,
)
    ensures
        2real * b * (dx * y + x * dy) + a * (dx * x + x * dx + 3real * (dy * y + y * dy))
            + s * (dx * x + x * dx + (dy * y + y * dy))
            == 2real * (b * y + (a + s) * x) * dx + 2real * (b * x + (3real * a + s) * y) * dy,
{
    assert(dx * y == y * dx) by {
        mul_comm(dx, y);
    }
    assert(2real * b * (dx * y + x * dy) == 2real * (b * x * dy) + 2real * (b * y * dx)) by {
        mul_eq(2real * b, dx * y + x * dy, 2real * b, x * dy + y * dx);
        mul_assoc(2real, b, x * dy + y * dx);
        dist_add_left(b, x * dy, y * dx);
        mul_assoc(b, x, dy);
        mul_assoc(b, y, dx);
    }
    assert(dx * x == x * dx) by {
        mul_comm(dx, x);
    }
    assert(dy * y == y * dy) by {
        mul_comm(dy, y);
    }
    assert(a * (dx * x + x * dx + 3real * (dy * y + y * dy))
        == 2real * (a * x * dx) + 6real * (a * y * dy)) by {
        mul_eq(a, dx * x + x * dx + 3real * (dy * y + y * dy), a,
            2real * (x * dx) + 6real * (y * dy));
        dist_add_left(a, 2real * (x * dx), 6real * (y * dy));
        mul_front(a, 2real, x * dx);
        mul_assoc(a, x, dx);
        mul_front(a, 6real, y * dy);
        mul_assoc(a, y, dy);
    }
    assert(s * (dx * x + x * dx + (dy * y + y * dy))
        == 2real * (s * x * dx) + 2real * (s * y * dy)) by {
        mul_eq(s, dx * x + x * dx + (dy * y + y * dy), s, 2real * (x * dx) + 2real * (y * dy));
        dist_add_left(s, 2real * (x * dx), 2real * (y * dy));
        mul_front(s, 2real, x * dx);
        mul_assoc(s, x, dx);
        mul_front(s, 2real, y * dy);
        mul_assoc(s, y, dy);
    }
    assert((a + s) * x == a * x + s * x) by {
        dist_add(a, s, x);
    }
    assert(2real * (b * y + (a + s) * x) * dx
        == 2real * (a * x * dx) + 2real * (b * y * dx) + 2real * (s * x * dx)) by {
        mul_eq(2real * (b * y + (a + s) * x), dx,
            2real * (a * x) + 2real * (b * y) + 2real * (s * x), dx);
        dist_add(2real * (a * x) + 2real * (b * y), 2real * (s * x), dx);
        dist_add(2real * (a * x), 2real * (b * y), dx);
        mul_assoc(2real, a * x, dx);
        mul_assoc(2real, b * y, dx);
        mul_assoc(2real, s * x, dx);
    }
    assert((3real * a + s) * y == 3real * (a * y) + s * y) by {
        dist_add(3real * a, s, y);
        mul_assoc(3real, a, y);
    }
    assert(2real * (b * x + (3real * a + s) * y) * dy
        == 6real * (a * y * dy) + 2real * (b * x * dy) + 2real * (s * y * dy)) by {
        mul_eq(2real * (b * x + (3real * a + s) * y), dy,
            6real * (a * y) + 2real * (b * x) + 2real * (s * y), dy);
        dist_add(6real * (a * y) + 2real * (b * x), 2real * (s * y), dy);
        dist_add(6real * (a * y), 2real * (b * x), dy);
        mul_assoc(6real, a * y, dy);
        mul_assoc(2real, b * x, dy);
        mul_assoc(2real, s * y, dy);
    }
}

pub(crate) proof fn slope_rates(a: real, b: real, s: real, x: real, y: real, dx: real, dy: real)
    ensures
        2real * (a * dy + (3real * b + s) * dx) == (6real * b + 2real * s) * dx + 2real * a * dy,
        2real * (a * dx + (b + s) * dy) == 2real * a * dx + (2real * b + 2real * s) * dy,
        2real * (b * dy + (a + s) * dx) == (2real * a + 2real * s) * dx + 2real * b * dy,
        2real * (b * dx + (3real * a + s) * dy) == 2real * b * dx + (6real * a + 2real * s) * dy,
{
    assert((3real * b + s) * dx == 3real * (b * dx) + s * dx) by {
        dist_add(3real * b, s, dx);
        mul_assoc(3real, b, dx);
    }
    assert((6real * b + 2real * s) * dx == 6real * (b * dx) + 2real * (s * dx)) by {
        dist_add(6real * b, 2real * s, dx);
        mul_assoc(6real, b, dx);
        mul_assoc(2real, s, dx);
    }
    assert(2real * a * dy == 2real * (a * dy)) by {
        mul_assoc(2real, a, dy);
    }
    assert((b + s) * dy == b * dy + s * dy) by {
        dist_add(b, s, dy);
    }
    assert(2real * a * dx == 2real * (a * dx)) by {
        mul_assoc(2real, a, dx);
    }
    assert((2real * b + 2real * s) * dy == 2real * (b * dy) + 2real * (s * dy)) by {
        dist_add(2real * b, 2real * s, dy);
        mul_assoc(2real, b, dy);
        mul_assoc(2real, s, dy);
    }
    assert((a + s) * dx == a * dx + s * dx) by {
        dist_add(a, s, dx);
    }
    assert((2real * a + 2real * s) * dx == 2real * (a * dx) + 2real * (s * dx)) by {
        dist_add(2real * a, 2real * s, dx);
        mul_assoc(2real, a, dx);
        mul_assoc(2real, s, dx);
    }
    assert(2real * b * dy == 2real * (b * dy)) by {
        mul_assoc(2real, b, dy);
    }
    assert((3real * a + s) * dy == 3real * (a * dy) + s * dy) by {
        dist_add(3real * a, s, dy);
        mul_assoc(3real, a, dy);
    }
    assert(2real * b * dx == 2real * (b * dx)) by {
        mul_assoc(2real, b, dx);
    }
    assert((6real * a + 2real * s) * dy == 6real * (a * dy) + 2real * (s * dy)) by {
        dist_add(6real * a, 2real * s, dy);
        mul_assoc(6real, a, dy);
        mul_assoc(2real, s, dy);
    }
}

pub(crate) proof fn shift_rate(
    f: real,
    n: real,
    nr: real,
    nx: real,
    ny: real,
    q: real,
    dq: real,
    dx: real,
    dy: real,
    dz: real,
)
    requires
        dq == -(dz * (q * q)),
        nr == nx * dx + ny * dy,
    ensures
        f * nr * (q * q) + f * n * (dq * q + q * dq)
            == f * nx * (q * q) * dx + f * ny * (q * q) * dy
            + (0real - 2real) * f * n * (q * q * q) * dz,
{
    assert(dz * (q * q) == q * q * dz) by {
        mul_comm(dz, q);
        mul_assoc(dz, q, q);
        mul_swap(q, dz, q);
    }
    assert(f * nr * (q * q) == f * nr * q * q) by {
        mul_assoc(f * nr, q, q);
    }
    assert(dq * q == q * dq) by {
        mul_comm(dq, q);
    }
    assert(f * n * (dq * q + q * dq) == 2real * (f * n * q * dq)) by {
        mul_eq(f * n, dq * q + q * dq, f * n, 2real * (q * dq));
        mul_front(f * n, 2real, q * dq);
        mul_assoc(f * n, q, dq);
    }
    assert(f * nx * (q * q) == f * nx * q * q) by {
        mul_assoc(f * nx, q, q);
    }
    assert(f * nx * (q * q) * dx == f * nx * q * q * dx) by {
        mul_eq(f * nx * (q * q), dx, f * nx * q * q, dx);
    }
    assert(f * ny * (q * q) == f * ny * q * q) by {
        mul_assoc(f * ny, q, q);
    }
    assert(f * ny * (q * q) * dy == f * ny * q * q * dy) by {
        mul_eq(f * ny * (q * q), dy, f * ny * q * q, dy);
    }
    assert((0real - 2real) * f == -(2real * f)) by {
        mul_eq(0real - 2real, f, -(2real), f);
        dist_neg(2real, f);
    }
    assert((0real - 2real) * f * n == -(2real * (f * n))) by {
        mul_eq((0real - 2real) * f, n, -(2real * f), n);
        dist_neg(2real * f, n);
        mul_assoc(2real, f, n);
    }
    assert((0real - 2real) * f * n * (q * q * q) == -(2real * (f * n * q * q * q))) by {
        mul_eq((0real - 2real) * f * n, q * q * q, -(2real * (f * n)), q * q * q);
        dist_neg(2real * (f * n), q * q * q);
        mul_assoc(2real, f * n, q * q * q);
        mul_assoc(f * n, q, q);
        mul_assoc(f * n, q * q, q);
    }
    assert((0real - 2real) * f * n * (q * q * q) * dz == -(2real * (f * n * q * q * q * dz))) by {
        mul_eq((0real - 2real) * f * n * (q * q * q), dz, -(2real * (f * n * q * q * q)), dz);
        dist_neg(2real * (f * n * q * q * q), dz);
        mul_assoc(2real, f * n * q * q * q, dz);
    }
    assert(f * n * q * dq == -(f * n * q * q * q * dz)) by {
        mul_eq(f * n * q, dq, f * n * q, -(dz * (q * q)));
        mul_eq(f * n * q, -(dz * (q * q)), f * n * q, -(q * q * dz));
        dist_neg_left(f * n * q, q * q * dz);
        mul_assoc(f * n * q, q, q);
        mul_assoc(f * n * q, q * q, dz);
    }
    assert(f * nr * q * q == f * nx * q * q * dx + f * ny * q * q * dy) by {
        mul_eq(f * q * q, nr, f * q * q, nx * dx + ny * dy);
        mul_swap(f * q, q, nr);
        mul_swap(f, q, nr);
        dist_add_left(f * q * q, nx * dx, ny * dy);
        mul_swap(f * q, q, nx);
        mul_swap(f, q, nx);
        mul_assoc(f * q * q, nx, dx);
        mul_swap(f * q, q, ny);
        mul_swap(f, q, ny);
        mul_assoc(f * q * q, ny, dy);
    }
}

pub(crate) proof fn shift_slope_rate(
    f: real,
    g: real,
    gr: real,
    h0: real,
    h1: real,
    q: real,
    dq: real,
    dx: real,
    dy: real,
    dz: real,
)
    requires
        dq == -(dz * (q * q)),
        gr == h0 * dx + h1 * dy,
    ensures
        f * gr * (q * q) + f * g * (dq * q + q * dq)
            == f * (h0 * (q * q)) * dx + f * (h1 * (q * q)) * dy
            + f * ((0real - 2real) * g * (q * q * q)) * dz,
{
    assert(dz * (q * q) == q * q * dz) by {
        mul_comm(dz, q);
        mul_assoc(dz, q, q);
        mul_swap(q, dz, q);
    }
    assert(f * gr * (q * q) == f * gr * q * q) by {
        mul_assoc(f * gr, q, q);
    }
    assert(dq * q == q * dq) by {
        mul_comm(dq, q);
    }
    assert(f * g * (dq * q + q * dq) == 2real * (f * g * q * dq)) by {
        mul_eq(f * g, dq * q + q * dq, f * g, 2real * (q * dq));
        mul_front(f * g, 2real, q * dq);
        mul_assoc(f * g, q, dq);
    }
    assert(h0 * (q * q) == h0 * q * q) by {
        mul_assoc(h0, q, q);
    }
    assert(f * (h0 * (q * q)) == f * h0 * q * q) by {
        mul_eq(f, h0 * (q * q), f, h0 * q * q);
        mul_assoc(f, h0, q);
        mul_assoc(f, h0 * q, q);
    }
    assert(f * (h0 * (q * q)) * dx == f * h0 * q * q * dx) by {
        mul_eq(f * (h0 * (q * q)), dx, f * h0 * q * q, dx);
    }
    assert(h1 * (q * q) == h1 * q * q) by {
        mul_assoc(h1, q, q);
    }
    assert(f * (h1 * (q * q)) == f * h1 * q * q) by {
        mul_eq(f, h1 * (q * q), f, h1 * q * q);
        mul_assoc(f, h1, q);
        mul_assoc(f, h1 * q, q);
    }
    assert(f * (h1 * (q * q)) * dy == f * h1 * q * q * dy) by {
        mul_eq(f * (h1 * (q * q)), dy, f * h1 * q * q, dy);
    }
    assert((0real - 2real) * g == -(2real * g)) by {
        mul_eq(0real - 2real, g, -(2real), g);
        dist_neg(2real, g);
    }
    assert((0real - 2real) * g * (q * q * q) == -(2real * (g * q * q * q))) by {
        mul_eq((0real - 2real) * g, q * q * q, -(2real * g), q * q * q);
        dist_neg(2real * g, q * q * q);
        mul_assoc(2real, g, q * q * q);
        mul_assoc(g, q, q);
        mul_assoc(g, q * q, q);
    }
    assert(f * ((0real - 2real) * g * (q * q * q)) == -(2real * (f * g * q * q * q))) by {
        mul_eq(f, (0real - 2real) * g * (q * q * q), f, -(2real * (g * q * q * q)));
        dist_neg_left(f, 2real * (g * q * q * q));
        mul_front(f, 2real, g * q * q * q);
        mul_assoc(f, g, q);
        mul_assoc(f, g * q, q);
        mul_assoc(f, g * q * q, q);
    }
    assert(f * ((0real - 2real) * g * (q * q * q)) * dz == -(2real * (f * g * q * q * q * dz))) by {
        mul_eq(f * ((0real - 2real) * g * (q * q * q)), dz, -(2real * (f * g * q * q * q)), dz);
        dist_neg(2real * (f * g * q * q * q), dz);
        mul_assoc(2real, f * g * q * q * q, dz);
    }
    assert(f * g * q * dq == -(f * g * q * q * q * dz)) by {
        mul_eq(f * g * q, dq, f * g * q, -(dz * (q * q)));
        mul_eq(f * g * q, -(dz * (q * q)), f * g * q, -(q * q * dz));
        dist_neg_left(f * g * q, q * q * dz);
        mul_assoc(f * g * q, q, q);
        mul_assoc(f * g * q, q * q, dz);
    }
    assert(f * gr * q * q == f * h0 * q * q * dx + f * h1 * q * q * dy) by {
        mul_eq(f * q * q, gr, f * q * q, h0 * dx + h1 * dy);
        mul_swap(f * q, q, gr);
        mul_swap(f, q, gr);
        dist_add_left(f * q * q, h0 * dx, h1 * dy);
        mul_swap(f * q, q, h0);
        mul_swap(f, q, h0);
        mul_assoc(f * q * q, h0, dx);
        mul_swap(f * q, q, h1);
        mul_swap(f, q, h1);
        mul_assoc(f * q * q, h1, dy);
    }
}

pub(crate) proof fn shift_depth_rate(
    f: real,
    n: real,
    nr: real,
    nx: real,
    ny: real,
    q: real,
    dq: real,
    dx: real,
    dy: real,
    dz: real,
)
    requires
        dq == -(dz * (q * q)),
        nr == nx * dx + ny * dy,
    ensures
        (0real - 2real) * f * nr * (q * q * q)
            + (0real - 2real) * f * n * ((dq * q + q * dq) * q + q * q * dq)
            == f * ((0real - 2real) * nx * (q * q * q)) * dx
            + f * ((0real - 2real) * ny * (q * q * q)) * dy
            + f * (6real * n * (q * q * (q * q))) * dz,
{
    assert(dz * (q * q) == q * q * dz) by {
        mul_comm(dz, q);
        mul_assoc(dz, q, q);
        mul_swap(q, dz, q);
    }
    assert((0real - 2real) * f == -(2real * f)) by {
        mul_eq(0real - 2real, f, -(2real), f);
        dist_neg(2real, f);
    }
    assert((0real - 2real) * f * nr == -(2real * (f * nr))) by {
        mul_eq((0real - 2real) * f, nr, -(2real * f), nr);
        dist_neg(2real * f, nr);
        mul_assoc(2real, f, nr);
    }
    assert((0real - 2real) * f * nr * (q * q * q) == -(2real * (f * nr * q * q * q))) by {
        mul_eq((0real - 2real) * f * nr, q * q * q, -(2real * (f * nr)), q * q * q);
        dist_neg(2real * (f * nr), q * q * q);
        mul_assoc(2real, f * nr, q * q * q);
        mul_assoc(f * nr, q, q);
        mul_assoc(f * nr, q * q, q);
    }
    assert((0real - 2real) * f * n == -(2real * (f * n))) by {
        mul_eq((0real - 2real) * f, n, -(2real * f), n);
        dist_neg(2real * f, n);
        mul_assoc(2real, f, n);
    }
    assert(dq * q == q * dq) by {
        mul_comm(dq, q);
    }
    assert((dq * q + q * dq) * q == 2real * (q * q * dq)) by {
        mul_eq(dq * q + q * dq, q, 2real * (q * dq), q);
        mul_assoc(2real, q * dq, q);
        mul_swap(q, dq, q);
    }
    assert((0real - 2real) * f * n * ((dq * q + q * dq) * q + q * q * dq)
        == -(6real * (f * n * q * q * dq))) by {
        mul_eq((0real - 2real) * f * n, (dq * q + q * dq) * q + q * q * dq, -(2real * (f * n)),
            3real * (q * q * dq));
        dist_neg(2real * (f * n), 3real * (q * q * dq));
        mul_assoc(2real, f * n, 3real * (q * q * dq));
        mul_front(f * n, 3real, q * q * dq);
        mul_assoc(f * n, q, q);
        mul_assoc(f * n, q * q, dq);
    }
    assert((0real - 2real) * nx == -(2real * nx)) by {
        mul_eq(0real - 2real, nx, -(2real), nx);
        dist_neg(2real, nx);
    }
    assert((0real - 2real) * nx * (q * q * q) == -(2real * (nx * q * q * q))) by {
        mul_eq((0real - 2real) * nx, q * q * q, -(2real * nx), q * q * q);
        dist_neg(2real * nx, q * q * q);
        mul_assoc(2real, nx, q * q * q);
        mul_assoc(nx, q, q);
        mul_assoc(nx, q * q, q);
    }
    assert(f * ((0real - 2real) * nx * (q * q * q)) == -(2real * (f * nx * q * q * q))) by {
        mul_eq(f, (0real - 2real) * nx * (q * q * q), f, -(2real * (nx * q * q * q)));
        dist_neg_left(f, 2real * (nx * q * q * q));
        mul_front(f, 2real, nx * q * q * q);
        mul_assoc(f, nx, q);
        mul_assoc(f, nx * q, q);
        mul_assoc(f, nx * q * q, q);
    }
    assert(f * ((0real - 2real) * nx * (q * q * q)) * dx
        == -(2real * (f * nx * q * q * q * dx))) by {
        mul_eq(f * ((0real - 2real) * nx * (q * q * q)), dx, -(2real * (f * nx * q * q * q)), dx);
        dist_neg(2real * (f * nx * q * q * q), dx);
        mul_assoc(2real, f * nx * q * q * q, dx);
    }
    assert((0real - 2real) * ny == -(2real * ny)) by {
        mul_eq(0real - 2real, ny, -(2real), ny);
        dist_neg(2real, ny);
    }
    assert((0real - 2real) * ny * (q * q * q) == -(2real * (ny * q * q * q))) by {
        mul_eq((0real - 2real) * ny, q * q * q, -(2real * ny), q * q * q);
        dist_neg(2real * ny, q * q * q);
        mul_assoc(2real, ny, q * q * q);
        mul_assoc(ny, q, q);
        mul_assoc(ny, q * q, q);
    }
    assert(f * ((0real - 2real) * ny * (q * q * q)) == -(2real * (f * ny * q * q * q))) by {
        mul_eq(f, (0real - 2real) * ny * (q * q * q), f, -(2real * (ny * q * q * q)));
        dist_neg_left(f, 2real * (ny * q * q * q));
        mul_front(f, 2real, ny * q * q * q);
        mul_assoc(f, ny, q);
        mul_assoc(f, ny * q, q);
        mul_assoc(f, ny * q * q, q);
    }
    assert(f * ((0real - 2real) * ny * (q * q * q)) * dy
        == -(2real * (f * ny * q * q * q * dy))) by {
        mul_eq(f * ((0real - 2real) * ny * (q * q * q)), dy, -(2real * (f * ny * q * q * q)), dy);
        dist_neg(2real * (f * ny * q * q * q), dy);
        mul_assoc(2real, f * ny * q * q * q, dy);
    }
    assert(q * q * (q * q) == q * q * q * q) by {
        mul_assoc(q * q, q, q);
    }
    assert(6real * n * (q * q * (q * q)) == 6real * (n * q * q * q * q)) by {
        mul_eq(6real * n, q * q * (q * q), 6real * n, q * q * q * q);
        mul_assoc(6real, n, q * q * q * q);
        mul_assoc(n, q, q);
        mul_assoc(n, q * q, q);
        mul_assoc(n, q * q * q, q);
    }
    assert(f * (6real * n * (q * q * (q * q))) == 6real * (f * n * q * q * q * q)) by {
        mul_eq(f, 6real * n * (q * q * (q * q)), f, 6real * (n * q * q * q * q));
        mul_front(f, 6real, n * q * q * q * q);
        mul_assoc(f, n, q);
        mul_assoc(f, n * q, q);
        mul_assoc(f, n * q * q, q);
        mul_assoc(f, n * q * q * q, q);
    }
    assert(f * (6real * n * (q * q * (q * q))) * dz == 6real * (f * n * q * q * q * q * dz)) by {
        mul_eq(f * (6real * n * (q * q * (q * q))), dz, 6real * (f * n * q * q * q * q), dz);
        mul_assoc(6real, f * n * q * q * q * q, dz);
    }
    assert(f * n * q * q * dq == -(f * n * q * q * q * q * dz)) by {
        mul_eq(f * n * q * q, dq, f * n * q * q, -(dz * (q * q)));
        mul_eq(f * n * q * q, -(dz * (q * q)), f * n * q * q, -(q * q * dz));
        dist_neg_left(f * n * q * q, q * q * dz);
        mul_assoc(f * n * q * q, q, q);
        mul_assoc(f * n * q * q, q * q, dz);
    }
    assert(f * nr * q * q * q == f * nx * q * q * q * dx + f * ny * q * q * q * dy) by {
        mul_eq(f * q * q * q, nr, f * q * q * q, nx * dx + ny * dy);
        mul_swap(f * q * q, q, nr);
        mul_swap(f * q, q, nr);
        mul_swap(f, q, nr);
        dist_add_left(f * q * q * q, nx * dx, ny * dy);
        mul_swap(f * q * q, q, nx);
        mul_swap(f * q, q, nx);
        mul_swap(f, q, nx);
        mul_assoc(f * q * q * q, nx, dx);
        mul_swap(f * q * q, q, ny);
        mul_swap(f * q, q, ny);
        mul_swap(f, q, ny);
        mul_assoc(f * q * q * q, ny, dy);
    }
}

pub(crate) proof fn shift_pairing(
    fx: real,
    fy: real,
    wu0: real,
    wu1: real,
    wu2: real,
    wv0: real,
    wv1: real,
    wv2: real,
    u00: real,
    u01: real,
    u02: real,
    u11: real,
    u12: real,
    u22: real,
    v00: real,
    v01: real,
    v02: real,
    v11: real,
    v12: real,
    v22: real,
    dx: real,
    dy: real,
    dz: real,
)
    ensures
        wu0 * (fx * u00 * dx + fx * u01 * dy + fx * u02 * dz)
            + wv0 * (fy * v00 * dx + fy * v01 * dy + fy * v02 * dz)
            + wu1 * (fx * u01 * dx + fx * u11 * dy + fx * u12 * dz)
            + wv1 * (fy * v01 * dx + fy * v11 * dy + fy * v12 * dz)
            + wu2 * (fx * u02 * dx + fx * u12 * dy + fx * u22 * dz)
            + wv2 * (fy * v02 * dx + fy * v12 * dy + fy * v22 * dz)
            == (fx * (wu0 * u00 + wu1 * u01 + wu2 * u02) + fy * (wv0 * v00 + wv1 * v01 + wv2 * v02))
            * dx + (fx * (wu0 * u01 + wu1 * u11 + wu2 * u12)
            + fy * (wv0 * v01 + wv1 * v11 + wv2 * v12)) * dy
            + (fx * (wu0 * u02 + wu1 * u12 + wu2 * u22) + fy * (wv0 * v02 + wv1 * v12 + wv2 * v22))
            * dz,
{
    assert(wu0 * (fx * u00 * dx + fx * u01 * dy + fx * u02 * dz)
        == fx * wu0 * u00 * dx + fx * wu0 * u01 * dy + fx * wu0 * u02 * dz) by {
        dist_add_left(wu0, fx * u00 * dx + fx * u01 * dy, fx * u02 * dz);
        dist_add_left(wu0, fx * u00 * dx, fx * u01 * dy);
        mul_comm(wu0, fx);
        mul_assoc(wu0, fx, u00);
        mul_assoc(wu0, fx * u00, dx);
        mul_comm(wu0, fx);
        mul_assoc(wu0, fx, u01);
        mul_assoc(wu0, fx * u01, dy);
        mul_comm(wu0, fx);
        mul_assoc(wu0, fx, u02);
        mul_assoc(wu0, fx * u02, dz);
    }
    assert(wv0 * (fy * v00 * dx + fy * v01 * dy + fy * v02 * dz)
        == fy * wv0 * v00 * dx + fy * wv0 * v01 * dy + fy * wv0 * v02 * dz) by {
        dist_add_left(wv0, fy * v00 * dx + fy * v01 * dy, fy * v02 * dz);
        dist_add_left(wv0, fy * v00 * dx, fy * v01 * dy);
        mul_comm(wv0, fy);
        mul_assoc(wv0, fy, v00);
        mul_assoc(wv0, fy * v00, dx);
        mul_comm(wv0, fy);
        mul_assoc(wv0, fy, v01);
        mul_assoc(wv0, fy * v01, dy);
        mul_comm(wv0, fy);
        mul_assoc(wv0, fy, v02);
        mul_assoc(wv0, fy * v02, dz);
    }
    assert(wu1 * (fx * u01 * dx + fx * u11 * dy + fx * u12 * dz)
        == fx * wu1 * u01 * dx + fx * wu1 * u11 * dy + fx * wu1 * u12 * dz) by {
        dist_add_left(wu1, fx * u01 * dx + fx * u11 * dy, fx * u12 * dz);
        dist_add_left(wu1, fx * u01 * dx, fx * u11 * dy);
        mul_comm(wu1, fx);
        mul_assoc(wu1, fx, u01);
        mul_assoc(wu1, fx * u01, dx);
        mul_comm(wu1, fx);
        mul_assoc(wu1, fx, u11);
        mul_assoc(wu1, fx * u11, dy);
        mul_comm(wu1, fx);
        mul_assoc(wu1, fx, u12);
        mul_assoc(wu1, fx * u12, dz);
    }
    assert(wv1 * (fy * v01 * dx + fy * v11 * dy + fy * v12 * dz)
        == fy * wv1 * v01 * dx + fy * wv1 * v11 * dy + fy * wv1 * v12 * dz) by {
        dist_add_left(wv1, fy * v01 * dx + fy * v11 * dy, fy * v12 * dz);
        dist_add_left(wv1, fy * v01 * dx, fy * v11 * dy);
        mul_comm(wv1, fy);
        mul_assoc(wv1, fy, v01);
        mul_assoc(wv1, fy * v01, dx);
        mul_comm(wv1, fy);
        mul_assoc(wv1, fy, v11);
        mul_assoc(wv1, fy * v11, dy);
        mul_comm(wv1, fy);
        mul_assoc(wv1, fy, v12);
        mul_assoc(wv1, fy * v12, dz);
    }
    assert(wu2 * (fx * u02 * dx + fx * u12 * dy + fx * u22 * dz)
        == fx * wu2 * u02 * dx + fx * wu2 * u12 * dy + fx * wu2 * u22 * dz) by {
        dist_add_left(wu2, fx * u02 * dx + fx * u12 * dy, fx * u22 * dz);
        dist_add_left(wu2, fx * u02 * dx, fx * u12 * dy);
        mul_comm(wu2, fx);
        mul_assoc(wu2, fx, u02);
        mul_assoc(wu2, fx * u02, dx);
        mul_comm(wu2, fx);
        mul_assoc(wu2, fx, u12);
        mul_assoc(wu2, fx * u12, dy);
        mul_comm(wu2, fx);
        mul_assoc(wu2, fx, u22);
        mul_assoc(wu2, fx * u22, dz);
    }
    assert(wv2 * (fy * v02 * dx + fy * v12 * dy + fy * v22 * dz)
        == fy * wv2 * v02 * dx + fy * wv2 * v12 * dy + fy * wv2 * v22 * dz) by {
        dist_add_left(wv2, fy * v02 * dx + fy * v12 * dy, fy * v22 * dz);
        dist_add_left(wv2, fy * v02 * dx, fy * v12 * dy);
        mul_comm(wv2, fy);
        mul_assoc(wv2, fy, v02);
        mul_assoc(wv2, fy * v02, dx);
        mul_comm(wv2, fy);
        mul_assoc(wv2, fy, v12);
        mul_assoc(wv2, fy * v12, dy);
        mul_comm(wv2, fy);
        mul_assoc(wv2, fy, v22);
        mul_assoc(wv2, fy * v22, dz);
    }
    assert(fx * (wu0 * u00 + wu1 * u01 + wu2 * u02)
        == fx * wu0 * u00 + fx * wu1 * u01 + fx * wu2 * u02) by {
        dist_add_left(fx, wu0 * u00 + wu1 * u01, wu2 * u02);
        dist_add_left(fx, wu0 * u00, wu1 * u01);
        mul_assoc(fx, wu0, u00);
        mul_assoc(fx, wu1, u01);
        mul_assoc(fx, wu2, u02);
    }
    assert(fy * (wv0 * v00 + wv1 * v01 + wv2 * v02)
        == fy * wv0 * v00 + fy * wv1 * v01 + fy * wv2 * v02) by {
        dist_add_left(fy, wv0 * v00 + wv1 * v01, wv2 * v02);
        dist_add_left(fy, wv0 * v00, wv1 * v01);
        mul_assoc(fy, wv0, v00);
        mul_assoc(fy, wv1, v01);
        mul_assoc(fy, wv2, v02);
    }
    assert((fx * (wu0 * u00 + wu1 * u01 + wu2 * u02) + fy * (wv0 * v00 + wv1 * v01 + wv2 * v02))
        * dx == fx * wu0 * u00 * dx + fx * wu1 * u01 * dx + fx * wu2 * u02 * dx
        + fy * wv0 * v00 * dx + fy * wv1 * v01 * dx + fy * wv2 * v02 * dx) by {
        mul_eq(fx * (wu0 * u00 + wu1 * u01 + wu2 * u02) + fy * (wv0 * v00 + wv1 * v01 + wv2 * v02),
            dx, fx * wu0 * u00 + fx * wu1 * u01 + fx * wu2 * u02 + fy * wv0 * v00 + fy * wv1 * v01
            + fy * wv2 * v02, dx);
        dist_add(fx * wu0 * u00 + fx * wu1 * u01 + fx * wu2 * u02 + fy * wv0 * v00 + fy * wv1 * v01,
            fy * wv2 * v02, dx);
        dist_add(fx * wu0 * u00 + fx * wu1 * u01 + fx * wu2 * u02 + fy * wv0 * v00, fy * wv1 * v01,
            dx);
        dist_add(fx * wu0 * u00 + fx * wu1 * u01 + fx * wu2 * u02, fy * wv0 * v00, dx);
        dist_add(fx * wu0 * u00 + fx * wu1 * u01, fx * wu2 * u02, dx);
        dist_add(fx * wu0 * u00, fx * wu1 * u01, dx);
    }
    assert(fx * (wu0 * u01 + wu1 * u11 + wu2 * u12)
        == fx * wu0 * u01 + fx * wu1 * u11 + fx * wu2 * u12) by {
        dist_add_left(fx, wu0 * u01 + wu1 * u11, wu2 * u12);
        dist_add_left(fx, wu0 * u01, wu1 * u11);
        mul_assoc(fx, wu0, u01);
        mul_assoc(fx, wu1, u11);
        mul_assoc(fx, wu2, u12);
    }
    assert(fy * (wv0 * v01 + wv1 * v11 + wv2 * v12)
        == fy * wv0 * v01 + fy * wv1 * v11 + fy * wv2 * v12) by {
        dist_add_left(fy, wv0 * v01 + wv1 * v11, wv2 * v12);
        dist_add_left(fy, wv0 * v01, wv1 * v11);
        mul_assoc(fy, wv0, v01);
        mul_assoc(fy, wv1, v11);
        mul_assoc(fy, wv2, v12);
    }
    assert((fx * (wu0 * u01 + wu1 * u11 + wu2 * u12) + fy * (wv0 * v01 + wv1 * v11 + wv2 * v12))
        * dy == fx * wu0 * u01 * dy + fx * wu1 * u11 * dy + fx * wu2 * u12 * dy
        + fy * wv0 * v01 * dy + fy * wv1 * v11 * dy + fy * wv2 * v12 * dy) by {
        mul_eq(fx * (wu0 * u01 + wu1 * u11 + wu2 * u12) + fy * (wv0 * v01 + wv1 * v11 + wv2 * v12),
            dy, fx * wu0 * u01 + fx * wu1 * u11 + fx * wu2 * u12 + fy * wv0 * v01 + fy * wv1 * v11
            + fy * wv2 * v12, dy);
        dist_add(fx * wu0 * u01 + fx * wu1 * u11 + fx * wu2 * u12 + fy * wv0 * v01 + fy * wv1 * v11,
            fy * wv2 * v12, dy);
        dist_add(fx * wu0 * u01 + fx * wu1 * u11 + fx * wu2 * u12 + fy * wv0 * v01, fy * wv1 * v11,
            dy);
        dist_add(fx * wu0 * u01 + fx * wu1 * u11 + fx * wu2 * u12, fy * wv0 * v01, dy);
        dist_add(fx * wu0 * u01 + fx * wu1 * u11, fx * wu2 * u12, dy);
        dist_add(fx * wu0 * u01, fx * wu1 * u11, dy);
    }
    assert(fx * (wu0 * u02 + wu1 * u12 + wu2 * u22)
        == fx * wu0 * u02 + fx * wu1 * u12 + fx * wu2 * u22) by {
        dist_add_left(fx, wu0 * u02 + wu1 * u12, wu2 * u22);
        dist_add_left(fx, wu0 * u02, wu1 * u12);
        mul_assoc(fx, wu0, u02);
        mul_assoc(fx, wu1, u12);
        mul_assoc(fx, wu2, u22);
    }
    assert(fy * (wv0 * v02 + wv1 * v12 + wv2 * v22)
        == fy * wv0 * v02 + fy * wv1 * v12 + fy * wv2 * v22) by {
        dist_add_left(fy, wv0 * v02 + wv1 * v12, wv2 * v22);
        dist_add_left(fy, wv0 * v02, wv1 * v12);
        mul_assoc(fy, wv0, v02);
        mul_assoc(fy, wv1, v12);
        mul_assoc(fy, wv2, v22);
    }
    assert((fx * (wu0 * u02 + wu1 * u12 + wu2 * u22) + fy * (wv0 * v02 + wv1 * v12 + wv2 * v22))
        * dz == fx * wu0 * u02 * dz + fx * wu1 * u12 * dz + fx * wu2 * u22 * dz
        + fy * wv0 * v02 * dz + fy * wv1 * v12 * dz + fy * wv2 * v22 * dz) by {
        mul_eq(fx * (wu0 * u02 + wu1 * u12 + wu2 * u22) + fy * (wv0 * v02 + wv1 * v12 + wv2 * v22),
            dz, fx * wu0 * u02 + fx * wu1 * u12 + fx * wu2 * u22 + fy * wv0 * v02 + fy * wv1 * v12
            + fy * wv2 * v22, dz);
        dist_add(fx * wu0 * u02 + fx * wu1 * u12 + fx * wu2 * u22 + fy * wv0 * v02 + fy * wv1 * v12,
            fy * wv2 * v22, dz);
        dist_add(fx * wu0 * u02 + fx * wu1 * u12 + fx * wu2 * u22 + fy * wv0 * v02, fy * wv1 * v12,
            dz);
        dist_add(fx * wu0 * u02 + fx * wu1 * u12 + fx * wu2 * u22, fy * wv0 * v02, dz);
        dist_add(fx * wu0 * u02 + fx * wu1 * u12, fx * wu2 * u22, dz);
        dist_add(fx * wu0 * u02, fx * wu1 * u12, dz);
    }
}

pub(crate) proof fn pairing_of_sum(
    wu0: real,
    wv0: real,
    wu1: real,
    wv1: real,
    wu2: real,
    wv2: real,
    au0: real,
    av0: real,
    au1: real,
    av1: real,
    au2: real,
    av2: real,
    bu0: real,
    bv0: real,
    bu1: real,
    bv1: real,
    bu2: real,
    bv2: real,
)
    ensures
        wu0 * (au0 + bu0) + wv0 * (av0 + bv0) + wu1 * (au1 + bu1) + wv1 * (av1 + bv1)
            + wu2 * (au2 + bu2) + wv2 * (av2 + bv2)
            == wu0 * au0 + wv0 * av0 + wu1 * au1 + wv1 * av1 + wu2 * au2 + wv2 * av2
            + (wu0 * bu0 + wv0 * bv0 + wu1 * bu1 + wv1 * bv1 + wu2 * bu2 + wv2 * bv2),
{
    assert(wu0 * (au0 + bu0) == wu0 * au0 + wu0 * bu0) by {
        dist_add_left(wu0, au0, bu0);
    }
    assert(wv0 * (av0 + bv0) == wv0 * av0 + wv0 * bv0) by {
        dist_add_left(wv0, av0, bv0);
    }
    assert(wu1 * (au1 + bu1) == wu1 * au1 + wu1 * bu1) by {
        dist_add_left(wu1, au1, bu1);
    }
    assert(wv1 * (av1 + bv1) == wv1 * av1 + wv1 * bv1) by {
        dist_add_left(wv1, av1, bv1);
    }
    assert(wu2 * (au2 + bu2) == wu2 * au2 + wu2 * bu2) by {
        dist_add_left(wu2, au2, bu2);
    }
    assert(wv2 * (av2 + bv2) == wv2 * av2 + wv2 * bv2) by {
        dist_add_left(wv2, av2, bv2);
    }
}

} // verus!
