//! The algebra behind the derivatives of the fisheye models. `i` stands for the
//! reciprocal of the distance from the axis, `b` for that of the squared distance
//! from the camera, and a name with `d` before it for a rate.
use crate::expr::algebra::{
    mul_comm, mul_assoc, mul_swap, mul_front, mul_eq, dist_add, dist_sub, dist_neg, dist_add_left,
    dist_sub_left, dist_neg_left,
};
use vstd::prelude::*;

verus! {

pub(crate) proof fn depth_relation(x: real, y: real, z: real, i: real, b: real)
    requires
        (x * x + y * y) * (i * i) == 1real,
        (x * x + y * y + z * z) * b == 1real,
    ensures
        z * z * (b * (i * i)) == i * i - b,
{
    assert((x * x + y * y) * (i * i) == x * x * i * i + y * y * i * i) by {
        dist_add(x * x, y * y, i * i);
        mul_assoc(x * x, i, i);
        mul_assoc(y * y, i, i);
    }
    assert((x * x + y * y + z * z) * b == x * x * b + y * y * b + z * z * b) by {
        dist_add(x * x + y * y, z * z, b);
        dist_add(x * x, y * y, b);
    }
    assert(b * (i * i) == i * i * b) by {
        mul_comm(b, i);
        mul_assoc(b, i, i);
        mul_swap(i, b, i);
    }
    assert(z * z * (b * (i * i)) == z * z * i * i * b) by {
        mul_eq(z * z, b * (i * i), z * z, i * i * b);
        mul_assoc(z * z, i, i);
        mul_assoc(z * z, i * i, b);
    }
    assert(x * x * i * i * b + y * y * i * i * b + z * z * i * i * b == i * i) by {
        mul_eq(i * i, (x * x + y * y + z * z) * b, i * i, 1real);
        mul_eq(i * i, (x * x + y * y + z * z) * b, i * i, x * x * b + y * y * b + z * z * b);
        dist_add_left(i * i, x * x * b + y * y * b, z * z * b);
        dist_add_left(i * i, x * x * b, y * y * b);
        mul_swap(i, i, x);
        mul_comm(i, x);
        mul_assoc(i * i, x, x);
        mul_swap(x * i, i, x);
        mul_swap(x, i, x);
        mul_assoc(i * i, x * x, b);
        mul_swap(i, i, y);
        mul_comm(i, y);
        mul_assoc(i * i, y, y);
        mul_swap(y * i, i, y);
        mul_swap(y, i, y);
        mul_assoc(i * i, y * y, b);
        mul_swap(i, i, z);
        mul_comm(i, z);
        mul_assoc(i * i, z, z);
        mul_swap(z * i, i, z);
        mul_swap(z, i, z);
        mul_assoc(i * i, z * z, b);
    }
    assert(x * x * i * i * b + y * y * i * i * b == b) by {
        mul_eq(b, (x * x + y * y) * (i * i), b, 1real);
        mul_eq(b, (x * x + y * y) * (i * i), b, x * x * i * i + y * y * i * i);
        dist_add_left(b, x * x * i * i, y * y * i * i);
        mul_comm(b, x);
        mul_assoc(b, x, x);
        mul_swap(x, b, x);
        mul_assoc(b, x * x, i);
        mul_swap(x * x, b, i);
        mul_assoc(b, x * x * i, i);
        mul_swap(x * x * i, b, i);
        mul_comm(b, y);
        mul_assoc(b, y, y);
        mul_swap(y, b, y);
        mul_assoc(b, y * y, i);
        mul_swap(y * y, b, i);
        mul_assoc(b, y * y * i, i);
        mul_swap(y * y * i, b, i);
    }
}

pub(crate) proof fn root_times_reciprocal(x: real, y: real, r: real, i: real)
    requires
        r * i == 1real,
        r * r == x * x + y * y,
    ensures
        (x * x + y * y) * (i * i) == 1real,
{
    assert((x * x + y * y) * (i * i) == x * x * i * i + y * y * i * i) by {
        dist_add(x * x, y * y, i * i);
        mul_assoc(x * x, i, i);
        mul_assoc(y * y, i, i);
    }
    assert(r * r * i * i == x * x * i * i + y * y * i * i) by {
        mul_eq(i * i, r * r, i * i, x * x + y * y);
        mul_swap(i, i, r);
        mul_comm(i, r);
        mul_assoc(i * i, r, r);
        mul_swap(r * i, i, r);
        mul_swap(r, i, r);
        dist_add_left(i * i, x * x, y * y);
        mul_swap(i, i, x);
        mul_comm(i, x);
        mul_assoc(i * i, x, x);
        mul_swap(x * i, i, x);
        mul_swap(x, i, x);
        mul_swap(i, i, y);
        mul_comm(i, y);
        mul_assoc(i * i, y, y);
        mul_swap(y * i, i, y);
        mul_swap(y, i, y);
    }
    assert(r * r * i * i == r * i) by {
        mul_eq(r * i, r * i, r * i, 1real);
        mul_swap(r, i, r);
        mul_assoc(r * i, r, i);
    }
}

pub(crate) proof fn distance_rate(k1: real, k2: real, k3: real, k4: real, t: real, dt: real)
    ensures
        dt * (1real + k1 * (t * t) + k2 * (t * t * (t * t)) + k3 * (t * t * (t * t * (t * t)))
            + k4 * (t * t * (t * t) * (t * t * (t * t))))
            + t * (k1 * (dt * t + t * dt) + k2
            * ((dt * t + t * dt) * (t * t) + t * t * (dt * t + t * dt))
            + k3 * ((dt * t + t * dt) * (t * t * (t * t))
            + t * t * ((dt * t + t * dt) * (t * t) + t * t * (dt * t + t * dt)))
            + k4 * (((dt * t + t * dt) * (t * t) + t * t * (dt * t + t * dt)) * (t * t * (t * t))
            + t * t * (t * t) * ((dt * t + t * dt) * (t * t) + t * t * (dt * t + t * dt))))
            == (1real + 3real * k1 * (t * t) + 5real * k2 * (t * t * (t * t))
            + 7real * k3 * (t * t * (t * t) * (t * t))
            + 9real * k4 * (t * t * (t * t) * (t * t * (t * t)))) * dt,
        dt * (1real + k1 * (t * t) + k2 * (t * t * (t * t)) + k3 * (t * t * (t * t) * (t * t))
            + k4 * (t * t * (t * t) * (t * t * (t * t))))
            + t * (k1 * (dt * t + t * dt) + k2
            * ((dt * t + t * dt) * (t * t) + t * t * (dt * t + t * dt))
            + k3 * (((dt * t + t * dt) * (t * t) + t * t * (dt * t + t * dt)) * (t * t)
            + t * t * (t * t) * (dt * t + t * dt))
            + k4 * (((dt * t + t * dt) * (t * t) + t * t * (dt * t + t * dt)) * (t * t * (t * t))
            + t * t * (t * t) * ((dt * t + t * dt) * (t * t) + t * t * (dt * t + t * dt))))
            == (1real + 3real * k1 * (t * t) + 5real * k2 * (t * t * (t * t))
            + 7real * k3 * (t * t * (t * t) * (t * t))
            + 9real * k4 * (t * t * (t * t) * (t * t * (t * t)))) * dt,
        1real + k1 * (t * t) + k2 * (t * t * (t * t)) + k3 * (t * t * (t * t * (t * t)))
            + k4 * (t * t * (t * t) * (t * t * (t * t)))
            == 1real + k1 * (t * t) + k2 * (t * t * (t * t)) + k3 * (t * t * (t * t) * (t * t))
            + k4 * (t * t * (t * t) * (t * t * (t * t))),
{
    assert(k1 * (t * t) == k1 * t * t) by {
        mul_assoc(k1, t, t);
    }
    assert(t * t * (t * t) == t * t * t * t) by {
        mul_assoc(t * t, t, t);
    }
    assert(k2 * (t * t * (t * t)) == k2 * t * t * t * t) by {
        mul_eq(k2, t * t * (t * t), k2, t * t * t * t);
        mul_assoc(k2, t, t);
        mul_assoc(k2, t * t, t);
        mul_assoc(k2, t * t * t, t);
    }
    assert(t * t * (t * t * (t * t)) == t * t * t * t * t * t) by {
        mul_eq(t * t, t * t * (t * t), t * t, t * t * t * t);
        mul_assoc(t * t, t, t);
        mul_assoc(t * t, t * t, t);
        mul_assoc(t * t, t * t * t, t);
    }
    assert(k3 * (t * t * (t * t * (t * t))) == k3 * t * t * t * t * t * t) by {
        mul_eq(k3, t * t * (t * t * (t * t)), k3, t * t * t * t * t * t);
        mul_assoc(k3, t, t);
        mul_assoc(k3, t * t, t);
        mul_assoc(k3, t * t * t, t);
        mul_assoc(k3, t * t * t * t, t);
        mul_assoc(k3, t * t * t * t * t, t);
    }
    assert(t * t * (t * t) * (t * t * (t * t)) == t * t * t * t * t * t * t * t) by {
        mul_eq(t * t * (t * t), t * t * (t * t), t * t * t * t, t * t * t * t);
        mul_assoc(t * t * t * t, t, t);
        mul_assoc(t * t * t * t, t * t, t);
        mul_assoc(t * t * t * t, t * t * t, t);
    }
    assert(k4 * (t * t * (t * t) * (t * t * (t * t))) == k4 * t * t * t * t * t * t * t * t) by {
        mul_eq(k4, t * t * (t * t) * (t * t * (t * t)), k4, t * t * t * t * t * t * t * t);
        mul_assoc(k4, t, t);
        mul_assoc(k4, t * t, t);
        mul_assoc(k4, t * t * t, t);
        mul_assoc(k4, t * t * t * t, t);
        mul_assoc(k4, t * t * t * t * t, t);
        mul_assoc(k4, t * t * t * t * t * t, t);
        mul_assoc(k4, t * t * t * t * t * t * t, t);
    }
    assert(dt * (1real + k1 * (t * t) + k2 * (t * t * (t * t)) + k3 * (t * t * (t * t * (t * t)))
        + k4 * (t * t * (t * t) * (t * t * (t * t))))
        == dt + k1 * t * t * dt + k2 * t * t * t * t * dt + k3 * t * t * t * t * t * t * dt
        + k4 * t * t * t * t * t * t * t * t * dt) by {
        mul_eq(dt, 1real + k1 * (t * t) + k2 * (t * t * (t * t)) + k3 * (t * t * (t * t * (t * t)))
            + k4 * (t * t * (t * t) * (t * t * (t * t))), dt,
            1real + k1 * t * t + k2 * t * t * t * t + k3 * t * t * t * t * t * t
            + k4 * t * t * t * t * t * t * t * t);
        dist_add_left(dt, 1real + k1 * t * t + k2 * t * t * t * t + k3 * t * t * t * t * t * t,
            k4 * t * t * t * t * t * t * t * t);
        dist_add_left(dt, 1real + k1 * t * t + k2 * t * t * t * t, k3 * t * t * t * t * t * t);
        dist_add_left(dt, 1real + k1 * t * t, k2 * t * t * t * t);
        dist_add_left(dt, 1real, k1 * t * t);
        mul_comm(dt, k1);
        mul_assoc(dt, k1, t);
        mul_swap(k1, dt, t);
        mul_assoc(dt, k1 * t, t);
        mul_swap(k1 * t, dt, t);
        mul_comm(dt, k2);
        mul_assoc(dt, k2, t);
        mul_swap(k2, dt, t);
        mul_assoc(dt, k2 * t, t);
        mul_swap(k2 * t, dt, t);
        mul_assoc(dt, k2 * t * t, t);
        mul_swap(k2 * t * t, dt, t);
        mul_assoc(dt, k2 * t * t * t, t);
        mul_swap(k2 * t * t * t, dt, t);
        mul_comm(dt, k3);
        mul_assoc(dt, k3, t);
        mul_swap(k3, dt, t);
        mul_assoc(dt, k3 * t, t);
        mul_swap(k3 * t, dt, t);
        mul_assoc(dt, k3 * t * t, t);
        mul_swap(k3 * t * t, dt, t);
        mul_assoc(dt, k3 * t * t * t, t);
        mul_swap(k3 * t * t * t, dt, t);
        mul_assoc(dt, k3 * t * t * t * t, t);
        mul_swap(k3 * t * t * t * t, dt, t);
        mul_assoc(dt, k3 * t * t * t * t * t, t);
        mul_swap(k3 * t * t * t * t * t, dt, t);
        mul_comm(dt, k4);
        mul_assoc(dt, k4, t);
        mul_swap(k4, dt, t);
        mul_assoc(dt, k4 * t, t);
        mul_swap(k4 * t, dt, t);
        mul_assoc(dt, k4 * t * t, t);
        mul_swap(k4 * t * t, dt, t);
        mul_assoc(dt, k4 * t * t * t, t);
        mul_swap(k4 * t * t * t, dt, t);
        mul_assoc(dt, k4 * t * t * t * t, t);
        mul_swap(k4 * t * t * t * t, dt, t);
        mul_assoc(dt, k4 * t * t * t * t * t, t);
        mul_swap(k4 * t * t * t * t * t, dt, t);
        mul_assoc(dt, k4 * t * t * t * t * t * t, t);
        mul_swap(k4 * t * t * t * t * t * t, dt, t);
        mul_assoc(dt, k4 * t * t * t * t * t * t * t, t);
        mul_swap(k4 * t * t * t * t * t * t * t, dt, t);
    }
    assert(dt * t == t * dt) by {
        mul_comm(dt, t);
    }
    assert(k1 * (dt * t + t * dt) == 2real * (k1 * t * dt)) by {
        mul_eq(k1, dt * t + t * dt, k1, 2real * (t * dt));
        mul_front(k1, 2real, t * dt);
        mul_assoc(k1, t, dt);
    }
    assert((dt * t + t * dt) * (t * t) == 2real * (t * t * t * dt)) by {
        mul_eq(dt * t + t * dt, t * t, 2real * (t * dt), t * t);
        mul_assoc(2real, t * dt, t * t);
        mul_swap(t, dt, t);
        mul_assoc(t * dt, t, t);
        mul_swap(t * t, dt, t);
    }
    assert(t * t * (dt * t + t * dt) == 2real * (t * t * t * dt)) by {
        mul_eq(t * t, dt * t + t * dt, t * t, 2real * (t * dt));
        mul_front(t * t, 2real, t * dt);
        mul_assoc(t * t, t, dt);
    }
    assert(k2 * ((dt * t + t * dt) * (t * t) + t * t * (dt * t + t * dt))
        == 4real * (k2 * t * t * t * dt)) by {
        mul_eq(k2, (dt * t + t * dt) * (t * t) + t * t * (dt * t + t * dt), k2,
            4real * (t * t * t * dt));
        mul_front(k2, 4real, t * t * t * dt);
        mul_assoc(k2, t, t);
        mul_assoc(k2, t * t, t);
        mul_assoc(k2, t * t * t, dt);
    }
    assert((dt * t + t * dt) * (t * t * (t * t)) == 2real * (t * t * t * t * t * dt)) by {
        mul_eq(dt * t + t * dt, t * t * (t * t), 2real * (t * dt), t * t * t * t);
        mul_assoc(2real, t * dt, t * t * t * t);
        mul_swap(t, dt, t);
        mul_assoc(t * dt, t, t);
        mul_swap(t * t, dt, t);
        mul_assoc(t * dt, t * t, t);
        mul_swap(t * t * t, dt, t);
        mul_assoc(t * dt, t * t * t, t);
        mul_swap(t * t * t * t, dt, t);
    }
    assert(t * t * ((dt * t + t * dt) * (t * t) + t * t * (dt * t + t * dt))
        == 4real * (t * t * t * t * t * dt)) by {
        mul_eq(t * t, (dt * t + t * dt) * (t * t) + t * t * (dt * t + t * dt), t * t,
            4real * (t * t * t * dt));
        mul_front(t * t, 4real, t * t * t * dt);
        mul_assoc(t * t, t, t);
        mul_assoc(t * t, t * t, t);
        mul_assoc(t * t, t * t * t, dt);
    }
    assert(k3 * ((dt * t + t * dt) * (t * t * (t * t))
        + t * t * ((dt * t + t * dt) * (t * t) + t * t * (dt * t + t * dt)))
        == 6real * (k3 * t * t * t * t * t * dt)) by {
        mul_eq(k3, (dt * t + t * dt) * (t * t * (t * t))
            + t * t * ((dt * t + t * dt) * (t * t) + t * t * (dt * t + t * dt)), k3,
            6real * (t * t * t * t * t * dt));
        mul_front(k3, 6real, t * t * t * t * t * dt);
        mul_assoc(k3, t, t);
        mul_assoc(k3, t * t, t);
        mul_assoc(k3, t * t * t, t);
        mul_assoc(k3, t * t * t * t, t);
        mul_assoc(k3, t * t * t * t * t, dt);
    }
    assert(((dt * t + t * dt) * (t * t) + t * t * (dt * t + t * dt)) * (t * t * (t * t))
        == 4real * (t * t * t * t * t * t * t * dt)) by {
        mul_eq((dt * t + t * dt) * (t * t) + t * t * (dt * t + t * dt), t * t * (t * t),
            4real * (t * t * t * dt), t * t * t * t);
        mul_assoc(4real, t * t * t * dt, t * t * t * t);
        mul_swap(t * t * t, dt, t);
        mul_assoc(t * t * t * dt, t, t);
        mul_swap(t * t * t * t, dt, t);
        mul_assoc(t * t * t * dt, t * t, t);
        mul_swap(t * t * t * t * t, dt, t);
        mul_assoc(t * t * t * dt, t * t * t, t);
        mul_swap(t * t * t * t * t * t, dt, t);
    }
    assert(t * t * (t * t) * ((dt * t + t * dt) * (t * t) + t * t * (dt * t + t * dt))
        == 4real * (t * t * t * t * t * t * t * dt)) by {
        mul_eq(t * t * (t * t), (dt * t + t * dt) * (t * t) + t * t * (dt * t + t * dt),
            t * t * t * t, 4real * (t * t * t * dt));
        mul_front(t * t * t * t, 4real, t * t * t * dt);
        mul_assoc(t * t * t * t, t, t);
        mul_assoc(t * t * t * t, t * t, t);
        mul_assoc(t * t * t * t, t * t * t, dt);
    }
    assert(k4 * (((dt * t + t * dt) * (t * t) + t * t * (dt * t + t * dt)) * (t * t * (t * t))
        + t * t * (t * t) * ((dt * t + t * dt) * (t * t) + t * t * (dt * t + t * dt)))
        == 8real * (k4 * t * t * t * t * t * t * t * dt)) by {
        mul_eq(k4, ((dt * t + t * dt) * (t * t) + t * t * (dt * t + t * dt)) * (t * t * (t * t))
            + t * t * (t * t) * ((dt * t + t * dt) * (t * t) + t * t * (dt * t + t * dt)), k4,
            8real * (t * t * t * t * t * t * t * dt));
        mul_front(k4, 8real, t * t * t * t * t * t * t * dt);
        mul_assoc(k4, t, t);
        mul_assoc(k4, t * t, t);
        mul_assoc(k4, t * t * t, t);
        mul_assoc(k4, t * t * t * t, t);
        mul_assoc(k4, t * t * t * t * t, t);
        mul_assoc(k4, t * t * t * t * t * t, t);
        mul_assoc(k4, t * t * t * t * t * t * t, dt);
    }
    assert(t * (k1 * (dt * t + t * dt)
        + k2 * ((dt * t + t * dt) * (t * t) + t * t * (dt * t + t * dt))
        + k3 * ((dt * t + t * dt) * (t * t * (t * t))
        + t * t * ((dt * t + t * dt) * (t * t) + t * t * (dt * t + t * dt)))
        + k4 * (((dt * t + t * dt) * (t * t) + t * t * (dt * t + t * dt)) * (t * t * (t * t))
        + t * t * (t * t) * ((dt * t + t * dt) * (t * t) + t * t * (dt * t + t * dt))))
        == 2real * (k1 * t * t * dt) + 4real * (k2 * t * t * t * t * dt)
        + 6real * (k3 * t * t * t * t * t * t * dt)
        + 8real * (k4 * t * t * t * t * t * t * t * t * dt)) by {
        mul_eq(t, k1 * (dt * t + t * dt)
            + k2 * ((dt * t + t * dt) * (t * t) + t * t * (dt * t + t * dt))
            + k3 * ((dt * t + t * dt) * (t * t * (t * t))
            + t * t * ((dt * t + t * dt) * (t * t) + t * t * (dt * t + t * dt)))
            + k4 * (((dt * t + t * dt) * (t * t) + t * t * (dt * t + t * dt)) * (t * t * (t * t))
            + t * t * (t * t) * ((dt * t + t * dt) * (t * t) + t * t * (dt * t + t * dt))), t,
            2real * (k1 * t * dt) + 4real * (k2 * t * t * t * dt)
            + 6real * (k3 * t * t * t * t * t * dt)
            + 8real * (k4 * t * t * t * t * t * t * t * dt));
        dist_add_left(t, 2real * (k1 * t * dt) + 4real * (k2 * t * t * t * dt)
            + 6real * (k3 * t * t * t * t * t * dt), 8real * (k4 * t * t * t * t * t * t * t * dt));
        dist_add_left(t, 2real * (k1 * t * dt) + 4real * (k2 * t * t * t * dt),
            6real * (k3 * t * t * t * t * t * dt));
        dist_add_left(t, 2real * (k1 * t * dt), 4real * (k2 * t * t * t * dt));
        mul_front(t, 2real, k1 * t * dt);
        mul_comm(t, k1);
        mul_assoc(t, k1, t);
        mul_assoc(t, k1 * t, dt);
        mul_front(t, 4real, k2 * t * t * t * dt);
        mul_comm(t, k2);
        mul_assoc(t, k2, t);
        mul_assoc(t, k2 * t, t);
        mul_assoc(t, k2 * t * t, t);
        mul_assoc(t, k2 * t * t * t, dt);
        mul_front(t, 6real, k3 * t * t * t * t * t * dt);
        mul_comm(t, k3);
        mul_assoc(t, k3, t);
        mul_assoc(t, k3 * t, t);
        mul_assoc(t, k3 * t * t, t);
        mul_assoc(t, k3 * t * t * t, t);
        mul_assoc(t, k3 * t * t * t * t, t);
        mul_assoc(t, k3 * t * t * t * t * t, dt);
        mul_front(t, 8real, k4 * t * t * t * t * t * t * t * dt);
        mul_comm(t, k4);
        mul_assoc(t, k4, t);
        mul_assoc(t, k4 * t, t);
        mul_assoc(t, k4 * t * t, t);
        mul_assoc(t, k4 * t * t * t, t);
        mul_assoc(t, k4 * t * t * t * t, t);
        mul_assoc(t, k4 * t * t * t * t * t, t);
        mul_assoc(t, k4 * t * t * t * t * t * t, t);
        mul_assoc(t, k4 * t * t * t * t * t * t * t, dt);
    }
    assert(3real * k1 * (t * t) == 3real * (k1 * t * t)) by {
        mul_assoc(3real, k1, t * t);
        mul_assoc(k1, t, t);
    }
    assert(5real * k2 * (t * t * (t * t)) == 5real * (k2 * t * t * t * t)) by {
        mul_eq(5real * k2, t * t * (t * t), 5real * k2, t * t * t * t);
        mul_assoc(5real, k2, t * t * t * t);
        mul_assoc(k2, t, t);
        mul_assoc(k2, t * t, t);
        mul_assoc(k2, t * t * t, t);
    }
    assert(t * t * (t * t) * (t * t) == t * t * t * t * t * t) by {
        mul_eq(t * t * (t * t), t * t, t * t * t * t, t * t);
        mul_assoc(t * t * t * t, t, t);
    }
    assert(7real * k3 * (t * t * (t * t) * (t * t)) == 7real * (k3 * t * t * t * t * t * t)) by {
        mul_eq(7real * k3, t * t * (t * t) * (t * t), 7real * k3, t * t * t * t * t * t);
        mul_assoc(7real, k3, t * t * t * t * t * t);
        mul_assoc(k3, t, t);
        mul_assoc(k3, t * t, t);
        mul_assoc(k3, t * t * t, t);
        mul_assoc(k3, t * t * t * t, t);
        mul_assoc(k3, t * t * t * t * t, t);
    }
    assert(9real * k4 * (t * t * (t * t) * (t * t * (t * t)))
        == 9real * (k4 * t * t * t * t * t * t * t * t)) by {
        mul_eq(9real * k4, t * t * (t * t) * (t * t * (t * t)), 9real * k4,
            t * t * t * t * t * t * t * t);
        mul_assoc(9real, k4, t * t * t * t * t * t * t * t);
        mul_assoc(k4, t, t);
        mul_assoc(k4, t * t, t);
        mul_assoc(k4, t * t * t, t);
        mul_assoc(k4, t * t * t * t, t);
        mul_assoc(k4, t * t * t * t * t, t);
        mul_assoc(k4, t * t * t * t * t * t, t);
        mul_assoc(k4, t * t * t * t * t * t * t, t);
    }
    assert((1real + 3real * k1 * (t * t) + 5real * k2 * (t * t * (t * t))
        + 7real * k3 * (t * t * (t * t) * (t * t))
        + 9real * k4 * (t * t * (t * t) * (t * t * (t * t)))) * dt
        == dt + 3real * (k1 * t * t * dt) + 5real * (k2 * t * t * t * t * dt)
        + 7real * (k3 * t * t * t * t * t * t * dt)
        + 9real * (k4 * t * t * t * t * t * t * t * t * dt)) by {
        mul_eq(1real + 3real * k1 * (t * t) + 5real * k2 * (t * t * (t * t))
            + 7real * k3 * (t * t * (t * t) * (t * t))
            + 9real * k4 * (t * t * (t * t) * (t * t * (t * t))), dt,
            1real + 3real * (k1 * t * t) + 5real * (k2 * t * t * t * t)
            + 7real * (k3 * t * t * t * t * t * t) + 9real * (k4 * t * t * t * t * t * t * t * t),
            dt);
        dist_add(1real + 3real * (k1 * t * t) + 5real * (k2 * t * t * t * t)
            + 7real * (k3 * t * t * t * t * t * t), 9real * (k4 * t * t * t * t * t * t * t * t),
            dt);
        dist_add(1real + 3real * (k1 * t * t) + 5real * (k2 * t * t * t * t),
            7real * (k3 * t * t * t * t * t * t), dt);
        dist_add(1real + 3real * (k1 * t * t), 5real * (k2 * t * t * t * t), dt);
        dist_add(1real, 3real * (k1 * t * t), dt);
        mul_assoc(3real, k1 * t * t, dt);
        mul_assoc(5real, k2 * t * t * t * t, dt);
        mul_assoc(7real, k3 * t * t * t * t * t * t, dt);
        mul_assoc(9real, k4 * t * t * t * t * t * t * t * t, dt);
    }
    assert(k3 * (t * t * (t * t) * (t * t)) == k3 * t * t * t * t * t * t) by {
        mul_eq(k3, t * t * (t * t) * (t * t), k3, t * t * t * t * t * t);
        mul_assoc(k3, t, t);
        mul_assoc(k3, t * t, t);
        mul_assoc(k3, t * t * t, t);
        mul_assoc(k3, t * t * t * t, t);
        mul_assoc(k3, t * t * t * t * t, t);
    }
    assert(dt * (1real + k1 * (t * t) + k2 * (t * t * (t * t)) + k3 * (t * t * (t * t) * (t * t))
        + k4 * (t * t * (t * t) * (t * t * (t * t))))
        == dt + k1 * t * t * dt + k2 * t * t * t * t * dt + k3 * t * t * t * t * t * t * dt
        + k4 * t * t * t * t * t * t * t * t * dt) by {
        mul_eq(dt, 1real + k1 * (t * t) + k2 * (t * t * (t * t)) + k3 * (t * t * (t * t) * (t * t))
            + k4 * (t * t * (t * t) * (t * t * (t * t))), dt,
            1real + k1 * t * t + k2 * t * t * t * t + k3 * t * t * t * t * t * t
            + k4 * t * t * t * t * t * t * t * t);
        dist_add_left(dt, 1real + k1 * t * t + k2 * t * t * t * t + k3 * t * t * t * t * t * t,
            k4 * t * t * t * t * t * t * t * t);
        dist_add_left(dt, 1real + k1 * t * t + k2 * t * t * t * t, k3 * t * t * t * t * t * t);
        dist_add_left(dt, 1real + k1 * t * t, k2 * t * t * t * t);
        dist_add_left(dt, 1real, k1 * t * t);
        mul_comm(dt, k1);
        mul_assoc(dt, k1, t);
        mul_swap(k1, dt, t);
        mul_assoc(dt, k1 * t, t);
        mul_swap(k1 * t, dt, t);
        mul_comm(dt, k2);
        mul_assoc(dt, k2, t);
        mul_swap(k2, dt, t);
        mul_assoc(dt, k2 * t, t);
        mul_swap(k2 * t, dt, t);
        mul_assoc(dt, k2 * t * t, t);
        mul_swap(k2 * t * t, dt, t);
        mul_assoc(dt, k2 * t * t * t, t);
        mul_swap(k2 * t * t * t, dt, t);
        mul_comm(dt, k3);
        mul_assoc(dt, k3, t);
        mul_swap(k3, dt, t);
        mul_assoc(dt, k3 * t, t);
        mul_swap(k3 * t, dt, t);
        mul_assoc(dt, k3 * t * t, t);
        mul_swap(k3 * t * t, dt, t);
        mul_assoc(dt, k3 * t * t * t, t);
        mul_swap(k3 * t * t * t, dt, t);
        mul_assoc(dt, k3 * t * t * t * t, t);
        mul_swap(k3 * t * t * t * t, dt, t);
        mul_assoc(dt, k3 * t * t * t * t * t, t);
        mul_swap(k3 * t * t * t * t * t, dt, t);
        mul_comm(dt, k4);
        mul_assoc(dt, k4, t);
        mul_swap(k4, dt, t);
        mul_assoc(dt, k4 * t, t);
        mul_swap(k4 * t, dt, t);
        mul_assoc(dt, k4 * t * t, t);
        mul_swap(k4 * t * t, dt, t);
        mul_assoc(dt, k4 * t * t * t, t);
        mul_swap(k4 * t * t * t, dt, t);
        mul_assoc(dt, k4 * t * t * t * t, t);
        mul_swap(k4 * t * t * t * t, dt, t);
        mul_assoc(dt, k4 * t * t * t * t * t, t);
        mul_swap(k4 * t * t * t * t * t, dt, t);
        mul_assoc(dt, k4 * t * t * t * t * t * t, t);
        mul_swap(k4 * t * t * t * t * t * t, dt, t);
        mul_assoc(dt, k4 * t * t * t * t * t * t * t, t);
        mul_swap(k4 * t * t * t * t * t * t * t, dt, t);
    }
    assert(((dt * t + t * dt) * (t * t) + t * t * (dt * t + t * dt)) * (t * t)
        == 4real * (t * t * t * t * t * dt)) by {
        mul_eq((dt * t + t * dt) * (t * t) + t * t * (dt * t + t * dt), t * t,
            4real * (t * t * t * dt), t * t);
        mul_assoc(4real, t * t * t * dt, t * t);
        mul_swap(t * t * t, dt, t);
        mul_assoc(t * t * t * dt, t, t);
        mul_swap(t * t * t * t, dt, t);
    }
    assert(t * t * (t * t) * (dt * t + t * dt) == 2real * (t * t * t * t * t * dt)) by {
        mul_eq(t * t * (t * t), dt * t + t * dt, t * t * t * t, 2real * (t * dt));
        mul_front(t * t * t * t, 2real, t * dt);
        mul_assoc(t * t * t * t, t, dt);
    }
    assert(k3 * (((dt * t + t * dt) * (t * t) + t * t * (dt * t + t * dt)) * (t * t)
        + t * t * (t * t) * (dt * t + t * dt)) == 6real * (k3 * t * t * t * t * t * dt)) by {
        mul_eq(k3, ((dt * t + t * dt) * (t * t) + t * t * (dt * t + t * dt)) * (t * t)
            + t * t * (t * t) * (dt * t + t * dt), k3, 6real * (t * t * t * t * t * dt));
        mul_front(k3, 6real, t * t * t * t * t * dt);
        mul_assoc(k3, t, t);
        mul_assoc(k3, t * t, t);
        mul_assoc(k3, t * t * t, t);
        mul_assoc(k3, t * t * t * t, t);
        mul_assoc(k3, t * t * t * t * t, dt);
    }
    assert(t * (k1 * (dt * t + t * dt)
        + k2 * ((dt * t + t * dt) * (t * t) + t * t * (dt * t + t * dt))
        + k3 * (((dt * t + t * dt) * (t * t) + t * t * (dt * t + t * dt)) * (t * t)
        + t * t * (t * t) * (dt * t + t * dt))
        + k4 * (((dt * t + t * dt) * (t * t) + t * t * (dt * t + t * dt)) * (t * t * (t * t))
        + t * t * (t * t) * ((dt * t + t * dt) * (t * t) + t * t * (dt * t + t * dt))))
        == 2real * (k1 * t * t * dt) + 4real * (k2 * t * t * t * t * dt)
        + 6real * (k3 * t * t * t * t * t * t * dt)
        + 8real * (k4 * t * t * t * t * t * t * t * t * dt)) by {
        mul_eq(t, k1 * (dt * t + t * dt)
            + k2 * ((dt * t + t * dt) * (t * t) + t * t * (dt * t + t * dt))
            + k3 * (((dt * t + t * dt) * (t * t) + t * t * (dt * t + t * dt)) * (t * t)
            + t * t * (t * t) * (dt * t + t * dt))
            + k4 * (((dt * t + t * dt) * (t * t) + t * t * (dt * t + t * dt)) * (t * t * (t * t))
            + t * t * (t * t) * ((dt * t + t * dt) * (t * t) + t * t * (dt * t + t * dt))), t,
            2real * (k1 * t * dt) + 4real * (k2 * t * t * t * dt)
            + 6real * (k3 * t * t * t * t * t * dt)
            + 8real * (k4 * t * t * t * t * t * t * t * dt));
        dist_add_left(t, 2real * (k1 * t * dt) + 4real * (k2 * t * t * t * dt)
            + 6real * (k3 * t * t * t * t * t * dt), 8real * (k4 * t * t * t * t * t * t * t * dt));
        dist_add_left(t, 2real * (k1 * t * dt) + 4real * (k2 * t * t * t * dt),
            6real * (k3 * t * t * t * t * t * dt));
        dist_add_left(t, 2real * (k1 * t * dt), 4real * (k2 * t * t * t * dt));
        mul_front(t, 2real, k1 * t * dt);
        mul_comm(t, k1);
        mul_assoc(t, k1, t);
        mul_assoc(t, k1 * t, dt);
        mul_front(t, 4real, k2 * t * t * t * dt);
        mul_comm(t, k2);
        mul_assoc(t, k2, t);
        mul_assoc(t, k2 * t, t);
        mul_assoc(t, k2 * t * t, t);
        mul_assoc(t, k2 * t * t * t, dt);
        mul_front(t, 6real, k3 * t * t * t * t * t * dt);
        mul_comm(t, k3);
        mul_assoc(t, k3, t);
        mul_assoc(t, k3 * t, t);
        mul_assoc(t, k3 * t * t, t);
        mul_assoc(t, k3 * t * t * t, t);
        mul_assoc(t, k3 * t * t * t * t, t);
        mul_assoc(t, k3 * t * t * t * t * t, dt);
        mul_front(t, 8real, k4 * t * t * t * t * t * t * t * dt);
        mul_comm(t, k4);
        mul_assoc(t, k4, t);
        mul_assoc(t, k4 * t, t);
        mul_assoc(t, k4 * t * t, t);
        mul_assoc(t, k4 * t * t * t, t);
        mul_assoc(t, k4 * t * t * t * t, t);
        mul_assoc(t, k4 * t * t * t * t * t, t);
        mul_assoc(t, k4 * t * t * t * t * t * t, t);
        mul_assoc(t, k4 * t * t * t * t * t * t * t, dt);
    }
}

pub(crate) proof fn slope_rate(k1: real, k2: real, k3: real, k4: real, t: real, dt: real)
    ensures
        3real * k1 * (dt * t + t * dt)
            + 5real * k2 * ((dt * t + t * dt) * (t * t) + t * t * (dt * t + t * dt))
            + 7real * k3 * (((dt * t + t * dt) * (t * t) + t * t * (dt * t + t * dt)) * (t * t)
            + t * t * (t * t) * (dt * t + t * dt))
            + 9real * k4 * (((dt * t + t * dt) * (t * t) + t * t * (dt * t + t * dt))
            * (t * t * (t * t)) + t * t * (t * t)
            * ((dt * t + t * dt) * (t * t) + t * t * (dt * t + t * dt)))
            == (6real * k1 * t + 20real * k2 * t * (t * t) + 42real * k3 * t * (t * t * (t * t))
            + 72real * k4 * t * (t * t * (t * t) * (t * t))) * dt,
{
    assert(dt * t == t * dt) by {
        mul_comm(dt, t);
    }
    assert(3real * k1 * (dt * t + t * dt) == 6real * (k1 * t * dt)) by {
        mul_eq(3real * k1, dt * t + t * dt, 3real * k1, 2real * (t * dt));
        mul_assoc(3real, k1, 2real * (t * dt));
        mul_front(k1, 2real, t * dt);
        mul_assoc(k1, t, dt);
    }
    assert((dt * t + t * dt) * (t * t) == 2real * (t * t * t * dt)) by {
        mul_eq(dt * t + t * dt, t * t, 2real * (t * dt), t * t);
        mul_assoc(2real, t * dt, t * t);
        mul_swap(t, dt, t);
        mul_assoc(t * dt, t, t);
        mul_swap(t * t, dt, t);
    }
    assert(t * t * (dt * t + t * dt) == 2real * (t * t * t * dt)) by {
        mul_eq(t * t, dt * t + t * dt, t * t, 2real * (t * dt));
        mul_front(t * t, 2real, t * dt);
        mul_assoc(t * t, t, dt);
    }
    assert(5real * k2 * ((dt * t + t * dt) * (t * t) + t * t * (dt * t + t * dt))
        == 20real * (k2 * t * t * t * dt)) by {
        mul_eq(5real * k2, (dt * t + t * dt) * (t * t) + t * t * (dt * t + t * dt), 5real * k2,
            4real * (t * t * t * dt));
        mul_assoc(5real, k2, 4real * (t * t * t * dt));
        mul_front(k2, 4real, t * t * t * dt);
        mul_assoc(k2, t, t);
        mul_assoc(k2, t * t, t);
        mul_assoc(k2, t * t * t, dt);
    }
    assert(((dt * t + t * dt) * (t * t) + t * t * (dt * t + t * dt)) * (t * t)
        == 4real * (t * t * t * t * t * dt)) by {
        mul_eq((dt * t + t * dt) * (t * t) + t * t * (dt * t + t * dt), t * t,
            4real * (t * t * t * dt), t * t);
        mul_assoc(4real, t * t * t * dt, t * t);
        mul_swap(t * t * t, dt, t);
        mul_assoc(t * t * t * dt, t, t);
        mul_swap(t * t * t * t, dt, t);
    }
    assert(t * t * (t * t) == t * t * t * t) by {
        mul_assoc(t * t, t, t);
    }
    assert(t * t * (t * t) * (dt * t + t * dt) == 2real * (t * t * t * t * t * dt)) by {
        mul_eq(t * t * (t * t), dt * t + t * dt, t * t * t * t, 2real * (t * dt));
        mul_front(t * t * t * t, 2real, t * dt);
        mul_assoc(t * t * t * t, t, dt);
    }
    assert(7real * k3 * (((dt * t + t * dt) * (t * t) + t * t * (dt * t + t * dt)) * (t * t)
        + t * t * (t * t) * (dt * t + t * dt)) == 42real * (k3 * t * t * t * t * t * dt)) by {
        mul_eq(7real * k3, ((dt * t + t * dt) * (t * t) + t * t * (dt * t + t * dt)) * (t * t)
            + t * t * (t * t) * (dt * t + t * dt), 7real * k3, 6real * (t * t * t * t * t * dt));
        mul_assoc(7real, k3, 6real * (t * t * t * t * t * dt));
        mul_front(k3, 6real, t * t * t * t * t * dt);
        mul_assoc(k3, t, t);
        mul_assoc(k3, t * t, t);
        mul_assoc(k3, t * t * t, t);
        mul_assoc(k3, t * t * t * t, t);
        mul_assoc(k3, t * t * t * t * t, dt);
    }
    assert(((dt * t + t * dt) * (t * t) + t * t * (dt * t + t * dt)) * (t * t * (t * t))
        == 4real * (t * t * t * t * t * t * t * dt)) by {
        mul_eq((dt * t + t * dt) * (t * t) + t * t * (dt * t + t * dt), t * t * (t * t),
            4real * (t * t * t * dt), t * t * t * t);
        mul_assoc(4real, t * t * t * dt, t * t * t * t);
        mul_swap(t * t * t, dt, t);
        mul_assoc(t * t * t * dt, t, t);
        mul_swap(t * t * t * t, dt, t);
        mul_assoc(t * t * t * dt, t * t, t);
        mul_swap(t * t * t * t * t, dt, t);
        mul_assoc(t * t * t * dt, t * t * t, t);
        mul_swap(t * t * t * t * t * t, dt, t);
    }
    assert(t * t * (t * t) * ((dt * t + t * dt) * (t * t) + t * t * (dt * t + t * dt))
        == 4real * (t * t * t * t * t * t * t * dt)) by {
        mul_eq(t * t * (t * t), (dt * t + t * dt) * (t * t) + t * t * (dt * t + t * dt),
            t * t * t * t, 4real * (t * t * t * dt));
        mul_front(t * t * t * t, 4real, t * t * t * dt);
        mul_assoc(t * t * t * t, t, t);
        mul_assoc(t * t * t * t, t * t, t);
        mul_assoc(t * t * t * t, t * t * t, dt);
    }
    assert(9real * k4 * (((dt * t + t * dt) * (t * t) + t * t * (dt * t + t * dt))
        * (t * t * (t * t)) + t * t * (t * t)
        * ((dt * t + t * dt) * (t * t) + t * t * (dt * t + t * dt)))
        == 72real * (k4 * t * t * t * t * t * t * t * dt)) by {
        mul_eq(9real * k4, ((dt * t + t * dt) * (t * t) + t * t * (dt * t + t * dt))
            * (t * t * (t * t)) + t * t * (t * t)
            * ((dt * t + t * dt) * (t * t) + t * t * (dt * t + t * dt)), 9real * k4,
            8real * (t * t * t * t * t * t * t * dt));
        mul_assoc(9real, k4, 8real * (t * t * t * t * t * t * t * dt));
        mul_front(k4, 8real, t * t * t * t * t * t * t * dt);
        mul_assoc(k4, t, t);
        mul_assoc(k4, t * t, t);
        mul_assoc(k4, t * t * t, t);
        mul_assoc(k4, t * t * t * t, t);
        mul_assoc(k4, t * t * t * t * t, t);
        mul_assoc(k4, t * t * t * t * t * t, t);
        mul_assoc(k4, t * t * t * t * t * t * t, dt);
    }
    assert(6real * k1 * t == 6real * (k1 * t)) by {
        mul_assoc(6real, k1, t);
    }
    assert(20real * k2 * t == 20real * (k2 * t)) by {
        mul_assoc(20real, k2, t);
    }
    assert(20real * k2 * t * (t * t) == 20real * (k2 * t * t * t)) by {
        mul_eq(20real * k2 * t, t * t, 20real * (k2 * t), t * t);
        mul_assoc(20real, k2 * t, t * t);
        mul_assoc(k2 * t, t, t);
    }
    assert(42real * k3 * t == 42real * (k3 * t)) by {
        mul_assoc(42real, k3, t);
    }
    assert(42real * k3 * t * (t * t * (t * t)) == 42real * (k3 * t * t * t * t * t)) by {
        mul_eq(42real * k3 * t, t * t * (t * t), 42real * (k3 * t), t * t * t * t);
        mul_assoc(42real, k3 * t, t * t * t * t);
        mul_assoc(k3 * t, t, t);
        mul_assoc(k3 * t, t * t, t);
        mul_assoc(k3 * t, t * t * t, t);
    }
    assert(72real * k4 * t == 72real * (k4 * t)) by {
        mul_assoc(72real, k4, t);
    }
    assert(t * t * (t * t) * (t * t) == t * t * t * t * t * t) by {
        mul_eq(t * t * (t * t), t * t, t * t * t * t, t * t);
        mul_assoc(t * t * t * t, t, t);
    }
    assert(72real * k4 * t * (t * t * (t * t) * (t * t))
        == 72real * (k4 * t * t * t * t * t * t * t)) by {
        mul_eq(72real * k4 * t, t * t * (t * t) * (t * t), 72real * (k4 * t),
            t * t * t * t * t * t);
        mul_assoc(72real, k4 * t, t * t * t * t * t * t);
        mul_assoc(k4 * t, t, t);
        mul_assoc(k4 * t, t * t, t);
        mul_assoc(k4 * t, t * t * t, t);
        mul_assoc(k4 * t, t * t * t * t, t);
        mul_assoc(k4 * t, t * t * t * t * t, t);
    }
    assert((6real * k1 * t + 20real * k2 * t * (t * t) + 42real * k3 * t * (t * t * (t * t))
        + 72real * k4 * t * (t * t * (t * t) * (t * t))) * dt
        == 6real * (k1 * t * dt) + 20real * (k2 * t * t * t * dt)
        + 42real * (k3 * t * t * t * t * t * dt)
        + 72real * (k4 * t * t * t * t * t * t * t * dt)) by {
        mul_eq(6real * k1 * t + 20real * k2 * t * (t * t) + 42real * k3 * t * (t * t * (t * t))
            + 72real * k4 * t * (t * t * (t * t) * (t * t)), dt,
            6real * (k1 * t) + 20real * (k2 * t * t * t) + 42real * (k3 * t * t * t * t * t)
            + 72real * (k4 * t * t * t * t * t * t * t), dt);
        dist_add(6real * (k1 * t) + 20real * (k2 * t * t * t) + 42real * (k3 * t * t * t * t * t),
            72real * (k4 * t * t * t * t * t * t * t), dt);
        dist_add(6real * (k1 * t) + 20real * (k2 * t * t * t), 42real * (k3 * t * t * t * t * t),
            dt);
        dist_add(6real * (k1 * t), 20real * (k2 * t * t * t), dt);
        mul_assoc(6real, k1 * t, dt);
        mul_assoc(20real, k2 * t * t * t, dt);
        mul_assoc(42real, k3 * t * t * t * t * t, dt);
        mul_assoc(72real, k4 * t * t * t * t * t * t * t, dt);
    }
}

pub(crate) proof fn angle_rate(
    x: real,
    y: real,
    z: real,
    r: real,
    i: real,
    b: real,
    dx: real,
    dy: real,
    dz: real,
    dr: real,
)
    requires
        2real * dr == (dx * x + x * dx + (dy * y + y * dy)) * i,
    ensures
        (z * dr - r * dz) * b == x * z * (b * i) * dx + y * z * (b * i) * dy + (-r) * b * dz,
{
    assert(dx * x == x * dx) by {
        mul_comm(dx, x);
    }
    assert(dy * y == y * dy) by {
        mul_comm(dy, y);
    }
    assert((dx * x + x * dx + (dy * y + y * dy)) * i
        == 2real * (x * i * dx) + 2real * (y * i * dy)) by {
        mul_eq(dx * x + x * dx + (dy * y + y * dy), i, 2real * (x * dx) + 2real * (y * dy), i);
        dist_add(2real * (x * dx), 2real * (y * dy), i);
        mul_assoc(2real, x * dx, i);
        mul_swap(x, dx, i);
        mul_assoc(2real, y * dy, i);
        mul_swap(y, dy, i);
    }
    assert((z * dr - r * dz) * b == z * b * dr - r * b * dz) by {
        dist_sub(z * dr, r * dz, b);
        mul_swap(z, dr, b);
        mul_swap(r, dz, b);
    }
    assert(b * i == i * b) by {
        mul_comm(b, i);
    }
    assert(x * z * (b * i) == x * z * i * b) by {
        mul_eq(x * z, b * i, x * z, i * b);
        mul_assoc(x * z, i, b);
    }
    assert(x * z * (b * i) * dx == x * z * i * b * dx) by {
        mul_eq(x * z * (b * i), dx, x * z * i * b, dx);
    }
    assert(y * z * (b * i) == y * z * i * b) by {
        mul_eq(y * z, b * i, y * z, i * b);
        mul_assoc(y * z, i, b);
    }
    assert(y * z * (b * i) * dy == y * z * i * b * dy) by {
        mul_eq(y * z * (b * i), dy, y * z * i * b, dy);
    }
    assert((-r) * b == -(r * b)) by {
        dist_neg(r, b);
    }
    assert((-r) * b * dz == -(r * b * dz)) by {
        mul_eq((-r) * b, dz, -(r * b), dz);
        dist_neg(r * b, dz);
    }
    assert(2real * (z * b * dr) == 2real * (x * z * i * b * dx) + 2real * (y * z * i * b * dy)) by {
        mul_eq(z * b, 2real * dr, z * b, (dx * x + x * dx + (dy * y + y * dy)) * i);
        mul_front(z * b, 2real, dr);
        mul_eq(z * b, (dx * x + x * dx + (dy * y + y * dy)) * i, z * b,
            2real * (x * i * dx) + 2real * (y * i * dy));
        dist_add_left(z * b, 2real * (x * i * dx), 2real * (y * i * dy));
        mul_front(z * b, 2real, x * i * dx);
        mul_swap(z, b, x);
        mul_comm(z, x);
        mul_assoc(z * b, x, i);
        mul_swap(x * z, b, i);
        mul_assoc(z * b, x * i, dx);
        mul_front(z * b, 2real, y * i * dy);
        mul_swap(z, b, y);
        mul_comm(z, y);
        mul_assoc(z * b, y, i);
        mul_swap(y * z, b, i);
        mul_assoc(z * b, y * i, dy);
    }
}

pub(crate) proof fn direction_x_rate(
    x: real,
    y: real,
    i: real,
    dx: real,
    dy: real,
    dr: real,
    di: real,
)
    requires
        2real * dr == (dx * x + x * dx + (dy * y + y * dy)) * i,
        di == -(dr * (i * i)),
        (x * x + y * y) * (i * i) == 1real,
    ensures
        dx * i + x * di == y * y * (i * i * i) * dx + (-(x * y)) * (i * i * i) * dy,
{
    assert(dx * x == x * dx) by {
        mul_comm(dx, x);
    }
    assert(dy * y == y * dy) by {
        mul_comm(dy, y);
    }
    assert((dx * x + x * dx + (dy * y + y * dy)) * i
        == 2real * (x * i * dx) + 2real * (y * i * dy)) by {
        mul_eq(dx * x + x * dx + (dy * y + y * dy), i, 2real * (x * dx) + 2real * (y * dy), i);
        dist_add(2real * (x * dx), 2real * (y * dy), i);
        mul_assoc(2real, x * dx, i);
        mul_swap(x, dx, i);
        mul_assoc(2real, y * dy, i);
        mul_swap(y, dy, i);
    }
    assert(dr * (i * i) == i * i * dr) by {
        mul_comm(dr, i);
        mul_assoc(dr, i, i);
        mul_swap(i, dr, i);
    }
    assert((x * x + y * y) * (i * i) == x * x * i * i + y * y * i * i) by {
        dist_add(x * x, y * y, i * i);
        mul_assoc(x * x, i, i);
        mul_assoc(y * y, i, i);
    }
    assert(dx * i == i * dx) by {
        mul_comm(dx, i);
    }
    assert(y * y * (i * i * i) == y * y * i * i * i) by {
        mul_assoc(y * y, i, i);
        mul_assoc(y * y, i * i, i);
    }
    assert(y * y * (i * i * i) * dx == y * y * i * i * i * dx) by {
        mul_eq(y * y * (i * i * i), dx, y * y * i * i * i, dx);
    }
    assert((-(x * y)) * (i * i * i) == -(x * y * i * i * i)) by {
        dist_neg(x * y, i * i * i);
        mul_assoc(x * y, i, i);
        mul_assoc(x * y, i * i, i);
    }
    assert((-(x * y)) * (i * i * i) * dy == -(x * y * i * i * i * dy)) by {
        mul_eq((-(x * y)) * (i * i * i), dy, -(x * y * i * i * i), dy);
        dist_neg(x * y * i * i * i, dy);
    }
    assert(2real * (x * i * i * dr)
        == 2real * (x * x * i * i * i * dx) + 2real * (x * y * i * i * i * dy)) by {
        mul_eq(x * i * i, 2real * dr, x * i * i, (dx * x + x * dx + (dy * y + y * dy)) * i);
        mul_front(x * i * i, 2real, dr);
        mul_eq(x * i * i, (dx * x + x * dx + (dy * y + y * dy)) * i, x * i * i,
            2real * (x * i * dx) + 2real * (y * i * dy));
        dist_add_left(x * i * i, 2real * (x * i * dx), 2real * (y * i * dy));
        mul_front(x * i * i, 2real, x * i * dx);
        mul_swap(x * i, i, x);
        mul_swap(x, i, x);
        mul_assoc(x * i * i, x, i);
        mul_assoc(x * i * i, x * i, dx);
        mul_front(x * i * i, 2real, y * i * dy);
        mul_swap(x * i, i, y);
        mul_swap(x, i, y);
        mul_assoc(x * i * i, y, i);
        mul_assoc(x * i * i, y * i, dy);
    }
    assert(x * di == -(x * i * i * dr)) by {
        mul_eq(x, di, x, -(dr * (i * i)));
        mul_eq(x, -(dr * (i * i)), x, -(i * i * dr));
        dist_neg_left(x, i * i * dr);
        mul_assoc(x, i, i);
        mul_assoc(x, i * i, dr);
    }
    assert(x * x * i * i * i * dx + y * y * i * i * i * dx == i * dx) by {
        mul_eq(i * dx, (x * x + y * y) * (i * i), i * dx, 1real);
        mul_eq(i * dx, (x * x + y * y) * (i * i), i * dx, x * x * i * i + y * y * i * i);
        dist_add_left(i * dx, x * x * i * i, y * y * i * i);
        mul_swap(i, dx, x);
        mul_comm(i, x);
        mul_assoc(i * dx, x, x);
        mul_swap(x * i, dx, x);
        mul_swap(x, i, x);
        mul_assoc(i * dx, x * x, i);
        mul_swap(x * x * i, dx, i);
        mul_assoc(i * dx, x * x * i, i);
        mul_swap(x * x * i * i, dx, i);
        mul_swap(i, dx, y);
        mul_comm(i, y);
        mul_assoc(i * dx, y, y);
        mul_swap(y * i, dx, y);
        mul_swap(y, i, y);
        mul_assoc(i * dx, y * y, i);
        mul_swap(y * y * i, dx, i);
        mul_assoc(i * dx, y * y * i, i);
        mul_swap(y * y * i * i, dx, i);
    }
}

pub(crate) proof fn direction_y_rate(
    x: real,
    y: real,
    i: real,
    dx: real,
    dy: real,
    dr: real,
    di: real,
)
    requires
        2real * dr == (dx * x + x * dx + (dy * y + y * dy)) * i,
        di == -(dr * (i * i)),
        (x * x + y * y) * (i * i) == 1real,
    ensures
        dy * i + y * di == (-(x * y)) * (i * i * i) * dx + x * x * (i * i * i) * dy,
{
    assert(dx * x == x * dx) by {
        mul_comm(dx, x);
    }
    assert(dy * y == y * dy) by {
        mul_comm(dy, y);
    }
    assert((dx * x + x * dx + (dy * y + y * dy)) * i
        == 2real * (x * i * dx) + 2real * (y * i * dy)) by {
        mul_eq(dx * x + x * dx + (dy * y + y * dy), i, 2real * (x * dx) + 2real * (y * dy), i);
        dist_add(2real * (x * dx), 2real * (y * dy), i);
        mul_assoc(2real, x * dx, i);
        mul_swap(x, dx, i);
        mul_assoc(2real, y * dy, i);
        mul_swap(y, dy, i);
    }
    assert(dr * (i * i) == i * i * dr) by {
        mul_comm(dr, i);
        mul_assoc(dr, i, i);
        mul_swap(i, dr, i);
    }
    assert((x * x + y * y) * (i * i) == x * x * i * i + y * y * i * i) by {
        dist_add(x * x, y * y, i * i);
        mul_assoc(x * x, i, i);
        mul_assoc(y * y, i, i);
    }
    assert(dy * i == i * dy) by {
        mul_comm(dy, i);
    }
    assert((-(x * y)) * (i * i * i) == -(x * y * i * i * i)) by {
        dist_neg(x * y, i * i * i);
        mul_assoc(x * y, i, i);
        mul_assoc(x * y, i * i, i);
    }
    assert((-(x * y)) * (i * i * i) * dx == -(x * y * i * i * i * dx)) by {
        mul_eq((-(x * y)) * (i * i * i), dx, -(x * y * i * i * i), dx);
        dist_neg(x * y * i * i * i, dx);
    }
    assert(x * x * (i * i * i) == x * x * i * i * i) by {
        mul_assoc(x * x, i, i);
        mul_assoc(x * x, i * i, i);
    }
    assert(x * x * (i * i * i) * dy == x * x * i * i * i * dy) by {
        mul_eq(x * x * (i * i * i), dy, x * x * i * i * i, dy);
    }
    assert(2real * (y * i * i * dr)
        == 2real * (x * y * i * i * i * dx) + 2real * (y * y * i * i * i * dy)) by {
        mul_eq(y * i * i, 2real * dr, y * i * i, (dx * x + x * dx + (dy * y + y * dy)) * i);
        mul_front(y * i * i, 2real, dr);
        mul_eq(y * i * i, (dx * x + x * dx + (dy * y + y * dy)) * i, y * i * i,
            2real * (x * i * dx) + 2real * (y * i * dy));
        dist_add_left(y * i * i, 2real * (x * i * dx), 2real * (y * i * dy));
        mul_front(y * i * i, 2real, x * i * dx);
        mul_swap(y * i, i, x);
        mul_swap(y, i, x);
        mul_comm(y, x);
        mul_assoc(y * i * i, x, i);
        mul_assoc(y * i * i, x * i, dx);
        mul_front(y * i * i, 2real, y * i * dy);
        mul_swap(y * i, i, y);
        mul_swap(y, i, y);
        mul_assoc(y * i * i, y, i);
        mul_assoc(y * i * i, y * i, dy);
    }
    assert(y * di == -(y * i * i * dr)) by {
        mul_eq(y, di, y, -(dr * (i * i)));
        mul_eq(y, -(dr * (i * i)), y, -(i * i * dr));
        dist_neg_left(y, i * i * dr);
        mul_assoc(y, i, i);
        mul_assoc(y, i * i, dr);
    }
    assert(x * x * i * i * i * dy + y * y * i * i * i * dy == i * dy) by {
        mul_eq(i * dy, (x * x + y * y) * (i * i), i * dy, 1real);
        mul_eq(i * dy, (x * x + y * y) * (i * i), i * dy, x * x * i * i + y * y * i * i);
        dist_add_left(i * dy, x * x * i * i, y * y * i * i);
        mul_swap(i, dy, x);
        mul_comm(i, x);
        mul_assoc(i * dy, x, x);
        mul_swap(x * i, dy, x);
        mul_swap(x, i, x);
        mul_assoc(i * dy, x * x, i);
        mul_swap(x * x * i, dy, i);
        mul_assoc(i * dy, x * x * i, i);
        mul_swap(x * x * i * i, dy, i);
        mul_swap(i, dy, y);
        mul_comm(i, y);
        mul_assoc(i * dy, y, y);
        mul_swap(y * i, dy, y);
        mul_swap(y, i, y);
        mul_assoc(i * dy, y * y, i);
        mul_swap(y * y * i, dy, i);
        mul_assoc(i * dy, y * y * i, i);
        mul_swap(y * y * i * i, dy, i);
    }
}

pub(crate) proof fn bend_xx_rate(x: real, y: real, i: real, dx: real, dy: real, dr: real, di: real)
    requires
        2real * dr == (dx * x + x * dx + (dy * y + y * dy)) * i,
        di == -(dr * (i * i)),
        (x * x + y * y) * (i * i) == 1real,
    ensures
        (dy * y + y * dy) * (i * i * i) + y * y * ((di * i + i * di) * i + i * i * di)
            == (0real - 3real) * x * y * y * (i * i * i * i * i) * dx
            + y * (2real * x * x - y * y) * (i * i * i * i * i) * dy,
{
    assert(dx * x == x * dx) by {
        mul_comm(dx, x);
    }
    assert(dy * y == y * dy) by {
        mul_comm(dy, y);
    }
    assert((dx * x + x * dx + (dy * y + y * dy)) * i
        == 2real * (x * i * dx) + 2real * (y * i * dy)) by {
        mul_eq(dx * x + x * dx + (dy * y + y * dy), i, 2real * (x * dx) + 2real * (y * dy), i);
        dist_add(2real * (x * dx), 2real * (y * dy), i);
        mul_assoc(2real, x * dx, i);
        mul_swap(x, dx, i);
        mul_assoc(2real, y * dy, i);
        mul_swap(y, dy, i);
    }
    assert(dr * (i * i) == i * i * dr) by {
        mul_comm(dr, i);
        mul_assoc(dr, i, i);
        mul_swap(i, dr, i);
    }
    assert((x * x + y * y) * (i * i) == x * x * i * i + y * y * i * i) by {
        dist_add(x * x, y * y, i * i);
        mul_assoc(x * x, i, i);
        mul_assoc(y * y, i, i);
    }
    assert((dy * y + y * dy) * (i * i * i) == 2real * (y * i * i * i * dy)) by {
        mul_eq(dy * y + y * dy, i * i * i, 2real * (y * dy), i * i * i);
        mul_assoc(2real, y * dy, i * i * i);
        mul_swap(y, dy, i);
        mul_assoc(y * dy, i, i);
        mul_swap(y * i, dy, i);
        mul_assoc(y * dy, i * i, i);
        mul_swap(y * i * i, dy, i);
    }
    assert(di * i == i * di) by {
        mul_comm(di, i);
    }
    assert((di * i + i * di) * i == 2real * (i * i * di)) by {
        mul_eq(di * i + i * di, i, 2real * (i * di), i);
        mul_assoc(2real, i * di, i);
        mul_swap(i, di, i);
    }
    assert(y * y * ((di * i + i * di) * i + i * i * di) == 3real * (y * y * i * i * di)) by {
        mul_eq(y * y, (di * i + i * di) * i + i * i * di, y * y, 3real * (i * i * di));
        mul_front(y * y, 3real, i * i * di);
        mul_assoc(y * y, i, i);
        mul_assoc(y * y, i * i, di);
    }
    assert((0real - 3real) * x == -(3real * x)) by {
        mul_eq(0real - 3real, x, -(3real), x);
        dist_neg(3real, x);
    }
    assert((0real - 3real) * x * y == -(3real * (x * y))) by {
        mul_eq((0real - 3real) * x, y, -(3real * x), y);
        dist_neg(3real * x, y);
        mul_assoc(3real, x, y);
    }
    assert((0real - 3real) * x * y * y == -(3real * (x * y * y))) by {
        mul_eq((0real - 3real) * x * y, y, -(3real * (x * y)), y);
        dist_neg(3real * (x * y), y);
        mul_assoc(3real, x * y, y);
    }
    assert((0real - 3real) * x * y * y * (i * i * i * i * i)
        == -(3real * (x * y * y * i * i * i * i * i))) by {
        mul_eq((0real - 3real) * x * y * y, i * i * i * i * i, -(3real * (x * y * y)),
            i * i * i * i * i);
        dist_neg(3real * (x * y * y), i * i * i * i * i);
        mul_assoc(3real, x * y * y, i * i * i * i * i);
        mul_assoc(x * y * y, i, i);
        mul_assoc(x * y * y, i * i, i);
        mul_assoc(x * y * y, i * i * i, i);
        mul_assoc(x * y * y, i * i * i * i, i);
    }
    assert((0real - 3real) * x * y * y * (i * i * i * i * i) * dx
        == -(3real * (x * y * y * i * i * i * i * i * dx))) by {
        mul_eq((0real - 3real) * x * y * y * (i * i * i * i * i), dx,
            -(3real * (x * y * y * i * i * i * i * i)), dx);
        dist_neg(3real * (x * y * y * i * i * i * i * i), dx);
        mul_assoc(3real, x * y * y * i * i * i * i * i, dx);
    }
    assert(2real * x * x == 2real * (x * x)) by {
        mul_assoc(2real, x, x);
    }
    assert(y * (2real * x * x - y * y) == 2real * (x * x * y) - y * y * y) by {
        mul_eq(y, 2real * x * x - y * y, y, 2real * (x * x) - y * y);
        dist_sub_left(y, 2real * (x * x), y * y);
        mul_front(y, 2real, x * x);
        mul_comm(y, x);
        mul_assoc(y, x, x);
        mul_swap(x, y, x);
        mul_assoc(y, y, y);
    }
    assert(y * (2real * x * x - y * y) * (i * i * i * i * i)
        == 2real * (x * x * y * i * i * i * i * i) - y * y * y * i * i * i * i * i) by {
        mul_eq(y * (2real * x * x - y * y), i * i * i * i * i, 2real * (x * x * y) - y * y * y,
            i * i * i * i * i);
        dist_sub(2real * (x * x * y), y * y * y, i * i * i * i * i);
        mul_assoc(2real, x * x * y, i * i * i * i * i);
        mul_assoc(x * x * y, i, i);
        mul_assoc(x * x * y, i * i, i);
        mul_assoc(x * x * y, i * i * i, i);
        mul_assoc(x * x * y, i * i * i * i, i);
        mul_assoc(y * y * y, i, i);
        mul_assoc(y * y * y, i * i, i);
        mul_assoc(y * y * y, i * i * i, i);
        mul_assoc(y * y * y, i * i * i * i, i);
    }
    assert(y * (2real * x * x - y * y) * (i * i * i * i * i) * dy
        == 2real * (x * x * y * i * i * i * i * i * dy) - y * y * y * i * i * i * i * i * dy) by {
        mul_eq(y * (2real * x * x - y * y) * (i * i * i * i * i), dy,
            2real * (x * x * y * i * i * i * i * i) - y * y * y * i * i * i * i * i, dy);
        dist_sub(2real * (x * x * y * i * i * i * i * i), y * y * y * i * i * i * i * i, dy);
        mul_assoc(2real, x * x * y * i * i * i * i * i, dy);
    }
    assert(2real * (y * y * i * i * i * i * dr)
        == 2real * (x * y * y * i * i * i * i * i * dx)
        + 2real * (y * y * y * i * i * i * i * i * dy)) by {
        mul_eq(y * y * i * i * i * i, 2real * dr, y * y * i * i * i * i,
            (dx * x + x * dx + (dy * y + y * dy)) * i);
        mul_front(y * y * i * i * i * i, 2real, dr);
        mul_eq(y * y * i * i * i * i, (dx * x + x * dx + (dy * y + y * dy)) * i,
            y * y * i * i * i * i, 2real * (x * i * dx) + 2real * (y * i * dy));
        dist_add_left(y * y * i * i * i * i, 2real * (x * i * dx), 2real * (y * i * dy));
        mul_front(y * y * i * i * i * i, 2real, x * i * dx);
        mul_swap(y * y * i * i * i, i, x);
        mul_swap(y * y * i * i, i, x);
        mul_swap(y * y * i, i, x);
        mul_swap(y * y, i, x);
        mul_swap(y, y, x);
        mul_comm(y, x);
        mul_assoc(y * y * i * i * i * i, x, i);
        mul_assoc(y * y * i * i * i * i, x * i, dx);
        mul_front(y * y * i * i * i * i, 2real, y * i * dy);
        mul_swap(y * y * i * i * i, i, y);
        mul_swap(y * y * i * i, i, y);
        mul_swap(y * y * i, i, y);
        mul_swap(y * y, i, y);
        mul_assoc(y * y * i * i * i * i, y, i);
        mul_assoc(y * y * i * i * i * i, y * i, dy);
    }
    assert(y * y * i * i * di == -(y * y * i * i * i * i * dr)) by {
        mul_eq(y * y * i * i, di, y * y * i * i, -(dr * (i * i)));
        mul_eq(y * y * i * i, -(dr * (i * i)), y * y * i * i, -(i * i * dr));
        dist_neg_left(y * y * i * i, i * i * dr);
        mul_assoc(y * y * i * i, i, i);
        mul_assoc(y * y * i * i, i * i, dr);
    }
    assert(x * x * y * i * i * i * i * i * dy + y * y * y * i * i * i * i * i * dy
        == y * i * i * i * dy) by {
        mul_eq(y * i * i * i * dy, (x * x + y * y) * (i * i), y * i * i * i * dy, 1real);
        mul_eq(y * i * i * i * dy, (x * x + y * y) * (i * i), y * i * i * i * dy,
            x * x * i * i + y * y * i * i);
        dist_add_left(y * i * i * i * dy, x * x * i * i, y * y * i * i);
        mul_swap(y * i * i * i, dy, x);
        mul_swap(y * i * i, i, x);
        mul_swap(y * i, i, x);
        mul_swap(y, i, x);
        mul_comm(y, x);
        mul_assoc(y * i * i * i * dy, x, x);
        mul_swap(x * y * i * i * i, dy, x);
        mul_swap(x * y * i * i, i, x);
        mul_swap(x * y * i, i, x);
        mul_swap(x * y, i, x);
        mul_swap(x, y, x);
        mul_assoc(y * i * i * i * dy, x * x, i);
        mul_swap(x * x * y * i * i * i, dy, i);
        mul_assoc(y * i * i * i * dy, x * x * i, i);
        mul_swap(x * x * y * i * i * i * i, dy, i);
        mul_swap(y * i * i * i, dy, y);
        mul_swap(y * i * i, i, y);
        mul_swap(y * i, i, y);
        mul_swap(y, i, y);
        mul_assoc(y * i * i * i * dy, y, y);
        mul_swap(y * y * i * i * i, dy, y);
        mul_swap(y * y * i * i, i, y);
        mul_swap(y * y * i, i, y);
        mul_swap(y * y, i, y);
        mul_assoc(y * i * i * i * dy, y * y, i);
        mul_swap(y * y * y * i * i * i, dy, i);
        mul_assoc(y * i * i * i * dy, y * y * i, i);
        mul_swap(y * y * y * i * i * i * i, dy, i);
    }
}

pub(crate) proof fn bend_xy_rate(x: real, y: real, i: real, dx: real, dy: real, dr: real, di: real)
    requires
        2real * dr == (dx * x + x * dx + (dy * y + y * dy)) * i,
        di == -(dr * (i * i)),
        (x * x + y * y) * (i * i) == 1real,
    ensures
        (-(dx * y + x * dy)) * (i * i * i) + (-(x * y)) * ((di * i + i * di) * i + i * i * di)
            == y * (2real * x * x - y * y) * (i * i * i * i * i) * dx
            + x * (2real * y * y - x * x) * (i * i * i * i * i) * dy,
{
    assert(dx * x == x * dx) by {
        mul_comm(dx, x);
    }
    assert(dy * y == y * dy) by {
        mul_comm(dy, y);
    }
    assert((dx * x + x * dx + (dy * y + y * dy)) * i
        == 2real * (x * i * dx) + 2real * (y * i * dy)) by {
        mul_eq(dx * x + x * dx + (dy * y + y * dy), i, 2real * (x * dx) + 2real * (y * dy), i);
        dist_add(2real * (x * dx), 2real * (y * dy), i);
        mul_assoc(2real, x * dx, i);
        mul_swap(x, dx, i);
        mul_assoc(2real, y * dy, i);
        mul_swap(y, dy, i);
    }
    assert(dr * (i * i) == i * i * dr) by {
        mul_comm(dr, i);
        mul_assoc(dr, i, i);
        mul_swap(i, dr, i);
    }
    assert((x * x + y * y) * (i * i) == x * x * i * i + y * y * i * i) by {
        dist_add(x * x, y * y, i * i);
        mul_assoc(x * x, i, i);
        mul_assoc(y * y, i, i);
    }
    assert(dx * y == y * dx) by {
        mul_comm(dx, y);
    }
    assert((-(dx * y + x * dy)) * (i * i * i) == -(x * i * i * i * dy) - y * i * i * i * dx) by {
        mul_eq(-(dx * y + x * dy), i * i * i, -(x * dy) - y * dx, i * i * i);
        dist_sub(-(x * dy), y * dx, i * i * i);
        dist_neg(x * dy, i * i * i);
        mul_swap(x, dy, i);
        mul_assoc(x * dy, i, i);
        mul_swap(x * i, dy, i);
        mul_assoc(x * dy, i * i, i);
        mul_swap(x * i * i, dy, i);
        mul_swap(y, dx, i);
        mul_assoc(y * dx, i, i);
        mul_swap(y * i, dx, i);
        mul_assoc(y * dx, i * i, i);
        mul_swap(y * i * i, dx, i);
    }
    assert(di * i == i * di) by {
        mul_comm(di, i);
    }
    assert((di * i + i * di) * i == 2real * (i * i * di)) by {
        mul_eq(di * i + i * di, i, 2real * (i * di), i);
        mul_assoc(2real, i * di, i);
        mul_swap(i, di, i);
    }
    assert((-(x * y)) * ((di * i + i * di) * i + i * i * di)
        == -(3real * (x * y * i * i * di))) by {
        mul_eq(-(x * y), (di * i + i * di) * i + i * i * di, -(x * y), 3real * (i * i * di));
        dist_neg(x * y, 3real * (i * i * di));
        mul_front(x * y, 3real, i * i * di);
        mul_assoc(x * y, i, i);
        mul_assoc(x * y, i * i, di);
    }
    assert(2real * x * x == 2real * (x * x)) by {
        mul_assoc(2real, x, x);
    }
    assert(y * (2real * x * x - y * y) == 2real * (x * x * y) - y * y * y) by {
        mul_eq(y, 2real * x * x - y * y, y, 2real * (x * x) - y * y);
        dist_sub_left(y, 2real * (x * x), y * y);
        mul_front(y, 2real, x * x);
        mul_comm(y, x);
        mul_assoc(y, x, x);
        mul_swap(x, y, x);
        mul_assoc(y, y, y);
    }
    assert(y * (2real * x * x - y * y) * (i * i * i * i * i)
        == 2real * (x * x * y * i * i * i * i * i) - y * y * y * i * i * i * i * i) by {
        mul_eq(y * (2real * x * x - y * y), i * i * i * i * i, 2real * (x * x * y) - y * y * y,
            i * i * i * i * i);
        dist_sub(2real * (x * x * y), y * y * y, i * i * i * i * i);
        mul_assoc(2real, x * x * y, i * i * i * i * i);
        mul_assoc(x * x * y, i, i);
        mul_assoc(x * x * y, i * i, i);
        mul_assoc(x * x * y, i * i * i, i);
        mul_assoc(x * x * y, i * i * i * i, i);
        mul_assoc(y * y * y, i, i);
        mul_assoc(y * y * y, i * i, i);
        mul_assoc(y * y * y, i * i * i, i);
        mul_assoc(y * y * y, i * i * i * i, i);
    }
    assert(y * (2real * x * x - y * y) * (i * i * i * i * i) * dx
        == 2real * (x * x * y * i * i * i * i * i * dx) - y * y * y * i * i * i * i * i * dx) by {
        mul_eq(y * (2real * x * x - y * y) * (i * i * i * i * i), dx,
            2real * (x * x * y * i * i * i * i * i) - y * y * y * i * i * i * i * i, dx);
        dist_sub(2real * (x * x * y * i * i * i * i * i), y * y * y * i * i * i * i * i, dx);
        mul_assoc(2real, x * x * y * i * i * i * i * i, dx);
    }
    assert(2real * y * y == 2real * (y * y)) by {
        mul_assoc(2real, y, y);
    }
    assert(x * (2real * y * y - x * x) == -(x * x * x) + 2real * (x * y * y)) by {
        mul_eq(x, 2real * y * y - x * x, x, -(x * x) + 2real * (y * y));
        dist_add_left(x, -(x * x), 2real * (y * y));
        dist_neg_left(x, x * x);
        mul_assoc(x, x, x);
        mul_front(x, 2real, y * y);
        mul_assoc(x, y, y);
    }
    assert(x * (2real * y * y - x * x) * (i * i * i * i * i)
        == -(x * x * x * i * i * i * i * i) + 2real * (x * y * y * i * i * i * i * i)) by {
        mul_eq(x * (2real * y * y - x * x), i * i * i * i * i, -(x * x * x) + 2real * (x * y * y),
            i * i * i * i * i);
        dist_add(-(x * x * x), 2real * (x * y * y), i * i * i * i * i);
        dist_neg(x * x * x, i * i * i * i * i);
        mul_assoc(x * x * x, i, i);
        mul_assoc(x * x * x, i * i, i);
        mul_assoc(x * x * x, i * i * i, i);
        mul_assoc(x * x * x, i * i * i * i, i);
        mul_assoc(2real, x * y * y, i * i * i * i * i);
        mul_assoc(x * y * y, i, i);
        mul_assoc(x * y * y, i * i, i);
        mul_assoc(x * y * y, i * i * i, i);
        mul_assoc(x * y * y, i * i * i * i, i);
    }
    assert(x * (2real * y * y - x * x) * (i * i * i * i * i) * dy
        == -(x * x * x * i * i * i * i * i * dy)
        + 2real * (x * y * y * i * i * i * i * i * dy)) by {
        mul_eq(x * (2real * y * y - x * x) * (i * i * i * i * i), dy,
            -(x * x * x * i * i * i * i * i) + 2real * (x * y * y * i * i * i * i * i), dy);
        dist_add(-(x * x * x * i * i * i * i * i), 2real * (x * y * y * i * i * i * i * i), dy);
        dist_neg(x * x * x * i * i * i * i * i, dy);
        mul_assoc(2real, x * y * y * i * i * i * i * i, dy);
    }
    assert(2real * (x * y * i * i * i * i * dr)
        == 2real * (x * x * y * i * i * i * i * i * dx)
        + 2real * (x * y * y * i * i * i * i * i * dy)) by {
        mul_eq(x * y * i * i * i * i, 2real * dr, x * y * i * i * i * i,
            (dx * x + x * dx + (dy * y + y * dy)) * i);
        mul_front(x * y * i * i * i * i, 2real, dr);
        mul_eq(x * y * i * i * i * i, (dx * x + x * dx + (dy * y + y * dy)) * i,
            x * y * i * i * i * i, 2real * (x * i * dx) + 2real * (y * i * dy));
        dist_add_left(x * y * i * i * i * i, 2real * (x * i * dx), 2real * (y * i * dy));
        mul_front(x * y * i * i * i * i, 2real, x * i * dx);
        mul_swap(x * y * i * i * i, i, x);
        mul_swap(x * y * i * i, i, x);
        mul_swap(x * y * i, i, x);
        mul_swap(x * y, i, x);
        mul_swap(x, y, x);
        mul_assoc(x * y * i * i * i * i, x, i);
        mul_assoc(x * y * i * i * i * i, x * i, dx);
        mul_front(x * y * i * i * i * i, 2real, y * i * dy);
        mul_swap(x * y * i * i * i, i, y);
        mul_swap(x * y * i * i, i, y);
        mul_swap(x * y * i, i, y);
        mul_swap(x * y, i, y);
        mul_assoc(x * y * i * i * i * i, y, i);
        mul_assoc(x * y * i * i * i * i, y * i, dy);
    }
    assert(x * y * i * i * di == -(x * y * i * i * i * i * dr)) by {
        mul_eq(x * y * i * i, di, x * y * i * i, -(dr * (i * i)));
        mul_eq(x * y * i * i, -(dr * (i * i)), x * y * i * i, -(i * i * dr));
        dist_neg_left(x * y * i * i, i * i * dr);
        mul_assoc(x * y * i * i, i, i);
        mul_assoc(x * y * i * i, i * i, dr);
    }
    assert(x * x * x * i * i * i * i * i * dy + x * y * y * i * i * i * i * i * dy
        == x * i * i * i * dy) by {
        mul_eq(x * i * i * i * dy, (x * x + y * y) * (i * i), x * i * i * i * dy, 1real);
        mul_eq(x * i * i * i * dy, (x * x + y * y) * (i * i), x * i * i * i * dy,
            x * x * i * i + y * y * i * i);
        dist_add_left(x * i * i * i * dy, x * x * i * i, y * y * i * i);
        mul_swap(x * i * i * i, dy, x);
        mul_swap(x * i * i, i, x);
        mul_swap(x * i, i, x);
        mul_swap(x, i, x);
        mul_assoc(x * i * i * i * dy, x, x);
        mul_swap(x * x * i * i * i, dy, x);
        mul_swap(x * x * i * i, i, x);
        mul_swap(x * x * i, i, x);
        mul_swap(x * x, i, x);
        mul_assoc(x * i * i * i * dy, x * x, i);
        mul_swap(x * x * x * i * i * i, dy, i);
        mul_assoc(x * i * i * i * dy, x * x * i, i);
        mul_swap(x * x * x * i * i * i * i, dy, i);
        mul_swap(x * i * i * i, dy, y);
        mul_swap(x * i * i, i, y);
        mul_swap(x * i, i, y);
        mul_swap(x, i, y);
        mul_assoc(x * i * i * i * dy, y, y);
        mul_swap(x * y * i * i * i, dy, y);
        mul_swap(x * y * i * i, i, y);
        mul_swap(x * y * i, i, y);
        mul_swap(x * y, i, y);
        mul_assoc(x * i * i * i * dy, y * y, i);
        mul_swap(x * y * y * i * i * i, dy, i);
        mul_assoc(x * i * i * i * dy, y * y * i, i);
        mul_swap(x * y * y * i * i * i * i, dy, i);
    }
    assert(x * x * y * i * i * i * i * i * dx + y * y * y * i * i * i * i * i * dx
        == y * i * i * i * dx) by {
        mul_eq(y * i * i * i * dx, (x * x + y * y) * (i * i), y * i * i * i * dx, 1real);
        mul_eq(y * i * i * i * dx, (x * x + y * y) * (i * i), y * i * i * i * dx,
            x * x * i * i + y * y * i * i);
        dist_add_left(y * i * i * i * dx, x * x * i * i, y * y * i * i);
        mul_swap(y * i * i * i, dx, x);
        mul_swap(y * i * i, i, x);
        mul_swap(y * i, i, x);
        mul_swap(y, i, x);
        mul_comm(y, x);
        mul_assoc(y * i * i * i * dx, x, x);
        mul_swap(x * y * i * i * i, dx, x);
        mul_swap(x * y * i * i, i, x);
        mul_swap(x * y * i, i, x);
        mul_swap(x * y, i, x);
        mul_swap(x, y, x);
        mul_assoc(y * i * i * i * dx, x * x, i);
        mul_swap(x * x * y * i * i * i, dx, i);
        mul_assoc(y * i * i * i * dx, x * x * i, i);
        mul_swap(x * x * y * i * i * i * i, dx, i);
        mul_swap(y * i * i * i, dx, y);
        mul_swap(y * i * i, i, y);
        mul_swap(y * i, i, y);
        mul_swap(y, i, y);
        mul_assoc(y * i * i * i * dx, y, y);
        mul_swap(y * y * i * i * i, dx, y);
        mul_swap(y * y * i * i, i, y);
        mul_swap(y * y * i, i, y);
        mul_swap(y * y, i, y);
        mul_assoc(y * i * i * i * dx, y * y, i);
        mul_swap(y * y * y * i * i * i, dx, i);
        mul_assoc(y * i * i * i * dx, y * y * i, i);
        mul_swap(y * y * y * i * i * i * i, dx, i);
    }
}

pub(crate) proof fn bend_yy_rate(x: real, y: real, i: real, dx: real, dy: real, dr: real, di: real)
    requires
        2real * dr == (dx * x + x * dx + (dy * y + y * dy)) * i,
        di == -(dr * (i * i)),
        (x * x + y * y) * (i * i) == 1real,
    ensures
        (dx * x + x * dx) * (i * i * i) + x * x * ((di * i + i * di) * i + i * i * di)
            == x * (2real * y * y - x * x) * (i * i * i * i * i) * dx
            + (0real - 3real) * x * x * y * (i * i * i * i * i) * dy,
{
    assert(dx * x == x * dx) by {
        mul_comm(dx, x);
    }
    assert(dy * y == y * dy) by {
        mul_comm(dy, y);
    }
    assert((dx * x + x * dx + (dy * y + y * dy)) * i
        == 2real * (x * i * dx) + 2real * (y * i * dy)) by {
        mul_eq(dx * x + x * dx + (dy * y + y * dy), i, 2real * (x * dx) + 2real * (y * dy), i);
        dist_add(2real * (x * dx), 2real * (y * dy), i);
        mul_assoc(2real, x * dx, i);
        mul_swap(x, dx, i);
        mul_assoc(2real, y * dy, i);
        mul_swap(y, dy, i);
    }
    assert(dr * (i * i) == i * i * dr) by {
        mul_comm(dr, i);
        mul_assoc(dr, i, i);
        mul_swap(i, dr, i);
    }
    assert((x * x + y * y) * (i * i) == x * x * i * i + y * y * i * i) by {
        dist_add(x * x, y * y, i * i);
        mul_assoc(x * x, i, i);
        mul_assoc(y * y, i, i);
    }
    assert((dx * x + x * dx) * (i * i * i) == 2real * (x * i * i * i * dx)) by {
        mul_eq(dx * x + x * dx, i * i * i, 2real * (x * dx), i * i * i);
        mul_assoc(2real, x * dx, i * i * i);
        mul_swap(x, dx, i);
        mul_assoc(x * dx, i, i);
        mul_swap(x * i, dx, i);
        mul_assoc(x * dx, i * i, i);
        mul_swap(x * i * i, dx, i);
    }
    assert(di * i == i * di) by {
        mul_comm(di, i);
    }
    assert((di * i + i * di) * i == 2real * (i * i * di)) by {
        mul_eq(di * i + i * di, i, 2real * (i * di), i);
        mul_assoc(2real, i * di, i);
        mul_swap(i, di, i);
    }
    assert(x * x * ((di * i + i * di) * i + i * i * di) == 3real * (x * x * i * i * di)) by {
        mul_eq(x * x, (di * i + i * di) * i + i * i * di, x * x, 3real * (i * i * di));
        mul_front(x * x, 3real, i * i * di);
        mul_assoc(x * x, i, i);
        mul_assoc(x * x, i * i, di);
    }
    assert(2real * y * y == 2real * (y * y)) by {
        mul_assoc(2real, y, y);
    }
    assert(x * (2real * y * y - x * x) == -(x * x * x) + 2real * (x * y * y)) by {
        mul_eq(x, 2real * y * y - x * x, x, -(x * x) + 2real * (y * y));
        dist_add_left(x, -(x * x), 2real * (y * y));
        dist_neg_left(x, x * x);
        mul_assoc(x, x, x);
        mul_front(x, 2real, y * y);
        mul_assoc(x, y, y);
    }
    assert(x * (2real * y * y - x * x) * (i * i * i * i * i)
        == -(x * x * x * i * i * i * i * i) + 2real * (x * y * y * i * i * i * i * i)) by {
        mul_eq(x * (2real * y * y - x * x), i * i * i * i * i, -(x * x * x) + 2real * (x * y * y),
            i * i * i * i * i);
        dist_add(-(x * x * x), 2real * (x * y * y), i * i * i * i * i);
        dist_neg(x * x * x, i * i * i * i * i);
        mul_assoc(x * x * x, i, i);
        mul_assoc(x * x * x, i * i, i);
        mul_assoc(x * x * x, i * i * i, i);
        mul_assoc(x * x * x, i * i * i * i, i);
        mul_assoc(2real, x * y * y, i * i * i * i * i);
        mul_assoc(x * y * y, i, i);
        mul_assoc(x * y * y, i * i, i);
        mul_assoc(x * y * y, i * i * i, i);
        mul_assoc(x * y * y, i * i * i * i, i);
    }
    assert(x * (2real * y * y - x * x) * (i * i * i * i * i) * dx
        == -(x * x * x * i * i * i * i * i * dx)
        + 2real * (x * y * y * i * i * i * i * i * dx)) by {
        mul_eq(x * (2real * y * y - x * x) * (i * i * i * i * i), dx,
            -(x * x * x * i * i * i * i * i) + 2real * (x * y * y * i * i * i * i * i), dx);
        dist_add(-(x * x * x * i * i * i * i * i), 2real * (x * y * y * i * i * i * i * i), dx);
        dist_neg(x * x * x * i * i * i * i * i, dx);
        mul_assoc(2real, x * y * y * i * i * i * i * i, dx);
    }
    assert((0real - 3real) * x == -(3real * x)) by {
        mul_eq(0real - 3real, x, -(3real), x);
        dist_neg(3real, x);
    }
    assert((0real - 3real) * x * x == -(3real * (x * x))) by {
        mul_eq((0real - 3real) * x, x, -(3real * x), x);
        dist_neg(3real * x, x);
        mul_assoc(3real, x, x);
    }
    assert((0real - 3real) * x * x * y == -(3real * (x * x * y))) by {
        mul_eq((0real - 3real) * x * x, y, -(3real * (x * x)), y);
        dist_neg(3real * (x * x), y);
        mul_assoc(3real, x * x, y);
    }
    assert((0real - 3real) * x * x * y * (i * i * i * i * i)
        == -(3real * (x * x * y * i * i * i * i * i))) by {
        mul_eq((0real - 3real) * x * x * y, i * i * i * i * i, -(3real * (x * x * y)),
            i * i * i * i * i);
        dist_neg(3real * (x * x * y), i * i * i * i * i);
        mul_assoc(3real, x * x * y, i * i * i * i * i);
        mul_assoc(x * x * y, i, i);
        mul_assoc(x * x * y, i * i, i);
        mul_assoc(x * x * y, i * i * i, i);
        mul_assoc(x * x * y, i * i * i * i, i);
    }
    assert((0real - 3real) * x * x * y * (i * i * i * i * i) * dy
        == -(3real * (x * x * y * i * i * i * i * i * dy))) by {
        mul_eq((0real - 3real) * x * x * y * (i * i * i * i * i), dy,
            -(3real * (x * x * y * i * i * i * i * i)), dy);
        dist_neg(3real * (x * x * y * i * i * i * i * i), dy);
        mul_assoc(3real, x * x * y * i * i * i * i * i, dy);
    }
    assert(2real * (x * x * i * i * i * i * dr)
        == 2real * (x * x * x * i * i * i * i * i * dx)
        + 2real * (x * x * y * i * i * i * i * i * dy)) by {
        mul_eq(x * x * i * i * i * i, 2real * dr, x * x * i * i * i * i,
            (dx * x + x * dx + (dy * y + y * dy)) * i);
        mul_front(x * x * i * i * i * i, 2real, dr);
        mul_eq(x * x * i * i * i * i, (dx * x + x * dx + (dy * y + y * dy)) * i,
            x * x * i * i * i * i, 2real * (x * i * dx) + 2real * (y * i * dy));
        dist_add_left(x * x * i * i * i * i, 2real * (x * i * dx), 2real * (y * i * dy));
        mul_front(x * x * i * i * i * i, 2real, x * i * dx);
        mul_swap(x * x * i * i * i, i, x);
        mul_swap(x * x * i * i, i, x);
        mul_swap(x * x * i, i, x);
        mul_swap(x * x, i, x);
        mul_assoc(x * x * i * i * i * i, x, i);
        mul_assoc(x * x * i * i * i * i, x * i, dx);
        mul_front(x * x * i * i * i * i, 2real, y * i * dy);
        mul_swap(x * x * i * i * i, i, y);
        mul_swap(x * x * i * i, i, y);
        mul_swap(x * x * i, i, y);
        mul_swap(x * x, i, y);
        mul_assoc(x * x * i * i * i * i, y, i);
        mul_assoc(x * x * i * i * i * i, y * i, dy);
    }
    assert(x * x * i * i * di == -(x * x * i * i * i * i * dr)) by {
        mul_eq(x * x * i * i, di, x * x * i * i, -(dr * (i * i)));
        mul_eq(x * x * i * i, -(dr * (i * i)), x * x * i * i, -(i * i * dr));
        dist_neg_left(x * x * i * i, i * i * dr);
        mul_assoc(x * x * i * i, i, i);
        mul_assoc(x * x * i * i, i * i, dr);
    }
    assert(x * x * x * i * i * i * i * i * dx + x * y * y * i * i * i * i * i * dx
        == x * i * i * i * dx) by {
        mul_eq(x * i * i * i * dx, (x * x + y * y) * (i * i), x * i * i * i * dx, 1real);
        mul_eq(x * i * i * i * dx, (x * x + y * y) * (i * i), x * i * i * i * dx,
            x * x * i * i + y * y * i * i);
        dist_add_left(x * i * i * i * dx, x * x * i * i, y * y * i * i);
        mul_swap(x * i * i * i, dx, x);
        mul_swap(x * i * i, i, x);
        mul_swap(x * i, i, x);
        mul_swap(x, i, x);
        mul_assoc(x * i * i * i * dx, x, x);
        mul_swap(x * x * i * i * i, dx, x);
        mul_swap(x * x * i * i, i, x);
        mul_swap(x * x * i, i, x);
        mul_swap(x * x, i, x);
        mul_assoc(x * i * i * i * dx, x * x, i);
        mul_swap(x * x * x * i * i * i, dx, i);
        mul_assoc(x * i * i * i * dx, x * x * i, i);
        mul_swap(x * x * x * i * i * i * i, dx, i);
        mul_swap(x * i * i * i, dx, y);
        mul_swap(x * i * i, i, y);
        mul_swap(x * i, i, y);
        mul_swap(x, i, y);
        mul_assoc(x * i * i * i * dx, y, y);
        mul_swap(x * y * i * i * i, dx, y);
        mul_swap(x * y * i * i, i, y);
        mul_swap(x * y * i, i, y);
        mul_swap(x * y, i, y);
        mul_assoc(x * i * i * i * dx, y * y, i);
        mul_swap(x * y * y * i * i * i, dx, i);
        mul_assoc(x * i * i * i * dx, y * y * i, i);
        mul_swap(x * y * y * i * i * i * i, dx, i);
    }
}

pub(crate) proof fn angle_x_rate(
    x: real,
    y: real,
    z: real,
    i: real,
    b: real,
    dx: real,
    dy: real,
    dz: real,
    dr: real,
    di: real,
    db: real,
)
    requires
        2real * dr == (dx * x + x * dx + (dy * y + y * dy)) * i,
        di == -(dr * (i * i)),
        db == -((dx * x + x * dx + (dy * y + y * dy) + (dz * z + z * dz)) * (b * b)),
        (x * x + y * y) * (i * i) == 1real,
        (x * x + y * y + z * z) * b == 1real,
        z * z * (b * (i * i)) == i * i - b,
    ensures
        (dx * z + x * dz) * (b * i) + x * z * (db * i + b * di)
            == z * ((x * x + y * y) * (x * x + y * y + z * z)
            - x * x * (3real * (x * x + y * y) + z * z)) * (i * i * i) * (b * b) * dx
            + (-x) * y * z * (3real * (x * x + y * y) + z * z) * (i * i * i) * (b * b) * dy
            + x * (x * x + y * y - z * z) * i * (b * b) * dz,
{
    assert(dx * x == x * dx) by {
        mul_comm(dx, x);
    }
    assert(dy * y == y * dy) by {
        mul_comm(dy, y);
    }
    assert((dx * x + x * dx + (dy * y + y * dy)) * i
        == 2real * (x * i * dx) + 2real * (y * i * dy)) by {
        mul_eq(dx * x + x * dx + (dy * y + y * dy), i, 2real * (x * dx) + 2real * (y * dy), i);
        dist_add(2real * (x * dx), 2real * (y * dy), i);
        mul_assoc(2real, x * dx, i);
        mul_swap(x, dx, i);
        mul_assoc(2real, y * dy, i);
        mul_swap(y, dy, i);
    }
    assert(dr * (i * i) == i * i * dr) by {
        mul_comm(dr, i);
        mul_assoc(dr, i, i);
        mul_swap(i, dr, i);
    }
    assert(dz * z == z * dz) by {
        mul_comm(dz, z);
    }
    assert((dx * x + x * dx + (dy * y + y * dy) + (dz * z + z * dz)) * (b * b)
        == 2real * (x * b * b * dx) + 2real * (y * b * b * dy) + 2real * (z * b * b * dz)) by {
        mul_eq(dx * x + x * dx + (dy * y + y * dy) + (dz * z + z * dz), b * b,
            2real * (x * dx) + 2real * (y * dy) + 2real * (z * dz), b * b);
        dist_add(2real * (x * dx) + 2real * (y * dy), 2real * (z * dz), b * b);
        dist_add(2real * (x * dx), 2real * (y * dy), b * b);
        mul_assoc(2real, x * dx, b * b);
        mul_swap(x, dx, b);
        mul_assoc(x * dx, b, b);
        mul_swap(x * b, dx, b);
        mul_assoc(2real, y * dy, b * b);
        mul_swap(y, dy, b);
        mul_assoc(y * dy, b, b);
        mul_swap(y * b, dy, b);
        mul_assoc(2real, z * dz, b * b);
        mul_swap(z, dz, b);
        mul_assoc(z * dz, b, b);
        mul_swap(z * b, dz, b);
    }
    assert((x * x + y * y) * (i * i) == x * x * i * i + y * y * i * i) by {
        dist_add(x * x, y * y, i * i);
        mul_assoc(x * x, i, i);
        mul_assoc(y * y, i, i);
    }
    assert((x * x + y * y + z * z) * b == x * x * b + y * y * b + z * z * b) by {
        dist_add(x * x + y * y, z * z, b);
        dist_add(x * x, y * y, b);
    }
    assert(b * (i * i) == i * i * b) by {
        mul_comm(b, i);
        mul_assoc(b, i, i);
        mul_swap(i, b, i);
    }
    assert(z * z * (b * (i * i)) == z * z * i * i * b) by {
        mul_eq(z * z, b * (i * i), z * z, i * i * b);
        mul_assoc(z * z, i, i);
        mul_assoc(z * z, i * i, b);
    }
    assert(dx * z == z * dx) by {
        mul_comm(dx, z);
    }
    assert(b * i == i * b) by {
        mul_comm(b, i);
    }
    assert((dx * z + x * dz) * (b * i) == x * i * b * dz + z * i * b * dx) by {
        mul_eq(dx * z + x * dz, b * i, x * dz + z * dx, i * b);
        dist_add(x * dz, z * dx, i * b);
        mul_swap(x, dz, i);
        mul_assoc(x * dz, i, b);
        mul_swap(x * i, dz, b);
        mul_swap(z, dx, i);
        mul_assoc(z * dx, i, b);
        mul_swap(z * i, dx, b);
    }
    assert(db * i == i * db) by {
        mul_comm(db, i);
    }
    assert(x * z * (db * i + b * di) == x * z * i * db + x * z * b * di) by {
        mul_eq(x * z, db * i + b * di, x * z, i * db + b * di);
        dist_add_left(x * z, i * db, b * di);
        mul_assoc(x * z, i, db);
        mul_assoc(x * z, b, di);
    }
    assert((x * x + y * y) * (x * x + y * y + z * z)
        == x * x * x * x + 2real * (x * x * y * y) + x * x * z * z + y * y * y * y
        + y * y * z * z) by {
        dist_add(x * x, y * y, x * x + y * y + z * z);
        dist_add_left(x * x, x * x + y * y, z * z);
        dist_add_left(x * x, x * x, y * y);
        mul_assoc(x * x, x, x);
        mul_assoc(x * x, y, y);
        mul_assoc(x * x, z, z);
        dist_add_left(y * y, x * x + y * y, z * z);
        dist_add_left(y * y, x * x, y * y);
        mul_swap(y, y, x);
        mul_comm(y, x);
        mul_assoc(y * y, x, x);
        mul_swap(x * y, y, x);
        mul_swap(x, y, x);
        mul_assoc(y * y, y, y);
        mul_assoc(y * y, z, z);
    }
    assert(x * x * (3real * (x * x + y * y) + z * z)
        == 3real * (x * x * x * x) + 3real * (x * x * y * y) + x * x * z * z) by {
        mul_eq(x * x, 3real * (x * x + y * y) + z * z, x * x,
            3real * (x * x) + 3real * (y * y) + z * z);
        dist_add_left(x * x, 3real * (x * x) + 3real * (y * y), z * z);
        dist_add_left(x * x, 3real * (x * x), 3real * (y * y));
        mul_front(x * x, 3real, x * x);
        mul_assoc(x * x, x, x);
        mul_front(x * x, 3real, y * y);
        mul_assoc(x * x, y, y);
        mul_assoc(x * x, z, z);
    }
    assert(z * ((x * x + y * y) * (x * x + y * y + z * z)
        - x * x * (3real * (x * x + y * y) + z * z))
        == -(2real * (x * x * x * x * z)) - x * x * y * y * z + y * y * y * y * z
        + y * y * z * z * z) by {
        mul_eq(z, (x * x + y * y) * (x * x + y * y + z * z)
            - x * x * (3real * (x * x + y * y) + z * z), z,
            -(2real * (x * x * x * x)) - x * x * y * y + y * y * y * y + y * y * z * z);
        dist_add_left(z, -(2real * (x * x * x * x)) - x * x * y * y + y * y * y * y, y * y * z * z);
        dist_add_left(z, -(2real * (x * x * x * x)) - x * x * y * y, y * y * y * y);
        dist_sub_left(z, -(2real * (x * x * x * x)), x * x * y * y);
        dist_neg_left(z, 2real * (x * x * x * x));
        mul_front(z, 2real, x * x * x * x);
        mul_comm(z, x);
        mul_assoc(z, x, x);
        mul_swap(x, z, x);
        mul_assoc(z, x * x, x);
        mul_swap(x * x, z, x);
        mul_assoc(z, x * x * x, x);
        mul_swap(x * x * x, z, x);
        mul_comm(z, x);
        mul_assoc(z, x, x);
        mul_swap(x, z, x);
        mul_assoc(z, x * x, y);
        mul_swap(x * x, z, y);
        mul_assoc(z, x * x * y, y);
        mul_swap(x * x * y, z, y);
        mul_comm(z, y);
        mul_assoc(z, y, y);
        mul_swap(y, z, y);
        mul_assoc(z, y * y, y);
        mul_swap(y * y, z, y);
        mul_assoc(z, y * y * y, y);
        mul_swap(y * y * y, z, y);
        mul_comm(z, y);
        mul_assoc(z, y, y);
        mul_swap(y, z, y);
        mul_assoc(z, y * y, z);
        mul_assoc(z, y * y * z, z);
    }
    assert(z * ((x * x + y * y) * (x * x + y * y + z * z)
        - x * x * (3real * (x * x + y * y) + z * z)) * (i * i * i)
        == -(2real * (x * x * x * x * z * i * i * i)) - x * x * y * y * z * i * i * i
        + y * y * y * y * z * i * i * i + y * y * z * z * z * i * i * i) by {
        mul_eq(z * ((x * x + y * y) * (x * x + y * y + z * z)
            - x * x * (3real * (x * x + y * y) + z * z)), i * i * i,
            -(2real * (x * x * x * x * z)) - x * x * y * y * z + y * y * y * y * z
            + y * y * z * z * z, i * i * i);
        dist_add(-(2real * (x * x * x * x * z)) - x * x * y * y * z + y * y * y * y * z,
            y * y * z * z * z, i * i * i);
        dist_add(-(2real * (x * x * x * x * z)) - x * x * y * y * z, y * y * y * y * z, i * i * i);
        dist_sub(-(2real * (x * x * x * x * z)), x * x * y * y * z, i * i * i);
        dist_neg(2real * (x * x * x * x * z), i * i * i);
        mul_assoc(2real, x * x * x * x * z, i * i * i);
        mul_assoc(x * x * x * x * z, i, i);
        mul_assoc(x * x * x * x * z, i * i, i);
        mul_assoc(x * x * y * y * z, i, i);
        mul_assoc(x * x * y * y * z, i * i, i);
        mul_assoc(y * y * y * y * z, i, i);
        mul_assoc(y * y * y * y * z, i * i, i);
        mul_assoc(y * y * z * z * z, i, i);
        mul_assoc(y * y * z * z * z, i * i, i);
    }
    assert(z * ((x * x + y * y) * (x * x + y * y + z * z)
        - x * x * (3real * (x * x + y * y) + z * z)) * (i * i * i) * (b * b)
        == -(2real * (x * x * x * x * z * i * i * i * b * b))
        - x * x * y * y * z * i * i * i * b * b + y * y * y * y * z * i * i * i * b * b
        + y * y * z * z * z * i * i * i * b * b) by {
        mul_eq(z * ((x * x + y * y) * (x * x + y * y + z * z)
            - x * x * (3real * (x * x + y * y) + z * z)) * (i * i * i), b * b,
            -(2real * (x * x * x * x * z * i * i * i)) - x * x * y * y * z * i * i * i
            + y * y * y * y * z * i * i * i + y * y * z * z * z * i * i * i, b * b);
        dist_add(-(2real * (x * x * x * x * z * i * i * i)) - x * x * y * y * z * i * i * i
            + y * y * y * y * z * i * i * i, y * y * z * z * z * i * i * i, b * b);
        dist_add(-(2real * (x * x * x * x * z * i * i * i)) - x * x * y * y * z * i * i * i,
            y * y * y * y * z * i * i * i, b * b);
        dist_sub(-(2real * (x * x * x * x * z * i * i * i)), x * x * y * y * z * i * i * i, b * b);
        dist_neg(2real * (x * x * x * x * z * i * i * i), b * b);
        mul_assoc(2real, x * x * x * x * z * i * i * i, b * b);
        mul_assoc(x * x * x * x * z * i * i * i, b, b);
        mul_assoc(x * x * y * y * z * i * i * i, b, b);
        mul_assoc(y * y * y * y * z * i * i * i, b, b);
        mul_assoc(y * y * z * z * z * i * i * i, b, b);
    }
    assert(z * ((x * x + y * y) * (x * x + y * y + z * z)
        - x * x * (3real * (x * x + y * y) + z * z)) * (i * i * i) * (b * b) * dx
        == -(2real * (x * x * x * x * z * i * i * i * b * b * dx))
        - x * x * y * y * z * i * i * i * b * b * dx + y * y * y * y * z * i * i * i * b * b * dx
        + y * y * z * z * z * i * i * i * b * b * dx) by {
        mul_eq(z * ((x * x + y * y) * (x * x + y * y + z * z)
            - x * x * (3real * (x * x + y * y) + z * z)) * (i * i * i) * (b * b), dx,
            -(2real * (x * x * x * x * z * i * i * i * b * b))
            - x * x * y * y * z * i * i * i * b * b + y * y * y * y * z * i * i * i * b * b
            + y * y * z * z * z * i * i * i * b * b, dx);
        dist_add(-(2real * (x * x * x * x * z * i * i * i * b * b))
            - x * x * y * y * z * i * i * i * b * b + y * y * y * y * z * i * i * i * b * b,
            y * y * z * z * z * i * i * i * b * b, dx);
        dist_add(-(2real * (x * x * x * x * z * i * i * i * b * b))
            - x * x * y * y * z * i * i * i * b * b, y * y * y * y * z * i * i * i * b * b, dx);
        dist_sub(-(2real * (x * x * x * x * z * i * i * i * b * b)),
            x * x * y * y * z * i * i * i * b * b, dx);
        dist_neg(2real * (x * x * x * x * z * i * i * i * b * b), dx);
        mul_assoc(2real, x * x * x * x * z * i * i * i * b * b, dx);
    }
    assert((-x) * y == -(x * y)) by {
        dist_neg(x, y);
    }
    assert((-x) * y * z == -(x * y * z)) by {
        mul_eq((-x) * y, z, -(x * y), z);
        dist_neg(x * y, z);
    }
    assert((-x) * y * z * (3real * (x * x + y * y) + z * z)
        == -(3real * (x * x * x * y * z)) - 3real * (x * y * y * y * z) - x * y * z * z * z) by {
        mul_eq((-x) * y * z, 3real * (x * x + y * y) + z * z, -(x * y * z),
            3real * (x * x) + 3real * (y * y) + z * z);
        dist_neg(x * y * z, 3real * (x * x) + 3real * (y * y) + z * z);
        dist_add_left(x * y * z, 3real * (x * x) + 3real * (y * y), z * z);
        dist_add_left(x * y * z, 3real * (x * x), 3real * (y * y));
        mul_front(x * y * z, 3real, x * x);
        mul_swap(x * y, z, x);
        mul_swap(x, y, x);
        mul_assoc(x * y * z, x, x);
        mul_swap(x * x * y, z, x);
        mul_swap(x * x, y, x);
        mul_front(x * y * z, 3real, y * y);
        mul_swap(x * y, z, y);
        mul_assoc(x * y * z, y, y);
        mul_swap(x * y * y, z, y);
        mul_assoc(x * y * z, z, z);
    }
    assert((-x) * y * z * (3real * (x * x + y * y) + z * z) * (i * i * i)
        == -(3real * (x * x * x * y * z * i * i * i)) - 3real * (x * y * y * y * z * i * i * i)
        - x * y * z * z * z * i * i * i) by {
        mul_eq((-x) * y * z * (3real * (x * x + y * y) + z * z), i * i * i,
            -(3real * (x * x * x * y * z)) - 3real * (x * y * y * y * z) - x * y * z * z * z,
            i * i * i);
        dist_sub(-(3real * (x * x * x * y * z)) - 3real * (x * y * y * y * z), x * y * z * z * z,
            i * i * i);
        dist_sub(-(3real * (x * x * x * y * z)), 3real * (x * y * y * y * z), i * i * i);
        dist_neg(3real * (x * x * x * y * z), i * i * i);
        mul_assoc(3real, x * x * x * y * z, i * i * i);
        mul_assoc(x * x * x * y * z, i, i);
        mul_assoc(x * x * x * y * z, i * i, i);
        mul_assoc(3real, x * y * y * y * z, i * i * i);
        mul_assoc(x * y * y * y * z, i, i);
        mul_assoc(x * y * y * y * z, i * i, i);
        mul_assoc(x * y * z * z * z, i, i);
        mul_assoc(x * y * z * z * z, i * i, i);
    }
    assert((-x) * y * z * (3real * (x * x + y * y) + z * z) * (i * i * i) * (b * b)
        == -(3real * (x * x * x * y * z * i * i * i * b * b))
        - 3real * (x * y * y * y * z * i * i * i * b * b)
        - x * y * z * z * z * i * i * i * b * b) by {
        mul_eq((-x) * y * z * (3real * (x * x + y * y) + z * z) * (i * i * i), b * b,
            -(3real * (x * x * x * y * z * i * i * i)) - 3real * (x * y * y * y * z * i * i * i)
            - x * y * z * z * z * i * i * i, b * b);
        dist_sub(-(3real * (x * x * x * y * z * i * i * i))
            - 3real * (x * y * y * y * z * i * i * i), x * y * z * z * z * i * i * i, b * b);
        dist_sub(-(3real * (x * x * x * y * z * i * i * i)),
            3real * (x * y * y * y * z * i * i * i), b * b);
        dist_neg(3real * (x * x * x * y * z * i * i * i), b * b);
        mul_assoc(3real, x * x * x * y * z * i * i * i, b * b);
        mul_assoc(x * x * x * y * z * i * i * i, b, b);
        mul_assoc(3real, x * y * y * y * z * i * i * i, b * b);
        mul_assoc(x * y * y * y * z * i * i * i, b, b);
        mul_assoc(x * y * z * z * z * i * i * i, b, b);
    }
    assert((-x) * y * z * (3real * (x * x + y * y) + z * z) * (i * i * i) * (b * b) * dy
        == -(3real * (x * x * x * y * z * i * i * i * b * b * dy))
        - 3real * (x * y * y * y * z * i * i * i * b * b * dy)
        - x * y * z * z * z * i * i * i * b * b * dy) by {
        mul_eq((-x) * y * z * (3real * (x * x + y * y) + z * z) * (i * i * i) * (b * b), dy,
            -(3real * (x * x * x * y * z * i * i * i * b * b))
            - 3real * (x * y * y * y * z * i * i * i * b * b)
            - x * y * z * z * z * i * i * i * b * b, dy);
        dist_sub(-(3real * (x * x * x * y * z * i * i * i * b * b))
            - 3real * (x * y * y * y * z * i * i * i * b * b),
            x * y * z * z * z * i * i * i * b * b, dy);
        dist_sub(-(3real * (x * x * x * y * z * i * i * i * b * b)),
            3real * (x * y * y * y * z * i * i * i * b * b), dy);
        dist_neg(3real * (x * x * x * y * z * i * i * i * b * b), dy);
        mul_assoc(3real, x * x * x * y * z * i * i * i * b * b, dy);
        mul_assoc(3real, x * y * y * y * z * i * i * i * b * b, dy);
    }
    assert(x * (x * x + y * y - z * z) == x * x * x + x * y * y - x * z * z) by {
        dist_sub_left(x, x * x + y * y, z * z);
        dist_add_left(x, x * x, y * y);
        mul_assoc(x, x, x);
        mul_assoc(x, y, y);
        mul_assoc(x, z, z);
    }
    assert(x * (x * x + y * y - z * z) * i == x * x * x * i + x * y * y * i - x * z * z * i) by {
        mul_eq(x * (x * x + y * y - z * z), i, x * x * x + x * y * y - x * z * z, i);
        dist_sub(x * x * x + x * y * y, x * z * z, i);
        dist_add(x * x * x, x * y * y, i);
    }
    assert(x * (x * x + y * y - z * z) * i * (b * b)
        == x * x * x * i * b * b + x * y * y * i * b * b - x * z * z * i * b * b) by {
        mul_eq(x * (x * x + y * y - z * z) * i, b * b,
            x * x * x * i + x * y * y * i - x * z * z * i, b * b);
        dist_sub(x * x * x * i + x * y * y * i, x * z * z * i, b * b);
        dist_add(x * x * x * i, x * y * y * i, b * b);
        mul_assoc(x * x * x * i, b, b);
        mul_assoc(x * y * y * i, b, b);
        mul_assoc(x * z * z * i, b, b);
    }
    assert(x * (x * x + y * y - z * z) * i * (b * b) * dz
        == x * x * x * i * b * b * dz + x * y * y * i * b * b * dz
        - x * z * z * i * b * b * dz) by {
        mul_eq(x * (x * x + y * y - z * z) * i * (b * b), dz,
            x * x * x * i * b * b + x * y * y * i * b * b - x * z * z * i * b * b, dz);
        dist_sub(x * x * x * i * b * b + x * y * y * i * b * b, x * z * z * i * b * b, dz);
        dist_add(x * x * x * i * b * b, x * y * y * i * b * b, dz);
    }
    assert(2real * (x * z * i * i * b * dr)
        == 2real * (x * x * z * i * i * i * b * dx) + 2real * (x * y * z * i * i * i * b * dy)) by {
        mul_eq(x * z * i * i * b, 2real * dr, x * z * i * i * b,
            (dx * x + x * dx + (dy * y + y * dy)) * i);
        mul_front(x * z * i * i * b, 2real, dr);
        mul_eq(x * z * i * i * b, (dx * x + x * dx + (dy * y + y * dy)) * i, x * z * i * i * b,
            2real * (x * i * dx) + 2real * (y * i * dy));
        dist_add_left(x * z * i * i * b, 2real * (x * i * dx), 2real * (y * i * dy));
        mul_front(x * z * i * i * b, 2real, x * i * dx);
        mul_swap(x * z * i * i, b, x);
        mul_swap(x * z * i, i, x);
        mul_swap(x * z, i, x);
        mul_swap(x, z, x);
        mul_assoc(x * z * i * i * b, x, i);
        mul_swap(x * x * z * i * i, b, i);
        mul_assoc(x * z * i * i * b, x * i, dx);
        mul_front(x * z * i * i * b, 2real, y * i * dy);
        mul_swap(x * z * i * i, b, y);
        mul_swap(x * z * i, i, y);
        mul_swap(x * z, i, y);
        mul_swap(x, z, y);
        mul_assoc(x * z * i * i * b, y, i);
        mul_swap(x * y * z * i * i, b, i);
        mul_assoc(x * z * i * i * b, y * i, dy);
    }
    assert(x * z * b * di == -(x * z * i * i * b * dr)) by {
        mul_eq(x * z * b, di, x * z * b, -(dr * (i * i)));
        mul_eq(x * z * b, -(dr * (i * i)), x * z * b, -(i * i * dr));
        dist_neg_left(x * z * b, i * i * dr);
        mul_swap(x * z, b, i);
        mul_assoc(x * z * b, i, i);
        mul_swap(x * z * i, b, i);
        mul_assoc(x * z * b, i * i, dr);
    }
    assert(x * z * i * db == -(2real * (x * x * z * i * b * b * dx))
        - 2real * (x * y * z * i * b * b * dy) - 2real * (x * z * z * i * b * b * dz)) by {
        mul_eq(x * z * i, db, x * z * i,
            -((dx * x + x * dx + (dy * y + y * dy) + (dz * z + z * dz)) * (b * b)));
        mul_eq(x * z * i, -((dx * x + x * dx + (dy * y + y * dy) + (dz * z + z * dz)) * (b * b)),
            x * z * i, -(2real * (x * b * b * dx)) - 2real * (y * b * b * dy)
            - 2real * (z * b * b * dz));
        dist_sub_left(x * z * i, -(2real * (x * b * b * dx)) - 2real * (y * b * b * dy),
            2real * (z * b * b * dz));
        dist_sub_left(x * z * i, -(2real * (x * b * b * dx)), 2real * (y * b * b * dy));
        dist_neg_left(x * z * i, 2real * (x * b * b * dx));
        mul_front(x * z * i, 2real, x * b * b * dx);
        mul_swap(x * z, i, x);
        mul_swap(x, z, x);
        mul_assoc(x * z * i, x, b);
        mul_assoc(x * z * i, x * b, b);
        mul_assoc(x * z * i, x * b * b, dx);
        mul_front(x * z * i, 2real, y * b * b * dy);
        mul_swap(x * z, i, y);
        mul_swap(x, z, y);
        mul_assoc(x * z * i, y, b);
        mul_assoc(x * z * i, y * b, b);
        mul_assoc(x * z * i, y * b * b, dy);
        mul_front(x * z * i, 2real, z * b * b * dz);
        mul_swap(x * z, i, z);
        mul_assoc(x * z * i, z, b);
        mul_assoc(x * z * i, z * b, b);
        mul_assoc(x * z * i, z * b * b, dz);
    }
    assert(x * x * x * x * z * i * i * i * b * b * dx + x * x * y * y * z * i * i * i * b * b * dx
        == x * x * z * i * b * b * dx) by {
        mul_eq(x * x * z * i * b * b * dx, (x * x + y * y) * (i * i), x * x * z * i * b * b * dx,
            1real);
        mul_eq(x * x * z * i * b * b * dx, (x * x + y * y) * (i * i), x * x * z * i * b * b * dx,
            x * x * i * i + y * y * i * i);
        dist_add_left(x * x * z * i * b * b * dx, x * x * i * i, y * y * i * i);
        mul_swap(x * x * z * i * b * b, dx, x);
        mul_swap(x * x * z * i * b, b, x);
        mul_swap(x * x * z * i, b, x);
        mul_swap(x * x * z, i, x);
        mul_swap(x * x, z, x);
        mul_assoc(x * x * z * i * b * b * dx, x, x);
        mul_swap(x * x * x * z * i * b * b, dx, x);
        mul_swap(x * x * x * z * i * b, b, x);
        mul_swap(x * x * x * z * i, b, x);
        mul_swap(x * x * x * z, i, x);
        mul_swap(x * x * x, z, x);
        mul_assoc(x * x * z * i * b * b * dx, x * x, i);
        mul_swap(x * x * x * x * z * i * b * b, dx, i);
        mul_swap(x * x * x * x * z * i * b, b, i);
        mul_swap(x * x * x * x * z * i, b, i);
        mul_assoc(x * x * z * i * b * b * dx, x * x * i, i);
        mul_swap(x * x * x * x * z * i * i * b * b, dx, i);
        mul_swap(x * x * x * x * z * i * i * b, b, i);
        mul_swap(x * x * x * x * z * i * i, b, i);
        mul_swap(x * x * z * i * b * b, dx, y);
        mul_swap(x * x * z * i * b, b, y);
        mul_swap(x * x * z * i, b, y);
        mul_swap(x * x * z, i, y);
        mul_swap(x * x, z, y);
        mul_assoc(x * x * z * i * b * b * dx, y, y);
        mul_swap(x * x * y * z * i * b * b, dx, y);
        mul_swap(x * x * y * z * i * b, b, y);
        mul_swap(x * x * y * z * i, b, y);
        mul_swap(x * x * y * z, i, y);
        mul_swap(x * x * y, z, y);
        mul_assoc(x * x * z * i * b * b * dx, y * y, i);
        mul_swap(x * x * y * y * z * i * b * b, dx, i);
        mul_swap(x * x * y * y * z * i * b, b, i);
        mul_swap(x * x * y * y * z * i, b, i);
        mul_assoc(x * x * z * i * b * b * dx, y * y * i, i);
        mul_swap(x * x * y * y * z * i * i * b * b, dx, i);
        mul_swap(x * x * y * y * z * i * i * b, b, i);
        mul_swap(x * x * y * y * z * i * i, b, i);
    }
    assert(x * x * x * y * z * i * i * i * b * b * dy + x * y * y * y * z * i * i * i * b * b * dy
        == x * y * z * i * b * b * dy) by {
        mul_eq(x * y * z * i * b * b * dy, (x * x + y * y) * (i * i), x * y * z * i * b * b * dy,
            1real);
        mul_eq(x * y * z * i * b * b * dy, (x * x + y * y) * (i * i), x * y * z * i * b * b * dy,
            x * x * i * i + y * y * i * i);
        dist_add_left(x * y * z * i * b * b * dy, x * x * i * i, y * y * i * i);
        mul_swap(x * y * z * i * b * b, dy, x);
        mul_swap(x * y * z * i * b, b, x);
        mul_swap(x * y * z * i, b, x);
        mul_swap(x * y * z, i, x);
        mul_swap(x * y, z, x);
        mul_swap(x, y, x);
        mul_assoc(x * y * z * i * b * b * dy, x, x);
        mul_swap(x * x * y * z * i * b * b, dy, x);
        mul_swap(x * x * y * z * i * b, b, x);
        mul_swap(x * x * y * z * i, b, x);
        mul_swap(x * x * y * z, i, x);
        mul_swap(x * x * y, z, x);
        mul_swap(x * x, y, x);
        mul_assoc(x * y * z * i * b * b * dy, x * x, i);
        mul_swap(x * x * x * y * z * i * b * b, dy, i);
        mul_swap(x * x * x * y * z * i * b, b, i);
        mul_swap(x * x * x * y * z * i, b, i);
        mul_assoc(x * y * z * i * b * b * dy, x * x * i, i);
        mul_swap(x * x * x * y * z * i * i * b * b, dy, i);
        mul_swap(x * x * x * y * z * i * i * b, b, i);
        mul_swap(x * x * x * y * z * i * i, b, i);
        mul_swap(x * y * z * i * b * b, dy, y);
        mul_swap(x * y * z * i * b, b, y);
        mul_swap(x * y * z * i, b, y);
        mul_swap(x * y * z, i, y);
        mul_swap(x * y, z, y);
        mul_assoc(x * y * z * i * b * b * dy, y, y);
        mul_swap(x * y * y * z * i * b * b, dy, y);
        mul_swap(x * y * y * z * i * b, b, y);
        mul_swap(x * y * y * z * i, b, y);
        mul_swap(x * y * y * z, i, y);
        mul_swap(x * y * y, z, y);
        mul_assoc(x * y * z * i * b * b * dy, y * y, i);
        mul_swap(x * y * y * y * z * i * b * b, dy, i);
        mul_swap(x * y * y * y * z * i * b, b, i);
        mul_swap(x * y * y * y * z * i, b, i);
        mul_assoc(x * y * z * i * b * b * dy, y * y * i, i);
        mul_swap(x * y * y * y * z * i * i * b * b, dy, i);
        mul_swap(x * y * y * y * z * i * i * b, b, i);
        mul_swap(x * y * y * y * z * i * i, b, i);
    }
    assert(x * x * y * y * z * i * i * i * b * b * dx + y * y * y * y * z * i * i * i * b * b * dx
        == y * y * z * i * b * b * dx) by {
        mul_eq(y * y * z * i * b * b * dx, (x * x + y * y) * (i * i), y * y * z * i * b * b * dx,
            1real);
        mul_eq(y * y * z * i * b * b * dx, (x * x + y * y) * (i * i), y * y * z * i * b * b * dx,
            x * x * i * i + y * y * i * i);
        dist_add_left(y * y * z * i * b * b * dx, x * x * i * i, y * y * i * i);
        mul_swap(y * y * z * i * b * b, dx, x);
        mul_swap(y * y * z * i * b, b, x);
        mul_swap(y * y * z * i, b, x);
        mul_swap(y * y * z, i, x);
        mul_swap(y * y, z, x);
        mul_swap(y, y, x);
        mul_comm(y, x);
        mul_assoc(y * y * z * i * b * b * dx, x, x);
        mul_swap(x * y * y * z * i * b * b, dx, x);
        mul_swap(x * y * y * z * i * b, b, x);
        mul_swap(x * y * y * z * i, b, x);
        mul_swap(x * y * y * z, i, x);
        mul_swap(x * y * y, z, x);
        mul_swap(x * y, y, x);
        mul_swap(x, y, x);
        mul_assoc(y * y * z * i * b * b * dx, x * x, i);
        mul_swap(x * x * y * y * z * i * b * b, dx, i);
        mul_swap(x * x * y * y * z * i * b, b, i);
        mul_swap(x * x * y * y * z * i, b, i);
        mul_assoc(y * y * z * i * b * b * dx, x * x * i, i);
        mul_swap(x * x * y * y * z * i * i * b * b, dx, i);
        mul_swap(x * x * y * y * z * i * i * b, b, i);
        mul_swap(x * x * y * y * z * i * i, b, i);
        mul_swap(y * y * z * i * b * b, dx, y);
        mul_swap(y * y * z * i * b, b, y);
        mul_swap(y * y * z * i, b, y);
        mul_swap(y * y * z, i, y);
        mul_swap(y * y, z, y);
        mul_assoc(y * y * z * i * b * b * dx, y, y);
        mul_swap(y * y * y * z * i * b * b, dx, y);
        mul_swap(y * y * y * z * i * b, b, y);
        mul_swap(y * y * y * z * i, b, y);
        mul_swap(y * y * y * z, i, y);
        mul_swap(y * y * y, z, y);
        mul_assoc(y * y * z * i * b * b * dx, y * y, i);
        mul_swap(y * y * y * y * z * i * b * b, dx, i);
        mul_swap(y * y * y * y * z * i * b, b, i);
        mul_swap(y * y * y * y * z * i, b, i);
        mul_assoc(y * y * z * i * b * b * dx, y * y * i, i);
        mul_swap(y * y * y * y * z * i * i * b * b, dx, i);
        mul_swap(y * y * y * y * z * i * i * b, b, i);
        mul_swap(y * y * y * y * z * i * i, b, i);
    }
    assert(x * x * z * i * i * i * b * dx + y * y * z * i * i * i * b * dx == z * i * b * dx) by {
        mul_eq(z * i * b * dx, (x * x + y * y) * (i * i), z * i * b * dx, 1real);
        mul_eq(z * i * b * dx, (x * x + y * y) * (i * i), z * i * b * dx,
            x * x * i * i + y * y * i * i);
        dist_add_left(z * i * b * dx, x * x * i * i, y * y * i * i);
        mul_swap(z * i * b, dx, x);
        mul_swap(z * i, b, x);
        mul_swap(z, i, x);
        mul_comm(z, x);
        mul_assoc(z * i * b * dx, x, x);
        mul_swap(x * z * i * b, dx, x);
        mul_swap(x * z * i, b, x);
        mul_swap(x * z, i, x);
        mul_swap(x, z, x);
        mul_assoc(z * i * b * dx, x * x, i);
        mul_swap(x * x * z * i * b, dx, i);
        mul_swap(x * x * z * i, b, i);
        mul_assoc(z * i * b * dx, x * x * i, i);
        mul_swap(x * x * z * i * i * b, dx, i);
        mul_swap(x * x * z * i * i, b, i);
        mul_swap(z * i * b, dx, y);
        mul_swap(z * i, b, y);
        mul_swap(z, i, y);
        mul_comm(z, y);
        mul_assoc(z * i * b * dx, y, y);
        mul_swap(y * z * i * b, dx, y);
        mul_swap(y * z * i, b, y);
        mul_swap(y * z, i, y);
        mul_swap(y, z, y);
        mul_assoc(z * i * b * dx, y * y, i);
        mul_swap(y * y * z * i * b, dx, i);
        mul_swap(y * y * z * i, b, i);
        mul_assoc(z * i * b * dx, y * y * i, i);
        mul_swap(y * y * z * i * i * b, dx, i);
        mul_swap(y * y * z * i * i, b, i);
    }
    assert(x * x * x * i * b * b * dz + x * y * y * i * b * b * dz + x * z * z * i * b * b * dz
        == x * i * b * dz) by {
        mul_eq(x * i * b * dz, (x * x + y * y + z * z) * b, x * i * b * dz, 1real);
        mul_eq(x * i * b * dz, (x * x + y * y + z * z) * b, x * i * b * dz,
            x * x * b + y * y * b + z * z * b);
        dist_add_left(x * i * b * dz, x * x * b + y * y * b, z * z * b);
        dist_add_left(x * i * b * dz, x * x * b, y * y * b);
        mul_swap(x * i * b, dz, x);
        mul_swap(x * i, b, x);
        mul_swap(x, i, x);
        mul_assoc(x * i * b * dz, x, x);
        mul_swap(x * x * i * b, dz, x);
        mul_swap(x * x * i, b, x);
        mul_swap(x * x, i, x);
        mul_assoc(x * i * b * dz, x * x, b);
        mul_swap(x * x * x * i * b, dz, b);
        mul_swap(x * i * b, dz, y);
        mul_swap(x * i, b, y);
        mul_swap(x, i, y);
        mul_assoc(x * i * b * dz, y, y);
        mul_swap(x * y * i * b, dz, y);
        mul_swap(x * y * i, b, y);
        mul_swap(x * y, i, y);
        mul_assoc(x * i * b * dz, y * y, b);
        mul_swap(x * y * y * i * b, dz, b);
        mul_swap(x * i * b, dz, z);
        mul_swap(x * i, b, z);
        mul_swap(x, i, z);
        mul_assoc(x * i * b * dz, z, z);
        mul_swap(x * z * i * b, dz, z);
        mul_swap(x * z * i, b, z);
        mul_swap(x * z, i, z);
        mul_assoc(x * i * b * dz, z * z, b);
        mul_swap(x * z * z * i * b, dz, b);
    }
    assert(x * y * z * z * z * i * i * i * b * b * dy
        == -(x * y * z * i * b * b * dy) + x * y * z * i * i * i * b * dy) by {
        mul_eq(x * y * z * i * b * dy, z * z * (b * (i * i)), x * y * z * i * b * dy, i * i - b);
        mul_eq(x * y * z * i * b * dy, z * z * (b * (i * i)), x * y * z * i * b * dy,
            z * z * i * i * b);
        mul_swap(x * y * z * i * b, dy, z);
        mul_swap(x * y * z * i, b, z);
        mul_swap(x * y * z, i, z);
        mul_assoc(x * y * z * i * b * dy, z, z);
        mul_swap(x * y * z * z * i * b, dy, z);
        mul_swap(x * y * z * z * i, b, z);
        mul_swap(x * y * z * z, i, z);
        mul_assoc(x * y * z * i * b * dy, z * z, i);
        mul_swap(x * y * z * z * z * i * b, dy, i);
        mul_swap(x * y * z * z * z * i, b, i);
        mul_assoc(x * y * z * i * b * dy, z * z * i, i);
        mul_swap(x * y * z * z * z * i * i * b, dy, i);
        mul_swap(x * y * z * z * z * i * i, b, i);
        mul_assoc(x * y * z * i * b * dy, z * z * i * i, b);
        mul_swap(x * y * z * z * z * i * i * i * b, dy, b);
        mul_eq(x * y * z * i * b * dy, i * i - b, x * y * z * i * b * dy, -b + i * i);
        dist_add_left(x * y * z * i * b * dy, -b, i * i);
        dist_neg_left(x * y * z * i * b * dy, b);
        mul_swap(x * y * z * i * b, dy, b);
        mul_swap(x * y * z * i * b, dy, i);
        mul_swap(x * y * z * i, b, i);
        mul_assoc(x * y * z * i * b * dy, i, i);
        mul_swap(x * y * z * i * i * b, dy, i);
        mul_swap(x * y * z * i * i, b, i);
    }
    assert(y * y * z * z * z * i * i * i * b * b * dx
        == -(y * y * z * i * b * b * dx) + y * y * z * i * i * i * b * dx) by {
        mul_eq(y * y * z * i * b * dx, z * z * (b * (i * i)), y * y * z * i * b * dx, i * i - b);
        mul_eq(y * y * z * i * b * dx, z * z * (b * (i * i)), y * y * z * i * b * dx,
            z * z * i * i * b);
        mul_swap(y * y * z * i * b, dx, z);
        mul_swap(y * y * z * i, b, z);
        mul_swap(y * y * z, i, z);
        mul_assoc(y * y * z * i * b * dx, z, z);
        mul_swap(y * y * z * z * i * b, dx, z);
        mul_swap(y * y * z * z * i, b, z);
        mul_swap(y * y * z * z, i, z);
        mul_assoc(y * y * z * i * b * dx, z * z, i);
        mul_swap(y * y * z * z * z * i * b, dx, i);
        mul_swap(y * y * z * z * z * i, b, i);
        mul_assoc(y * y * z * i * b * dx, z * z * i, i);
        mul_swap(y * y * z * z * z * i * i * b, dx, i);
        mul_swap(y * y * z * z * z * i * i, b, i);
        mul_assoc(y * y * z * i * b * dx, z * z * i * i, b);
        mul_swap(y * y * z * z * z * i * i * i * b, dx, b);
        mul_eq(y * y * z * i * b * dx, i * i - b, y * y * z * i * b * dx, -b + i * i);
        dist_add_left(y * y * z * i * b * dx, -b, i * i);
        dist_neg_left(y * y * z * i * b * dx, b);
        mul_swap(y * y * z * i * b, dx, b);
        mul_swap(y * y * z * i * b, dx, i);
        mul_swap(y * y * z * i, b, i);
        mul_assoc(y * y * z * i * b * dx, i, i);
        mul_swap(y * y * z * i * i * b, dx, i);
        mul_swap(y * y * z * i * i, b, i);
    }
}

pub(crate) proof fn angle_y_rate(
    x: real,
    y: real,
    z: real,
    i: real,
    b: real,
    dx: real,
    dy: real,
    dz: real,
    dr: real,
    di: real,
    db: real,
)
    requires
        2real * dr == (dx * x + x * dx + (dy * y + y * dy)) * i,
        di == -(dr * (i * i)),
        db == -((dx * x + x * dx + (dy * y + y * dy) + (dz * z + z * dz)) * (b * b)),
        (x * x + y * y) * (i * i) == 1real,
        (x * x + y * y + z * z) * b == 1real,
        z * z * (b * (i * i)) == i * i - b,
    ensures
        (dy * z + y * dz) * (b * i) + y * z * (db * i + b * di)
            == (-x) * y * z * (3real * (x * x + y * y) + z * z) * (i * i * i) * (b * b) * dx
            + z * ((x * x + y * y) * (x * x + y * y + z * z)
            - y * y * (3real * (x * x + y * y) + z * z)) * (i * i * i) * (b * b) * dy
            + y * (x * x + y * y - z * z) * i * (b * b) * dz,
{
    assert(dx * x == x * dx) by {
        mul_comm(dx, x);
    }
    assert(dy * y == y * dy) by {
        mul_comm(dy, y);
    }
    assert((dx * x + x * dx + (dy * y + y * dy)) * i
        == 2real * (x * i * dx) + 2real * (y * i * dy)) by {
        mul_eq(dx * x + x * dx + (dy * y + y * dy), i, 2real * (x * dx) + 2real * (y * dy), i);
        dist_add(2real * (x * dx), 2real * (y * dy), i);
        mul_assoc(2real, x * dx, i);
        mul_swap(x, dx, i);
        mul_assoc(2real, y * dy, i);
        mul_swap(y, dy, i);
    }
    assert(dr * (i * i) == i * i * dr) by {
        mul_comm(dr, i);
        mul_assoc(dr, i, i);
        mul_swap(i, dr, i);
    }
    assert(dz * z == z * dz) by {
        mul_comm(dz, z);
    }
    assert((dx * x + x * dx + (dy * y + y * dy) + (dz * z + z * dz)) * (b * b)
        == 2real * (x * b * b * dx) + 2real * (y * b * b * dy) + 2real * (z * b * b * dz)) by {
        mul_eq(dx * x + x * dx + (dy * y + y * dy) + (dz * z + z * dz), b * b,
            2real * (x * dx) + 2real * (y * dy) + 2real * (z * dz), b * b);
        dist_add(2real * (x * dx) + 2real * (y * dy), 2real * (z * dz), b * b);
        dist_add(2real * (x * dx), 2real * (y * dy), b * b);
        mul_assoc(2real, x * dx, b * b);
        mul_swap(x, dx, b);
        mul_assoc(x * dx, b, b);
        mul_swap(x * b, dx, b);
        mul_assoc(2real, y * dy, b * b);
        mul_swap(y, dy, b);
        mul_assoc(y * dy, b, b);
        mul_swap(y * b, dy, b);
        mul_assoc(2real, z * dz, b * b);
        mul_swap(z, dz, b);
        mul_assoc(z * dz, b, b);
        mul_swap(z * b, dz, b);
    }
    assert((x * x + y * y) * (i * i) == x * x * i * i + y * y * i * i) by {
        dist_add(x * x, y * y, i * i);
        mul_assoc(x * x, i, i);
        mul_assoc(y * y, i, i);
    }
    assert((x * x + y * y + z * z) * b == x * x * b + y * y * b + z * z * b) by {
        dist_add(x * x + y * y, z * z, b);
        dist_add(x * x, y * y, b);
    }
    assert(b * (i * i) == i * i * b) by {
        mul_comm(b, i);
        mul_assoc(b, i, i);
        mul_swap(i, b, i);
    }
    assert(z * z * (b * (i * i)) == z * z * i * i * b) by {
        mul_eq(z * z, b * (i * i), z * z, i * i * b);
        mul_assoc(z * z, i, i);
        mul_assoc(z * z, i * i, b);
    }
    assert(dy * z == z * dy) by {
        mul_comm(dy, z);
    }
    assert(b * i == i * b) by {
        mul_comm(b, i);
    }
    assert((dy * z + y * dz) * (b * i) == y * i * b * dz + z * i * b * dy) by {
        mul_eq(dy * z + y * dz, b * i, y * dz + z * dy, i * b);
        dist_add(y * dz, z * dy, i * b);
        mul_swap(y, dz, i);
        mul_assoc(y * dz, i, b);
        mul_swap(y * i, dz, b);
        mul_swap(z, dy, i);
        mul_assoc(z * dy, i, b);
        mul_swap(z * i, dy, b);
    }
    assert(db * i == i * db) by {
        mul_comm(db, i);
    }
    assert(y * z * (db * i + b * di) == y * z * i * db + y * z * b * di) by {
        mul_eq(y * z, db * i + b * di, y * z, i * db + b * di);
        dist_add_left(y * z, i * db, b * di);
        mul_assoc(y * z, i, db);
        mul_assoc(y * z, b, di);
    }
    assert((-x) * y == -(x * y)) by {
        dist_neg(x, y);
    }
    assert((-x) * y * z == -(x * y * z)) by {
        mul_eq((-x) * y, z, -(x * y), z);
        dist_neg(x * y, z);
    }
    assert((-x) * y * z * (3real * (x * x + y * y) + z * z)
        == -(3real * (x * x * x * y * z)) - 3real * (x * y * y * y * z) - x * y * z * z * z) by {
        mul_eq((-x) * y * z, 3real * (x * x + y * y) + z * z, -(x * y * z),
            3real * (x * x) + 3real * (y * y) + z * z);
        dist_neg(x * y * z, 3real * (x * x) + 3real * (y * y) + z * z);
        dist_add_left(x * y * z, 3real * (x * x) + 3real * (y * y), z * z);
        dist_add_left(x * y * z, 3real * (x * x), 3real * (y * y));
        mul_front(x * y * z, 3real, x * x);
        mul_swap(x * y, z, x);
        mul_swap(x, y, x);
        mul_assoc(x * y * z, x, x);
        mul_swap(x * x * y, z, x);
        mul_swap(x * x, y, x);
        mul_front(x * y * z, 3real, y * y);
        mul_swap(x * y, z, y);
        mul_assoc(x * y * z, y, y);
        mul_swap(x * y * y, z, y);
        mul_assoc(x * y * z, z, z);
    }
    assert((-x) * y * z * (3real * (x * x + y * y) + z * z) * (i * i * i)
        == -(3real * (x * x * x * y * z * i * i * i)) - 3real * (x * y * y * y * z * i * i * i)
        - x * y * z * z * z * i * i * i) by {
        mul_eq((-x) * y * z * (3real * (x * x + y * y) + z * z), i * i * i,
            -(3real * (x * x * x * y * z)) - 3real * (x * y * y * y * z) - x * y * z * z * z,
            i * i * i);
        dist_sub(-(3real * (x * x * x * y * z)) - 3real * (x * y * y * y * z), x * y * z * z * z,
            i * i * i);
        dist_sub(-(3real * (x * x * x * y * z)), 3real * (x * y * y * y * z), i * i * i);
        dist_neg(3real * (x * x * x * y * z), i * i * i);
        mul_assoc(3real, x * x * x * y * z, i * i * i);
        mul_assoc(x * x * x * y * z, i, i);
        mul_assoc(x * x * x * y * z, i * i, i);
        mul_assoc(3real, x * y * y * y * z, i * i * i);
        mul_assoc(x * y * y * y * z, i, i);
        mul_assoc(x * y * y * y * z, i * i, i);
        mul_assoc(x * y * z * z * z, i, i);
        mul_assoc(x * y * z * z * z, i * i, i);
    }
    assert((-x) * y * z * (3real * (x * x + y * y) + z * z) * (i * i * i) * (b * b)
        == -(3real * (x * x * x * y * z * i * i * i * b * b))
        - 3real * (x * y * y * y * z * i * i * i * b * b)
        - x * y * z * z * z * i * i * i * b * b) by {
        mul_eq((-x) * y * z * (3real * (x * x + y * y) + z * z) * (i * i * i), b * b,
            -(3real * (x * x * x * y * z * i * i * i)) - 3real * (x * y * y * y * z * i * i * i)
            - x * y * z * z * z * i * i * i, b * b);
        dist_sub(-(3real * (x * x * x * y * z * i * i * i))
            - 3real * (x * y * y * y * z * i * i * i), x * y * z * z * z * i * i * i, b * b);
        dist_sub(-(3real * (x * x * x * y * z * i * i * i)),
            3real * (x * y * y * y * z * i * i * i), b * b);
        dist_neg(3real * (x * x * x * y * z * i * i * i), b * b);
        mul_assoc(3real, x * x * x * y * z * i * i * i, b * b);
        mul_assoc(x * x * x * y * z * i * i * i, b, b);
        mul_assoc(3real, x * y * y * y * z * i * i * i, b * b);
        mul_assoc(x * y * y * y * z * i * i * i, b, b);
        mul_assoc(x * y * z * z * z * i * i * i, b, b);
    }
    assert((-x) * y * z * (3real * (x * x + y * y) + z * z) * (i * i * i) * (b * b) * dx
        == -(3real * (x * x * x * y * z * i * i * i * b * b * dx))
        - 3real * (x * y * y * y * z * i * i * i * b * b * dx)
        - x * y * z * z * z * i * i * i * b * b * dx) by {
        mul_eq((-x) * y * z * (3real * (x * x + y * y) + z * z) * (i * i * i) * (b * b), dx,
            -(3real * (x * x * x * y * z * i * i * i * b * b))
            - 3real * (x * y * y * y * z * i * i * i * b * b)
            - x * y * z * z * z * i * i * i * b * b, dx);
        dist_sub(-(3real * (x * x * x * y * z * i * i * i * b * b))
            - 3real * (x * y * y * y * z * i * i * i * b * b),
            x * y * z * z * z * i * i * i * b * b, dx);
        dist_sub(-(3real * (x * x * x * y * z * i * i * i * b * b)),
            3real * (x * y * y * y * z * i * i * i * b * b), dx);
        dist_neg(3real * (x * x * x * y * z * i * i * i * b * b), dx);
        mul_assoc(3real, x * x * x * y * z * i * i * i * b * b, dx);
        mul_assoc(3real, x * y * y * y * z * i * i * i * b * b, dx);
    }
    assert((x * x + y * y) * (x * x + y * y + z * z)
        == x * x * x * x + 2real * (x * x * y * y) + x * x * z * z + y * y * y * y
        + y * y * z * z) by {
        dist_add(x * x, y * y, x * x + y * y + z * z);
        dist_add_left(x * x, x * x + y * y, z * z);
        dist_add_left(x * x, x * x, y * y);
        mul_assoc(x * x, x, x);
        mul_assoc(x * x, y, y);
        mul_assoc(x * x, z, z);
        dist_add_left(y * y, x * x + y * y, z * z);
        dist_add_left(y * y, x * x, y * y);
        mul_swap(y, y, x);
        mul_comm(y, x);
        mul_assoc(y * y, x, x);
        mul_swap(x * y, y, x);
        mul_swap(x, y, x);
        mul_assoc(y * y, y, y);
        mul_assoc(y * y, z, z);
    }
    assert(y * y * (3real * (x * x + y * y) + z * z)
        == 3real * (x * x * y * y) + 3real * (y * y * y * y) + y * y * z * z) by {
        mul_eq(y * y, 3real * (x * x + y * y) + z * z, y * y,
            3real * (x * x) + 3real * (y * y) + z * z);
        dist_add_left(y * y, 3real * (x * x) + 3real * (y * y), z * z);
        dist_add_left(y * y, 3real * (x * x), 3real * (y * y));
        mul_front(y * y, 3real, x * x);
        mul_swap(y, y, x);
        mul_comm(y, x);
        mul_assoc(y * y, x, x);
        mul_swap(x * y, y, x);
        mul_swap(x, y, x);
        mul_front(y * y, 3real, y * y);
        mul_assoc(y * y, y, y);
        mul_assoc(y * y, z, z);
    }
    assert(z * ((x * x + y * y) * (x * x + y * y + z * z)
        - y * y * (3real * (x * x + y * y) + z * z))
        == x * x * x * x * z - x * x * y * y * z + x * x * z * z * z
        - 2real * (y * y * y * y * z)) by {
        mul_eq(z, (x * x + y * y) * (x * x + y * y + z * z)
            - y * y * (3real * (x * x + y * y) + z * z), z,
            x * x * x * x - x * x * y * y + x * x * z * z - 2real * (y * y * y * y));
        dist_sub_left(z, x * x * x * x - x * x * y * y + x * x * z * z, 2real * (y * y * y * y));
        dist_add_left(z, x * x * x * x - x * x * y * y, x * x * z * z);
        dist_sub_left(z, x * x * x * x, x * x * y * y);
        mul_comm(z, x);
        mul_assoc(z, x, x);
        mul_swap(x, z, x);
        mul_assoc(z, x * x, x);
        mul_swap(x * x, z, x);
        mul_assoc(z, x * x * x, x);
        mul_swap(x * x * x, z, x);
        mul_comm(z, x);
        mul_assoc(z, x, x);
        mul_swap(x, z, x);
        mul_assoc(z, x * x, y);
        mul_swap(x * x, z, y);
        mul_assoc(z, x * x * y, y);
        mul_swap(x * x * y, z, y);
        mul_comm(z, x);
        mul_assoc(z, x, x);
        mul_swap(x, z, x);
        mul_assoc(z, x * x, z);
        mul_assoc(z, x * x * z, z);
        mul_front(z, 2real, y * y * y * y);
        mul_comm(z, y);
        mul_assoc(z, y, y);
        mul_swap(y, z, y);
        mul_assoc(z, y * y, y);
        mul_swap(y * y, z, y);
        mul_assoc(z, y * y * y, y);
        mul_swap(y * y * y, z, y);
    }
    assert(z * ((x * x + y * y) * (x * x + y * y + z * z)
        - y * y * (3real * (x * x + y * y) + z * z)) * (i * i * i)
        == x * x * x * x * z * i * i * i - x * x * y * y * z * i * i * i
        + x * x * z * z * z * i * i * i - 2real * (y * y * y * y * z * i * i * i)) by {
        mul_eq(z * ((x * x + y * y) * (x * x + y * y + z * z)
            - y * y * (3real * (x * x + y * y) + z * z)), i * i * i,
            x * x * x * x * z - x * x * y * y * z + x * x * z * z * z - 2real * (y * y * y * y * z),
            i * i * i);
        dist_sub(x * x * x * x * z - x * x * y * y * z + x * x * z * z * z,
            2real * (y * y * y * y * z), i * i * i);
        dist_add(x * x * x * x * z - x * x * y * y * z, x * x * z * z * z, i * i * i);
        dist_sub(x * x * x * x * z, x * x * y * y * z, i * i * i);
        mul_assoc(x * x * x * x * z, i, i);
        mul_assoc(x * x * x * x * z, i * i, i);
        mul_assoc(x * x * y * y * z, i, i);
        mul_assoc(x * x * y * y * z, i * i, i);
        mul_assoc(x * x * z * z * z, i, i);
        mul_assoc(x * x * z * z * z, i * i, i);
        mul_assoc(2real, y * y * y * y * z, i * i * i);
        mul_assoc(y * y * y * y * z, i, i);
        mul_assoc(y * y * y * y * z, i * i, i);
    }
    assert(z * ((x * x + y * y) * (x * x + y * y + z * z)
        - y * y * (3real * (x * x + y * y) + z * z)) * (i * i * i) * (b * b)
        == x * x * x * x * z * i * i * i * b * b - x * x * y * y * z * i * i * i * b * b
        + x * x * z * z * z * i * i * i * b * b
        - 2real * (y * y * y * y * z * i * i * i * b * b)) by {
        mul_eq(z * ((x * x + y * y) * (x * x + y * y + z * z)
            - y * y * (3real * (x * x + y * y) + z * z)) * (i * i * i), b * b,
            x * x * x * x * z * i * i * i - x * x * y * y * z * i * i * i
            + x * x * z * z * z * i * i * i - 2real * (y * y * y * y * z * i * i * i), b * b);
        dist_sub(x * x * x * x * z * i * i * i - x * x * y * y * z * i * i * i
            + x * x * z * z * z * i * i * i, 2real * (y * y * y * y * z * i * i * i), b * b);
        dist_add(x * x * x * x * z * i * i * i - x * x * y * y * z * i * i * i,
            x * x * z * z * z * i * i * i, b * b);
        dist_sub(x * x * x * x * z * i * i * i, x * x * y * y * z * i * i * i, b * b);
        mul_assoc(x * x * x * x * z * i * i * i, b, b);
        mul_assoc(x * x * y * y * z * i * i * i, b, b);
        mul_assoc(x * x * z * z * z * i * i * i, b, b);
        mul_assoc(2real, y * y * y * y * z * i * i * i, b * b);
        mul_assoc(y * y * y * y * z * i * i * i, b, b);
    }
    assert(z * ((x * x + y * y) * (x * x + y * y + z * z)
        - y * y * (3real * (x * x + y * y) + z * z)) * (i * i * i) * (b * b) * dy
        == x * x * x * x * z * i * i * i * b * b * dy - x * x * y * y * z * i * i * i * b * b * dy
        + x * x * z * z * z * i * i * i * b * b * dy
        - 2real * (y * y * y * y * z * i * i * i * b * b * dy)) by {
        mul_eq(z * ((x * x + y * y) * (x * x + y * y + z * z)
            - y * y * (3real * (x * x + y * y) + z * z)) * (i * i * i) * (b * b), dy,
            x * x * x * x * z * i * i * i * b * b - x * x * y * y * z * i * i * i * b * b
            + x * x * z * z * z * i * i * i * b * b
            - 2real * (y * y * y * y * z * i * i * i * b * b), dy);
        dist_sub(x * x * x * x * z * i * i * i * b * b - x * x * y * y * z * i * i * i * b * b
            + x * x * z * z * z * i * i * i * b * b,
            2real * (y * y * y * y * z * i * i * i * b * b), dy);
        dist_add(x * x * x * x * z * i * i * i * b * b - x * x * y * y * z * i * i * i * b * b,
            x * x * z * z * z * i * i * i * b * b, dy);
        dist_sub(x * x * x * x * z * i * i * i * b * b, x * x * y * y * z * i * i * i * b * b, dy);
        mul_assoc(2real, y * y * y * y * z * i * i * i * b * b, dy);
    }
    assert(y * (x * x + y * y - z * z) == x * x * y + y * y * y - y * z * z) by {
        dist_sub_left(y, x * x + y * y, z * z);
        dist_add_left(y, x * x, y * y);
        mul_comm(y, x);
        mul_assoc(y, x, x);
        mul_swap(x, y, x);
        mul_assoc(y, y, y);
        mul_assoc(y, z, z);
    }
    assert(y * (x * x + y * y - z * z) * i == x * x * y * i + y * y * y * i - y * z * z * i) by {
        mul_eq(y * (x * x + y * y - z * z), i, x * x * y + y * y * y - y * z * z, i);
        dist_sub(x * x * y + y * y * y, y * z * z, i);
        dist_add(x * x * y, y * y * y, i);
    }
    assert(y * (x * x + y * y - z * z) * i * (b * b)
        == x * x * y * i * b * b + y * y * y * i * b * b - y * z * z * i * b * b) by {
        mul_eq(y * (x * x + y * y - z * z) * i, b * b,
            x * x * y * i + y * y * y * i - y * z * z * i, b * b);
        dist_sub(x * x * y * i + y * y * y * i, y * z * z * i, b * b);
        dist_add(x * x * y * i, y * y * y * i, b * b);
        mul_assoc(x * x * y * i, b, b);
        mul_assoc(y * y * y * i, b, b);
        mul_assoc(y * z * z * i, b, b);
    }
    assert(y * (x * x + y * y - z * z) * i * (b * b) * dz
        == x * x * y * i * b * b * dz + y * y * y * i * b * b * dz
        - y * z * z * i * b * b * dz) by {
        mul_eq(y * (x * x + y * y - z * z) * i * (b * b), dz,
            x * x * y * i * b * b + y * y * y * i * b * b - y * z * z * i * b * b, dz);
        dist_sub(x * x * y * i * b * b + y * y * y * i * b * b, y * z * z * i * b * b, dz);
        dist_add(x * x * y * i * b * b, y * y * y * i * b * b, dz);
    }
    assert(2real * (y * z * i * i * b * dr)
        == 2real * (x * y * z * i * i * i * b * dx) + 2real * (y * y * z * i * i * i * b * dy)) by {
        mul_eq(y * z * i * i * b, 2real * dr, y * z * i * i * b,
            (dx * x + x * dx + (dy * y + y * dy)) * i);
        mul_front(y * z * i * i * b, 2real, dr);
        mul_eq(y * z * i * i * b, (dx * x + x * dx + (dy * y + y * dy)) * i, y * z * i * i * b,
            2real * (x * i * dx) + 2real * (y * i * dy));
        dist_add_left(y * z * i * i * b, 2real * (x * i * dx), 2real * (y * i * dy));
        mul_front(y * z * i * i * b, 2real, x * i * dx);
        mul_swap(y * z * i * i, b, x);
        mul_swap(y * z * i, i, x);
        mul_swap(y * z, i, x);
        mul_swap(y, z, x);
        mul_comm(y, x);
        mul_assoc(y * z * i * i * b, x, i);
        mul_swap(x * y * z * i * i, b, i);
        mul_assoc(y * z * i * i * b, x * i, dx);
        mul_front(y * z * i * i * b, 2real, y * i * dy);
        mul_swap(y * z * i * i, b, y);
        mul_swap(y * z * i, i, y);
        mul_swap(y * z, i, y);
        mul_swap(y, z, y);
        mul_assoc(y * z * i * i * b, y, i);
        mul_swap(y * y * z * i * i, b, i);
        mul_assoc(y * z * i * i * b, y * i, dy);
    }
    assert(y * z * b * di == -(y * z * i * i * b * dr)) by {
        mul_eq(y * z * b, di, y * z * b, -(dr * (i * i)));
        mul_eq(y * z * b, -(dr * (i * i)), y * z * b, -(i * i * dr));
        dist_neg_left(y * z * b, i * i * dr);
        mul_swap(y * z, b, i);
        mul_assoc(y * z * b, i, i);
        mul_swap(y * z * i, b, i);
        mul_assoc(y * z * b, i * i, dr);
    }
    assert(y * z * i * db == -(2real * (x * y * z * i * b * b * dx))
        - 2real * (y * y * z * i * b * b * dy) - 2real * (y * z * z * i * b * b * dz)) by {
        mul_eq(y * z * i, db, y * z * i,
            -((dx * x + x * dx + (dy * y + y * dy) + (dz * z + z * dz)) * (b * b)));
        mul_eq(y * z * i, -((dx * x + x * dx + (dy * y + y * dy) + (dz * z + z * dz)) * (b * b)),
            y * z * i, -(2real * (x * b * b * dx)) - 2real * (y * b * b * dy)
            - 2real * (z * b * b * dz));
        dist_sub_left(y * z * i, -(2real * (x * b * b * dx)) - 2real * (y * b * b * dy),
            2real * (z * b * b * dz));
        dist_sub_left(y * z * i, -(2real * (x * b * b * dx)), 2real * (y * b * b * dy));
        dist_neg_left(y * z * i, 2real * (x * b * b * dx));
        mul_front(y * z * i, 2real, x * b * b * dx);
        mul_swap(y * z, i, x);
        mul_swap(y, z, x);
        mul_comm(y, x);
        mul_assoc(y * z * i, x, b);
        mul_assoc(y * z * i, x * b, b);
        mul_assoc(y * z * i, x * b * b, dx);
        mul_front(y * z * i, 2real, y * b * b * dy);
        mul_swap(y * z, i, y);
        mul_swap(y, z, y);
        mul_assoc(y * z * i, y, b);
        mul_assoc(y * z * i, y * b, b);
        mul_assoc(y * z * i, y * b * b, dy);
        mul_front(y * z * i, 2real, z * b * b * dz);
        mul_swap(y * z, i, z);
        mul_assoc(y * z * i, z, b);
        mul_assoc(y * z * i, z * b, b);
        mul_assoc(y * z * i, z * b * b, dz);
    }
    assert(x * x * x * x * z * i * i * i * b * b * dy + x * x * y * y * z * i * i * i * b * b * dy
        == x * x * z * i * b * b * dy) by {
        mul_eq(x * x * z * i * b * b * dy, (x * x + y * y) * (i * i), x * x * z * i * b * b * dy,
            1real);
        mul_eq(x * x * z * i * b * b * dy, (x * x + y * y) * (i * i), x * x * z * i * b * b * dy,
            x * x * i * i + y * y * i * i);
        dist_add_left(x * x * z * i * b * b * dy, x * x * i * i, y * y * i * i);
        mul_swap(x * x * z * i * b * b, dy, x);
        mul_swap(x * x * z * i * b, b, x);
        mul_swap(x * x * z * i, b, x);
        mul_swap(x * x * z, i, x);
        mul_swap(x * x, z, x);
        mul_assoc(x * x * z * i * b * b * dy, x, x);
        mul_swap(x * x * x * z * i * b * b, dy, x);
        mul_swap(x * x * x * z * i * b, b, x);
        mul_swap(x * x * x * z * i, b, x);
        mul_swap(x * x * x * z, i, x);
        mul_swap(x * x * x, z, x);
        mul_assoc(x * x * z * i * b * b * dy, x * x, i);
        mul_swap(x * x * x * x * z * i * b * b, dy, i);
        mul_swap(x * x * x * x * z * i * b, b, i);
        mul_swap(x * x * x * x * z * i, b, i);
        mul_assoc(x * x * z * i * b * b * dy, x * x * i, i);
        mul_swap(x * x * x * x * z * i * i * b * b, dy, i);
        mul_swap(x * x * x * x * z * i * i * b, b, i);
        mul_swap(x * x * x * x * z * i * i, b, i);
        mul_swap(x * x * z * i * b * b, dy, y);
        mul_swap(x * x * z * i * b, b, y);
        mul_swap(x * x * z * i, b, y);
        mul_swap(x * x * z, i, y);
        mul_swap(x * x, z, y);
        mul_assoc(x * x * z * i * b * b * dy, y, y);
        mul_swap(x * x * y * z * i * b * b, dy, y);
        mul_swap(x * x * y * z * i * b, b, y);
        mul_swap(x * x * y * z * i, b, y);
        mul_swap(x * x * y * z, i, y);
        mul_swap(x * x * y, z, y);
        mul_assoc(x * x * z * i * b * b * dy, y * y, i);
        mul_swap(x * x * y * y * z * i * b * b, dy, i);
        mul_swap(x * x * y * y * z * i * b, b, i);
        mul_swap(x * x * y * y * z * i, b, i);
        mul_assoc(x * x * z * i * b * b * dy, y * y * i, i);
        mul_swap(x * x * y * y * z * i * i * b * b, dy, i);
        mul_swap(x * x * y * y * z * i * i * b, b, i);
        mul_swap(x * x * y * y * z * i * i, b, i);
    }
    assert(x * x * x * y * z * i * i * i * b * b * dx + x * y * y * y * z * i * i * i * b * b * dx
        == x * y * z * i * b * b * dx) by {
        mul_eq(x * y * z * i * b * b * dx, (x * x + y * y) * (i * i), x * y * z * i * b * b * dx,
            1real);
        mul_eq(x * y * z * i * b * b * dx, (x * x + y * y) * (i * i), x * y * z * i * b * b * dx,
            x * x * i * i + y * y * i * i);
        dist_add_left(x * y * z * i * b * b * dx, x * x * i * i, y * y * i * i);
        mul_swap(x * y * z * i * b * b, dx, x);
        mul_swap(x * y * z * i * b, b, x);
        mul_swap(x * y * z * i, b, x);
        mul_swap(x * y * z, i, x);
        mul_swap(x * y, z, x);
        mul_swap(x, y, x);
        mul_assoc(x * y * z * i * b * b * dx, x, x);
        mul_swap(x * x * y * z * i * b * b, dx, x);
        mul_swap(x * x * y * z * i * b, b, x);
        mul_swap(x * x * y * z * i, b, x);
        mul_swap(x * x * y * z, i, x);
        mul_swap(x * x * y, z, x);
        mul_swap(x * x, y, x);
        mul_assoc(x * y * z * i * b * b * dx, x * x, i);
        mul_swap(x * x * x * y * z * i * b * b, dx, i);
        mul_swap(x * x * x * y * z * i * b, b, i);
        mul_swap(x * x * x * y * z * i, b, i);
        mul_assoc(x * y * z * i * b * b * dx, x * x * i, i);
        mul_swap(x * x * x * y * z * i * i * b * b, dx, i);
        mul_swap(x * x * x * y * z * i * i * b, b, i);
        mul_swap(x * x * x * y * z * i * i, b, i);
        mul_swap(x * y * z * i * b * b, dx, y);
        mul_swap(x * y * z * i * b, b, y);
        mul_swap(x * y * z * i, b, y);
        mul_swap(x * y * z, i, y);
        mul_swap(x * y, z, y);
        mul_assoc(x * y * z * i * b * b * dx, y, y);
        mul_swap(x * y * y * z * i * b * b, dx, y);
        mul_swap(x * y * y * z * i * b, b, y);
        mul_swap(x * y * y * z * i, b, y);
        mul_swap(x * y * y * z, i, y);
        mul_swap(x * y * y, z, y);
        mul_assoc(x * y * z * i * b * b * dx, y * y, i);
        mul_swap(x * y * y * y * z * i * b * b, dx, i);
        mul_swap(x * y * y * y * z * i * b, b, i);
        mul_swap(x * y * y * y * z * i, b, i);
        mul_assoc(x * y * z * i * b * b * dx, y * y * i, i);
        mul_swap(x * y * y * y * z * i * i * b * b, dx, i);
        mul_swap(x * y * y * y * z * i * i * b, b, i);
        mul_swap(x * y * y * y * z * i * i, b, i);
    }
    assert(x * x * y * y * z * i * i * i * b * b * dy + y * y * y * y * z * i * i * i * b * b * dy
        == y * y * z * i * b * b * dy) by {
        mul_eq(y * y * z * i * b * b * dy, (x * x + y * y) * (i * i), y * y * z * i * b * b * dy,
            1real);
        mul_eq(y * y * z * i * b * b * dy, (x * x + y * y) * (i * i), y * y * z * i * b * b * dy,
            x * x * i * i + y * y * i * i);
        dist_add_left(y * y * z * i * b * b * dy, x * x * i * i, y * y * i * i);
        mul_swap(y * y * z * i * b * b, dy, x);
        mul_swap(y * y * z * i * b, b, x);
        mul_swap(y * y * z * i, b, x);
        mul_swap(y * y * z, i, x);
        mul_swap(y * y, z, x);
        mul_swap(y, y, x);
        mul_comm(y, x);
        mul_assoc(y * y * z * i * b * b * dy, x, x);
        mul_swap(x * y * y * z * i * b * b, dy, x);
        mul_swap(x * y * y * z * i * b, b, x);
        mul_swap(x * y * y * z * i, b, x);
        mul_swap(x * y * y * z, i, x);
        mul_swap(x * y * y, z, x);
        mul_swap(x * y, y, x);
        mul_swap(x, y, x);
        mul_assoc(y * y * z * i * b * b * dy, x * x, i);
        mul_swap(x * x * y * y * z * i * b * b, dy, i);
        mul_swap(x * x * y * y * z * i * b, b, i);
        mul_swap(x * x * y * y * z * i, b, i);
        mul_assoc(y * y * z * i * b * b * dy, x * x * i, i);
        mul_swap(x * x * y * y * z * i * i * b * b, dy, i);
        mul_swap(x * x * y * y * z * i * i * b, b, i);
        mul_swap(x * x * y * y * z * i * i, b, i);
        mul_swap(y * y * z * i * b * b, dy, y);
        mul_swap(y * y * z * i * b, b, y);
        mul_swap(y * y * z * i, b, y);
        mul_swap(y * y * z, i, y);
        mul_swap(y * y, z, y);
        mul_assoc(y * y * z * i * b * b * dy, y, y);
        mul_swap(y * y * y * z * i * b * b, dy, y);
        mul_swap(y * y * y * z * i * b, b, y);
        mul_swap(y * y * y * z * i, b, y);
        mul_swap(y * y * y * z, i, y);
        mul_swap(y * y * y, z, y);
        mul_assoc(y * y * z * i * b * b * dy, y * y, i);
        mul_swap(y * y * y * y * z * i * b * b, dy, i);
        mul_swap(y * y * y * y * z * i * b, b, i);
        mul_swap(y * y * y * y * z * i, b, i);
        mul_assoc(y * y * z * i * b * b * dy, y * y * i, i);
        mul_swap(y * y * y * y * z * i * i * b * b, dy, i);
        mul_swap(y * y * y * y * z * i * i * b, b, i);
        mul_swap(y * y * y * y * z * i * i, b, i);
    }
    assert(x * x * z * z * z * i * i * i * b * b * dy + y * y * z * z * z * i * i * i * b * b * dy
        == z * z * z * i * b * b * dy) by {
        mul_eq(z * z * z * i * b * b * dy, (x * x + y * y) * (i * i), z * z * z * i * b * b * dy,
            1real);
        mul_eq(z * z * z * i * b * b * dy, (x * x + y * y) * (i * i), z * z * z * i * b * b * dy,
            x * x * i * i + y * y * i * i);
        dist_add_left(z * z * z * i * b * b * dy, x * x * i * i, y * y * i * i);
        mul_swap(z * z * z * i * b * b, dy, x);
        mul_swap(z * z * z * i * b, b, x);
        mul_swap(z * z * z * i, b, x);
        mul_swap(z * z * z, i, x);
        mul_swap(z * z, z, x);
        mul_swap(z, z, x);
        mul_comm(z, x);
        mul_assoc(z * z * z * i * b * b * dy, x, x);
        mul_swap(x * z * z * z * i * b * b, dy, x);
        mul_swap(x * z * z * z * i * b, b, x);
        mul_swap(x * z * z * z * i, b, x);
        mul_swap(x * z * z * z, i, x);
        mul_swap(x * z * z, z, x);
        mul_swap(x * z, z, x);
        mul_swap(x, z, x);
        mul_assoc(z * z * z * i * b * b * dy, x * x, i);
        mul_swap(x * x * z * z * z * i * b * b, dy, i);
        mul_swap(x * x * z * z * z * i * b, b, i);
        mul_swap(x * x * z * z * z * i, b, i);
        mul_assoc(z * z * z * i * b * b * dy, x * x * i, i);
        mul_swap(x * x * z * z * z * i * i * b * b, dy, i);
        mul_swap(x * x * z * z * z * i * i * b, b, i);
        mul_swap(x * x * z * z * z * i * i, b, i);
        mul_swap(z * z * z * i * b * b, dy, y);
        mul_swap(z * z * z * i * b, b, y);
        mul_swap(z * z * z * i, b, y);
        mul_swap(z * z * z, i, y);
        mul_swap(z * z, z, y);
        mul_swap(z, z, y);
        mul_comm(z, y);
        mul_assoc(z * z * z * i * b * b * dy, y, y);
        mul_swap(y * z * z * z * i * b * b, dy, y);
        mul_swap(y * z * z * z * i * b, b, y);
        mul_swap(y * z * z * z * i, b, y);
        mul_swap(y * z * z * z, i, y);
        mul_swap(y * z * z, z, y);
        mul_swap(y * z, z, y);
        mul_swap(y, z, y);
        mul_assoc(z * z * z * i * b * b * dy, y * y, i);
        mul_swap(y * y * z * z * z * i * b * b, dy, i);
        mul_swap(y * y * z * z * z * i * b, b, i);
        mul_swap(y * y * z * z * z * i, b, i);
        mul_assoc(z * z * z * i * b * b * dy, y * y * i, i);
        mul_swap(y * y * z * z * z * i * i * b * b, dy, i);
        mul_swap(y * y * z * z * z * i * i * b, b, i);
        mul_swap(y * y * z * z * z * i * i, b, i);
    }
    assert(x * x * y * i * b * b * dz + y * y * y * i * b * b * dz + y * z * z * i * b * b * dz
        == y * i * b * dz) by {
        mul_eq(y * i * b * dz, (x * x + y * y + z * z) * b, y * i * b * dz, 1real);
        mul_eq(y * i * b * dz, (x * x + y * y + z * z) * b, y * i * b * dz,
            x * x * b + y * y * b + z * z * b);
        dist_add_left(y * i * b * dz, x * x * b + y * y * b, z * z * b);
        dist_add_left(y * i * b * dz, x * x * b, y * y * b);
        mul_swap(y * i * b, dz, x);
        mul_swap(y * i, b, x);
        mul_swap(y, i, x);
        mul_comm(y, x);
        mul_assoc(y * i * b * dz, x, x);
        mul_swap(x * y * i * b, dz, x);
        mul_swap(x * y * i, b, x);
        mul_swap(x * y, i, x);
        mul_swap(x, y, x);
        mul_assoc(y * i * b * dz, x * x, b);
        mul_swap(x * x * y * i * b, dz, b);
        mul_swap(y * i * b, dz, y);
        mul_swap(y * i, b, y);
        mul_swap(y, i, y);
        mul_assoc(y * i * b * dz, y, y);
        mul_swap(y * y * i * b, dz, y);
        mul_swap(y * y * i, b, y);
        mul_swap(y * y, i, y);
        mul_assoc(y * i * b * dz, y * y, b);
        mul_swap(y * y * y * i * b, dz, b);
        mul_swap(y * i * b, dz, z);
        mul_swap(y * i, b, z);
        mul_swap(y, i, z);
        mul_assoc(y * i * b * dz, z, z);
        mul_swap(y * z * i * b, dz, z);
        mul_swap(y * z * i, b, z);
        mul_swap(y * z, i, z);
        mul_assoc(y * i * b * dz, z * z, b);
        mul_swap(y * z * z * i * b, dz, b);
    }
    assert(x * x * z * i * b * b * dy + y * y * z * i * b * b * dy + z * z * z * i * b * b * dy
        == z * i * b * dy) by {
        mul_eq(z * i * b * dy, (x * x + y * y + z * z) * b, z * i * b * dy, 1real);
        mul_eq(z * i * b * dy, (x * x + y * y + z * z) * b, z * i * b * dy,
            x * x * b + y * y * b + z * z * b);
        dist_add_left(z * i * b * dy, x * x * b + y * y * b, z * z * b);
        dist_add_left(z * i * b * dy, x * x * b, y * y * b);
        mul_swap(z * i * b, dy, x);
        mul_swap(z * i, b, x);
        mul_swap(z, i, x);
        mul_comm(z, x);
        mul_assoc(z * i * b * dy, x, x);
        mul_swap(x * z * i * b, dy, x);
        mul_swap(x * z * i, b, x);
        mul_swap(x * z, i, x);
        mul_swap(x, z, x);
        mul_assoc(z * i * b * dy, x * x, b);
        mul_swap(x * x * z * i * b, dy, b);
        mul_swap(z * i * b, dy, y);
        mul_swap(z * i, b, y);
        mul_swap(z, i, y);
        mul_comm(z, y);
        mul_assoc(z * i * b * dy, y, y);
        mul_swap(y * z * i * b, dy, y);
        mul_swap(y * z * i, b, y);
        mul_swap(y * z, i, y);
        mul_swap(y, z, y);
        mul_assoc(z * i * b * dy, y * y, b);
        mul_swap(y * y * z * i * b, dy, b);
        mul_swap(z * i * b, dy, z);
        mul_swap(z * i, b, z);
        mul_swap(z, i, z);
        mul_assoc(z * i * b * dy, z, z);
        mul_swap(z * z * i * b, dy, z);
        mul_swap(z * z * i, b, z);
        mul_swap(z * z, i, z);
        mul_assoc(z * i * b * dy, z * z, b);
        mul_swap(z * z * z * i * b, dy, b);
    }
    assert(x * y * z * z * z * i * i * i * b * b * dx
        == -(x * y * z * i * b * b * dx) + x * y * z * i * i * i * b * dx) by {
        mul_eq(x * y * z * i * b * dx, z * z * (b * (i * i)), x * y * z * i * b * dx, i * i - b);
        mul_eq(x * y * z * i * b * dx, z * z * (b * (i * i)), x * y * z * i * b * dx,
            z * z * i * i * b);
        mul_swap(x * y * z * i * b, dx, z);
        mul_swap(x * y * z * i, b, z);
        mul_swap(x * y * z, i, z);
        mul_assoc(x * y * z * i * b * dx, z, z);
        mul_swap(x * y * z * z * i * b, dx, z);
        mul_swap(x * y * z * z * i, b, z);
        mul_swap(x * y * z * z, i, z);
        mul_assoc(x * y * z * i * b * dx, z * z, i);
        mul_swap(x * y * z * z * z * i * b, dx, i);
        mul_swap(x * y * z * z * z * i, b, i);
        mul_assoc(x * y * z * i * b * dx, z * z * i, i);
        mul_swap(x * y * z * z * z * i * i * b, dx, i);
        mul_swap(x * y * z * z * z * i * i, b, i);
        mul_assoc(x * y * z * i * b * dx, z * z * i * i, b);
        mul_swap(x * y * z * z * z * i * i * i * b, dx, b);
        mul_eq(x * y * z * i * b * dx, i * i - b, x * y * z * i * b * dx, -b + i * i);
        dist_add_left(x * y * z * i * b * dx, -b, i * i);
        dist_neg_left(x * y * z * i * b * dx, b);
        mul_swap(x * y * z * i * b, dx, b);
        mul_swap(x * y * z * i * b, dx, i);
        mul_swap(x * y * z * i, b, i);
        mul_assoc(x * y * z * i * b * dx, i, i);
        mul_swap(x * y * z * i * i * b, dx, i);
        mul_swap(x * y * z * i * i, b, i);
    }
    assert(y * y * z * z * z * i * i * i * b * b * dy
        == -(y * y * z * i * b * b * dy) + y * y * z * i * i * i * b * dy) by {
        mul_eq(y * y * z * i * b * dy, z * z * (b * (i * i)), y * y * z * i * b * dy, i * i - b);
        mul_eq(y * y * z * i * b * dy, z * z * (b * (i * i)), y * y * z * i * b * dy,
            z * z * i * i * b);
        mul_swap(y * y * z * i * b, dy, z);
        mul_swap(y * y * z * i, b, z);
        mul_swap(y * y * z, i, z);
        mul_assoc(y * y * z * i * b * dy, z, z);
        mul_swap(y * y * z * z * i * b, dy, z);
        mul_swap(y * y * z * z * i, b, z);
        mul_swap(y * y * z * z, i, z);
        mul_assoc(y * y * z * i * b * dy, z * z, i);
        mul_swap(y * y * z * z * z * i * b, dy, i);
        mul_swap(y * y * z * z * z * i, b, i);
        mul_assoc(y * y * z * i * b * dy, z * z * i, i);
        mul_swap(y * y * z * z * z * i * i * b, dy, i);
        mul_swap(y * y * z * z * z * i * i, b, i);
        mul_assoc(y * y * z * i * b * dy, z * z * i * i, b);
        mul_swap(y * y * z * z * z * i * i * i * b, dy, b);
        mul_eq(y * y * z * i * b * dy, i * i - b, y * y * z * i * b * dy, -b + i * i);
        dist_add_left(y * y * z * i * b * dy, -b, i * i);
        dist_neg_left(y * y * z * i * b * dy, b);
        mul_swap(y * y * z * i * b, dy, b);
        mul_swap(y * y * z * i * b, dy, i);
        mul_swap(y * y * z * i, b, i);
        mul_assoc(y * y * z * i * b * dy, i, i);
        mul_swap(y * y * z * i * i * b, dy, i);
        mul_swap(y * y * z * i * i, b, i);
    }
}

pub(crate) proof fn angle_z_rate(
    x: real,
    y: real,
    z: real,
    r: real,
    i: real,
    b: real,
    dx: real,
    dy: real,
    dz: real,
    dr: real,
    db: real,
)
    requires
        2real * dr == (dx * x + x * dx + (dy * y + y * dy)) * i,
        db == -((dx * x + x * dx + (dy * y + y * dy) + (dz * z + z * dz)) * (b * b)),
        (x * x + y * y) * (i * i) == 1real,
        (x * x + y * y + z * z) * b == 1real,
        z * z * (b * (i * i)) == i * i - b,
        r * i == 1real,
        r * r == x * x + y * y,
    ensures
        (-dr) * b + (-r) * db == x * (x * x + y * y - z * z) * i * (b * b) * dx
            + y * (x * x + y * y - z * z) * i * (b * b) * dy + 2real * z * r * (b * b) * dz,
{
    assert(dx * x == x * dx) by {
        mul_comm(dx, x);
    }
    assert(dy * y == y * dy) by {
        mul_comm(dy, y);
    }
    assert((dx * x + x * dx + (dy * y + y * dy)) * i
        == 2real * (x * i * dx) + 2real * (y * i * dy)) by {
        mul_eq(dx * x + x * dx + (dy * y + y * dy), i, 2real * (x * dx) + 2real * (y * dy), i);
        dist_add(2real * (x * dx), 2real * (y * dy), i);
        mul_assoc(2real, x * dx, i);
        mul_swap(x, dx, i);
        mul_assoc(2real, y * dy, i);
        mul_swap(y, dy, i);
    }
    assert(dz * z == z * dz) by {
        mul_comm(dz, z);
    }
    assert((dx * x + x * dx + (dy * y + y * dy) + (dz * z + z * dz)) * (b * b)
        == 2real * (x * b * b * dx) + 2real * (y * b * b * dy) + 2real * (z * b * b * dz)) by {
        mul_eq(dx * x + x * dx + (dy * y + y * dy) + (dz * z + z * dz), b * b,
            2real * (x * dx) + 2real * (y * dy) + 2real * (z * dz), b * b);
        dist_add(2real * (x * dx) + 2real * (y * dy), 2real * (z * dz), b * b);
        dist_add(2real * (x * dx), 2real * (y * dy), b * b);
        mul_assoc(2real, x * dx, b * b);
        mul_swap(x, dx, b);
        mul_assoc(x * dx, b, b);
        mul_swap(x * b, dx, b);
        mul_assoc(2real, y * dy, b * b);
        mul_swap(y, dy, b);
        mul_assoc(y * dy, b, b);
        mul_swap(y * b, dy, b);
        mul_assoc(2real, z * dz, b * b);
        mul_swap(z, dz, b);
        mul_assoc(z * dz, b, b);
        mul_swap(z * b, dz, b);
    }
    assert((x * x + y * y) * (i * i) == x * x * i * i + y * y * i * i) by {
        dist_add(x * x, y * y, i * i);
        mul_assoc(x * x, i, i);
        mul_assoc(y * y, i, i);
    }
    assert((x * x + y * y + z * z) * b == x * x * b + y * y * b + z * z * b) by {
        dist_add(x * x + y * y, z * z, b);
        dist_add(x * x, y * y, b);
    }
    assert(b * (i * i) == i * i * b) by {
        mul_comm(b, i);
        mul_assoc(b, i, i);
        mul_swap(i, b, i);
    }
    assert(z * z * (b * (i * i)) == z * z * i * i * b) by {
        mul_eq(z * z, b * (i * i), z * z, i * i * b);
        mul_assoc(z * z, i, i);
        mul_assoc(z * z, i * i, b);
    }
    assert((-dr) * b == -(b * dr)) by {
        dist_neg(dr, b);
        mul_comm(dr, b);
    }
    assert((-r) * db == -(r * db)) by {
        dist_neg(r, db);
    }
    assert(x * (x * x + y * y - z * z) == x * x * x + x * y * y - x * z * z) by {
        dist_sub_left(x, x * x + y * y, z * z);
        dist_add_left(x, x * x, y * y);
        mul_assoc(x, x, x);
        mul_assoc(x, y, y);
        mul_assoc(x, z, z);
    }
    assert(x * (x * x + y * y - z * z) * i == x * x * x * i + x * y * y * i - x * z * z * i) by {
        mul_eq(x * (x * x + y * y - z * z), i, x * x * x + x * y * y - x * z * z, i);
        dist_sub(x * x * x + x * y * y, x * z * z, i);
        dist_add(x * x * x, x * y * y, i);
    }
    assert(x * (x * x + y * y - z * z) * i * (b * b)
        == x * x * x * i * b * b + x * y * y * i * b * b - x * z * z * i * b * b) by {
        mul_eq(x * (x * x + y * y - z * z) * i, b * b,
            x * x * x * i + x * y * y * i - x * z * z * i, b * b);
        dist_sub(x * x * x * i + x * y * y * i, x * z * z * i, b * b);
        dist_add(x * x * x * i, x * y * y * i, b * b);
        mul_assoc(x * x * x * i, b, b);
        mul_assoc(x * y * y * i, b, b);
        mul_assoc(x * z * z * i, b, b);
    }
    assert(x * (x * x + y * y - z * z) * i * (b * b) * dx
        == x * x * x * i * b * b * dx + x * y * y * i * b * b * dx
        - x * z * z * i * b * b * dx) by {
        mul_eq(x * (x * x + y * y - z * z) * i * (b * b), dx,
            x * x * x * i * b * b + x * y * y * i * b * b - x * z * z * i * b * b, dx);
        dist_sub(x * x * x * i * b * b + x * y * y * i * b * b, x * z * z * i * b * b, dx);
        dist_add(x * x * x * i * b * b, x * y * y * i * b * b, dx);
    }
    assert(y * (x * x + y * y - z * z) == x * x * y + y * y * y - y * z * z) by {
        dist_sub_left(y, x * x + y * y, z * z);
        dist_add_left(y, x * x, y * y);
        mul_comm(y, x);
        mul_assoc(y, x, x);
        mul_swap(x, y, x);
        mul_assoc(y, y, y);
        mul_assoc(y, z, z);
    }
    assert(y * (x * x + y * y - z * z) * i == x * x * y * i + y * y * y * i - y * z * z * i) by {
        mul_eq(y * (x * x + y * y - z * z), i, x * x * y + y * y * y - y * z * z, i);
        dist_sub(x * x * y + y * y * y, y * z * z, i);
        dist_add(x * x * y, y * y * y, i);
    }
    assert(y * (x * x + y * y - z * z) * i * (b * b)
        == x * x * y * i * b * b + y * y * y * i * b * b - y * z * z * i * b * b) by {
        mul_eq(y * (x * x + y * y - z * z) * i, b * b,
            x * x * y * i + y * y * y * i - y * z * z * i, b * b);
        dist_sub(x * x * y * i + y * y * y * i, y * z * z * i, b * b);
        dist_add(x * x * y * i, y * y * y * i, b * b);
        mul_assoc(x * x * y * i, b, b);
        mul_assoc(y * y * y * i, b, b);
        mul_assoc(y * z * z * i, b, b);
    }
    assert(y * (x * x + y * y - z * z) * i * (b * b) * dy
        == x * x * y * i * b * b * dy + y * y * y * i * b * b * dy
        - y * z * z * i * b * b * dy) by {
        mul_eq(y * (x * x + y * y - z * z) * i * (b * b), dy,
            x * x * y * i * b * b + y * y * y * i * b * b - y * z * z * i * b * b, dy);
        dist_sub(x * x * y * i * b * b + y * y * y * i * b * b, y * z * z * i * b * b, dy);
        dist_add(x * x * y * i * b * b, y * y * y * i * b * b, dy);
    }
    assert(2real * z * r == 2real * (z * r)) by {
        mul_assoc(2real, z, r);
    }
    assert(2real * z * r * (b * b) == 2real * (z * r * b * b)) by {
        mul_eq(2real * z * r, b * b, 2real * (z * r), b * b);
        mul_assoc(2real, z * r, b * b);
        mul_assoc(z * r, b, b);
    }
    assert(2real * z * r * (b * b) * dz == 2real * (z * r * b * b * dz)) by {
        mul_eq(2real * z * r * (b * b), dz, 2real * (z * r * b * b), dz);
        mul_assoc(2real, z * r * b * b, dz);
    }
    assert(x * x * y * i * b * b * dy + y * y * y * i * b * b * dy + y * z * z * i * b * b * dy
        == y * i * b * dy) by {
        mul_eq(y * i * b * dy, (x * x + y * y + z * z) * b, y * i * b * dy, 1real);
        mul_eq(y * i * b * dy, (x * x + y * y + z * z) * b, y * i * b * dy,
            x * x * b + y * y * b + z * z * b);
        dist_add_left(y * i * b * dy, x * x * b + y * y * b, z * z * b);
        dist_add_left(y * i * b * dy, x * x * b, y * y * b);
        mul_swap(y * i * b, dy, x);
        mul_swap(y * i, b, x);
        mul_swap(y, i, x);
        mul_comm(y, x);
        mul_assoc(y * i * b * dy, x, x);
        mul_swap(x * y * i * b, dy, x);
        mul_swap(x * y * i, b, x);
        mul_swap(x * y, i, x);
        mul_swap(x, y, x);
        mul_assoc(y * i * b * dy, x * x, b);
        mul_swap(x * x * y * i * b, dy, b);
        mul_swap(y * i * b, dy, y);
        mul_swap(y * i, b, y);
        mul_swap(y, i, y);
        mul_assoc(y * i * b * dy, y, y);
        mul_swap(y * y * i * b, dy, y);
        mul_swap(y * y * i, b, y);
        mul_swap(y * y, i, y);
        mul_assoc(y * i * b * dy, y * y, b);
        mul_swap(y * y * y * i * b, dy, b);
        mul_swap(y * i * b, dy, z);
        mul_swap(y * i, b, z);
        mul_swap(y, i, z);
        mul_assoc(y * i * b * dy, z, z);
        mul_swap(y * z * i * b, dy, z);
        mul_swap(y * z * i, b, z);
        mul_swap(y * z, i, z);
        mul_assoc(y * i * b * dy, z * z, b);
        mul_swap(y * z * z * i * b, dy, b);
    }
    assert(x * x * x * i * b * b * dx + x * y * y * i * b * b * dx + x * z * z * i * b * b * dx
        == x * i * b * dx) by {
        mul_eq(x * i * b * dx, (x * x + y * y + z * z) * b, x * i * b * dx, 1real);
        mul_eq(x * i * b * dx, (x * x + y * y + z * z) * b, x * i * b * dx,
            x * x * b + y * y * b + z * z * b);
        dist_add_left(x * i * b * dx, x * x * b + y * y * b, z * z * b);
        dist_add_left(x * i * b * dx, x * x * b, y * y * b);
        mul_swap(x * i * b, dx, x);
        mul_swap(x * i, b, x);
        mul_swap(x, i, x);
        mul_assoc(x * i * b * dx, x, x);
        mul_swap(x * x * i * b, dx, x);
        mul_swap(x * x * i, b, x);
        mul_swap(x * x, i, x);
        mul_assoc(x * i * b * dx, x * x, b);
        mul_swap(x * x * x * i * b, dx, b);
        mul_swap(x * i * b, dx, y);
        mul_swap(x * i, b, y);
        mul_swap(x, i, y);
        mul_assoc(x * i * b * dx, y, y);
        mul_swap(x * y * i * b, dx, y);
        mul_swap(x * y * i, b, y);
        mul_swap(x * y, i, y);
        mul_assoc(x * i * b * dx, y * y, b);
        mul_swap(x * y * y * i * b, dx, b);
        mul_swap(x * i * b, dx, z);
        mul_swap(x * i, b, z);
        mul_swap(x, i, z);
        mul_assoc(x * i * b * dx, z, z);
        mul_swap(x * z * i * b, dx, z);
        mul_swap(x * z * i, b, z);
        mul_swap(x * z, i, z);
        mul_assoc(x * i * b * dx, z * z, b);
        mul_swap(x * z * z * i * b, dx, b);
    }
    assert(2real * (y * y * b * b * dr)
        == 2real * (x * y * y * i * b * b * dx) + 2real * (y * y * y * i * b * b * dy)) by {
        mul_eq(y * y * b * b, 2real * dr, y * y * b * b, (dx * x + x * dx + (dy * y + y * dy)) * i);
        mul_front(y * y * b * b, 2real, dr);
        mul_eq(y * y * b * b, (dx * x + x * dx + (dy * y + y * dy)) * i, y * y * b * b,
            2real * (x * i * dx) + 2real * (y * i * dy));
        dist_add_left(y * y * b * b, 2real * (x * i * dx), 2real * (y * i * dy));
        mul_front(y * y * b * b, 2real, x * i * dx);
        mul_swap(y * y * b, b, x);
        mul_swap(y * y, b, x);
        mul_swap(y, y, x);
        mul_comm(y, x);
        mul_assoc(y * y * b * b, x, i);
        mul_swap(x * y * y * b, b, i);
        mul_swap(x * y * y, b, i);
        mul_assoc(y * y * b * b, x * i, dx);
        mul_front(y * y * b * b, 2real, y * i * dy);
        mul_swap(y * y * b, b, y);
        mul_swap(y * y, b, y);
        mul_assoc(y * y * b * b, y, i);
        mul_swap(y * y * y * b, b, i);
        mul_swap(y * y * y, b, i);
        mul_assoc(y * y * b * b, y * i, dy);
    }
    assert(2real * (x * x * b * b * dr)
        == 2real * (x * x * x * i * b * b * dx) + 2real * (x * x * y * i * b * b * dy)) by {
        mul_eq(x * x * b * b, 2real * dr, x * x * b * b, (dx * x + x * dx + (dy * y + y * dy)) * i);
        mul_front(x * x * b * b, 2real, dr);
        mul_eq(x * x * b * b, (dx * x + x * dx + (dy * y + y * dy)) * i, x * x * b * b,
            2real * (x * i * dx) + 2real * (y * i * dy));
        dist_add_left(x * x * b * b, 2real * (x * i * dx), 2real * (y * i * dy));
        mul_front(x * x * b * b, 2real, x * i * dx);
        mul_swap(x * x * b, b, x);
        mul_swap(x * x, b, x);
        mul_assoc(x * x * b * b, x, i);
        mul_swap(x * x * x * b, b, i);
        mul_swap(x * x * x, b, i);
        mul_assoc(x * x * b * b, x * i, dx);
        mul_front(x * x * b * b, 2real, y * i * dy);
        mul_swap(x * x * b, b, y);
        mul_swap(x * x, b, y);
        mul_assoc(x * x * b * b, y, i);
        mul_swap(x * x * y * b, b, i);
        mul_swap(x * x * y, b, i);
        mul_assoc(x * x * b * b, y * i, dy);
    }
    assert(2real * (r * r * b * b * dr)
        == 2real * (x * r * r * i * b * b * dx) + 2real * (y * r * r * i * b * b * dy)) by {
        mul_eq(r * r * b * b, 2real * dr, r * r * b * b, (dx * x + x * dx + (dy * y + y * dy)) * i);
        mul_front(r * r * b * b, 2real, dr);
        mul_eq(r * r * b * b, (dx * x + x * dx + (dy * y + y * dy)) * i, r * r * b * b,
            2real * (x * i * dx) + 2real * (y * i * dy));
        dist_add_left(r * r * b * b, 2real * (x * i * dx), 2real * (y * i * dy));
        mul_front(r * r * b * b, 2real, x * i * dx);
        mul_swap(r * r * b, b, x);
        mul_swap(r * r, b, x);
        mul_swap(r, r, x);
        mul_comm(r, x);
        mul_assoc(r * r * b * b, x, i);
        mul_swap(x * r * r * b, b, i);
        mul_swap(x * r * r, b, i);
        mul_assoc(r * r * b * b, x * i, dx);
        mul_front(r * r * b * b, 2real, y * i * dy);
        mul_swap(r * r * b, b, y);
        mul_swap(r * r, b, y);
        mul_swap(r, r, y);
        mul_comm(r, y);
        mul_assoc(r * r * b * b, y, i);
        mul_swap(y * r * r * b, b, i);
        mul_swap(y * r * r, b, i);
        mul_assoc(r * r * b * b, y * i, dy);
    }
    assert(2real * (b * dr) == 2real * (x * i * b * dx) + 2real * (y * i * b * dy)) by {
        mul_eq(b, 2real * dr, b, (dx * x + x * dx + (dy * y + y * dy)) * i);
        mul_front(b, 2real, dr);
        mul_eq(b, (dx * x + x * dx + (dy * y + y * dy)) * i, b,
            2real * (x * i * dx) + 2real * (y * i * dy));
        dist_add_left(b, 2real * (x * i * dx), 2real * (y * i * dy));
        mul_front(b, 2real, x * i * dx);
        mul_comm(b, x);
        mul_assoc(b, x, i);
        mul_swap(x, b, i);
        mul_assoc(b, x * i, dx);
        mul_front(b, 2real, y * i * dy);
        mul_comm(b, y);
        mul_assoc(b, y, i);
        mul_swap(y, b, i);
        mul_assoc(b, y * i, dy);
    }
    assert(r * db == -(2real * (x * r * b * b * dx)) - 2real * (y * r * b * b * dy)
        - 2real * (z * r * b * b * dz)) by {
        mul_eq(r, db, r, -((dx * x + x * dx + (dy * y + y * dy) + (dz * z + z * dz)) * (b * b)));
        mul_eq(r, -((dx * x + x * dx + (dy * y + y * dy) + (dz * z + z * dz)) * (b * b)), r,
            -(2real * (x * b * b * dx)) - 2real * (y * b * b * dy) - 2real * (z * b * b * dz));
        dist_sub_left(r, -(2real * (x * b * b * dx)) - 2real * (y * b * b * dy),
            2real * (z * b * b * dz));
        dist_sub_left(r, -(2real * (x * b * b * dx)), 2real * (y * b * b * dy));
        dist_neg_left(r, 2real * (x * b * b * dx));
        mul_front(r, 2real, x * b * b * dx);
        mul_comm(r, x);
        mul_assoc(r, x, b);
        mul_assoc(r, x * b, b);
        mul_assoc(r, x * b * b, dx);
        mul_front(r, 2real, y * b * b * dy);
        mul_comm(r, y);
        mul_assoc(r, y, b);
        mul_assoc(r, y * b, b);
        mul_assoc(r, y * b * b, dy);
        mul_front(r, 2real, z * b * b * dz);
        mul_comm(r, z);
        mul_assoc(r, z, b);
        mul_assoc(r, z * b, b);
        mul_assoc(r, z * b * b, dz);
    }
    assert(r * r * b * b * dr == x * x * b * b * dr + y * y * b * b * dr) by {
        mul_eq(b * b * dr, r * r, b * b * dr, x * x + y * y);
        mul_swap(b * b, dr, r);
        mul_swap(b, b, r);
        mul_comm(b, r);
        mul_assoc(b * b * dr, r, r);
        mul_swap(r * b * b, dr, r);
        mul_swap(r * b, b, r);
        mul_swap(r, b, r);
        dist_add_left(b * b * dr, x * x, y * y);
        mul_swap(b * b, dr, x);
        mul_swap(b, b, x);
        mul_comm(b, x);
        mul_assoc(b * b * dr, x, x);
        mul_swap(x * b * b, dr, x);
        mul_swap(x * b, b, x);
        mul_swap(x, b, x);
        mul_swap(b * b, dr, y);
        mul_swap(b, b, y);
        mul_comm(b, y);
        mul_assoc(b * b * dr, y, y);
        mul_swap(y * b * b, dr, y);
        mul_swap(y * b, b, y);
        mul_swap(y, b, y);
    }
    assert(y * r * r * i * b * b * dy == y * r * b * b * dy) by {
        mul_eq(y * r * b * b * dy, r * i, y * r * b * b * dy, 1real);
        mul_swap(y * r * b * b, dy, r);
        mul_swap(y * r * b, b, r);
        mul_swap(y * r, b, r);
        mul_assoc(y * r * b * b * dy, r, i);
        mul_swap(y * r * r * b * b, dy, i);
        mul_swap(y * r * r * b, b, i);
        mul_swap(y * r * r, b, i);
    }
    assert(x * r * r * i * b * b * dx == x * r * b * b * dx) by {
        mul_eq(x * r * b * b * dx, r * i, x * r * b * b * dx, 1real);
        mul_swap(x * r * b * b, dx, r);
        mul_swap(x * r * b, b, r);
        mul_swap(x * r, b, r);
        mul_assoc(x * r * b * b * dx, r, i);
        mul_swap(x * r * r * b * b, dx, i);
        mul_swap(x * r * r * b, b, i);
        mul_swap(x * r * r, b, i);
    }
}

pub(crate) proof fn entry_x(
    f: real,
    gr: real,
    g0: real,
    g1: real,
    g2: real,
    w: real,
    wr: real,
    dr: real,
    d: real,
    bx: real,
    by: real,
    br: real,
    a0: real,
    a1: real,
    a2: real,
    k0: real,
    k1: real,
    dx: real,
    dy: real,
    dz: real,
)
    requires
        gr == a0 * dx + a1 * dy + a2 * dz,
        wr == bx * dx + by * dy,
        dr == g0 * dx + g1 * dy + g2 * dz,
        br == k0 * dx + k1 * dy,
    ensures
        f * (gr * w + g0 * wr + (dr * bx + d * br))
            == f * (a0 * w + g0 * bx + g0 * bx + d * k0) * dx
            + f * (a1 * w + g0 * by + g1 * bx + d * k1) * dy
            + f * (a2 * w + g2 * bx + g0 * 0real) * dz,
{
    assert(f * (gr * w + g0 * wr + (dr * bx + d * br))
        == f * gr * w + f * g0 * wr + f * dr * bx + f * d * br) by {
        mul_eq(f, gr * w + g0 * wr + (dr * bx + d * br), f, gr * w + g0 * wr + dr * bx + d * br);
        dist_add_left(f, gr * w + g0 * wr + dr * bx, d * br);
        dist_add_left(f, gr * w + g0 * wr, dr * bx);
        dist_add_left(f, gr * w, g0 * wr);
        mul_assoc(f, gr, w);
        mul_assoc(f, g0, wr);
        mul_assoc(f, dr, bx);
        mul_assoc(f, d, br);
    }
    assert(a0 * w == w * a0) by {
        mul_comm(a0, w);
    }
    assert(f * (a0 * w + g0 * bx + g0 * bx + d * k0)
        == 2real * (f * g0 * bx) + f * w * a0 + f * d * k0) by {
        mul_eq(f, a0 * w + g0 * bx + g0 * bx + d * k0, f, 2real * (g0 * bx) + w * a0 + d * k0);
        dist_add_left(f, 2real * (g0 * bx) + w * a0, d * k0);
        dist_add_left(f, 2real * (g0 * bx), w * a0);
        mul_front(f, 2real, g0 * bx);
        mul_assoc(f, g0, bx);
        mul_assoc(f, w, a0);
        mul_assoc(f, d, k0);
    }
    assert(f * (a0 * w + g0 * bx + g0 * bx + d * k0) * dx
        == 2real * (f * g0 * bx * dx) + f * w * a0 * dx + f * d * k0 * dx) by {
        mul_eq(f * (a0 * w + g0 * bx + g0 * bx + d * k0), dx,
            2real * (f * g0 * bx) + f * w * a0 + f * d * k0, dx);
        dist_add(2real * (f * g0 * bx) + f * w * a0, f * d * k0, dx);
        dist_add(2real * (f * g0 * bx), f * w * a0, dx);
        mul_assoc(2real, f * g0 * bx, dx);
    }
    assert(a1 * w == w * a1) by {
        mul_comm(a1, w);
    }
    assert(f * (a1 * w + g0 * by + g1 * bx + d * k1)
        == f * g0 * by + f * g1 * bx + f * w * a1 + f * d * k1) by {
        mul_eq(f, a1 * w + g0 * by + g1 * bx + d * k1, f, g0 * by + g1 * bx + w * a1 + d * k1);
        dist_add_left(f, g0 * by + g1 * bx + w * a1, d * k1);
        dist_add_left(f, g0 * by + g1 * bx, w * a1);
        dist_add_left(f, g0 * by, g1 * bx);
        mul_assoc(f, g0, by);
        mul_assoc(f, g1, bx);
        mul_assoc(f, w, a1);
        mul_assoc(f, d, k1);
    }
    assert(f * (a1 * w + g0 * by + g1 * bx + d * k1) * dy
        == f * g0 * by * dy + f * g1 * bx * dy + f * w * a1 * dy + f * d * k1 * dy) by {
        mul_eq(f * (a1 * w + g0 * by + g1 * bx + d * k1), dy,
            f * g0 * by + f * g1 * bx + f * w * a1 + f * d * k1, dy);
        dist_add(f * g0 * by + f * g1 * bx + f * w * a1, f * d * k1, dy);
        dist_add(f * g0 * by + f * g1 * bx, f * w * a1, dy);
        dist_add(f * g0 * by, f * g1 * bx, dy);
    }
    assert(a2 * w == w * a2) by {
        mul_comm(a2, w);
    }
    assert(f * (a2 * w + g2 * bx + g0 * 0real) == f * g2 * bx + f * w * a2) by {
        mul_eq(f, a2 * w + g2 * bx + g0 * 0real, f, g2 * bx + w * a2);
        dist_add_left(f, g2 * bx, w * a2);
        mul_assoc(f, g2, bx);
        mul_assoc(f, w, a2);
    }
    assert(f * (a2 * w + g2 * bx + g0 * 0real) * dz == f * g2 * bx * dz + f * w * a2 * dz) by {
        mul_eq(f * (a2 * w + g2 * bx + g0 * 0real), dz, f * g2 * bx + f * w * a2, dz);
        dist_add(f * g2 * bx, f * w * a2, dz);
    }
    assert(f * gr * w == f * w * a0 * dx + f * w * a1 * dy + f * w * a2 * dz) by {
        mul_eq(f * w, gr, f * w, a0 * dx + a1 * dy + a2 * dz);
        mul_swap(f, w, gr);
        dist_add_left(f * w, a0 * dx + a1 * dy, a2 * dz);
        dist_add_left(f * w, a0 * dx, a1 * dy);
        mul_assoc(f * w, a0, dx);
        mul_assoc(f * w, a1, dy);
        mul_assoc(f * w, a2, dz);
    }
    assert(f * g0 * wr == f * g0 * bx * dx + f * g0 * by * dy) by {
        mul_eq(f * g0, wr, f * g0, bx * dx + by * dy);
        dist_add_left(f * g0, bx * dx, by * dy);
        mul_assoc(f * g0, bx, dx);
        mul_assoc(f * g0, by, dy);
    }
    assert(f * dr * bx == f * g0 * bx * dx + f * g1 * bx * dy + f * g2 * bx * dz) by {
        mul_eq(f * bx, dr, f * bx, g0 * dx + g1 * dy + g2 * dz);
        mul_swap(f, bx, dr);
        dist_add_left(f * bx, g0 * dx + g1 * dy, g2 * dz);
        dist_add_left(f * bx, g0 * dx, g1 * dy);
        mul_swap(f, bx, g0);
        mul_assoc(f * bx, g0, dx);
        mul_swap(f, bx, g1);
        mul_assoc(f * bx, g1, dy);
        mul_swap(f, bx, g2);
        mul_assoc(f * bx, g2, dz);
    }
    assert(f * d * br == f * d * k0 * dx + f * d * k1 * dy) by {
        mul_eq(f * d, br, f * d, k0 * dx + k1 * dy);
        dist_add_left(f * d, k0 * dx, k1 * dy);
        mul_assoc(f * d, k0, dx);
        mul_assoc(f * d, k1, dy);
    }
}

pub(crate) proof fn entry_y(
    f: real,
    gr: real,
    g0: real,
    g1: real,
    g2: real,
    w: real,
    wr: real,
    dr: real,
    d: real,
    bx: real,
    by: real,
    br: real,
    a0: real,
    a1: real,
    a2: real,
    k0: real,
    k1: real,
    dx: real,
    dy: real,
    dz: real,
)
    requires
        gr == a0 * dx + a1 * dy + a2 * dz,
        wr == bx * dx + by * dy,
        dr == g0 * dx + g1 * dy + g2 * dz,
        br == k0 * dx + k1 * dy,
    ensures
        f * (gr * w + g1 * wr + (dr * by + d * br))
            == f * (a0 * w + g1 * bx + g0 * by + d * k0) * dx
            + f * (a1 * w + g1 * by + g1 * by + d * k1) * dy
            + f * (a2 * w + g2 * by + g1 * 0real) * dz,
{
    assert(f * (gr * w + g1 * wr + (dr * by + d * br))
        == f * gr * w + f * g1 * wr + f * dr * by + f * d * br) by {
        mul_eq(f, gr * w + g1 * wr + (dr * by + d * br), f, gr * w + g1 * wr + dr * by + d * br);
        dist_add_left(f, gr * w + g1 * wr + dr * by, d * br);
        dist_add_left(f, gr * w + g1 * wr, dr * by);
        dist_add_left(f, gr * w, g1 * wr);
        mul_assoc(f, gr, w);
        mul_assoc(f, g1, wr);
        mul_assoc(f, dr, by);
        mul_assoc(f, d, br);
    }
    assert(a0 * w == w * a0) by {
        mul_comm(a0, w);
    }
    assert(f * (a0 * w + g1 * bx + g0 * by + d * k0)
        == f * g0 * by + f * g1 * bx + f * w * a0 + f * d * k0) by {
        mul_eq(f, a0 * w + g1 * bx + g0 * by + d * k0, f, g0 * by + g1 * bx + w * a0 + d * k0);
        dist_add_left(f, g0 * by + g1 * bx + w * a0, d * k0);
        dist_add_left(f, g0 * by + g1 * bx, w * a0);
        dist_add_left(f, g0 * by, g1 * bx);
        mul_assoc(f, g0, by);
        mul_assoc(f, g1, bx);
        mul_assoc(f, w, a0);
        mul_assoc(f, d, k0);
    }
    assert(f * (a0 * w + g1 * bx + g0 * by + d * k0) * dx
        == f * g0 * by * dx + f * g1 * bx * dx + f * w * a0 * dx + f * d * k0 * dx) by {
        mul_eq(f * (a0 * w + g1 * bx + g0 * by + d * k0), dx,
            f * g0 * by + f * g1 * bx + f * w * a0 + f * d * k0, dx);
        dist_add(f * g0 * by + f * g1 * bx + f * w * a0, f * d * k0, dx);
        dist_add(f * g0 * by + f * g1 * bx, f * w * a0, dx);
        dist_add(f * g0 * by, f * g1 * bx, dx);
    }
    assert(a1 * w == w * a1) by {
        mul_comm(a1, w);
    }
    assert(f * (a1 * w + g1 * by + g1 * by + d * k1)
        == 2real * (f * g1 * by) + f * w * a1 + f * d * k1) by {
        mul_eq(f, a1 * w + g1 * by + g1 * by + d * k1, f, 2real * (g1 * by) + w * a1 + d * k1);
        dist_add_left(f, 2real * (g1 * by) + w * a1, d * k1);
        dist_add_left(f, 2real * (g1 * by), w * a1);
        mul_front(f, 2real, g1 * by);
        mul_assoc(f, g1, by);
        mul_assoc(f, w, a1);
        mul_assoc(f, d, k1);
    }
    assert(f * (a1 * w + g1 * by + g1 * by + d * k1) * dy
        == 2real * (f * g1 * by * dy) + f * w * a1 * dy + f * d * k1 * dy) by {
        mul_eq(f * (a1 * w + g1 * by + g1 * by + d * k1), dy,
            2real * (f * g1 * by) + f * w * a1 + f * d * k1, dy);
        dist_add(2real * (f * g1 * by) + f * w * a1, f * d * k1, dy);
        dist_add(2real * (f * g1 * by), f * w * a1, dy);
        mul_assoc(2real, f * g1 * by, dy);
    }
    assert(a2 * w == w * a2) by {
        mul_comm(a2, w);
    }
    assert(f * (a2 * w + g2 * by + g1 * 0real) == f * g2 * by + f * w * a2) by {
        mul_eq(f, a2 * w + g2 * by + g1 * 0real, f, g2 * by + w * a2);
        dist_add_left(f, g2 * by, w * a2);
        mul_assoc(f, g2, by);
        mul_assoc(f, w, a2);
    }
    assert(f * (a2 * w + g2 * by + g1 * 0real) * dz == f * g2 * by * dz + f * w * a2 * dz) by {
        mul_eq(f * (a2 * w + g2 * by + g1 * 0real), dz, f * g2 * by + f * w * a2, dz);
        dist_add(f * g2 * by, f * w * a2, dz);
    }
    assert(f * gr * w == f * w * a0 * dx + f * w * a1 * dy + f * w * a2 * dz) by {
        mul_eq(f * w, gr, f * w, a0 * dx + a1 * dy + a2 * dz);
        mul_swap(f, w, gr);
        dist_add_left(f * w, a0 * dx + a1 * dy, a2 * dz);
        dist_add_left(f * w, a0 * dx, a1 * dy);
        mul_assoc(f * w, a0, dx);
        mul_assoc(f * w, a1, dy);
        mul_assoc(f * w, a2, dz);
    }
    assert(f * g1 * wr == f * g1 * bx * dx + f * g1 * by * dy) by {
        mul_eq(f * g1, wr, f * g1, bx * dx + by * dy);
        dist_add_left(f * g1, bx * dx, by * dy);
        mul_assoc(f * g1, bx, dx);
        mul_assoc(f * g1, by, dy);
    }
    assert(f * dr * by == f * g0 * by * dx + f * g1 * by * dy + f * g2 * by * dz) by {
        mul_eq(f * by, dr, f * by, g0 * dx + g1 * dy + g2 * dz);
        mul_swap(f, by, dr);
        dist_add_left(f * by, g0 * dx + g1 * dy, g2 * dz);
        dist_add_left(f * by, g0 * dx, g1 * dy);
        mul_swap(f, by, g0);
        mul_assoc(f * by, g0, dx);
        mul_swap(f, by, g1);
        mul_assoc(f * by, g1, dy);
        mul_swap(f, by, g2);
        mul_assoc(f * by, g2, dz);
    }
    assert(f * d * br == f * d * k0 * dx + f * d * k1 * dy) by {
        mul_eq(f * d, br, f * d, k0 * dx + k1 * dy);
        dist_add_left(f * d, k0 * dx, k1 * dy);
        mul_assoc(f * d, k0, dx);
        mul_assoc(f * d, k1, dy);
    }
}

pub(crate) proof fn entry_z(
    f: real,
    gr: real,
    g0: real,
    g1: real,
    g2: real,
    w: real,
    wr: real,
    bx: real,
    by: real,
    a0: real,
    a1: real,
    a2: real,
    dx: real,
    dy: real,
    dz: real,
)
    requires
        gr == a0 * dx + a1 * dy + a2 * dz,
        wr == bx * dx + by * dy,
    ensures
        f * (gr * w + g2 * wr) == f * (a0 * w + g0 * 0real + g2 * bx) * dx
            + f * (a1 * w + g1 * 0real + g2 * by) * dy + f * (a2 * w) * dz,
{
    assert(f * (gr * w + g2 * wr) == f * gr * w + f * g2 * wr) by {
        dist_add_left(f, gr * w, g2 * wr);
        mul_assoc(f, gr, w);
        mul_assoc(f, g2, wr);
    }
    assert(a0 * w == w * a0) by {
        mul_comm(a0, w);
    }
    assert(f * (a0 * w + g0 * 0real + g2 * bx) == f * g2 * bx + f * w * a0) by {
        mul_eq(f, a0 * w + g0 * 0real + g2 * bx, f, g2 * bx + w * a0);
        dist_add_left(f, g2 * bx, w * a0);
        mul_assoc(f, g2, bx);
        mul_assoc(f, w, a0);
    }
    assert(f * (a0 * w + g0 * 0real + g2 * bx) * dx == f * g2 * bx * dx + f * w * a0 * dx) by {
        mul_eq(f * (a0 * w + g0 * 0real + g2 * bx), dx, f * g2 * bx + f * w * a0, dx);
        dist_add(f * g2 * bx, f * w * a0, dx);
    }
    assert(a1 * w == w * a1) by {
        mul_comm(a1, w);
    }
    assert(f * (a1 * w + g1 * 0real + g2 * by) == f * g2 * by + f * w * a1) by {
        mul_eq(f, a1 * w + g1 * 0real + g2 * by, f, g2 * by + w * a1);
        dist_add_left(f, g2 * by, w * a1);
        mul_assoc(f, g2, by);
        mul_assoc(f, w, a1);
    }
    assert(f * (a1 * w + g1 * 0real + g2 * by) * dy == f * g2 * by * dy + f * w * a1 * dy) by {
        mul_eq(f * (a1 * w + g1 * 0real + g2 * by), dy, f * g2 * by + f * w * a1, dy);
        dist_add(f * g2 * by, f * w * a1, dy);
    }
    assert(a2 * w == w * a2) by {
        mul_comm(a2, w);
    }
    assert(f * (a2 * w) == f * w * a2) by {
        mul_eq(f, a2 * w, f, w * a2);
        mul_assoc(f, w, a2);
    }
    assert(f * (a2 * w) * dz == f * w * a2 * dz) by {
        mul_eq(f * (a2 * w), dz, f * w * a2, dz);
    }
    assert(f * gr * w == f * w * a0 * dx + f * w * a1 * dy + f * w * a2 * dz) by {
        mul_eq(f * w, gr, f * w, a0 * dx + a1 * dy + a2 * dz);
        mul_swap(f, w, gr);
        dist_add_left(f * w, a0 * dx + a1 * dy, a2 * dz);
        dist_add_left(f * w, a0 * dx, a1 * dy);
        mul_assoc(f * w, a0, dx);
        mul_assoc(f * w, a1, dy);
        mul_assoc(f * w, a2, dz);
    }
    assert(f * g2 * wr == f * g2 * bx * dx + f * g2 * by * dy) by {
        mul_eq(f * g2, wr, f * g2, bx * dx + by * dy);
        dist_add_left(f * g2, bx * dx, by * dy);
        mul_assoc(f * g2, bx, dx);
        mul_assoc(f * g2, by, dy);
    }
}

pub(crate) proof fn image_rate(
    f: real,
    w: real,
    wr: real,
    d: real,
    dr: real,
    g0: real,
    g1: real,
    g2: real,
    bx: real,
    by: real,
    dx: real,
    dy: real,
    dz: real,
)
    requires
        wr == bx * dx + by * dy,
        dr == g0 * dx + g1 * dy + g2 * dz,
    ensures
        f * (dr * w + d * wr) == f * (g0 * w + d * bx) * dx + f * (g1 * w + d * by) * dy
            + f * (g2 * w) * dz,
{
    assert(dr * w == w * dr) by {
        mul_comm(dr, w);
    }
    assert(d * wr == wr * d) by {
        mul_comm(d, wr);
    }
    assert(f * (dr * w + d * wr) == f * w * dr + f * wr * d) by {
        mul_eq(f, dr * w + d * wr, f, w * dr + wr * d);
        dist_add_left(f, w * dr, wr * d);
        mul_assoc(f, w, dr);
        mul_assoc(f, wr, d);
    }
    assert(g0 * w == w * g0) by {
        mul_comm(g0, w);
    }
    assert(f * (g0 * w + d * bx) == f * w * g0 + f * d * bx) by {
        mul_eq(f, g0 * w + d * bx, f, w * g0 + d * bx);
        dist_add_left(f, w * g0, d * bx);
        mul_assoc(f, w, g0);
        mul_assoc(f, d, bx);
    }
    assert(f * (g0 * w + d * bx) * dx == f * w * g0 * dx + f * d * bx * dx) by {
        mul_eq(f * (g0 * w + d * bx), dx, f * w * g0 + f * d * bx, dx);
        dist_add(f * w * g0, f * d * bx, dx);
    }
    assert(g1 * w == w * g1) by {
        mul_comm(g1, w);
    }
    assert(f * (g1 * w + d * by) == f * w * g1 + f * d * by) by {
        mul_eq(f, g1 * w + d * by, f, w * g1 + d * by);
        dist_add_left(f, w * g1, d * by);
        mul_assoc(f, w, g1);
        mul_assoc(f, d, by);
    }
    assert(f * (g1 * w + d * by) * dy == f * w * g1 * dy + f * d * by * dy) by {
        mul_eq(f * (g1 * w + d * by), dy, f * w * g1 + f * d * by, dy);
        dist_add(f * w * g1, f * d * by, dy);
    }
    assert(g2 * w == w * g2) by {
        mul_comm(g2, w);
    }
    assert(f * (g2 * w) == f * w * g2) by {
        mul_eq(f, g2 * w, f, w * g2);
        mul_assoc(f, w, g2);
    }
    assert(f * (g2 * w) * dz == f * w * g2 * dz) by {
        mul_eq(f * (g2 * w), dz, f * w * g2, dz);
    }
    assert(f * wr * d == f * d * bx * dx + f * d * by * dy) by {
        mul_eq(f * d, wr, f * d, bx * dx + by * dy);
        mul_swap(f, d, wr);
        dist_add_left(f * d, bx * dx, by * dy);
        mul_assoc(f * d, bx, dx);
        mul_assoc(f * d, by, dy);
    }
    assert(f * w * dr == f * w * g0 * dx + f * w * g1 * dy + f * w * g2 * dz) by {
        mul_eq(f * w, dr, f * w, g0 * dx + g1 * dy + g2 * dz);
        dist_add_left(f * w, g0 * dx + g1 * dy, g2 * dz);
        dist_add_left(f * w, g0 * dx, g1 * dy);
        mul_assoc(f * w, g0, dx);
        mul_assoc(f * w, g1, dy);
        mul_assoc(f * w, g2, dz);
    }
}

pub(crate) proof fn image_shape(dr: real, x: real, i: real, d: real, dx: real, di: real)
    ensures
        (dr * x + d * dx) * i + d * x * di == dr * (x * i) + d * (dx * i + x * di),
{
    assert((dr * x + d * dx) * i == dr * x * i + i * d * dx) by {
        dist_add(dr * x, d * dx, i);
        mul_swap(d, dx, i);
        mul_comm(d, i);
    }
    assert(d * x == x * d) by {
        mul_comm(d, x);
    }
    assert(d * x * di == x * d * di) by {
        mul_eq(d * x, di, x * d, di);
    }
    assert(dr * (x * i) == dr * x * i) by {
        mul_assoc(dr, x, i);
    }
    assert(dx * i == i * dx) by {
        mul_comm(dx, i);
    }
    assert(d * (dx * i + x * di) == x * d * di + i * d * dx) by {
        mul_eq(d, dx * i + x * di, d, x * di + i * dx);
        dist_add_left(d, x * di, i * dx);
        mul_comm(d, x);
        mul_assoc(d, x, di);
        mul_comm(d, i);
        mul_assoc(d, i, dx);
    }
}

pub(crate) proof fn chain_product(
    p2: real,
    dt: real,
    t: real,
    p1: real,
    tr: real,
    h0: real,
    h1: real,
    h2: real,
    t0: real,
    t1: real,
    t2: real,
    dx: real,
    dy: real,
    dz: real,
)
    requires
        dt == t0 * dx + t1 * dy + t2 * dz,
        tr == h0 * dx + h1 * dy + h2 * dz,
    ensures
        p2 * dt * t + p1 * tr == (p2 * t0 * t + p1 * h0) * dx + (p2 * t1 * t + p1 * h1) * dy
            + (p2 * t2 * t + p1 * h2) * dz,
{
    assert(p2 * t0 * t == p2 * t * t0) by {
        mul_swap(p2, t0, t);
    }
    assert((p2 * t0 * t + p1 * h0) * dx == p1 * h0 * dx + p2 * t * t0 * dx) by {
        mul_eq(p2 * t0 * t + p1 * h0, dx, p1 * h0 + p2 * t * t0, dx);
        dist_add(p1 * h0, p2 * t * t0, dx);
    }
    assert(p2 * t1 * t == p2 * t * t1) by {
        mul_swap(p2, t1, t);
    }
    assert((p2 * t1 * t + p1 * h1) * dy == p1 * h1 * dy + p2 * t * t1 * dy) by {
        mul_eq(p2 * t1 * t + p1 * h1, dy, p1 * h1 + p2 * t * t1, dy);
        dist_add(p1 * h1, p2 * t * t1, dy);
    }
    assert(p2 * t2 * t == p2 * t * t2) by {
        mul_swap(p2, t2, t);
    }
    assert((p2 * t2 * t + p1 * h2) * dz == p1 * h2 * dz + p2 * t * t2 * dz) by {
        mul_eq(p2 * t2 * t + p1 * h2, dz, p1 * h2 + p2 * t * t2, dz);
        dist_add(p1 * h2, p2 * t * t2, dz);
    }
    assert(p2 * dt * t == p2 * t * t0 * dx + p2 * t * t1 * dy + p2 * t * t2 * dz) by {
        mul_eq(p2 * t, dt, p2 * t, t0 * dx + t1 * dy + t2 * dz);
        mul_swap(p2, t, dt);
        dist_add_left(p2 * t, t0 * dx + t1 * dy, t2 * dz);
        dist_add_left(p2 * t, t0 * dx, t1 * dy);
        mul_assoc(p2 * t, t0, dx);
        mul_assoc(p2 * t, t1, dy);
        mul_assoc(p2 * t, t2, dz);
    }
    assert(p1 * tr == p1 * h0 * dx + p1 * h1 * dy + p1 * h2 * dz) by {
        mul_eq(p1, tr, p1, h0 * dx + h1 * dy + h2 * dz);
        dist_add_left(p1, h0 * dx + h1 * dy, h2 * dz);
        dist_add_left(p1, h0 * dx, h1 * dy);
        mul_assoc(p1, h0, dx);
        mul_assoc(p1, h1, dy);
        mul_assoc(p1, h2, dz);
    }
}

pub(crate) proof fn chain_slope(
    p: real,
    t0: real,
    t1: real,
    t2: real,
    dt: real,
    dx: real,
    dy: real,
    dz: real,
)
    requires
        dt == t0 * dx + t1 * dy + t2 * dz,
    ensures
        p * dt == p * t0 * dx + p * t1 * dy + p * t2 * dz,
{
    assert(p * dt == p * t0 * dx + p * t1 * dy + p * t2 * dz) by {
        mul_eq(p, dt, p, t0 * dx + t1 * dy + t2 * dz);
        dist_add_left(p, t0 * dx + t1 * dy, t2 * dz);
        dist_add_left(p, t0 * dx, t1 * dy);
        mul_assoc(p, t0, dx);
        mul_assoc(p, t1, dy);
        mul_assoc(p, t2, dz);
    }
}

pub(crate) proof fn covariance_pairing(
    v00: real,
    v01: real,
    v11: real,
    jx0: real,
    jy0: real,
    jx1: real,
    jy1: real,
    jx2: real,
    jy2: real,
    ex0: real,
    ey0: real,
    ex1: real,
    ey1: real,
    ex2: real,
    ey2: real,
    c00: real,
    c01: real,
    c02: real,
    c11: real,
    c12: real,
    c22: real,
)
    ensures
        v00 * (2real * (ex0 * (c00 * jx0 + c01 * jx1 + c02 * jx2)
            + ex1 * (c01 * jx0 + c11 * jx1 + c12 * jx2)
            + ex2 * (c02 * jx0 + c12 * jx1 + c22 * jx2)))
            + 2real * v01 * (ex0 * (c00 * jy0 + c01 * jy1 + c02 * jy2)
            + ex1 * (c01 * jy0 + c11 * jy1 + c12 * jy2) + ex2 * (c02 * jy0 + c12 * jy1 + c22 * jy2)
            + (ey0 * (c00 * jx0 + c01 * jx1 + c02 * jx2) + ey1 * (c01 * jx0 + c11 * jx1 + c12 * jx2)
            + ey2 * (c02 * jx0 + c12 * jx1 + c22 * jx2)))
            + v11 * (2real * (ey0 * (c00 * jy0 + c01 * jy1 + c02 * jy2)
            + ey1 * (c01 * jy0 + c11 * jy1 + c12 * jy2)
            + ey2 * (c02 * jy0 + c12 * jy1 + c22 * jy2)))
            == 2real * ((v00 * jx0 + v01 * jy0) * c00 + (v00 * jx1 + v01 * jy1) * c01
            + (v00 * jx2 + v01 * jy2) * c02) * ex0
            + 2real * ((v01 * jx0 + v11 * jy0) * c00 + (v01 * jx1 + v11 * jy1) * c01
            + (v01 * jx2 + v11 * jy2) * c02) * ey0
            + 2real * ((v00 * jx0 + v01 * jy0) * c01 + (v00 * jx1 + v01 * jy1) * c11
            + (v00 * jx2 + v01 * jy2) * c12) * ex1
            + 2real * ((v01 * jx0 + v11 * jy0) * c01 + (v01 * jx1 + v11 * jy1) * c11
            + (v01 * jx2 + v11 * jy2) * c12) * ey1
            + 2real * ((v00 * jx0 + v01 * jy0) * c02 + (v00 * jx1 + v01 * jy1) * c12
            + (v00 * jx2 + v01 * jy2) * c22) * ex2
            + 2real * ((v01 * jx0 + v11 * jy0) * c02 + (v01 * jx1 + v11 * jy1) * c12
            + (v01 * jx2 + v11 * jy2) * c22) * ey2,
{
    assert(c00 * jx0 == jx0 * c00) by {
        mul_comm(c00, jx0);
    }
    assert(c01 * jx1 == jx1 * c01) by {
        mul_comm(c01, jx1);
    }
    assert(c02 * jx2 == jx2 * c02) by {
        mul_comm(c02, jx2);
    }
    assert(ex0 * (c00 * jx0 + c01 * jx1 + c02 * jx2)
        == jx0 * ex0 * c00 + jx1 * ex0 * c01 + jx2 * ex0 * c02) by {
        mul_eq(ex0, c00 * jx0 + c01 * jx1 + c02 * jx2, ex0, jx0 * c00 + jx1 * c01 + jx2 * c02);
        dist_add_left(ex0, jx0 * c00 + jx1 * c01, jx2 * c02);
        dist_add_left(ex0, jx0 * c00, jx1 * c01);
        mul_comm(ex0, jx0);
        mul_assoc(ex0, jx0, c00);
        mul_comm(ex0, jx1);
        mul_assoc(ex0, jx1, c01);
        mul_comm(ex0, jx2);
        mul_assoc(ex0, jx2, c02);
    }
    assert(c01 * jx0 == jx0 * c01) by {
        mul_comm(c01, jx0);
    }
    assert(c11 * jx1 == jx1 * c11) by {
        mul_comm(c11, jx1);
    }
    assert(c12 * jx2 == jx2 * c12) by {
        mul_comm(c12, jx2);
    }
    assert(ex1 * (c01 * jx0 + c11 * jx1 + c12 * jx2)
        == jx0 * ex1 * c01 + jx1 * ex1 * c11 + jx2 * ex1 * c12) by {
        mul_eq(ex1, c01 * jx0 + c11 * jx1 + c12 * jx2, ex1, jx0 * c01 + jx1 * c11 + jx2 * c12);
        dist_add_left(ex1, jx0 * c01 + jx1 * c11, jx2 * c12);
        dist_add_left(ex1, jx0 * c01, jx1 * c11);
        mul_comm(ex1, jx0);
        mul_assoc(ex1, jx0, c01);
        mul_comm(ex1, jx1);
        mul_assoc(ex1, jx1, c11);
        mul_comm(ex1, jx2);
        mul_assoc(ex1, jx2, c12);
    }
    assert(c02 * jx0 == jx0 * c02) by {
        mul_comm(c02, jx0);
    }
    assert(c12 * jx1 == jx1 * c12) by {
        mul_comm(c12, jx1);
    }
    assert(c22 * jx2 == jx2 * c22) by {
        mul_comm(c22, jx2);
    }
    assert(ex2 * (c02 * jx0 + c12 * jx1 + c22 * jx2)
        == jx0 * ex2 * c02 + jx1 * ex2 * c12 + jx2 * ex2 * c22) by {
        mul_eq(ex2, c02 * jx0 + c12 * jx1 + c22 * jx2, ex2, jx0 * c02 + jx1 * c12 + jx2 * c22);
        dist_add_left(ex2, jx0 * c02 + jx1 * c12, jx2 * c22);
        dist_add_left(ex2, jx0 * c02, jx1 * c12);
        mul_comm(ex2, jx0);
        mul_assoc(ex2, jx0, c02);
        mul_comm(ex2, jx1);
        mul_assoc(ex2, jx1, c12);
        mul_comm(ex2, jx2);
        mul_assoc(ex2, jx2, c22);
    }
    assert(v00 * (2real * (ex0 * (c00 * jx0 + c01 * jx1 + c02 * jx2)
        + ex1 * (c01 * jx0 + c11 * jx1 + c12 * jx2) + ex2 * (c02 * jx0 + c12 * jx1 + c22 * jx2)))
        == 2real * (v00 * jx0 * ex0 * c00) + 2real * (v00 * jx0 * ex1 * c01)
        + 2real * (v00 * jx0 * ex2 * c02) + 2real * (v00 * jx1 * ex0 * c01)
        + 2real * (v00 * jx1 * ex1 * c11) + 2real * (v00 * jx1 * ex2 * c12)
        + 2real * (v00 * jx2 * ex0 * c02) + 2real * (v00 * jx2 * ex1 * c12)
        + 2real * (v00 * jx2 * ex2 * c22)) by {
        mul_eq(v00, 2real * (ex0 * (c00 * jx0 + c01 * jx1 + c02 * jx2)
            + ex1 * (c01 * jx0 + c11 * jx1 + c12 * jx2)
            + ex2 * (c02 * jx0 + c12 * jx1 + c22 * jx2)), v00,
            2real * (jx0 * ex0 * c00) + 2real * (jx0 * ex1 * c01) + 2real * (jx0 * ex2 * c02)
            + 2real * (jx1 * ex0 * c01) + 2real * (jx1 * ex1 * c11) + 2real * (jx1 * ex2 * c12)
            + 2real * (jx2 * ex0 * c02) + 2real * (jx2 * ex1 * c12) + 2real * (jx2 * ex2 * c22));
        dist_add_left(v00, 2real * (jx0 * ex0 * c00) + 2real * (jx0 * ex1 * c01)
            + 2real * (jx0 * ex2 * c02) + 2real * (jx1 * ex0 * c01) + 2real * (jx1 * ex1 * c11)
            + 2real * (jx1 * ex2 * c12) + 2real * (jx2 * ex0 * c02) + 2real * (jx2 * ex1 * c12),
            2real * (jx2 * ex2 * c22));
        dist_add_left(v00, 2real * (jx0 * ex0 * c00) + 2real * (jx0 * ex1 * c01)
            + 2real * (jx0 * ex2 * c02) + 2real * (jx1 * ex0 * c01) + 2real * (jx1 * ex1 * c11)
            + 2real * (jx1 * ex2 * c12) + 2real * (jx2 * ex0 * c02), 2real * (jx2 * ex1 * c12));
        dist_add_left(v00, 2real * (jx0 * ex0 * c00) + 2real * (jx0 * ex1 * c01)
            + 2real * (jx0 * ex2 * c02) + 2real * (jx1 * ex0 * c01) + 2real * (jx1 * ex1 * c11)
            + 2real * (jx1 * ex2 * c12), 2real * (jx2 * ex0 * c02));
        dist_add_left(v00, 2real * (jx0 * ex0 * c00) + 2real * (jx0 * ex1 * c01)
            + 2real * (jx0 * ex2 * c02) + 2real * (jx1 * ex0 * c01) + 2real * (jx1 * ex1 * c11),
            2real * (jx1 * ex2 * c12));
        dist_add_left(v00, 2real * (jx0 * ex0 * c00) + 2real * (jx0 * ex1 * c01)
            + 2real * (jx0 * ex2 * c02) + 2real * (jx1 * ex0 * c01), 2real * (jx1 * ex1 * c11));
        dist_add_left(v00, 2real * (jx0 * ex0 * c00) + 2real * (jx0 * ex1 * c01)
            + 2real * (jx0 * ex2 * c02), 2real * (jx1 * ex0 * c01));
        dist_add_left(v00, 2real * (jx0 * ex0 * c00) + 2real * (jx0 * ex1 * c01),
            2real * (jx0 * ex2 * c02));
        dist_add_left(v00, 2real * (jx0 * ex0 * c00), 2real * (jx0 * ex1 * c01));
        mul_front(v00, 2real, jx0 * ex0 * c00);
        mul_assoc(v00, jx0, ex0);
        mul_assoc(v00, jx0 * ex0, c00);
        mul_front(v00, 2real, jx0 * ex1 * c01);
        mul_assoc(v00, jx0, ex1);
        mul_assoc(v00, jx0 * ex1, c01);
        mul_front(v00, 2real, jx0 * ex2 * c02);
        mul_assoc(v00, jx0, ex2);
        mul_assoc(v00, jx0 * ex2, c02);
        mul_front(v00, 2real, jx1 * ex0 * c01);
        mul_assoc(v00, jx1, ex0);
        mul_assoc(v00, jx1 * ex0, c01);
        mul_front(v00, 2real, jx1 * ex1 * c11);
        mul_assoc(v00, jx1, ex1);
        mul_assoc(v00, jx1 * ex1, c11);
        mul_front(v00, 2real, jx1 * ex2 * c12);
        mul_assoc(v00, jx1, ex2);
        mul_assoc(v00, jx1 * ex2, c12);
        mul_front(v00, 2real, jx2 * ex0 * c02);
        mul_assoc(v00, jx2, ex0);
        mul_assoc(v00, jx2 * ex0, c02);
        mul_front(v00, 2real, jx2 * ex1 * c12);
        mul_assoc(v00, jx2, ex1);
        mul_assoc(v00, jx2 * ex1, c12);
        mul_front(v00, 2real, jx2 * ex2 * c22);
        mul_assoc(v00, jx2, ex2);
        mul_assoc(v00, jx2 * ex2, c22);
    }
    assert(c00 * jy0 == jy0 * c00) by {
        mul_comm(c00, jy0);
    }
    assert(c01 * jy1 == jy1 * c01) by {
        mul_comm(c01, jy1);
    }
    assert(c02 * jy2 == jy2 * c02) by {
        mul_comm(c02, jy2);
    }
    assert(ex0 * (c00 * jy0 + c01 * jy1 + c02 * jy2)
        == jy0 * ex0 * c00 + jy1 * ex0 * c01 + jy2 * ex0 * c02) by {
        mul_eq(ex0, c00 * jy0 + c01 * jy1 + c02 * jy2, ex0, jy0 * c00 + jy1 * c01 + jy2 * c02);
        dist_add_left(ex0, jy0 * c00 + jy1 * c01, jy2 * c02);
        dist_add_left(ex0, jy0 * c00, jy1 * c01);
        mul_comm(ex0, jy0);
        mul_assoc(ex0, jy0, c00);
        mul_comm(ex0, jy1);
        mul_assoc(ex0, jy1, c01);
        mul_comm(ex0, jy2);
        mul_assoc(ex0, jy2, c02);
    }
    assert(c01 * jy0 == jy0 * c01) by {
        mul_comm(c01, jy0);
    }
    assert(c11 * jy1 == jy1 * c11) by {
        mul_comm(c11, jy1);
    }
    assert(c12 * jy2 == jy2 * c12) by {
        mul_comm(c12, jy2);
    }
    assert(ex1 * (c01 * jy0 + c11 * jy1 + c12 * jy2)
        == jy0 * ex1 * c01 + jy1 * ex1 * c11 + jy2 * ex1 * c12) by {
        mul_eq(ex1, c01 * jy0 + c11 * jy1 + c12 * jy2, ex1, jy0 * c01 + jy1 * c11 + jy2 * c12);
        dist_add_left(ex1, jy0 * c01 + jy1 * c11, jy2 * c12);
        dist_add_left(ex1, jy0 * c01, jy1 * c11);
        mul_comm(ex1, jy0);
        mul_assoc(ex1, jy0, c01);
        mul_comm(ex1, jy1);
        mul_assoc(ex1, jy1, c11);
        mul_comm(ex1, jy2);
        mul_assoc(ex1, jy2, c12);
    }
    assert(c02 * jy0 == jy0 * c02) by {
        mul_comm(c02, jy0);
    }
    assert(c12 * jy1 == jy1 * c12) by {
        mul_comm(c12, jy1);
    }
    assert(c22 * jy2 == jy2 * c22) by {
        mul_comm(c22, jy2);
    }
    assert(ex2 * (c02 * jy0 + c12 * jy1 + c22 * jy2)
        == jy0 * ex2 * c02 + jy1 * ex2 * c12 + jy2 * ex2 * c22) by {
        mul_eq(ex2, c02 * jy0 + c12 * jy1 + c22 * jy2, ex2, jy0 * c02 + jy1 * c12 + jy2 * c22);
        dist_add_left(ex2, jy0 * c02 + jy1 * c12, jy2 * c22);
        dist_add_left(ex2, jy0 * c02, jy1 * c12);
        mul_comm(ex2, jy0);
        mul_assoc(ex2, jy0, c02);
        mul_comm(ex2, jy1);
        mul_assoc(ex2, jy1, c12);
        mul_comm(ex2, jy2);
        mul_assoc(ex2, jy2, c22);
    }
    assert(ey0 * (c00 * jx0 + c01 * jx1 + c02 * jx2)
        == jx0 * ey0 * c00 + jx1 * ey0 * c01 + jx2 * ey0 * c02) by {
        mul_eq(ey0, c00 * jx0 + c01 * jx1 + c02 * jx2, ey0, jx0 * c00 + jx1 * c01 + jx2 * c02);
        dist_add_left(ey0, jx0 * c00 + jx1 * c01, jx2 * c02);
        dist_add_left(ey0, jx0 * c00, jx1 * c01);
        mul_comm(ey0, jx0);
        mul_assoc(ey0, jx0, c00);
        mul_comm(ey0, jx1);
        mul_assoc(ey0, jx1, c01);
        mul_comm(ey0, jx2);
        mul_assoc(ey0, jx2, c02);
    }
    assert(ey1 * (c01 * jx0 + c11 * jx1 + c12 * jx2)
        == jx0 * ey1 * c01 + jx1 * ey1 * c11 + jx2 * ey1 * c12) by {
        mul_eq(ey1, c01 * jx0 + c11 * jx1 + c12 * jx2, ey1, jx0 * c01 + jx1 * c11 + jx2 * c12);
        dist_add_left(ey1, jx0 * c01 + jx1 * c11, jx2 * c12);
        dist_add_left(ey1, jx0 * c01, jx1 * c11);
        mul_comm(ey1, jx0);
        mul_assoc(ey1, jx0, c01);
        mul_comm(ey1, jx1);
        mul_assoc(ey1, jx1, c11);
        mul_comm(ey1, jx2);
        mul_assoc(ey1, jx2, c12);
    }
    assert(ey2 * (c02 * jx0 + c12 * jx1 + c22 * jx2)
        == jx0 * ey2 * c02 + jx1 * ey2 * c12 + jx2 * ey2 * c22) by {
        mul_eq(ey2, c02 * jx0 + c12 * jx1 + c22 * jx2, ey2, jx0 * c02 + jx1 * c12 + jx2 * c22);
        dist_add_left(ey2, jx0 * c02 + jx1 * c12, jx2 * c22);
        dist_add_left(ey2, jx0 * c02, jx1 * c12);
        mul_comm(ey2, jx0);
        mul_assoc(ey2, jx0, c02);
        mul_comm(ey2, jx1);
        mul_assoc(ey2, jx1, c12);
        mul_comm(ey2, jx2);
        mul_assoc(ey2, jx2, c22);
    }
    assert(2real * v01 * (ex0 * (c00 * jy0 + c01 * jy1 + c02 * jy2)
        + ex1 * (c01 * jy0 + c11 * jy1 + c12 * jy2) + ex2 * (c02 * jy0 + c12 * jy1 + c22 * jy2)
        + (ey0 * (c00 * jx0 + c01 * jx1 + c02 * jx2) + ey1 * (c01 * jx0 + c11 * jx1 + c12 * jx2)
        + ey2 * (c02 * jx0 + c12 * jx1 + c22 * jx2)))
        == 2real * (v01 * jx0 * ey0 * c00) + 2real * (v01 * jx0 * ey1 * c01)
        + 2real * (v01 * jx0 * ey2 * c02) + 2real * (v01 * jy0 * ex0 * c00)
        + 2real * (v01 * jy0 * ex1 * c01) + 2real * (v01 * jy0 * ex2 * c02)
        + 2real * (v01 * jx1 * ey0 * c01) + 2real * (v01 * jx1 * ey1 * c11)
        + 2real * (v01 * jx1 * ey2 * c12) + 2real * (v01 * jy1 * ex0 * c01)
        + 2real * (v01 * jy1 * ex1 * c11) + 2real * (v01 * jy1 * ex2 * c12)
        + 2real * (v01 * jx2 * ey0 * c02) + 2real * (v01 * jx2 * ey1 * c12)
        + 2real * (v01 * jx2 * ey2 * c22) + 2real * (v01 * jy2 * ex0 * c02)
        + 2real * (v01 * jy2 * ex1 * c12) + 2real * (v01 * jy2 * ex2 * c22)) by {
        mul_eq(2real * v01, ex0 * (c00 * jy0 + c01 * jy1 + c02 * jy2)
            + ex1 * (c01 * jy0 + c11 * jy1 + c12 * jy2) + ex2 * (c02 * jy0 + c12 * jy1 + c22 * jy2)
            + (ey0 * (c00 * jx0 + c01 * jx1 + c02 * jx2) + ey1 * (c01 * jx0 + c11 * jx1 + c12 * jx2)
            + ey2 * (c02 * jx0 + c12 * jx1 + c22 * jx2)), 2real * v01,
            jx0 * ey0 * c00 + jx0 * ey1 * c01 + jx0 * ey2 * c02 + jy0 * ex0 * c00 + jy0 * ex1 * c01
            + jy0 * ex2 * c02 + jx1 * ey0 * c01 + jx1 * ey1 * c11 + jx1 * ey2 * c12
            + jy1 * ex0 * c01 + jy1 * ex1 * c11 + jy1 * ex2 * c12 + jx2 * ey0 * c02
            + jx2 * ey1 * c12 + jx2 * ey2 * c22 + jy2 * ex0 * c02 + jy2 * ex1 * c12
            + jy2 * ex2 * c22);
        mul_assoc(2real, v01, jx0 * ey0 * c00 + jx0 * ey1 * c01 + jx0 * ey2 * c02 + jy0 * ex0 * c00
            + jy0 * ex1 * c01 + jy0 * ex2 * c02 + jx1 * ey0 * c01 + jx1 * ey1 * c11
            + jx1 * ey2 * c12 + jy1 * ex0 * c01 + jy1 * ex1 * c11 + jy1 * ex2 * c12
            + jx2 * ey0 * c02 + jx2 * ey1 * c12 + jx2 * ey2 * c22 + jy2 * ex0 * c02
            + jy2 * ex1 * c12 + jy2 * ex2 * c22);
        dist_add_left(v01, jx0 * ey0 * c00 + jx0 * ey1 * c01 + jx0 * ey2 * c02 + jy0 * ex0 * c00
            + jy0 * ex1 * c01 + jy0 * ex2 * c02 + jx1 * ey0 * c01 + jx1 * ey1 * c11
            + jx1 * ey2 * c12 + jy1 * ex0 * c01 + jy1 * ex1 * c11 + jy1 * ex2 * c12
            + jx2 * ey0 * c02 + jx2 * ey1 * c12 + jx2 * ey2 * c22 + jy2 * ex0 * c02
            + jy2 * ex1 * c12, jy2 * ex2 * c22);
        dist_add_left(v01, jx0 * ey0 * c00 + jx0 * ey1 * c01 + jx0 * ey2 * c02 + jy0 * ex0 * c00
            + jy0 * ex1 * c01 + jy0 * ex2 * c02 + jx1 * ey0 * c01 + jx1 * ey1 * c11
            + jx1 * ey2 * c12 + jy1 * ex0 * c01 + jy1 * ex1 * c11 + jy1 * ex2 * c12
            + jx2 * ey0 * c02 + jx2 * ey1 * c12 + jx2 * ey2 * c22 + jy2 * ex0 * c02,
            jy2 * ex1 * c12);
        dist_add_left(v01, jx0 * ey0 * c00 + jx0 * ey1 * c01 + jx0 * ey2 * c02 + jy0 * ex0 * c00
            + jy0 * ex1 * c01 + jy0 * ex2 * c02 + jx1 * ey0 * c01 + jx1 * ey1 * c11
            + jx1 * ey2 * c12 + jy1 * ex0 * c01 + jy1 * ex1 * c11 + jy1 * ex2 * c12
            + jx2 * ey0 * c02 + jx2 * ey1 * c12 + jx2 * ey2 * c22, jy2 * ex0 * c02);
        dist_add_left(v01, jx0 * ey0 * c00 + jx0 * ey1 * c01 + jx0 * ey2 * c02 + jy0 * ex0 * c00
            + jy0 * ex1 * c01 + jy0 * ex2 * c02 + jx1 * ey0 * c01 + jx1 * ey1 * c11
            + jx1 * ey2 * c12 + jy1 * ex0 * c01 + jy1 * ex1 * c11 + jy1 * ex2 * c12
            + jx2 * ey0 * c02 + jx2 * ey1 * c12, jx2 * ey2 * c22);
        dist_add_left(v01, jx0 * ey0 * c00 + jx0 * ey1 * c01 + jx0 * ey2 * c02 + jy0 * ex0 * c00
            + jy0 * ex1 * c01 + jy0 * ex2 * c02 + jx1 * ey0 * c01 + jx1 * ey1 * c11
            + jx1 * ey2 * c12 + jy1 * ex0 * c01 + jy1 * ex1 * c11 + jy1 * ex2 * c12
            + jx2 * ey0 * c02, jx2 * ey1 * c12);
        dist_add_left(v01, jx0 * ey0 * c00 + jx0 * ey1 * c01 + jx0 * ey2 * c02 + jy0 * ex0 * c00
            + jy0 * ex1 * c01 + jy0 * ex2 * c02 + jx1 * ey0 * c01 + jx1 * ey1 * c11
            + jx1 * ey2 * c12 + jy1 * ex0 * c01 + jy1 * ex1 * c11 + jy1 * ex2 * c12,
            jx2 * ey0 * c02);
        dist_add_left(v01, jx0 * ey0 * c00 + jx0 * ey1 * c01 + jx0 * ey2 * c02 + jy0 * ex0 * c00
            + jy0 * ex1 * c01 + jy0 * ex2 * c02 + jx1 * ey0 * c01 + jx1 * ey1 * c11
            + jx1 * ey2 * c12 + jy1 * ex0 * c01 + jy1 * ex1 * c11, jy1 * ex2 * c12);
        dist_add_left(v01, jx0 * ey0 * c00 + jx0 * ey1 * c01 + jx0 * ey2 * c02 + jy0 * ex0 * c00
            + jy0 * ex1 * c01 + jy0 * ex2 * c02 + jx1 * ey0 * c01 + jx1 * ey1 * c11
            + jx1 * ey2 * c12 + jy1 * ex0 * c01, jy1 * ex1 * c11);
        dist_add_left(v01, jx0 * ey0 * c00 + jx0 * ey1 * c01 + jx0 * ey2 * c02 + jy0 * ex0 * c00
            + jy0 * ex1 * c01 + jy0 * ex2 * c02 + jx1 * ey0 * c01 + jx1 * ey1 * c11
            + jx1 * ey2 * c12, jy1 * ex0 * c01);
        dist_add_left(v01, jx0 * ey0 * c00 + jx0 * ey1 * c01 + jx0 * ey2 * c02 + jy0 * ex0 * c00
            + jy0 * ex1 * c01 + jy0 * ex2 * c02 + jx1 * ey0 * c01 + jx1 * ey1 * c11,
            jx1 * ey2 * c12);
        dist_add_left(v01, jx0 * ey0 * c00 + jx0 * ey1 * c01 + jx0 * ey2 * c02 + jy0 * ex0 * c00
            + jy0 * ex1 * c01 + jy0 * ex2 * c02 + jx1 * ey0 * c01, jx1 * ey1 * c11);
        dist_add_left(v01, jx0 * ey0 * c00 + jx0 * ey1 * c01 + jx0 * ey2 * c02 + jy0 * ex0 * c00
            + jy0 * ex1 * c01 + jy0 * ex2 * c02, jx1 * ey0 * c01);
        dist_add_left(v01, jx0 * ey0 * c00 + jx0 * ey1 * c01 + jx0 * ey2 * c02 + jy0 * ex0 * c00
            + jy0 * ex1 * c01, jy0 * ex2 * c02);
        dist_add_left(v01, jx0 * ey0 * c00 + jx0 * ey1 * c01 + jx0 * ey2 * c02 + jy0 * ex0 * c00,
            jy0 * ex1 * c01);
        dist_add_left(v01, jx0 * ey0 * c00 + jx0 * ey1 * c01 + jx0 * ey2 * c02, jy0 * ex0 * c00);
        dist_add_left(v01, jx0 * ey0 * c00 + jx0 * ey1 * c01, jx0 * ey2 * c02);
        dist_add_left(v01, jx0 * ey0 * c00, jx0 * ey1 * c01);
        mul_assoc(v01, jx0, ey0);
        mul_assoc(v01, jx0 * ey0, c00);
        mul_assoc(v01, jx0, ey1);
        mul_assoc(v01, jx0 * ey1, c01);
        mul_assoc(v01, jx0, ey2);
        mul_assoc(v01, jx0 * ey2, c02);
        mul_assoc(v01, jy0, ex0);
        mul_assoc(v01, jy0 * ex0, c00);
        mul_assoc(v01, jy0, ex1);
        mul_assoc(v01, jy0 * ex1, c01);
        mul_assoc(v01, jy0, ex2);
        mul_assoc(v01, jy0 * ex2, c02);
        mul_assoc(v01, jx1, ey0);
        mul_assoc(v01, jx1 * ey0, c01);
        mul_assoc(v01, jx1, ey1);
        mul_assoc(v01, jx1 * ey1, c11);
        mul_assoc(v01, jx1, ey2);
        mul_assoc(v01, jx1 * ey2, c12);
        mul_assoc(v01, jy1, ex0);
        mul_assoc(v01, jy1 * ex0, c01);
        mul_assoc(v01, jy1, ex1);
        mul_assoc(v01, jy1 * ex1, c11);
        mul_assoc(v01, jy1, ex2);
        mul_assoc(v01, jy1 * ex2, c12);
        mul_assoc(v01, jx2, ey0);
        mul_assoc(v01, jx2 * ey0, c02);
        mul_assoc(v01, jx2, ey1);
        mul_assoc(v01, jx2 * ey1, c12);
        mul_assoc(v01, jx2, ey2);
        mul_assoc(v01, jx2 * ey2, c22);
        mul_assoc(v01, jy2, ex0);
        mul_assoc(v01, jy2 * ex0, c02);
        mul_assoc(v01, jy2, ex1);
        mul_assoc(v01, jy2 * ex1, c12);
        mul_assoc(v01, jy2, ex2);
        mul_assoc(v01, jy2 * ex2, c22);
    }
    assert(ey0 * (c00 * jy0 + c01 * jy1 + c02 * jy2)
        == jy0 * ey0 * c00 + jy1 * ey0 * c01 + jy2 * ey0 * c02) by {
        mul_eq(ey0, c00 * jy0 + c01 * jy1 + c02 * jy2, ey0, jy0 * c00 + jy1 * c01 + jy2 * c02);
        dist_add_left(ey0, jy0 * c00 + jy1 * c01, jy2 * c02);
        dist_add_left(ey0, jy0 * c00, jy1 * c01);
        mul_comm(ey0, jy0);
        mul_assoc(ey0, jy0, c00);
        mul_comm(ey0, jy1);
        mul_assoc(ey0, jy1, c01);
        mul_comm(ey0, jy2);
        mul_assoc(ey0, jy2, c02);
    }
    assert(ey1 * (c01 * jy0 + c11 * jy1 + c12 * jy2)
        == jy0 * ey1 * c01 + jy1 * ey1 * c11 + jy2 * ey1 * c12) by {
        mul_eq(ey1, c01 * jy0 + c11 * jy1 + c12 * jy2, ey1, jy0 * c01 + jy1 * c11 + jy2 * c12);
        dist_add_left(ey1, jy0 * c01 + jy1 * c11, jy2 * c12);
        dist_add_left(ey1, jy0 * c01, jy1 * c11);
        mul_comm(ey1, jy0);
        mul_assoc(ey1, jy0, c01);
        mul_comm(ey1, jy1);
        mul_assoc(ey1, jy1, c11);
        mul_comm(ey1, jy2);
        mul_assoc(ey1, jy2, c12);
    }
    assert(ey2 * (c02 * jy0 + c12 * jy1 + c22 * jy2)
        == jy0 * ey2 * c02 + jy1 * ey2 * c12 + jy2 * ey2 * c22) by {
        mul_eq(ey2, c02 * jy0 + c12 * jy1 + c22 * jy2, ey2, jy0 * c02 + jy1 * c12 + jy2 * c22);
        dist_add_left(ey2, jy0 * c02 + jy1 * c12, jy2 * c22);
        dist_add_left(ey2, jy0 * c02, jy1 * c12);
        mul_comm(ey2, jy0);
        mul_assoc(ey2, jy0, c02);
        mul_comm(ey2, jy1);
        mul_assoc(ey2, jy1, c12);
        mul_comm(ey2, jy2);
        mul_assoc(ey2, jy2, c22);
    }
    assert(v11 * (2real * (ey0 * (c00 * jy0 + c01 * jy1 + c02 * jy2)
        + ey1 * (c01 * jy0 + c11 * jy1 + c12 * jy2) + ey2 * (c02 * jy0 + c12 * jy1 + c22 * jy2)))
        == 2real * (v11 * jy0 * ey0 * c00) + 2real * (v11 * jy0 * ey1 * c01)
        + 2real * (v11 * jy0 * ey2 * c02) + 2real * (v11 * jy1 * ey0 * c01)
        + 2real * (v11 * jy1 * ey1 * c11) + 2real * (v11 * jy1 * ey2 * c12)
        + 2real * (v11 * jy2 * ey0 * c02) + 2real * (v11 * jy2 * ey1 * c12)
        + 2real * (v11 * jy2 * ey2 * c22)) by {
        mul_eq(v11, 2real * (ey0 * (c00 * jy0 + c01 * jy1 + c02 * jy2)
            + ey1 * (c01 * jy0 + c11 * jy1 + c12 * jy2)
            + ey2 * (c02 * jy0 + c12 * jy1 + c22 * jy2)), v11,
            2real * (jy0 * ey0 * c00) + 2real * (jy0 * ey1 * c01) + 2real * (jy0 * ey2 * c02)
            + 2real * (jy1 * ey0 * c01) + 2real * (jy1 * ey1 * c11) + 2real * (jy1 * ey2 * c12)
            + 2real * (jy2 * ey0 * c02) + 2real * (jy2 * ey1 * c12) + 2real * (jy2 * ey2 * c22));
        dist_add_left(v11, 2real * (jy0 * ey0 * c00) + 2real * (jy0 * ey1 * c01)
            + 2real * (jy0 * ey2 * c02) + 2real * (jy1 * ey0 * c01) + 2real * (jy1 * ey1 * c11)
            + 2real * (jy1 * ey2 * c12) + 2real * (jy2 * ey0 * c02) + 2real * (jy2 * ey1 * c12),
            2real * (jy2 * ey2 * c22));
        dist_add_left(v11, 2real * (jy0 * ey0 * c00) + 2real * (jy0 * ey1 * c01)
            + 2real * (jy0 * ey2 * c02) + 2real * (jy1 * ey0 * c01) + 2real * (jy1 * ey1 * c11)
            + 2real * (jy1 * ey2 * c12) + 2real * (jy2 * ey0 * c02), 2real * (jy2 * ey1 * c12));
        dist_add_left(v11, 2real * (jy0 * ey0 * c00) + 2real * (jy0 * ey1 * c01)
            + 2real * (jy0 * ey2 * c02) + 2real * (jy1 * ey0 * c01) + 2real * (jy1 * ey1 * c11)
            + 2real * (jy1 * ey2 * c12), 2real * (jy2 * ey0 * c02));
        dist_add_left(v11, 2real * (jy0 * ey0 * c00) + 2real * (jy0 * ey1 * c01)
            + 2real * (jy0 * ey2 * c02) + 2real * (jy1 * ey0 * c01) + 2real * (jy1 * ey1 * c11),
            2real * (jy1 * ey2 * c12));
        dist_add_left(v11, 2real * (jy0 * ey0 * c00) + 2real * (jy0 * ey1 * c01)
            + 2real * (jy0 * ey2 * c02) + 2real * (jy1 * ey0 * c01), 2real * (jy1 * ey1 * c11));
        dist_add_left(v11, 2real * (jy0 * ey0 * c00) + 2real * (jy0 * ey1 * c01)
            + 2real * (jy0 * ey2 * c02), 2real * (jy1 * ey0 * c01));
        dist_add_left(v11, 2real * (jy0 * ey0 * c00) + 2real * (jy0 * ey1 * c01),
            2real * (jy0 * ey2 * c02));
        dist_add_left(v11, 2real * (jy0 * ey0 * c00), 2real * (jy0 * ey1 * c01));
        mul_front(v11, 2real, jy0 * ey0 * c00);
        mul_assoc(v11, jy0, ey0);
        mul_assoc(v11, jy0 * ey0, c00);
        mul_front(v11, 2real, jy0 * ey1 * c01);
        mul_assoc(v11, jy0, ey1);
        mul_assoc(v11, jy0 * ey1, c01);
        mul_front(v11, 2real, jy0 * ey2 * c02);
        mul_assoc(v11, jy0, ey2);
        mul_assoc(v11, jy0 * ey2, c02);
        mul_front(v11, 2real, jy1 * ey0 * c01);
        mul_assoc(v11, jy1, ey0);
        mul_assoc(v11, jy1 * ey0, c01);
        mul_front(v11, 2real, jy1 * ey1 * c11);
        mul_assoc(v11, jy1, ey1);
        mul_assoc(v11, jy1 * ey1, c11);
        mul_front(v11, 2real, jy1 * ey2 * c12);
        mul_assoc(v11, jy1, ey2);
        mul_assoc(v11, jy1 * ey2, c12);
        mul_front(v11, 2real, jy2 * ey0 * c02);
        mul_assoc(v11, jy2, ey0);
        mul_assoc(v11, jy2 * ey0, c02);
        mul_front(v11, 2real, jy2 * ey1 * c12);
        mul_assoc(v11, jy2, ey1);
        mul_assoc(v11, jy2 * ey1, c12);
        mul_front(v11, 2real, jy2 * ey2 * c22);
        mul_assoc(v11, jy2, ey2);
        mul_assoc(v11, jy2 * ey2, c22);
    }
    assert((v00 * jx0 + v01 * jy0) * c00 == v00 * jx0 * c00 + v01 * jy0 * c00) by {
        dist_add(v00 * jx0, v01 * jy0, c00);
    }
    assert((v00 * jx1 + v01 * jy1) * c01 == v00 * jx1 * c01 + v01 * jy1 * c01) by {
        dist_add(v00 * jx1, v01 * jy1, c01);
    }
    assert((v00 * jx2 + v01 * jy2) * c02 == v00 * jx2 * c02 + v01 * jy2 * c02) by {
        dist_add(v00 * jx2, v01 * jy2, c02);
    }
    assert(2real * ((v00 * jx0 + v01 * jy0) * c00 + (v00 * jx1 + v01 * jy1) * c01
        + (v00 * jx2 + v01 * jy2) * c02) * ex0
        == 2real * (v00 * jx0 * ex0 * c00) + 2real * (v00 * jx1 * ex0 * c01)
        + 2real * (v00 * jx2 * ex0 * c02) + 2real * (v01 * jy0 * ex0 * c00)
        + 2real * (v01 * jy1 * ex0 * c01) + 2real * (v01 * jy2 * ex0 * c02)) by {
        mul_eq(2real * ((v00 * jx0 + v01 * jy0) * c00 + (v00 * jx1 + v01 * jy1) * c01
            + (v00 * jx2 + v01 * jy2) * c02), ex0,
            2real * (v00 * jx0 * c00) + 2real * (v00 * jx1 * c01) + 2real * (v00 * jx2 * c02)
            + 2real * (v01 * jy0 * c00) + 2real * (v01 * jy1 * c01) + 2real * (v01 * jy2 * c02),
            ex0);
        dist_add(2real * (v00 * jx0 * c00) + 2real * (v00 * jx1 * c01) + 2real * (v00 * jx2 * c02)
            + 2real * (v01 * jy0 * c00) + 2real * (v01 * jy1 * c01), 2real * (v01 * jy2 * c02),
            ex0);
        dist_add(2real * (v00 * jx0 * c00) + 2real * (v00 * jx1 * c01) + 2real * (v00 * jx2 * c02)
            + 2real * (v01 * jy0 * c00), 2real * (v01 * jy1 * c01), ex0);
        dist_add(2real * (v00 * jx0 * c00) + 2real * (v00 * jx1 * c01) + 2real * (v00 * jx2 * c02),
            2real * (v01 * jy0 * c00), ex0);
        dist_add(2real * (v00 * jx0 * c00) + 2real * (v00 * jx1 * c01), 2real * (v00 * jx2 * c02),
            ex0);
        dist_add(2real * (v00 * jx0 * c00), 2real * (v00 * jx1 * c01), ex0);
        mul_assoc(2real, v00 * jx0 * c00, ex0);
        mul_swap(v00 * jx0, c00, ex0);
        mul_assoc(2real, v00 * jx1 * c01, ex0);
        mul_swap(v00 * jx1, c01, ex0);
        mul_assoc(2real, v00 * jx2 * c02, ex0);
        mul_swap(v00 * jx2, c02, ex0);
        mul_assoc(2real, v01 * jy0 * c00, ex0);
        mul_swap(v01 * jy0, c00, ex0);
        mul_assoc(2real, v01 * jy1 * c01, ex0);
        mul_swap(v01 * jy1, c01, ex0);
        mul_assoc(2real, v01 * jy2 * c02, ex0);
        mul_swap(v01 * jy2, c02, ex0);
    }
    assert((v01 * jx0 + v11 * jy0) * c00 == v01 * jx0 * c00 + v11 * jy0 * c00) by {
        dist_add(v01 * jx0, v11 * jy0, c00);
    }
    assert((v01 * jx1 + v11 * jy1) * c01 == v01 * jx1 * c01 + v11 * jy1 * c01) by {
        dist_add(v01 * jx1, v11 * jy1, c01);
    }
    assert((v01 * jx2 + v11 * jy2) * c02 == v01 * jx2 * c02 + v11 * jy2 * c02) by {
        dist_add(v01 * jx2, v11 * jy2, c02);
    }
    assert(2real * ((v01 * jx0 + v11 * jy0) * c00 + (v01 * jx1 + v11 * jy1) * c01
        + (v01 * jx2 + v11 * jy2) * c02) * ey0
        == 2real * (v01 * jx0 * ey0 * c00) + 2real * (v01 * jx1 * ey0 * c01)
        + 2real * (v01 * jx2 * ey0 * c02) + 2real * (v11 * jy0 * ey0 * c00)
        + 2real * (v11 * jy1 * ey0 * c01) + 2real * (v11 * jy2 * ey0 * c02)) by {
        mul_eq(2real * ((v01 * jx0 + v11 * jy0) * c00 + (v01 * jx1 + v11 * jy1) * c01
            + (v01 * jx2 + v11 * jy2) * c02), ey0,
            2real * (v01 * jx0 * c00) + 2real * (v01 * jx1 * c01) + 2real * (v01 * jx2 * c02)
            + 2real * (v11 * jy0 * c00) + 2real * (v11 * jy1 * c01) + 2real * (v11 * jy2 * c02),
            ey0);
        dist_add(2real * (v01 * jx0 * c00) + 2real * (v01 * jx1 * c01) + 2real * (v01 * jx2 * c02)
            + 2real * (v11 * jy0 * c00) + 2real * (v11 * jy1 * c01), 2real * (v11 * jy2 * c02),
            ey0);
        dist_add(2real * (v01 * jx0 * c00) + 2real * (v01 * jx1 * c01) + 2real * (v01 * jx2 * c02)
            + 2real * (v11 * jy0 * c00), 2real * (v11 * jy1 * c01), ey0);
        dist_add(2real * (v01 * jx0 * c00) + 2real * (v01 * jx1 * c01) + 2real * (v01 * jx2 * c02),
            2real * (v11 * jy0 * c00), ey0);
        dist_add(2real * (v01 * jx0 * c00) + 2real * (v01 * jx1 * c01), 2real * (v01 * jx2 * c02),
            ey0);
        dist_add(2real * (v01 * jx0 * c00), 2real * (v01 * jx1 * c01), ey0);
        mul_assoc(2real, v01 * jx0 * c00, ey0);
        mul_swap(v01 * jx0, c00, ey0);
        mul_assoc(2real, v01 * jx1 * c01, ey0);
        mul_swap(v01 * jx1, c01, ey0);
        mul_assoc(2real, v01 * jx2 * c02, ey0);
        mul_swap(v01 * jx2, c02, ey0);
        mul_assoc(2real, v11 * jy0 * c00, ey0);
        mul_swap(v11 * jy0, c00, ey0);
        mul_assoc(2real, v11 * jy1 * c01, ey0);
        mul_swap(v11 * jy1, c01, ey0);
        mul_assoc(2real, v11 * jy2 * c02, ey0);
        mul_swap(v11 * jy2, c02, ey0);
    }
    assert((v00 * jx0 + v01 * jy0) * c01 == v00 * jx0 * c01 + v01 * jy0 * c01) by {
        dist_add(v00 * jx0, v01 * jy0, c01);
    }
    assert((v00 * jx1 + v01 * jy1) * c11 == v00 * jx1 * c11 + v01 * jy1 * c11) by {
        dist_add(v00 * jx1, v01 * jy1, c11);
    }
    assert((v00 * jx2 + v01 * jy2) * c12 == v00 * jx2 * c12 + v01 * jy2 * c12) by {
        dist_add(v00 * jx2, v01 * jy2, c12);
    }
    assert(2real * ((v00 * jx0 + v01 * jy0) * c01 + (v00 * jx1 + v01 * jy1) * c11
        + (v00 * jx2 + v01 * jy2) * c12) * ex1
        == 2real * (v00 * jx0 * ex1 * c01) + 2real * (v00 * jx1 * ex1 * c11)
        + 2real * (v00 * jx2 * ex1 * c12) + 2real * (v01 * jy0 * ex1 * c01)
        + 2real * (v01 * jy1 * ex1 * c11) + 2real * (v01 * jy2 * ex1 * c12)) by {
        mul_eq(2real * ((v00 * jx0 + v01 * jy0) * c01 + (v00 * jx1 + v01 * jy1) * c11
            + (v00 * jx2 + v01 * jy2) * c12), ex1,
            2real * (v00 * jx0 * c01) + 2real * (v00 * jx1 * c11) + 2real * (v00 * jx2 * c12)
            + 2real * (v01 * jy0 * c01) + 2real * (v01 * jy1 * c11) + 2real * (v01 * jy2 * c12),
            ex1);
        dist_add(2real * (v00 * jx0 * c01) + 2real * (v00 * jx1 * c11) + 2real * (v00 * jx2 * c12)
            + 2real * (v01 * jy0 * c01) + 2real * (v01 * jy1 * c11), 2real * (v01 * jy2 * c12),
            ex1);
        dist_add(2real * (v00 * jx0 * c01) + 2real * (v00 * jx1 * c11) + 2real * (v00 * jx2 * c12)
            + 2real * (v01 * jy0 * c01), 2real * (v01 * jy1 * c11), ex1);
        dist_add(2real * (v00 * jx0 * c01) + 2real * (v00 * jx1 * c11) + 2real * (v00 * jx2 * c12),
            2real * (v01 * jy0 * c01), ex1);
        dist_add(2real * (v00 * jx0 * c01) + 2real * (v00 * jx1 * c11), 2real * (v00 * jx2 * c12),
            ex1);
        dist_add(2real * (v00 * jx0 * c01), 2real * (v00 * jx1 * c11), ex1);
        mul_assoc(2real, v00 * jx0 * c01, ex1);
        mul_swap(v00 * jx0, c01, ex1);
        mul_assoc(2real, v00 * jx1 * c11, ex1);
        mul_swap(v00 * jx1, c11, ex1);
        mul_assoc(2real, v00 * jx2 * c12, ex1);
        mul_swap(v00 * jx2, c12, ex1);
        mul_assoc(2real, v01 * jy0 * c01, ex1);
        mul_swap(v01 * jy0, c01, ex1);
        mul_assoc(2real, v01 * jy1 * c11, ex1);
        mul_swap(v01 * jy1, c11, ex1);
        mul_assoc(2real, v01 * jy2 * c12, ex1);
        mul_swap(v01 * jy2, c12, ex1);
    }
    assert((v01 * jx0 + v11 * jy0) * c01 == v01 * jx0 * c01 + v11 * jy0 * c01) by {
        dist_add(v01 * jx0, v11 * jy0, c01);
    }
    assert((v01 * jx1 + v11 * jy1) * c11 == v01 * jx1 * c11 + v11 * jy1 * c11) by {
        dist_add(v01 * jx1, v11 * jy1, c11);
    }
    assert((v01 * jx2 + v11 * jy2) * c12 == v01 * jx2 * c12 + v11 * jy2 * c12) by {
        dist_add(v01 * jx2, v11 * jy2, c12);
    }
    assert(2real * ((v01 * jx0 + v11 * jy0) * c01 + (v01 * jx1 + v11 * jy1) * c11
        + (v01 * jx2 + v11 * jy2) * c12) * ey1
        == 2real * (v01 * jx0 * ey1 * c01) + 2real * (v01 * jx1 * ey1 * c11)
        + 2real * (v01 * jx2 * ey1 * c12) + 2real * (v11 * jy0 * ey1 * c01)
        + 2real * (v11 * jy1 * ey1 * c11) + 2real * (v11 * jy2 * ey1 * c12)) by {
        mul_eq(2real * ((v01 * jx0 + v11 * jy0) * c01 + (v01 * jx1 + v11 * jy1) * c11
            + (v01 * jx2 + v11 * jy2) * c12), ey1,
            2real * (v01 * jx0 * c01) + 2real * (v01 * jx1 * c11) + 2real * (v01 * jx2 * c12)
            + 2real * (v11 * jy0 * c01) + 2real * (v11 * jy1 * c11) + 2real * (v11 * jy2 * c12),
            ey1);
        dist_add(2real * (v01 * jx0 * c01) + 2real * (v01 * jx1 * c11) + 2real * (v01 * jx2 * c12)
            + 2real * (v11 * jy0 * c01) + 2real * (v11 * jy1 * c11), 2real * (v11 * jy2 * c12),
            ey1);
        dist_add(2real * (v01 * jx0 * c01) + 2real * (v01 * jx1 * c11) + 2real * (v01 * jx2 * c12)
            + 2real * (v11 * jy0 * c01), 2real * (v11 * jy1 * c11), ey1);
        dist_add(2real * (v01 * jx0 * c01) + 2real * (v01 * jx1 * c11) + 2real * (v01 * jx2 * c12),
            2real * (v11 * jy0 * c01), ey1);
        dist_add(2real * (v01 * jx0 * c01) + 2real * (v01 * jx1 * c11), 2real * (v01 * jx2 * c12),
            ey1);
        dist_add(2real * (v01 * jx0 * c01), 2real * (v01 * jx1 * c11), ey1);
        mul_assoc(2real, v01 * jx0 * c01, ey1);
        mul_swap(v01 * jx0, c01, ey1);
        mul_assoc(2real, v01 * jx1 * c11, ey1);
        mul_swap(v01 * jx1, c11, ey1);
        mul_assoc(2real, v01 * jx2 * c12, ey1);
        mul_swap(v01 * jx2, c12, ey1);
        mul_assoc(2real, v11 * jy0 * c01, ey1);
        mul_swap(v11 * jy0, c01, ey1);
        mul_assoc(2real, v11 * jy1 * c11, ey1);
        mul_swap(v11 * jy1, c11, ey1);
        mul_assoc(2real, v11 * jy2 * c12, ey1);
        mul_swap(v11 * jy2, c12, ey1);
    }
    assert((v00 * jx0 + v01 * jy0) * c02 == v00 * jx0 * c02 + v01 * jy0 * c02) by {
        dist_add(v00 * jx0, v01 * jy0, c02);
    }
    assert((v00 * jx1 + v01 * jy1) * c12 == v00 * jx1 * c12 + v01 * jy1 * c12) by {
        dist_add(v00 * jx1, v01 * jy1, c12);
    }
    assert((v00 * jx2 + v01 * jy2) * c22 == v00 * jx2 * c22 + v01 * jy2 * c22) by {
        dist_add(v00 * jx2, v01 * jy2, c22);
    }
    assert(2real * ((v00 * jx0 + v01 * jy0) * c02 + (v00 * jx1 + v01 * jy1) * c12
        + (v00 * jx2 + v01 * jy2) * c22) * ex2
        == 2real * (v00 * jx0 * ex2 * c02) + 2real * (v00 * jx1 * ex2 * c12)
        + 2real * (v00 * jx2 * ex2 * c22) + 2real * (v01 * jy0 * ex2 * c02)
        + 2real * (v01 * jy1 * ex2 * c12) + 2real * (v01 * jy2 * ex2 * c22)) by {
        mul_eq(2real * ((v00 * jx0 + v01 * jy0) * c02 + (v00 * jx1 + v01 * jy1) * c12
            + (v00 * jx2 + v01 * jy2) * c22), ex2,
            2real * (v00 * jx0 * c02) + 2real * (v00 * jx1 * c12) + 2real * (v00 * jx2 * c22)
            + 2real * (v01 * jy0 * c02) + 2real * (v01 * jy1 * c12) + 2real * (v01 * jy2 * c22),
            ex2);
        dist_add(2real * (v00 * jx0 * c02) + 2real * (v00 * jx1 * c12) + 2real * (v00 * jx2 * c22)
            + 2real * (v01 * jy0 * c02) + 2real * (v01 * jy1 * c12), 2real * (v01 * jy2 * c22),
            ex2);
        dist_add(2real * (v00 * jx0 * c02) + 2real * (v00 * jx1 * c12) + 2real * (v00 * jx2 * c22)
            + 2real * (v01 * jy0 * c02), 2real * (v01 * jy1 * c12), ex2);
        dist_add(2real * (v00 * jx0 * c02) + 2real * (v00 * jx1 * c12) + 2real * (v00 * jx2 * c22),
            2real * (v01 * jy0 * c02), ex2);
        dist_add(2real * (v00 * jx0 * c02) + 2real * (v00 * jx1 * c12), 2real * (v00 * jx2 * c22),
            ex2);
        dist_add(2real * (v00 * jx0 * c02), 2real * (v00 * jx1 * c12), ex2);
        mul_assoc(2real, v00 * jx0 * c02, ex2);
        mul_swap(v00 * jx0, c02, ex2);
        mul_assoc(2real, v00 * jx1 * c12, ex2);
        mul_swap(v00 * jx1, c12, ex2);
        mul_assoc(2real, v00 * jx2 * c22, ex2);
        mul_swap(v00 * jx2, c22, ex2);
        mul_assoc(2real, v01 * jy0 * c02, ex2);
        mul_swap(v01 * jy0, c02, ex2);
        mul_assoc(2real, v01 * jy1 * c12, ex2);
        mul_swap(v01 * jy1, c12, ex2);
        mul_assoc(2real, v01 * jy2 * c22, ex2);
        mul_swap(v01 * jy2, c22, ex2);
    }
    assert((v01 * jx0 + v11 * jy0) * c02 == v01 * jx0 * c02 + v11 * jy0 * c02) by {
        dist_add(v01 * jx0, v11 * jy0, c02);
    }
    assert((v01 * jx1 + v11 * jy1) * c12 == v01 * jx1 * c12 + v11 * jy1 * c12) by {
        dist_add(v01 * jx1, v11 * jy1, c12);
    }
    assert((v01 * jx2 + v11 * jy2) * c22 == v01 * jx2 * c22 + v11 * jy2 * c22) by {
        dist_add(v01 * jx2, v11 * jy2, c22);
    }
    assert(2real * ((v01 * jx0 + v11 * jy0) * c02 + (v01 * jx1 + v11 * jy1) * c12
        + (v01 * jx2 + v11 * jy2) * c22) * ey2
        == 2real * (v01 * jx0 * ey2 * c02) + 2real * (v01 * jx1 * ey2 * c12)
        + 2real * (v01 * jx2 * ey2 * c22) + 2real * (v11 * jy0 * ey2 * c02)
        + 2real * (v11 * jy1 * ey2 * c12) + 2real * (v11 * jy2 * ey2 * c22)) by {
        mul_eq(2real * ((v01 * jx0 + v11 * jy0) * c02 + (v01 * jx1 + v11 * jy1) * c12
            + (v01 * jx2 + v11 * jy2) * c22), ey2,
            2real * (v01 * jx0 * c02) + 2real * (v01 * jx1 * c12) + 2real * (v01 * jx2 * c22)
            + 2real * (v11 * jy0 * c02) + 2real * (v11 * jy1 * c12) + 2real * (v11 * jy2 * c22),
            ey2);
        dist_add(2real * (v01 * jx0 * c02) + 2real * (v01 * jx1 * c12) + 2real * (v01 * jx2 * c22)
            + 2real * (v11 * jy0 * c02) + 2real * (v11 * jy1 * c12), 2real * (v11 * jy2 * c22),
            ey2);
        dist_add(2real * (v01 * jx0 * c02) + 2real * (v01 * jx1 * c12) + 2real * (v01 * jx2 * c22)
            + 2real * (v11 * jy0 * c02), 2real * (v11 * jy1 * c12), ey2);
        dist_add(2real * (v01 * jx0 * c02) + 2real * (v01 * jx1 * c12) + 2real * (v01 * jx2 * c22),
            2real * (v11 * jy0 * c02), ey2);
        dist_add(2real * (v01 * jx0 * c02) + 2real * (v01 * jx1 * c12), 2real * (v01 * jx2 * c22),
            ey2);
        dist_add(2real * (v01 * jx0 * c02), 2real * (v01 * jx1 * c12), ey2);
        mul_assoc(2real, v01 * jx0 * c02, ey2);
        mul_swap(v01 * jx0, c02, ey2);
        mul_assoc(2real, v01 * jx1 * c12, ey2);
        mul_swap(v01 * jx1, c12, ey2);
        mul_assoc(2real, v01 * jx2 * c22, ey2);
        mul_swap(v01 * jx2, c22, ey2);
        mul_assoc(2real, v11 * jy0 * c02, ey2);
        mul_swap(v11 * jy0, c02, ey2);
        mul_assoc(2real, v11 * jy1 * c12, ey2);
        mul_swap(v11 * jy1, c12, ey2);
        mul_assoc(2real, v11 * jy2 * c22, ey2);
        mul_swap(v11 * jy2, c22, ey2);
    }
}

pub(crate) proof fn gradient_pairing(
    m: real,
    n: real,
    jx0: real,
    jy0: real,
    jx1: real,
    jy1: real,
    jx2: real,
    jy2: real,
    wu0: real,
    wu1: real,
    wu2: real,
    wv0: real,
    wv1: real,
    wv2: real,
    du00: real,
    du01: real,
    du02: real,
    du10: real,
    du11: real,
    du12: real,
    du20: real,
    du21: real,
    du22: real,
    dv00: real,
    dv01: real,
    dv02: real,
    dv10: real,
    dv11: real,
    dv12: real,
    dv20: real,
    dv21: real,
    dv22: real,
    dx: real,
    dy: real,
    dz: real,
)
    ensures
        m * (jx0 * dx + jx1 * dy + jx2 * dz) + n * (jy0 * dx + jy1 * dy + jy2 * dz)
            + (wu0 * (du00 * dx + du01 * dy + du02 * dz) + wv0 * (dv00 * dx + dv01 * dy + dv02 * dz)
            + wu1 * (du10 * dx + du11 * dy + du12 * dz) + wv1 * (dv10 * dx + dv11 * dy + dv12 * dz)
            + wu2 * (du20 * dx + du21 * dy + du22 * dz) + wv2 * (dv20 * dx + dv21 * dy + dv22 * dz))
            == (m * jx0 + n * jy0 + (wu0 * du00 + wv0 * dv00) + (wu1 * du10 + wv1 * dv10)
            + (wu2 * du20 + wv2 * dv20)) * dx
            + (m * jx1 + n * jy1 + (wu0 * du01 + wv0 * dv01) + (wu1 * du11 + wv1 * dv11)
            + (wu2 * du21 + wv2 * dv21)) * dy
            + (m * jx2 + n * jy2 + (wu0 * du02 + wv0 * dv02) + (wu1 * du12 + wv1 * dv12)
            + (wu2 * du22 + wv2 * dv22)) * dz,
{
    assert(m * (jx0 * dx + jx1 * dy + jx2 * dz) == m * jx0 * dx + m * jx1 * dy + m * jx2 * dz) by {
        dist_add_left(m, jx0 * dx + jx1 * dy, jx2 * dz);
        dist_add_left(m, jx0 * dx, jx1 * dy);
        mul_assoc(m, jx0, dx);
        mul_assoc(m, jx1, dy);
        mul_assoc(m, jx2, dz);
    }
    assert(n * (jy0 * dx + jy1 * dy + jy2 * dz) == n * jy0 * dx + n * jy1 * dy + n * jy2 * dz) by {
        dist_add_left(n, jy0 * dx + jy1 * dy, jy2 * dz);
        dist_add_left(n, jy0 * dx, jy1 * dy);
        mul_assoc(n, jy0, dx);
        mul_assoc(n, jy1, dy);
        mul_assoc(n, jy2, dz);
    }
    assert(wu0 * (du00 * dx + du01 * dy + du02 * dz)
        == wu0 * du00 * dx + wu0 * du01 * dy + wu0 * du02 * dz) by {
        dist_add_left(wu0, du00 * dx + du01 * dy, du02 * dz);
        dist_add_left(wu0, du00 * dx, du01 * dy);
        mul_assoc(wu0, du00, dx);
        mul_assoc(wu0, du01, dy);
        mul_assoc(wu0, du02, dz);
    }
    assert(wv0 * (dv00 * dx + dv01 * dy + dv02 * dz)
        == wv0 * dv00 * dx + wv0 * dv01 * dy + wv0 * dv02 * dz) by {
        dist_add_left(wv0, dv00 * dx + dv01 * dy, dv02 * dz);
        dist_add_left(wv0, dv00 * dx, dv01 * dy);
        mul_assoc(wv0, dv00, dx);
        mul_assoc(wv0, dv01, dy);
        mul_assoc(wv0, dv02, dz);
    }
    assert(wu1 * (du10 * dx + du11 * dy + du12 * dz)
        == wu1 * du10 * dx + wu1 * du11 * dy + wu1 * du12 * dz) by {
        dist_add_left(wu1, du10 * dx + du11 * dy, du12 * dz);
        dist_add_left(wu1, du10 * dx, du11 * dy);
        mul_assoc(wu1, du10, dx);
        mul_assoc(wu1, du11, dy);
        mul_assoc(wu1, du12, dz);
    }
    assert(wv1 * (dv10 * dx + dv11 * dy + dv12 * dz)
        == wv1 * dv10 * dx + wv1 * dv11 * dy + wv1 * dv12 * dz) by {
        dist_add_left(wv1, dv10 * dx + dv11 * dy, dv12 * dz);
        dist_add_left(wv1, dv10 * dx, dv11 * dy);
        mul_assoc(wv1, dv10, dx);
        mul_assoc(wv1, dv11, dy);
        mul_assoc(wv1, dv12, dz);
    }
    assert(wu2 * (du20 * dx + du21 * dy + du22 * dz)
        == wu2 * du20 * dx + wu2 * du21 * dy + wu2 * du22 * dz) by {
        dist_add_left(wu2, du20 * dx + du21 * dy, du22 * dz);
        dist_add_left(wu2, du20 * dx, du21 * dy);
        mul_assoc(wu2, du20, dx);
        mul_assoc(wu2, du21, dy);
        mul_assoc(wu2, du22, dz);
    }
    assert(wv2 * (dv20 * dx + dv21 * dy + dv22 * dz)
        == wv2 * dv20 * dx + wv2 * dv21 * dy + wv2 * dv22 * dz) by {
        dist_add_left(wv2, dv20 * dx + dv21 * dy, dv22 * dz);
        dist_add_left(wv2, dv20 * dx, dv21 * dy);
        mul_assoc(wv2, dv20, dx);
        mul_assoc(wv2, dv21, dy);
        mul_assoc(wv2, dv22, dz);
    }
    assert((m * jx0 + n * jy0 + (wu0 * du00 + wv0 * dv00) + (wu1 * du10 + wv1 * dv10)
        + (wu2 * du20 + wv2 * dv20)) * dx
        == m * jx0 * dx + n * jy0 * dx + wu0 * du00 * dx + wu1 * du10 * dx + wu2 * du20 * dx
        + wv0 * dv00 * dx + wv1 * dv10 * dx + wv2 * dv20 * dx) by {
        mul_eq(m * jx0 + n * jy0 + (wu0 * du00 + wv0 * dv00) + (wu1 * du10 + wv1 * dv10)
            + (wu2 * du20 + wv2 * dv20), dx,
            m * jx0 + n * jy0 + wu0 * du00 + wu1 * du10 + wu2 * du20 + wv0 * dv00 + wv1 * dv10
            + wv2 * dv20, dx);
        dist_add(m * jx0 + n * jy0 + wu0 * du00 + wu1 * du10 + wu2 * du20 + wv0 * dv00 + wv1 * dv10,
            wv2 * dv20, dx);
        dist_add(m * jx0 + n * jy0 + wu0 * du00 + wu1 * du10 + wu2 * du20 + wv0 * dv00, wv1 * dv10,
            dx);
        dist_add(m * jx0 + n * jy0 + wu0 * du00 + wu1 * du10 + wu2 * du20, wv0 * dv00, dx);
        dist_add(m * jx0 + n * jy0 + wu0 * du00 + wu1 * du10, wu2 * du20, dx);
        dist_add(m * jx0 + n * jy0 + wu0 * du00, wu1 * du10, dx);
        dist_add(m * jx0 + n * jy0, wu0 * du00, dx);
        dist_add(m * jx0, n * jy0, dx);
    }
    assert((m * jx1 + n * jy1 + (wu0 * du01 + wv0 * dv01) + (wu1 * du11 + wv1 * dv11)
        + (wu2 * du21 + wv2 * dv21)) * dy
        == m * jx1 * dy + n * jy1 * dy + wu0 * du01 * dy + wu1 * du11 * dy + wu2 * du21 * dy
        + wv0 * dv01 * dy + wv1 * dv11 * dy + wv2 * dv21 * dy) by {
        mul_eq(m * jx1 + n * jy1 + (wu0 * du01 + wv0 * dv01) + (wu1 * du11 + wv1 * dv11)
            + (wu2 * du21 + wv2 * dv21), dy,
            m * jx1 + n * jy1 + wu0 * du01 + wu1 * du11 + wu2 * du21 + wv0 * dv01 + wv1 * dv11
            + wv2 * dv21, dy);
        dist_add(m * jx1 + n * jy1 + wu0 * du01 + wu1 * du11 + wu2 * du21 + wv0 * dv01 + wv1 * dv11,
            wv2 * dv21, dy);
        dist_add(m * jx1 + n * jy1 + wu0 * du01 + wu1 * du11 + wu2 * du21 + wv0 * dv01, wv1 * dv11,
            dy);
        dist_add(m * jx1 + n * jy1 + wu0 * du01 + wu1 * du11 + wu2 * du21, wv0 * dv01, dy);
        dist_add(m * jx1 + n * jy1 + wu0 * du01 + wu1 * du11, wu2 * du21, dy);
        dist_add(m * jx1 + n * jy1 + wu0 * du01, wu1 * du11, dy);
        dist_add(m * jx1 + n * jy1, wu0 * du01, dy);
        dist_add(m * jx1, n * jy1, dy);
    }
    assert((m * jx2 + n * jy2 + (wu0 * du02 + wv0 * dv02) + (wu1 * du12 + wv1 * dv12)
        + (wu2 * du22 + wv2 * dv22)) * dz
        == m * jx2 * dz + n * jy2 * dz + wu0 * du02 * dz + wu1 * du12 * dz + wu2 * du22 * dz
        + wv0 * dv02 * dz + wv1 * dv12 * dz + wv2 * dv22 * dz) by {
        mul_eq(m * jx2 + n * jy2 + (wu0 * du02 + wv0 * dv02) + (wu1 * du12 + wv1 * dv12)
            + (wu2 * du22 + wv2 * dv22), dz,
            m * jx2 + n * jy2 + wu0 * du02 + wu1 * du12 + wu2 * du22 + wv0 * dv02 + wv1 * dv12
            + wv2 * dv22, dz);
        dist_add(m * jx2 + n * jy2 + wu0 * du02 + wu1 * du12 + wu2 * du22 + wv0 * dv02 + wv1 * dv12,
            wv2 * dv22, dz);
        dist_add(m * jx2 + n * jy2 + wu0 * du02 + wu1 * du12 + wu2 * du22 + wv0 * dv02, wv1 * dv12,
            dz);
        dist_add(m * jx2 + n * jy2 + wu0 * du02 + wu1 * du12 + wu2 * du22, wv0 * dv02, dz);
        dist_add(m * jx2 + n * jy2 + wu0 * du02 + wu1 * du12, wu2 * du22, dz);
        dist_add(m * jx2 + n * jy2 + wu0 * du02, wu1 * du12, dz);
        dist_add(m * jx2 + n * jy2, wu0 * du02, dz);
        dist_add(m * jx2, n * jy2, dz);
    }
}

pub(crate) proof fn pinhole_rate(f: real, x: real, q: real, dx: real, dz: real, dq: real)
    requires
        dq == -(dz * (q * q)),
    ensures
        f * dx * q + f * x * dq == f * q * dx + 0real * x + (-(f * q)) * x * q * dz,
{
    assert(dz * (q * q) == q * q * dz) by {
        mul_comm(dz, q);
        mul_assoc(dz, q, q);
        mul_swap(q, dz, q);
    }
    assert(f * dx * q == f * q * dx) by {
        mul_swap(f, dx, q);
    }
    assert((-(f * q)) * x == -(f * x * q)) by {
        dist_neg(f * q, x);
        mul_swap(f, q, x);
    }
    assert((-(f * q)) * x * q == -(f * x * q * q)) by {
        mul_eq((-(f * q)) * x, q, -(f * x * q), q);
        dist_neg(f * x * q, q);
    }
    assert((-(f * q)) * x * q * dz == -(f * x * q * q * dz)) by {
        mul_eq((-(f * q)) * x * q, dz, -(f * x * q * q), dz);
        dist_neg(f * x * q * q, dz);
    }
    assert(f * x * dq == -(f * x * q * q * dz)) by {
        mul_eq(f * x, dq, f * x, -(dz * (q * q)));
        mul_eq(f * x, -(dz * (q * q)), f * x, -(q * q * dz));
        dist_neg_left(f * x, q * q * dz);
        mul_assoc(f * x, q, q);
        mul_assoc(f * x, q * q, dz);
    }
}

} // verus!
