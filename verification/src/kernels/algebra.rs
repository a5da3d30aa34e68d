//! Identities between polynomials behind the gradients of the kernels.
use crate::expr::algebra::{
    dist_add, dist_add_left, dist_neg, dist_neg_left, dist_sub, dist_sub_left, mul_assoc, mul_comm,
    mul_eq, mul_front, mul_swap,
};
use vstd::prelude::*;

verus! {

pub(crate) proof fn rotation_pairing(
    qw: real,
    qx: real,
    qy: real,
    qz: real,
    dw: real,
    dx: real,
    dy: real,
    dz: real,
    v0x: real,
    v0y: real,
    v0z: real,
    v1x: real,
    v1y: real,
    v1z: real,
    v2x: real,
    v2y: real,
    v2z: real,
)
    ensures
        v0x * (0real - 2real * (dy * qy + qy * dy + (dz * qz + qz * dz)))
            + v0y * (2real * (dx * qy + qx * dy + (dw * qz + qw * dz)))
            + v0z * (2real * (dx * qz + qx * dz - (dw * qy + qw * dy)))
            + (v1x * (2real * (dx * qy + qx * dy - (dw * qz + qw * dz)))
            + v1y * (0real - 2real * (dx * qx + qx * dx + (dz * qz + qz * dz)))
            + v1z * (2real * (dy * qz + qy * dz + (dw * qx + qw * dx))))
            + (v2x * (2real * (dx * qz + qx * dz + (dw * qy + qw * dy)))
            + v2y * (2real * (dy * qz + qy * dz - (dw * qx + qw * dx)))
            + v2z * (0real - 2real * (dx * qx + qx * dx + (dy * qy + qy * dy))))
            == 2real * (qx * (v1z - v2y) + qy * (v2x - v0z) + qz * (v0y - v1x)) * dw
            + 2real * ((-2real) * qx * (v1y + v2z) + qy * (v0y + v1x) + qz * (v0z + v2x)
            + qw * (v1z - v2y)) * dx + 2real
            * (qx * (v0y + v1x) - 2real * qy * (v0x + v2z) + qz * (v1z + v2y) + qw * (v2x - v0z))
            * dy + 2real * (qx * (v0z + v2x) + qy * (v1z + v2y) - 2real * qz * (v0x + v1y)
            + qw * (v0y - v1x)) * dz,
{
    assert(dy * qy == qy * dy) by {
        mul_comm(dy, qy);
    }
    assert(dz * qz == qz * dz) by {
        mul_comm(dz, qz);
    }
    assert(v0x * (0real - 2real * (dy * qy + qy * dy + (dz * qz + qz * dz)))
        == -(4real * (qy * dy * v0x)) - 4real * (qz * dz * v0x)) by {
        mul_eq(v0x, 0real - 2real * (dy * qy + qy * dy + (dz * qz + qz * dz)), v0x,
            -(4real * (qy * dy)) - 4real * (qz * dz));
        dist_sub_left(v0x, -(4real * (qy * dy)), 4real * (qz * dz));
        dist_neg_left(v0x, 4real * (qy * dy));
        mul_front(v0x, 4real, qy * dy);
        mul_comm(v0x, qy);
        mul_assoc(v0x, qy, dy);
        mul_swap(qy, v0x, dy);
        mul_front(v0x, 4real, qz * dz);
        mul_comm(v0x, qz);
        mul_assoc(v0x, qz, dz);
        mul_swap(qz, v0x, dz);
    }
    assert(dx * qy == qy * dx) by {
        mul_comm(dx, qy);
    }
    assert(dw * qz == qz * dw) by {
        mul_comm(dw, qz);
    }
    assert(v0y * (2real * (dx * qy + qx * dy + (dw * qz + qw * dz)))
        == 2real * (qw * dz * v0y) + 2real * (qx * dy * v0y) + 2real * (qy * dx * v0y)
        + 2real * (qz * dw * v0y)) by {
        mul_eq(v0y, 2real * (dx * qy + qx * dy + (dw * qz + qw * dz)), v0y,
            2real * (qw * dz) + 2real * (qx * dy) + 2real * (qy * dx) + 2real * (qz * dw));
        dist_add_left(v0y, 2real * (qw * dz) + 2real * (qx * dy) + 2real * (qy * dx),
            2real * (qz * dw));
        dist_add_left(v0y, 2real * (qw * dz) + 2real * (qx * dy), 2real * (qy * dx));
        dist_add_left(v0y, 2real * (qw * dz), 2real * (qx * dy));
        mul_front(v0y, 2real, qw * dz);
        mul_comm(v0y, qw);
        mul_assoc(v0y, qw, dz);
        mul_swap(qw, v0y, dz);
        mul_front(v0y, 2real, qx * dy);
        mul_comm(v0y, qx);
        mul_assoc(v0y, qx, dy);
        mul_swap(qx, v0y, dy);
        mul_front(v0y, 2real, qy * dx);
        mul_comm(v0y, qy);
        mul_assoc(v0y, qy, dx);
        mul_swap(qy, v0y, dx);
        mul_front(v0y, 2real, qz * dw);
        mul_comm(v0y, qz);
        mul_assoc(v0y, qz, dw);
        mul_swap(qz, v0y, dw);
    }
    assert(dx * qz == qz * dx) by {
        mul_comm(dx, qz);
    }
    assert(dw * qy == qy * dw) by {
        mul_comm(dw, qy);
    }
    assert(v0z * (2real * (dx * qz + qx * dz - (dw * qy + qw * dy)))
        == -(2real * (qw * dy * v0z)) + 2real * (qx * dz * v0z) - 2real * (qy * dw * v0z)
        + 2real * (qz * dx * v0z)) by {
        mul_eq(v0z, 2real * (dx * qz + qx * dz - (dw * qy + qw * dy)), v0z,
            -(2real * (qw * dy)) + 2real * (qx * dz) - 2real * (qy * dw) + 2real * (qz * dx));
        dist_add_left(v0z, -(2real * (qw * dy)) + 2real * (qx * dz) - 2real * (qy * dw),
            2real * (qz * dx));
        dist_sub_left(v0z, -(2real * (qw * dy)) + 2real * (qx * dz), 2real * (qy * dw));
        dist_add_left(v0z, -(2real * (qw * dy)), 2real * (qx * dz));
        dist_neg_left(v0z, 2real * (qw * dy));
        mul_front(v0z, 2real, qw * dy);
        mul_comm(v0z, qw);
        mul_assoc(v0z, qw, dy);
        mul_swap(qw, v0z, dy);
        mul_front(v0z, 2real, qx * dz);
        mul_comm(v0z, qx);
        mul_assoc(v0z, qx, dz);
        mul_swap(qx, v0z, dz);
        mul_front(v0z, 2real, qy * dw);
        mul_comm(v0z, qy);
        mul_assoc(v0z, qy, dw);
        mul_swap(qy, v0z, dw);
        mul_front(v0z, 2real, qz * dx);
        mul_comm(v0z, qz);
        mul_assoc(v0z, qz, dx);
        mul_swap(qz, v0z, dx);
    }
    assert(v1x * (2real * (dx * qy + qx * dy - (dw * qz + qw * dz)))
        == -(2real * (qw * dz * v1x)) + 2real * (qx * dy * v1x) + 2real * (qy * dx * v1x)
        - 2real * (qz * dw * v1x)) by {
        mul_eq(v1x, 2real * (dx * qy + qx * dy - (dw * qz + qw * dz)), v1x,
            -(2real * (qw * dz)) + 2real * (qx * dy) + 2real * (qy * dx) - 2real * (qz * dw));
        dist_sub_left(v1x, -(2real * (qw * dz)) + 2real * (qx * dy) + 2real * (qy * dx),
            2real * (qz * dw));
        dist_add_left(v1x, -(2real * (qw * dz)) + 2real * (qx * dy), 2real * (qy * dx));
        dist_add_left(v1x, -(2real * (qw * dz)), 2real * (qx * dy));
        dist_neg_left(v1x, 2real * (qw * dz));
        mul_front(v1x, 2real, qw * dz);
        mul_comm(v1x, qw);
        mul_assoc(v1x, qw, dz);
        mul_swap(qw, v1x, dz);
        mul_front(v1x, 2real, qx * dy);
        mul_comm(v1x, qx);
        mul_assoc(v1x, qx, dy);
        mul_swap(qx, v1x, dy);
        mul_front(v1x, 2real, qy * dx);
        mul_comm(v1x, qy);
        mul_assoc(v1x, qy, dx);
        mul_swap(qy, v1x, dx);
        mul_front(v1x, 2real, qz * dw);
        mul_comm(v1x, qz);
        mul_assoc(v1x, qz, dw);
        mul_swap(qz, v1x, dw);
    }
    assert(dx * qx == qx * dx) by {
        mul_comm(dx, qx);
    }
    assert(v1y * (0real - 2real * (dx * qx + qx * dx + (dz * qz + qz * dz)))
        == -(4real * (qx * dx * v1y)) - 4real * (qz * dz * v1y)) by {
        mul_eq(v1y, 0real - 2real * (dx * qx + qx * dx + (dz * qz + qz * dz)), v1y,
            -(4real * (qx * dx)) - 4real * (qz * dz));
        dist_sub_left(v1y, -(4real * (qx * dx)), 4real * (qz * dz));
        dist_neg_left(v1y, 4real * (qx * dx));
        mul_front(v1y, 4real, qx * dx);
        mul_comm(v1y, qx);
        mul_assoc(v1y, qx, dx);
        mul_swap(qx, v1y, dx);
        mul_front(v1y, 4real, qz * dz);
        mul_comm(v1y, qz);
        mul_assoc(v1y, qz, dz);
        mul_swap(qz, v1y, dz);
    }
    assert(dy * qz == qz * dy) by {
        mul_comm(dy, qz);
    }
    assert(dw * qx == qx * dw) by {
        mul_comm(dw, qx);
    }
    assert(v1z * (2real * (dy * qz + qy * dz + (dw * qx + qw * dx)))
        == 2real * (qw * dx * v1z) + 2real * (qx * dw * v1z) + 2real * (qy * dz * v1z)
        + 2real * (qz * dy * v1z)) by {
        mul_eq(v1z, 2real * (dy * qz + qy * dz + (dw * qx + qw * dx)), v1z,
            2real * (qw * dx) + 2real * (qx * dw) + 2real * (qy * dz) + 2real * (qz * dy));
        dist_add_left(v1z, 2real * (qw * dx) + 2real * (qx * dw) + 2real * (qy * dz),
            2real * (qz * dy));
        dist_add_left(v1z, 2real * (qw * dx) + 2real * (qx * dw), 2real * (qy * dz));
        dist_add_left(v1z, 2real * (qw * dx), 2real * (qx * dw));
        mul_front(v1z, 2real, qw * dx);
        mul_comm(v1z, qw);
        mul_assoc(v1z, qw, dx);
        mul_swap(qw, v1z, dx);
        mul_front(v1z, 2real, qx * dw);
        mul_comm(v1z, qx);
        mul_assoc(v1z, qx, dw);
        mul_swap(qx, v1z, dw);
        mul_front(v1z, 2real, qy * dz);
        mul_comm(v1z, qy);
        mul_assoc(v1z, qy, dz);
        mul_swap(qy, v1z, dz);
        mul_front(v1z, 2real, qz * dy);
        mul_comm(v1z, qz);
        mul_assoc(v1z, qz, dy);
        mul_swap(qz, v1z, dy);
    }
    assert(v2x * (2real * (dx * qz + qx * dz + (dw * qy + qw * dy)))
        == 2real * (qw * dy * v2x) + 2real * (qx * dz * v2x) + 2real * (qy * dw * v2x)
        + 2real * (qz * dx * v2x)) by {
        mul_eq(v2x, 2real * (dx * qz + qx * dz + (dw * qy + qw * dy)), v2x,
            2real * (qw * dy) + 2real * (qx * dz) + 2real * (qy * dw) + 2real * (qz * dx));
        dist_add_left(v2x, 2real * (qw * dy) + 2real * (qx * dz) + 2real * (qy * dw),
            2real * (qz * dx));
        dist_add_left(v2x, 2real * (qw * dy) + 2real * (qx * dz), 2real * (qy * dw));
        dist_add_left(v2x, 2real * (qw * dy), 2real * (qx * dz));
        mul_front(v2x, 2real, qw * dy);
        mul_comm(v2x, qw);
        mul_assoc(v2x, qw, dy);
        mul_swap(qw, v2x, dy);
        mul_front(v2x, 2real, qx * dz);
        mul_comm(v2x, qx);
        mul_assoc(v2x, qx, dz);
        mul_swap(qx, v2x, dz);
        mul_front(v2x, 2real, qy * dw);
        mul_comm(v2x, qy);
        mul_assoc(v2x, qy, dw);
        mul_swap(qy, v2x, dw);
        mul_front(v2x, 2real, qz * dx);
        mul_comm(v2x, qz);
        mul_assoc(v2x, qz, dx);
        mul_swap(qz, v2x, dx);
    }
    assert(v2y * (2real * (dy * qz + qy * dz - (dw * qx + qw * dx)))
        == -(2real * (qw * dx * v2y)) - 2real * (qx * dw * v2y) + 2real * (qy * dz * v2y)
        + 2real * (qz * dy * v2y)) by {
        mul_eq(v2y, 2real * (dy * qz + qy * dz - (dw * qx + qw * dx)), v2y,
            -(2real * (qw * dx)) - 2real * (qx * dw) + 2real * (qy * dz) + 2real * (qz * dy));
        dist_add_left(v2y, -(2real * (qw * dx)) - 2real * (qx * dw) + 2real * (qy * dz),
            2real * (qz * dy));
        dist_add_left(v2y, -(2real * (qw * dx)) - 2real * (qx * dw), 2real * (qy * dz));
        dist_sub_left(v2y, -(2real * (qw * dx)), 2real * (qx * dw));
        dist_neg_left(v2y, 2real * (qw * dx));
        mul_front(v2y, 2real, qw * dx);
        mul_comm(v2y, qw);
        mul_assoc(v2y, qw, dx);
        mul_swap(qw, v2y, dx);
        mul_front(v2y, 2real, qx * dw);
        mul_comm(v2y, qx);
        mul_assoc(v2y, qx, dw);
        mul_swap(qx, v2y, dw);
        mul_front(v2y, 2real, qy * dz);
        mul_comm(v2y, qy);
        mul_assoc(v2y, qy, dz);
        mul_swap(qy, v2y, dz);
        mul_front(v2y, 2real, qz * dy);
        mul_comm(v2y, qz);
        mul_assoc(v2y, qz, dy);
        mul_swap(qz, v2y, dy);
    }
    assert(v2z * (0real - 2real * (dx * qx + qx * dx + (dy * qy + qy * dy)))
        == -(4real * (qx * dx * v2z)) - 4real * (qy * dy * v2z)) by {
        mul_eq(v2z, 0real - 2real * (dx * qx + qx * dx + (dy * qy + qy * dy)), v2z,
            -(4real * (qx * dx)) - 4real * (qy * dy));
        dist_sub_left(v2z, -(4real * (qx * dx)), 4real * (qy * dy));
        dist_neg_left(v2z, 4real * (qx * dx));
        mul_front(v2z, 4real, qx * dx);
        mul_comm(v2z, qx);
        mul_assoc(v2z, qx, dx);
        mul_swap(qx, v2z, dx);
        mul_front(v2z, 4real, qy * dy);
        mul_comm(v2z, qy);
        mul_assoc(v2z, qy, dy);
        mul_swap(qy, v2z, dy);
    }
    assert(qx * (v1z - v2y) == qx * v1z - qx * v2y) by {
        dist_sub_left(qx, v1z, v2y);
    }
    assert(qy * (v2x - v0z) == -(qy * v0z) + qy * v2x) by {
        mul_eq(qy, v2x - v0z, qy, -v0z + v2x);
        dist_add_left(qy, -v0z, v2x);
        dist_neg_left(qy, v0z);
    }
    assert(qz * (v0y - v1x) == qz * v0y - qz * v1x) by {
        dist_sub_left(qz, v0y, v1x);
    }
    assert(2real * (qx * (v1z - v2y) + qy * (v2x - v0z) + qz * (v0y - v1x)) * dw
        == 2real * (qx * dw * v1z) - 2real * (qx * dw * v2y) - 2real * (qy * dw * v0z)
        + 2real * (qy * dw * v2x) + 2real * (qz * dw * v0y) - 2real * (qz * dw * v1x)) by {
        mul_eq(2real * (qx * (v1z - v2y) + qy * (v2x - v0z) + qz * (v0y - v1x)), dw,
            2real * (qx * v1z) - 2real * (qx * v2y) - 2real * (qy * v0z) + 2real * (qy * v2x)
            + 2real * (qz * v0y) - 2real * (qz * v1x), dw);
        dist_sub(2real * (qx * v1z) - 2real * (qx * v2y) - 2real * (qy * v0z) + 2real * (qy * v2x)
            + 2real * (qz * v0y), 2real * (qz * v1x), dw);
        dist_add(2real * (qx * v1z) - 2real * (qx * v2y) - 2real * (qy * v0z) + 2real * (qy * v2x),
            2real * (qz * v0y), dw);
        dist_add(2real * (qx * v1z) - 2real * (qx * v2y) - 2real * (qy * v0z), 2real * (qy * v2x),
            dw);
        dist_sub(2real * (qx * v1z) - 2real * (qx * v2y), 2real * (qy * v0z), dw);
        dist_sub(2real * (qx * v1z), 2real * (qx * v2y), dw);
        mul_assoc(2real, qx * v1z, dw);
        mul_swap(qx, v1z, dw);
        mul_assoc(2real, qx * v2y, dw);
        mul_swap(qx, v2y, dw);
        mul_assoc(2real, qy * v0z, dw);
        mul_swap(qy, v0z, dw);
        mul_assoc(2real, qy * v2x, dw);
        mul_swap(qy, v2x, dw);
        mul_assoc(2real, qz * v0y, dw);
        mul_swap(qz, v0y, dw);
        mul_assoc(2real, qz * v1x, dw);
        mul_swap(qz, v1x, dw);
    }
    assert((-2real) * qx == -(2real * qx)) by {
        mul_eq(-2real, qx, -(2real), qx);
        dist_neg(2real, qx);
    }
    assert((-2real) * qx * (v1y + v2z) == -(2real * (qx * v1y)) - 2real * (qx * v2z)) by {
        mul_eq((-2real) * qx, v1y + v2z, -(2real * qx), v1y + v2z);
        dist_neg(2real * qx, v1y + v2z);
        mul_assoc(2real, qx, v1y + v2z);
        dist_add_left(qx, v1y, v2z);
    }
    assert(qy * (v0y + v1x) == qy * v0y + qy * v1x) by {
        dist_add_left(qy, v0y, v1x);
    }
    assert(qz * (v0z + v2x) == qz * v0z + qz * v2x) by {
        dist_add_left(qz, v0z, v2x);
    }
    assert(qw * (v1z - v2y) == qw * v1z - qw * v2y) by {
        dist_sub_left(qw, v1z, v2y);
    }
    assert(2real * ((-2real) * qx * (v1y + v2z) + qy * (v0y + v1x) + qz * (v0z + v2x)
        + qw * (v1z - v2y)) * dx == 2real * (qw * dx * v1z) - 2real * (qw * dx * v2y)
        - 4real * (qx * dx * v1y) - 4real * (qx * dx * v2z) + 2real * (qy * dx * v0y)
        + 2real * (qy * dx * v1x) + 2real * (qz * dx * v0z) + 2real * (qz * dx * v2x)) by {
        mul_eq(2real * ((-2real) * qx * (v1y + v2z) + qy * (v0y + v1x) + qz * (v0z + v2x)
            + qw * (v1z - v2y)), dx, 2real * (qw * v1z) - 2real * (qw * v2y) - 4real * (qx * v1y)
            - 4real * (qx * v2z) + 2real * (qy * v0y) + 2real * (qy * v1x) + 2real * (qz * v0z)
            + 2real * (qz * v2x), dx);
        dist_add(2real * (qw * v1z) - 2real * (qw * v2y) - 4real * (qx * v1y) - 4real * (qx * v2z)
            + 2real * (qy * v0y) + 2real * (qy * v1x) + 2real * (qz * v0z), 2real * (qz * v2x), dx);
        dist_add(2real * (qw * v1z) - 2real * (qw * v2y) - 4real * (qx * v1y) - 4real * (qx * v2z)
            + 2real * (qy * v0y) + 2real * (qy * v1x), 2real * (qz * v0z), dx);
        dist_add(2real * (qw * v1z) - 2real * (qw * v2y) - 4real * (qx * v1y) - 4real * (qx * v2z)
            + 2real * (qy * v0y), 2real * (qy * v1x), dx);
        dist_add(2real * (qw * v1z) - 2real * (qw * v2y) - 4real * (qx * v1y) - 4real * (qx * v2z),
            2real * (qy * v0y), dx);
        dist_sub(2real * (qw * v1z) - 2real * (qw * v2y) - 4real * (qx * v1y), 4real * (qx * v2z),
            dx);
        dist_sub(2real * (qw * v1z) - 2real * (qw * v2y), 4real * (qx * v1y), dx);
        dist_sub(2real * (qw * v1z), 2real * (qw * v2y), dx);
        mul_assoc(2real, qw * v1z, dx);
        mul_swap(qw, v1z, dx);
        mul_assoc(2real, qw * v2y, dx);
        mul_swap(qw, v2y, dx);
        mul_assoc(4real, qx * v1y, dx);
        mul_swap(qx, v1y, dx);
        mul_assoc(4real, qx * v2z, dx);
        mul_swap(qx, v2z, dx);
        mul_assoc(2real, qy * v0y, dx);
        mul_swap(qy, v0y, dx);
        mul_assoc(2real, qy * v1x, dx);
        mul_swap(qy, v1x, dx);
        mul_assoc(2real, qz * v0z, dx);
        mul_swap(qz, v0z, dx);
        mul_assoc(2real, qz * v2x, dx);
        mul_swap(qz, v2x, dx);
    }
    assert(qx * (v0y + v1x) == qx * v0y + qx * v1x) by {
        dist_add_left(qx, v0y, v1x);
    }
    assert(2real * qy * (v0x + v2z) == 2real * (qy * v0x) + 2real * (qy * v2z)) by {
        mul_assoc(2real, qy, v0x + v2z);
        dist_add_left(qy, v0x, v2z);
    }
    assert(qz * (v1z + v2y) == qz * v1z + qz * v2y) by {
        dist_add_left(qz, v1z, v2y);
    }
    assert(qw * (v2x - v0z) == -(qw * v0z) + qw * v2x) by {
        mul_eq(qw, v2x - v0z, qw, -v0z + v2x);
        dist_add_left(qw, -v0z, v2x);
        dist_neg_left(qw, v0z);
    }
    assert(2real * (qx * (v0y + v1x) - 2real * qy * (v0x + v2z) + qz * (v1z + v2y)
        + qw * (v2x - v0z)) * dy == -(2real * (qw * dy * v0z)) + 2real * (qw * dy * v2x)
        + 2real * (qx * dy * v0y) + 2real * (qx * dy * v1x) - 4real * (qy * dy * v0x)
        - 4real * (qy * dy * v2z) + 2real * (qz * dy * v1z) + 2real * (qz * dy * v2y)) by {
        mul_eq(2real * (qx * (v0y + v1x) - 2real * qy * (v0x + v2z) + qz * (v1z + v2y)
            + qw * (v2x - v0z)), dy, -(2real * (qw * v0z)) + 2real * (qw * v2x) + 2real * (qx * v0y)
            + 2real * (qx * v1x) - 4real * (qy * v0x) - 4real * (qy * v2z) + 2real * (qz * v1z)
            + 2real * (qz * v2y), dy);
        dist_add(-(2real * (qw * v0z)) + 2real * (qw * v2x) + 2real * (qx * v0y)
            + 2real * (qx * v1x) - 4real * (qy * v0x) - 4real * (qy * v2z) + 2real * (qz * v1z),
            2real * (qz * v2y), dy);
        dist_add(-(2real * (qw * v0z)) + 2real * (qw * v2x) + 2real * (qx * v0y)
            + 2real * (qx * v1x) - 4real * (qy * v0x) - 4real * (qy * v2z), 2real * (qz * v1z), dy);
        dist_sub(-(2real * (qw * v0z)) + 2real * (qw * v2x) + 2real * (qx * v0y)
            + 2real * (qx * v1x) - 4real * (qy * v0x), 4real * (qy * v2z), dy);
        dist_sub(-(2real * (qw * v0z)) + 2real * (qw * v2x) + 2real * (qx * v0y)
            + 2real * (qx * v1x), 4real * (qy * v0x), dy);
        dist_add(-(2real * (qw * v0z)) + 2real * (qw * v2x) + 2real * (qx * v0y),
            2real * (qx * v1x), dy);
        dist_add(-(2real * (qw * v0z)) + 2real * (qw * v2x), 2real * (qx * v0y), dy);
        dist_add(-(2real * (qw * v0z)), 2real * (qw * v2x), dy);
        dist_neg(2real * (qw * v0z), dy);
        mul_assoc(2real, qw * v0z, dy);
        mul_swap(qw, v0z, dy);
        mul_assoc(2real, qw * v2x, dy);
        mul_swap(qw, v2x, dy);
        mul_assoc(2real, qx * v0y, dy);
        mul_swap(qx, v0y, dy);
        mul_assoc(2real, qx * v1x, dy);
        mul_swap(qx, v1x, dy);
        mul_assoc(4real, qy * v0x, dy);
        mul_swap(qy, v0x, dy);
        mul_assoc(4real, qy * v2z, dy);
        mul_swap(qy, v2z, dy);
        mul_assoc(2real, qz * v1z, dy);
        mul_swap(qz, v1z, dy);
        mul_assoc(2real, qz * v2y, dy);
        mul_swap(qz, v2y, dy);
    }
    assert(qx * (v0z + v2x) == qx * v0z + qx * v2x) by {
        dist_add_left(qx, v0z, v2x);
    }
    assert(qy * (v1z + v2y) == qy * v1z + qy * v2y) by {
        dist_add_left(qy, v1z, v2y);
    }
    assert(2real * qz * (v0x + v1y) == 2real * (qz * v0x) + 2real * (qz * v1y)) by {
        mul_assoc(2real, qz, v0x + v1y);
        dist_add_left(qz, v0x, v1y);
    }
    assert(qw * (v0y - v1x) == qw * v0y - qw * v1x) by {
        dist_sub_left(qw, v0y, v1x);
    }
    assert(2real * (qx * (v0z + v2x) + qy * (v1z + v2y) - 2real * qz * (v0x + v1y)
        + qw * (v0y - v1x)) * dz == 2real * (qw * dz * v0y) - 2real * (qw * dz * v1x)
        + 2real * (qx * dz * v0z) + 2real * (qx * dz * v2x) + 2real * (qy * dz * v1z)
        + 2real * (qy * dz * v2y) - 4real * (qz * dz * v0x) - 4real * (qz * dz * v1y)) by {
        mul_eq(2real * (qx * (v0z + v2x) + qy * (v1z + v2y) - 2real * qz * (v0x + v1y)
            + qw * (v0y - v1x)), dz, 2real * (qw * v0y) - 2real * (qw * v1x) + 2real * (qx * v0z)
            + 2real * (qx * v2x) + 2real * (qy * v1z) + 2real * (qy * v2y) - 4real * (qz * v0x)
            - 4real * (qz * v1y), dz);
        dist_sub(2real * (qw * v0y) - 2real * (qw * v1x) + 2real * (qx * v0z) + 2real * (qx * v2x)
            + 2real * (qy * v1z) + 2real * (qy * v2y) - 4real * (qz * v0x), 4real * (qz * v1y), dz);
        dist_sub(2real * (qw * v0y) - 2real * (qw * v1x) + 2real * (qx * v0z) + 2real * (qx * v2x)
            + 2real * (qy * v1z) + 2real * (qy * v2y), 4real * (qz * v0x), dz);
        dist_add(2real * (qw * v0y) - 2real * (qw * v1x) + 2real * (qx * v0z) + 2real * (qx * v2x)
            + 2real * (qy * v1z), 2real * (qy * v2y), dz);
        dist_add(2real * (qw * v0y) - 2real * (qw * v1x) + 2real * (qx * v0z) + 2real * (qx * v2x),
            2real * (qy * v1z), dz);
        dist_add(2real * (qw * v0y) - 2real * (qw * v1x) + 2real * (qx * v0z), 2real * (qx * v2x),
            dz);
        dist_add(2real * (qw * v0y) - 2real * (qw * v1x), 2real * (qx * v0z), dz);
        dist_sub(2real * (qw * v0y), 2real * (qw * v1x), dz);
        mul_assoc(2real, qw * v0y, dz);
        mul_swap(qw, v0y, dz);
        mul_assoc(2real, qw * v1x, dz);
        mul_swap(qw, v1x, dz);
        mul_assoc(2real, qx * v0z, dz);
        mul_swap(qx, v0z, dz);
        mul_assoc(2real, qx * v2x, dz);
        mul_swap(qx, v2x, dz);
        mul_assoc(2real, qy * v1z, dz);
        mul_swap(qy, v1z, dz);
        mul_assoc(2real, qy * v2y, dz);
        mul_swap(qy, v2y, dz);
        mul_assoc(4real, qz * v0x, dz);
        mul_swap(qz, v0x, dz);
        mul_assoc(4real, qz * v1y, dz);
        mul_swap(qz, v1y, dz);
    }
}

pub(crate) proof fn inverse_pairing(
    a: real,
    b: real,
    c: real,
    i: real,
    di: real,
    da: real,
    db: real,
    dc: real,
    u: real,
    v: real,
    w: real,
)
    requires
        di == -((da * c + a * dc - (db * b + b * db)) * (i * i)),
        (a * c - b * b) * i == 1real,
    ensures
        u * (dc * i + c * di) + 2real * v * ((-db) * i + (-b) * di) + w * (da * i + a * di)
            == (((-(c * i)) * u + (-((-b) * i)) * v) * (c * i)
            + ((-(c * i)) * v + (-((-b) * i)) * w) * ((-b) * i)) * da
            + 2real * (((-((-b) * i)) * u + (-(a * i)) * v) * (c * i)
            + ((-((-b) * i)) * v + (-(a * i)) * w) * ((-b) * i)) * db
            + (((-((-b) * i)) * u + (-(a * i)) * v) * ((-b) * i)
            + ((-((-b) * i)) * v + (-(a * i)) * w) * (a * i)) * dc,
{
    assert(da * c == c * da) by {
        mul_comm(da, c);
    }
    assert(db * b == b * db) by {
        mul_comm(db, b);
    }
    assert((da * c + a * dc - (db * b + b * db)) * (i * i)
        == a * i * i * dc - 2real * (b * i * i * db) + c * i * i * da) by {
        mul_eq(da * c + a * dc - (db * b + b * db), i * i, a * dc - 2real * (b * db) + c * da,
            i * i);
        dist_add(a * dc - 2real * (b * db), c * da, i * i);
        dist_sub(a * dc, 2real * (b * db), i * i);
        mul_swap(a, dc, i);
        mul_assoc(a * dc, i, i);
        mul_swap(a * i, dc, i);
        mul_assoc(2real, b * db, i * i);
        mul_swap(b, db, i);
        mul_assoc(b * db, i, i);
        mul_swap(b * i, db, i);
        mul_swap(c, da, i);
        mul_assoc(c * da, i, i);
        mul_swap(c * i, da, i);
    }
    assert((a * c - b * b) * i == a * c * i - b * b * i) by {
        dist_sub(a * c, b * b, i);
    }
    assert(dc * i == i * dc) by {
        mul_comm(dc, i);
    }
    assert(u * (dc * i + c * di) == c * di * u + i * dc * u) by {
        mul_eq(u, dc * i + c * di, u, c * di + i * dc);
        dist_add_left(u, c * di, i * dc);
        mul_comm(u, c);
        mul_assoc(u, c, di);
        mul_swap(c, u, di);
        mul_comm(u, i);
        mul_assoc(u, i, dc);
        mul_swap(i, u, dc);
    }
    assert((-db) * i == -(i * db)) by {
        dist_neg(db, i);
        mul_comm(db, i);
    }
    assert((-b) * di == -(b * di)) by {
        dist_neg(b, di);
    }
    assert(2real * v * ((-db) * i + (-b) * di)
        == -(2real * (b * di * v)) - 2real * (i * db * v)) by {
        mul_eq(2real * v, (-db) * i + (-b) * di, 2real * v, -(b * di) - i * db);
        mul_assoc(2real, v, -(b * di) - i * db);
        dist_sub_left(v, -(b * di), i * db);
        dist_neg_left(v, b * di);
        mul_comm(v, b);
        mul_assoc(v, b, di);
        mul_swap(b, v, di);
        mul_comm(v, i);
        mul_assoc(v, i, db);
        mul_swap(i, v, db);
    }
    assert(da * i == i * da) by {
        mul_comm(da, i);
    }
    assert(w * (da * i + a * di) == a * di * w + i * da * w) by {
        mul_eq(w, da * i + a * di, w, a * di + i * da);
        dist_add_left(w, a * di, i * da);
        mul_comm(w, a);
        mul_assoc(w, a, di);
        mul_swap(a, w, di);
        mul_comm(w, i);
        mul_assoc(w, i, da);
        mul_swap(i, w, da);
    }
    assert((-(c * i)) * u == -(c * i * u)) by {
        dist_neg(c * i, u);
    }
    assert((-b) * i == -(b * i)) by {
        dist_neg(b, i);
    }
    assert((-((-b) * i)) * v == b * i * v) by {
        mul_eq(-((-b) * i), v, b * i, v);
    }
    assert(((-(c * i)) * u + (-((-b) * i)) * v) * (c * i)
        == b * c * i * i * v - c * c * i * i * u) by {
        mul_eq((-(c * i)) * u + (-((-b) * i)) * v, c * i, b * i * v - c * i * u, c * i);
        dist_sub(b * i * v, c * i * u, c * i);
        mul_swap(b * i, v, c);
        mul_swap(b, i, c);
        mul_assoc(b * i * v, c, i);
        mul_swap(b * c * i, v, i);
        mul_swap(c * i, u, c);
        mul_swap(c, i, c);
        mul_assoc(c * i * u, c, i);
        mul_swap(c * c * i, u, i);
    }
    assert((-(c * i)) * v == -(c * i * v)) by {
        dist_neg(c * i, v);
    }
    assert((-((-b) * i)) * w == b * i * w) by {
        mul_eq(-((-b) * i), w, b * i, w);
    }
    assert(((-(c * i)) * v + (-((-b) * i)) * w) * ((-b) * i)
        == -(b * b * i * i * w) + b * c * i * i * v) by {
        mul_eq((-(c * i)) * v + (-((-b) * i)) * w, (-b) * i, b * i * w - c * i * v, -(b * i));
        dist_sub(b * i * w, c * i * v, -(b * i));
        dist_neg_left(b * i * w, b * i);
        mul_swap(b * i, w, b);
        mul_swap(b, i, b);
        mul_assoc(b * i * w, b, i);
        mul_swap(b * b * i, w, i);
        dist_neg_left(c * i * v, b * i);
        mul_swap(c * i, v, b);
        mul_swap(c, i, b);
        mul_comm(c, b);
        mul_assoc(c * i * v, b, i);
        mul_swap(b * c * i, v, i);
    }
    assert((((-(c * i)) * u + (-((-b) * i)) * v) * (c * i)
        + ((-(c * i)) * v + (-((-b) * i)) * w) * ((-b) * i)) * da
        == -(b * b * i * i * da * w) + 2real * (b * c * i * i * da * v)
        - c * c * i * i * da * u) by {
        mul_eq(((-(c * i)) * u + (-((-b) * i)) * v) * (c * i)
            + ((-(c * i)) * v + (-((-b) * i)) * w) * ((-b) * i), da,
            -(b * b * i * i * w) + 2real * (b * c * i * i * v) - c * c * i * i * u, da);
        dist_sub(-(b * b * i * i * w) + 2real * (b * c * i * i * v), c * c * i * i * u, da);
        dist_add(-(b * b * i * i * w), 2real * (b * c * i * i * v), da);
        dist_neg(b * b * i * i * w, da);
        mul_swap(b * b * i * i, w, da);
        mul_assoc(2real, b * c * i * i * v, da);
        mul_swap(b * c * i * i, v, da);
        mul_swap(c * c * i * i, u, da);
    }
    assert((-((-b) * i)) * u == b * i * u) by {
        mul_eq(-((-b) * i), u, b * i, u);
    }
    assert((-(a * i)) * v == -(a * i * v)) by {
        dist_neg(a * i, v);
    }
    assert(((-((-b) * i)) * u + (-(a * i)) * v) * (c * i)
        == -(a * c * i * i * v) + b * c * i * i * u) by {
        mul_eq((-((-b) * i)) * u + (-(a * i)) * v, c * i, -(a * i * v) + b * i * u, c * i);
        dist_add(-(a * i * v), b * i * u, c * i);
        dist_neg(a * i * v, c * i);
        mul_swap(a * i, v, c);
        mul_swap(a, i, c);
        mul_assoc(a * i * v, c, i);
        mul_swap(a * c * i, v, i);
        mul_swap(b * i, u, c);
        mul_swap(b, i, c);
        mul_assoc(b * i * u, c, i);
        mul_swap(b * c * i, u, i);
    }
    assert((-(a * i)) * w == -(a * i * w)) by {
        dist_neg(a * i, w);
    }
    assert(((-((-b) * i)) * v + (-(a * i)) * w) * ((-b) * i)
        == a * b * i * i * w - b * b * i * i * v) by {
        mul_eq((-((-b) * i)) * v + (-(a * i)) * w, (-b) * i, -(a * i * w) + b * i * v, -(b * i));
        dist_add(-(a * i * w), b * i * v, -(b * i));
        dist_neg(a * i * w, -(b * i));
        dist_neg_left(a * i * w, b * i);
        mul_swap(a * i, w, b);
        mul_swap(a, i, b);
        mul_assoc(a * i * w, b, i);
        mul_swap(a * b * i, w, i);
        dist_neg_left(b * i * v, b * i);
        mul_swap(b * i, v, b);
        mul_swap(b, i, b);
        mul_assoc(b * i * v, b, i);
        mul_swap(b * b * i, v, i);
    }
    assert(2real * (((-((-b) * i)) * u + (-(a * i)) * v) * (c * i)
        + ((-((-b) * i)) * v + (-(a * i)) * w) * ((-b) * i)) * db
        == 2real * (a * b * i * i * db * w) - 2real * (a * c * i * i * db * v)
        - 2real * (b * b * i * i * db * v) + 2real * (b * c * i * i * db * u)) by {
        mul_eq(2real * (((-((-b) * i)) * u + (-(a * i)) * v) * (c * i)
            + ((-((-b) * i)) * v + (-(a * i)) * w) * ((-b) * i)), db,
            2real * (a * b * i * i * w) - 2real * (a * c * i * i * v) - 2real * (b * b * i * i * v)
            + 2real * (b * c * i * i * u), db);
        dist_add(2real * (a * b * i * i * w) - 2real * (a * c * i * i * v)
            - 2real * (b * b * i * i * v), 2real * (b * c * i * i * u), db);
        dist_sub(2real * (a * b * i * i * w) - 2real * (a * c * i * i * v),
            2real * (b * b * i * i * v), db);
        dist_sub(2real * (a * b * i * i * w), 2real * (a * c * i * i * v), db);
        mul_assoc(2real, a * b * i * i * w, db);
        mul_swap(a * b * i * i, w, db);
        mul_assoc(2real, a * c * i * i * v, db);
        mul_swap(a * c * i * i, v, db);
        mul_assoc(2real, b * b * i * i * v, db);
        mul_swap(b * b * i * i, v, db);
        mul_assoc(2real, b * c * i * i * u, db);
        mul_swap(b * c * i * i, u, db);
    }
    assert(((-((-b) * i)) * u + (-(a * i)) * v) * ((-b) * i)
        == a * b * i * i * v - b * b * i * i * u) by {
        mul_eq((-((-b) * i)) * u + (-(a * i)) * v, (-b) * i, -(a * i * v) + b * i * u, -(b * i));
        dist_add(-(a * i * v), b * i * u, -(b * i));
        dist_neg(a * i * v, -(b * i));
        dist_neg_left(a * i * v, b * i);
        mul_swap(a * i, v, b);
        mul_swap(a, i, b);
        mul_assoc(a * i * v, b, i);
        mul_swap(a * b * i, v, i);
        dist_neg_left(b * i * u, b * i);
        mul_swap(b * i, u, b);
        mul_swap(b, i, b);
        mul_assoc(b * i * u, b, i);
        mul_swap(b * b * i, u, i);
    }
    assert(((-((-b) * i)) * v + (-(a * i)) * w) * (a * i)
        == -(a * a * i * i * w) + a * b * i * i * v) by {
        mul_eq((-((-b) * i)) * v + (-(a * i)) * w, a * i, -(a * i * w) + b * i * v, a * i);
        dist_add(-(a * i * w), b * i * v, a * i);
        dist_neg(a * i * w, a * i);
        mul_swap(a * i, w, a);
        mul_swap(a, i, a);
        mul_assoc(a * i * w, a, i);
        mul_swap(a * a * i, w, i);
        mul_swap(b * i, v, a);
        mul_swap(b, i, a);
        mul_comm(b, a);
        mul_assoc(b * i * v, a, i);
        mul_swap(a * b * i, v, i);
    }
    assert((((-((-b) * i)) * u + (-(a * i)) * v) * ((-b) * i)
        + ((-((-b) * i)) * v + (-(a * i)) * w) * (a * i)) * dc
        == -(a * a * i * i * dc * w) + 2real * (a * b * i * i * dc * v)
        - b * b * i * i * dc * u) by {
        mul_eq(((-((-b) * i)) * u + (-(a * i)) * v) * ((-b) * i)
            + ((-((-b) * i)) * v + (-(a * i)) * w) * (a * i), dc,
            -(a * a * i * i * w) + 2real * (a * b * i * i * v) - b * b * i * i * u, dc);
        dist_sub(-(a * a * i * i * w) + 2real * (a * b * i * i * v), b * b * i * i * u, dc);
        dist_add(-(a * a * i * i * w), 2real * (a * b * i * i * v), dc);
        dist_neg(a * a * i * i * w, dc);
        mul_swap(a * a * i * i, w, dc);
        mul_assoc(2real, a * b * i * i * v, dc);
        mul_swap(a * b * i * i, v, dc);
        mul_swap(b * b * i * i, u, dc);
    }
    assert(a * di * w == -(a * a * i * i * dc * w) + 2real * (a * b * i * i * db * w)
        - a * c * i * i * da * w) by {
        mul_eq(a * w, di, a * w, -((da * c + a * dc - (db * b + b * db)) * (i * i)));
        mul_swap(a, w, di);
        mul_eq(a * w, -((da * c + a * dc - (db * b + b * db)) * (i * i)), a * w,
            -(a * i * i * dc) + 2real * (b * i * i * db) - c * i * i * da);
        dist_sub_left(a * w, -(a * i * i * dc) + 2real * (b * i * i * db), c * i * i * da);
        dist_add_left(a * w, -(a * i * i * dc), 2real * (b * i * i * db));
        dist_neg_left(a * w, a * i * i * dc);
        mul_swap(a, w, a);
        mul_assoc(a * w, a, i);
        mul_swap(a * a, w, i);
        mul_assoc(a * w, a * i, i);
        mul_swap(a * a * i, w, i);
        mul_assoc(a * w, a * i * i, dc);
        mul_swap(a * a * i * i, w, dc);
        mul_front(a * w, 2real, b * i * i * db);
        mul_swap(a, w, b);
        mul_assoc(a * w, b, i);
        mul_swap(a * b, w, i);
        mul_assoc(a * w, b * i, i);
        mul_swap(a * b * i, w, i);
        mul_assoc(a * w, b * i * i, db);
        mul_swap(a * b * i * i, w, db);
        mul_swap(a, w, c);
        mul_assoc(a * w, c, i);
        mul_swap(a * c, w, i);
        mul_assoc(a * w, c * i, i);
        mul_swap(a * c * i, w, i);
        mul_assoc(a * w, c * i * i, da);
        mul_swap(a * c * i * i, w, da);
    }
    assert(b * di * v == -(a * b * i * i * dc * v) + 2real * (b * b * i * i * db * v)
        - b * c * i * i * da * v) by {
        mul_eq(b * v, di, b * v, -((da * c + a * dc - (db * b + b * db)) * (i * i)));
        mul_swap(b, v, di);
        mul_eq(b * v, -((da * c + a * dc - (db * b + b * db)) * (i * i)), b * v,
            -(a * i * i * dc) + 2real * (b * i * i * db) - c * i * i * da);
        dist_sub_left(b * v, -(a * i * i * dc) + 2real * (b * i * i * db), c * i * i * da);
        dist_add_left(b * v, -(a * i * i * dc), 2real * (b * i * i * db));
        dist_neg_left(b * v, a * i * i * dc);
        mul_swap(b, v, a);
        mul_comm(b, a);
        mul_assoc(b * v, a, i);
        mul_swap(a * b, v, i);
        mul_assoc(b * v, a * i, i);
        mul_swap(a * b * i, v, i);
        mul_assoc(b * v, a * i * i, dc);
        mul_swap(a * b * i * i, v, dc);
        mul_front(b * v, 2real, b * i * i * db);
        mul_swap(b, v, b);
        mul_assoc(b * v, b, i);
        mul_swap(b * b, v, i);
        mul_assoc(b * v, b * i, i);
        mul_swap(b * b * i, v, i);
        mul_assoc(b * v, b * i * i, db);
        mul_swap(b * b * i * i, v, db);
        mul_swap(b, v, c);
        mul_assoc(b * v, c, i);
        mul_swap(b * c, v, i);
        mul_assoc(b * v, c * i, i);
        mul_swap(b * c * i, v, i);
        mul_assoc(b * v, c * i * i, da);
        mul_swap(b * c * i * i, v, da);
    }
    assert(c * di * u == -(a * c * i * i * dc * u) + 2real * (b * c * i * i * db * u)
        - c * c * i * i * da * u) by {
        mul_eq(c * u, di, c * u, -((da * c + a * dc - (db * b + b * db)) * (i * i)));
        mul_swap(c, u, di);
        mul_eq(c * u, -((da * c + a * dc - (db * b + b * db)) * (i * i)), c * u,
            -(a * i * i * dc) + 2real * (b * i * i * db) - c * i * i * da);
        dist_sub_left(c * u, -(a * i * i * dc) + 2real * (b * i * i * db), c * i * i * da);
        dist_add_left(c * u, -(a * i * i * dc), 2real * (b * i * i * db));
        dist_neg_left(c * u, a * i * i * dc);
        mul_swap(c, u, a);
        mul_comm(c, a);
        mul_assoc(c * u, a, i);
        mul_swap(a * c, u, i);
        mul_assoc(c * u, a * i, i);
        mul_swap(a * c * i, u, i);
        mul_assoc(c * u, a * i * i, dc);
        mul_swap(a * c * i * i, u, dc);
        mul_front(c * u, 2real, b * i * i * db);
        mul_swap(c, u, b);
        mul_comm(c, b);
        mul_assoc(c * u, b, i);
        mul_swap(b * c, u, i);
        mul_assoc(c * u, b * i, i);
        mul_swap(b * c * i, u, i);
        mul_assoc(c * u, b * i * i, db);
        mul_swap(b * c * i * i, u, db);
        mul_swap(c, u, c);
        mul_assoc(c * u, c, i);
        mul_swap(c * c, u, i);
        mul_assoc(c * u, c * i, i);
        mul_swap(c * c * i, u, i);
        mul_assoc(c * u, c * i * i, da);
        mul_swap(c * c * i * i, u, da);
    }
    assert(a * c * i * i * da * w - b * b * i * i * da * w == i * da * w) by {
        mul_eq(i * da * w, (a * c - b * b) * i, i * da * w, 1real);
        mul_eq(i * da * w, (a * c - b * b) * i, i * da * w, a * c * i - b * b * i);
        dist_sub_left(i * da * w, a * c * i, b * b * i);
        mul_swap(i * da, w, a);
        mul_swap(i, da, a);
        mul_comm(i, a);
        mul_assoc(i * da * w, a, c);
        mul_swap(a * i * da, w, c);
        mul_swap(a * i, da, c);
        mul_swap(a, i, c);
        mul_assoc(i * da * w, a * c, i);
        mul_swap(a * c * i * da, w, i);
        mul_swap(a * c * i, da, i);
        mul_swap(i * da, w, b);
        mul_swap(i, da, b);
        mul_comm(i, b);
        mul_assoc(i * da * w, b, b);
        mul_swap(b * i * da, w, b);
        mul_swap(b * i, da, b);
        mul_swap(b, i, b);
        mul_assoc(i * da * w, b * b, i);
        mul_swap(b * b * i * da, w, i);
        mul_swap(b * b * i, da, i);
    }
    assert(a * c * i * i * db * v - b * b * i * i * db * v == i * db * v) by {
        mul_eq(i * db * v, (a * c - b * b) * i, i * db * v, 1real);
        mul_eq(i * db * v, (a * c - b * b) * i, i * db * v, a * c * i - b * b * i);
        dist_sub_left(i * db * v, a * c * i, b * b * i);
        mul_swap(i * db, v, a);
        mul_swap(i, db, a);
        mul_comm(i, a);
        mul_assoc(i * db * v, a, c);
        mul_swap(a * i * db, v, c);
        mul_swap(a * i, db, c);
        mul_swap(a, i, c);
        mul_assoc(i * db * v, a * c, i);
        mul_swap(a * c * i * db, v, i);
        mul_swap(a * c * i, db, i);
        mul_swap(i * db, v, b);
        mul_swap(i, db, b);
        mul_comm(i, b);
        mul_assoc(i * db * v, b, b);
        mul_swap(b * i * db, v, b);
        mul_swap(b * i, db, b);
        mul_swap(b, i, b);
        mul_assoc(i * db * v, b * b, i);
        mul_swap(b * b * i * db, v, i);
        mul_swap(b * b * i, db, i);
    }
    assert(a * c * i * i * dc * u - b * b * i * i * dc * u == i * dc * u) by {
        mul_eq(i * dc * u, (a * c - b * b) * i, i * dc * u, 1real);
        mul_eq(i * dc * u, (a * c - b * b) * i, i * dc * u, a * c * i - b * b * i);
        dist_sub_left(i * dc * u, a * c * i, b * b * i);
        mul_swap(i * dc, u, a);
        mul_swap(i, dc, a);
        mul_comm(i, a);
        mul_assoc(i * dc * u, a, c);
        mul_swap(a * i * dc, u, c);
        mul_swap(a * i, dc, c);
        mul_swap(a, i, c);
        mul_assoc(i * dc * u, a * c, i);
        mul_swap(a * c * i * dc, u, i);
        mul_swap(a * c * i, dc, i);
        mul_swap(i * dc, u, b);
        mul_swap(i, dc, b);
        mul_comm(i, b);
        mul_assoc(i * dc * u, b, b);
        mul_swap(b * i * dc, u, b);
        mul_swap(b * i, dc, b);
        mul_swap(b, i, b);
        mul_assoc(i * dc * u, b * b, i);
        mul_swap(b * b * i * dc, u, i);
        mul_swap(b * b * i, dc, i);
    }
}

pub(crate) proof fn negative_quotient(q: real, e: real, d: real, i: real)
    requires
        q * (e * e) == -d,
        e * i == 1real,
    ensures
        q == -(d * (i * i)),
{
    assert(q * (e * e) == q * e * e) by {
        mul_assoc(q, e, e);
    }
    assert(d * (i * i) == d * i * i) by {
        mul_assoc(d, i, i);
    }
    assert(q * e * e * i * i == q * e * i) by {
        mul_eq(q * e * i, e * i, q * e * i, 1real);
        mul_swap(q * e, i, e);
        mul_assoc(q * e * i, e, i);
    }
    assert(q * e * i == q) by {
        mul_eq(q, e * i, q, 1real);
        mul_assoc(q, e, i);
    }
    assert(q * e * e * i * i == -(d * i * i)) by {
        mul_eq(i * i, q * (e * e), i * i, -d);
        mul_eq(i * i, q * (e * e), i * i, q * e * e);
        mul_swap(i, i, q);
        mul_comm(i, q);
        mul_assoc(i * i, q, e);
        mul_swap(q * i, i, e);
        mul_swap(q, i, e);
        mul_assoc(i * i, q * e, e);
        mul_swap(q * e * i, i, e);
        mul_swap(q * e, i, e);
        dist_neg_left(i * i, d);
        mul_swap(i, i, d);
        mul_comm(i, d);
    }
}

pub(crate) proof fn half_twice(y: real, h: real, r: real)
    requires
        2real * h == 1real,
    ensures
        y * r == 2real * (y * h) * r,
{
    assert(2real * (y * h) * r == 2real * (y * h * r)) by {
        mul_assoc(2real, y * h, r);
    }
    assert(2real * (y * h * r) == y * r) by {
        mul_eq(y * r, 2real * h, y * r, 1real);
        mul_front(y * r, 2real, h);
        mul_swap(y, r, h);
    }
}

pub(crate) proof fn inverse_cube(inv: real, l: real, i: real, n: real)
    requires
        inv * (l * n) == 1real,
        l * i == 1real,
        n == l * l,
    ensures
        inv == i * i * i,
        n * (i * i) == 1real,
{
    assert(inv * (l * n) == inv * l * n) by {
        mul_assoc(inv, l, n);
    }
    assert(inv * l * i * i * i * n == inv * i * i * n) by {
        mul_eq(inv * i * i * n, l * i, inv * i * i * n, 1real);
        mul_swap(inv * i * i, n, l);
        mul_swap(inv * i, i, l);
        mul_swap(inv, i, l);
        mul_assoc(inv * i * i * n, l, i);
        mul_swap(inv * l * i * i, n, i);
    }
    assert(inv * l * l * i * i == inv * l * i) by {
        mul_eq(inv * l * i, l * i, inv * l * i, 1real);
        mul_swap(inv * l, i, l);
        mul_assoc(inv * l * i, l, i);
    }
    assert(inv * l * i == inv) by {
        mul_eq(inv, l * i, inv, 1real);
        mul_assoc(inv, l, i);
    }
    assert(inv * l * i * i * i * n == i * i * i) by {
        mul_eq(i * i * i, inv * (l * n), i * i * i, 1real);
        mul_eq(i * i * i, inv * (l * n), i * i * i, inv * l * n);
        mul_swap(i * i, i, inv);
        mul_swap(i, i, inv);
        mul_comm(i, inv);
        mul_assoc(i * i * i, inv, l);
        mul_swap(inv * i * i, i, l);
        mul_swap(inv * i, i, l);
        mul_swap(inv, i, l);
        mul_assoc(i * i * i, inv * l, n);
    }
    assert(inv * i * i * n == inv * l * l * i * i) by {
        mul_eq(inv * i * i, n, inv * i * i, l * l);
        mul_swap(inv * i, i, l);
        mul_swap(inv, i, l);
        mul_assoc(inv * i * i, l, l);
        mul_swap(inv * l * i, i, l);
        mul_swap(inv * l, i, l);
    }
    assert(n * (i * i) == i * i * n) by {
        mul_comm(n, i);
        mul_assoc(n, i, i);
        mul_swap(i, n, i);
    }
    assert(l * l * i * i == l * i) by {
        mul_eq(l * i, l * i, l * i, 1real);
        mul_swap(l, i, l);
        mul_assoc(l * i, l, i);
    }
    assert(i * i * n == l * l * i * i) by {
        mul_eq(i * i, n, i * i, l * l);
        mul_swap(i, i, l);
        mul_comm(i, l);
        mul_assoc(i * i, l, l);
        mul_swap(l * i, i, l);
        mul_swap(l, i, l);
    }
}

pub(crate) proof fn normalize_pairing(
    w: real,
    x: real,
    y: real,
    z: real,
    dw: real,
    dx: real,
    dy: real,
    dz: real,
    gw: real,
    gx: real,
    gy: real,
    gz: real,
    i: real,
    dl: real,
    ri: real,
    inv: real,
)
    requires
        2real * dl == (dw * w + w * dw + (dx * x + x * dx) + (dy * y + y * dy) + (dz * z + z * dz))
            * i,
        ri == -(dl * (i * i)),
        inv == i * i * i,
        (w * w + x * x + y * y + z * z) * (i * i) == 1real,
    ensures
        gw * (dw * i + w * ri) + gx * (dx * i + x * ri) + gy * (dy * i + y * ri)
            + gz * (dz * i + z * ri) == ((w * w + x * x + y * y + z * z - w * w) * gw
            + (-w) * x * gx + (-y) * w * gy + (-w) * z * gz) * inv * dw
            + ((-w) * x * gw + (w * w + x * x + y * y + z * z - x * x) * gx + (-x) * y * gy
            + (-x) * z * gz) * inv * dx + ((-y) * w * gw + (-x) * y * gx
            + (w * w + x * x + y * y + z * z - y * y) * gy + (-y) * z * gz) * inv * dy
            + ((-w) * z * gw + (-x) * z * gx + (-y) * z * gy
            + (w * w + x * x + y * y + z * z - z * z) * gz) * inv * dz,
{
    assert(dw * w == w * dw) by {
        mul_comm(dw, w);
    }
    assert(dx * x == x * dx) by {
        mul_comm(dx, x);
    }
    assert(dy * y == y * dy) by {
        mul_comm(dy, y);
    }
    assert(dz * z == z * dz) by {
        mul_comm(dz, z);
    }
    assert((dw * w + w * dw + (dx * x + x * dx) + (dy * y + y * dy) + (dz * z + z * dz)) * i
        == 2real * (w * dw * i) + 2real * (x * dx * i) + 2real * (y * dy * i)
        + 2real * (z * dz * i)) by {
        mul_eq(dw * w + w * dw + (dx * x + x * dx) + (dy * y + y * dy) + (dz * z + z * dz), i,
            2real * (w * dw) + 2real * (x * dx) + 2real * (y * dy) + 2real * (z * dz), i);
        dist_add(2real * (w * dw) + 2real * (x * dx) + 2real * (y * dy), 2real * (z * dz), i);
        dist_add(2real * (w * dw) + 2real * (x * dx), 2real * (y * dy), i);
        dist_add(2real * (w * dw), 2real * (x * dx), i);
        mul_assoc(2real, w * dw, i);
        mul_assoc(2real, x * dx, i);
        mul_assoc(2real, y * dy, i);
        mul_assoc(2real, z * dz, i);
    }
    assert(dl * (i * i) == i * i * dl) by {
        mul_comm(dl, i);
        mul_assoc(dl, i, i);
        mul_swap(i, dl, i);
    }
    assert((w * w + x * x + y * y + z * z) * (i * i)
        == w * w * i * i + x * x * i * i + y * y * i * i + z * z * i * i) by {
        dist_add(w * w + x * x + y * y, z * z, i * i);
        dist_add(w * w + x * x, y * y, i * i);
        dist_add(w * w, x * x, i * i);
        mul_assoc(w * w, i, i);
        mul_assoc(x * x, i, i);
        mul_assoc(y * y, i, i);
        mul_assoc(z * z, i, i);
    }
    assert(gw * (dw * i + w * ri) == w * gw * ri + dw * gw * i) by {
        mul_eq(gw, dw * i + w * ri, gw, w * ri + dw * i);
        dist_add_left(gw, w * ri, dw * i);
        mul_comm(gw, w);
        mul_assoc(gw, w, ri);
        mul_comm(gw, dw);
        mul_assoc(gw, dw, i);
    }
    assert(gx * (dx * i + x * ri) == x * gx * ri + dx * gx * i) by {
        mul_eq(gx, dx * i + x * ri, gx, x * ri + dx * i);
        dist_add_left(gx, x * ri, dx * i);
        mul_comm(gx, x);
        mul_assoc(gx, x, ri);
        mul_comm(gx, dx);
        mul_assoc(gx, dx, i);
    }
    assert(gy * (dy * i + y * ri) == y * gy * ri + dy * gy * i) by {
        mul_eq(gy, dy * i + y * ri, gy, y * ri + dy * i);
        dist_add_left(gy, y * ri, dy * i);
        mul_comm(gy, y);
        mul_assoc(gy, y, ri);
        mul_comm(gy, dy);
        mul_assoc(gy, dy, i);
    }
    assert(gz * (dz * i + z * ri) == z * gz * ri + dz * gz * i) by {
        mul_eq(gz, dz * i + z * ri, gz, z * ri + dz * i);
        dist_add_left(gz, z * ri, dz * i);
        mul_comm(gz, z);
        mul_assoc(gz, z, ri);
        mul_comm(gz, dz);
        mul_assoc(gz, dz, i);
    }
    assert((w * w + x * x + y * y + z * z - w * w) * gw
        == x * x * gw + y * y * gw + z * z * gw) by {
        mul_eq(w * w + x * x + y * y + z * z - w * w, gw, x * x + y * y + z * z, gw);
        dist_add(x * x + y * y, z * z, gw);
        dist_add(x * x, y * y, gw);
    }
    assert((-w) * x == -(w * x)) by {
        dist_neg(w, x);
    }
    assert((-w) * x * gx == -(w * x * gx)) by {
        mul_eq((-w) * x, gx, -(w * x), gx);
        dist_neg(w * x, gx);
    }
    assert((-y) * w == -(w * y)) by {
        dist_neg(y, w);
        mul_comm(y, w);
    }
    assert((-y) * w * gy == -(w * y * gy)) by {
        mul_eq((-y) * w, gy, -(w * y), gy);
        dist_neg(w * y, gy);
    }
    assert((-w) * z == -(w * z)) by {
        dist_neg(w, z);
    }
    assert((-w) * z * gz == -(w * z * gz)) by {
        mul_eq((-w) * z, gz, -(w * z), gz);
        dist_neg(w * z, gz);
    }
    assert(((w * w + x * x + y * y + z * z - w * w) * gw + (-w) * x * gx + (-y) * w * gy
        + (-w) * z * gz) * inv == -(w * x * gx * inv) - w * y * gy * inv - w * z * gz * inv
        + x * x * gw * inv + y * y * gw * inv + z * z * gw * inv) by {
        mul_eq((w * w + x * x + y * y + z * z - w * w) * gw + (-w) * x * gx + (-y) * w * gy
            + (-w) * z * gz, inv, -(w * x * gx) - w * y * gy - w * z * gz + x * x * gw + y * y * gw
            + z * z * gw, inv);
        dist_add(-(w * x * gx) - w * y * gy - w * z * gz + x * x * gw + y * y * gw, z * z * gw,
            inv);
        dist_add(-(w * x * gx) - w * y * gy - w * z * gz + x * x * gw, y * y * gw, inv);
        dist_add(-(w * x * gx) - w * y * gy - w * z * gz, x * x * gw, inv);
        dist_sub(-(w * x * gx) - w * y * gy, w * z * gz, inv);
        dist_sub(-(w * x * gx), w * y * gy, inv);
        dist_neg(w * x * gx, inv);
    }
    assert(((w * w + x * x + y * y + z * z - w * w) * gw + (-w) * x * gx + (-y) * w * gy
        + (-w) * z * gz) * inv * dw == -(w * x * dw * gx * inv) - w * y * dw * gy * inv
        - w * z * dw * gz * inv + x * x * dw * gw * inv + y * y * dw * gw * inv
        + z * z * dw * gw * inv) by {
        mul_eq(((w * w + x * x + y * y + z * z - w * w) * gw + (-w) * x * gx + (-y) * w * gy
            + (-w) * z * gz) * inv, dw, -(w * x * gx * inv) - w * y * gy * inv - w * z * gz * inv
            + x * x * gw * inv + y * y * gw * inv + z * z * gw * inv, dw);
        dist_add(-(w * x * gx * inv) - w * y * gy * inv - w * z * gz * inv + x * x * gw * inv
            + y * y * gw * inv, z * z * gw * inv, dw);
        dist_add(-(w * x * gx * inv) - w * y * gy * inv - w * z * gz * inv + x * x * gw * inv,
            y * y * gw * inv, dw);
        dist_add(-(w * x * gx * inv) - w * y * gy * inv - w * z * gz * inv, x * x * gw * inv, dw);
        dist_sub(-(w * x * gx * inv) - w * y * gy * inv, w * z * gz * inv, dw);
        dist_sub(-(w * x * gx * inv), w * y * gy * inv, dw);
        dist_neg(w * x * gx * inv, dw);
        mul_swap(w * x * gx, inv, dw);
        mul_swap(w * x, gx, dw);
        mul_swap(w * y * gy, inv, dw);
        mul_swap(w * y, gy, dw);
        mul_swap(w * z * gz, inv, dw);
        mul_swap(w * z, gz, dw);
        mul_swap(x * x * gw, inv, dw);
        mul_swap(x * x, gw, dw);
        mul_swap(y * y * gw, inv, dw);
        mul_swap(y * y, gw, dw);
        mul_swap(z * z * gw, inv, dw);
        mul_swap(z * z, gw, dw);
    }
    assert((-w) * x * gw == -(w * x * gw)) by {
        mul_eq((-w) * x, gw, -(w * x), gw);
        dist_neg(w * x, gw);
    }
    assert((w * w + x * x + y * y + z * z - x * x) * gx
        == w * w * gx + y * y * gx + z * z * gx) by {
        mul_eq(w * w + x * x + y * y + z * z - x * x, gx, w * w + y * y + z * z, gx);
        dist_add(w * w + y * y, z * z, gx);
        dist_add(w * w, y * y, gx);
    }
    assert((-x) * y == -(x * y)) by {
        dist_neg(x, y);
    }
    assert((-x) * y * gy == -(x * y * gy)) by {
        mul_eq((-x) * y, gy, -(x * y), gy);
        dist_neg(x * y, gy);
    }
    assert((-x) * z == -(x * z)) by {
        dist_neg(x, z);
    }
    assert((-x) * z * gz == -(x * z * gz)) by {
        mul_eq((-x) * z, gz, -(x * z), gz);
        dist_neg(x * z, gz);
    }
    assert(((-w) * x * gw + (w * w + x * x + y * y + z * z - x * x) * gx + (-x) * y * gy
        + (-x) * z * gz) * inv == w * w * gx * inv - w * x * gw * inv - x * y * gy * inv
        - x * z * gz * inv + y * y * gx * inv + z * z * gx * inv) by {
        mul_eq((-w) * x * gw + (w * w + x * x + y * y + z * z - x * x) * gx + (-x) * y * gy
            + (-x) * z * gz, inv, w * w * gx - w * x * gw - x * y * gy - x * z * gz + y * y * gx
            + z * z * gx, inv);
        dist_add(w * w * gx - w * x * gw - x * y * gy - x * z * gz + y * y * gx, z * z * gx, inv);
        dist_add(w * w * gx - w * x * gw - x * y * gy - x * z * gz, y * y * gx, inv);
        dist_sub(w * w * gx - w * x * gw - x * y * gy, x * z * gz, inv);
        dist_sub(w * w * gx - w * x * gw, x * y * gy, inv);
        dist_sub(w * w * gx, w * x * gw, inv);
    }
    assert(((-w) * x * gw + (w * w + x * x + y * y + z * z - x * x) * gx + (-x) * y * gy
        + (-x) * z * gz) * inv * dx == w * w * dx * gx * inv - w * x * dx * gw * inv
        - x * y * dx * gy * inv - x * z * dx * gz * inv + y * y * dx * gx * inv
        + z * z * dx * gx * inv) by {
        mul_eq(((-w) * x * gw + (w * w + x * x + y * y + z * z - x * x) * gx + (-x) * y * gy
            + (-x) * z * gz) * inv, dx, w * w * gx * inv - w * x * gw * inv - x * y * gy * inv
            - x * z * gz * inv + y * y * gx * inv + z * z * gx * inv, dx);
        dist_add(w * w * gx * inv - w * x * gw * inv - x * y * gy * inv - x * z * gz * inv
            + y * y * gx * inv, z * z * gx * inv, dx);
        dist_add(w * w * gx * inv - w * x * gw * inv - x * y * gy * inv - x * z * gz * inv,
            y * y * gx * inv, dx);
        dist_sub(w * w * gx * inv - w * x * gw * inv - x * y * gy * inv, x * z * gz * inv, dx);
        dist_sub(w * w * gx * inv - w * x * gw * inv, x * y * gy * inv, dx);
        dist_sub(w * w * gx * inv, w * x * gw * inv, dx);
        mul_swap(w * w * gx, inv, dx);
        mul_swap(w * w, gx, dx);
        mul_swap(w * x * gw, inv, dx);
        mul_swap(w * x, gw, dx);
        mul_swap(x * y * gy, inv, dx);
        mul_swap(x * y, gy, dx);
        mul_swap(x * z * gz, inv, dx);
        mul_swap(x * z, gz, dx);
        mul_swap(y * y * gx, inv, dx);
        mul_swap(y * y, gx, dx);
        mul_swap(z * z * gx, inv, dx);
        mul_swap(z * z, gx, dx);
    }
    assert((-y) * w * gw == -(w * y * gw)) by {
        mul_eq((-y) * w, gw, -(w * y), gw);
        dist_neg(w * y, gw);
    }
    assert((-x) * y * gx == -(x * y * gx)) by {
        mul_eq((-x) * y, gx, -(x * y), gx);
        dist_neg(x * y, gx);
    }
    assert((w * w + x * x + y * y + z * z - y * y) * gy
        == w * w * gy + x * x * gy + z * z * gy) by {
        mul_eq(w * w + x * x + y * y + z * z - y * y, gy, w * w + x * x + z * z, gy);
        dist_add(w * w + x * x, z * z, gy);
        dist_add(w * w, x * x, gy);
    }
    assert((-y) * z == -(y * z)) by {
        dist_neg(y, z);
    }
    assert((-y) * z * gz == -(y * z * gz)) by {
        mul_eq((-y) * z, gz, -(y * z), gz);
        dist_neg(y * z, gz);
    }
    assert(((-y) * w * gw + (-x) * y * gx + (w * w + x * x + y * y + z * z - y * y) * gy
        + (-y) * z * gz) * inv == w * w * gy * inv - w * y * gw * inv + x * x * gy * inv
        - x * y * gx * inv - y * z * gz * inv + z * z * gy * inv) by {
        mul_eq((-y) * w * gw + (-x) * y * gx + (w * w + x * x + y * y + z * z - y * y) * gy
            + (-y) * z * gz, inv, w * w * gy - w * y * gw + x * x * gy - x * y * gx - y * z * gz
            + z * z * gy, inv);
        dist_add(w * w * gy - w * y * gw + x * x * gy - x * y * gx - y * z * gz, z * z * gy, inv);
        dist_sub(w * w * gy - w * y * gw + x * x * gy - x * y * gx, y * z * gz, inv);
        dist_sub(w * w * gy - w * y * gw + x * x * gy, x * y * gx, inv);
        dist_add(w * w * gy - w * y * gw, x * x * gy, inv);
        dist_sub(w * w * gy, w * y * gw, inv);
    }
    assert(((-y) * w * gw + (-x) * y * gx + (w * w + x * x + y * y + z * z - y * y) * gy
        + (-y) * z * gz) * inv * dy == w * w * dy * gy * inv - w * y * dy * gw * inv
        + x * x * dy * gy * inv - x * y * dy * gx * inv - y * z * dy * gz * inv
        + z * z * dy * gy * inv) by {
        mul_eq(((-y) * w * gw + (-x) * y * gx + (w * w + x * x + y * y + z * z - y * y) * gy
            + (-y) * z * gz) * inv, dy, w * w * gy * inv - w * y * gw * inv + x * x * gy * inv
            - x * y * gx * inv - y * z * gz * inv + z * z * gy * inv, dy);
        dist_add(w * w * gy * inv - w * y * gw * inv + x * x * gy * inv - x * y * gx * inv
            - y * z * gz * inv, z * z * gy * inv, dy);
        dist_sub(w * w * gy * inv - w * y * gw * inv + x * x * gy * inv - x * y * gx * inv,
            y * z * gz * inv, dy);
        dist_sub(w * w * gy * inv - w * y * gw * inv + x * x * gy * inv, x * y * gx * inv, dy);
        dist_add(w * w * gy * inv - w * y * gw * inv, x * x * gy * inv, dy);
        dist_sub(w * w * gy * inv, w * y * gw * inv, dy);
        mul_swap(w * w * gy, inv, dy);
        mul_swap(w * w, gy, dy);
        mul_swap(w * y * gw, inv, dy);
        mul_swap(w * y, gw, dy);
        mul_swap(x * x * gy, inv, dy);
        mul_swap(x * x, gy, dy);
        mul_swap(x * y * gx, inv, dy);
        mul_swap(x * y, gx, dy);
        mul_swap(y * z * gz, inv, dy);
        mul_swap(y * z, gz, dy);
        mul_swap(z * z * gy, inv, dy);
        mul_swap(z * z, gy, dy);
    }
    assert((-w) * z * gw == -(w * z * gw)) by {
        mul_eq((-w) * z, gw, -(w * z), gw);
        dist_neg(w * z, gw);
    }
    assert((-x) * z * gx == -(x * z * gx)) by {
        mul_eq((-x) * z, gx, -(x * z), gx);
        dist_neg(x * z, gx);
    }
    assert((-y) * z * gy == -(y * z * gy)) by {
        mul_eq((-y) * z, gy, -(y * z), gy);
        dist_neg(y * z, gy);
    }
    assert((w * w + x * x + y * y + z * z - z * z) * gz
        == w * w * gz + x * x * gz + y * y * gz) by {
        mul_eq(w * w + x * x + y * y + z * z - z * z, gz, w * w + x * x + y * y, gz);
        dist_add(w * w + x * x, y * y, gz);
        dist_add(w * w, x * x, gz);
    }
    assert(((-w) * z * gw + (-x) * z * gx + (-y) * z * gy
        + (w * w + x * x + y * y + z * z - z * z) * gz) * inv
        == w * w * gz * inv - w * z * gw * inv + x * x * gz * inv - x * z * gx * inv
        + y * y * gz * inv - y * z * gy * inv) by {
        mul_eq((-w) * z * gw + (-x) * z * gx + (-y) * z * gy
            + (w * w + x * x + y * y + z * z - z * z) * gz, inv,
            w * w * gz - w * z * gw + x * x * gz - x * z * gx + y * y * gz - y * z * gy, inv);
        dist_sub(w * w * gz - w * z * gw + x * x * gz - x * z * gx + y * y * gz, y * z * gy, inv);
        dist_add(w * w * gz - w * z * gw + x * x * gz - x * z * gx, y * y * gz, inv);
        dist_sub(w * w * gz - w * z * gw + x * x * gz, x * z * gx, inv);
        dist_add(w * w * gz - w * z * gw, x * x * gz, inv);
        dist_sub(w * w * gz, w * z * gw, inv);
    }
    assert(((-w) * z * gw + (-x) * z * gx + (-y) * z * gy
        + (w * w + x * x + y * y + z * z - z * z) * gz) * inv * dz
        == w * w * dz * gz * inv - w * z * dz * gw * inv + x * x * dz * gz * inv
        - x * z * dz * gx * inv + y * y * dz * gz * inv - y * z * dz * gy * inv) by {
        mul_eq(((-w) * z * gw + (-x) * z * gx + (-y) * z * gy
            + (w * w + x * x + y * y + z * z - z * z) * gz) * inv, dz,
            w * w * gz * inv - w * z * gw * inv + x * x * gz * inv - x * z * gx * inv
            + y * y * gz * inv - y * z * gy * inv, dz);
        dist_sub(w * w * gz * inv - w * z * gw * inv + x * x * gz * inv - x * z * gx * inv
            + y * y * gz * inv, y * z * gy * inv, dz);
        dist_add(w * w * gz * inv - w * z * gw * inv + x * x * gz * inv - x * z * gx * inv,
            y * y * gz * inv, dz);
        dist_sub(w * w * gz * inv - w * z * gw * inv + x * x * gz * inv, x * z * gx * inv, dz);
        dist_add(w * w * gz * inv - w * z * gw * inv, x * x * gz * inv, dz);
        dist_sub(w * w * gz * inv, w * z * gw * inv, dz);
        mul_swap(w * w * gz, inv, dz);
        mul_swap(w * w, gz, dz);
        mul_swap(w * z * gw, inv, dz);
        mul_swap(w * z, gw, dz);
        mul_swap(x * x * gz, inv, dz);
        mul_swap(x * x, gz, dz);
        mul_swap(x * z * gx, inv, dz);
        mul_swap(x * z, gx, dz);
        mul_swap(y * y * gz, inv, dz);
        mul_swap(y * y, gz, dz);
        mul_swap(y * z * gy, inv, dz);
        mul_swap(y * z, gy, dz);
    }
    assert(2real * (w * gw * i * i * dl)
        == 2real * (w * w * dw * gw * i * i * i) + 2real * (w * x * dx * gw * i * i * i)
        + 2real * (w * y * dy * gw * i * i * i) + 2real * (w * z * dz * gw * i * i * i)) by {
        mul_eq(w * gw * i * i, 2real * dl, w * gw * i * i,
            (dw * w + w * dw + (dx * x + x * dx) + (dy * y + y * dy) + (dz * z + z * dz)) * i);
        mul_front(w * gw * i * i, 2real, dl);
        mul_eq(w * gw * i * i, (dw * w + w * dw + (dx * x + x * dx) + (dy * y + y * dy)
            + (dz * z + z * dz)) * i, w * gw * i * i,
            2real * (w * dw * i) + 2real * (x * dx * i) + 2real * (y * dy * i)
            + 2real * (z * dz * i));
        dist_add_left(w * gw * i * i, 2real * (w * dw * i) + 2real * (x * dx * i)
            + 2real * (y * dy * i), 2real * (z * dz * i));
        dist_add_left(w * gw * i * i, 2real * (w * dw * i) + 2real * (x * dx * i),
            2real * (y * dy * i));
        dist_add_left(w * gw * i * i, 2real * (w * dw * i), 2real * (x * dx * i));
        mul_front(w * gw * i * i, 2real, w * dw * i);
        mul_swap(w * gw * i, i, w);
        mul_swap(w * gw, i, w);
        mul_swap(w, gw, w);
        mul_assoc(w * gw * i * i, w, dw);
        mul_swap(w * w * gw * i, i, dw);
        mul_swap(w * w * gw, i, dw);
        mul_swap(w * w, gw, dw);
        mul_assoc(w * gw * i * i, w * dw, i);
        mul_front(w * gw * i * i, 2real, x * dx * i);
        mul_swap(w * gw * i, i, x);
        mul_swap(w * gw, i, x);
        mul_swap(w, gw, x);
        mul_assoc(w * gw * i * i, x, dx);
        mul_swap(w * x * gw * i, i, dx);
        mul_swap(w * x * gw, i, dx);
        mul_swap(w * x, gw, dx);
        mul_assoc(w * gw * i * i, x * dx, i);
        mul_front(w * gw * i * i, 2real, y * dy * i);
        mul_swap(w * gw * i, i, y);
        mul_swap(w * gw, i, y);
        mul_swap(w, gw, y);
        mul_assoc(w * gw * i * i, y, dy);
        mul_swap(w * y * gw * i, i, dy);
        mul_swap(w * y * gw, i, dy);
        mul_swap(w * y, gw, dy);
        mul_assoc(w * gw * i * i, y * dy, i);
        mul_front(w * gw * i * i, 2real, z * dz * i);
        mul_swap(w * gw * i, i, z);
        mul_swap(w * gw, i, z);
        mul_swap(w, gw, z);
        mul_assoc(w * gw * i * i, z, dz);
        mul_swap(w * z * gw * i, i, dz);
        mul_swap(w * z * gw, i, dz);
        mul_swap(w * z, gw, dz);
        mul_assoc(w * gw * i * i, z * dz, i);
    }
    assert(2real * (x * gx * i * i * dl)
        == 2real * (w * x * dw * gx * i * i * i) + 2real * (x * x * dx * gx * i * i * i)
        + 2real * (x * y * dy * gx * i * i * i) + 2real * (x * z * dz * gx * i * i * i)) by {
        mul_eq(x * gx * i * i, 2real * dl, x * gx * i * i,
            (dw * w + w * dw + (dx * x + x * dx) + (dy * y + y * dy) + (dz * z + z * dz)) * i);
        mul_front(x * gx * i * i, 2real, dl);
        mul_eq(x * gx * i * i, (dw * w + w * dw + (dx * x + x * dx) + (dy * y + y * dy)
            + (dz * z + z * dz)) * i, x * gx * i * i,
            2real * (w * dw * i) + 2real * (x * dx * i) + 2real * (y * dy * i)
            + 2real * (z * dz * i));
        dist_add_left(x * gx * i * i, 2real * (w * dw * i) + 2real * (x * dx * i)
            + 2real * (y * dy * i), 2real * (z * dz * i));
        dist_add_left(x * gx * i * i, 2real * (w * dw * i) + 2real * (x * dx * i),
            2real * (y * dy * i));
        dist_add_left(x * gx * i * i, 2real * (w * dw * i), 2real * (x * dx * i));
        mul_front(x * gx * i * i, 2real, w * dw * i);
        mul_swap(x * gx * i, i, w);
        mul_swap(x * gx, i, w);
        mul_swap(x, gx, w);
        mul_comm(x, w);
        mul_assoc(x * gx * i * i, w, dw);
        mul_swap(w * x * gx * i, i, dw);
        mul_swap(w * x * gx, i, dw);
        mul_swap(w * x, gx, dw);
        mul_assoc(x * gx * i * i, w * dw, i);
        mul_front(x * gx * i * i, 2real, x * dx * i);
        mul_swap(x * gx * i, i, x);
        mul_swap(x * gx, i, x);
        mul_swap(x, gx, x);
        mul_assoc(x * gx * i * i, x, dx);
        mul_swap(x * x * gx * i, i, dx);
        mul_swap(x * x * gx, i, dx);
        mul_swap(x * x, gx, dx);
        mul_assoc(x * gx * i * i, x * dx, i);
        mul_front(x * gx * i * i, 2real, y * dy * i);
        mul_swap(x * gx * i, i, y);
        mul_swap(x * gx, i, y);
        mul_swap(x, gx, y);
        mul_assoc(x * gx * i * i, y, dy);
        mul_swap(x * y * gx * i, i, dy);
        mul_swap(x * y * gx, i, dy);
        mul_swap(x * y, gx, dy);
        mul_assoc(x * gx * i * i, y * dy, i);
        mul_front(x * gx * i * i, 2real, z * dz * i);
        mul_swap(x * gx * i, i, z);
        mul_swap(x * gx, i, z);
        mul_swap(x, gx, z);
        mul_assoc(x * gx * i * i, z, dz);
        mul_swap(x * z * gx * i, i, dz);
        mul_swap(x * z * gx, i, dz);
        mul_swap(x * z, gx, dz);
        mul_assoc(x * gx * i * i, z * dz, i);
    }
    assert(2real * (y * gy * i * i * dl)
        == 2real * (w * y * dw * gy * i * i * i) + 2real * (x * y * dx * gy * i * i * i)
        + 2real * (y * y * dy * gy * i * i * i) + 2real * (y * z * dz * gy * i * i * i)) by {
        mul_eq(y * gy * i * i, 2real * dl, y * gy * i * i,
            (dw * w + w * dw + (dx * x + x * dx) + (dy * y + y * dy) + (dz * z + z * dz)) * i);
        mul_front(y * gy * i * i, 2real, dl);
        mul_eq(y * gy * i * i, (dw * w + w * dw + (dx * x + x * dx) + (dy * y + y * dy)
            + (dz * z + z * dz)) * i, y * gy * i * i,
            2real * (w * dw * i) + 2real * (x * dx * i) + 2real * (y * dy * i)
            + 2real * (z * dz * i));
        dist_add_left(y * gy * i * i, 2real * (w * dw * i) + 2real * (x * dx * i)
            + 2real * (y * dy * i), 2real * (z * dz * i));
        dist_add_left(y * gy * i * i, 2real * (w * dw * i) + 2real * (x * dx * i),
            2real * (y * dy * i));
        dist_add_left(y * gy * i * i, 2real * (w * dw * i), 2real * (x * dx * i));
        mul_front(y * gy * i * i, 2real, w * dw * i);
        mul_swap(y * gy * i, i, w);
        mul_swap(y * gy, i, w);
        mul_swap(y, gy, w);
        mul_comm(y, w);
        mul_assoc(y * gy * i * i, w, dw);
        mul_swap(w * y * gy * i, i, dw);
        mul_swap(w * y * gy, i, dw);
        mul_swap(w * y, gy, dw);
        mul_assoc(y * gy * i * i, w * dw, i);
        mul_front(y * gy * i * i, 2real, x * dx * i);
        mul_swap(y * gy * i, i, x);
        mul_swap(y * gy, i, x);
        mul_swap(y, gy, x);
        mul_comm(y, x);
        mul_assoc(y * gy * i * i, x, dx);
        mul_swap(x * y * gy * i, i, dx);
        mul_swap(x * y * gy, i, dx);
        mul_swap(x * y, gy, dx);
        mul_assoc(y * gy * i * i, x * dx, i);
        mul_front(y * gy * i * i, 2real, y * dy * i);
        mul_swap(y * gy * i, i, y);
        mul_swap(y * gy, i, y);
        mul_swap(y, gy, y);
        mul_assoc(y * gy * i * i, y, dy);
        mul_swap(y * y * gy * i, i, dy);
        mul_swap(y * y * gy, i, dy);
        mul_swap(y * y, gy, dy);
        mul_assoc(y * gy * i * i, y * dy, i);
        mul_front(y * gy * i * i, 2real, z * dz * i);
        mul_swap(y * gy * i, i, z);
        mul_swap(y * gy, i, z);
        mul_swap(y, gy, z);
        mul_assoc(y * gy * i * i, z, dz);
        mul_swap(y * z * gy * i, i, dz);
        mul_swap(y * z * gy, i, dz);
        mul_swap(y * z, gy, dz);
        mul_assoc(y * gy * i * i, z * dz, i);
    }
    assert(2real * (z * gz * i * i * dl)
        == 2real * (w * z * dw * gz * i * i * i) + 2real * (x * z * dx * gz * i * i * i)
        + 2real * (y * z * dy * gz * i * i * i) + 2real * (z * z * dz * gz * i * i * i)) by {
        mul_eq(z * gz * i * i, 2real * dl, z * gz * i * i,
            (dw * w + w * dw + (dx * x + x * dx) + (dy * y + y * dy) + (dz * z + z * dz)) * i);
        mul_front(z * gz * i * i, 2real, dl);
        mul_eq(z * gz * i * i, (dw * w + w * dw + (dx * x + x * dx) + (dy * y + y * dy)
            + (dz * z + z * dz)) * i, z * gz * i * i,
            2real * (w * dw * i) + 2real * (x * dx * i) + 2real * (y * dy * i)
            + 2real * (z * dz * i));
        dist_add_left(z * gz * i * i, 2real * (w * dw * i) + 2real * (x * dx * i)
            + 2real * (y * dy * i), 2real * (z * dz * i));
        dist_add_left(z * gz * i * i, 2real * (w * dw * i) + 2real * (x * dx * i),
            2real * (y * dy * i));
        dist_add_left(z * gz * i * i, 2real * (w * dw * i), 2real * (x * dx * i));
        mul_front(z * gz * i * i, 2real, w * dw * i);
        mul_swap(z * gz * i, i, w);
        mul_swap(z * gz, i, w);
        mul_swap(z, gz, w);
        mul_comm(z, w);
        mul_assoc(z * gz * i * i, w, dw);
        mul_swap(w * z * gz * i, i, dw);
        mul_swap(w * z * gz, i, dw);
        mul_swap(w * z, gz, dw);
        mul_assoc(z * gz * i * i, w * dw, i);
        mul_front(z * gz * i * i, 2real, x * dx * i);
        mul_swap(z * gz * i, i, x);
        mul_swap(z * gz, i, x);
        mul_swap(z, gz, x);
        mul_comm(z, x);
        mul_assoc(z * gz * i * i, x, dx);
        mul_swap(x * z * gz * i, i, dx);
        mul_swap(x * z * gz, i, dx);
        mul_swap(x * z, gz, dx);
        mul_assoc(z * gz * i * i, x * dx, i);
        mul_front(z * gz * i * i, 2real, y * dy * i);
        mul_swap(z * gz * i, i, y);
        mul_swap(z * gz, i, y);
        mul_swap(z, gz, y);
        mul_comm(z, y);
        mul_assoc(z * gz * i * i, y, dy);
        mul_swap(y * z * gz * i, i, dy);
        mul_swap(y * z * gz, i, dy);
        mul_swap(y * z, gz, dy);
        mul_assoc(z * gz * i * i, y * dy, i);
        mul_front(z * gz * i * i, 2real, z * dz * i);
        mul_swap(z * gz * i, i, z);
        mul_swap(z * gz, i, z);
        mul_swap(z, gz, z);
        mul_assoc(z * gz * i * i, z, dz);
        mul_swap(z * z * gz * i, i, dz);
        mul_swap(z * z * gz, i, dz);
        mul_swap(z * z, gz, dz);
        mul_assoc(z * gz * i * i, z * dz, i);
    }
    assert(w * gw * ri == -(w * gw * i * i * dl)) by {
        mul_eq(w * gw, ri, w * gw, -(dl * (i * i)));
        mul_eq(w * gw, -(dl * (i * i)), w * gw, -(i * i * dl));
        dist_neg_left(w * gw, i * i * dl);
        mul_assoc(w * gw, i, i);
        mul_assoc(w * gw, i * i, dl);
    }
    assert(x * gx * ri == -(x * gx * i * i * dl)) by {
        mul_eq(x * gx, ri, x * gx, -(dl * (i * i)));
        mul_eq(x * gx, -(dl * (i * i)), x * gx, -(i * i * dl));
        dist_neg_left(x * gx, i * i * dl);
        mul_assoc(x * gx, i, i);
        mul_assoc(x * gx, i * i, dl);
    }
    assert(y * gy * ri == -(y * gy * i * i * dl)) by {
        mul_eq(y * gy, ri, y * gy, -(dl * (i * i)));
        mul_eq(y * gy, -(dl * (i * i)), y * gy, -(i * i * dl));
        dist_neg_left(y * gy, i * i * dl);
        mul_assoc(y * gy, i, i);
        mul_assoc(y * gy, i * i, dl);
    }
    assert(z * gz * ri == -(z * gz * i * i * dl)) by {
        mul_eq(z * gz, ri, z * gz, -(dl * (i * i)));
        mul_eq(z * gz, -(dl * (i * i)), z * gz, -(i * i * dl));
        dist_neg_left(z * gz, i * i * dl);
        mul_assoc(z * gz, i, i);
        mul_assoc(z * gz, i * i, dl);
    }
    assert(w * w * dx * gx * inv == w * w * dx * gx * i * i * i) by {
        mul_eq(w * w * dx * gx, inv, w * w * dx * gx, i * i * i);
        mul_assoc(w * w * dx * gx, i, i);
        mul_assoc(w * w * dx * gx, i * i, i);
    }
    assert(w * w * dy * gy * inv == w * w * dy * gy * i * i * i) by {
        mul_eq(w * w * dy * gy, inv, w * w * dy * gy, i * i * i);
        mul_assoc(w * w * dy * gy, i, i);
        mul_assoc(w * w * dy * gy, i * i, i);
    }
    assert(w * w * dz * gz * inv == w * w * dz * gz * i * i * i) by {
        mul_eq(w * w * dz * gz, inv, w * w * dz * gz, i * i * i);
        mul_assoc(w * w * dz * gz, i, i);
        mul_assoc(w * w * dz * gz, i * i, i);
    }
    assert(w * x * dw * gx * inv == w * x * dw * gx * i * i * i) by {
        mul_eq(w * x * dw * gx, inv, w * x * dw * gx, i * i * i);
        mul_assoc(w * x * dw * gx, i, i);
        mul_assoc(w * x * dw * gx, i * i, i);
    }
    assert(w * x * dx * gw * inv == w * x * dx * gw * i * i * i) by {
        mul_eq(w * x * dx * gw, inv, w * x * dx * gw, i * i * i);
        mul_assoc(w * x * dx * gw, i, i);
        mul_assoc(w * x * dx * gw, i * i, i);
    }
    assert(w * y * dw * gy * inv == w * y * dw * gy * i * i * i) by {
        mul_eq(w * y * dw * gy, inv, w * y * dw * gy, i * i * i);
        mul_assoc(w * y * dw * gy, i, i);
        mul_assoc(w * y * dw * gy, i * i, i);
    }
    assert(w * y * dy * gw * inv == w * y * dy * gw * i * i * i) by {
        mul_eq(w * y * dy * gw, inv, w * y * dy * gw, i * i * i);
        mul_assoc(w * y * dy * gw, i, i);
        mul_assoc(w * y * dy * gw, i * i, i);
    }
    assert(w * z * dw * gz * inv == w * z * dw * gz * i * i * i) by {
        mul_eq(w * z * dw * gz, inv, w * z * dw * gz, i * i * i);
        mul_assoc(w * z * dw * gz, i, i);
        mul_assoc(w * z * dw * gz, i * i, i);
    }
    assert(w * z * dz * gw * inv == w * z * dz * gw * i * i * i) by {
        mul_eq(w * z * dz * gw, inv, w * z * dz * gw, i * i * i);
        mul_assoc(w * z * dz * gw, i, i);
        mul_assoc(w * z * dz * gw, i * i, i);
    }
    assert(x * x * dw * gw * inv == x * x * dw * gw * i * i * i) by {
        mul_eq(x * x * dw * gw, inv, x * x * dw * gw, i * i * i);
        mul_assoc(x * x * dw * gw, i, i);
        mul_assoc(x * x * dw * gw, i * i, i);
    }
    assert(x * x * dy * gy * inv == x * x * dy * gy * i * i * i) by {
        mul_eq(x * x * dy * gy, inv, x * x * dy * gy, i * i * i);
        mul_assoc(x * x * dy * gy, i, i);
        mul_assoc(x * x * dy * gy, i * i, i);
    }
    assert(x * x * dz * gz * inv == x * x * dz * gz * i * i * i) by {
        mul_eq(x * x * dz * gz, inv, x * x * dz * gz, i * i * i);
        mul_assoc(x * x * dz * gz, i, i);
        mul_assoc(x * x * dz * gz, i * i, i);
    }
    assert(x * y * dx * gy * inv == x * y * dx * gy * i * i * i) by {
        mul_eq(x * y * dx * gy, inv, x * y * dx * gy, i * i * i);
        mul_assoc(x * y * dx * gy, i, i);
        mul_assoc(x * y * dx * gy, i * i, i);
    }
    assert(x * y * dy * gx * inv == x * y * dy * gx * i * i * i) by {
        mul_eq(x * y * dy * gx, inv, x * y * dy * gx, i * i * i);
        mul_assoc(x * y * dy * gx, i, i);
        mul_assoc(x * y * dy * gx, i * i, i);
    }
    assert(x * z * dx * gz * inv == x * z * dx * gz * i * i * i) by {
        mul_eq(x * z * dx * gz, inv, x * z * dx * gz, i * i * i);
        mul_assoc(x * z * dx * gz, i, i);
        mul_assoc(x * z * dx * gz, i * i, i);
    }
    assert(x * z * dz * gx * inv == x * z * dz * gx * i * i * i) by {
        mul_eq(x * z * dz * gx, inv, x * z * dz * gx, i * i * i);
        mul_assoc(x * z * dz * gx, i, i);
        mul_assoc(x * z * dz * gx, i * i, i);
    }
    assert(y * y * dw * gw * inv == y * y * dw * gw * i * i * i) by {
        mul_eq(y * y * dw * gw, inv, y * y * dw * gw, i * i * i);
        mul_assoc(y * y * dw * gw, i, i);
        mul_assoc(y * y * dw * gw, i * i, i);
    }
    assert(y * y * dx * gx * inv == y * y * dx * gx * i * i * i) by {
        mul_eq(y * y * dx * gx, inv, y * y * dx * gx, i * i * i);
        mul_assoc(y * y * dx * gx, i, i);
        mul_assoc(y * y * dx * gx, i * i, i);
    }
    assert(y * y * dz * gz * inv == y * y * dz * gz * i * i * i) by {
        mul_eq(y * y * dz * gz, inv, y * y * dz * gz, i * i * i);
        mul_assoc(y * y * dz * gz, i, i);
        mul_assoc(y * y * dz * gz, i * i, i);
    }
    assert(y * z * dy * gz * inv == y * z * dy * gz * i * i * i) by {
        mul_eq(y * z * dy * gz, inv, y * z * dy * gz, i * i * i);
        mul_assoc(y * z * dy * gz, i, i);
        mul_assoc(y * z * dy * gz, i * i, i);
    }
    assert(y * z * dz * gy * inv == y * z * dz * gy * i * i * i) by {
        mul_eq(y * z * dz * gy, inv, y * z * dz * gy, i * i * i);
        mul_assoc(y * z * dz * gy, i, i);
        mul_assoc(y * z * dz * gy, i * i, i);
    }
    assert(z * z * dw * gw * inv == z * z * dw * gw * i * i * i) by {
        mul_eq(z * z * dw * gw, inv, z * z * dw * gw, i * i * i);
        mul_assoc(z * z * dw * gw, i, i);
        mul_assoc(z * z * dw * gw, i * i, i);
    }
    assert(z * z * dx * gx * inv == z * z * dx * gx * i * i * i) by {
        mul_eq(z * z * dx * gx, inv, z * z * dx * gx, i * i * i);
        mul_assoc(z * z * dx * gx, i, i);
        mul_assoc(z * z * dx * gx, i * i, i);
    }
    assert(z * z * dy * gy * inv == z * z * dy * gy * i * i * i) by {
        mul_eq(z * z * dy * gy, inv, z * z * dy * gy, i * i * i);
        mul_assoc(z * z * dy * gy, i, i);
        mul_assoc(z * z * dy * gy, i * i, i);
    }
    assert(w * w * dw * gw * i * i * i + x * x * dw * gw * i * i * i + y * y * dw * gw * i * i * i
        + z * z * dw * gw * i * i * i == dw * gw * i) by {
        mul_eq(dw * gw * i, (w * w + x * x + y * y + z * z) * (i * i), dw * gw * i, 1real);
        mul_eq(dw * gw * i, (w * w + x * x + y * y + z * z) * (i * i), dw * gw * i,
            w * w * i * i + x * x * i * i + y * y * i * i + z * z * i * i);
        dist_add_left(dw * gw * i, w * w * i * i + x * x * i * i + y * y * i * i, z * z * i * i);
        dist_add_left(dw * gw * i, w * w * i * i + x * x * i * i, y * y * i * i);
        dist_add_left(dw * gw * i, w * w * i * i, x * x * i * i);
        mul_swap(dw * gw, i, w);
        mul_swap(dw, gw, w);
        mul_comm(dw, w);
        mul_assoc(dw * gw * i, w, w);
        mul_swap(w * dw * gw, i, w);
        mul_swap(w * dw, gw, w);
        mul_swap(w, dw, w);
        mul_assoc(dw * gw * i, w * w, i);
        mul_assoc(dw * gw * i, w * w * i, i);
        mul_swap(dw * gw, i, x);
        mul_swap(dw, gw, x);
        mul_comm(dw, x);
        mul_assoc(dw * gw * i, x, x);
        mul_swap(x * dw * gw, i, x);
        mul_swap(x * dw, gw, x);
        mul_swap(x, dw, x);
        mul_assoc(dw * gw * i, x * x, i);
        mul_assoc(dw * gw * i, x * x * i, i);
        mul_swap(dw * gw, i, y);
        mul_swap(dw, gw, y);
        mul_comm(dw, y);
        mul_assoc(dw * gw * i, y, y);
        mul_swap(y * dw * gw, i, y);
        mul_swap(y * dw, gw, y);
        mul_swap(y, dw, y);
        mul_assoc(dw * gw * i, y * y, i);
        mul_assoc(dw * gw * i, y * y * i, i);
        mul_swap(dw * gw, i, z);
        mul_swap(dw, gw, z);
        mul_comm(dw, z);
        mul_assoc(dw * gw * i, z, z);
        mul_swap(z * dw * gw, i, z);
        mul_swap(z * dw, gw, z);
        mul_swap(z, dw, z);
        mul_assoc(dw * gw * i, z * z, i);
        mul_assoc(dw * gw * i, z * z * i, i);
    }
    assert(w * w * dx * gx * i * i * i + x * x * dx * gx * i * i * i + y * y * dx * gx * i * i * i
        + z * z * dx * gx * i * i * i == dx * gx * i) by {
        mul_eq(dx * gx * i, (w * w + x * x + y * y + z * z) * (i * i), dx * gx * i, 1real);
        mul_eq(dx * gx * i, (w * w + x * x + y * y + z * z) * (i * i), dx * gx * i,
            w * w * i * i + x * x * i * i + y * y * i * i + z * z * i * i);
        dist_add_left(dx * gx * i, w * w * i * i + x * x * i * i + y * y * i * i, z * z * i * i);
        dist_add_left(dx * gx * i, w * w * i * i + x * x * i * i, y * y * i * i);
        dist_add_left(dx * gx * i, w * w * i * i, x * x * i * i);
        mul_swap(dx * gx, i, w);
        mul_swap(dx, gx, w);
        mul_comm(dx, w);
        mul_assoc(dx * gx * i, w, w);
        mul_swap(w * dx * gx, i, w);
        mul_swap(w * dx, gx, w);
        mul_swap(w, dx, w);
        mul_assoc(dx * gx * i, w * w, i);
        mul_assoc(dx * gx * i, w * w * i, i);
        mul_swap(dx * gx, i, x);
        mul_swap(dx, gx, x);
        mul_comm(dx, x);
        mul_assoc(dx * gx * i, x, x);
        mul_swap(x * dx * gx, i, x);
        mul_swap(x * dx, gx, x);
        mul_swap(x, dx, x);
        mul_assoc(dx * gx * i, x * x, i);
        mul_assoc(dx * gx * i, x * x * i, i);
        mul_swap(dx * gx, i, y);
        mul_swap(dx, gx, y);
        mul_comm(dx, y);
        mul_assoc(dx * gx * i, y, y);
        mul_swap(y * dx * gx, i, y);
        mul_swap(y * dx, gx, y);
        mul_swap(y, dx, y);
        mul_assoc(dx * gx * i, y * y, i);
        mul_assoc(dx * gx * i, y * y * i, i);
        mul_swap(dx * gx, i, z);
        mul_swap(dx, gx, z);
        mul_comm(dx, z);
        mul_assoc(dx * gx * i, z, z);
        mul_swap(z * dx * gx, i, z);
        mul_swap(z * dx, gx, z);
        mul_swap(z, dx, z);
        mul_assoc(dx * gx * i, z * z, i);
        mul_assoc(dx * gx * i, z * z * i, i);
    }
    assert(w * w * dy * gy * i * i * i + x * x * dy * gy * i * i * i + y * y * dy * gy * i * i * i
        + z * z * dy * gy * i * i * i == dy * gy * i) by {
        mul_eq(dy * gy * i, (w * w + x * x + y * y + z * z) * (i * i), dy * gy * i, 1real);
        mul_eq(dy * gy * i, (w * w + x * x + y * y + z * z) * (i * i), dy * gy * i,
            w * w * i * i + x * x * i * i + y * y * i * i + z * z * i * i);
        dist_add_left(dy * gy * i, w * w * i * i + x * x * i * i + y * y * i * i, z * z * i * i);
        dist_add_left(dy * gy * i, w * w * i * i + x * x * i * i, y * y * i * i);
        dist_add_left(dy * gy * i, w * w * i * i, x * x * i * i);
        mul_swap(dy * gy, i, w);
        mul_swap(dy, gy, w);
        mul_comm(dy, w);
        mul_assoc(dy * gy * i, w, w);
        mul_swap(w * dy * gy, i, w);
        mul_swap(w * dy, gy, w);
        mul_swap(w, dy, w);
        mul_assoc(dy * gy * i, w * w, i);
        mul_assoc(dy * gy * i, w * w * i, i);
        mul_swap(dy * gy, i, x);
        mul_swap(dy, gy, x);
        mul_comm(dy, x);
        mul_assoc(dy * gy * i, x, x);
        mul_swap(x * dy * gy, i, x);
        mul_swap(x * dy, gy, x);
        mul_swap(x, dy, x);
        mul_assoc(dy * gy * i, x * x, i);
        mul_assoc(dy * gy * i, x * x * i, i);
        mul_swap(dy * gy, i, y);
        mul_swap(dy, gy, y);
        mul_comm(dy, y);
        mul_assoc(dy * gy * i, y, y);
        mul_swap(y * dy * gy, i, y);
        mul_swap(y * dy, gy, y);
        mul_swap(y, dy, y);
        mul_assoc(dy * gy * i, y * y, i);
        mul_assoc(dy * gy * i, y * y * i, i);
        mul_swap(dy * gy, i, z);
        mul_swap(dy, gy, z);
        mul_comm(dy, z);
        mul_assoc(dy * gy * i, z, z);
        mul_swap(z * dy * gy, i, z);
        mul_swap(z * dy, gy, z);
        mul_swap(z, dy, z);
        mul_assoc(dy * gy * i, z * z, i);
        mul_assoc(dy * gy * i, z * z * i, i);
    }
    assert(w * w * dz * gz * i * i * i + x * x * dz * gz * i * i * i + y * y * dz * gz * i * i * i
        + z * z * dz * gz * i * i * i == dz * gz * i) by {
        mul_eq(dz * gz * i, (w * w + x * x + y * y + z * z) * (i * i), dz * gz * i, 1real);
        mul_eq(dz * gz * i, (w * w + x * x + y * y + z * z) * (i * i), dz * gz * i,
            w * w * i * i + x * x * i * i + y * y * i * i + z * z * i * i);
        dist_add_left(dz * gz * i, w * w * i * i + x * x * i * i + y * y * i * i, z * z * i * i);
        dist_add_left(dz * gz * i, w * w * i * i + x * x * i * i, y * y * i * i);
        dist_add_left(dz * gz * i, w * w * i * i, x * x * i * i);
        mul_swap(dz * gz, i, w);
        mul_swap(dz, gz, w);
        mul_comm(dz, w);
        mul_assoc(dz * gz * i, w, w);
        mul_swap(w * dz * gz, i, w);
        mul_swap(w * dz, gz, w);
        mul_swap(w, dz, w);
        mul_assoc(dz * gz * i, w * w, i);
        mul_assoc(dz * gz * i, w * w * i, i);
        mul_swap(dz * gz, i, x);
        mul_swap(dz, gz, x);
        mul_comm(dz, x);
        mul_assoc(dz * gz * i, x, x);
        mul_swap(x * dz * gz, i, x);
        mul_swap(x * dz, gz, x);
        mul_swap(x, dz, x);
        mul_assoc(dz * gz * i, x * x, i);
        mul_assoc(dz * gz * i, x * x * i, i);
        mul_swap(dz * gz, i, y);
        mul_swap(dz, gz, y);
        mul_comm(dz, y);
        mul_assoc(dz * gz * i, y, y);
        mul_swap(y * dz * gz, i, y);
        mul_swap(y * dz, gz, y);
        mul_swap(y, dz, y);
        mul_assoc(dz * gz * i, y * y, i);
        mul_assoc(dz * gz * i, y * y * i, i);
        mul_swap(dz * gz, i, z);
        mul_swap(dz, gz, z);
        mul_comm(dz, z);
        mul_assoc(dz * gz * i, z, z);
        mul_swap(z * dz * gz, i, z);
        mul_swap(z * dz, gz, z);
        mul_swap(z, dz, z);
        mul_assoc(dz * gz * i, z * z, i);
        mul_assoc(dz * gz * i, z * z * i, i);
    }
}

pub(crate) proof fn normalize_tangent(
    w: real,
    x: real,
    y: real,
    z: real,
    gw: real,
    gx: real,
    gy: real,
    gz: real,
    inv: real,
)
    ensures
        w * (((w * w + x * x + y * y + z * z - w * w) * gw + (-w) * x * gx + (-y) * w * gy
            + (-w) * z * gz) * inv) + x * (((-w) * x * gw
            + (w * w + x * x + y * y + z * z - x * x) * gx + (-x) * y * gy + (-x) * z * gz) * inv)
            + y * (((-y) * w * gw + (-x) * y * gx + (w * w + x * x + y * y + z * z - y * y) * gy
            + (-y) * z * gz) * inv) + z * (((-w) * z * gw + (-x) * z * gx + (-y) * z * gy
            + (w * w + x * x + y * y + z * z - z * z) * gz) * inv) == 0real,
{
    assert((w * w + x * x + y * y + z * z - w * w) * gw
        == x * x * gw + y * y * gw + z * z * gw) by {
        mul_eq(w * w + x * x + y * y + z * z - w * w, gw, x * x + y * y + z * z, gw);
        dist_add(x * x + y * y, z * z, gw);
        dist_add(x * x, y * y, gw);
    }
    assert((-w) * x == -(w * x)) by {
        dist_neg(w, x);
    }
    assert((-w) * x * gx == -(w * x * gx)) by {
        mul_eq((-w) * x, gx, -(w * x), gx);
        dist_neg(w * x, gx);
    }
    assert((-y) * w == -(w * y)) by {
        dist_neg(y, w);
        mul_comm(y, w);
    }
    assert((-y) * w * gy == -(w * y * gy)) by {
        mul_eq((-y) * w, gy, -(w * y), gy);
        dist_neg(w * y, gy);
    }
    assert((-w) * z == -(w * z)) by {
        dist_neg(w, z);
    }
    assert((-w) * z * gz == -(w * z * gz)) by {
        mul_eq((-w) * z, gz, -(w * z), gz);
        dist_neg(w * z, gz);
    }
    assert(((w * w + x * x + y * y + z * z - w * w) * gw + (-w) * x * gx + (-y) * w * gy
        + (-w) * z * gz) * inv == -(w * x * gx * inv) - w * y * gy * inv - w * z * gz * inv
        + x * x * gw * inv + y * y * gw * inv + z * z * gw * inv) by {
        mul_eq((w * w + x * x + y * y + z * z - w * w) * gw + (-w) * x * gx + (-y) * w * gy
            + (-w) * z * gz, inv, -(w * x * gx) - w * y * gy - w * z * gz + x * x * gw + y * y * gw
            + z * z * gw, inv);
        dist_add(-(w * x * gx) - w * y * gy - w * z * gz + x * x * gw + y * y * gw, z * z * gw,
            inv);
        dist_add(-(w * x * gx) - w * y * gy - w * z * gz + x * x * gw, y * y * gw, inv);
        dist_add(-(w * x * gx) - w * y * gy - w * z * gz, x * x * gw, inv);
        dist_sub(-(w * x * gx) - w * y * gy, w * z * gz, inv);
        dist_sub(-(w * x * gx), w * y * gy, inv);
        dist_neg(w * x * gx, inv);
    }
    assert(w * (((w * w + x * x + y * y + z * z - w * w) * gw + (-w) * x * gx + (-y) * w * gy
        + (-w) * z * gz) * inv) == -(w * w * x * gx * inv) - w * w * y * gy * inv
        - w * w * z * gz * inv + w * x * x * gw * inv + w * y * y * gw * inv
        + w * z * z * gw * inv) by {
        mul_eq(w, ((w * w + x * x + y * y + z * z - w * w) * gw + (-w) * x * gx + (-y) * w * gy
            + (-w) * z * gz) * inv, w, -(w * x * gx * inv) - w * y * gy * inv - w * z * gz * inv
            + x * x * gw * inv + y * y * gw * inv + z * z * gw * inv);
        dist_add_left(w, -(w * x * gx * inv) - w * y * gy * inv - w * z * gz * inv
            + x * x * gw * inv + y * y * gw * inv, z * z * gw * inv);
        dist_add_left(w, -(w * x * gx * inv) - w * y * gy * inv - w * z * gz * inv
            + x * x * gw * inv, y * y * gw * inv);
        dist_add_left(w, -(w * x * gx * inv) - w * y * gy * inv - w * z * gz * inv,
            x * x * gw * inv);
        dist_sub_left(w, -(w * x * gx * inv) - w * y * gy * inv, w * z * gz * inv);
        dist_sub_left(w, -(w * x * gx * inv), w * y * gy * inv);
        dist_neg_left(w, w * x * gx * inv);
        mul_assoc(w, w, x);
        mul_assoc(w, w * x, gx);
        mul_assoc(w, w * x * gx, inv);
        mul_assoc(w, w, y);
        mul_assoc(w, w * y, gy);
        mul_assoc(w, w * y * gy, inv);
        mul_assoc(w, w, z);
        mul_assoc(w, w * z, gz);
        mul_assoc(w, w * z * gz, inv);
        mul_assoc(w, x, x);
        mul_assoc(w, x * x, gw);
        mul_assoc(w, x * x * gw, inv);
        mul_assoc(w, y, y);
        mul_assoc(w, y * y, gw);
        mul_assoc(w, y * y * gw, inv);
        mul_assoc(w, z, z);
        mul_assoc(w, z * z, gw);
        mul_assoc(w, z * z * gw, inv);
    }
    assert((-w) * x * gw == -(w * x * gw)) by {
        mul_eq((-w) * x, gw, -(w * x), gw);
        dist_neg(w * x, gw);
    }
    assert((w * w + x * x + y * y + z * z - x * x) * gx
        == w * w * gx + y * y * gx + z * z * gx) by {
        mul_eq(w * w + x * x + y * y + z * z - x * x, gx, w * w + y * y + z * z, gx);
        dist_add(w * w + y * y, z * z, gx);
        dist_add(w * w, y * y, gx);
    }
    assert((-x) * y == -(x * y)) by {
        dist_neg(x, y);
    }
    assert((-x) * y * gy == -(x * y * gy)) by {
        mul_eq((-x) * y, gy, -(x * y), gy);
        dist_neg(x * y, gy);
    }
    assert((-x) * z == -(x * z)) by {
        dist_neg(x, z);
    }
    assert((-x) * z * gz == -(x * z * gz)) by {
        mul_eq((-x) * z, gz, -(x * z), gz);
        dist_neg(x * z, gz);
    }
    assert(((-w) * x * gw + (w * w + x * x + y * y + z * z - x * x) * gx + (-x) * y * gy
        + (-x) * z * gz) * inv == w * w * gx * inv - w * x * gw * inv - x * y * gy * inv
        - x * z * gz * inv + y * y * gx * inv + z * z * gx * inv) by {
        mul_eq((-w) * x * gw + (w * w + x * x + y * y + z * z - x * x) * gx + (-x) * y * gy
            + (-x) * z * gz, inv, w * w * gx - w * x * gw - x * y * gy - x * z * gz + y * y * gx
            + z * z * gx, inv);
        dist_add(w * w * gx - w * x * gw - x * y * gy - x * z * gz + y * y * gx, z * z * gx, inv);
        dist_add(w * w * gx - w * x * gw - x * y * gy - x * z * gz, y * y * gx, inv);
        dist_sub(w * w * gx - w * x * gw - x * y * gy, x * z * gz, inv);
        dist_sub(w * w * gx - w * x * gw, x * y * gy, inv);
        dist_sub(w * w * gx, w * x * gw, inv);
    }
    assert(x * (((-w) * x * gw + (w * w + x * x + y * y + z * z - x * x) * gx + (-x) * y * gy
        + (-x) * z * gz) * inv) == w * w * x * gx * inv - w * x * x * gw * inv
        - x * x * y * gy * inv - x * x * z * gz * inv + x * y * y * gx * inv
        + x * z * z * gx * inv) by {
        mul_eq(x, ((-w) * x * gw + (w * w + x * x + y * y + z * z - x * x) * gx + (-x) * y * gy
            + (-x) * z * gz) * inv, x, w * w * gx * inv - w * x * gw * inv - x * y * gy * inv
            - x * z * gz * inv + y * y * gx * inv + z * z * gx * inv);
        dist_add_left(x, w * w * gx * inv - w * x * gw * inv - x * y * gy * inv - x * z * gz * inv
            + y * y * gx * inv, z * z * gx * inv);
        dist_add_left(x, w * w * gx * inv - w * x * gw * inv - x * y * gy * inv - x * z * gz * inv,
            y * y * gx * inv);
        dist_sub_left(x, w * w * gx * inv - w * x * gw * inv - x * y * gy * inv, x * z * gz * inv);
        dist_sub_left(x, w * w * gx * inv - w * x * gw * inv, x * y * gy * inv);
        dist_sub_left(x, w * w * gx * inv, w * x * gw * inv);
        mul_comm(x, w);
        mul_assoc(x, w, w);
        mul_swap(w, x, w);
        mul_assoc(x, w * w, gx);
        mul_assoc(x, w * w * gx, inv);
        mul_comm(x, w);
        mul_assoc(x, w, x);
        mul_assoc(x, w * x, gw);
        mul_assoc(x, w * x * gw, inv);
        mul_assoc(x, x, y);
        mul_assoc(x, x * y, gy);
        mul_assoc(x, x * y * gy, inv);
        mul_assoc(x, x, z);
        mul_assoc(x, x * z, gz);
        mul_assoc(x, x * z * gz, inv);
        mul_assoc(x, y, y);
        mul_assoc(x, y * y, gx);
        mul_assoc(x, y * y * gx, inv);
        mul_assoc(x, z, z);
        mul_assoc(x, z * z, gx);
        mul_assoc(x, z * z * gx, inv);
    }
    assert((-y) * w * gw == -(w * y * gw)) by {
        mul_eq((-y) * w, gw, -(w * y), gw);
        dist_neg(w * y, gw);
    }
    assert((-x) * y * gx == -(x * y * gx)) by {
        mul_eq((-x) * y, gx, -(x * y), gx);
        dist_neg(x * y, gx);
    }
    assert((w * w + x * x + y * y + z * z - y * y) * gy
        == w * w * gy + x * x * gy + z * z * gy) by {
        mul_eq(w * w + x * x + y * y + z * z - y * y, gy, w * w + x * x + z * z, gy);
        dist_add(w * w + x * x, z * z, gy);
        dist_add(w * w, x * x, gy);
    }
    assert((-y) * z == -(y * z)) by {
        dist_neg(y, z);
    }
    assert((-y) * z * gz == -(y * z * gz)) by {
        mul_eq((-y) * z, gz, -(y * z), gz);
        dist_neg(y * z, gz);
    }
    assert(((-y) * w * gw + (-x) * y * gx + (w * w + x * x + y * y + z * z - y * y) * gy
        + (-y) * z * gz) * inv == w * w * gy * inv - w * y * gw * inv + x * x * gy * inv
        - x * y * gx * inv - y * z * gz * inv + z * z * gy * inv) by {
        mul_eq((-y) * w * gw + (-x) * y * gx + (w * w + x * x + y * y + z * z - y * y) * gy
            + (-y) * z * gz, inv, w * w * gy - w * y * gw + x * x * gy - x * y * gx - y * z * gz
            + z * z * gy, inv);
        dist_add(w * w * gy - w * y * gw + x * x * gy - x * y * gx - y * z * gz, z * z * gy, inv);
        dist_sub(w * w * gy - w * y * gw + x * x * gy - x * y * gx, y * z * gz, inv);
        dist_sub(w * w * gy - w * y * gw + x * x * gy, x * y * gx, inv);
        dist_add(w * w * gy - w * y * gw, x * x * gy, inv);
        dist_sub(w * w * gy, w * y * gw, inv);
    }
    assert(y * (((-y) * w * gw + (-x) * y * gx + (w * w + x * x + y * y + z * z - y * y) * gy
        + (-y) * z * gz) * inv) == w * w * y * gy * inv - w * y * y * gw * inv
        + x * x * y * gy * inv - x * y * y * gx * inv - y * y * z * gz * inv
        + y * z * z * gy * inv) by {
        mul_eq(y, ((-y) * w * gw + (-x) * y * gx + (w * w + x * x + y * y + z * z - y * y) * gy
            + (-y) * z * gz) * inv, y, w * w * gy * inv - w * y * gw * inv + x * x * gy * inv
            - x * y * gx * inv - y * z * gz * inv + z * z * gy * inv);
        dist_add_left(y, w * w * gy * inv - w * y * gw * inv + x * x * gy * inv - x * y * gx * inv
            - y * z * gz * inv, z * z * gy * inv);
        dist_sub_left(y, w * w * gy * inv - w * y * gw * inv + x * x * gy * inv - x * y * gx * inv,
            y * z * gz * inv);
        dist_sub_left(y, w * w * gy * inv - w * y * gw * inv + x * x * gy * inv, x * y * gx * inv);
        dist_add_left(y, w * w * gy * inv - w * y * gw * inv, x * x * gy * inv);
        dist_sub_left(y, w * w * gy * inv, w * y * gw * inv);
        mul_comm(y, w);
        mul_assoc(y, w, w);
        mul_swap(w, y, w);
        mul_assoc(y, w * w, gy);
        mul_assoc(y, w * w * gy, inv);
        mul_comm(y, w);
        mul_assoc(y, w, y);
        mul_assoc(y, w * y, gw);
        mul_assoc(y, w * y * gw, inv);
        mul_comm(y, x);
        mul_assoc(y, x, x);
        mul_swap(x, y, x);
        mul_assoc(y, x * x, gy);
        mul_assoc(y, x * x * gy, inv);
        mul_comm(y, x);
        mul_assoc(y, x, y);
        mul_assoc(y, x * y, gx);
        mul_assoc(y, x * y * gx, inv);
        mul_assoc(y, y, z);
        mul_assoc(y, y * z, gz);
        mul_assoc(y, y * z * gz, inv);
        mul_assoc(y, z, z);
        mul_assoc(y, z * z, gy);
        mul_assoc(y, z * z * gy, inv);
    }
    assert((-w) * z * gw == -(w * z * gw)) by {
        mul_eq((-w) * z, gw, -(w * z), gw);
        dist_neg(w * z, gw);
    }
    assert((-x) * z * gx == -(x * z * gx)) by {
        mul_eq((-x) * z, gx, -(x * z), gx);
        dist_neg(x * z, gx);
    }
    assert((-y) * z * gy == -(y * z * gy)) by {
        mul_eq((-y) * z, gy, -(y * z), gy);
        dist_neg(y * z, gy);
    }
    assert((w * w + x * x + y * y + z * z - z * z) * gz
        == w * w * gz + x * x * gz + y * y * gz) by {
        mul_eq(w * w + x * x + y * y + z * z - z * z, gz, w * w + x * x + y * y, gz);
        dist_add(w * w + x * x, y * y, gz);
        dist_add(w * w, x * x, gz);
    }
    assert(((-w) * z * gw + (-x) * z * gx + (-y) * z * gy
        + (w * w + x * x + y * y + z * z - z * z) * gz) * inv
        == w * w * gz * inv - w * z * gw * inv + x * x * gz * inv - x * z * gx * inv
        + y * y * gz * inv - y * z * gy * inv) by {
        mul_eq((-w) * z * gw + (-x) * z * gx + (-y) * z * gy
            + (w * w + x * x + y * y + z * z - z * z) * gz, inv,
            w * w * gz - w * z * gw + x * x * gz - x * z * gx + y * y * gz - y * z * gy, inv);
        dist_sub(w * w * gz - w * z * gw + x * x * gz - x * z * gx + y * y * gz, y * z * gy, inv);
        dist_add(w * w * gz - w * z * gw + x * x * gz - x * z * gx, y * y * gz, inv);
        dist_sub(w * w * gz - w * z * gw + x * x * gz, x * z * gx, inv);
        dist_add(w * w * gz - w * z * gw, x * x * gz, inv);
        dist_sub(w * w * gz, w * z * gw, inv);
    }
    assert(z * (((-w) * z * gw + (-x) * z * gx + (-y) * z * gy
        + (w * w + x * x + y * y + z * z - z * z) * gz) * inv)
        == w * w * z * gz * inv - w * z * z * gw * inv + x * x * z * gz * inv - x * z * z * gx * inv
        + y * y * z * gz * inv - y * z * z * gy * inv) by {
        mul_eq(z, ((-w) * z * gw + (-x) * z * gx + (-y) * z * gy
            + (w * w + x * x + y * y + z * z - z * z) * gz) * inv, z,
            w * w * gz * inv - w * z * gw * inv + x * x * gz * inv - x * z * gx * inv
            + y * y * gz * inv - y * z * gy * inv);
        dist_sub_left(z, w * w * gz * inv - w * z * gw * inv + x * x * gz * inv - x * z * gx * inv
            + y * y * gz * inv, y * z * gy * inv);
        dist_add_left(z, w * w * gz * inv - w * z * gw * inv + x * x * gz * inv - x * z * gx * inv,
            y * y * gz * inv);
        dist_sub_left(z, w * w * gz * inv - w * z * gw * inv + x * x * gz * inv, x * z * gx * inv);
        dist_add_left(z, w * w * gz * inv - w * z * gw * inv, x * x * gz * inv);
        dist_sub_left(z, w * w * gz * inv, w * z * gw * inv);
        mul_comm(z, w);
        mul_assoc(z, w, w);
        mul_swap(w, z, w);
        mul_assoc(z, w * w, gz);
        mul_assoc(z, w * w * gz, inv);
        mul_comm(z, w);
        mul_assoc(z, w, z);
        mul_assoc(z, w * z, gw);
        mul_assoc(z, w * z * gw, inv);
        mul_comm(z, x);
        mul_assoc(z, x, x);
        mul_swap(x, z, x);
        mul_assoc(z, x * x, gz);
        mul_assoc(z, x * x * gz, inv);
        mul_comm(z, x);
        mul_assoc(z, x, z);
        mul_assoc(z, x * z, gx);
        mul_assoc(z, x * z * gx, inv);
        mul_comm(z, y);
        mul_assoc(z, y, y);
        mul_swap(y, z, y);
        mul_assoc(z, y * y, gz);
        mul_assoc(z, y * y * gz, inv);
        mul_comm(z, y);
        mul_assoc(z, y, z);
        mul_assoc(z, y * z, gy);
        mul_assoc(z, y * z * gy, inv);
    }
}

pub(crate) proof fn direction_pairing(
    x: real,
    y: real,
    z: real,
    dx: real,
    dy: real,
    dz: real,
    gx: real,
    gy: real,
    gz: real,
    i: real,
    dl: real,
    ri: real,
)
    requires
        2real * dl == (dx * x + x * dx + (dy * y + y * dy) + (dz * z + z * dz)) * i,
        ri == -(dl * (i * i)),
    ensures
        gx * (dx * i + x * ri) + gy * (dy * i + y * ri) + gz * (dz * i + z * ri)
            == (gx - x * i * (x * i * gx + y * i * gy + z * i * gz)) * i * dx
            + (gy - y * i * (x * i * gx + y * i * gy + z * i * gz)) * i * dy
            + (gz - z * i * (x * i * gx + y * i * gy + z * i * gz)) * i * dz,
{
    assert(dx * x == x * dx) by {
        mul_comm(dx, x);
    }
    assert(dy * y == y * dy) by {
        mul_comm(dy, y);
    }
    assert(dz * z == z * dz) by {
        mul_comm(dz, z);
    }
    assert((dx * x + x * dx + (dy * y + y * dy) + (dz * z + z * dz)) * i
        == 2real * (x * dx * i) + 2real * (y * dy * i) + 2real * (z * dz * i)) by {
        mul_eq(dx * x + x * dx + (dy * y + y * dy) + (dz * z + z * dz), i,
            2real * (x * dx) + 2real * (y * dy) + 2real * (z * dz), i);
        dist_add(2real * (x * dx) + 2real * (y * dy), 2real * (z * dz), i);
        dist_add(2real * (x * dx), 2real * (y * dy), i);
        mul_assoc(2real, x * dx, i);
        mul_assoc(2real, y * dy, i);
        mul_assoc(2real, z * dz, i);
    }
    assert(dl * (i * i) == i * i * dl) by {
        mul_comm(dl, i);
        mul_assoc(dl, i, i);
        mul_swap(i, dl, i);
    }
    assert(gx * (dx * i + x * ri) == x * gx * ri + dx * gx * i) by {
        mul_eq(gx, dx * i + x * ri, gx, x * ri + dx * i);
        dist_add_left(gx, x * ri, dx * i);
        mul_comm(gx, x);
        mul_assoc(gx, x, ri);
        mul_comm(gx, dx);
        mul_assoc(gx, dx, i);
    }
    assert(gy * (dy * i + y * ri) == y * gy * ri + dy * gy * i) by {
        mul_eq(gy, dy * i + y * ri, gy, y * ri + dy * i);
        dist_add_left(gy, y * ri, dy * i);
        mul_comm(gy, y);
        mul_assoc(gy, y, ri);
        mul_comm(gy, dy);
        mul_assoc(gy, dy, i);
    }
    assert(gz * (dz * i + z * ri) == z * gz * ri + dz * gz * i) by {
        mul_eq(gz, dz * i + z * ri, gz, z * ri + dz * i);
        dist_add_left(gz, z * ri, dz * i);
        mul_comm(gz, z);
        mul_assoc(gz, z, ri);
        mul_comm(gz, dz);
        mul_assoc(gz, dz, i);
    }
    assert(x * i * gx == x * gx * i) by {
        mul_swap(x, i, gx);
    }
    assert(y * i * gy == y * gy * i) by {
        mul_swap(y, i, gy);
    }
    assert(z * i * gz == z * gz * i) by {
        mul_swap(z, i, gz);
    }
    assert(x * i * (x * i * gx + y * i * gy + z * i * gz)
        == x * x * gx * i * i + x * y * gy * i * i + x * z * gz * i * i) by {
        mul_eq(x * i, x * i * gx + y * i * gy + z * i * gz, x * i,
            x * gx * i + y * gy * i + z * gz * i);
        dist_add_left(x * i, x * gx * i + y * gy * i, z * gz * i);
        dist_add_left(x * i, x * gx * i, y * gy * i);
        mul_swap(x, i, x);
        mul_assoc(x * i, x, gx);
        mul_swap(x * x, i, gx);
        mul_assoc(x * i, x * gx, i);
        mul_swap(x, i, y);
        mul_assoc(x * i, y, gy);
        mul_swap(x * y, i, gy);
        mul_assoc(x * i, y * gy, i);
        mul_swap(x, i, z);
        mul_assoc(x * i, z, gz);
        mul_swap(x * z, i, gz);
        mul_assoc(x * i, z * gz, i);
    }
    assert((gx - x * i * (x * i * gx + y * i * gy + z * i * gz)) * i
        == gx * i - x * x * gx * i * i * i - x * y * gy * i * i * i - x * z * gz * i * i * i) by {
        mul_eq(gx - x * i * (x * i * gx + y * i * gy + z * i * gz), i,
            gx - x * x * gx * i * i - x * y * gy * i * i - x * z * gz * i * i, i);
        dist_sub(gx - x * x * gx * i * i - x * y * gy * i * i, x * z * gz * i * i, i);
        dist_sub(gx - x * x * gx * i * i, x * y * gy * i * i, i);
        dist_sub(gx, x * x * gx * i * i, i);
    }
    assert((gx - x * i * (x * i * gx + y * i * gy + z * i * gz)) * i * dx
        == dx * gx * i - x * x * dx * gx * i * i * i - x * y * dx * gy * i * i * i
        - x * z * dx * gz * i * i * i) by {
        mul_eq((gx - x * i * (x * i * gx + y * i * gy + z * i * gz)) * i, dx,
            gx * i - x * x * gx * i * i * i - x * y * gy * i * i * i - x * z * gz * i * i * i, dx);
        dist_sub(gx * i - x * x * gx * i * i * i - x * y * gy * i * i * i, x * z * gz * i * i * i,
            dx);
        dist_sub(gx * i - x * x * gx * i * i * i, x * y * gy * i * i * i, dx);
        dist_sub(gx * i, x * x * gx * i * i * i, dx);
        mul_swap(gx, i, dx);
        mul_comm(gx, dx);
        mul_swap(x * x * gx * i * i, i, dx);
        mul_swap(x * x * gx * i, i, dx);
        mul_swap(x * x * gx, i, dx);
        mul_swap(x * x, gx, dx);
        mul_swap(x * y * gy * i * i, i, dx);
        mul_swap(x * y * gy * i, i, dx);
        mul_swap(x * y * gy, i, dx);
        mul_swap(x * y, gy, dx);
        mul_swap(x * z * gz * i * i, i, dx);
        mul_swap(x * z * gz * i, i, dx);
        mul_swap(x * z * gz, i, dx);
        mul_swap(x * z, gz, dx);
    }
    assert(y * i * (x * i * gx + y * i * gy + z * i * gz)
        == x * y * gx * i * i + y * y * gy * i * i + y * z * gz * i * i) by {
        mul_eq(y * i, x * i * gx + y * i * gy + z * i * gz, y * i,
            x * gx * i + y * gy * i + z * gz * i);
        dist_add_left(y * i, x * gx * i + y * gy * i, z * gz * i);
        dist_add_left(y * i, x * gx * i, y * gy * i);
        mul_swap(y, i, x);
        mul_comm(y, x);
        mul_assoc(y * i, x, gx);
        mul_swap(x * y, i, gx);
        mul_assoc(y * i, x * gx, i);
        mul_swap(y, i, y);
        mul_assoc(y * i, y, gy);
        mul_swap(y * y, i, gy);
        mul_assoc(y * i, y * gy, i);
        mul_swap(y, i, z);
        mul_assoc(y * i, z, gz);
        mul_swap(y * z, i, gz);
        mul_assoc(y * i, z * gz, i);
    }
    assert((gy - y * i * (x * i * gx + y * i * gy + z * i * gz)) * i
        == gy * i - x * y * gx * i * i * i - y * y * gy * i * i * i - y * z * gz * i * i * i) by {
        mul_eq(gy - y * i * (x * i * gx + y * i * gy + z * i * gz), i,
            gy - x * y * gx * i * i - y * y * gy * i * i - y * z * gz * i * i, i);
        dist_sub(gy - x * y * gx * i * i - y * y * gy * i * i, y * z * gz * i * i, i);
        dist_sub(gy - x * y * gx * i * i, y * y * gy * i * i, i);
        dist_sub(gy, x * y * gx * i * i, i);
    }
    assert((gy - y * i * (x * i * gx + y * i * gy + z * i * gz)) * i * dy
        == dy * gy * i - x * y * dy * gx * i * i * i - y * y * dy * gy * i * i * i
        - y * z * dy * gz * i * i * i) by {
        mul_eq((gy - y * i * (x * i * gx + y * i * gy + z * i * gz)) * i, dy,
            gy * i - x * y * gx * i * i * i - y * y * gy * i * i * i - y * z * gz * i * i * i, dy);
        dist_sub(gy * i - x * y * gx * i * i * i - y * y * gy * i * i * i, y * z * gz * i * i * i,
            dy);
        dist_sub(gy * i - x * y * gx * i * i * i, y * y * gy * i * i * i, dy);
        dist_sub(gy * i, x * y * gx * i * i * i, dy);
        mul_swap(gy, i, dy);
        mul_comm(gy, dy);
        mul_swap(x * y * gx * i * i, i, dy);
        mul_swap(x * y * gx * i, i, dy);
        mul_swap(x * y * gx, i, dy);
        mul_swap(x * y, gx, dy);
        mul_swap(y * y * gy * i * i, i, dy);
        mul_swap(y * y * gy * i, i, dy);
        mul_swap(y * y * gy, i, dy);
        mul_swap(y * y, gy, dy);
        mul_swap(y * z * gz * i * i, i, dy);
        mul_swap(y * z * gz * i, i, dy);
        mul_swap(y * z * gz, i, dy);
        mul_swap(y * z, gz, dy);
    }
    assert(z * i * (x * i * gx + y * i * gy + z * i * gz)
        == x * z * gx * i * i + y * z * gy * i * i + z * z * gz * i * i) by {
        mul_eq(z * i, x * i * gx + y * i * gy + z * i * gz, z * i,
            x * gx * i + y * gy * i + z * gz * i);
        dist_add_left(z * i, x * gx * i + y * gy * i, z * gz * i);
        dist_add_left(z * i, x * gx * i, y * gy * i);
        mul_swap(z, i, x);
        mul_comm(z, x);
        mul_assoc(z * i, x, gx);
        mul_swap(x * z, i, gx);
        mul_assoc(z * i, x * gx, i);
        mul_swap(z, i, y);
        mul_comm(z, y);
        mul_assoc(z * i, y, gy);
        mul_swap(y * z, i, gy);
        mul_assoc(z * i, y * gy, i);
        mul_swap(z, i, z);
        mul_assoc(z * i, z, gz);
        mul_swap(z * z, i, gz);
        mul_assoc(z * i, z * gz, i);
    }
    assert((gz - z * i * (x * i * gx + y * i * gy + z * i * gz)) * i
        == gz * i - x * z * gx * i * i * i - y * z * gy * i * i * i - z * z * gz * i * i * i) by {
        mul_eq(gz - z * i * (x * i * gx + y * i * gy + z * i * gz), i,
            gz - x * z * gx * i * i - y * z * gy * i * i - z * z * gz * i * i, i);
        dist_sub(gz - x * z * gx * i * i - y * z * gy * i * i, z * z * gz * i * i, i);
        dist_sub(gz - x * z * gx * i * i, y * z * gy * i * i, i);
        dist_sub(gz, x * z * gx * i * i, i);
    }
    assert((gz - z * i * (x * i * gx + y * i * gy + z * i * gz)) * i * dz
        == dz * gz * i - x * z * dz * gx * i * i * i - y * z * dz * gy * i * i * i
        - z * z * dz * gz * i * i * i) by {
        mul_eq((gz - z * i * (x * i * gx + y * i * gy + z * i * gz)) * i, dz,
            gz * i - x * z * gx * i * i * i - y * z * gy * i * i * i - z * z * gz * i * i * i, dz);
        dist_sub(gz * i - x * z * gx * i * i * i - y * z * gy * i * i * i, z * z * gz * i * i * i,
            dz);
        dist_sub(gz * i - x * z * gx * i * i * i, y * z * gy * i * i * i, dz);
        dist_sub(gz * i, x * z * gx * i * i * i, dz);
        mul_swap(gz, i, dz);
        mul_comm(gz, dz);
        mul_swap(x * z * gx * i * i, i, dz);
        mul_swap(x * z * gx * i, i, dz);
        mul_swap(x * z * gx, i, dz);
        mul_swap(x * z, gx, dz);
        mul_swap(y * z * gy * i * i, i, dz);
        mul_swap(y * z * gy * i, i, dz);
        mul_swap(y * z * gy, i, dz);
        mul_swap(y * z, gy, dz);
        mul_swap(z * z * gz * i * i, i, dz);
        mul_swap(z * z * gz * i, i, dz);
        mul_swap(z * z * gz, i, dz);
        mul_swap(z * z, gz, dz);
    }
    assert(2real * (x * gx * i * i * dl)
        == 2real * (x * x * dx * gx * i * i * i) + 2real * (x * y * dy * gx * i * i * i)
        + 2real * (x * z * dz * gx * i * i * i)) by {
        mul_eq(x * gx * i * i, 2real * dl, x * gx * i * i,
            (dx * x + x * dx + (dy * y + y * dy) + (dz * z + z * dz)) * i);
        mul_front(x * gx * i * i, 2real, dl);
        mul_eq(x * gx * i * i, (dx * x + x * dx + (dy * y + y * dy) + (dz * z + z * dz)) * i,
            x * gx * i * i, 2real * (x * dx * i) + 2real * (y * dy * i) + 2real * (z * dz * i));
        dist_add_left(x * gx * i * i, 2real * (x * dx * i) + 2real * (y * dy * i),
            2real * (z * dz * i));
        dist_add_left(x * gx * i * i, 2real * (x * dx * i), 2real * (y * dy * i));
        mul_front(x * gx * i * i, 2real, x * dx * i);
        mul_swap(x * gx * i, i, x);
        mul_swap(x * gx, i, x);
        mul_swap(x, gx, x);
        mul_assoc(x * gx * i * i, x, dx);
        mul_swap(x * x * gx * i, i, dx);
        mul_swap(x * x * gx, i, dx);
        mul_swap(x * x, gx, dx);
        mul_assoc(x * gx * i * i, x * dx, i);
        mul_front(x * gx * i * i, 2real, y * dy * i);
        mul_swap(x * gx * i, i, y);
        mul_swap(x * gx, i, y);
        mul_swap(x, gx, y);
        mul_assoc(x * gx * i * i, y, dy);
        mul_swap(x * y * gx * i, i, dy);
        mul_swap(x * y * gx, i, dy);
        mul_swap(x * y, gx, dy);
        mul_assoc(x * gx * i * i, y * dy, i);
        mul_front(x * gx * i * i, 2real, z * dz * i);
        mul_swap(x * gx * i, i, z);
        mul_swap(x * gx, i, z);
        mul_swap(x, gx, z);
        mul_assoc(x * gx * i * i, z, dz);
        mul_swap(x * z * gx * i, i, dz);
        mul_swap(x * z * gx, i, dz);
        mul_swap(x * z, gx, dz);
        mul_assoc(x * gx * i * i, z * dz, i);
    }
    assert(2real * (y * gy * i * i * dl)
        == 2real * (x * y * dx * gy * i * i * i) + 2real * (y * y * dy * gy * i * i * i)
        + 2real * (y * z * dz * gy * i * i * i)) by {
        mul_eq(y * gy * i * i, 2real * dl, y * gy * i * i,
            (dx * x + x * dx + (dy * y + y * dy) + (dz * z + z * dz)) * i);
        mul_front(y * gy * i * i, 2real, dl);
        mul_eq(y * gy * i * i, (dx * x + x * dx + (dy * y + y * dy) + (dz * z + z * dz)) * i,
            y * gy * i * i, 2real * (x * dx * i) + 2real * (y * dy * i) + 2real * (z * dz * i));
        dist_add_left(y * gy * i * i, 2real * (x * dx * i) + 2real * (y * dy * i),
            2real * (z * dz * i));
        dist_add_left(y * gy * i * i, 2real * (x * dx * i), 2real * (y * dy * i));
        mul_front(y * gy * i * i, 2real, x * dx * i);
        mul_swap(y * gy * i, i, x);
        mul_swap(y * gy, i, x);
        mul_swap(y, gy, x);
        mul_comm(y, x);
        mul_assoc(y * gy * i * i, x, dx);
        mul_swap(x * y * gy * i, i, dx);
        mul_swap(x * y * gy, i, dx);
        mul_swap(x * y, gy, dx);
        mul_assoc(y * gy * i * i, x * dx, i);
        mul_front(y * gy * i * i, 2real, y * dy * i);
        mul_swap(y * gy * i, i, y);
        mul_swap(y * gy, i, y);
        mul_swap(y, gy, y);
        mul_assoc(y * gy * i * i, y, dy);
        mul_swap(y * y * gy * i, i, dy);
        mul_swap(y * y * gy, i, dy);
        mul_swap(y * y, gy, dy);
        mul_assoc(y * gy * i * i, y * dy, i);
        mul_front(y * gy * i * i, 2real, z * dz * i);
        mul_swap(y * gy * i, i, z);
        mul_swap(y * gy, i, z);
        mul_swap(y, gy, z);
        mul_assoc(y * gy * i * i, z, dz);
        mul_swap(y * z * gy * i, i, dz);
        mul_swap(y * z * gy, i, dz);
        mul_swap(y * z, gy, dz);
        mul_assoc(y * gy * i * i, z * dz, i);
    }
    assert(2real * (z * gz * i * i * dl)
        == 2real * (x * z * dx * gz * i * i * i) + 2real * (y * z * dy * gz * i * i * i)
        + 2real * (z * z * dz * gz * i * i * i)) by {
        mul_eq(z * gz * i * i, 2real * dl, z * gz * i * i,
            (dx * x + x * dx + (dy * y + y * dy) + (dz * z + z * dz)) * i);
        mul_front(z * gz * i * i, 2real, dl);
        mul_eq(z * gz * i * i, (dx * x + x * dx + (dy * y + y * dy) + (dz * z + z * dz)) * i,
            z * gz * i * i, 2real * (x * dx * i) + 2real * (y * dy * i) + 2real * (z * dz * i));
        dist_add_left(z * gz * i * i, 2real * (x * dx * i) + 2real * (y * dy * i),
            2real * (z * dz * i));
        dist_add_left(z * gz * i * i, 2real * (x * dx * i), 2real * (y * dy * i));
        mul_front(z * gz * i * i, 2real, x * dx * i);
        mul_swap(z * gz * i, i, x);
        mul_swap(z * gz, i, x);
        mul_swap(z, gz, x);
        mul_comm(z, x);
        mul_assoc(z * gz * i * i, x, dx);
        mul_swap(x * z * gz * i, i, dx);
        mul_swap(x * z * gz, i, dx);
        mul_swap(x * z, gz, dx);
        mul_assoc(z * gz * i * i, x * dx, i);
        mul_front(z * gz * i * i, 2real, y * dy * i);
        mul_swap(z * gz * i, i, y);
        mul_swap(z * gz, i, y);
        mul_swap(z, gz, y);
        mul_comm(z, y);
        mul_assoc(z * gz * i * i, y, dy);
        mul_swap(y * z * gz * i, i, dy);
        mul_swap(y * z * gz, i, dy);
        mul_swap(y * z, gz, dy);
        mul_assoc(z * gz * i * i, y * dy, i);
        mul_front(z * gz * i * i, 2real, z * dz * i);
        mul_swap(z * gz * i, i, z);
        mul_swap(z * gz, i, z);
        mul_swap(z, gz, z);
        mul_assoc(z * gz * i * i, z, dz);
        mul_swap(z * z * gz * i, i, dz);
        mul_swap(z * z * gz, i, dz);
        mul_swap(z * z, gz, dz);
        mul_assoc(z * gz * i * i, z * dz, i);
    }
    assert(x * gx * ri == -(x * gx * i * i * dl)) by {
        mul_eq(x * gx, ri, x * gx, -(dl * (i * i)));
        mul_eq(x * gx, -(dl * (i * i)), x * gx, -(i * i * dl));
        dist_neg_left(x * gx, i * i * dl);
        mul_assoc(x * gx, i, i);
        mul_assoc(x * gx, i * i, dl);
    }
    assert(y * gy * ri == -(y * gy * i * i * dl)) by {
        mul_eq(y * gy, ri, y * gy, -(dl * (i * i)));
        mul_eq(y * gy, -(dl * (i * i)), y * gy, -(i * i * dl));
        dist_neg_left(y * gy, i * i * dl);
        mul_assoc(y * gy, i, i);
        mul_assoc(y * gy, i * i, dl);
    }
    assert(z * gz * ri == -(z * gz * i * i * dl)) by {
        mul_eq(z * gz, ri, z * gz, -(dl * (i * i)));
        mul_eq(z * gz, -(dl * (i * i)), z * gz, -(i * i * dl));
        dist_neg_left(z * gz, i * i * dl);
        mul_assoc(z * gz, i, i);
        mul_assoc(z * gz, i * i, dl);
    }
}

pub(crate) proof fn logistic_pairing(f: real, a: real, e: real, i: real, d: real, re: real)
    requires
        (1real + e) * i == 1real,
        re == e * (-d),
    ensures
        f * a * (-(re * (i * i))) == f * a * i * (1real - i) * d,
{
    assert((1real + e) * i == i + e * i) by {
        dist_add(1real, e, i);
    }
    assert(e * (-d) == -(e * d)) by {
        dist_neg_left(e, d);
    }
    assert(re * (i * i) == i * i * re) by {
        mul_comm(re, i);
        mul_assoc(re, i, i);
        mul_swap(i, re, i);
    }
    assert(f * a * (-(re * (i * i))) == -(f * a * i * i * re)) by {
        mul_eq(f * a, -(re * (i * i)), f * a, -(i * i * re));
        dist_neg_left(f * a, i * i * re);
        mul_assoc(f * a, i, i);
        mul_assoc(f * a, i * i, re);
    }
    assert(f * a * i * (1real - i) == f * a * i - f * a * i * i) by {
        dist_sub_left(f * a * i, 1real, i);
    }
    assert(f * a * i * (1real - i) * d == f * a * i * d - f * a * i * i * d) by {
        mul_eq(f * a * i * (1real - i), d, f * a * i - f * a * i * i, d);
        dist_sub(f * a * i, f * a * i * i, d);
    }
    assert(f * a * i * i * d + f * a * e * i * i * d == f * a * i * d) by {
        mul_eq(f * a * i * d, (1real + e) * i, f * a * i * d, 1real);
        mul_eq(f * a * i * d, (1real + e) * i, f * a * i * d, i + e * i);
        dist_add_left(f * a * i * d, i, e * i);
        mul_swap(f * a * i, d, i);
        mul_swap(f * a * i, d, e);
        mul_swap(f * a, i, e);
        mul_assoc(f * a * i * d, e, i);
        mul_swap(f * a * e * i, d, i);
    }
    assert(f * a * i * i * re == -(f * a * e * i * i * d)) by {
        mul_eq(f * a * i * i, re, f * a * i * i, e * (-d));
        mul_eq(f * a * i * i, e * (-d), f * a * i * i, -(e * d));
        dist_neg_left(f * a * i * i, e * d);
        mul_swap(f * a * i, i, e);
        mul_swap(f * a, i, e);
        mul_assoc(f * a * i * i, e, d);
    }
}

pub(crate) proof fn column_pairing(
    vx: real,
    vy: real,
    vz: real,
    rx: real,
    ry: real,
    rz: real,
    dx: real,
    dy: real,
    dz: real,
    s: real,
    l: real,
)
    ensures
        vx * (dx * s + rx * (s * l)) + vy * (dy * s + ry * (s * l)) + vz * (dz * s + rz * (s * l))
            == vx * s * dx + vy * s * dy + vz * s * dz + (rx * vx + ry * vy + rz * vz) * s * l,
{
    assert(rx * (s * l) == rx * s * l) by {
        mul_assoc(rx, s, l);
    }
    assert(vx * (dx * s + rx * (s * l)) == vx * dx * s + vx * rx * s * l) by {
        mul_eq(vx, dx * s + rx * (s * l), vx, dx * s + rx * s * l);
        dist_add_left(vx, dx * s, rx * s * l);
        mul_assoc(vx, dx, s);
        mul_assoc(vx, rx, s);
        mul_assoc(vx, rx * s, l);
    }
    assert(ry * (s * l) == ry * s * l) by {
        mul_assoc(ry, s, l);
    }
    assert(vy * (dy * s + ry * (s * l)) == vy * dy * s + vy * ry * s * l) by {
        mul_eq(vy, dy * s + ry * (s * l), vy, dy * s + ry * s * l);
        dist_add_left(vy, dy * s, ry * s * l);
        mul_assoc(vy, dy, s);
        mul_assoc(vy, ry, s);
        mul_assoc(vy, ry * s, l);
    }
    assert(rz * (s * l) == rz * s * l) by {
        mul_assoc(rz, s, l);
    }
    assert(vz * (dz * s + rz * (s * l)) == vz * dz * s + vz * rz * s * l) by {
        mul_eq(vz, dz * s + rz * (s * l), vz, dz * s + rz * s * l);
        dist_add_left(vz, dz * s, rz * s * l);
        mul_assoc(vz, dz, s);
        mul_assoc(vz, rz, s);
        mul_assoc(vz, rz * s, l);
    }
    assert(vx * s * dx == vx * dx * s) by {
        mul_swap(vx, s, dx);
    }
    assert(vy * s * dy == vy * dy * s) by {
        mul_swap(vy, s, dy);
    }
    assert(vz * s * dz == vz * dz * s) by {
        mul_swap(vz, s, dz);
    }
    assert(rx * vx == vx * rx) by {
        mul_comm(rx, vx);
    }
    assert(ry * vy == vy * ry) by {
        mul_comm(ry, vy);
    }
    assert(rz * vz == vz * rz) by {
        mul_comm(rz, vz);
    }
    assert((rx * vx + ry * vy + rz * vz) * s == vx * rx * s + vy * ry * s + vz * rz * s) by {
        mul_eq(rx * vx + ry * vy + rz * vz, s, vx * rx + vy * ry + vz * rz, s);
        dist_add(vx * rx + vy * ry, vz * rz, s);
        dist_add(vx * rx, vy * ry, s);
    }
    assert((rx * vx + ry * vy + rz * vz) * s * l
        == vx * rx * s * l + vy * ry * s * l + vz * rz * s * l) by {
        mul_eq((rx * vx + ry * vy + rz * vz) * s, l, vx * rx * s + vy * ry * s + vz * rz * s, l);
        dist_add(vx * rx * s + vy * ry * s, vz * rz * s, l);
        dist_add(vx * rx * s, vy * ry * s, l);
    }
}

pub(crate) proof fn sum_dot(
    ax: real,
    ay: real,
    az: real,
    bx: real,
    by: real,
    bz: real,
    dx: real,
    dy: real,
    dz: real,
)
    ensures
        (ax + bx) * dx + (ay + by) * dy + (az + bz) * dz
            == ax * dx + ay * dy + az * dz + (bx * dx + by * dy + bz * dz),
{
    assert((ax + bx) * dx == ax * dx + bx * dx) by {
        dist_add(ax, bx, dx);
    }
    assert((ay + by) * dy == ay * dy + by * dy) by {
        dist_add(ay, by, dy);
    }
    assert((az + bz) * dz == az * dz + bz * dz) by {
        dist_add(az, bz, dz);
    }
}

pub(crate) proof fn dot_comm(ax: real, ay: real, az: real, bx: real, by: real, bz: real)
    ensures
        ax * bx + ay * by + az * bz == bx * ax + by * ay + bz * az,
{
    assert(bx * ax == ax * bx) by {
        mul_comm(bx, ax);
    }
    assert(by * ay == ay * by) by {
        mul_comm(by, ay);
    }
    assert(bz * az == az * bz) by {
        mul_comm(bz, az);
    }
}

pub(crate) proof fn pull2_adjoint(
    v00: real,
    v01: real,
    v11: real,
    jx0: real,
    jy0: real,
    jx1: real,
    jy1: real,
    jx2: real,
    jy2: real,
    c00: real,
    c01: real,
    c02: real,
    c11: real,
    c12: real,
    c22: real,
)
    ensures
        v00 * (jx0 * (c00 * jx0 + c01 * jx1 + c02 * jx2) + jx1 * (c01 * jx0 + c11 * jx1 + c12 * jx2)
            + jx2 * (c02 * jx0 + c12 * jx1 + c22 * jx2))
            + 2real * v01 * (jx0 * (c00 * jy0 + c01 * jy1 + c02 * jy2)
            + jx1 * (c01 * jy0 + c11 * jy1 + c12 * jy2) + jx2 * (c02 * jy0 + c12 * jy1 + c22 * jy2))
            + v11 * (jy0 * (c00 * jy0 + c01 * jy1 + c02 * jy2)
            + jy1 * (c01 * jy0 + c11 * jy1 + c12 * jy2) + jy2 * (c02 * jy0 + c12 * jy1 + c22 * jy2))
            == (jx0 * (v00 * jx0 + v01 * jy0) + jy0 * (v01 * jx0 + v11 * jy0)) * c00
            + (jx1 * (v00 * jx1 + v01 * jy1) + jy1 * (v01 * jx1 + v11 * jy1)) * c11
            + (jx2 * (v00 * jx2 + v01 * jy2) + jy2 * (v01 * jx2 + v11 * jy2)) * c22
            + 2real * ((jx0 * (v00 * jx1 + v01 * jy1) + jy0 * (v01 * jx1 + v11 * jy1)) * c01)
            + 2real * ((jx0 * (v00 * jx2 + v01 * jy2) + jy0 * (v01 * jx2 + v11 * jy2)) * c02)
            + 2real * ((jx1 * (v00 * jx2 + v01 * jy2) + jy1 * (v01 * jx2 + v11 * jy2)) * c12),
{
    assert(c00 * jx0 == jx0 * c00) by {
        mul_comm(c00, jx0);
    }
    assert(c01 * jx1 == jx1 * c01) by {
        mul_comm(c01, jx1);
    }
    assert(c02 * jx2 == jx2 * c02) by {
        mul_comm(c02, jx2);
    }
    assert(jx0 * (c00 * jx0 + c01 * jx1 + c02 * jx2)
        == jx0 * jx0 * c00 + jx0 * jx1 * c01 + jx0 * jx2 * c02) by {
        mul_eq(jx0, c00 * jx0 + c01 * jx1 + c02 * jx2, jx0, jx0 * c00 + jx1 * c01 + jx2 * c02);
        dist_add_left(jx0, jx0 * c00 + jx1 * c01, jx2 * c02);
        dist_add_left(jx0, jx0 * c00, jx1 * c01);
        mul_assoc(jx0, jx0, c00);
        mul_assoc(jx0, jx1, c01);
        mul_assoc(jx0, jx2, c02);
    }
    assert(c01 * jx0 == jx0 * c01) by {
        mul_comm(c01, jx0);
    }
    assert(c11 * jx1 == jx1 * c11) by {
        mul_comm(c11, jx1);
    }
    assert(c12 * jx2 == jx2 * c12) by {
        mul_comm(c12, jx2);
    }
    assert(jx1 * (c01 * jx0 + c11 * jx1 + c12 * jx2)
        == jx0 * jx1 * c01 + jx1 * jx1 * c11 + jx1 * jx2 * c12) by {
        mul_eq(jx1, c01 * jx0 + c11 * jx1 + c12 * jx2, jx1, jx0 * c01 + jx1 * c11 + jx2 * c12);
        dist_add_left(jx1, jx0 * c01 + jx1 * c11, jx2 * c12);
        dist_add_left(jx1, jx0 * c01, jx1 * c11);
        mul_comm(jx1, jx0);
        mul_assoc(jx1, jx0, c01);
        mul_assoc(jx1, jx1, c11);
        mul_assoc(jx1, jx2, c12);
    }
    assert(c02 * jx0 == jx0 * c02) by {
        mul_comm(c02, jx0);
    }
    assert(c12 * jx1 == jx1 * c12) by {
        mul_comm(c12, jx1);
    }
    assert(c22 * jx2 == jx2 * c22) by {
        mul_comm(c22, jx2);
    }
    assert(jx2 * (c02 * jx0 + c12 * jx1 + c22 * jx2)
        == jx0 * jx2 * c02 + jx1 * jx2 * c12 + jx2 * jx2 * c22) by {
        mul_eq(jx2, c02 * jx0 + c12 * jx1 + c22 * jx2, jx2, jx0 * c02 + jx1 * c12 + jx2 * c22);
        dist_add_left(jx2, jx0 * c02 + jx1 * c12, jx2 * c22);
        dist_add_left(jx2, jx0 * c02, jx1 * c12);
        mul_comm(jx2, jx0);
        mul_assoc(jx2, jx0, c02);
        mul_comm(jx2, jx1);
        mul_assoc(jx2, jx1, c12);
        mul_assoc(jx2, jx2, c22);
    }
    assert(v00 * (jx0 * (c00 * jx0 + c01 * jx1 + c02 * jx2)
        + jx1 * (c01 * jx0 + c11 * jx1 + c12 * jx2) + jx2 * (c02 * jx0 + c12 * jx1 + c22 * jx2))
        == v00 * jx0 * jx0 * c00 + 2real * (v00 * jx0 * jx1 * c01) + 2real * (v00 * jx0 * jx2 * c02)
        + v00 * jx1 * jx1 * c11 + 2real * (v00 * jx1 * jx2 * c12) + v00 * jx2 * jx2 * c22) by {
        mul_eq(v00, jx0 * (c00 * jx0 + c01 * jx1 + c02 * jx2)
            + jx1 * (c01 * jx0 + c11 * jx1 + c12 * jx2) + jx2 * (c02 * jx0 + c12 * jx1 + c22 * jx2),
            v00, jx0 * jx0 * c00 + 2real * (jx0 * jx1 * c01) + 2real * (jx0 * jx2 * c02)
            + jx1 * jx1 * c11 + 2real * (jx1 * jx2 * c12) + jx2 * jx2 * c22);
        dist_add_left(v00, jx0 * jx0 * c00 + 2real * (jx0 * jx1 * c01) + 2real * (jx0 * jx2 * c02)
            + jx1 * jx1 * c11 + 2real * (jx1 * jx2 * c12), jx2 * jx2 * c22);
        dist_add_left(v00, jx0 * jx0 * c00 + 2real * (jx0 * jx1 * c01) + 2real * (jx0 * jx2 * c02)
            + jx1 * jx1 * c11, 2real * (jx1 * jx2 * c12));
        dist_add_left(v00, jx0 * jx0 * c00 + 2real * (jx0 * jx1 * c01) + 2real * (jx0 * jx2 * c02),
            jx1 * jx1 * c11);
        dist_add_left(v00, jx0 * jx0 * c00 + 2real * (jx0 * jx1 * c01), 2real * (jx0 * jx2 * c02));
        dist_add_left(v00, jx0 * jx0 * c00, 2real * (jx0 * jx1 * c01));
        mul_assoc(v00, jx0, jx0);
        mul_assoc(v00, jx0 * jx0, c00);
        mul_front(v00, 2real, jx0 * jx1 * c01);
        mul_assoc(v00, jx0, jx1);
        mul_assoc(v00, jx0 * jx1, c01);
        mul_front(v00, 2real, jx0 * jx2 * c02);
        mul_assoc(v00, jx0, jx2);
        mul_assoc(v00, jx0 * jx2, c02);
        mul_assoc(v00, jx1, jx1);
        mul_assoc(v00, jx1 * jx1, c11);
        mul_front(v00, 2real, jx1 * jx2 * c12);
        mul_assoc(v00, jx1, jx2);
        mul_assoc(v00, jx1 * jx2, c12);
        mul_assoc(v00, jx2, jx2);
        mul_assoc(v00, jx2 * jx2, c22);
    }
    assert(c00 * jy0 == jy0 * c00) by {
        mul_comm(c00, jy0);
    }
    assert(c01 * jy1 == jy1 * c01) by {
        mul_comm(c01, jy1);
    }
    assert(c02 * jy2 == jy2 * c02) by {
        mul_comm(c02, jy2);
    }
    assert(jx0 * (c00 * jy0 + c01 * jy1 + c02 * jy2)
        == jx0 * jy0 * c00 + jx0 * jy1 * c01 + jx0 * jy2 * c02) by {
        mul_eq(jx0, c00 * jy0 + c01 * jy1 + c02 * jy2, jx0, jy0 * c00 + jy1 * c01 + jy2 * c02);
        dist_add_left(jx0, jy0 * c00 + jy1 * c01, jy2 * c02);
        dist_add_left(jx0, jy0 * c00, jy1 * c01);
        mul_assoc(jx0, jy0, c00);
        mul_assoc(jx0, jy1, c01);
        mul_assoc(jx0, jy2, c02);
    }
    assert(c01 * jy0 == jy0 * c01) by {
        mul_comm(c01, jy0);
    }
    assert(c11 * jy1 == jy1 * c11) by {
        mul_comm(c11, jy1);
    }
    assert(c12 * jy2 == jy2 * c12) by {
        mul_comm(c12, jy2);
    }
    assert(jx1 * (c01 * jy0 + c11 * jy1 + c12 * jy2)
        == jy0 * jx1 * c01 + jx1 * jy1 * c11 + jx1 * jy2 * c12) by {
        mul_eq(jx1, c01 * jy0 + c11 * jy1 + c12 * jy2, jx1, jy0 * c01 + jy1 * c11 + jy2 * c12);
        dist_add_left(jx1, jy0 * c01 + jy1 * c11, jy2 * c12);
        dist_add_left(jx1, jy0 * c01, jy1 * c11);
        mul_comm(jx1, jy0);
        mul_assoc(jx1, jy0, c01);
        mul_assoc(jx1, jy1, c11);
        mul_assoc(jx1, jy2, c12);
    }
    assert(c02 * jy0 == jy0 * c02) by {
        mul_comm(c02, jy0);
    }
    assert(c12 * jy1 == jy1 * c12) by {
        mul_comm(c12, jy1);
    }
    assert(c22 * jy2 == jy2 * c22) by {
        mul_comm(c22, jy2);
    }
    assert(jx2 * (c02 * jy0 + c12 * jy1 + c22 * jy2)
        == jy0 * jx2 * c02 + jy1 * jx2 * c12 + jx2 * jy2 * c22) by {
        mul_eq(jx2, c02 * jy0 + c12 * jy1 + c22 * jy2, jx2, jy0 * c02 + jy1 * c12 + jy2 * c22);
        dist_add_left(jx2, jy0 * c02 + jy1 * c12, jy2 * c22);
        dist_add_left(jx2, jy0 * c02, jy1 * c12);
        mul_comm(jx2, jy0);
        mul_assoc(jx2, jy0, c02);
        mul_comm(jx2, jy1);
        mul_assoc(jx2, jy1, c12);
        mul_assoc(jx2, jy2, c22);
    }
    assert(2real * v01 * (jx0 * (c00 * jy0 + c01 * jy1 + c02 * jy2)
        + jx1 * (c01 * jy0 + c11 * jy1 + c12 * jy2) + jx2 * (c02 * jy0 + c12 * jy1 + c22 * jy2))
        == 2real * (v01 * jx0 * jy0 * c00) + 2real * (v01 * jx0 * jy1 * c01)
        + 2real * (v01 * jx0 * jy2 * c02) + 2real * (v01 * jy0 * jx1 * c01)
        + 2real * (v01 * jy0 * jx2 * c02) + 2real * (v01 * jx1 * jy1 * c11)
        + 2real * (v01 * jx1 * jy2 * c12) + 2real * (v01 * jy1 * jx2 * c12)
        + 2real * (v01 * jx2 * jy2 * c22)) by {
        mul_eq(2real * v01, jx0 * (c00 * jy0 + c01 * jy1 + c02 * jy2)
            + jx1 * (c01 * jy0 + c11 * jy1 + c12 * jy2) + jx2 * (c02 * jy0 + c12 * jy1 + c22 * jy2),
            2real * v01, jx0 * jy0 * c00 + jx0 * jy1 * c01 + jx0 * jy2 * c02 + jy0 * jx1 * c01
            + jy0 * jx2 * c02 + jx1 * jy1 * c11 + jx1 * jy2 * c12 + jy1 * jx2 * c12
            + jx2 * jy2 * c22);
        mul_assoc(2real, v01, jx0 * jy0 * c00 + jx0 * jy1 * c01 + jx0 * jy2 * c02 + jy0 * jx1 * c01
            + jy0 * jx2 * c02 + jx1 * jy1 * c11 + jx1 * jy2 * c12 + jy1 * jx2 * c12
            + jx2 * jy2 * c22);
        dist_add_left(v01, jx0 * jy0 * c00 + jx0 * jy1 * c01 + jx0 * jy2 * c02 + jy0 * jx1 * c01
            + jy0 * jx2 * c02 + jx1 * jy1 * c11 + jx1 * jy2 * c12 + jy1 * jx2 * c12,
            jx2 * jy2 * c22);
        dist_add_left(v01, jx0 * jy0 * c00 + jx0 * jy1 * c01 + jx0 * jy2 * c02 + jy0 * jx1 * c01
            + jy0 * jx2 * c02 + jx1 * jy1 * c11 + jx1 * jy2 * c12, jy1 * jx2 * c12);
        dist_add_left(v01, jx0 * jy0 * c00 + jx0 * jy1 * c01 + jx0 * jy2 * c02 + jy0 * jx1 * c01
            + jy0 * jx2 * c02 + jx1 * jy1 * c11, jx1 * jy2 * c12);
        dist_add_left(v01, jx0 * jy0 * c00 + jx0 * jy1 * c01 + jx0 * jy2 * c02 + jy0 * jx1 * c01
            + jy0 * jx2 * c02, jx1 * jy1 * c11);
        dist_add_left(v01, jx0 * jy0 * c00 + jx0 * jy1 * c01 + jx0 * jy2 * c02 + jy0 * jx1 * c01,
            jy0 * jx2 * c02);
        dist_add_left(v01, jx0 * jy0 * c00 + jx0 * jy1 * c01 + jx0 * jy2 * c02, jy0 * jx1 * c01);
        dist_add_left(v01, jx0 * jy0 * c00 + jx0 * jy1 * c01, jx0 * jy2 * c02);
        dist_add_left(v01, jx0 * jy0 * c00, jx0 * jy1 * c01);
        mul_assoc(v01, jx0, jy0);
        mul_assoc(v01, jx0 * jy0, c00);
        mul_assoc(v01, jx0, jy1);
        mul_assoc(v01, jx0 * jy1, c01);
        mul_assoc(v01, jx0, jy2);
        mul_assoc(v01, jx0 * jy2, c02);
        mul_assoc(v01, jy0, jx1);
        mul_assoc(v01, jy0 * jx1, c01);
        mul_assoc(v01, jy0, jx2);
        mul_assoc(v01, jy0 * jx2, c02);
        mul_assoc(v01, jx1, jy1);
        mul_assoc(v01, jx1 * jy1, c11);
        mul_assoc(v01, jx1, jy2);
        mul_assoc(v01, jx1 * jy2, c12);
        mul_assoc(v01, jy1, jx2);
        mul_assoc(v01, jy1 * jx2, c12);
        mul_assoc(v01, jx2, jy2);
        mul_assoc(v01, jx2 * jy2, c22);
    }
    assert(jy0 * (c00 * jy0 + c01 * jy1 + c02 * jy2)
        == jy0 * jy0 * c00 + jy0 * jy1 * c01 + jy0 * jy2 * c02) by {
        mul_eq(jy0, c00 * jy0 + c01 * jy1 + c02 * jy2, jy0, jy0 * c00 + jy1 * c01 + jy2 * c02);
        dist_add_left(jy0, jy0 * c00 + jy1 * c01, jy2 * c02);
        dist_add_left(jy0, jy0 * c00, jy1 * c01);
        mul_assoc(jy0, jy0, c00);
        mul_assoc(jy0, jy1, c01);
        mul_assoc(jy0, jy2, c02);
    }
    assert(jy1 * (c01 * jy0 + c11 * jy1 + c12 * jy2)
        == jy0 * jy1 * c01 + jy1 * jy1 * c11 + jy1 * jy2 * c12) by {
        mul_eq(jy1, c01 * jy0 + c11 * jy1 + c12 * jy2, jy1, jy0 * c01 + jy1 * c11 + jy2 * c12);
        dist_add_left(jy1, jy0 * c01 + jy1 * c11, jy2 * c12);
        dist_add_left(jy1, jy0 * c01, jy1 * c11);
        mul_comm(jy1, jy0);
        mul_assoc(jy1, jy0, c01);
        mul_assoc(jy1, jy1, c11);
        mul_assoc(jy1, jy2, c12);
    }
    assert(jy2 * (c02 * jy0 + c12 * jy1 + c22 * jy2)
        == jy0 * jy2 * c02 + jy1 * jy2 * c12 + jy2 * jy2 * c22) by {
        mul_eq(jy2, c02 * jy0 + c12 * jy1 + c22 * jy2, jy2, jy0 * c02 + jy1 * c12 + jy2 * c22);
        dist_add_left(jy2, jy0 * c02 + jy1 * c12, jy2 * c22);
        dist_add_left(jy2, jy0 * c02, jy1 * c12);
        mul_comm(jy2, jy0);
        mul_assoc(jy2, jy0, c02);
        mul_comm(jy2, jy1);
        mul_assoc(jy2, jy1, c12);
        mul_assoc(jy2, jy2, c22);
    }
    assert(v11 * (jy0 * (c00 * jy0 + c01 * jy1 + c02 * jy2)
        + jy1 * (c01 * jy0 + c11 * jy1 + c12 * jy2) + jy2 * (c02 * jy0 + c12 * jy1 + c22 * jy2))
        == v11 * jy0 * jy0 * c00 + 2real * (v11 * jy0 * jy1 * c01) + 2real * (v11 * jy0 * jy2 * c02)
        + v11 * jy1 * jy1 * c11 + 2real * (v11 * jy1 * jy2 * c12) + v11 * jy2 * jy2 * c22) by {
        mul_eq(v11, jy0 * (c00 * jy0 + c01 * jy1 + c02 * jy2)
            + jy1 * (c01 * jy0 + c11 * jy1 + c12 * jy2) + jy2 * (c02 * jy0 + c12 * jy1 + c22 * jy2),
            v11, jy0 * jy0 * c00 + 2real * (jy0 * jy1 * c01) + 2real * (jy0 * jy2 * c02)
            + jy1 * jy1 * c11 + 2real * (jy1 * jy2 * c12) + jy2 * jy2 * c22);
        dist_add_left(v11, jy0 * jy0 * c00 + 2real * (jy0 * jy1 * c01) + 2real * (jy0 * jy2 * c02)
            + jy1 * jy1 * c11 + 2real * (jy1 * jy2 * c12), jy2 * jy2 * c22);
        dist_add_left(v11, jy0 * jy0 * c00 + 2real * (jy0 * jy1 * c01) + 2real * (jy0 * jy2 * c02)
            + jy1 * jy1 * c11, 2real * (jy1 * jy2 * c12));
        dist_add_left(v11, jy0 * jy0 * c00 + 2real * (jy0 * jy1 * c01) + 2real * (jy0 * jy2 * c02),
            jy1 * jy1 * c11);
        dist_add_left(v11, jy0 * jy0 * c00 + 2real * (jy0 * jy1 * c01), 2real * (jy0 * jy2 * c02));
        dist_add_left(v11, jy0 * jy0 * c00, 2real * (jy0 * jy1 * c01));
        mul_assoc(v11, jy0, jy0);
        mul_assoc(v11, jy0 * jy0, c00);
        mul_front(v11, 2real, jy0 * jy1 * c01);
        mul_assoc(v11, jy0, jy1);
        mul_assoc(v11, jy0 * jy1, c01);
        mul_front(v11, 2real, jy0 * jy2 * c02);
        mul_assoc(v11, jy0, jy2);
        mul_assoc(v11, jy0 * jy2, c02);
        mul_assoc(v11, jy1, jy1);
        mul_assoc(v11, jy1 * jy1, c11);
        mul_front(v11, 2real, jy1 * jy2 * c12);
        mul_assoc(v11, jy1, jy2);
        mul_assoc(v11, jy1 * jy2, c12);
        mul_assoc(v11, jy2, jy2);
        mul_assoc(v11, jy2 * jy2, c22);
    }
    assert(jx0 * (v00 * jx0 + v01 * jy0) == v00 * jx0 * jx0 + v01 * jx0 * jy0) by {
        dist_add_left(jx0, v00 * jx0, v01 * jy0);
        mul_comm(jx0, v00);
        mul_assoc(jx0, v00, jx0);
        mul_comm(jx0, v01);
        mul_assoc(jx0, v01, jy0);
    }
    assert(jy0 * (v01 * jx0 + v11 * jy0) == v01 * jx0 * jy0 + v11 * jy0 * jy0) by {
        dist_add_left(jy0, v01 * jx0, v11 * jy0);
        mul_comm(jy0, v01);
        mul_assoc(jy0, v01, jx0);
        mul_swap(v01, jy0, jx0);
        mul_comm(jy0, v11);
        mul_assoc(jy0, v11, jy0);
    }
    assert((jx0 * (v00 * jx0 + v01 * jy0) + jy0 * (v01 * jx0 + v11 * jy0)) * c00
        == v00 * jx0 * jx0 * c00 + 2real * (v01 * jx0 * jy0 * c00) + v11 * jy0 * jy0 * c00) by {
        mul_eq(jx0 * (v00 * jx0 + v01 * jy0) + jy0 * (v01 * jx0 + v11 * jy0), c00,
            v00 * jx0 * jx0 + 2real * (v01 * jx0 * jy0) + v11 * jy0 * jy0, c00);
        dist_add(v00 * jx0 * jx0 + 2real * (v01 * jx0 * jy0), v11 * jy0 * jy0, c00);
        dist_add(v00 * jx0 * jx0, 2real * (v01 * jx0 * jy0), c00);
        mul_assoc(2real, v01 * jx0 * jy0, c00);
    }
    assert(jx1 * (v00 * jx1 + v01 * jy1) == v00 * jx1 * jx1 + v01 * jx1 * jy1) by {
        dist_add_left(jx1, v00 * jx1, v01 * jy1);
        mul_comm(jx1, v00);
        mul_assoc(jx1, v00, jx1);
        mul_comm(jx1, v01);
        mul_assoc(jx1, v01, jy1);
    }
    assert(jy1 * (v01 * jx1 + v11 * jy1) == v01 * jx1 * jy1 + v11 * jy1 * jy1) by {
        dist_add_left(jy1, v01 * jx1, v11 * jy1);
        mul_comm(jy1, v01);
        mul_assoc(jy1, v01, jx1);
        mul_swap(v01, jy1, jx1);
        mul_comm(jy1, v11);
        mul_assoc(jy1, v11, jy1);
    }
    assert((jx1 * (v00 * jx1 + v01 * jy1) + jy1 * (v01 * jx1 + v11 * jy1)) * c11
        == v00 * jx1 * jx1 * c11 + 2real * (v01 * jx1 * jy1 * c11) + v11 * jy1 * jy1 * c11) by {
        mul_eq(jx1 * (v00 * jx1 + v01 * jy1) + jy1 * (v01 * jx1 + v11 * jy1), c11,
            v00 * jx1 * jx1 + 2real * (v01 * jx1 * jy1) + v11 * jy1 * jy1, c11);
        dist_add(v00 * jx1 * jx1 + 2real * (v01 * jx1 * jy1), v11 * jy1 * jy1, c11);
        dist_add(v00 * jx1 * jx1, 2real * (v01 * jx1 * jy1), c11);
        mul_assoc(2real, v01 * jx1 * jy1, c11);
    }
    assert(jx2 * (v00 * jx2 + v01 * jy2) == v00 * jx2 * jx2 + v01 * jx2 * jy2) by {
        dist_add_left(jx2, v00 * jx2, v01 * jy2);
        mul_comm(jx2, v00);
        mul_assoc(jx2, v00, jx2);
        mul_comm(jx2, v01);
        mul_assoc(jx2, v01, jy2);
    }
    assert(jy2 * (v01 * jx2 + v11 * jy2) == v01 * jx2 * jy2 + v11 * jy2 * jy2) by {
        dist_add_left(jy2, v01 * jx2, v11 * jy2);
        mul_comm(jy2, v01);
        mul_assoc(jy2, v01, jx2);
        mul_swap(v01, jy2, jx2);
        mul_comm(jy2, v11);
        mul_assoc(jy2, v11, jy2);
    }
    assert((jx2 * (v00 * jx2 + v01 * jy2) + jy2 * (v01 * jx2 + v11 * jy2)) * c22
        == v00 * jx2 * jx2 * c22 + 2real * (v01 * jx2 * jy2 * c22) + v11 * jy2 * jy2 * c22) by {
        mul_eq(jx2 * (v00 * jx2 + v01 * jy2) + jy2 * (v01 * jx2 + v11 * jy2), c22,
            v00 * jx2 * jx2 + 2real * (v01 * jx2 * jy2) + v11 * jy2 * jy2, c22);
        dist_add(v00 * jx2 * jx2 + 2real * (v01 * jx2 * jy2), v11 * jy2 * jy2, c22);
        dist_add(v00 * jx2 * jx2, 2real * (v01 * jx2 * jy2), c22);
        mul_assoc(2real, v01 * jx2 * jy2, c22);
    }
    assert(jx0 * (v00 * jx1 + v01 * jy1) == v00 * jx0 * jx1 + v01 * jx0 * jy1) by {
        dist_add_left(jx0, v00 * jx1, v01 * jy1);
        mul_comm(jx0, v00);
        mul_assoc(jx0, v00, jx1);
        mul_comm(jx0, v01);
        mul_assoc(jx0, v01, jy1);
    }
    assert(jy0 * (v01 * jx1 + v11 * jy1) == v01 * jy0 * jx1 + v11 * jy0 * jy1) by {
        dist_add_left(jy0, v01 * jx1, v11 * jy1);
        mul_comm(jy0, v01);
        mul_assoc(jy0, v01, jx1);
        mul_comm(jy0, v11);
        mul_assoc(jy0, v11, jy1);
    }
    assert((jx0 * (v00 * jx1 + v01 * jy1) + jy0 * (v01 * jx1 + v11 * jy1)) * c01
        == v00 * jx0 * jx1 * c01 + v01 * jx0 * jy1 * c01 + v01 * jy0 * jx1 * c01
        + v11 * jy0 * jy1 * c01) by {
        mul_eq(jx0 * (v00 * jx1 + v01 * jy1) + jy0 * (v01 * jx1 + v11 * jy1), c01,
            v00 * jx0 * jx1 + v01 * jx0 * jy1 + v01 * jy0 * jx1 + v11 * jy0 * jy1, c01);
        dist_add(v00 * jx0 * jx1 + v01 * jx0 * jy1 + v01 * jy0 * jx1, v11 * jy0 * jy1, c01);
        dist_add(v00 * jx0 * jx1 + v01 * jx0 * jy1, v01 * jy0 * jx1, c01);
        dist_add(v00 * jx0 * jx1, v01 * jx0 * jy1, c01);
    }
    assert(jx0 * (v00 * jx2 + v01 * jy2) == v00 * jx0 * jx2 + v01 * jx0 * jy2) by {
        dist_add_left(jx0, v00 * jx2, v01 * jy2);
        mul_comm(jx0, v00);
        mul_assoc(jx0, v00, jx2);
        mul_comm(jx0, v01);
        mul_assoc(jx0, v01, jy2);
    }
    assert(jy0 * (v01 * jx2 + v11 * jy2) == v01 * jy0 * jx2 + v11 * jy0 * jy2) by {
        dist_add_left(jy0, v01 * jx2, v11 * jy2);
        mul_comm(jy0, v01);
        mul_assoc(jy0, v01, jx2);
        mul_comm(jy0, v11);
        mul_assoc(jy0, v11, jy2);
    }
    assert((jx0 * (v00 * jx2 + v01 * jy2) + jy0 * (v01 * jx2 + v11 * jy2)) * c02
        == v00 * jx0 * jx2 * c02 + v01 * jx0 * jy2 * c02 + v01 * jy0 * jx2 * c02
        + v11 * jy0 * jy2 * c02) by {
        mul_eq(jx0 * (v00 * jx2 + v01 * jy2) + jy0 * (v01 * jx2 + v11 * jy2), c02,
            v00 * jx0 * jx2 + v01 * jx0 * jy2 + v01 * jy0 * jx2 + v11 * jy0 * jy2, c02);
        dist_add(v00 * jx0 * jx2 + v01 * jx0 * jy2 + v01 * jy0 * jx2, v11 * jy0 * jy2, c02);
        dist_add(v00 * jx0 * jx2 + v01 * jx0 * jy2, v01 * jy0 * jx2, c02);
        dist_add(v00 * jx0 * jx2, v01 * jx0 * jy2, c02);
    }
    assert(jx1 * (v00 * jx2 + v01 * jy2) == v00 * jx1 * jx2 + v01 * jx1 * jy2) by {
        dist_add_left(jx1, v00 * jx2, v01 * jy2);
        mul_comm(jx1, v00);
        mul_assoc(jx1, v00, jx2);
        mul_comm(jx1, v01);
        mul_assoc(jx1, v01, jy2);
    }
    assert(jy1 * (v01 * jx2 + v11 * jy2) == v01 * jy1 * jx2 + v11 * jy1 * jy2) by {
        dist_add_left(jy1, v01 * jx2, v11 * jy2);
        mul_comm(jy1, v01);
        mul_assoc(jy1, v01, jx2);
        mul_comm(jy1, v11);
        mul_assoc(jy1, v11, jy2);
    }
    assert((jx1 * (v00 * jx2 + v01 * jy2) + jy1 * (v01 * jx2 + v11 * jy2)) * c12
        == v00 * jx1 * jx2 * c12 + v01 * jx1 * jy2 * c12 + v01 * jy1 * jx2 * c12
        + v11 * jy1 * jy2 * c12) by {
        mul_eq(jx1 * (v00 * jx2 + v01 * jy2) + jy1 * (v01 * jx2 + v11 * jy2), c12,
            v00 * jx1 * jx2 + v01 * jx1 * jy2 + v01 * jy1 * jx2 + v11 * jy1 * jy2, c12);
        dist_add(v00 * jx1 * jx2 + v01 * jx1 * jy2 + v01 * jy1 * jx2, v11 * jy1 * jy2, c12);
        dist_add(v00 * jx1 * jx2 + v01 * jx1 * jy2, v01 * jy1 * jx2, c12);
        dist_add(v00 * jx1 * jx2, v01 * jx1 * jy2, c12);
    }
}

pub(crate) proof fn pull3_adjoint(
    s00: real,
    s01: real,
    s02: real,
    s11: real,
    s12: real,
    s22: real,
    r0x: real,
    r0y: real,
    r0z: real,
    r1x: real,
    r1y: real,
    r1z: real,
    r2x: real,
    r2y: real,
    r2z: real,
    c00: real,
    c01: real,
    c02: real,
    c11: real,
    c12: real,
    c22: real,
)
    ensures
        s00 * (r0x * (c00 * r0x + c01 * r1x + c02 * r2x) + r1x * (c01 * r0x + c11 * r1x + c12 * r2x)
            + r2x * (c02 * r0x + c12 * r1x + c22 * r2x))
            + s11 * (r0y * (c00 * r0y + c01 * r1y + c02 * r2y)
            + r1y * (c01 * r0y + c11 * r1y + c12 * r2y) + r2y * (c02 * r0y + c12 * r1y + c22 * r2y))
            + s22 * (r0z * (c00 * r0z + c01 * r1z + c02 * r2z)
            + r1z * (c01 * r0z + c11 * r1z + c12 * r2z) + r2z * (c02 * r0z + c12 * r1z + c22 * r2z))
            + 2real * (s01 * (r0x * (c00 * r0y + c01 * r1y + c02 * r2y)
            + r1x * (c01 * r0y + c11 * r1y + c12 * r2y)
            + r2x * (c02 * r0y + c12 * r1y + c22 * r2y)))
            + 2real * (s02 * (r0x * (c00 * r0z + c01 * r1z + c02 * r2z)
            + r1x * (c01 * r0z + c11 * r1z + c12 * r2z)
            + r2x * (c02 * r0z + c12 * r1z + c22 * r2z)))
            + 2real * (s12 * (r0y * (c00 * r0z + c01 * r1z + c02 * r2z)
            + r1y * (c01 * r0z + c11 * r1z + c12 * r2z)
            + r2y * (c02 * r0z + c12 * r1z + c22 * r2z)))
            == (r0x * (s00 * r0x + s01 * r0y + s02 * r0z)
            + r0y * (s01 * r0x + s11 * r0y + s12 * r0z) + r0z * (s02 * r0x + s12 * r0y + s22 * r0z))
            * c00 + (r1x * (s00 * r1x + s01 * r1y + s02 * r1z)
            + r1y * (s01 * r1x + s11 * r1y + s12 * r1z) + r1z * (s02 * r1x + s12 * r1y + s22 * r1z))
            * c11 + (r2x * (s00 * r2x + s01 * r2y + s02 * r2z)
            + r2y * (s01 * r2x + s11 * r2y + s12 * r2z) + r2z * (s02 * r2x + s12 * r2y + s22 * r2z))
            * c22 + 2real * ((r0x * (s00 * r1x + s01 * r1y + s02 * r1z)
            + r0y * (s01 * r1x + s11 * r1y + s12 * r1z) + r0z * (s02 * r1x + s12 * r1y + s22 * r1z))
            * c01) + 2real * ((r0x * (s00 * r2x + s01 * r2y + s02 * r2z)
            + r0y * (s01 * r2x + s11 * r2y + s12 * r2z) + r0z * (s02 * r2x + s12 * r2y + s22 * r2z))
            * c02) + 2real * ((r1x * (s00 * r2x + s01 * r2y + s02 * r2z)
            + r1y * (s01 * r2x + s11 * r2y + s12 * r2z) + r1z * (s02 * r2x + s12 * r2y + s22 * r2z))
            * c12),
{
    assert(c00 * r0x == r0x * c00) by {
        mul_comm(c00, r0x);
    }
    assert(c01 * r1x == r1x * c01) by {
        mul_comm(c01, r1x);
    }
    assert(c02 * r2x == r2x * c02) by {
        mul_comm(c02, r2x);
    }
    assert(r0x * (c00 * r0x + c01 * r1x + c02 * r2x)
        == r0x * r0x * c00 + r0x * r1x * c01 + r0x * r2x * c02) by {
        mul_eq(r0x, c00 * r0x + c01 * r1x + c02 * r2x, r0x, r0x * c00 + r1x * c01 + r2x * c02);
        dist_add_left(r0x, r0x * c00 + r1x * c01, r2x * c02);
        dist_add_left(r0x, r0x * c00, r1x * c01);
        mul_assoc(r0x, r0x, c00);
        mul_assoc(r0x, r1x, c01);
        mul_assoc(r0x, r2x, c02);
    }
    assert(c01 * r0x == r0x * c01) by {
        mul_comm(c01, r0x);
    }
    assert(c11 * r1x == r1x * c11) by {
        mul_comm(c11, r1x);
    }
    assert(c12 * r2x == r2x * c12) by {
        mul_comm(c12, r2x);
    }
    assert(r1x * (c01 * r0x + c11 * r1x + c12 * r2x)
        == r0x * r1x * c01 + r1x * r1x * c11 + r1x * r2x * c12) by {
        mul_eq(r1x, c01 * r0x + c11 * r1x + c12 * r2x, r1x, r0x * c01 + r1x * c11 + r2x * c12);
        dist_add_left(r1x, r0x * c01 + r1x * c11, r2x * c12);
        dist_add_left(r1x, r0x * c01, r1x * c11);
        mul_comm(r1x, r0x);
        mul_assoc(r1x, r0x, c01);
        mul_assoc(r1x, r1x, c11);
        mul_assoc(r1x, r2x, c12);
    }
    assert(c02 * r0x == r0x * c02) by {
        mul_comm(c02, r0x);
    }
    assert(c12 * r1x == r1x * c12) by {
        mul_comm(c12, r1x);
    }
    assert(c22 * r2x == r2x * c22) by {
        mul_comm(c22, r2x);
    }
    assert(r2x * (c02 * r0x + c12 * r1x + c22 * r2x)
        == r0x * r2x * c02 + r1x * r2x * c12 + r2x * r2x * c22) by {
        mul_eq(r2x, c02 * r0x + c12 * r1x + c22 * r2x, r2x, r0x * c02 + r1x * c12 + r2x * c22);
        dist_add_left(r2x, r0x * c02 + r1x * c12, r2x * c22);
        dist_add_left(r2x, r0x * c02, r1x * c12);
        mul_comm(r2x, r0x);
        mul_assoc(r2x, r0x, c02);
        mul_comm(r2x, r1x);
        mul_assoc(r2x, r1x, c12);
        mul_assoc(r2x, r2x, c22);
    }
    assert(s00 * (r0x * (c00 * r0x + c01 * r1x + c02 * r2x)
        + r1x * (c01 * r0x + c11 * r1x + c12 * r2x) + r2x * (c02 * r0x + c12 * r1x + c22 * r2x))
        == s00 * r0x * r0x * c00 + 2real * (s00 * r0x * r1x * c01) + 2real * (s00 * r0x * r2x * c02)
        + s00 * r1x * r1x * c11 + 2real * (s00 * r1x * r2x * c12) + s00 * r2x * r2x * c22) by {
        mul_eq(s00, r0x * (c00 * r0x + c01 * r1x + c02 * r2x)
            + r1x * (c01 * r0x + c11 * r1x + c12 * r2x) + r2x * (c02 * r0x + c12 * r1x + c22 * r2x),
            s00, r0x * r0x * c00 + 2real * (r0x * r1x * c01) + 2real * (r0x * r2x * c02)
            + r1x * r1x * c11 + 2real * (r1x * r2x * c12) + r2x * r2x * c22);
        dist_add_left(s00, r0x * r0x * c00 + 2real * (r0x * r1x * c01) + 2real * (r0x * r2x * c02)
            + r1x * r1x * c11 + 2real * (r1x * r2x * c12), r2x * r2x * c22);
        dist_add_left(s00, r0x * r0x * c00 + 2real * (r0x * r1x * c01) + 2real * (r0x * r2x * c02)
            + r1x * r1x * c11, 2real * (r1x * r2x * c12));
        dist_add_left(s00, r0x * r0x * c00 + 2real * (r0x * r1x * c01) + 2real * (r0x * r2x * c02),
            r1x * r1x * c11);
        dist_add_left(s00, r0x * r0x * c00 + 2real * (r0x * r1x * c01), 2real * (r0x * r2x * c02));
        dist_add_left(s00, r0x * r0x * c00, 2real * (r0x * r1x * c01));
        mul_assoc(s00, r0x, r0x);
        mul_assoc(s00, r0x * r0x, c00);
        mul_front(s00, 2real, r0x * r1x * c01);
        mul_assoc(s00, r0x, r1x);
        mul_assoc(s00, r0x * r1x, c01);
        mul_front(s00, 2real, r0x * r2x * c02);
        mul_assoc(s00, r0x, r2x);
        mul_assoc(s00, r0x * r2x, c02);
        mul_assoc(s00, r1x, r1x);
        mul_assoc(s00, r1x * r1x, c11);
        mul_front(s00, 2real, r1x * r2x * c12);
        mul_assoc(s00, r1x, r2x);
        mul_assoc(s00, r1x * r2x, c12);
        mul_assoc(s00, r2x, r2x);
        mul_assoc(s00, r2x * r2x, c22);
    }
    assert(c00 * r0y == r0y * c00) by {
        mul_comm(c00, r0y);
    }
    assert(c01 * r1y == r1y * c01) by {
        mul_comm(c01, r1y);
    }
    assert(c02 * r2y == r2y * c02) by {
        mul_comm(c02, r2y);
    }
    assert(r0y * (c00 * r0y + c01 * r1y + c02 * r2y)
        == r0y * r0y * c00 + r0y * r1y * c01 + r0y * r2y * c02) by {
        mul_eq(r0y, c00 * r0y + c01 * r1y + c02 * r2y, r0y, r0y * c00 + r1y * c01 + r2y * c02);
        dist_add_left(r0y, r0y * c00 + r1y * c01, r2y * c02);
        dist_add_left(r0y, r0y * c00, r1y * c01);
        mul_assoc(r0y, r0y, c00);
        mul_assoc(r0y, r1y, c01);
        mul_assoc(r0y, r2y, c02);
    }
    assert(c01 * r0y == r0y * c01) by {
        mul_comm(c01, r0y);
    }
    assert(c11 * r1y == r1y * c11) by {
        mul_comm(c11, r1y);
    }
    assert(c12 * r2y == r2y * c12) by {
        mul_comm(c12, r2y);
    }
    assert(r1y * (c01 * r0y + c11 * r1y + c12 * r2y)
        == r0y * r1y * c01 + r1y * r1y * c11 + r1y * r2y * c12) by {
        mul_eq(r1y, c01 * r0y + c11 * r1y + c12 * r2y, r1y, r0y * c01 + r1y * c11 + r2y * c12);
        dist_add_left(r1y, r0y * c01 + r1y * c11, r2y * c12);
        dist_add_left(r1y, r0y * c01, r1y * c11);
        mul_comm(r1y, r0y);
        mul_assoc(r1y, r0y, c01);
        mul_assoc(r1y, r1y, c11);
        mul_assoc(r1y, r2y, c12);
    }
    assert(c02 * r0y == r0y * c02) by {
        mul_comm(c02, r0y);
    }
    assert(c12 * r1y == r1y * c12) by {
        mul_comm(c12, r1y);
    }
    assert(c22 * r2y == r2y * c22) by {
        mul_comm(c22, r2y);
    }
    assert(r2y * (c02 * r0y + c12 * r1y + c22 * r2y)
        == r0y * r2y * c02 + r1y * r2y * c12 + r2y * r2y * c22) by {
        mul_eq(r2y, c02 * r0y + c12 * r1y + c22 * r2y, r2y, r0y * c02 + r1y * c12 + r2y * c22);
        dist_add_left(r2y, r0y * c02 + r1y * c12, r2y * c22);
        dist_add_left(r2y, r0y * c02, r1y * c12);
        mul_comm(r2y, r0y);
        mul_assoc(r2y, r0y, c02);
        mul_comm(r2y, r1y);
        mul_assoc(r2y, r1y, c12);
        mul_assoc(r2y, r2y, c22);
    }
    assert(s11 * (r0y * (c00 * r0y + c01 * r1y + c02 * r2y)
        + r1y * (c01 * r0y + c11 * r1y + c12 * r2y) + r2y * (c02 * r0y + c12 * r1y + c22 * r2y))
        == s11 * r0y * r0y * c00 + 2real * (s11 * r0y * r1y * c01) + 2real * (s11 * r0y * r2y * c02)
        + s11 * r1y * r1y * c11 + 2real * (s11 * r1y * r2y * c12) + s11 * r2y * r2y * c22) by {
        mul_eq(s11, r0y * (c00 * r0y + c01 * r1y + c02 * r2y)
            + r1y * (c01 * r0y + c11 * r1y + c12 * r2y) + r2y * (c02 * r0y + c12 * r1y + c22 * r2y),
            s11, r0y * r0y * c00 + 2real * (r0y * r1y * c01) + 2real * (r0y * r2y * c02)
            + r1y * r1y * c11 + 2real * (r1y * r2y * c12) + r2y * r2y * c22);
        dist_add_left(s11, r0y * r0y * c00 + 2real * (r0y * r1y * c01) + 2real * (r0y * r2y * c02)
            + r1y * r1y * c11 + 2real * (r1y * r2y * c12), r2y * r2y * c22);
        dist_add_left(s11, r0y * r0y * c00 + 2real * (r0y * r1y * c01) + 2real * (r0y * r2y * c02)
            + r1y * r1y * c11, 2real * (r1y * r2y * c12));
        dist_add_left(s11, r0y * r0y * c00 + 2real * (r0y * r1y * c01) + 2real * (r0y * r2y * c02),
            r1y * r1y * c11);
        dist_add_left(s11, r0y * r0y * c00 + 2real * (r0y * r1y * c01), 2real * (r0y * r2y * c02));
        dist_add_left(s11, r0y * r0y * c00, 2real * (r0y * r1y * c01));
        mul_assoc(s11, r0y, r0y);
        mul_assoc(s11, r0y * r0y, c00);
        mul_front(s11, 2real, r0y * r1y * c01);
        mul_assoc(s11, r0y, r1y);
        mul_assoc(s11, r0y * r1y, c01);
        mul_front(s11, 2real, r0y * r2y * c02);
        mul_assoc(s11, r0y, r2y);
        mul_assoc(s11, r0y * r2y, c02);
        mul_assoc(s11, r1y, r1y);
        mul_assoc(s11, r1y * r1y, c11);
        mul_front(s11, 2real, r1y * r2y * c12);
        mul_assoc(s11, r1y, r2y);
        mul_assoc(s11, r1y * r2y, c12);
        mul_assoc(s11, r2y, r2y);
        mul_assoc(s11, r2y * r2y, c22);
    }
    assert(c00 * r0z == r0z * c00) by {
        mul_comm(c00, r0z);
    }
    assert(c01 * r1z == r1z * c01) by {
        mul_comm(c01, r1z);
    }
    assert(c02 * r2z == r2z * c02) by {
        mul_comm(c02, r2z);
    }
    assert(r0z * (c00 * r0z + c01 * r1z + c02 * r2z)
        == r0z * r0z * c00 + r0z * r1z * c01 + r0z * r2z * c02) by {
        mul_eq(r0z, c00 * r0z + c01 * r1z + c02 * r2z, r0z, r0z * c00 + r1z * c01 + r2z * c02);
        dist_add_left(r0z, r0z * c00 + r1z * c01, r2z * c02);
        dist_add_left(r0z, r0z * c00, r1z * c01);
        mul_assoc(r0z, r0z, c00);
        mul_assoc(r0z, r1z, c01);
        mul_assoc(r0z, r2z, c02);
    }
    assert(c01 * r0z == r0z * c01) by {
        mul_comm(c01, r0z);
    }
    assert(c11 * r1z == r1z * c11) by {
        mul_comm(c11, r1z);
    }
    assert(c12 * r2z == r2z * c12) by {
        mul_comm(c12, r2z);
    }
    assert(r1z * (c01 * r0z + c11 * r1z + c12 * r2z)
        == r0z * r1z * c01 + r1z * r1z * c11 + r1z * r2z * c12) by {
        mul_eq(r1z, c01 * r0z + c11 * r1z + c12 * r2z, r1z, r0z * c01 + r1z * c11 + r2z * c12);
        dist_add_left(r1z, r0z * c01 + r1z * c11, r2z * c12);
        dist_add_left(r1z, r0z * c01, r1z * c11);
        mul_comm(r1z, r0z);
        mul_assoc(r1z, r0z, c01);
        mul_assoc(r1z, r1z, c11);
        mul_assoc(r1z, r2z, c12);
    }
    assert(c02 * r0z == r0z * c02) by {
        mul_comm(c02, r0z);
    }
    assert(c12 * r1z == r1z * c12) by {
        mul_comm(c12, r1z);
    }
    assert(c22 * r2z == r2z * c22) by {
        mul_comm(c22, r2z);
    }
    assert(r2z * (c02 * r0z + c12 * r1z + c22 * r2z)
        == r0z * r2z * c02 + r1z * r2z * c12 + r2z * r2z * c22) by {
        mul_eq(r2z, c02 * r0z + c12 * r1z + c22 * r2z, r2z, r0z * c02 + r1z * c12 + r2z * c22);
        dist_add_left(r2z, r0z * c02 + r1z * c12, r2z * c22);
        dist_add_left(r2z, r0z * c02, r1z * c12);
        mul_comm(r2z, r0z);
        mul_assoc(r2z, r0z, c02);
        mul_comm(r2z, r1z);
        mul_assoc(r2z, r1z, c12);
        mul_assoc(r2z, r2z, c22);
    }
    assert(s22 * (r0z * (c00 * r0z + c01 * r1z + c02 * r2z)
        + r1z * (c01 * r0z + c11 * r1z + c12 * r2z) + r2z * (c02 * r0z + c12 * r1z + c22 * r2z))
        == s22 * r0z * r0z * c00 + 2real * (s22 * r0z * r1z * c01) + 2real * (s22 * r0z * r2z * c02)
        + s22 * r1z * r1z * c11 + 2real * (s22 * r1z * r2z * c12) + s22 * r2z * r2z * c22) by {
        mul_eq(s22, r0z * (c00 * r0z + c01 * r1z + c02 * r2z)
            + r1z * (c01 * r0z + c11 * r1z + c12 * r2z) + r2z * (c02 * r0z + c12 * r1z + c22 * r2z),
            s22, r0z * r0z * c00 + 2real * (r0z * r1z * c01) + 2real * (r0z * r2z * c02)
            + r1z * r1z * c11 + 2real * (r1z * r2z * c12) + r2z * r2z * c22);
        dist_add_left(s22, r0z * r0z * c00 + 2real * (r0z * r1z * c01) + 2real * (r0z * r2z * c02)
            + r1z * r1z * c11 + 2real * (r1z * r2z * c12), r2z * r2z * c22);
        dist_add_left(s22, r0z * r0z * c00 + 2real * (r0z * r1z * c01) + 2real * (r0z * r2z * c02)
            + r1z * r1z * c11, 2real * (r1z * r2z * c12));
        dist_add_left(s22, r0z * r0z * c00 + 2real * (r0z * r1z * c01) + 2real * (r0z * r2z * c02),
            r1z * r1z * c11);
        dist_add_left(s22, r0z * r0z * c00 + 2real * (r0z * r1z * c01), 2real * (r0z * r2z * c02));
        dist_add_left(s22, r0z * r0z * c00, 2real * (r0z * r1z * c01));
        mul_assoc(s22, r0z, r0z);
        mul_assoc(s22, r0z * r0z, c00);
        mul_front(s22, 2real, r0z * r1z * c01);
        mul_assoc(s22, r0z, r1z);
        mul_assoc(s22, r0z * r1z, c01);
        mul_front(s22, 2real, r0z * r2z * c02);
        mul_assoc(s22, r0z, r2z);
        mul_assoc(s22, r0z * r2z, c02);
        mul_assoc(s22, r1z, r1z);
        mul_assoc(s22, r1z * r1z, c11);
        mul_front(s22, 2real, r1z * r2z * c12);
        mul_assoc(s22, r1z, r2z);
        mul_assoc(s22, r1z * r2z, c12);
        mul_assoc(s22, r2z, r2z);
        mul_assoc(s22, r2z * r2z, c22);
    }
    assert(r0x * (c00 * r0y + c01 * r1y + c02 * r2y)
        == r0x * r0y * c00 + r0x * r1y * c01 + r0x * r2y * c02) by {
        mul_eq(r0x, c00 * r0y + c01 * r1y + c02 * r2y, r0x, r0y * c00 + r1y * c01 + r2y * c02);
        dist_add_left(r0x, r0y * c00 + r1y * c01, r2y * c02);
        dist_add_left(r0x, r0y * c00, r1y * c01);
        mul_assoc(r0x, r0y, c00);
        mul_assoc(r0x, r1y, c01);
        mul_assoc(r0x, r2y, c02);
    }
    assert(r1x * (c01 * r0y + c11 * r1y + c12 * r2y)
        == r0y * r1x * c01 + r1x * r1y * c11 + r1x * r2y * c12) by {
        mul_eq(r1x, c01 * r0y + c11 * r1y + c12 * r2y, r1x, r0y * c01 + r1y * c11 + r2y * c12);
        dist_add_left(r1x, r0y * c01 + r1y * c11, r2y * c12);
        dist_add_left(r1x, r0y * c01, r1y * c11);
        mul_comm(r1x, r0y);
        mul_assoc(r1x, r0y, c01);
        mul_assoc(r1x, r1y, c11);
        mul_assoc(r1x, r2y, c12);
    }
    assert(r2x * (c02 * r0y + c12 * r1y + c22 * r2y)
        == r0y * r2x * c02 + r1y * r2x * c12 + r2x * r2y * c22) by {
        mul_eq(r2x, c02 * r0y + c12 * r1y + c22 * r2y, r2x, r0y * c02 + r1y * c12 + r2y * c22);
        dist_add_left(r2x, r0y * c02 + r1y * c12, r2y * c22);
        dist_add_left(r2x, r0y * c02, r1y * c12);
        mul_comm(r2x, r0y);
        mul_assoc(r2x, r0y, c02);
        mul_comm(r2x, r1y);
        mul_assoc(r2x, r1y, c12);
        mul_assoc(r2x, r2y, c22);
    }
    assert(s01 * (r0x * (c00 * r0y + c01 * r1y + c02 * r2y)
        + r1x * (c01 * r0y + c11 * r1y + c12 * r2y) + r2x * (c02 * r0y + c12 * r1y + c22 * r2y))
        == s01 * r0x * r0y * c00 + s01 * r0x * r1y * c01 + s01 * r0x * r2y * c02
        + s01 * r0y * r1x * c01 + s01 * r0y * r2x * c02 + s01 * r1x * r1y * c11
        + s01 * r1x * r2y * c12 + s01 * r1y * r2x * c12 + s01 * r2x * r2y * c22) by {
        mul_eq(s01, r0x * (c00 * r0y + c01 * r1y + c02 * r2y)
            + r1x * (c01 * r0y + c11 * r1y + c12 * r2y) + r2x * (c02 * r0y + c12 * r1y + c22 * r2y),
            s01, r0x * r0y * c00 + r0x * r1y * c01 + r0x * r2y * c02 + r0y * r1x * c01
            + r0y * r2x * c02 + r1x * r1y * c11 + r1x * r2y * c12 + r1y * r2x * c12
            + r2x * r2y * c22);
        dist_add_left(s01, r0x * r0y * c00 + r0x * r1y * c01 + r0x * r2y * c02 + r0y * r1x * c01
            + r0y * r2x * c02 + r1x * r1y * c11 + r1x * r2y * c12 + r1y * r2x * c12,
            r2x * r2y * c22);
        dist_add_left(s01, r0x * r0y * c00 + r0x * r1y * c01 + r0x * r2y * c02 + r0y * r1x * c01
            + r0y * r2x * c02 + r1x * r1y * c11 + r1x * r2y * c12, r1y * r2x * c12);
        dist_add_left(s01, r0x * r0y * c00 + r0x * r1y * c01 + r0x * r2y * c02 + r0y * r1x * c01
            + r0y * r2x * c02 + r1x * r1y * c11, r1x * r2y * c12);
        dist_add_left(s01, r0x * r0y * c00 + r0x * r1y * c01 + r0x * r2y * c02 + r0y * r1x * c01
            + r0y * r2x * c02, r1x * r1y * c11);
        dist_add_left(s01, r0x * r0y * c00 + r0x * r1y * c01 + r0x * r2y * c02 + r0y * r1x * c01,
            r0y * r2x * c02);
        dist_add_left(s01, r0x * r0y * c00 + r0x * r1y * c01 + r0x * r2y * c02, r0y * r1x * c01);
        dist_add_left(s01, r0x * r0y * c00 + r0x * r1y * c01, r0x * r2y * c02);
        dist_add_left(s01, r0x * r0y * c00, r0x * r1y * c01);
        mul_assoc(s01, r0x, r0y);
        mul_assoc(s01, r0x * r0y, c00);
        mul_assoc(s01, r0x, r1y);
        mul_assoc(s01, r0x * r1y, c01);
        mul_assoc(s01, r0x, r2y);
        mul_assoc(s01, r0x * r2y, c02);
        mul_assoc(s01, r0y, r1x);
        mul_assoc(s01, r0y * r1x, c01);
        mul_assoc(s01, r0y, r2x);
        mul_assoc(s01, r0y * r2x, c02);
        mul_assoc(s01, r1x, r1y);
        mul_assoc(s01, r1x * r1y, c11);
        mul_assoc(s01, r1x, r2y);
        mul_assoc(s01, r1x * r2y, c12);
        mul_assoc(s01, r1y, r2x);
        mul_assoc(s01, r1y * r2x, c12);
        mul_assoc(s01, r2x, r2y);
        mul_assoc(s01, r2x * r2y, c22);
    }
    assert(r0x * (c00 * r0z + c01 * r1z + c02 * r2z)
        == r0x * r0z * c00 + r0x * r1z * c01 + r0x * r2z * c02) by {
        mul_eq(r0x, c00 * r0z + c01 * r1z + c02 * r2z, r0x, r0z * c00 + r1z * c01 + r2z * c02);
        dist_add_left(r0x, r0z * c00 + r1z * c01, r2z * c02);
        dist_add_left(r0x, r0z * c00, r1z * c01);
        mul_assoc(r0x, r0z, c00);
        mul_assoc(r0x, r1z, c01);
        mul_assoc(r0x, r2z, c02);
    }
    assert(r1x * (c01 * r0z + c11 * r1z + c12 * r2z)
        == r0z * r1x * c01 + r1x * r1z * c11 + r1x * r2z * c12) by {
        mul_eq(r1x, c01 * r0z + c11 * r1z + c12 * r2z, r1x, r0z * c01 + r1z * c11 + r2z * c12);
        dist_add_left(r1x, r0z * c01 + r1z * c11, r2z * c12);
        dist_add_left(r1x, r0z * c01, r1z * c11);
        mul_comm(r1x, r0z);
        mul_assoc(r1x, r0z, c01);
        mul_assoc(r1x, r1z, c11);
        mul_assoc(r1x, r2z, c12);
    }
    assert(r2x * (c02 * r0z + c12 * r1z + c22 * r2z)
        == r0z * r2x * c02 + r1z * r2x * c12 + r2x * r2z * c22) by {
        mul_eq(r2x, c02 * r0z + c12 * r1z + c22 * r2z, r2x, r0z * c02 + r1z * c12 + r2z * c22);
        dist_add_left(r2x, r0z * c02 + r1z * c12, r2z * c22);
        dist_add_left(r2x, r0z * c02, r1z * c12);
        mul_comm(r2x, r0z);
        mul_assoc(r2x, r0z, c02);
        mul_comm(r2x, r1z);
        mul_assoc(r2x, r1z, c12);
        mul_assoc(r2x, r2z, c22);
    }
    assert(s02 * (r0x * (c00 * r0z + c01 * r1z + c02 * r2z)
        + r1x * (c01 * r0z + c11 * r1z + c12 * r2z) + r2x * (c02 * r0z + c12 * r1z + c22 * r2z))
        == s02 * r0x * r0z * c00 + s02 * r0x * r1z * c01 + s02 * r0x * r2z * c02
        + s02 * r0z * r1x * c01 + s02 * r0z * r2x * c02 + s02 * r1x * r1z * c11
        + s02 * r1x * r2z * c12 + s02 * r1z * r2x * c12 + s02 * r2x * r2z * c22) by {
        mul_eq(s02, r0x * (c00 * r0z + c01 * r1z + c02 * r2z)
            + r1x * (c01 * r0z + c11 * r1z + c12 * r2z) + r2x * (c02 * r0z + c12 * r1z + c22 * r2z),
            s02, r0x * r0z * c00 + r0x * r1z * c01 + r0x * r2z * c02 + r0z * r1x * c01
            + r0z * r2x * c02 + r1x * r1z * c11 + r1x * r2z * c12 + r1z * r2x * c12
            + r2x * r2z * c22);
        dist_add_left(s02, r0x * r0z * c00 + r0x * r1z * c01 + r0x * r2z * c02 + r0z * r1x * c01
            + r0z * r2x * c02 + r1x * r1z * c11 + r1x * r2z * c12 + r1z * r2x * c12,
            r2x * r2z * c22);
        dist_add_left(s02, r0x * r0z * c00 + r0x * r1z * c01 + r0x * r2z * c02 + r0z * r1x * c01
            + r0z * r2x * c02 + r1x * r1z * c11 + r1x * r2z * c12, r1z * r2x * c12);
        dist_add_left(s02, r0x * r0z * c00 + r0x * r1z * c01 + r0x * r2z * c02 + r0z * r1x * c01
            + r0z * r2x * c02 + r1x * r1z * c11, r1x * r2z * c12);
        dist_add_left(s02, r0x * r0z * c00 + r0x * r1z * c01 + r0x * r2z * c02 + r0z * r1x * c01
            + r0z * r2x * c02, r1x * r1z * c11);
        dist_add_left(s02, r0x * r0z * c00 + r0x * r1z * c01 + r0x * r2z * c02 + r0z * r1x * c01,
            r0z * r2x * c02);
        dist_add_left(s02, r0x * r0z * c00 + r0x * r1z * c01 + r0x * r2z * c02, r0z * r1x * c01);
        dist_add_left(s02, r0x * r0z * c00 + r0x * r1z * c01, r0x * r2z * c02);
        dist_add_left(s02, r0x * r0z * c00, r0x * r1z * c01);
        mul_assoc(s02, r0x, r0z);
        mul_assoc(s02, r0x * r0z, c00);
        mul_assoc(s02, r0x, r1z);
        mul_assoc(s02, r0x * r1z, c01);
        mul_assoc(s02, r0x, r2z);
        mul_assoc(s02, r0x * r2z, c02);
        mul_assoc(s02, r0z, r1x);
        mul_assoc(s02, r0z * r1x, c01);
        mul_assoc(s02, r0z, r2x);
        mul_assoc(s02, r0z * r2x, c02);
        mul_assoc(s02, r1x, r1z);
        mul_assoc(s02, r1x * r1z, c11);
        mul_assoc(s02, r1x, r2z);
        mul_assoc(s02, r1x * r2z, c12);
        mul_assoc(s02, r1z, r2x);
        mul_assoc(s02, r1z * r2x, c12);
        mul_assoc(s02, r2x, r2z);
        mul_assoc(s02, r2x * r2z, c22);
    }
    assert(r0y * (c00 * r0z + c01 * r1z + c02 * r2z)
        == r0y * r0z * c00 + r0y * r1z * c01 + r0y * r2z * c02) by {
        mul_eq(r0y, c00 * r0z + c01 * r1z + c02 * r2z, r0y, r0z * c00 + r1z * c01 + r2z * c02);
        dist_add_left(r0y, r0z * c00 + r1z * c01, r2z * c02);
        dist_add_left(r0y, r0z * c00, r1z * c01);
        mul_assoc(r0y, r0z, c00);
        mul_assoc(r0y, r1z, c01);
        mul_assoc(r0y, r2z, c02);
    }
    assert(r1y * (c01 * r0z + c11 * r1z + c12 * r2z)
        == r0z * r1y * c01 + r1y * r1z * c11 + r1y * r2z * c12) by {
        mul_eq(r1y, c01 * r0z + c11 * r1z + c12 * r2z, r1y, r0z * c01 + r1z * c11 + r2z * c12);
        dist_add_left(r1y, r0z * c01 + r1z * c11, r2z * c12);
        dist_add_left(r1y, r0z * c01, r1z * c11);
        mul_comm(r1y, r0z);
        mul_assoc(r1y, r0z, c01);
        mul_assoc(r1y, r1z, c11);
        mul_assoc(r1y, r2z, c12);
    }
    assert(r2y * (c02 * r0z + c12 * r1z + c22 * r2z)
        == r0z * r2y * c02 + r1z * r2y * c12 + r2y * r2z * c22) by {
        mul_eq(r2y, c02 * r0z + c12 * r1z + c22 * r2z, r2y, r0z * c02 + r1z * c12 + r2z * c22);
        dist_add_left(r2y, r0z * c02 + r1z * c12, r2z * c22);
        dist_add_left(r2y, r0z * c02, r1z * c12);
        mul_comm(r2y, r0z);
        mul_assoc(r2y, r0z, c02);
        mul_comm(r2y, r1z);
        mul_assoc(r2y, r1z, c12);
        mul_assoc(r2y, r2z, c22);
    }
    assert(s12 * (r0y * (c00 * r0z + c01 * r1z + c02 * r2z)
        + r1y * (c01 * r0z + c11 * r1z + c12 * r2z) + r2y * (c02 * r0z + c12 * r1z + c22 * r2z))
        == s12 * r0y * r0z * c00 + s12 * r0y * r1z * c01 + s12 * r0y * r2z * c02
        + s12 * r0z * r1y * c01 + s12 * r0z * r2y * c02 + s12 * r1y * r1z * c11
        + s12 * r1y * r2z * c12 + s12 * r1z * r2y * c12 + s12 * r2y * r2z * c22) by {
        mul_eq(s12, r0y * (c00 * r0z + c01 * r1z + c02 * r2z)
            + r1y * (c01 * r0z + c11 * r1z + c12 * r2z) + r2y * (c02 * r0z + c12 * r1z + c22 * r2z),
            s12, r0y * r0z * c00 + r0y * r1z * c01 + r0y * r2z * c02 + r0z * r1y * c01
            + r0z * r2y * c02 + r1y * r1z * c11 + r1y * r2z * c12 + r1z * r2y * c12
            + r2y * r2z * c22);
        dist_add_left(s12, r0y * r0z * c00 + r0y * r1z * c01 + r0y * r2z * c02 + r0z * r1y * c01
            + r0z * r2y * c02 + r1y * r1z * c11 + r1y * r2z * c12 + r1z * r2y * c12,
            r2y * r2z * c22);
        dist_add_left(s12, r0y * r0z * c00 + r0y * r1z * c01 + r0y * r2z * c02 + r0z * r1y * c01
            + r0z * r2y * c02 + r1y * r1z * c11 + r1y * r2z * c12, r1z * r2y * c12);
        dist_add_left(s12, r0y * r0z * c00 + r0y * r1z * c01 + r0y * r2z * c02 + r0z * r1y * c01
            + r0z * r2y * c02 + r1y * r1z * c11, r1y * r2z * c12);
        dist_add_left(s12, r0y * r0z * c00 + r0y * r1z * c01 + r0y * r2z * c02 + r0z * r1y * c01
            + r0z * r2y * c02, r1y * r1z * c11);
        dist_add_left(s12, r0y * r0z * c00 + r0y * r1z * c01 + r0y * r2z * c02 + r0z * r1y * c01,
            r0z * r2y * c02);
        dist_add_left(s12, r0y * r0z * c00 + r0y * r1z * c01 + r0y * r2z * c02, r0z * r1y * c01);
        dist_add_left(s12, r0y * r0z * c00 + r0y * r1z * c01, r0y * r2z * c02);
        dist_add_left(s12, r0y * r0z * c00, r0y * r1z * c01);
        mul_assoc(s12, r0y, r0z);
        mul_assoc(s12, r0y * r0z, c00);
        mul_assoc(s12, r0y, r1z);
        mul_assoc(s12, r0y * r1z, c01);
        mul_assoc(s12, r0y, r2z);
        mul_assoc(s12, r0y * r2z, c02);
        mul_assoc(s12, r0z, r1y);
        mul_assoc(s12, r0z * r1y, c01);
        mul_assoc(s12, r0z, r2y);
        mul_assoc(s12, r0z * r2y, c02);
        mul_assoc(s12, r1y, r1z);
        mul_assoc(s12, r1y * r1z, c11);
        mul_assoc(s12, r1y, r2z);
        mul_assoc(s12, r1y * r2z, c12);
        mul_assoc(s12, r1z, r2y);
        mul_assoc(s12, r1z * r2y, c12);
        mul_assoc(s12, r2y, r2z);
        mul_assoc(s12, r2y * r2z, c22);
    }
    assert(r0x * (s00 * r0x + s01 * r0y + s02 * r0z)
        == s00 * r0x * r0x + s01 * r0x * r0y + s02 * r0x * r0z) by {
        dist_add_left(r0x, s00 * r0x + s01 * r0y, s02 * r0z);
        dist_add_left(r0x, s00 * r0x, s01 * r0y);
        mul_comm(r0x, s00);
        mul_assoc(r0x, s00, r0x);
        mul_comm(r0x, s01);
        mul_assoc(r0x, s01, r0y);
        mul_comm(r0x, s02);
        mul_assoc(r0x, s02, r0z);
    }
    assert(r0y * (s01 * r0x + s11 * r0y + s12 * r0z)
        == s01 * r0x * r0y + s11 * r0y * r0y + s12 * r0y * r0z) by {
        dist_add_left(r0y, s01 * r0x + s11 * r0y, s12 * r0z);
        dist_add_left(r0y, s01 * r0x, s11 * r0y);
        mul_comm(r0y, s01);
        mul_assoc(r0y, s01, r0x);
        mul_swap(s01, r0y, r0x);
        mul_comm(r0y, s11);
        mul_assoc(r0y, s11, r0y);
        mul_comm(r0y, s12);
        mul_assoc(r0y, s12, r0z);
    }
    assert(r0z * (s02 * r0x + s12 * r0y + s22 * r0z)
        == s02 * r0x * r0z + s12 * r0y * r0z + s22 * r0z * r0z) by {
        dist_add_left(r0z, s02 * r0x + s12 * r0y, s22 * r0z);
        dist_add_left(r0z, s02 * r0x, s12 * r0y);
        mul_comm(r0z, s02);
        mul_assoc(r0z, s02, r0x);
        mul_swap(s02, r0z, r0x);
        mul_comm(r0z, s12);
        mul_assoc(r0z, s12, r0y);
        mul_swap(s12, r0z, r0y);
        mul_comm(r0z, s22);
        mul_assoc(r0z, s22, r0z);
    }
    assert((r0x * (s00 * r0x + s01 * r0y + s02 * r0z) + r0y * (s01 * r0x + s11 * r0y + s12 * r0z)
        + r0z * (s02 * r0x + s12 * r0y + s22 * r0z)) * c00
        == s00 * r0x * r0x * c00 + 2real * (s01 * r0x * r0y * c00) + 2real * (s02 * r0x * r0z * c00)
        + s11 * r0y * r0y * c00 + 2real * (s12 * r0y * r0z * c00) + s22 * r0z * r0z * c00) by {
        mul_eq(r0x * (s00 * r0x + s01 * r0y + s02 * r0z) + r0y * (s01 * r0x + s11 * r0y + s12 * r0z)
            + r0z * (s02 * r0x + s12 * r0y + s22 * r0z), c00,
            s00 * r0x * r0x + 2real * (s01 * r0x * r0y) + 2real * (s02 * r0x * r0z)
            + s11 * r0y * r0y + 2real * (s12 * r0y * r0z) + s22 * r0z * r0z, c00);
        dist_add(s00 * r0x * r0x + 2real * (s01 * r0x * r0y) + 2real * (s02 * r0x * r0z)
            + s11 * r0y * r0y + 2real * (s12 * r0y * r0z), s22 * r0z * r0z, c00);
        dist_add(s00 * r0x * r0x + 2real * (s01 * r0x * r0y) + 2real * (s02 * r0x * r0z)
            + s11 * r0y * r0y, 2real * (s12 * r0y * r0z), c00);
        dist_add(s00 * r0x * r0x + 2real * (s01 * r0x * r0y) + 2real * (s02 * r0x * r0z),
            s11 * r0y * r0y, c00);
        dist_add(s00 * r0x * r0x + 2real * (s01 * r0x * r0y), 2real * (s02 * r0x * r0z), c00);
        dist_add(s00 * r0x * r0x, 2real * (s01 * r0x * r0y), c00);
        mul_assoc(2real, s01 * r0x * r0y, c00);
        mul_assoc(2real, s02 * r0x * r0z, c00);
        mul_assoc(2real, s12 * r0y * r0z, c00);
    }
    assert(r1x * (s00 * r1x + s01 * r1y + s02 * r1z)
        == s00 * r1x * r1x + s01 * r1x * r1y + s02 * r1x * r1z) by {
        dist_add_left(r1x, s00 * r1x + s01 * r1y, s02 * r1z);
        dist_add_left(r1x, s00 * r1x, s01 * r1y);
        mul_comm(r1x, s00);
        mul_assoc(r1x, s00, r1x);
        mul_comm(r1x, s01);
        mul_assoc(r1x, s01, r1y);
        mul_comm(r1x, s02);
        mul_assoc(r1x, s02, r1z);
    }
    assert(r1y * (s01 * r1x + s11 * r1y + s12 * r1z)
        == s01 * r1x * r1y + s11 * r1y * r1y + s12 * r1y * r1z) by {
        dist_add_left(r1y, s01 * r1x + s11 * r1y, s12 * r1z);
        dist_add_left(r1y, s01 * r1x, s11 * r1y);
        mul_comm(r1y, s01);
        mul_assoc(r1y, s01, r1x);
        mul_swap(s01, r1y, r1x);
        mul_comm(r1y, s11);
        mul_assoc(r1y, s11, r1y);
        mul_comm(r1y, s12);
        mul_assoc(r1y, s12, r1z);
    }
    assert(r1z * (s02 * r1x + s12 * r1y + s22 * r1z)
        == s02 * r1x * r1z + s12 * r1y * r1z + s22 * r1z * r1z) by {
        dist_add_left(r1z, s02 * r1x + s12 * r1y, s22 * r1z);
        dist_add_left(r1z, s02 * r1x, s12 * r1y);
        mul_comm(r1z, s02);
        mul_assoc(r1z, s02, r1x);
        mul_swap(s02, r1z, r1x);
        mul_comm(r1z, s12);
        mul_assoc(r1z, s12, r1y);
        mul_swap(s12, r1z, r1y);
        mul_comm(r1z, s22);
        mul_assoc(r1z, s22, r1z);
    }
    assert((r1x * (s00 * r1x + s01 * r1y + s02 * r1z) + r1y * (s01 * r1x + s11 * r1y + s12 * r1z)
        + r1z * (s02 * r1x + s12 * r1y + s22 * r1z)) * c11
        == s00 * r1x * r1x * c11 + 2real * (s01 * r1x * r1y * c11) + 2real * (s02 * r1x * r1z * c11)
        + s11 * r1y * r1y * c11 + 2real * (s12 * r1y * r1z * c11) + s22 * r1z * r1z * c11) by {
        mul_eq(r1x * (s00 * r1x + s01 * r1y + s02 * r1z) + r1y * (s01 * r1x + s11 * r1y + s12 * r1z)
            + r1z * (s02 * r1x + s12 * r1y + s22 * r1z), c11,
            s00 * r1x * r1x + 2real * (s01 * r1x * r1y) + 2real * (s02 * r1x * r1z)
            + s11 * r1y * r1y + 2real * (s12 * r1y * r1z) + s22 * r1z * r1z, c11);
        dist_add(s00 * r1x * r1x + 2real * (s01 * r1x * r1y) + 2real * (s02 * r1x * r1z)
            + s11 * r1y * r1y + 2real * (s12 * r1y * r1z), s22 * r1z * r1z, c11);
        dist_add(s00 * r1x * r1x + 2real * (s01 * r1x * r1y) + 2real * (s02 * r1x * r1z)
            + s11 * r1y * r1y, 2real * (s12 * r1y * r1z), c11);
        dist_add(s00 * r1x * r1x + 2real * (s01 * r1x * r1y) + 2real * (s02 * r1x * r1z),
            s11 * r1y * r1y, c11);
        dist_add(s00 * r1x * r1x + 2real * (s01 * r1x * r1y), 2real * (s02 * r1x * r1z), c11);
        dist_add(s00 * r1x * r1x, 2real * (s01 * r1x * r1y), c11);
        mul_assoc(2real, s01 * r1x * r1y, c11);
        mul_assoc(2real, s02 * r1x * r1z, c11);
        mul_assoc(2real, s12 * r1y * r1z, c11);
    }
    assert(r2x * (s00 * r2x + s01 * r2y + s02 * r2z)
        == s00 * r2x * r2x + s01 * r2x * r2y + s02 * r2x * r2z) by {
        dist_add_left(r2x, s00 * r2x + s01 * r2y, s02 * r2z);
        dist_add_left(r2x, s00 * r2x, s01 * r2y);
        mul_comm(r2x, s00);
        mul_assoc(r2x, s00, r2x);
        mul_comm(r2x, s01);
        mul_assoc(r2x, s01, r2y);
        mul_comm(r2x, s02);
        mul_assoc(r2x, s02, r2z);
    }
    assert(r2y * (s01 * r2x + s11 * r2y + s12 * r2z)
        == s01 * r2x * r2y + s11 * r2y * r2y + s12 * r2y * r2z) by {
        dist_add_left(r2y, s01 * r2x + s11 * r2y, s12 * r2z);
        dist_add_left(r2y, s01 * r2x, s11 * r2y);
        mul_comm(r2y, s01);
        mul_assoc(r2y, s01, r2x);
        mul_swap(s01, r2y, r2x);
        mul_comm(r2y, s11);
        mul_assoc(r2y, s11, r2y);
        mul_comm(r2y, s12);
        mul_assoc(r2y, s12, r2z);
    }
    assert(r2z * (s02 * r2x + s12 * r2y + s22 * r2z)
        == s02 * r2x * r2z + s12 * r2y * r2z + s22 * r2z * r2z) by {
        dist_add_left(r2z, s02 * r2x + s12 * r2y, s22 * r2z);
        dist_add_left(r2z, s02 * r2x, s12 * r2y);
        mul_comm(r2z, s02);
        mul_assoc(r2z, s02, r2x);
        mul_swap(s02, r2z, r2x);
        mul_comm(r2z, s12);
        mul_assoc(r2z, s12, r2y);
        mul_swap(s12, r2z, r2y);
        mul_comm(r2z, s22);
        mul_assoc(r2z, s22, r2z);
    }
    assert((r2x * (s00 * r2x + s01 * r2y + s02 * r2z) + r2y * (s01 * r2x + s11 * r2y + s12 * r2z)
        + r2z * (s02 * r2x + s12 * r2y + s22 * r2z)) * c22
        == s00 * r2x * r2x * c22 + 2real * (s01 * r2x * r2y * c22) + 2real * (s02 * r2x * r2z * c22)
        + s11 * r2y * r2y * c22 + 2real * (s12 * r2y * r2z * c22) + s22 * r2z * r2z * c22) by {
        mul_eq(r2x * (s00 * r2x + s01 * r2y + s02 * r2z) + r2y * (s01 * r2x + s11 * r2y + s12 * r2z)
            + r2z * (s02 * r2x + s12 * r2y + s22 * r2z), c22,
            s00 * r2x * r2x + 2real * (s01 * r2x * r2y) + 2real * (s02 * r2x * r2z)
            + s11 * r2y * r2y + 2real * (s12 * r2y * r2z) + s22 * r2z * r2z, c22);
        dist_add(s00 * r2x * r2x + 2real * (s01 * r2x * r2y) + 2real * (s02 * r2x * r2z)
            + s11 * r2y * r2y + 2real * (s12 * r2y * r2z), s22 * r2z * r2z, c22);
        dist_add(s00 * r2x * r2x + 2real * (s01 * r2x * r2y) + 2real * (s02 * r2x * r2z)
            + s11 * r2y * r2y, 2real * (s12 * r2y * r2z), c22);
        dist_add(s00 * r2x * r2x + 2real * (s01 * r2x * r2y) + 2real * (s02 * r2x * r2z),
            s11 * r2y * r2y, c22);
        dist_add(s00 * r2x * r2x + 2real * (s01 * r2x * r2y), 2real * (s02 * r2x * r2z), c22);
        dist_add(s00 * r2x * r2x, 2real * (s01 * r2x * r2y), c22);
        mul_assoc(2real, s01 * r2x * r2y, c22);
        mul_assoc(2real, s02 * r2x * r2z, c22);
        mul_assoc(2real, s12 * r2y * r2z, c22);
    }
    assert(r0x * (s00 * r1x + s01 * r1y + s02 * r1z)
        == s00 * r0x * r1x + s01 * r0x * r1y + s02 * r0x * r1z) by {
        dist_add_left(r0x, s00 * r1x + s01 * r1y, s02 * r1z);
        dist_add_left(r0x, s00 * r1x, s01 * r1y);
        mul_comm(r0x, s00);
        mul_assoc(r0x, s00, r1x);
        mul_comm(r0x, s01);
        mul_assoc(r0x, s01, r1y);
        mul_comm(r0x, s02);
        mul_assoc(r0x, s02, r1z);
    }
    assert(r0y * (s01 * r1x + s11 * r1y + s12 * r1z)
        == s01 * r0y * r1x + s11 * r0y * r1y + s12 * r0y * r1z) by {
        dist_add_left(r0y, s01 * r1x + s11 * r1y, s12 * r1z);
        dist_add_left(r0y, s01 * r1x, s11 * r1y);
        mul_comm(r0y, s01);
        mul_assoc(r0y, s01, r1x);
        mul_comm(r0y, s11);
        mul_assoc(r0y, s11, r1y);
        mul_comm(r0y, s12);
        mul_assoc(r0y, s12, r1z);
    }
    assert(r0z * (s02 * r1x + s12 * r1y + s22 * r1z)
        == s02 * r0z * r1x + s12 * r0z * r1y + s22 * r0z * r1z) by {
        dist_add_left(r0z, s02 * r1x + s12 * r1y, s22 * r1z);
        dist_add_left(r0z, s02 * r1x, s12 * r1y);
        mul_comm(r0z, s02);
        mul_assoc(r0z, s02, r1x);
        mul_comm(r0z, s12);
        mul_assoc(r0z, s12, r1y);
        mul_comm(r0z, s22);
        mul_assoc(r0z, s22, r1z);
    }
    assert((r0x * (s00 * r1x + s01 * r1y + s02 * r1z) + r0y * (s01 * r1x + s11 * r1y + s12 * r1z)
        + r0z * (s02 * r1x + s12 * r1y + s22 * r1z)) * c01
        == s00 * r0x * r1x * c01 + s01 * r0x * r1y * c01 + s01 * r0y * r1x * c01
        + s02 * r0x * r1z * c01 + s02 * r0z * r1x * c01 + s11 * r0y * r1y * c01
        + s12 * r0y * r1z * c01 + s12 * r0z * r1y * c01 + s22 * r0z * r1z * c01) by {
        mul_eq(r0x * (s00 * r1x + s01 * r1y + s02 * r1z) + r0y * (s01 * r1x + s11 * r1y + s12 * r1z)
            + r0z * (s02 * r1x + s12 * r1y + s22 * r1z), c01,
            s00 * r0x * r1x + s01 * r0x * r1y + s01 * r0y * r1x + s02 * r0x * r1z + s02 * r0z * r1x
            + s11 * r0y * r1y + s12 * r0y * r1z + s12 * r0z * r1y + s22 * r0z * r1z, c01);
        dist_add(s00 * r0x * r1x + s01 * r0x * r1y + s01 * r0y * r1x + s02 * r0x * r1z
            + s02 * r0z * r1x + s11 * r0y * r1y + s12 * r0y * r1z + s12 * r0z * r1y,
            s22 * r0z * r1z, c01);
        dist_add(s00 * r0x * r1x + s01 * r0x * r1y + s01 * r0y * r1x + s02 * r0x * r1z
            + s02 * r0z * r1x + s11 * r0y * r1y + s12 * r0y * r1z, s12 * r0z * r1y, c01);
        dist_add(s00 * r0x * r1x + s01 * r0x * r1y + s01 * r0y * r1x + s02 * r0x * r1z
            + s02 * r0z * r1x + s11 * r0y * r1y, s12 * r0y * r1z, c01);
        dist_add(s00 * r0x * r1x + s01 * r0x * r1y + s01 * r0y * r1x + s02 * r0x * r1z
            + s02 * r0z * r1x, s11 * r0y * r1y, c01);
        dist_add(s00 * r0x * r1x + s01 * r0x * r1y + s01 * r0y * r1x + s02 * r0x * r1z,
            s02 * r0z * r1x, c01);
        dist_add(s00 * r0x * r1x + s01 * r0x * r1y + s01 * r0y * r1x, s02 * r0x * r1z, c01);
        dist_add(s00 * r0x * r1x + s01 * r0x * r1y, s01 * r0y * r1x, c01);
        dist_add(s00 * r0x * r1x, s01 * r0x * r1y, c01);
    }
    assert(r0x * (s00 * r2x + s01 * r2y + s02 * r2z)
        == s00 * r0x * r2x + s01 * r0x * r2y + s02 * r0x * r2z) by {
        dist_add_left(r0x, s00 * r2x + s01 * r2y, s02 * r2z);
        dist_add_left(r0x, s00 * r2x, s01 * r2y);
        mul_comm(r0x, s00);
        mul_assoc(r0x, s00, r2x);
        mul_comm(r0x, s01);
        mul_assoc(r0x, s01, r2y);
        mul_comm(r0x, s02);
        mul_assoc(r0x, s02, r2z);
    }
    assert(r0y * (s01 * r2x + s11 * r2y + s12 * r2z)
        == s01 * r0y * r2x + s11 * r0y * r2y + s12 * r0y * r2z) by {
        dist_add_left(r0y, s01 * r2x + s11 * r2y, s12 * r2z);
        dist_add_left(r0y, s01 * r2x, s11 * r2y);
        mul_comm(r0y, s01);
        mul_assoc(r0y, s01, r2x);
        mul_comm(r0y, s11);
        mul_assoc(r0y, s11, r2y);
        mul_comm(r0y, s12);
        mul_assoc(r0y, s12, r2z);
    }
    assert(r0z * (s02 * r2x + s12 * r2y + s22 * r2z)
        == s02 * r0z * r2x + s12 * r0z * r2y + s22 * r0z * r2z) by {
        dist_add_left(r0z, s02 * r2x + s12 * r2y, s22 * r2z);
        dist_add_left(r0z, s02 * r2x, s12 * r2y);
        mul_comm(r0z, s02);
        mul_assoc(r0z, s02, r2x);
        mul_comm(r0z, s12);
        mul_assoc(r0z, s12, r2y);
        mul_comm(r0z, s22);
        mul_assoc(r0z, s22, r2z);
    }
    assert((r0x * (s00 * r2x + s01 * r2y + s02 * r2z) + r0y * (s01 * r2x + s11 * r2y + s12 * r2z)
        + r0z * (s02 * r2x + s12 * r2y + s22 * r2z)) * c02
        == s00 * r0x * r2x * c02 + s01 * r0x * r2y * c02 + s01 * r0y * r2x * c02
        + s02 * r0x * r2z * c02 + s02 * r0z * r2x * c02 + s11 * r0y * r2y * c02
        + s12 * r0y * r2z * c02 + s12 * r0z * r2y * c02 + s22 * r0z * r2z * c02) by {
        mul_eq(r0x * (s00 * r2x + s01 * r2y + s02 * r2z) + r0y * (s01 * r2x + s11 * r2y + s12 * r2z)
            + r0z * (s02 * r2x + s12 * r2y + s22 * r2z), c02,
            s00 * r0x * r2x + s01 * r0x * r2y + s01 * r0y * r2x + s02 * r0x * r2z + s02 * r0z * r2x
            + s11 * r0y * r2y + s12 * r0y * r2z + s12 * r0z * r2y + s22 * r0z * r2z, c02);
        dist_add(s00 * r0x * r2x + s01 * r0x * r2y + s01 * r0y * r2x + s02 * r0x * r2z
            + s02 * r0z * r2x + s11 * r0y * r2y + s12 * r0y * r2z + s12 * r0z * r2y,
            s22 * r0z * r2z, c02);
        dist_add(s00 * r0x * r2x + s01 * r0x * r2y + s01 * r0y * r2x + s02 * r0x * r2z
            + s02 * r0z * r2x + s11 * r0y * r2y + s12 * r0y * r2z, s12 * r0z * r2y, c02);
        dist_add(s00 * r0x * r2x + s01 * r0x * r2y + s01 * r0y * r2x + s02 * r0x * r2z
            + s02 * r0z * r2x + s11 * r0y * r2y, s12 * r0y * r2z, c02);
        dist_add(s00 * r0x * r2x + s01 * r0x * r2y + s01 * r0y * r2x + s02 * r0x * r2z
            + s02 * r0z * r2x, s11 * r0y * r2y, c02);
        dist_add(s00 * r0x * r2x + s01 * r0x * r2y + s01 * r0y * r2x + s02 * r0x * r2z,
            s02 * r0z * r2x, c02);
        dist_add(s00 * r0x * r2x + s01 * r0x * r2y + s01 * r0y * r2x, s02 * r0x * r2z, c02);
        dist_add(s00 * r0x * r2x + s01 * r0x * r2y, s01 * r0y * r2x, c02);
        dist_add(s00 * r0x * r2x, s01 * r0x * r2y, c02);
    }
    assert(r1x * (s00 * r2x + s01 * r2y + s02 * r2z)
        == s00 * r1x * r2x + s01 * r1x * r2y + s02 * r1x * r2z) by {
        dist_add_left(r1x, s00 * r2x + s01 * r2y, s02 * r2z);
        dist_add_left(r1x, s00 * r2x, s01 * r2y);
        mul_comm(r1x, s00);
        mul_assoc(r1x, s00, r2x);
        mul_comm(r1x, s01);
        mul_assoc(r1x, s01, r2y);
        mul_comm(r1x, s02);
        mul_assoc(r1x, s02, r2z);
    }
    assert(r1y * (s01 * r2x + s11 * r2y + s12 * r2z)
        == s01 * r1y * r2x + s11 * r1y * r2y + s12 * r1y * r2z) by {
        dist_add_left(r1y, s01 * r2x + s11 * r2y, s12 * r2z);
        dist_add_left(r1y, s01 * r2x, s11 * r2y);
        mul_comm(r1y, s01);
        mul_assoc(r1y, s01, r2x);
        mul_comm(r1y, s11);
        mul_assoc(r1y, s11, r2y);
        mul_comm(r1y, s12);
        mul_assoc(r1y, s12, r2z);
    }
    assert(r1z * (s02 * r2x + s12 * r2y + s22 * r2z)
        == s02 * r1z * r2x + s12 * r1z * r2y + s22 * r1z * r2z) by {
        dist_add_left(r1z, s02 * r2x + s12 * r2y, s22 * r2z);
        dist_add_left(r1z, s02 * r2x, s12 * r2y);
        mul_comm(r1z, s02);
        mul_assoc(r1z, s02, r2x);
        mul_comm(r1z, s12);
        mul_assoc(r1z, s12, r2y);
        mul_comm(r1z, s22);
        mul_assoc(r1z, s22, r2z);
    }
    assert((r1x * (s00 * r2x + s01 * r2y + s02 * r2z) + r1y * (s01 * r2x + s11 * r2y + s12 * r2z)
        + r1z * (s02 * r2x + s12 * r2y + s22 * r2z)) * c12
        == s00 * r1x * r2x * c12 + s01 * r1x * r2y * c12 + s01 * r1y * r2x * c12
        + s02 * r1x * r2z * c12 + s02 * r1z * r2x * c12 + s11 * r1y * r2y * c12
        + s12 * r1y * r2z * c12 + s12 * r1z * r2y * c12 + s22 * r1z * r2z * c12) by {
        mul_eq(r1x * (s00 * r2x + s01 * r2y + s02 * r2z) + r1y * (s01 * r2x + s11 * r2y + s12 * r2z)
            + r1z * (s02 * r2x + s12 * r2y + s22 * r2z), c12,
            s00 * r1x * r2x + s01 * r1x * r2y + s01 * r1y * r2x + s02 * r1x * r2z + s02 * r1z * r2x
            + s11 * r1y * r2y + s12 * r1y * r2z + s12 * r1z * r2y + s22 * r1z * r2z, c12);
        dist_add(s00 * r1x * r2x + s01 * r1x * r2y + s01 * r1y * r2x + s02 * r1x * r2z
            + s02 * r1z * r2x + s11 * r1y * r2y + s12 * r1y * r2z + s12 * r1z * r2y,
            s22 * r1z * r2z, c12);
        dist_add(s00 * r1x * r2x + s01 * r1x * r2y + s01 * r1y * r2x + s02 * r1x * r2z
            + s02 * r1z * r2x + s11 * r1y * r2y + s12 * r1y * r2z, s12 * r1z * r2y, c12);
        dist_add(s00 * r1x * r2x + s01 * r1x * r2y + s01 * r1y * r2x + s02 * r1x * r2z
            + s02 * r1z * r2x + s11 * r1y * r2y, s12 * r1y * r2z, c12);
        dist_add(s00 * r1x * r2x + s01 * r1x * r2y + s01 * r1y * r2x + s02 * r1x * r2z
            + s02 * r1z * r2x, s11 * r1y * r2y, c12);
        dist_add(s00 * r1x * r2x + s01 * r1x * r2y + s01 * r1y * r2x + s02 * r1x * r2z,
            s02 * r1z * r2x, c12);
        dist_add(s00 * r1x * r2x + s01 * r1x * r2y + s01 * r1y * r2x, s02 * r1x * r2z, c12);
        dist_add(s00 * r1x * r2x + s01 * r1x * r2y, s01 * r1y * r2x, c12);
        dist_add(s00 * r1x * r2x, s01 * r1x * r2y, c12);
    }
}

pub(crate) proof fn outer_adjoint(
    s00: real,
    s01: real,
    s02: real,
    s11: real,
    s12: real,
    s22: real,
    m0x: real,
    m0y: real,
    m0z: real,
    m1x: real,
    m1y: real,
    m1z: real,
    m2x: real,
    m2y: real,
    m2z: real,
    d0x: real,
    d0y: real,
    d0z: real,
    d1x: real,
    d1y: real,
    d1z: real,
    d2x: real,
    d2y: real,
    d2z: real,
)
    ensures
        s00 * (d0x * m0x + m0x * d0x + (d1x * m1x + m1x * d1x) + (d2x * m2x + m2x * d2x))
            + s11 * (d0y * m0y + m0y * d0y + (d1y * m1y + m1y * d1y) + (d2y * m2y + m2y * d2y))
            + s22 * (d0z * m0z + m0z * d0z + (d1z * m1z + m1z * d1z) + (d2z * m2z + m2z * d2z))
            + 2real * (s01 * (d0x * m0y + m0x * d0y + (d1x * m1y + m1x * d1y)
            + (d2x * m2y + m2x * d2y))) + 2real
            * (s02 * (d0x * m0z + m0x * d0z + (d1x * m1z + m1x * d1z) + (d2x * m2z + m2x * d2z)))
            + 2real * (s12 * (d0y * m0z + m0y * d0z + (d1y * m1z + m1y * d1z)
            + (d2y * m2z + m2y * d2z))) == (s00 * 2real * m0x + s01 * 2real * m0y
            + s02 * 2real * m0z) * d0x + (s01 * 2real * m0x + s11 * 2real * m0y + s12 * 2real * m0z)
            * d0y + (s02 * 2real * m0x + s12 * 2real * m0y + s22 * 2real * m0z) * d0z
            + ((s00 * 2real * m1x + s01 * 2real * m1y + s02 * 2real * m1z) * d1x
            + (s01 * 2real * m1x + s11 * 2real * m1y + s12 * 2real * m1z) * d1y
            + (s02 * 2real * m1x + s12 * 2real * m1y + s22 * 2real * m1z) * d1z)
            + ((s00 * 2real * m2x + s01 * 2real * m2y + s02 * 2real * m2z) * d2x
            + (s01 * 2real * m2x + s11 * 2real * m2y + s12 * 2real * m2z) * d2y
            + (s02 * 2real * m2x + s12 * 2real * m2y + s22 * 2real * m2z) * d2z),
{
    assert(d0x * m0x == m0x * d0x) by {
        mul_comm(d0x, m0x);
    }
    assert(d1x * m1x == m1x * d1x) by {
        mul_comm(d1x, m1x);
    }
    assert(d2x * m2x == m2x * d2x) by {
        mul_comm(d2x, m2x);
    }
    assert(s00 * (d0x * m0x + m0x * d0x + (d1x * m1x + m1x * d1x) + (d2x * m2x + m2x * d2x))
        == 2real * (s00 * m0x * d0x) + 2real * (s00 * m1x * d1x) + 2real * (s00 * m2x * d2x)) by {
        mul_eq(s00, d0x * m0x + m0x * d0x + (d1x * m1x + m1x * d1x) + (d2x * m2x + m2x * d2x), s00,
            2real * (m0x * d0x) + 2real * (m1x * d1x) + 2real * (m2x * d2x));
        dist_add_left(s00, 2real * (m0x * d0x) + 2real * (m1x * d1x), 2real * (m2x * d2x));
        dist_add_left(s00, 2real * (m0x * d0x), 2real * (m1x * d1x));
        mul_front(s00, 2real, m0x * d0x);
        mul_assoc(s00, m0x, d0x);
        mul_front(s00, 2real, m1x * d1x);
        mul_assoc(s00, m1x, d1x);
        mul_front(s00, 2real, m2x * d2x);
        mul_assoc(s00, m2x, d2x);
    }
    assert(d0y * m0y == m0y * d0y) by {
        mul_comm(d0y, m0y);
    }
    assert(d1y * m1y == m1y * d1y) by {
        mul_comm(d1y, m1y);
    }
    assert(d2y * m2y == m2y * d2y) by {
        mul_comm(d2y, m2y);
    }
    assert(s11 * (d0y * m0y + m0y * d0y + (d1y * m1y + m1y * d1y) + (d2y * m2y + m2y * d2y))
        == 2real * (s11 * m0y * d0y) + 2real * (s11 * m1y * d1y) + 2real * (s11 * m2y * d2y)) by {
        mul_eq(s11, d0y * m0y + m0y * d0y + (d1y * m1y + m1y * d1y) + (d2y * m2y + m2y * d2y), s11,
            2real * (m0y * d0y) + 2real * (m1y * d1y) + 2real * (m2y * d2y));
        dist_add_left(s11, 2real * (m0y * d0y) + 2real * (m1y * d1y), 2real * (m2y * d2y));
        dist_add_left(s11, 2real * (m0y * d0y), 2real * (m1y * d1y));
        mul_front(s11, 2real, m0y * d0y);
        mul_assoc(s11, m0y, d0y);
        mul_front(s11, 2real, m1y * d1y);
        mul_assoc(s11, m1y, d1y);
        mul_front(s11, 2real, m2y * d2y);
        mul_assoc(s11, m2y, d2y);
    }
    assert(d0z * m0z == m0z * d0z) by {
        mul_comm(d0z, m0z);
    }
    assert(d1z * m1z == m1z * d1z) by {
        mul_comm(d1z, m1z);
    }
    assert(d2z * m2z == m2z * d2z) by {
        mul_comm(d2z, m2z);
    }
    assert(s22 * (d0z * m0z + m0z * d0z + (d1z * m1z + m1z * d1z) + (d2z * m2z + m2z * d2z))
        == 2real * (s22 * m0z * d0z) + 2real * (s22 * m1z * d1z) + 2real * (s22 * m2z * d2z)) by {
        mul_eq(s22, d0z * m0z + m0z * d0z + (d1z * m1z + m1z * d1z) + (d2z * m2z + m2z * d2z), s22,
            2real * (m0z * d0z) + 2real * (m1z * d1z) + 2real * (m2z * d2z));
        dist_add_left(s22, 2real * (m0z * d0z) + 2real * (m1z * d1z), 2real * (m2z * d2z));
        dist_add_left(s22, 2real * (m0z * d0z), 2real * (m1z * d1z));
        mul_front(s22, 2real, m0z * d0z);
        mul_assoc(s22, m0z, d0z);
        mul_front(s22, 2real, m1z * d1z);
        mul_assoc(s22, m1z, d1z);
        mul_front(s22, 2real, m2z * d2z);
        mul_assoc(s22, m2z, d2z);
    }
    assert(d0x * m0y == m0y * d0x) by {
        mul_comm(d0x, m0y);
    }
    assert(d1x * m1y == m1y * d1x) by {
        mul_comm(d1x, m1y);
    }
    assert(d2x * m2y == m2y * d2x) by {
        mul_comm(d2x, m2y);
    }
    assert(s01 * (d0x * m0y + m0x * d0y + (d1x * m1y + m1x * d1y) + (d2x * m2y + m2x * d2y))
        == s01 * m0x * d0y + s01 * m0y * d0x + s01 * m1x * d1y + s01 * m1y * d1x + s01 * m2x * d2y
        + s01 * m2y * d2x) by {
        mul_eq(s01, d0x * m0y + m0x * d0y + (d1x * m1y + m1x * d1y) + (d2x * m2y + m2x * d2y), s01,
            m0x * d0y + m0y * d0x + m1x * d1y + m1y * d1x + m2x * d2y + m2y * d2x);
        dist_add_left(s01, m0x * d0y + m0y * d0x + m1x * d1y + m1y * d1x + m2x * d2y, m2y * d2x);
        dist_add_left(s01, m0x * d0y + m0y * d0x + m1x * d1y + m1y * d1x, m2x * d2y);
        dist_add_left(s01, m0x * d0y + m0y * d0x + m1x * d1y, m1y * d1x);
        dist_add_left(s01, m0x * d0y + m0y * d0x, m1x * d1y);
        dist_add_left(s01, m0x * d0y, m0y * d0x);
        mul_assoc(s01, m0x, d0y);
        mul_assoc(s01, m0y, d0x);
        mul_assoc(s01, m1x, d1y);
        mul_assoc(s01, m1y, d1x);
        mul_assoc(s01, m2x, d2y);
        mul_assoc(s01, m2y, d2x);
    }
    assert(d0x * m0z == m0z * d0x) by {
        mul_comm(d0x, m0z);
    }
    assert(d1x * m1z == m1z * d1x) by {
        mul_comm(d1x, m1z);
    }
    assert(d2x * m2z == m2z * d2x) by {
        mul_comm(d2x, m2z);
    }
    assert(s02 * (d0x * m0z + m0x * d0z + (d1x * m1z + m1x * d1z) + (d2x * m2z + m2x * d2z))
        == s02 * m0x * d0z + s02 * m0z * d0x + s02 * m1x * d1z + s02 * m1z * d1x + s02 * m2x * d2z
        + s02 * m2z * d2x) by {
        mul_eq(s02, d0x * m0z + m0x * d0z + (d1x * m1z + m1x * d1z) + (d2x * m2z + m2x * d2z), s02,
            m0x * d0z + m0z * d0x + m1x * d1z + m1z * d1x + m2x * d2z + m2z * d2x);
        dist_add_left(s02, m0x * d0z + m0z * d0x + m1x * d1z + m1z * d1x + m2x * d2z, m2z * d2x);
        dist_add_left(s02, m0x * d0z + m0z * d0x + m1x * d1z + m1z * d1x, m2x * d2z);
        dist_add_left(s02, m0x * d0z + m0z * d0x + m1x * d1z, m1z * d1x);
        dist_add_left(s02, m0x * d0z + m0z * d0x, m1x * d1z);
        dist_add_left(s02, m0x * d0z, m0z * d0x);
        mul_assoc(s02, m0x, d0z);
        mul_assoc(s02, m0z, d0x);
        mul_assoc(s02, m1x, d1z);
        mul_assoc(s02, m1z, d1x);
        mul_assoc(s02, m2x, d2z);
        mul_assoc(s02, m2z, d2x);
    }
    assert(d0y * m0z == m0z * d0y) by {
        mul_comm(d0y, m0z);
    }
    assert(d1y * m1z == m1z * d1y) by {
        mul_comm(d1y, m1z);
    }
    assert(d2y * m2z == m2z * d2y) by {
        mul_comm(d2y, m2z);
    }
    assert(s12 * (d0y * m0z + m0y * d0z + (d1y * m1z + m1y * d1z) + (d2y * m2z + m2y * d2z))
        == s12 * m0y * d0z + s12 * m0z * d0y + s12 * m1y * d1z + s12 * m1z * d1y + s12 * m2y * d2z
        + s12 * m2z * d2y) by {
        mul_eq(s12, d0y * m0z + m0y * d0z + (d1y * m1z + m1y * d1z) + (d2y * m2z + m2y * d2z), s12,
            m0y * d0z + m0z * d0y + m1y * d1z + m1z * d1y + m2y * d2z + m2z * d2y);
        dist_add_left(s12, m0y * d0z + m0z * d0y + m1y * d1z + m1z * d1y + m2y * d2z, m2z * d2y);
        dist_add_left(s12, m0y * d0z + m0z * d0y + m1y * d1z + m1z * d1y, m2y * d2z);
        dist_add_left(s12, m0y * d0z + m0z * d0y + m1y * d1z, m1z * d1y);
        dist_add_left(s12, m0y * d0z + m0z * d0y, m1y * d1z);
        dist_add_left(s12, m0y * d0z, m0z * d0y);
        mul_assoc(s12, m0y, d0z);
        mul_assoc(s12, m0z, d0y);
        mul_assoc(s12, m1y, d1z);
        mul_assoc(s12, m1z, d1y);
        mul_assoc(s12, m2y, d2z);
        mul_assoc(s12, m2z, d2y);
    }
    assert(s00 * 2real * m0x == 2real * (s00 * m0x)) by {
        mul_eq(s00 * 2real, m0x, 2real * s00, m0x);
        mul_assoc(2real, s00, m0x);
    }
    assert(s01 * 2real * m0y == 2real * (s01 * m0y)) by {
        mul_eq(s01 * 2real, m0y, 2real * s01, m0y);
        mul_assoc(2real, s01, m0y);
    }
    assert(s02 * 2real * m0z == 2real * (s02 * m0z)) by {
        mul_eq(s02 * 2real, m0z, 2real * s02, m0z);
        mul_assoc(2real, s02, m0z);
    }
    assert((s00 * 2real * m0x + s01 * 2real * m0y + s02 * 2real * m0z) * d0x
        == 2real * (s00 * m0x * d0x) + 2real * (s01 * m0y * d0x) + 2real * (s02 * m0z * d0x)) by {
        mul_eq(s00 * 2real * m0x + s01 * 2real * m0y + s02 * 2real * m0z, d0x,
            2real * (s00 * m0x) + 2real * (s01 * m0y) + 2real * (s02 * m0z), d0x);
        dist_add(2real * (s00 * m0x) + 2real * (s01 * m0y), 2real * (s02 * m0z), d0x);
        dist_add(2real * (s00 * m0x), 2real * (s01 * m0y), d0x);
        mul_assoc(2real, s00 * m0x, d0x);
        mul_assoc(2real, s01 * m0y, d0x);
        mul_assoc(2real, s02 * m0z, d0x);
    }
    assert(s01 * 2real * m0x == 2real * (s01 * m0x)) by {
        mul_eq(s01 * 2real, m0x, 2real * s01, m0x);
        mul_assoc(2real, s01, m0x);
    }
    assert(s11 * 2real * m0y == 2real * (s11 * m0y)) by {
        mul_eq(s11 * 2real, m0y, 2real * s11, m0y);
        mul_assoc(2real, s11, m0y);
    }
    assert(s12 * 2real * m0z == 2real * (s12 * m0z)) by {
        mul_eq(s12 * 2real, m0z, 2real * s12, m0z);
        mul_assoc(2real, s12, m0z);
    }
    assert((s01 * 2real * m0x + s11 * 2real * m0y + s12 * 2real * m0z) * d0y
        == 2real * (s01 * m0x * d0y) + 2real * (s11 * m0y * d0y) + 2real * (s12 * m0z * d0y)) by {
        mul_eq(s01 * 2real * m0x + s11 * 2real * m0y + s12 * 2real * m0z, d0y,
            2real * (s01 * m0x) + 2real * (s11 * m0y) + 2real * (s12 * m0z), d0y);
        dist_add(2real * (s01 * m0x) + 2real * (s11 * m0y), 2real * (s12 * m0z), d0y);
        dist_add(2real * (s01 * m0x), 2real * (s11 * m0y), d0y);
        mul_assoc(2real, s01 * m0x, d0y);
        mul_assoc(2real, s11 * m0y, d0y);
        mul_assoc(2real, s12 * m0z, d0y);
    }
    assert(s02 * 2real * m0x == 2real * (s02 * m0x)) by {
        mul_eq(s02 * 2real, m0x, 2real * s02, m0x);
        mul_assoc(2real, s02, m0x);
    }
    assert(s12 * 2real * m0y == 2real * (s12 * m0y)) by {
        mul_eq(s12 * 2real, m0y, 2real * s12, m0y);
        mul_assoc(2real, s12, m0y);
    }
    assert(s22 * 2real * m0z == 2real * (s22 * m0z)) by {
        mul_eq(s22 * 2real, m0z, 2real * s22, m0z);
        mul_assoc(2real, s22, m0z);
    }
    assert((s02 * 2real * m0x + s12 * 2real * m0y + s22 * 2real * m0z) * d0z
        == 2real * (s02 * m0x * d0z) + 2real * (s12 * m0y * d0z) + 2real * (s22 * m0z * d0z)) by {
        mul_eq(s02 * 2real * m0x + s12 * 2real * m0y + s22 * 2real * m0z, d0z,
            2real * (s02 * m0x) + 2real * (s12 * m0y) + 2real * (s22 * m0z), d0z);
        dist_add(2real * (s02 * m0x) + 2real * (s12 * m0y), 2real * (s22 * m0z), d0z);
        dist_add(2real * (s02 * m0x), 2real * (s12 * m0y), d0z);
        mul_assoc(2real, s02 * m0x, d0z);
        mul_assoc(2real, s12 * m0y, d0z);
        mul_assoc(2real, s22 * m0z, d0z);
    }
    assert(s00 * 2real * m1x == 2real * (s00 * m1x)) by {
        mul_eq(s00 * 2real, m1x, 2real * s00, m1x);
        mul_assoc(2real, s00, m1x);
    }
    assert(s01 * 2real * m1y == 2real * (s01 * m1y)) by {
        mul_eq(s01 * 2real, m1y, 2real * s01, m1y);
        mul_assoc(2real, s01, m1y);
    }
    assert(s02 * 2real * m1z == 2real * (s02 * m1z)) by {
        mul_eq(s02 * 2real, m1z, 2real * s02, m1z);
        mul_assoc(2real, s02, m1z);
    }
    assert((s00 * 2real * m1x + s01 * 2real * m1y + s02 * 2real * m1z) * d1x
        == 2real * (s00 * m1x * d1x) + 2real * (s01 * m1y * d1x) + 2real * (s02 * m1z * d1x)) by {
        mul_eq(s00 * 2real * m1x + s01 * 2real * m1y + s02 * 2real * m1z, d1x,
            2real * (s00 * m1x) + 2real * (s01 * m1y) + 2real * (s02 * m1z), d1x);
        dist_add(2real * (s00 * m1x) + 2real * (s01 * m1y), 2real * (s02 * m1z), d1x);
        dist_add(2real * (s00 * m1x), 2real * (s01 * m1y), d1x);
        mul_assoc(2real, s00 * m1x, d1x);
        mul_assoc(2real, s01 * m1y, d1x);
        mul_assoc(2real, s02 * m1z, d1x);
    }
    assert(s01 * 2real * m1x == 2real * (s01 * m1x)) by {
        mul_eq(s01 * 2real, m1x, 2real * s01, m1x);
        mul_assoc(2real, s01, m1x);
    }
    assert(s11 * 2real * m1y == 2real * (s11 * m1y)) by {
        mul_eq(s11 * 2real, m1y, 2real * s11, m1y);
        mul_assoc(2real, s11, m1y);
    }
    assert(s12 * 2real * m1z == 2real * (s12 * m1z)) by {
        mul_eq(s12 * 2real, m1z, 2real * s12, m1z);
        mul_assoc(2real, s12, m1z);
    }
    assert((s01 * 2real * m1x + s11 * 2real * m1y + s12 * 2real * m1z) * d1y
        == 2real * (s01 * m1x * d1y) + 2real * (s11 * m1y * d1y) + 2real * (s12 * m1z * d1y)) by {
        mul_eq(s01 * 2real * m1x + s11 * 2real * m1y + s12 * 2real * m1z, d1y,
            2real * (s01 * m1x) + 2real * (s11 * m1y) + 2real * (s12 * m1z), d1y);
        dist_add(2real * (s01 * m1x) + 2real * (s11 * m1y), 2real * (s12 * m1z), d1y);
        dist_add(2real * (s01 * m1x), 2real * (s11 * m1y), d1y);
        mul_assoc(2real, s01 * m1x, d1y);
        mul_assoc(2real, s11 * m1y, d1y);
        mul_assoc(2real, s12 * m1z, d1y);
    }
    assert(s02 * 2real * m1x == 2real * (s02 * m1x)) by {
        mul_eq(s02 * 2real, m1x, 2real * s02, m1x);
        mul_assoc(2real, s02, m1x);
    }
    assert(s12 * 2real * m1y == 2real * (s12 * m1y)) by {
        mul_eq(s12 * 2real, m1y, 2real * s12, m1y);
        mul_assoc(2real, s12, m1y);
    }
    assert(s22 * 2real * m1z == 2real * (s22 * m1z)) by {
        mul_eq(s22 * 2real, m1z, 2real * s22, m1z);
        mul_assoc(2real, s22, m1z);
    }
    assert((s02 * 2real * m1x + s12 * 2real * m1y + s22 * 2real * m1z) * d1z
        == 2real * (s02 * m1x * d1z) + 2real * (s12 * m1y * d1z) + 2real * (s22 * m1z * d1z)) by {
        mul_eq(s02 * 2real * m1x + s12 * 2real * m1y + s22 * 2real * m1z, d1z,
            2real * (s02 * m1x) + 2real * (s12 * m1y) + 2real * (s22 * m1z), d1z);
        dist_add(2real * (s02 * m1x) + 2real * (s12 * m1y), 2real * (s22 * m1z), d1z);
        dist_add(2real * (s02 * m1x), 2real * (s12 * m1y), d1z);
        mul_assoc(2real, s02 * m1x, d1z);
        mul_assoc(2real, s12 * m1y, d1z);
        mul_assoc(2real, s22 * m1z, d1z);
    }
    assert(s00 * 2real * m2x == 2real * (s00 * m2x)) by {
        mul_eq(s00 * 2real, m2x, 2real * s00, m2x);
        mul_assoc(2real, s00, m2x);
    }
    assert(s01 * 2real * m2y == 2real * (s01 * m2y)) by {
        mul_eq(s01 * 2real, m2y, 2real * s01, m2y);
        mul_assoc(2real, s01, m2y);
    }
    assert(s02 * 2real * m2z == 2real * (s02 * m2z)) by {
        mul_eq(s02 * 2real, m2z, 2real * s02, m2z);
        mul_assoc(2real, s02, m2z);
    }
    assert((s00 * 2real * m2x + s01 * 2real * m2y + s02 * 2real * m2z) * d2x
        == 2real * (s00 * m2x * d2x) + 2real * (s01 * m2y * d2x) + 2real * (s02 * m2z * d2x)) by {
        mul_eq(s00 * 2real * m2x + s01 * 2real * m2y + s02 * 2real * m2z, d2x,
            2real * (s00 * m2x) + 2real * (s01 * m2y) + 2real * (s02 * m2z), d2x);
        dist_add(2real * (s00 * m2x) + 2real * (s01 * m2y), 2real * (s02 * m2z), d2x);
        dist_add(2real * (s00 * m2x), 2real * (s01 * m2y), d2x);
        mul_assoc(2real, s00 * m2x, d2x);
        mul_assoc(2real, s01 * m2y, d2x);
        mul_assoc(2real, s02 * m2z, d2x);
    }
    assert(s01 * 2real * m2x == 2real * (s01 * m2x)) by {
        mul_eq(s01 * 2real, m2x, 2real * s01, m2x);
        mul_assoc(2real, s01, m2x);
    }
    assert(s11 * 2real * m2y == 2real * (s11 * m2y)) by {
        mul_eq(s11 * 2real, m2y, 2real * s11, m2y);
        mul_assoc(2real, s11, m2y);
    }
    assert(s12 * 2real * m2z == 2real * (s12 * m2z)) by {
        mul_eq(s12 * 2real, m2z, 2real * s12, m2z);
        mul_assoc(2real, s12, m2z);
    }
    assert((s01 * 2real * m2x + s11 * 2real * m2y + s12 * 2real * m2z) * d2y
        == 2real * (s01 * m2x * d2y) + 2real * (s11 * m2y * d2y) + 2real * (s12 * m2z * d2y)) by {
        mul_eq(s01 * 2real * m2x + s11 * 2real * m2y + s12 * 2real * m2z, d2y,
            2real * (s01 * m2x) + 2real * (s11 * m2y) + 2real * (s12 * m2z), d2y);
        dist_add(2real * (s01 * m2x) + 2real * (s11 * m2y), 2real * (s12 * m2z), d2y);
        dist_add(2real * (s01 * m2x), 2real * (s11 * m2y), d2y);
        mul_assoc(2real, s01 * m2x, d2y);
        mul_assoc(2real, s11 * m2y, d2y);
        mul_assoc(2real, s12 * m2z, d2y);
    }
    assert(s02 * 2real * m2x == 2real * (s02 * m2x)) by {
        mul_eq(s02 * 2real, m2x, 2real * s02, m2x);
        mul_assoc(2real, s02, m2x);
    }
    assert(s12 * 2real * m2y == 2real * (s12 * m2y)) by {
        mul_eq(s12 * 2real, m2y, 2real * s12, m2y);
        mul_assoc(2real, s12, m2y);
    }
    assert(s22 * 2real * m2z == 2real * (s22 * m2z)) by {
        mul_eq(s22 * 2real, m2z, 2real * s22, m2z);
        mul_assoc(2real, s22, m2z);
    }
    assert((s02 * 2real * m2x + s12 * 2real * m2y + s22 * 2real * m2z) * d2z
        == 2real * (s02 * m2x * d2z) + 2real * (s12 * m2y * d2z) + 2real * (s22 * m2z * d2z)) by {
        mul_eq(s02 * 2real * m2x + s12 * 2real * m2y + s22 * 2real * m2z, d2z,
            2real * (s02 * m2x) + 2real * (s12 * m2y) + 2real * (s22 * m2z), d2z);
        dist_add(2real * (s02 * m2x) + 2real * (s12 * m2y), 2real * (s22 * m2z), d2z);
        dist_add(2real * (s02 * m2x), 2real * (s12 * m2y), d2z);
        mul_assoc(2real, s02 * m2x, d2z);
        mul_assoc(2real, s12 * m2y, d2z);
        mul_assoc(2real, s22 * m2z, d2z);
    }
}

pub(crate) proof fn deviation_pairing(
    p: real,
    q: real,
    s: real,
    w: real,
    x: real,
    y: real,
    dx: real,
    dy: real,
)
    ensures
        p * (w * (dx * x + x * dx)) + 2real * q * (w * (dx * y + x * dy))
            + s * (w * (dy * y + y * dy)) == w * (2real * p * x + 2real * q * y) * dx
            + w * (2real * s * y + 2real * q * x) * dy,
{
    assert(dx * x == x * dx) by {
        mul_comm(dx, x);
    }
    assert(w * (dx * x + x * dx) == 2real * (w * x * dx)) by {
        mul_eq(w, dx * x + x * dx, w, 2real * (x * dx));
        mul_front(w, 2real, x * dx);
        mul_assoc(w, x, dx);
    }
    assert(p * (w * (dx * x + x * dx)) == 2real * (p * w * x * dx)) by {
        mul_eq(p, w * (dx * x + x * dx), p, 2real * (w * x * dx));
        mul_front(p, 2real, w * x * dx);
        mul_assoc(p, w, x);
        mul_assoc(p, w * x, dx);
    }
    assert(dx * y == y * dx) by {
        mul_comm(dx, y);
    }
    assert(w * (dx * y + x * dy) == w * x * dy + w * y * dx) by {
        mul_eq(w, dx * y + x * dy, w, x * dy + y * dx);
        dist_add_left(w, x * dy, y * dx);
        mul_assoc(w, x, dy);
        mul_assoc(w, y, dx);
    }
    assert(2real * q * (w * (dx * y + x * dy))
        == 2real * (q * w * x * dy) + 2real * (q * w * y * dx)) by {
        mul_eq(2real * q, w * (dx * y + x * dy), 2real * q, w * x * dy + w * y * dx);
        mul_assoc(2real, q, w * x * dy + w * y * dx);
        dist_add_left(q, w * x * dy, w * y * dx);
        mul_assoc(q, w, x);
        mul_assoc(q, w * x, dy);
        mul_assoc(q, w, y);
        mul_assoc(q, w * y, dx);
    }
    assert(dy * y == y * dy) by {
        mul_comm(dy, y);
    }
    assert(w * (dy * y + y * dy) == 2real * (w * y * dy)) by {
        mul_eq(w, dy * y + y * dy, w, 2real * (y * dy));
        mul_front(w, 2real, y * dy);
        mul_assoc(w, y, dy);
    }
    assert(s * (w * (dy * y + y * dy)) == 2real * (s * w * y * dy)) by {
        mul_eq(s, w * (dy * y + y * dy), s, 2real * (w * y * dy));
        mul_front(s, 2real, w * y * dy);
        mul_assoc(s, w, y);
        mul_assoc(s, w * y, dy);
    }
    assert(2real * p * x == 2real * (p * x)) by {
        mul_assoc(2real, p, x);
    }
    assert(2real * q * y == 2real * (q * y)) by {
        mul_assoc(2real, q, y);
    }
    assert(w * (2real * p * x + 2real * q * y) == 2real * (p * w * x) + 2real * (q * w * y)) by {
        mul_eq(w, 2real * p * x + 2real * q * y, w, 2real * (p * x) + 2real * (q * y));
        dist_add_left(w, 2real * (p * x), 2real * (q * y));
        mul_front(w, 2real, p * x);
        mul_comm(w, p);
        mul_assoc(w, p, x);
        mul_front(w, 2real, q * y);
        mul_comm(w, q);
        mul_assoc(w, q, y);
    }
    assert(w * (2real * p * x + 2real * q * y) * dx
        == 2real * (p * w * x * dx) + 2real * (q * w * y * dx)) by {
        mul_eq(w * (2real * p * x + 2real * q * y), dx, 2real * (p * w * x) + 2real * (q * w * y),
            dx);
        dist_add(2real * (p * w * x), 2real * (q * w * y), dx);
        mul_assoc(2real, p * w * x, dx);
        mul_assoc(2real, q * w * y, dx);
    }
    assert(2real * s * y == 2real * (s * y)) by {
        mul_assoc(2real, s, y);
    }
    assert(2real * q * x == 2real * (q * x)) by {
        mul_assoc(2real, q, x);
    }
    assert(w * (2real * s * y + 2real * q * x) == 2real * (q * w * x) + 2real * (s * w * y)) by {
        mul_eq(w, 2real * s * y + 2real * q * x, w, 2real * (q * x) + 2real * (s * y));
        dist_add_left(w, 2real * (q * x), 2real * (s * y));
        mul_front(w, 2real, q * x);
        mul_comm(w, q);
        mul_assoc(w, q, x);
        mul_front(w, 2real, s * y);
        mul_comm(w, s);
        mul_assoc(w, s, y);
    }
    assert(w * (2real * s * y + 2real * q * x) * dy
        == 2real * (q * w * x * dy) + 2real * (s * w * y * dy)) by {
        mul_eq(w * (2real * s * y + 2real * q * x), dy, 2real * (q * w * x) + 2real * (s * w * y),
            dy);
        dist_add(2real * (q * w * x), 2real * (s * w * y), dy);
        mul_assoc(2real, q * w * x, dy);
        mul_assoc(2real, s * w * y, dy);
    }
}

pub(crate) proof fn mean_pairing(
    g0: real,
    g1: real,
    g2: real,
    g3: real,
    g4: real,
    g5: real,
    g6: real,
    d0: real,
    d1: real,
    d2: real,
    d3: real,
    d4: real,
    d5: real,
    d6: real,
    dm: real,
    n: real,
    a: real,
    b: real,
)
    requires
        dm == a * d0 + b * (d1 + d2 + d3 + d4 + d5 + d6),
    ensures
        n * dm + g0 * (d0 - dm) + g1 * (d1 - dm) + g2 * (d2 - dm) + g3 * (d3 - dm) + g4 * (d4 - dm)
            + g5 * (d5 - dm) + g6 * (d6 - dm)
            == (g0 + a * (n - (g0 + g1 + g2 + g3 + g4 + g5 + g6))) * d0
            + (g1 + b * (n - (g0 + g1 + g2 + g3 + g4 + g5 + g6))) * d1
            + (g2 + b * (n - (g0 + g1 + g2 + g3 + g4 + g5 + g6))) * d2
            + (g3 + b * (n - (g0 + g1 + g2 + g3 + g4 + g5 + g6))) * d3
            + (g4 + b * (n - (g0 + g1 + g2 + g3 + g4 + g5 + g6))) * d4
            + (g5 + b * (n - (g0 + g1 + g2 + g3 + g4 + g5 + g6))) * d5
            + (g6 + b * (n - (g0 + g1 + g2 + g3 + g4 + g5 + g6))) * d6,
{
    assert(a * d0 == d0 * a) by {
        mul_comm(a, d0);
    }
    assert(b * (d1 + d2 + d3 + d4 + d5 + d6)
        == d1 * b + d2 * b + d3 * b + d4 * b + d5 * b + d6 * b) by {
        dist_add_left(b, d1 + d2 + d3 + d4 + d5, d6);
        dist_add_left(b, d1 + d2 + d3 + d4, d5);
        dist_add_left(b, d1 + d2 + d3, d4);
        dist_add_left(b, d1 + d2, d3);
        dist_add_left(b, d1, d2);
        mul_comm(b, d1);
        mul_comm(b, d2);
        mul_comm(b, d3);
        mul_comm(b, d4);
        mul_comm(b, d5);
        mul_comm(b, d6);
    }
    assert(n * dm == dm * n) by {
        mul_comm(n, dm);
    }
    assert(g0 * (d0 - dm) == g0 * d0 - g0 * dm) by {
        dist_sub_left(g0, d0, dm);
    }
    assert(g1 * (d1 - dm) == g1 * d1 - g1 * dm) by {
        dist_sub_left(g1, d1, dm);
    }
    assert(g2 * (d2 - dm) == g2 * d2 - g2 * dm) by {
        dist_sub_left(g2, d2, dm);
    }
    assert(g3 * (d3 - dm) == g3 * d3 - g3 * dm) by {
        dist_sub_left(g3, d3, dm);
    }
    assert(g4 * (d4 - dm) == g4 * d4 - g4 * dm) by {
        dist_sub_left(g4, d4, dm);
    }
    assert(g5 * (d5 - dm) == g5 * d5 - g5 * dm) by {
        dist_sub_left(g5, d5, dm);
    }
    assert(g6 * (d6 - dm) == g6 * d6 - g6 * dm) by {
        dist_sub_left(g6, d6, dm);
    }
    assert(a * (n - (g0 + g1 + g2 + g3 + g4 + g5 + g6))
        == -(g0 * a) - g1 * a - g2 * a - g3 * a - g4 * a - g5 * a - g6 * a + n * a) by {
        mul_eq(a, n - (g0 + g1 + g2 + g3 + g4 + g5 + g6), a, -g0 - g1 - g2 - g3 - g4 - g5 - g6 + n);
        dist_add_left(a, -g0 - g1 - g2 - g3 - g4 - g5 - g6, n);
        dist_sub_left(a, -g0 - g1 - g2 - g3 - g4 - g5, g6);
        dist_sub_left(a, -g0 - g1 - g2 - g3 - g4, g5);
        dist_sub_left(a, -g0 - g1 - g2 - g3, g4);
        dist_sub_left(a, -g0 - g1 - g2, g3);
        dist_sub_left(a, -g0 - g1, g2);
        dist_sub_left(a, -g0, g1);
        dist_neg_left(a, g0);
        mul_comm(a, g0);
        mul_comm(a, g1);
        mul_comm(a, g2);
        mul_comm(a, g3);
        mul_comm(a, g4);
        mul_comm(a, g5);
        mul_comm(a, g6);
        mul_comm(a, n);
    }
    assert((g0 + a * (n - (g0 + g1 + g2 + g3 + g4 + g5 + g6))) * d0
        == g0 * d0 - g0 * d0 * a - g1 * d0 * a - g2 * d0 * a - g3 * d0 * a - g4 * d0 * a
        - g5 * d0 * a - g6 * d0 * a + d0 * n * a) by {
        mul_eq(g0 + a * (n - (g0 + g1 + g2 + g3 + g4 + g5 + g6)), d0,
            g0 - g0 * a - g1 * a - g2 * a - g3 * a - g4 * a - g5 * a - g6 * a + n * a, d0);
        dist_add(g0 - g0 * a - g1 * a - g2 * a - g3 * a - g4 * a - g5 * a - g6 * a, n * a, d0);
        dist_sub(g0 - g0 * a - g1 * a - g2 * a - g3 * a - g4 * a - g5 * a, g6 * a, d0);
        dist_sub(g0 - g0 * a - g1 * a - g2 * a - g3 * a - g4 * a, g5 * a, d0);
        dist_sub(g0 - g0 * a - g1 * a - g2 * a - g3 * a, g4 * a, d0);
        dist_sub(g0 - g0 * a - g1 * a - g2 * a, g3 * a, d0);
        dist_sub(g0 - g0 * a - g1 * a, g2 * a, d0);
        dist_sub(g0 - g0 * a, g1 * a, d0);
        dist_sub(g0, g0 * a, d0);
        mul_swap(g0, a, d0);
        mul_swap(g1, a, d0);
        mul_swap(g2, a, d0);
        mul_swap(g3, a, d0);
        mul_swap(g4, a, d0);
        mul_swap(g5, a, d0);
        mul_swap(g6, a, d0);
        mul_swap(n, a, d0);
        mul_comm(n, d0);
    }
    assert(b * (n - (g0 + g1 + g2 + g3 + g4 + g5 + g6))
        == -(g0 * b) - g1 * b - g2 * b - g3 * b - g4 * b - g5 * b - g6 * b + n * b) by {
        mul_eq(b, n - (g0 + g1 + g2 + g3 + g4 + g5 + g6), b, -g0 - g1 - g2 - g3 - g4 - g5 - g6 + n);
        dist_add_left(b, -g0 - g1 - g2 - g3 - g4 - g5 - g6, n);
        dist_sub_left(b, -g0 - g1 - g2 - g3 - g4 - g5, g6);
        dist_sub_left(b, -g0 - g1 - g2 - g3 - g4, g5);
        dist_sub_left(b, -g0 - g1 - g2 - g3, g4);
        dist_sub_left(b, -g0 - g1 - g2, g3);
        dist_sub_left(b, -g0 - g1, g2);
        dist_sub_left(b, -g0, g1);
        dist_neg_left(b, g0);
        mul_comm(b, g0);
        mul_comm(b, g1);
        mul_comm(b, g2);
        mul_comm(b, g3);
        mul_comm(b, g4);
        mul_comm(b, g5);
        mul_comm(b, g6);
        mul_comm(b, n);
    }
    assert((g1 + b * (n - (g0 + g1 + g2 + g3 + g4 + g5 + g6))) * d1
        == g1 * d1 - g0 * d1 * b - g1 * d1 * b - g2 * d1 * b - g3 * d1 * b - g4 * d1 * b
        - g5 * d1 * b - g6 * d1 * b + d1 * n * b) by {
        mul_eq(g1 + b * (n - (g0 + g1 + g2 + g3 + g4 + g5 + g6)), d1,
            g1 - g0 * b - g1 * b - g2 * b - g3 * b - g4 * b - g5 * b - g6 * b + n * b, d1);
        dist_add(g1 - g0 * b - g1 * b - g2 * b - g3 * b - g4 * b - g5 * b - g6 * b, n * b, d1);
        dist_sub(g1 - g0 * b - g1 * b - g2 * b - g3 * b - g4 * b - g5 * b, g6 * b, d1);
        dist_sub(g1 - g0 * b - g1 * b - g2 * b - g3 * b - g4 * b, g5 * b, d1);
        dist_sub(g1 - g0 * b - g1 * b - g2 * b - g3 * b, g4 * b, d1);
        dist_sub(g1 - g0 * b - g1 * b - g2 * b, g3 * b, d1);
        dist_sub(g1 - g0 * b - g1 * b, g2 * b, d1);
        dist_sub(g1 - g0 * b, g1 * b, d1);
        dist_sub(g1, g0 * b, d1);
        mul_swap(g0, b, d1);
        mul_swap(g1, b, d1);
        mul_swap(g2, b, d1);
        mul_swap(g3, b, d1);
        mul_swap(g4, b, d1);
        mul_swap(g5, b, d1);
        mul_swap(g6, b, d1);
        mul_swap(n, b, d1);
        mul_comm(n, d1);
    }
    assert((g2 + b * (n - (g0 + g1 + g2 + g3 + g4 + g5 + g6))) * d2
        == g2 * d2 - g0 * d2 * b - g1 * d2 * b - g2 * d2 * b - g3 * d2 * b - g4 * d2 * b
        - g5 * d2 * b - g6 * d2 * b + d2 * n * b) by {
        mul_eq(g2 + b * (n - (g0 + g1 + g2 + g3 + g4 + g5 + g6)), d2,
            g2 - g0 * b - g1 * b - g2 * b - g3 * b - g4 * b - g5 * b - g6 * b + n * b, d2);
        dist_add(g2 - g0 * b - g1 * b - g2 * b - g3 * b - g4 * b - g5 * b - g6 * b, n * b, d2);
        dist_sub(g2 - g0 * b - g1 * b - g2 * b - g3 * b - g4 * b - g5 * b, g6 * b, d2);
        dist_sub(g2 - g0 * b - g1 * b - g2 * b - g3 * b - g4 * b, g5 * b, d2);
        dist_sub(g2 - g0 * b - g1 * b - g2 * b - g3 * b, g4 * b, d2);
        dist_sub(g2 - g0 * b - g1 * b - g2 * b, g3 * b, d2);
        dist_sub(g2 - g0 * b - g1 * b, g2 * b, d2);
        dist_sub(g2 - g0 * b, g1 * b, d2);
        dist_sub(g2, g0 * b, d2);
        mul_swap(g0, b, d2);
        mul_swap(g1, b, d2);
        mul_swap(g2, b, d2);
        mul_swap(g3, b, d2);
        mul_swap(g4, b, d2);
        mul_swap(g5, b, d2);
        mul_swap(g6, b, d2);
        mul_swap(n, b, d2);
        mul_comm(n, d2);
    }
    assert((g3 + b * (n - (g0 + g1 + g2 + g3 + g4 + g5 + g6))) * d3
        == g3 * d3 - g0 * d3 * b - g1 * d3 * b - g2 * d3 * b - g3 * d3 * b - g4 * d3 * b
        - g5 * d3 * b - g6 * d3 * b + d3 * n * b) by {
        mul_eq(g3 + b * (n - (g0 + g1 + g2 + g3 + g4 + g5 + g6)), d3,
            g3 - g0 * b - g1 * b - g2 * b - g3 * b - g4 * b - g5 * b - g6 * b + n * b, d3);
        dist_add(g3 - g0 * b - g1 * b - g2 * b - g3 * b - g4 * b - g5 * b - g6 * b, n * b, d3);
        dist_sub(g3 - g0 * b - g1 * b - g2 * b - g3 * b - g4 * b - g5 * b, g6 * b, d3);
        dist_sub(g3 - g0 * b - g1 * b - g2 * b - g3 * b - g4 * b, g5 * b, d3);
        dist_sub(g3 - g0 * b - g1 * b - g2 * b - g3 * b, g4 * b, d3);
        dist_sub(g3 - g0 * b - g1 * b - g2 * b, g3 * b, d3);
        dist_sub(g3 - g0 * b - g1 * b, g2 * b, d3);
        dist_sub(g3 - g0 * b, g1 * b, d3);
        dist_sub(g3, g0 * b, d3);
        mul_swap(g0, b, d3);
        mul_swap(g1, b, d3);
        mul_swap(g2, b, d3);
        mul_swap(g3, b, d3);
        mul_swap(g4, b, d3);
        mul_swap(g5, b, d3);
        mul_swap(g6, b, d3);
        mul_swap(n, b, d3);
        mul_comm(n, d3);
    }
    assert((g4 + b * (n - (g0 + g1 + g2 + g3 + g4 + g5 + g6))) * d4
        == g4 * d4 - g0 * d4 * b - g1 * d4 * b - g2 * d4 * b - g3 * d4 * b - g4 * d4 * b
        - g5 * d4 * b - g6 * d4 * b + d4 * n * b) by {
        mul_eq(g4 + b * (n - (g0 + g1 + g2 + g3 + g4 + g5 + g6)), d4,
            g4 - g0 * b - g1 * b - g2 * b - g3 * b - g4 * b - g5 * b - g6 * b + n * b, d4);
        dist_add(g4 - g0 * b - g1 * b - g2 * b - g3 * b - g4 * b - g5 * b - g6 * b, n * b, d4);
        dist_sub(g4 - g0 * b - g1 * b - g2 * b - g3 * b - g4 * b - g5 * b, g6 * b, d4);
        dist_sub(g4 - g0 * b - g1 * b - g2 * b - g3 * b - g4 * b, g5 * b, d4);
        dist_sub(g4 - g0 * b - g1 * b - g2 * b - g3 * b, g4 * b, d4);
        dist_sub(g4 - g0 * b - g1 * b - g2 * b, g3 * b, d4);
        dist_sub(g4 - g0 * b - g1 * b, g2 * b, d4);
        dist_sub(g4 - g0 * b, g1 * b, d4);
        dist_sub(g4, g0 * b, d4);
        mul_swap(g0, b, d4);
        mul_swap(g1, b, d4);
        mul_swap(g2, b, d4);
        mul_swap(g3, b, d4);
        mul_swap(g4, b, d4);
        mul_swap(g5, b, d4);
        mul_swap(g6, b, d4);
        mul_swap(n, b, d4);
        mul_comm(n, d4);
    }
    assert((g5 + b * (n - (g0 + g1 + g2 + g3 + g4 + g5 + g6))) * d5
        == g5 * d5 - g0 * d5 * b - g1 * d5 * b - g2 * d5 * b - g3 * d5 * b - g4 * d5 * b
        - g5 * d5 * b - g6 * d5 * b + d5 * n * b) by {
        mul_eq(g5 + b * (n - (g0 + g1 + g2 + g3 + g4 + g5 + g6)), d5,
            g5 - g0 * b - g1 * b - g2 * b - g3 * b - g4 * b - g5 * b - g6 * b + n * b, d5);
        dist_add(g5 - g0 * b - g1 * b - g2 * b - g3 * b - g4 * b - g5 * b - g6 * b, n * b, d5);
        dist_sub(g5 - g0 * b - g1 * b - g2 * b - g3 * b - g4 * b - g5 * b, g6 * b, d5);
        dist_sub(g5 - g0 * b - g1 * b - g2 * b - g3 * b - g4 * b, g5 * b, d5);
        dist_sub(g5 - g0 * b - g1 * b - g2 * b - g3 * b, g4 * b, d5);
        dist_sub(g5 - g0 * b - g1 * b - g2 * b, g3 * b, d5);
        dist_sub(g5 - g0 * b - g1 * b, g2 * b, d5);
        dist_sub(g5 - g0 * b, g1 * b, d5);
        dist_sub(g5, g0 * b, d5);
        mul_swap(g0, b, d5);
        mul_swap(g1, b, d5);
        mul_swap(g2, b, d5);
        mul_swap(g3, b, d5);
        mul_swap(g4, b, d5);
        mul_swap(g5, b, d5);
        mul_swap(g6, b, d5);
        mul_swap(n, b, d5);
        mul_comm(n, d5);
    }
    assert((g6 + b * (n - (g0 + g1 + g2 + g3 + g4 + g5 + g6))) * d6
        == g6 * d6 - g0 * d6 * b - g1 * d6 * b - g2 * d6 * b - g3 * d6 * b - g4 * d6 * b
        - g5 * d6 * b - g6 * d6 * b + d6 * n * b) by {
        mul_eq(g6 + b * (n - (g0 + g1 + g2 + g3 + g4 + g5 + g6)), d6,
            g6 - g0 * b - g1 * b - g2 * b - g3 * b - g4 * b - g5 * b - g6 * b + n * b, d6);
        dist_add(g6 - g0 * b - g1 * b - g2 * b - g3 * b - g4 * b - g5 * b - g6 * b, n * b, d6);
        dist_sub(g6 - g0 * b - g1 * b - g2 * b - g3 * b - g4 * b - g5 * b, g6 * b, d6);
        dist_sub(g6 - g0 * b - g1 * b - g2 * b - g3 * b - g4 * b, g5 * b, d6);
        dist_sub(g6 - g0 * b - g1 * b - g2 * b - g3 * b, g4 * b, d6);
        dist_sub(g6 - g0 * b - g1 * b - g2 * b, g3 * b, d6);
        dist_sub(g6 - g0 * b - g1 * b, g2 * b, d6);
        dist_sub(g6 - g0 * b, g1 * b, d6);
        dist_sub(g6, g0 * b, d6);
        mul_swap(g0, b, d6);
        mul_swap(g1, b, d6);
        mul_swap(g2, b, d6);
        mul_swap(g3, b, d6);
        mul_swap(g4, b, d6);
        mul_swap(g5, b, d6);
        mul_swap(g6, b, d6);
        mul_swap(n, b, d6);
        mul_comm(n, d6);
    }
    assert(g0 * dm == g0 * d0 * a + g0 * d1 * b + g0 * d2 * b + g0 * d3 * b + g0 * d4 * b
        + g0 * d5 * b + g0 * d6 * b) by {
        mul_eq(g0, dm, g0, a * d0 + b * (d1 + d2 + d3 + d4 + d5 + d6));
        mul_eq(g0, a * d0 + b * (d1 + d2 + d3 + d4 + d5 + d6), g0,
            d0 * a + d1 * b + d2 * b + d3 * b + d4 * b + d5 * b + d6 * b);
        dist_add_left(g0, d0 * a + d1 * b + d2 * b + d3 * b + d4 * b + d5 * b, d6 * b);
        dist_add_left(g0, d0 * a + d1 * b + d2 * b + d3 * b + d4 * b, d5 * b);
        dist_add_left(g0, d0 * a + d1 * b + d2 * b + d3 * b, d4 * b);
        dist_add_left(g0, d0 * a + d1 * b + d2 * b, d3 * b);
        dist_add_left(g0, d0 * a + d1 * b, d2 * b);
        dist_add_left(g0, d0 * a, d1 * b);
        mul_assoc(g0, d0, a);
        mul_assoc(g0, d1, b);
        mul_assoc(g0, d2, b);
        mul_assoc(g0, d3, b);
        mul_assoc(g0, d4, b);
        mul_assoc(g0, d5, b);
        mul_assoc(g0, d6, b);
    }
    assert(g1 * dm == g1 * d0 * a + g1 * d1 * b + g1 * d2 * b + g1 * d3 * b + g1 * d4 * b
        + g1 * d5 * b + g1 * d6 * b) by {
        mul_eq(g1, dm, g1, a * d0 + b * (d1 + d2 + d3 + d4 + d5 + d6));
        mul_eq(g1, a * d0 + b * (d1 + d2 + d3 + d4 + d5 + d6), g1,
            d0 * a + d1 * b + d2 * b + d3 * b + d4 * b + d5 * b + d6 * b);
        dist_add_left(g1, d0 * a + d1 * b + d2 * b + d3 * b + d4 * b + d5 * b, d6 * b);
        dist_add_left(g1, d0 * a + d1 * b + d2 * b + d3 * b + d4 * b, d5 * b);
        dist_add_left(g1, d0 * a + d1 * b + d2 * b + d3 * b, d4 * b);
        dist_add_left(g1, d0 * a + d1 * b + d2 * b, d3 * b);
        dist_add_left(g1, d0 * a + d1 * b, d2 * b);
        dist_add_left(g1, d0 * a, d1 * b);
        mul_assoc(g1, d0, a);
        mul_assoc(g1, d1, b);
        mul_assoc(g1, d2, b);
        mul_assoc(g1, d3, b);
        mul_assoc(g1, d4, b);
        mul_assoc(g1, d5, b);
        mul_assoc(g1, d6, b);
    }
    assert(g2 * dm == g2 * d0 * a + g2 * d1 * b + g2 * d2 * b + g2 * d3 * b + g2 * d4 * b
        + g2 * d5 * b + g2 * d6 * b) by {
        mul_eq(g2, dm, g2, a * d0 + b * (d1 + d2 + d3 + d4 + d5 + d6));
        mul_eq(g2, a * d0 + b * (d1 + d2 + d3 + d4 + d5 + d6), g2,
            d0 * a + d1 * b + d2 * b + d3 * b + d4 * b + d5 * b + d6 * b);
        dist_add_left(g2, d0 * a + d1 * b + d2 * b + d3 * b + d4 * b + d5 * b, d6 * b);
        dist_add_left(g2, d0 * a + d1 * b + d2 * b + d3 * b + d4 * b, d5 * b);
        dist_add_left(g2, d0 * a + d1 * b + d2 * b + d3 * b, d4 * b);
        dist_add_left(g2, d0 * a + d1 * b + d2 * b, d3 * b);
        dist_add_left(g2, d0 * a + d1 * b, d2 * b);
        dist_add_left(g2, d0 * a, d1 * b);
        mul_assoc(g2, d0, a);
        mul_assoc(g2, d1, b);
        mul_assoc(g2, d2, b);
        mul_assoc(g2, d3, b);
        mul_assoc(g2, d4, b);
        mul_assoc(g2, d5, b);
        mul_assoc(g2, d6, b);
    }
    assert(g3 * dm == g3 * d0 * a + g3 * d1 * b + g3 * d2 * b + g3 * d3 * b + g3 * d4 * b
        + g3 * d5 * b + g3 * d6 * b) by {
        mul_eq(g3, dm, g3, a * d0 + b * (d1 + d2 + d3 + d4 + d5 + d6));
        mul_eq(g3, a * d0 + b * (d1 + d2 + d3 + d4 + d5 + d6), g3,
            d0 * a + d1 * b + d2 * b + d3 * b + d4 * b + d5 * b + d6 * b);
        dist_add_left(g3, d0 * a + d1 * b + d2 * b + d3 * b + d4 * b + d5 * b, d6 * b);
        dist_add_left(g3, d0 * a + d1 * b + d2 * b + d3 * b + d4 * b, d5 * b);
        dist_add_left(g3, d0 * a + d1 * b + d2 * b + d3 * b, d4 * b);
        dist_add_left(g3, d0 * a + d1 * b + d2 * b, d3 * b);
        dist_add_left(g3, d0 * a + d1 * b, d2 * b);
        dist_add_left(g3, d0 * a, d1 * b);
        mul_assoc(g3, d0, a);
        mul_assoc(g3, d1, b);
        mul_assoc(g3, d2, b);
        mul_assoc(g3, d3, b);
        mul_assoc(g3, d4, b);
        mul_assoc(g3, d5, b);
        mul_assoc(g3, d6, b);
    }
    assert(g4 * dm == g4 * d0 * a + g4 * d1 * b + g4 * d2 * b + g4 * d3 * b + g4 * d4 * b
        + g4 * d5 * b + g4 * d6 * b) by {
        mul_eq(g4, dm, g4, a * d0 + b * (d1 + d2 + d3 + d4 + d5 + d6));
        mul_eq(g4, a * d0 + b * (d1 + d2 + d3 + d4 + d5 + d6), g4,
            d0 * a + d1 * b + d2 * b + d3 * b + d4 * b + d5 * b + d6 * b);
        dist_add_left(g4, d0 * a + d1 * b + d2 * b + d3 * b + d4 * b + d5 * b, d6 * b);
        dist_add_left(g4, d0 * a + d1 * b + d2 * b + d3 * b + d4 * b, d5 * b);
        dist_add_left(g4, d0 * a + d1 * b + d2 * b + d3 * b, d4 * b);
        dist_add_left(g4, d0 * a + d1 * b + d2 * b, d3 * b);
        dist_add_left(g4, d0 * a + d1 * b, d2 * b);
        dist_add_left(g4, d0 * a, d1 * b);
        mul_assoc(g4, d0, a);
        mul_assoc(g4, d1, b);
        mul_assoc(g4, d2, b);
        mul_assoc(g4, d3, b);
        mul_assoc(g4, d4, b);
        mul_assoc(g4, d5, b);
        mul_assoc(g4, d6, b);
    }
    assert(g5 * dm == g5 * d0 * a + g5 * d1 * b + g5 * d2 * b + g5 * d3 * b + g5 * d4 * b
        + g5 * d5 * b + g5 * d6 * b) by {
        mul_eq(g5, dm, g5, a * d0 + b * (d1 + d2 + d3 + d4 + d5 + d6));
        mul_eq(g5, a * d0 + b * (d1 + d2 + d3 + d4 + d5 + d6), g5,
            d0 * a + d1 * b + d2 * b + d3 * b + d4 * b + d5 * b + d6 * b);
        dist_add_left(g5, d0 * a + d1 * b + d2 * b + d3 * b + d4 * b + d5 * b, d6 * b);
        dist_add_left(g5, d0 * a + d1 * b + d2 * b + d3 * b + d4 * b, d5 * b);
        dist_add_left(g5, d0 * a + d1 * b + d2 * b + d3 * b, d4 * b);
        dist_add_left(g5, d0 * a + d1 * b + d2 * b, d3 * b);
        dist_add_left(g5, d0 * a + d1 * b, d2 * b);
        dist_add_left(g5, d0 * a, d1 * b);
        mul_assoc(g5, d0, a);
        mul_assoc(g5, d1, b);
        mul_assoc(g5, d2, b);
        mul_assoc(g5, d3, b);
        mul_assoc(g5, d4, b);
        mul_assoc(g5, d5, b);
        mul_assoc(g5, d6, b);
    }
    assert(g6 * dm == g6 * d0 * a + g6 * d1 * b + g6 * d2 * b + g6 * d3 * b + g6 * d4 * b
        + g6 * d5 * b + g6 * d6 * b) by {
        mul_eq(g6, dm, g6, a * d0 + b * (d1 + d2 + d3 + d4 + d5 + d6));
        mul_eq(g6, a * d0 + b * (d1 + d2 + d3 + d4 + d5 + d6), g6,
            d0 * a + d1 * b + d2 * b + d3 * b + d4 * b + d5 * b + d6 * b);
        dist_add_left(g6, d0 * a + d1 * b + d2 * b + d3 * b + d4 * b + d5 * b, d6 * b);
        dist_add_left(g6, d0 * a + d1 * b + d2 * b + d3 * b + d4 * b, d5 * b);
        dist_add_left(g6, d0 * a + d1 * b + d2 * b + d3 * b, d4 * b);
        dist_add_left(g6, d0 * a + d1 * b + d2 * b, d3 * b);
        dist_add_left(g6, d0 * a + d1 * b, d2 * b);
        dist_add_left(g6, d0 * a, d1 * b);
        mul_assoc(g6, d0, a);
        mul_assoc(g6, d1, b);
        mul_assoc(g6, d2, b);
        mul_assoc(g6, d3, b);
        mul_assoc(g6, d4, b);
        mul_assoc(g6, d5, b);
        mul_assoc(g6, d6, b);
    }
    assert(dm * n == d0 * n * a + d1 * n * b + d2 * n * b + d3 * n * b + d4 * n * b + d5 * n * b
        + d6 * n * b) by {
        mul_eq(n, dm, n, a * d0 + b * (d1 + d2 + d3 + d4 + d5 + d6));
        mul_comm(n, dm);
        mul_eq(n, a * d0 + b * (d1 + d2 + d3 + d4 + d5 + d6), n,
            d0 * a + d1 * b + d2 * b + d3 * b + d4 * b + d5 * b + d6 * b);
        dist_add_left(n, d0 * a + d1 * b + d2 * b + d3 * b + d4 * b + d5 * b, d6 * b);
        dist_add_left(n, d0 * a + d1 * b + d2 * b + d3 * b + d4 * b, d5 * b);
        dist_add_left(n, d0 * a + d1 * b + d2 * b + d3 * b, d4 * b);
        dist_add_left(n, d0 * a + d1 * b + d2 * b, d3 * b);
        dist_add_left(n, d0 * a + d1 * b, d2 * b);
        dist_add_left(n, d0 * a, d1 * b);
        mul_comm(n, d0);
        mul_assoc(n, d0, a);
        mul_comm(n, d1);
        mul_assoc(n, d1, b);
        mul_comm(n, d2);
        mul_assoc(n, d2, b);
        mul_comm(n, d3);
        mul_assoc(n, d3, b);
        mul_comm(n, d4);
        mul_assoc(n, d4, b);
        mul_comm(n, d5);
        mul_assoc(n, d5, b);
        mul_comm(n, d6);
        mul_assoc(n, d6, b);
    }
}

pub(crate) proof fn entry_of_sum(
    v: real,
    t0: real,
    t1: real,
    t2: real,
    t3: real,
    t4: real,
    t5: real,
    t6: real,
)
    ensures
        v * (t0 + t1 + t2 + t3 + t4 + t5 + t6)
            == v * t0 + v * t1 + v * t2 + v * t3 + v * t4 + v * t5 + v * t6,
{
    assert(v * (t0 + t1 + t2 + t3 + t4 + t5 + t6)
        == v * t0 + v * t1 + v * t2 + v * t3 + v * t4 + v * t5 + v * t6) by {
        dist_add_left(v, t0 + t1 + t2 + t3 + t4 + t5, t6);
        dist_add_left(v, t0 + t1 + t2 + t3 + t4, t5);
        dist_add_left(v, t0 + t1 + t2 + t3, t4);
        dist_add_left(v, t0 + t1 + t2, t3);
        dist_add_left(v, t0 + t1, t2);
        dist_add_left(v, t0, t1);
    }
}

pub(crate) proof fn sigma_pairing(
    p0: real,
    p1: real,
    p2: real,
    p3: real,
    p4: real,
    p5: real,
    p6: real,
    dm: real,
    n1: real,
    n2: real,
    n3: real,
    s: real,
)
    ensures
        p0 * dm + p1 * (dm + n1 * s) + p2 * (dm + n2 * s) + p3 * (dm + n3 * s) + p4 * (dm - n1 * s)
            + p5 * (dm - n2 * s) + p6 * (dm - n3 * s)
            == (p0 + p1 + p2 + p3 + p4 + p5 + p6) * dm + (p1 - p4) * s * n1 + (p2 - p5) * s * n2
            + (p3 - p6) * s * n3,
{
    assert(p1 * (dm + n1 * s) == p1 * dm + p1 * n1 * s) by {
        dist_add_left(p1, dm, n1 * s);
        mul_assoc(p1, n1, s);
    }
    assert(p2 * (dm + n2 * s) == p2 * dm + p2 * n2 * s) by {
        dist_add_left(p2, dm, n2 * s);
        mul_assoc(p2, n2, s);
    }
    assert(p3 * (dm + n3 * s) == p3 * dm + p3 * n3 * s) by {
        dist_add_left(p3, dm, n3 * s);
        mul_assoc(p3, n3, s);
    }
    assert(p4 * (dm - n1 * s) == p4 * dm - p4 * n1 * s) by {
        dist_sub_left(p4, dm, n1 * s);
        mul_assoc(p4, n1, s);
    }
    assert(p5 * (dm - n2 * s) == p5 * dm - p5 * n2 * s) by {
        dist_sub_left(p5, dm, n2 * s);
        mul_assoc(p5, n2, s);
    }
    assert(p6 * (dm - n3 * s) == p6 * dm - p6 * n3 * s) by {
        dist_sub_left(p6, dm, n3 * s);
        mul_assoc(p6, n3, s);
    }
    assert((p0 + p1 + p2 + p3 + p4 + p5 + p6) * dm
        == p0 * dm + p1 * dm + p2 * dm + p3 * dm + p4 * dm + p5 * dm + p6 * dm) by {
        dist_add(p0 + p1 + p2 + p3 + p4 + p5, p6, dm);
        dist_add(p0 + p1 + p2 + p3 + p4, p5, dm);
        dist_add(p0 + p1 + p2 + p3, p4, dm);
        dist_add(p0 + p1 + p2, p3, dm);
        dist_add(p0 + p1, p2, dm);
        dist_add(p0, p1, dm);
    }
    assert((p1 - p4) * s == p1 * s - p4 * s) by {
        dist_sub(p1, p4, s);
    }
    assert((p1 - p4) * s * n1 == p1 * n1 * s - p4 * n1 * s) by {
        mul_eq((p1 - p4) * s, n1, p1 * s - p4 * s, n1);
        dist_sub(p1 * s, p4 * s, n1);
        mul_swap(p1, s, n1);
        mul_swap(p4, s, n1);
    }
    assert((p2 - p5) * s == p2 * s - p5 * s) by {
        dist_sub(p2, p5, s);
    }
    assert((p2 - p5) * s * n2 == p2 * n2 * s - p5 * n2 * s) by {
        mul_eq((p2 - p5) * s, n2, p2 * s - p5 * s, n2);
        dist_sub(p2 * s, p5 * s, n2);
        mul_swap(p2, s, n2);
        mul_swap(p5, s, n2);
    }
    assert((p3 - p6) * s == p3 * s - p6 * s) by {
        dist_sub(p3, p6, s);
    }
    assert((p3 - p6) * s * n3 == p3 * n3 * s - p6 * n3 * s) by {
        mul_eq((p3 - p6) * s, n3, p3 * s - p6 * s, n3);
        dist_sub(p3 * s, p6 * s, n3);
        mul_swap(p3, s, n3);
        mul_swap(p6, s, n3);
    }
}

pub(crate) proof fn pulled_back(
    vx: real,
    vy: real,
    jx0: real,
    jy0: real,
    jx1: real,
    jy1: real,
    jx2: real,
    jy2: real,
    dx: real,
    dy: real,
    dz: real,
)
    ensures
        vx * (jx0 * dx + jx1 * dy + jx2 * dz) + vy * (jy0 * dx + jy1 * dy + jy2 * dz)
            == (jx0 * vx + jy0 * vy) * dx + (jx1 * vx + jy1 * vy) * dy + (jx2 * vx + jy2 * vy) * dz,
{
    assert(vx * (jx0 * dx + jx1 * dy + jx2 * dz)
        == vx * jx0 * dx + vx * jx1 * dy + vx * jx2 * dz) by {
        dist_add_left(vx, jx0 * dx + jx1 * dy, jx2 * dz);
        dist_add_left(vx, jx0 * dx, jx1 * dy);
        mul_assoc(vx, jx0, dx);
        mul_assoc(vx, jx1, dy);
        mul_assoc(vx, jx2, dz);
    }
    assert(vy * (jy0 * dx + jy1 * dy + jy2 * dz)
        == vy * jy0 * dx + vy * jy1 * dy + vy * jy2 * dz) by {
        dist_add_left(vy, jy0 * dx + jy1 * dy, jy2 * dz);
        dist_add_left(vy, jy0 * dx, jy1 * dy);
        mul_assoc(vy, jy0, dx);
        mul_assoc(vy, jy1, dy);
        mul_assoc(vy, jy2, dz);
    }
    assert(jx0 * vx == vx * jx0) by {
        mul_comm(jx0, vx);
    }
    assert(jy0 * vy == vy * jy0) by {
        mul_comm(jy0, vy);
    }
    assert((jx0 * vx + jy0 * vy) * dx == vx * jx0 * dx + vy * jy0 * dx) by {
        mul_eq(jx0 * vx + jy0 * vy, dx, vx * jx0 + vy * jy0, dx);
        dist_add(vx * jx0, vy * jy0, dx);
    }
    assert(jx1 * vx == vx * jx1) by {
        mul_comm(jx1, vx);
    }
    assert(jy1 * vy == vy * jy1) by {
        mul_comm(jy1, vy);
    }
    assert((jx1 * vx + jy1 * vy) * dy == vx * jx1 * dy + vy * jy1 * dy) by {
        mul_eq(jx1 * vx + jy1 * vy, dy, vx * jx1 + vy * jy1, dy);
        dist_add(vx * jx1, vy * jy1, dy);
    }
    assert(jx2 * vx == vx * jx2) by {
        mul_comm(jx2, vx);
    }
    assert(jy2 * vy == vy * jy2) by {
        mul_comm(jy2, vy);
    }
    assert((jx2 * vx + jy2 * vy) * dz == vx * jx2 * dz + vy * jy2 * dz) by {
        mul_eq(jx2 * vx + jy2 * vy, dz, vx * jx2 + vy * jy2, dz);
        dist_add(vx * jx2, vy * jy2, dz);
    }
}

pub(crate) proof fn moved_row(
    a: real,
    b: real,
    c: real,
    x: real,
    y: real,
    z: real,
    p: real,
    q: real,
    r: real,
    s: real,
    t: real,
)
    ensures
        (a * x + b * y + c * z) * s + (a * p + b * q + c * r) * t
            == a * (x * s + p * t) + b * (y * s + q * t) + c * (z * s + r * t),
{
    assert((a * x + b * y + c * z) * s == a * x * s + b * y * s + c * z * s) by {
        dist_add(a * x + b * y, c * z, s);
        dist_add(a * x, b * y, s);
    }
    assert((a * p + b * q + c * r) * t == a * p * t + b * q * t + c * r * t) by {
        dist_add(a * p + b * q, c * r, t);
        dist_add(a * p, b * q, t);
    }
    assert(a * (x * s + p * t) == a * x * s + a * p * t) by {
        dist_add_left(a, x * s, p * t);
        mul_assoc(a, x, s);
        mul_assoc(a, p, t);
    }
    assert(b * (y * s + q * t) == b * y * s + b * q * t) by {
        dist_add_left(b, y * s, q * t);
        mul_assoc(b, y, s);
        mul_assoc(b, q, t);
    }
    assert(c * (z * s + r * t) == c * z * s + c * r * t) by {
        dist_add_left(c, z * s, r * t);
        mul_assoc(c, z, s);
        mul_assoc(c, r, t);
    }
}

pub(crate) proof fn inner2_of_sum(
    v00: real,
    v01: real,
    v11: real,
    a00: real,
    a01: real,
    a11: real,
    b00: real,
    b01: real,
    b11: real,
)
    ensures
        v00 * (a00 + b00) + 2real * v01 * (a01 + b01) + v11 * (a11 + b11)
            == v00 * a00 + 2real * v01 * a01 + v11 * a11
            + (v00 * b00 + 2real * v01 * b01 + v11 * b11),
{
    assert(v00 * (a00 + b00) == v00 * a00 + v00 * b00) by {
        dist_add_left(v00, a00, b00);
    }
    assert(2real * v01 * (a01 + b01) == 2real * (v01 * a01) + 2real * (v01 * b01)) by {
        mul_assoc(2real, v01, a01 + b01);
        dist_add_left(v01, a01, b01);
    }
    assert(v11 * (a11 + b11) == v11 * a11 + v11 * b11) by {
        dist_add_left(v11, a11, b11);
    }
    assert(2real * v01 * a01 == 2real * (v01 * a01)) by {
        mul_assoc(2real, v01, a01);
    }
    assert(2real * v01 * b01 == 2real * (v01 * b01)) by {
        mul_assoc(2real, v01, b01);
    }
}

pub(crate) proof fn dot3_comm(a: real, b: real, c: real, x: real, y: real, z: real)
    ensures
        a * x + b * y + c * z == x * a + y * b + z * c,
{
    assert(x * a == a * x) by {
        mul_comm(x, a);
    }
    assert(y * b == b * y) by {
        mul_comm(y, b);
    }
    assert(z * c == c * z) by {
        mul_comm(z, c);
    }
}

} // verus!
