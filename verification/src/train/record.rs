//! The optimizer's state and how a change of the splats carries over to it.
use crate::expr::Scalar;
use crate::train::collections::OptimRecord;
use crate::train::table::Table;
use vstd::prelude::*;

verus! {

/// The running moments of a parameter's gradient.
pub struct Momentum {
    pub moment_1: Table,
    pub moment_2: Table,
}

/// The optimizer's state of one parameter: the moments once it has taken a
/// step, the factor on the learning rate per column (for the colour, per
/// coefficient, the same for each channel), and whether the second
/// moment is kept once per row.
pub struct AdamState {
    pub momentum: Option<Momentum>,
    pub scaling: Option<Vec<Scalar>>,
    pub reduce_moment_2: bool,
}

/// A parameter of the splats, under the identity by which the optimizer knows
/// it.
pub struct Param {
    pub id: u64,
    pub value: Table,
}

/// The parameters of all splats: position, rotation and logarithm of the extent
/// in ten columns, the coefficients of the colour, and the opacity's logit in
/// one column.
pub struct Splats {
    pub transforms: Param,
    pub sh_coeffs: Param,
    pub raw_opacities: Param,
}

impl AdamState {
    /// Both moments, where there are any, have `n` rows.
    pub open spec fn has_rows(self, n: nat) -> bool {
        self.momentum matches Some(m) ==> m.moment_1@.len() == n && m.moment_2@.len() == n
    }

    /// `self` is `before` with `f` applied to both moments.
    pub open spec fn mapped(
        self,
        before: AdamState,
        f: spec_fn(Seq<Seq<Scalar>>) -> Seq<Seq<Scalar>>,
    ) -> bool {
        &&& self.scaling == before.scaling
        &&& self.reduce_moment_2 == before.reduce_moment_2
        &&& (self.momentum is Some) == (before.momentum is Some)
        &&& before.momentum matches Some(m) ==> {
            &&& self.momentum->0.moment_1@ == f(m.moment_1@)
            &&& self.momentum->0.moment_2@ == f(m.moment_2@)
        }
    }
}

impl Splats {
    /// Every splat has a row of ten in `transforms`, a row that is not empty in
    /// `sh_coeffs` and a row of one in `raw_opacities`. Splats are counted and
    /// indexed in 32 bits with a sign.
    pub open spec fn wf(&self) -> bool {
        &&& self.transforms.value@.len() <= i32::MAX
        &&& self.sh_coeffs.value@.len() == self.transforms.value@.len()
        &&& self.raw_opacities.value@.len() == self.transforms.value@.len()
        &&& forall|i: int|
            0 <= i < self.transforms.value@.len() ==> (#[trigger] self.transforms.value@[i]).len()
                == 10
        &&& forall|i: int|
            0 <= i < self.sh_coeffs.value@.len() ==> (#[trigger] self.sh_coeffs.value@[i]).len()
                > 0
        &&& forall|i: int|
            0 <= i < self.raw_opacities.value@.len() ==> (
            #[trigger] self.raw_opacities.value@[i]).len() == 1
        &&& self.transforms.id != self.sh_coeffs.id
        &&& self.transforms.id != self.raw_opacities.id
        &&& self.sh_coeffs.id != self.raw_opacities.id
    }

    pub open spec fn count(&self) -> nat {
        self.transforms.value@.len()
    }

    /// The number of splats.
    pub fn num_splats(&self) -> (r: u32)
        requires
            self.wf(),
        ensures
            r == self.count(),
    {
        self.transforms.value.len() as u32
    }

    /// The record has a state for each parameter, with moments for every splat.
    pub open spec fn tracked_by(&self, record: Map<u64, AdamState>) -> bool {
        &&& record.contains_key(self.transforms.id)
        &&& record.contains_key(self.sh_coeffs.id)
        &&& record.contains_key(self.raw_opacities.id)
        &&& record[self.transforms.id].has_rows(self.count())
        &&& record[self.sh_coeffs.id].has_rows(self.count())
        &&& record[self.raw_opacities.id].has_rows(self.count())
    }

    /// The parameters keep their identities.
    pub open spec fn same_ids(&self, other: &Splats) -> bool {
        &&& self.transforms.id == other.transforms.id
        &&& self.sh_coeffs.id == other.sh_coeffs.id
        &&& self.raw_opacities.id == other.raw_opacities.id
    }
}

/// The function can be applied to both moments.
pub open spec fn moments_accepted<F: Fn(Table) -> Table>(map_fn: F, state: AdamState) -> bool {
    state.momentum matches Some(m) ==> {
        &&& call_requires(map_fn, (m.moment_1,))
        &&& call_requires(map_fn, (m.moment_2,))
    }
}

/// `after` is `before` with the function applied to both moments.
pub open spec fn moments_by<F: Fn(Table) -> Table>(
    map_fn: F,
    before: AdamState,
    after: AdamState,
) -> bool {
    &&& after.scaling == before.scaling
    &&& after.reduce_moment_2 == before.reduce_moment_2
    &&& (after.momentum is Some) == (before.momentum is Some)
    &&& before.momentum matches Some(m) ==> {
        &&& call_ensures(map_fn, (m.moment_1,), after.momentum->0.moment_1)
        &&& call_ensures(map_fn, (m.moment_2,), after.momentum->0.moment_2)
    }
}

/// Applies `map_fn` to both moments of a parameter, where it has any.
pub fn map_opt<F: Fn(Table) -> Table>(param_id: u64, record: &mut OptimRecord, map_fn: &F)
    requires
        old(record)@.contains_key(param_id),
        moments_accepted(*map_fn, old(record)@[param_id]),
    ensures
        final(record)@ == old(record)@.insert(param_id, final(record)@[param_id]),
        moments_by(*map_fn, old(record)@[param_id], final(record)@[param_id]),
{
    match record.remove(param_id) {
        Some(mut state) => {
            state.momentum = match state.momentum {
                Some(moment) => Some(
                    Momentum {
                        moment_1: map_fn(moment.moment_1),
                        moment_2: map_fn(moment.moment_2),
                    },
                ),
                None => None,
            };
            let ghost done = state;
            record.insert(param_id, state);
            assert(record@ =~= old(record)@.insert(param_id, done));
        },
        None => {},
    }
}

/// The states of the three parameters in `after` are those in `before` with the
/// three functions applied, and nothing else changes.
pub open spec fn record_by<D: Fn(Table) -> Table, E: Fn(Table) -> Table, F: Fn(Table) -> Table>(
    splats: Splats,
    before: Map<u64, AdamState>,
    after: Map<u64, AdamState>,
    map_opt_transforms: D,
    map_opt_sh_coeffs: E,
    map_opt_opac: F,
) -> bool {
    let t = splats.transforms.id;
    let s = splats.sh_coeffs.id;
    let o = splats.raw_opacities.id;
    &&& after == before.insert(t, after[t]).insert(s, after[s]).insert(o, after[o])
    &&& moments_by(map_opt_transforms, before[t], after[t])
    &&& moments_by(map_opt_sh_coeffs, before[s], after[s])
    &&& moments_by(map_opt_opac, before[o], after[o])
}

/// Applies one function to each parameter and one to its moments.
pub fn map_splats_and_opt<
    A: FnOnce(Table) -> Table,
    B: FnOnce(Table) -> Table,
    C: FnOnce(Table) -> Table,
    D: Fn(Table) -> Table,
    E: Fn(Table) -> Table,
    F: Fn(Table) -> Table,
>(
    splats: Splats,
    record: &mut OptimRecord,
    map_transforms: A,
    map_sh_coeffs: B,
    map_opac: C,
    map_opt_transforms: D,
    map_opt_sh_coeffs: E,
    map_opt_opac: F,
) -> (r: Splats)
    requires
        splats.wf(),
        old(record)@.contains_key(splats.transforms.id),
        old(record)@.contains_key(splats.sh_coeffs.id),
        old(record)@.contains_key(splats.raw_opacities.id),
        call_requires(map_transforms, (splats.transforms.value,)),
        call_requires(map_sh_coeffs, (splats.sh_coeffs.value,)),
        call_requires(map_opac, (splats.raw_opacities.value,)),
        moments_accepted(map_opt_transforms, old(record)@[splats.transforms.id]),
        moments_accepted(map_opt_sh_coeffs, old(record)@[splats.sh_coeffs.id]),
        moments_accepted(map_opt_opac, old(record)@[splats.raw_opacities.id]),
    ensures
        r.same_ids(&splats),
        call_ensures(map_transforms, (splats.transforms.value,), r.transforms.value),
        call_ensures(map_sh_coeffs, (splats.sh_coeffs.value,), r.sh_coeffs.value),
        call_ensures(map_opac, (splats.raw_opacities.value,), r.raw_opacities.value),
        record_by(
            splats,
            old(record)@,
            final(record)@,
            map_opt_transforms,
            map_opt_sh_coeffs,
            map_opt_opac,
        ),
{
    let t: u64 = splats.transforms.id;
    let s: u64 = splats.sh_coeffs.id;
    let o: u64 = splats.raw_opacities.id;
    let transforms = Param { id: t, value: map_transforms(splats.transforms.value) };
    map_opt(t, record, &map_opt_transforms);
    let sh_coeffs = Param { id: s, value: map_sh_coeffs(splats.sh_coeffs.value) };
    map_opt(s, record, &map_opt_sh_coeffs);
    let raw_opacities = Param { id: o, value: map_opac(splats.raw_opacities.value) };
    map_opt(o, record, &map_opt_opac);
    Splats { transforms, sh_coeffs, raw_opacities }
}

} // verus!
