//! The optimization step: what the loss is made of, which rates the optimizer
//! works at, and the noise that keeps splats exploring.
use crate::config::AlphaMode;
use crate::cube::{Pad, Vec3A};
use crate::expr::{decimal, narrow, single, whole, wide, Scalar};
use crate::number::{Double, Single};
use crate::render_bwd::{sh_coeff_count, sh_coeffs_for_degree};
use crate::train::collections::OptimRecord;
use crate::train::prune::RefineRecord;
use crate::train::record::{AdamState, Param, Splats};
use crate::train::schedule::MeanSchedule;
use crate::train::table::{copy_row, zero_row, Table};
use crate::train::trainer::{SplatTrainer, TrainConfig, TrainerCall};
use vstd::prelude::*;

verus! {

/// How the loss of an image is put together.
pub struct LossPlan {
    pub l1_weight: Scalar,
    pub ssim_weight: Scalar,
    /// The colour behind transparent pixels, where there are any to show it.
    pub composite_bg: Option<Vec3A>,
    /// Pixels that are masked out do not count.
    pub mask: bool,
    /// The predicted alpha is compared too.
    pub match_alpha: bool,
}

/// One of the parameters of the splats.
#[derive(Clone, Copy, Debug, PartialEq, Eq, Structural)]
pub enum ParamKind {
    Transforms,
    ShCoeffs,
    RawOpacities,
}

/// A step of the optimizer on one parameter, at a rate.
#[derive(Clone, Copy, Debug, PartialEq, Eq, Structural)]
pub struct OptimizerStep {
    pub param: ParamKind,
    pub rate: Double,
}

/// What a step reports.
pub struct TrainStepStats {
    pub num_visible: u32,
    pub lr_mean: Double,
    pub lr_rotation: Double,
    pub lr_scale: Double,
    pub lr_coeffs: Double,
    pub lr_opac: Double,
    pub loss: Scalar,
}

/// The bits of one, in double precision.
pub const ONE: u64 = 0x3ff0_0000_0000_0000;

pub open spec fn spec_optimizer_epsilon() -> Scalar {
    decimal(1, (-15) as i32)
}

/// What the optimizer adds to the root of the second moment before it divides.
#[verifier::when_used_as_spec(spec_optimizer_epsilon)]
pub fn optimizer_epsilon() -> (r: Scalar)
    ensures
        r == optimizer_epsilon(),
{
    Scalar::lit(1, -15)
}

/// The number, limited to the range from zero to one.
pub open spec fn unit_clamp(x: Scalar) -> Scalar {
    x.max(&whole(0)).min(&whole(1))
}

fn clamp_to_unit(x: &Scalar) -> (r: Scalar)
    ensures
        r == unit_clamp(*x),
{
    x.max(&Scalar::num(0)).min(&Scalar::num(1))
}

pub open spec fn spec_sample_background_color(
    base: &Vec3A,
    strength: Single,
    noise: &Vec3A,
) -> Vec3A {
    if strength.at_most_zero() {
        Vec3A { x: unit_clamp(base.x), y: unit_clamp(base.y), z: unit_clamp(base.z),
            pad: Pad::Zero }
    } else {
        Vec3A {
            x: unit_clamp(base.x + noise.x),
            y: unit_clamp(base.y + noise.y),
            z: unit_clamp(base.z + noise.z),
            pad: Pad::Zero,
        }
    }
}

/// The background of a step: the base colour, plus the noise where it has a
/// strength, limited to the range of colours. Each of the three numbers of the
/// noise is drawn between minus the strength and the strength.
#[verifier::when_used_as_spec(spec_sample_background_color)]
pub fn sample_background_color(base: &Vec3A, strength: Single, noise: &Vec3A) -> (r: Vec3A)
    ensures
        r == sample_background_color(base, strength, noise),
{
    if strength.is_at_most_zero() {
        Vec3A {
            x: clamp_to_unit(&base.x),
            y: clamp_to_unit(&base.y),
            z: clamp_to_unit(&base.z),
            pad: Pad::Zero,
        }
    } else {
        Vec3A {
            x: clamp_to_unit(&(&base.x + &noise.x)),
            y: clamp_to_unit(&(&base.y + &noise.y)),
            z: clamp_to_unit(&(&base.z + &noise.z)),
            pad: Pad::Zero,
        }
    }
}

/// The factors on the rate of the colour coefficients: the first band learns at
/// the full rate, the others slower.
pub open spec fn sh_lr_scales(num_coeffs: nat, sh_scale: Single) -> Seq<Scalar> {
    Seq::new(
        num_coeffs,
        |i: int|
            if i == 0 {
                whole(1)
            } else {
                whole(1) / single(sh_scale.bits)
            },
    )
}

/// The factors on the rate of the colour coefficients.
pub fn make_sh_lr_scales(num_coeffs: usize, sh_scale: Single) -> (r: Vec<Scalar>)
    requires
        num_coeffs > 0,
    ensures
        r@ == sh_lr_scales(num_coeffs as nat, sh_scale),
{
    let mut r: Vec<Scalar> = Vec::new();
    r.push(Scalar::num(1));
    let mut i: usize = 1;
    while i < num_coeffs
        invariant
            1 <= i <= num_coeffs,
            r@ == sh_lr_scales(i as nat, sh_scale),
        decreases num_coeffs - i,
    {
        r.push(Scalar::num(1) / sh_scale.scalar());
        i = i + 1;
        assert(r@ =~= sh_lr_scales(i as nat, sh_scale));
    }
    assert(r@ =~= sh_lr_scales(num_coeffs as nat, sh_scale));
    r
}

/// The rates of the ten columns: position, rotation, extent.
pub open spec fn transform_rates(config: TrainConfig, lr_mean: Double) -> Seq<Scalar> {
    let m = narrow(lr_mean.bits);
    let r = narrow(config.lr_rotation.bits);
    let s = narrow(config.lr_scale.bits);
    seq![m, m, m, r, r, r, r, s, s, s]
}

/// The rates of the ten columns: position, rotation, extent.
pub fn make_transform_rates(config: &TrainConfig, lr_mean: Double) -> (r: Vec<Scalar>)
    ensures
        r@ == transform_rates(*config, lr_mean),
{
    let mut r: Vec<Scalar> = Vec::new();
    r.push(lr_mean.scalar());
    r.push(lr_mean.scalar());
    r.push(lr_mean.scalar());
    r.push(config.lr_rotation.scalar());
    r.push(config.lr_rotation.scalar());
    r.push(config.lr_rotation.scalar());
    r.push(config.lr_rotation.scalar());
    r.push(config.lr_scale.scalar());
    r.push(config.lr_scale.scalar());
    r.push(config.lr_scale.scalar());
    r
}

impl SplatTrainer {
    /// The loss plan for a batch.
    pub open spec fn planned_loss(
        &self,
        has_alpha: bool,
        alpha_mode: AlphaMode,
        background: Vec3A,
        background_is_zero: bool,
    ) -> LossPlan {
        let masked = alpha_mode == AlphaMode::Masked;
        let w = single(self.config.ssim_weight.bits);
        LossPlan {
            l1_weight: if self.ssim_enabled {
                whole(1) - w
            } else {
                whole(1)
            },
            ssim_weight: if self.ssim_enabled {
                -w
            } else {
                whole(0)
            },
            composite_bg: if has_alpha && !background_is_zero {
                Some(background)
            } else {
                None
            },
            mask: masked,
            match_alpha: has_alpha && !masked && self.config.match_alpha_weight.positive(),
        }
    }

    /// Begins a step: remembers the degree of the first splats it sees, counts
    /// the step, and says how the loss is put together. Alpha is matched only
    /// where the image has an alpha of its own that is not a mask.
    pub fn step(
        &mut self,
        sh_degree: u32,
        has_alpha: bool,
        alpha_mode: AlphaMode,
        background: Vec3A,
        background_is_zero: bool,
    ) -> (r: LossPlan)
        requires
            old(self).step_count < u32::MAX,
        ensures
            r == old(self).planned_loss(has_alpha, alpha_mode, background, background_is_zero),
            *final(self) == (SplatTrainer {
                max_sh_degree: if old(self).step_count == 0 {
                    sh_degree
                } else {
                    old(self).max_sh_degree
                },
                step_count: (old(self).step_count + 1) as u32,
                ..*old(self)
            }),
            TrainerCall::Other.leads(*old(self), *final(self)),
    {
        if self.step_count == 0 {
            self.max_sh_degree = sh_degree;
        }
        self.step_count = self.step_count + 1;
        let masked = alpha_mode == AlphaMode::Masked;
        let (l1_weight, ssim_weight) = if self.ssim_enabled {
            let w = self.config.ssim_weight.scalar();
            (Scalar::num(1) - &w, w.neg())
        } else {
            (Scalar::num(1), Scalar::num(0))
        };
        LossPlan {
            l1_weight,
            ssim_weight,
            composite_bg: if has_alpha && !background_is_zero {
                Some(background)
            } else {
                None
            },
            mask: masked,
            match_alpha: has_alpha && !masked && self.config.match_alpha_weight.is_positive(),
        }
    }

    /// The loss: that of the colours, plus that of the alpha and the perceptual
    /// one where they are on.
    pub open spec fn spec_total_loss(
        &self,
        match_alpha: bool,
        color: &Scalar,
        alpha: &Scalar,
        lpips: &Scalar,
    ) -> Scalar {
        let base = if match_alpha {
            *color + *alpha * single(self.config.match_alpha_weight.bits)
        } else {
            *color
        };
        if self.lpips_enabled {
            base + *lpips * single(self.config.lpips_loss_weight.bits)
        } else {
            base
        }
    }

    /// The loss: that of the colours, plus that of the alpha and the perceptual
    /// one where they are on. The three numbers are means over the image.
    #[verifier::when_used_as_spec(spec_total_loss)]
    pub fn total_loss(
        &self,
        match_alpha: bool,
        color: &Scalar,
        alpha: &Scalar,
        lpips: &Scalar,
    ) -> (r: Scalar)
        ensures
            r == self.total_loss(match_alpha, color, alpha, lpips),
    {
        let base = if match_alpha {
            color + alpha * self.config.match_alpha_weight.scalar()
        } else {
            color.clone()
        };
        if self.lpips_enabled {
            base + lpips * self.config.lpips_loss_weight.scalar()
        } else {
            base
        }
    }

    /// The statistics to which a step adds, from nothing if it is the first since
    /// the last refinement.
    pub fn ensure_refine_record(&mut self, num_splats: usize)
        ensures
            final(self).refine_record is Some,
            old(self).refine_record is Some ==> *final(self) == *old(self),
            old(self).refine_record is None ==> {
                let record = final(self).refine_record->0;
                &&& record.refine_weight_norm@ == zero_row(num_splats as nat)
                &&& record.max_screen_size@ == zero_row(num_splats as nat)
                &&& record.visible@ == zero_row(num_splats as nat)
            },
            *final(self) == (SplatTrainer {
                refine_record: final(self).refine_record,
                ..*old(self)
            }),
            TrainerCall::Gather.leads(*old(self), *final(self)),
    {
        if self.refine_record.is_none() {
            self.refine_record = Some(RefineRecord::new(num_splats));
        }
    }

    /// The optimizer's record before the rates of this step are set: the one
    /// there is, or one that knows only the factors of the colour coefficients.
    pub open spec fn record_or_first(&self, sh_coeffs_id: u64, first: AdamState) -> Map<
        u64,
        AdamState,
    > {
        match self.optim {
            Some(record) => record@,
            None => Map::<u64, AdamState>::empty().insert(sh_coeffs_id, first),
        }
    }

    /// The rate at which positions learn in this step: that of the schedule, times
    /// the size of the bounds.
    pub fn scheduled_mean_rate(&mut self, median_scale: &Scalar) -> (r: Scalar)
        ensures
            r == old(self).sched_mean.rate * *median_scale,
            *final(self) == (SplatTrainer {
                sched_mean: old(self).sched_mean.stepped(),
                ..*old(self)
            }),
            TrainerCall::Rate.leads(*old(self), *final(self)),
    {
        self.sched_mean.step() * median_scale
    }

    /// Takes the number that the rate of the next step came to.
    pub fn settle_mean_rate(&mut self, rate: Double)
        ensures
            *final(self) == (SplatTrainer {
                sched_mean: MeanSchedule { rate: wide(rate.bits), ..old(self).sched_mean },
                ..*old(self)
            }),
            TrainerCall::Settle.leads(*old(self), *final(self)),
    {
        self.sched_mean.settle(rate);
    }

    /// Readies the optimizer: the first time with the factors of the colour
    /// coefficients, one for each coefficient of the degree that the first splats
    /// had, whatever the channel, and each time with the rates of the ten columns,
    /// which keep their moments. Then the steps it has to take, in order.
    pub fn prepare_optimizer(
        &mut self,
        transforms_id: u64,
        sh_coeffs_id: u64,
        lr_mean: Double,
    ) -> (r: Vec<OptimizerStep>)
        requires
            old(self).max_sh_degree < 0xffff,
        ensures
            final(self).optim is Some,
            *final(self) == (SplatTrainer { optim: final(self).optim, ..*old(self) }),
            TrainerCall::Other.leads(*old(self), *final(self)),
            exists|first: AdamState|
                {
                    let before = #[trigger] old(self).record_or_first(sh_coeffs_id, first);
                    let after = final(self).optim->0@;
                    let state = after[transforms_id];
                    &&& first.momentum is None
                    &&& first.reduce_moment_2
                    &&& first.scaling matches Some(s) && s@ == sh_lr_scales(
                        sh_coeff_count(old(self).max_sh_degree as int) as nat,
                        old(self).config.lr_coeffs_sh_scale,
                    )
                    &&& after == before.insert(transforms_id, state)
                    &&& !state.reduce_moment_2
                    &&& state.scaling matches Some(s) && s@ == transform_rates(
                        old(self).config,
                        lr_mean,
                    )
                    &&& state.momentum == (if before.contains_key(transforms_id) {
                        before[transforms_id].momentum
                    } else {
                        None
                    })
                },
            r@ == seq![
                OptimizerStep { param: ParamKind::Transforms, rate: Double { bits: ONE } },
                OptimizerStep {
                    param: ParamKind::ShCoeffs,
                    rate: old(self).config.lr_coeffs_dc,
                },
                OptimizerStep {
                    param: ParamKind::RawOpacities,
                    rate: old(self).config.lr_opac,
                },
            ],
    {
        let num_coeffs: usize = sh_coeffs_for_degree(self.max_sh_degree) as usize;
        assert(num_coeffs > 0) by (nonlinear_arith)
            requires
                num_coeffs == (self.max_sh_degree + 1) * (self.max_sh_degree + 1),
        ;
        let first = AdamState {
            momentum: None,
            scaling: Some(make_sh_lr_scales(num_coeffs, self.config.lr_coeffs_sh_scale)),
            reduce_moment_2: true,
        };
        let ghost seen = first;
        let mut record = match self.optim.take() {
            Some(record) => record,
            None => {
                let mut record = OptimRecord::new();
                record.insert(sh_coeffs_id, first);
                record
            },
        };
        let ghost before = record@;
        assert(before == old(self).record_or_first(sh_coeffs_id, seen));
        let momentum = match record.remove(transforms_id) {
            Some(state) => state.momentum,
            None => None,
        };
        record.insert(
            transforms_id,
            AdamState {
                momentum,
                scaling: Some(make_transform_rates(&self.config, lr_mean)),
                reduce_moment_2: false,
            },
        );
        assert(record@ =~= before.insert(transforms_id, record@[transforms_id]));
        self.optim = Some(record);
        let mut r: Vec<OptimizerStep> = Vec::new();
        r.push(OptimizerStep { param: ParamKind::Transforms, rate: Double { bits: ONE } });
        r.push(OptimizerStep { param: ParamKind::ShCoeffs, rate: self.config.lr_coeffs_dc });
        r.push(OptimizerStep { param: ParamKind::RawOpacities, rate: self.config.lr_opac });
        r
    }

    /// Hands out the state of a parameter, where there is one, for the optimizer
    /// to step with.
    pub fn take_state(&mut self, id: u64) -> (r: Option<AdamState>)
        requires
            old(self).optim is Some,
        ensures
            ({
                let before = old(self).optim->0@;
                &&& (r is Some) == before.contains_key(id)
                &&& r matches Some(state) ==> state == before[id]
                &&& final(self).optim matches Some(record) && record@ == before.remove(id)
                &&& *final(self) == (SplatTrainer { optim: final(self).optim, ..*old(self) })
            }),
            TrainerCall::Other.leads(*old(self), *final(self)),
    {
        let mut record = self.optim.take().unwrap();
        let r = record.remove(id);
        self.optim = Some(record);
        r
    }

    /// Keeps the state that a parameter has after the optimizer's step.
    pub fn keep_state(&mut self, id: u64, state: AdamState)
        requires
            old(self).optim is Some,
        ensures
            ({
                let before = old(self).optim->0@;
                &&& final(self).optim matches Some(record) && record@ == before.insert(id, state)
                &&& *final(self) == (SplatTrainer { optim: final(self).optim, ..*old(self) })
            }),
            TrainerCall::Other.leads(*old(self), *final(self)),
    {
        let mut record = self.optim.take().unwrap();
        record.insert(id, state);
        self.optim = Some(record);
    }

    /// What the step reports.
    pub fn step_stats(&self, num_visible: u32, lr_mean: Double, loss: Scalar) -> (r: TrainStepStats)
        ensures
            r == (TrainStepStats {
                num_visible,
                lr_mean,
                lr_rotation: self.config.lr_rotation,
                lr_scale: self.config.lr_scale,
                lr_coeffs: self.config.lr_coeffs_dc,
                lr_opac: self.config.lr_opac,
                loss,
            }),
    {
        TrainStepStats {
            num_visible,
            lr_mean,
            lr_rotation: self.config.lr_rotation,
            lr_scale: self.config.lr_scale,
            lr_coeffs: self.config.lr_coeffs_dc,
            lr_opac: self.config.lr_opac,
            loss,
        }
    }
}

pub open spec fn spec_noise_weight(opacity: &Scalar, visible: &Scalar) -> Scalar {
    (whole(1) - *opacity).pow(&whole(150)).clamp(&whole(0), &whole(1)) * *visible
}

/// How much a splat is moved about: next to nothing unless it is seen and nearly
/// transparent.
#[verifier::when_used_as_spec(spec_noise_weight)]
pub fn noise_weight(opacity: &Scalar, visible: &Scalar) -> (r: Scalar)
    ensures
        r == noise_weight(opacity, visible),
{
    (Scalar::num(1) - opacity).pow(&Scalar::num(150)).clamp(&Scalar::num(0), &Scalar::num(1))
        * visible
}

pub open spec fn spec_noised(
    x: &Scalar,
    sample: &Scalar,
    weight: &Scalar,
    median_scale: &Scalar,
) -> Scalar {
    *x + (*sample * *weight).clamp(&-*median_scale, median_scale)
}

/// A coordinate with its noise, which moves it by at most the size of the bounds.
#[verifier::when_used_as_spec(spec_noised)]
pub fn noised(x: &Scalar, sample: &Scalar, weight: &Scalar, median_scale: &Scalar) -> (r: Scalar)
    ensures
        r == noised(x, sample, weight, median_scale),
{
    x + (sample * weight).clamp(&median_scale.neg(), median_scale)
}

/// The weight of the noise on the position of a splat.
pub open spec fn mean_noise_weight(
    opacity: Scalar,
    visible: Scalar,
    lr_mean: Double,
    strength: Single,
) -> Scalar {
    noise_weight(&opacity, &visible) * (narrow(lr_mean.bits) * single(strength.bits))
}

/// The row of a splat once its position has its noise.
pub open spec fn noised_row(
    row: Seq<Scalar>,
    sample: Vec3A,
    weight: Scalar,
    median_scale: Scalar,
) -> Seq<Scalar> {
    row.update(0, noised(&row[0], &sample.x, &weight, &median_scale)).update(
        1,
        noised(&row[1], &sample.y, &weight, &median_scale),
    ).update(2, noised(&row[2], &sample.z, &weight, &median_scale))
}

/// What the noise of a step is made of: the opacity of each splat, whether it
/// was seen, and three normal samples for each.
pub struct NoiseInputs {
    pub opacities: Vec<Scalar>,
    pub visible: Vec<Scalar>,
    pub samples: Vec<Vec3A>,
}

impl NoiseInputs {
    pub open spec fn has_rows(&self, n: nat) -> bool {
        &&& self.opacities@.len() == n
        &&& self.visible@.len() == n
        &&& self.samples@.len() == n
    }
}

/// Moves the position of each splat by its noise; nothing else changes.
pub fn add_mean_noise(
    splats: Splats,
    inputs: &NoiseInputs,
    lr_mean: Double,
    strength: Single,
    median_scale: &Scalar,
) -> (r: Splats)
    requires
        splats.wf(),
        inputs.has_rows(splats.count()),
    ensures
        r.wf(),
        r.same_ids(&splats),
        r.sh_coeffs == splats.sh_coeffs,
        r.raw_opacities == splats.raw_opacities,
        r.transforms.value@ == Seq::new(
            splats.count(),
            |i: int|
                noised_row(
                    splats.transforms.value@[i],
                    inputs.samples@[i],
                    mean_noise_weight(
                        inputs.opacities@[i],
                        inputs.visible@[i],
                        lr_mean,
                        strength,
                    ),
                    *median_scale,
                ),
        ),
{
    let rows = &splats.transforms.value.rows;
    let mut table = Table::new();
    let mut i: usize = 0;
    while i < rows.len()
        invariant
            i <= rows@.len(),
            rows@ == splats.transforms.value.rows@,
            splats.wf(),
            inputs.has_rows(splats.count()),
            table@ == Seq::new(
                i as nat,
                |i: int|
                    noised_row(
                        splats.transforms.value@[i],
                        inputs.samples@[i],
                        mean_noise_weight(
                            inputs.opacities@[i],
                            inputs.visible@[i],
                            lr_mean,
                            strength,
                        ),
                        *median_scale,
                    ),
            ),
        decreases rows@.len() - i,
    {
        assert(splats.transforms.value@[i as int] == rows@[i as int]@);
        assert(splats.transforms.value@[i as int].len() == 10);
        let weight = noise_weight(&inputs.opacities[i], &inputs.visible[i]) * (lr_mean.scalar()
            * strength.scalar());
        let mut row = copy_row(&rows[i]);
        row.set(0, noised(&rows[i][0], &inputs.samples[i].x, &weight, median_scale));
        row.set(1, noised(&rows[i][1], &inputs.samples[i].y, &weight, median_scale));
        row.set(2, noised(&rows[i][2], &inputs.samples[i].z, &weight, median_scale));
        table.push(row);
        i = i + 1;
        assert(table@ =~= Seq::new(
            i as nat,
            |i: int|
                noised_row(
                    splats.transforms.value@[i],
                    inputs.samples@[i],
                    mean_noise_weight(
                        inputs.opacities@[i],
                        inputs.visible@[i],
                        lr_mean,
                        strength,
                    ),
                    *median_scale,
                ),
        ));
    }
    Splats {
        transforms: Param { id: splats.transforms.id, value: table },
        sh_coeffs: splats.sh_coeffs,
        raw_opacities: splats.raw_opacities,
    }
}

} // verus!
