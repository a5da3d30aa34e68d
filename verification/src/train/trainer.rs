//! The trainer and its configuration.
use crate::cube::Vec3A;
use crate::expr::semantics::{double_value, group_value, Model};
use crate::expr::Scalar;
use crate::number::{Double, Single};
use crate::train::collections::OptimRecord;
use crate::train::prune::RefineRecord;
use crate::train::record::Splats;
use crate::train::schedule::{lemma_mean_schedule, mean_schedule, MeanSchedule};
use vstd::prelude::*;

verus! {

/// The numbers that steer training.
#[derive(Clone, Copy, Debug)]
pub struct TrainConfig {
    pub total_train_iters: u32,
    pub growth_stop_iter: u32,
    pub max_splats: u32,
    pub background_color: (Single, Single, Single),
    pub background_noise_strength: Single,
    pub ssim_weight: Single,
    pub match_alpha_weight: Single,
    pub lpips_loss_weight: Single,
    pub lr_coeffs_sh_scale: Single,
    pub mean_noise_weight: Single,
    pub split_at_screen_size: Single,
    pub growth_grad_threshold: Single,
    pub growth_select_fraction: Single,
    pub opac_decay: Single,
    pub lr_mean: Double,
    pub lr_mean_end: Double,
    pub lr_rotation: Double,
    pub lr_scale: Double,
    pub lr_coeffs_dc: Double,
    pub lr_opac: Double,
}

/// A box around the splats: its centre, and how far it reaches along each axis.
pub struct BoundingBox {
    pub center: Vec3A,
    pub extent: Vec3A,
}

/// A training view: where its camera stands, and its focal length in pixels at
/// the image's own resolution.
pub struct ViewCam {
    pub center: Vec3A,
    pub focal: Single,
}

/// The state of training between two steps.
pub struct SplatTrainer {
    pub config: TrainConfig,
    pub sched_mean: MeanSchedule,
    pub refine_record: Option<RefineRecord>,
    pub optim: Option<OptimRecord>,
    pub ssim_enabled: bool,
    pub bounds: BoundingBox,
    pub step_count: u32,
    pub max_sh_degree: u32,
    pub view_cams: Vec<ViewCam>,
    pub lpips_enabled: bool,
}

impl SplatTrainer {
    /// Growth stops no later than training, and the parts of the loss that are
    /// switched on are those with a weight.
    pub open spec fn wf(&self) -> bool {
        &&& self.config.growth_stop_iter <= self.config.total_train_iters
        &&& self.ssim_enabled == self.config.ssim_weight.positive()
        &&& self.lpips_enabled == self.config.lpips_loss_weight.positive()
    }

    /// A trainer that has taken no step. Refinement goes on after training
    /// proper, and does not grow then, whatever the configuration says.
    pub fn new(config: &TrainConfig, bounds: BoundingBox) -> (r: SplatTrainer)
        ensures
            r.wf(),
            r.config == (TrainConfig {
                growth_stop_iter: if config.growth_stop_iter <= config.total_train_iters {
                    config.growth_stop_iter
                } else {
                    config.total_train_iters
                },
                ..*config
            }),
            r.sched_mean == mean_schedule(
                config.lr_mean,
                config.lr_mean_end,
                config.total_train_iters,
            ),
            r.refine_record is None,
            r.optim is None,
            r.bounds == bounds,
            r.step_count == 0,
            r.max_sh_degree == 0,
            r.view_cams@.len() == 0,
    {
        let mut config = *config;
        if config.growth_stop_iter > config.total_train_iters {
            config.growth_stop_iter = config.total_train_iters;
        }
        SplatTrainer {
            config,
            sched_mean: mean_schedule(
                config.lr_mean,
                config.lr_mean_end,
                config.total_train_iters,
            ),
            refine_record: None,
            optim: None,
            ssim_enabled: config.ssim_weight.is_positive(),
            bounds,
            step_count: 0,
            max_sh_degree: 0,
            view_cams: Vec::new(),
            lpips_enabled: config.lpips_loss_weight.is_positive(),
        }
    }

    /// Supplies the training views, from which the smallest useful extent of
    /// each splat follows.
    pub fn set_view_cams(&mut self, view_cams: Vec<ViewCam>)
        ensures
            *final(self) == (SplatTrainer { view_cams, ..*old(self) }),
            TrainerCall::Other.leads(*old(self), *final(self)),
    {
        self.view_cams = view_cams;
    }
}

/// What a call of a trainer's method does to the statistics and to the schedule.
pub enum TrainerCall {
    /// [`SplatTrainer::ensure_refine_record`], as part of every step.
    Gather,
    /// [`SplatTrainer::scheduled_mean_rate`], as part of every step.
    Rate,
    /// [`SplatTrainer::settle_mean_rate`].
    Settle,
    /// [`SplatTrainer::refine`].
    Refine,
    /// Every other method.
    Other,
}

impl TrainerCall {
    /// The call can lead from one state of the trainer to another: gathering begins
    /// statistics where there are none, a refinement uses them up, taking a rate
    /// moves the schedule one step on, and nothing else touches either. No call
    /// touches the configuration.
    pub open spec fn leads(self, before: SplatTrainer, after: SplatTrainer) -> bool {
        &&& after.config == before.config
        &&& match self {
            TrainerCall::Gather => {
                &&& after.refine_record is Some
                &&& before.refine_record is Some ==> after.refine_record == before.refine_record
            },
            TrainerCall::Refine => after.refine_record is None,
            _ => after.refine_record == before.refine_record,
        }
        &&& match self {
            TrainerCall::Rate => after.sched_mean == before.sched_mean.stepped(),
            TrainerCall::Settle => after.sched_mean.decay == before.sched_mean.decay,
            _ => after.sched_mean == before.sched_mean,
        }
    }
}

/// The trainer went through these states by these calls.
pub open spec fn is_run(states: Seq<SplatTrainer>, calls: Seq<TrainerCall>) -> bool {
    &&& states.len() == calls.len() + 1
    &&& forall|i: int|
        0 <= i < calls.len() ==> (#[trigger] calls[i]).leads(states[i], states[i + 1])
}

/// Some step was taken after the last refinement.
pub open spec fn gathered_since_refine(calls: Seq<TrainerCall>) -> bool
    decreases calls.len(),
{
    if calls.len() == 0 {
        false
    } else {
        match calls.last() {
            TrainerCall::Gather => true,
            TrainerCall::Refine => false,
            _ => gathered_since_refine(calls.drop_last()),
        }
    }
}

/// A refinement needs a step since the trainer was made, or since the last
/// refinement: whatever else was called, it cannot be refined otherwise.
pub proof fn lemma_refine_needs_a_step(
    states: Seq<SplatTrainer>,
    calls: Seq<TrainerCall>,
    splats: Splats,
)
    requires
        is_run(states, calls),
        states[0].refine_record is None,
    ensures
        (states.last().refine_record is Some) == gathered_since_refine(calls),
        !gathered_since_refine(calls) ==> !states.last().can_refine(&splats),
    decreases calls.len(),
{
    if calls.len() > 0 {
        let n = calls.len() - 1;
        let before = states.drop_last();
        assert forall|i: int| 0 <= i < n implies (#[trigger] calls.drop_last()[i]).leads(
            before[i],
            before[i + 1],
        ) by {
            assert(calls[i].leads(states[i], states[i + 1]));
        }
        lemma_refine_needs_a_step(before, calls.drop_last(), splats);
        assert(calls[n].leads(states[n], states[n + 1]));
    }
}

/// How many rates were taken.
pub open spec fn rates_taken(calls: Seq<TrainerCall>) -> nat
    decreases calls.len(),
{
    if calls.len() == 0 {
        0
    } else {
        rates_taken(calls.drop_last()) + if calls.last() is Rate {
            1nat
        } else {
            0nat
        }
    }
}

/// Wherever a number was put in for the recorded rate, it is the one that the
/// recording denotes.
pub open spec fn settles_exactly(
    states: Seq<SplatTrainer>,
    calls: Seq<TrainerCall>,
    m: Model,
) -> bool {
    forall|i: int|
        0 <= i < calls.len() && (#[trigger] calls[i]) is Settle ==> states[i
            + 1].sched_mean.rate.value(m) == states[i].sched_mean.rate.value(m)
}

/// The schedule depends on nothing but how many rates were taken, and the
/// configuration stays.
proof fn lemma_schedule_of_run(states: Seq<SplatTrainer>, calls: Seq<TrainerCall>, m: Model)
    requires
        is_run(states, calls),
        settles_exactly(states, calls, m),
    ensures
        ({
            let s = states[0].sched_mean.after(rates_taken(calls));
            &&& states.last().sched_mean.rate.value(m) == s.rate.value(m)
            &&& states.last().sched_mean.decay == s.decay
            &&& states.last().config == states[0].config
        }),
    decreases calls.len(),
{
    if calls.len() > 0 {
        let n = calls.len() - 1;
        let before = states.drop_last();
        let fewer = calls.drop_last();
        assert forall|i: int| 0 <= i < n implies (#[trigger] fewer[i]).leads(
            before[i],
            before[i + 1],
        ) && (fewer[i] is Settle ==> before[i + 1].sched_mean.rate.value(m)
            == before[i].sched_mean.rate.value(m)) by {
            assert(calls[i].leads(states[i], states[i + 1]));
        }
        lemma_schedule_of_run(before, fewer, m);
        assert(calls[n].leads(states[n], states[n + 1]));
        broadcast use group_value;

    }
}

/// The rate that [`SplatTrainer::scheduled_mean_rate`] returns after so many rates
/// were taken: that of the start times the part of the whole fall that training has
/// covered, times the size of the bounds. The first is that of the start, and the one
/// after all iterations that of the end. The other rates are those of the
/// configuration all along.
pub proof fn lemma_rates_follow_the_schedule(
    states: Seq<SplatTrainer>,
    calls: Seq<TrainerCall>,
    median_scale: Scalar,
    m: Model,
)
    requires
        is_run(states, calls),
        settles_exactly(states, calls, m),
        states[0].sched_mean == mean_schedule(
            states[0].config.lr_mean,
            states[0].config.lr_mean_end,
            states[0].config.total_train_iters,
        ),
        m.powers(),
        states[0].config.total_train_iters > 0,
        double_value(states[0].config.lr_mean.bits) > 0real,
        double_value(states[0].config.lr_mean_end.bits) > 0real,
    ensures
        ({
            let config = states[0].config;
            let start = double_value(config.lr_mean.bits);
            let end = double_value(config.lr_mean_end.bits);
            let k = rates_taken(calls);
            let share = k as real / config.total_train_iters as real;
            let rate = (states.last().sched_mean.rate * median_scale).value(m);
            &&& rate == start * (m.pow)(end / start, share) * median_scale.value(m)
            &&& k == 0 ==> rate == start * median_scale.value(m)
            &&& k == config.total_train_iters ==> rate == end * median_scale.value(m)
            &&& states.last().config == config
        }),
{
    let config = states[0].config;
    lemma_schedule_of_run(states, calls, m);
    lemma_mean_schedule(
        config.lr_mean,
        config.lr_mean_end,
        config.total_train_iters,
        rates_taken(calls),
        m,
    );
    broadcast use group_value;

}

} // verus!
