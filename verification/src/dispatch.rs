//! The dispatch decisions: the loop's state machine and the policy that
//! picks at most one trigger out of a batch of motion events.
//!
//! The surrounding loop — pulling device events, playing a clip, sleeping,
//! polling the cancellation flag — is plain I/O and lives with the caller;
//! every decision it acts on is computed and verified here.

use crate::quantizer::{
    quantize, quantize_random, quantized, silent_motion, Outcome, QuantizerConfig,
    DELTA_LIMIT_MILLI,
};
use vstd::prelude::*;

verus! {

/// The dispatch loop's states: it runs until cancellation is observed,
/// then stops; `Stopped` is terminal.
#[derive(Clone, Copy, PartialEq, Eq, Structural, Debug)]
pub enum LoopState {
    Running,
    Stopping,
    Stopped,
}

/// What one poll of the cancellation flag does to the loop state.
pub open spec fn spec_on_poll(state: LoopState, cancel_requested: bool) -> LoopState {
    match state {
        LoopState::Running => if cancel_requested {
            LoopState::Stopping
        } else {
            LoopState::Running
        },
        LoopState::Stopping => LoopState::Stopped,
        LoopState::Stopped => LoopState::Stopped,
    }
}

/// Advances the loop state by one poll of the cancellation flag: a running
/// loop keeps running until cancellation is requested, then winds down to
/// the terminal state and stays there.
pub fn on_poll(state: LoopState, cancel_requested: bool) -> (next: LoopState)
    ensures
        next == spec_on_poll(state, cancel_requested),
{
    match state {
        LoopState::Running => if cancel_requested {
            LoopState::Stopping
        } else {
            LoopState::Running
        },
        LoopState::Stopping => LoopState::Stopped,
        LoopState::Stopped => LoopState::Stopped,
    }
}

/// One device event's displacement, in milli-units.
#[derive(Clone, Copy, PartialEq, Eq, Structural, Debug)]
pub struct MotionSample {
    pub dx_milli: i64,
    pub dy_milli: i64,
}

impl MotionSample {
    /// Both components stay within the accepted motion range.
    pub open spec fn in_range(self) -> bool {
        &&& -DELTA_LIMIT_MILLI <= self.dx_milli <= DELTA_LIMIT_MILLI
        &&& -DELTA_LIMIT_MILLI <= self.dy_milli <= DELTA_LIMIT_MILLI
    }
}

/// The trigger a batch produced: which event won and which level to play.
#[derive(Clone, Copy, PartialEq, Eq, Structural, Debug)]
pub struct BatchPick {
    pub index: usize,
    pub level: u64,
}

/// Picks at most one trigger from a batch of motion events, the rolls for
/// each event passed in so that the whole decision is deterministic: with
/// a closed playback gate nothing is picked; otherwise the first event that does
/// not map to silence wins and the events after it are discarded.
pub fn plan_batch(
    cfg: &QuantizerConfig,
    gate_open: bool,
    events: &Vec<MotionSample>,
    overflow_rolls: &Vec<u64>,
    promotion_rolls: &Vec<u64>,
) -> (r: Option<BatchPick>)
    requires
        cfg.wf(),
        overflow_rolls@.len() == events@.len(),
        promotion_rolls@.len() == events@.len(),
        forall|i: int| 0 <= i < events@.len() ==> events@[i].in_range(),
        forall|i: int| 0 <= i < events@.len()
            ==> cfg.overflow_lo <= #[trigger] overflow_rolls@[i] <= cfg.overflow_hi,
        forall|i: int| 0 <= i < events@.len() ==> promotion_rolls@[i] < 100,
    ensures
        !gate_open ==> r is None,
        r is None <==> (!gate_open || forall|i: int| 0 <= i < events@.len()
            ==> silent_motion(*cfg, events@[i].dx_milli as int, events@[i].dy_milli as int)),
        r matches Some(pick) ==> {
            &&& gate_open
            &&& pick.index < events@.len()
            &&& quantized(*cfg, events@[pick.index as int].dx_milli as int,
                    events@[pick.index as int].dy_milli as int,
                    overflow_rolls@[pick.index as int], promotion_rolls@[pick.index as int])
                == Outcome::Play(pick.level)
            &&& forall|j: int| 0 <= j < pick.index
                ==> silent_motion(*cfg, events@[j].dx_milli as int, events@[j].dy_milli as int)
        },
{
    if !gate_open {
        return None;
    }
    let mut i: usize = 0;
    while i < events.len()
        invariant
            cfg.wf(),
            gate_open,
            i <= events@.len(),
            overflow_rolls@.len() == events@.len(),
            promotion_rolls@.len() == events@.len(),
            forall|k: int| 0 <= k < events@.len() ==> events@[k].in_range(),
            forall|k: int| 0 <= k < events@.len()
                ==> cfg.overflow_lo <= #[trigger] overflow_rolls@[k] <= cfg.overflow_hi,
            forall|k: int| 0 <= k < events@.len() ==> promotion_rolls@[k] < 100,
            forall|j: int| 0 <= j < i
                ==> silent_motion(*cfg, events@[j].dx_milli as int, events@[j].dy_milli as int),
        decreases events@.len() - i,
    {
        let ev = events[i];
        let o = quantize(cfg, ev.dx_milli, ev.dy_milli, overflow_rolls[i], promotion_rolls[i]);
        match o {
            Outcome::Play(level) => {
                return Some(BatchPick { index: i, level });
            },
            Outcome::Silent => {
                proof {
                    crate::quantizer::lemma_silence_is_deterministic(*cfg,
                        ev.dx_milli as int, ev.dy_milli as int,
                        overflow_rolls@[i as int], promotion_rolls@[i as int]);
                }
            },
        }
        i = i + 1;
    }
    None
}

/// Picks at most one trigger from a batch, drawing the rolls from the
/// process random number generator: with a closed playback gate nothing is
/// picked; otherwise the first event that does not map to silence wins,
/// its level lies in `[1, levels]`, and it is a level the deterministic
/// quantizer produces for that event under some in-range rolls.
pub fn run_batch(cfg: &QuantizerConfig, gate_open: bool, events: &Vec<MotionSample>) -> (r:
    Option<BatchPick>)
    requires
        cfg.wf(),
        forall|i: int| 0 <= i < events@.len() ==> events@[i].in_range(),
    ensures
        !gate_open ==> r is None,
        r is None <==> (!gate_open || forall|i: int| 0 <= i < events@.len()
            ==> silent_motion(*cfg, events@[i].dx_milli as int, events@[i].dy_milli as int)),
        r matches Some(pick) ==> {
            &&& gate_open
            &&& pick.index < events@.len()
            &&& !silent_motion(*cfg, events@[pick.index as int].dx_milli as int,
                    events@[pick.index as int].dy_milli as int)
            &&& 1 <= pick.level <= cfg.levels
            &&& exists|orr: u64, prr: u64|
                cfg.overflow_lo <= orr <= cfg.overflow_hi && prr < 100
                    && quantized(*cfg, events@[pick.index as int].dx_milli as int,
                        events@[pick.index as int].dy_milli as int, orr, prr)
                        == Outcome::Play(pick.level)
            &&& forall|j: int| 0 <= j < pick.index
                ==> silent_motion(*cfg, events@[j].dx_milli as int, events@[j].dy_milli as int)
        },
{
    if !gate_open {
        return None;
    }
    let mut i: usize = 0;
    while i < events.len()
        invariant
            cfg.wf(),
            gate_open,
            i <= events@.len(),
            forall|k: int| 0 <= k < events@.len() ==> events@[k].in_range(),
            forall|j: int| 0 <= j < i
                ==> silent_motion(*cfg, events@[j].dx_milli as int, events@[j].dy_milli as int),
        decreases events@.len() - i,
    {
        let ev = events[i];
        let o = quantize_random(cfg, ev.dx_milli, ev.dy_milli);
        match o {
            Outcome::Play(level) => {
                return Some(BatchPick { index: i, level });
            },
            Outcome::Silent => {},
        }
        i = i + 1;
    }
    None
}

} // verus!
