//! Climate actuation planner. The AC unit has no "set absolute value"
//! command: a set-temperature change is carried out as a sequence of
//! discrete step-up or step-down commands, one per degree, followed by the
//! optional fan-speed and activity selections. Planning is pure: given a
//! target and the baseline read from the hub, it yields the exact command
//! sequence to send and the intended state to echo back.

use vstd::prelude::*;
use crate::codec::{action_payload_chars, encode_action_payload};
use crate::models::{ACData, ACDataView, FanSpeed};

verus! {

/// The one room whose AC unit the client actuates.
pub const AC_ROOM_ID: u16 = 12;

/// One discrete AC actuation command.
#[derive(Clone, Copy, PartialEq, Eq, Structural, Debug)]
pub enum AcCommand {
    StepUp,
    StepDown,
    SetFan(FanSpeed),
    SetActive(bool),
}

/// Device id selecting a fan speed: auto 66, slow 67, medium 68, fast 69.
pub open spec fn fan_device_id(f: FanSpeed) -> u8 {
    match f {
        FanSpeed::Auto => 66u8,
        FanSpeed::Slow => 67u8,
        FanSpeed::Medium => 68u8,
        FanSpeed::Fast => 69u8,
    }
}

/// The numeric device id an actuation command is addressed to: 64 steps the
/// temperature up, 63 down, 57 turns the unit on, 58 off.
pub open spec fn ac_command_device_id(c: AcCommand) -> u8 {
    match c {
        AcCommand::StepUp => 64u8,
        AcCommand::StepDown => 63u8,
        AcCommand::SetFan(f) => fan_device_id(f),
        AcCommand::SetActive(b) => if b {
            57u8
        } else {
            58u8
        },
    }
}

impl AcCommand {
    /// The wire payload of this command.
    pub fn payload(&self) -> (r: String)
        ensures
            r@ == action_payload_chars(ac_command_device_id(*self) as nat),
    {
        let id: u8 = match self {
            AcCommand::StepUp => 64,
            AcCommand::StepDown => 63,
            AcCommand::SetFan(f) => match f {
                FanSpeed::Auto => 66,
                FanSpeed::Slow => 67,
                FanSpeed::Medium => 68,
                FanSpeed::Fast => 69,
            },
            AcCommand::SetActive(b) => if *b {
                57
            } else {
                58
            },
        };
        encode_action_payload(id)
    }
}

/// The step commands a set-temperature change calls for: one step per degree
/// of signed delta between target and baseline, emitted only when both are
/// known.
pub open spec fn step_commands(target: Option<u8>, baseline: Option<u8>) -> Seq<AcCommand> {
    match (target, baseline) {
        (Some(t), Some(b)) => if t >= b {
            Seq::new((t - b) as nat, |i: int| AcCommand::StepUp)
        } else {
            Seq::new((b - t) as nat, |i: int| AcCommand::StepDown)
        },
        _ => Seq::empty(),
    }
}

/// The single fan-speed selection, when one is targeted.
pub open spec fn fan_commands(target: Option<FanSpeed>) -> Seq<AcCommand> {
    match target {
        Some(f) => seq![AcCommand::SetFan(f)],
        None => Seq::empty(),
    }
}

/// The single activity selection, when one is targeted.
pub open spec fn active_commands(target: Option<bool>) -> Seq<AcCommand> {
    match target {
        Some(a) => seq![AcCommand::SetActive(a)],
        None => Seq::empty(),
    }
}

/// The full command sequence of one actuation: temperature steps first, then
/// the fan-speed selection, then the activity selection.
pub open spec fn plan_commands_spec(target: ACDataView, baseline: ACDataView) -> Seq<AcCommand> {
    step_commands(target.set_temp, baseline.set_temp) + fan_commands(target.fan_speed)
        + active_commands(target.active)
}

/// The intended state echoed back after an actuation: each attribute that
/// was actually targeted overwritten by the requested value, the rest kept
/// from the baseline. The set temperature counts as targeted only when the
/// baseline reported one to step from.
pub open spec fn apply_target_spec(target: ACDataView, baseline: ACDataView) -> ACDataView {
    ACDataView {
        room_temp: baseline.room_temp,
        set_temp: if target.set_temp is Some && baseline.set_temp is Some {
            target.set_temp
        } else {
            baseline.set_temp
        },
        fan_speed: if target.fan_speed is Some {
            target.fan_speed
        } else {
            baseline.fan_speed
        },
        active: if target.active is Some {
            target.active
        } else {
            baseline.active
        },
    }
}

/// Plans one actuation: the exact command sequence to send, in order, and
/// the intended state to report back.
pub fn plan_ac_update(target: &ACData, baseline: &ACData) -> (r: (Vec<AcCommand>, ACData))
    ensures
        r.0@ == plan_commands_spec(target.deep_view(), baseline.deep_view()),
        r.1.deep_view() == apply_target_spec(target.deep_view(), baseline.deep_view()),
{
    let mut cmds: Vec<AcCommand> = Vec::new();
    let room_temp: Option<String> = match &baseline.room_temp {
        Some(s) => Some(s.clone()),
        None => None,
    };
    let mut result = ACData {
        room_temp,
        set_temp: baseline.set_temp,
        fan_speed: baseline.fan_speed,
        active: baseline.active,
    };
    if let (Some(t), Some(b)) = (target.set_temp, baseline.set_temp) {
        result.set_temp = Some(t);
        if t >= b {
            let n = t - b;
            let mut i: u8 = 0;
            while i < n
                invariant
                    i <= n,
                    cmds@ =~= Seq::new(i as nat, |j: int| AcCommand::StepUp),
                decreases n - i,
            {
                cmds.push(AcCommand::StepUp);
                i = i + 1;
            }
        } else {
            let n = b - t;
            let mut i: u8 = 0;
            while i < n
                invariant
                    i <= n,
                    cmds@ =~= Seq::new(i as nat, |j: int| AcCommand::StepDown),
                decreases n - i,
            {
                cmds.push(AcCommand::StepDown);
                i = i + 1;
            }
        }
    }
    proof {
        assert(cmds@ =~= step_commands(target.deep_view().set_temp, baseline.deep_view().set_temp));
    }
    let ghost steps = cmds@;
    if let Some(f) = target.fan_speed {
        result.fan_speed = Some(f);
        cmds.push(AcCommand::SetFan(f));
    }
    proof {
        assert(cmds@ =~= steps + fan_commands(target.deep_view().fan_speed));
    }
    let ghost with_fan = cmds@;
    if let Some(a) = target.active {
        result.active = Some(a);
        cmds.push(AcCommand::SetActive(a));
    }
    proof {
        assert(cmds@ =~= with_fan + active_commands(target.deep_view().active));
        assert(cmds@ =~= plan_commands_spec(target.deep_view(), baseline.deep_view()));
    }
    (cmds, result)
}

/// Whether a requested set temperature lies in the range the hub honours:
/// a caller-facing validation, checked before any actuation; an absent
/// target temperature is always acceptable.
pub fn target_temp_in_range(set_temp: Option<u8>) -> (r: bool)
    ensures
        r == (match set_temp {
            Some(t) => 20 <= t <= 25,
            None => true,
        }),
{
    match set_temp {
        Some(t) => 20 <= t && t <= 25,
        None => true,
    }
}

/// Whether a command is a discrete temperature step.
pub open spec fn is_step(c: AcCommand) -> bool {
    c == AcCommand::StepUp || c == AcCommand::StepDown
}

proof fn lemma_filter_all<A>(s: Seq<A>, pred: spec_fn(A) -> bool)
    requires
        forall|i: int| 0 <= i < s.len() ==> pred(s[i]),
    ensures
        s.filter(pred) == s,
    decreases s.len(),
{
    reveal(Seq::filter);
    if s.len() > 0 {
        lemma_filter_all(s.drop_last(), pred);
    }
    assert(s.filter(pred) =~= s);
}

proof fn lemma_filter_none<A>(s: Seq<A>, pred: spec_fn(A) -> bool)
    requires
        forall|i: int| 0 <= i < s.len() ==> !pred(s[i]),
    ensures
        s.filter(pred) == Seq::<A>::empty(),
    decreases s.len(),
{
    reveal(Seq::filter);
    if s.len() > 0 {
        lemma_filter_none(s.drop_last(), pred);
    }
    assert(s.filter(pred) =~= Seq::<A>::empty());
}

/// For every requested signed set-temperature delta, the plan holds exactly
/// as many step commands as the delta's magnitude — all step-up for a
/// positive delta, all step-down for a negative one, none for zero — and no
/// step command comes from anywhere else in the plan.
pub proof fn lemma_temperature_ramp(target: ACDataView, baseline: ACDataView, t: u8, b: u8)
    requires
        target.set_temp == Some(t),
        baseline.set_temp == Some(b),
    ensures
        ({
            let steps = plan_commands_spec(target, baseline).filter(|c: AcCommand| is_step(c));
            &&& steps == step_commands(Some(t), Some(b))
            &&& steps.len() == (if t >= b {
                t - b
            } else {
                b - t
            })
            &&& (t > b ==> forall|i: int|
                0 <= i < steps.len() ==> steps[i] == AcCommand::StepUp)
            &&& (t < b ==> forall|i: int|
                0 <= i < steps.len() ==> steps[i] == AcCommand::StepDown)
            &&& (t == b ==> steps.len() == 0)
        }),
{
    broadcast use Seq::filter_distributes_over_add;

    let pred = |c: AcCommand| is_step(c);
    let sc = step_commands(Some(t), Some(b));
    lemma_filter_all(sc, pred);
    lemma_filter_none(fan_commands(target.fan_speed), pred);
    lemma_filter_none(active_commands(target.active), pred);
    assert(plan_commands_spec(target, baseline).filter(pred) =~= sc);
}

} // verus!
