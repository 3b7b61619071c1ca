//! Control of the sun: which way the light is turned in a frame.
//!
//! Time is counted in nanoseconds and angles in billionths of a radian, so
//! that a turn is the exact product of rate and time.

use vstd::prelude::*;

verus! {

/// An axis that the light is turned about.
#[derive(Clone, Copy, Debug, PartialEq, Eq, Hash, Structural)]
pub enum SunAxis {
    /// The vertical axis.
    Yaw,
    /// The horizontal axis.
    Pitch,
}

/// One turn of the light.
#[derive(Clone, Copy, Debug, PartialEq, Eq, Hash, Structural)]
pub struct SunTurn {
    pub axis: SunAxis,
    /// Signed angle, in billionths of a radian.
    pub angle: i128,
}

/// Which of the four keys of the sun control are held.
#[derive(Clone, Copy, Debug, PartialEq, Eq, Hash, Structural)]
pub struct SunKeys {
    pub yaw_positive: bool,
    pub yaw_negative: bool,
    pub pitch_positive: bool,
    pub pitch_negative: bool,
}

/// Angular rate of the sun control, in radians per second.
pub const SUN_RATE: i128 = 2;

/// The angle that a held key turns the light by in a frame.
pub open spec fn frame_angle(delta_nanos: u64) -> int {
    SUN_RATE * delta_nanos
}

/// The turn of one key: none where the key is not held.
pub open spec fn key_turn(held: bool, axis: SunAxis, angle: int) -> Seq<SunTurn> {
    if held {
        seq![SunTurn { axis, angle: angle as i128 }]
    } else {
        Seq::empty()
    }
}

/// The turns of a frame, in the order in which they are applied: yaw
/// forward, yaw back, pitch forward, pitch back, each where its key is held.
pub open spec fn sun_turns(delta_nanos: u64, keys: SunKeys) -> Seq<SunTurn> {
    key_turn(keys.yaw_positive, SunAxis::Yaw, frame_angle(delta_nanos)) + key_turn(
        keys.yaw_negative,
        SunAxis::Yaw,
        -frame_angle(delta_nanos),
    ) + key_turn(keys.pitch_positive, SunAxis::Pitch, frame_angle(delta_nanos)) + key_turn(
        keys.pitch_negative,
        SunAxis::Pitch,
        -frame_angle(delta_nanos),
    )
}

/// The sum of the angles of the turns about an axis.
pub open spec fn turned(turns: Seq<SunTurn>, axis: SunAxis) -> int
    decreases turns.len(),
{
    if turns.len() == 0 {
        0
    } else {
        turned(turns.drop_last(), axis) + if turns.last().axis == axis {
            turns.last().angle as int
        } else {
            0
        }
    }
}

/// Radians per second that the held keys turn the light by about an axis.
pub open spec fn key_rate(keys: SunKeys, axis: SunAxis) -> int {
    let (forward, back) = match axis {
        SunAxis::Yaw => (keys.yaw_positive, keys.yaw_negative),
        SunAxis::Pitch => (keys.pitch_positive, keys.pitch_negative),
    };
    (if forward {
        SUN_RATE as int
    } else {
        0
    }) - (if back {
        SUN_RATE as int
    } else {
        0
    })
}

/// The time that a run of frames takes.
pub open spec fn elapsed(frames: Seq<u64>) -> int
    decreases frames.len(),
{
    if frames.len() == 0 {
        0
    } else {
        elapsed(frames.drop_last()) + frames.last()
    }
}

/// The angle that the light is turned by about an axis over a run of
/// frames during which the same keys are held.
pub open spec fn turned_over(frames: Seq<u64>, keys: SunKeys, axis: SunAxis) -> int
    decreases frames.len(),
{
    if frames.len() == 0 {
        0
    } else {
        turned_over(frames.drop_last(), keys, axis) + turned(sun_turns(frames.last(), keys), axis)
    }
}

/// The turns of the light in a frame that took `delta_nanos` nanoseconds.
///
/// Each held key turns the light by two radians per second for the time of
/// the frame, on top of what it was turned by before: one pair of keys
/// about the vertical axis, the other about the horizontal one, forward or
/// back. The turns are to be applied in the order given.
pub fn animate_light_direction(delta_nanos: u64, input: &SunKeys) -> (turns: Vec<SunTurn>)
    ensures
        turns@ == sun_turns(delta_nanos, *input),
{
    let angle: i128 = SUN_RATE * (delta_nanos as i128);
    let mut turns: Vec<SunTurn> = Vec::new();
    if input.yaw_positive {
        turns.push(SunTurn { axis: SunAxis::Yaw, angle });
    }
    if input.yaw_negative {
        turns.push(SunTurn { axis: SunAxis::Yaw, angle: -angle });
    }
    if input.pitch_positive {
        turns.push(SunTurn { axis: SunAxis::Pitch, angle });
    }
    if input.pitch_negative {
        turns.push(SunTurn { axis: SunAxis::Pitch, angle: -angle });
    }
    assert(turns@ =~= sun_turns(delta_nanos, *input));
    turns
}

/// What the turns of one frame add up to about an axis: the rate of the
/// held keys times the time of the frame.
pub proof fn frame_turns_by_rate(delta_nanos: u64, keys: SunKeys, axis: SunAxis)
    ensures
        turned(sun_turns(delta_nanos, keys), axis) == key_rate(keys, axis) * delta_nanos,
{
    let angle = frame_angle(delta_nanos);
    let a = key_turn(keys.yaw_positive, SunAxis::Yaw, angle);
    let b = key_turn(keys.yaw_negative, SunAxis::Yaw, -angle);
    let c = key_turn(keys.pitch_positive, SunAxis::Pitch, angle);
    let d = key_turn(keys.pitch_negative, SunAxis::Pitch, -angle);
    lemma_turned_of_key(keys.yaw_positive, SunAxis::Yaw, angle, axis);
    lemma_turned_of_key(keys.yaw_negative, SunAxis::Yaw, -angle, axis);
    lemma_turned_of_key(keys.pitch_positive, SunAxis::Pitch, angle, axis);
    lemma_turned_of_key(keys.pitch_negative, SunAxis::Pitch, -angle, axis);
    lemma_turned_adds(a, b, axis);
    lemma_turned_adds(a + b, c, axis);
    lemma_turned_adds(a + b + c, d, axis);
    assert(sun_turns(delta_nanos, keys) == a + b + c + d);
    let rate = key_rate(keys, axis);
    assert(rate == 2 || rate == 0 || rate == -2);
    assert(rate * delta_nanos == if rate == 2 {
        angle
    } else if rate == 0 {
        0
    } else {
        -angle
    });
}

/// The light's rotation does not depend on the frame rate: over any run of
/// frames during which the same keys are held, the light is turned about
/// each axis by the rate of the held keys times the time that the frames
/// take together. With the forward yaw key alone that is two radians for
/// each second about the vertical axis, and nothing about the other.
pub proof fn sun_rotation_accumulates(frames: Seq<u64>, keys: SunKeys, axis: SunAxis)
    ensures
        turned_over(frames, keys, axis) == key_rate(keys, axis) * elapsed(frames),
        keys == (SunKeys {
            yaw_positive: true,
            yaw_negative: false,
            pitch_positive: false,
            pitch_negative: false,
        }) ==> turned_over(frames, keys, SunAxis::Yaw) == 2 * elapsed(frames) && turned_over(
            frames,
            keys,
            SunAxis::Pitch,
        ) == 0,
{
    lemma_turned_over(frames, keys, axis);
    lemma_turned_over(frames, keys, SunAxis::Yaw);
    lemma_turned_over(frames, keys, SunAxis::Pitch);
    assert(0 * elapsed(frames) == 0);
}

proof fn lemma_turned_over(frames: Seq<u64>, keys: SunKeys, axis: SunAxis)
    ensures
        turned_over(frames, keys, axis) == key_rate(keys, axis) * elapsed(frames),
    decreases frames.len(),
{
    if frames.len() > 0 {
        lemma_turned_over(frames.drop_last(), keys, axis);
        frame_turns_by_rate(frames.last(), keys, axis);
        assert(key_rate(keys, axis) * elapsed(frames) == key_rate(keys, axis) * elapsed(
            frames.drop_last(),
        ) + key_rate(keys, axis) * frames.last()) by (nonlinear_arith)
            requires
                elapsed(frames) == elapsed(frames.drop_last()) + frames.last(),
        ;
    }
}

proof fn lemma_turned_of_key(held: bool, on: SunAxis, angle: int, axis: SunAxis)
    requires
        i128::MIN <= angle <= i128::MAX,
    ensures
        turned(key_turn(held, on, angle), axis) == if held && on == axis {
            angle
        } else {
            0
        },
{
    let turns = key_turn(held, on, angle);
    if held {
        assert(turns.drop_last() =~= Seq::<SunTurn>::empty());
        assert(turned(turns.drop_last(), axis) == 0);
    }
}

proof fn lemma_turned_adds(a: Seq<SunTurn>, b: Seq<SunTurn>, axis: SunAxis)
    ensures
        turned(a + b, axis) == turned(a, axis) + turned(b, axis),
    decreases b.len(),
{
    if b.len() == 0 {
        assert(a + b =~= a);
    } else {
        assert((a + b).drop_last() =~= a + b.drop_last());
        lemma_turned_adds(a, b.drop_last(), axis);
    }
}

} // verus!
