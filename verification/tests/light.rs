use darkmap::light::animate_light_direction;
use darkmap::light::SunAxis;
use darkmap::light::SunKeys;
use darkmap::light::SunTurn;

fn keys(yaw_positive: bool, yaw_negative: bool, pitch_positive: bool, pitch_negative: bool) -> SunKeys {
    SunKeys { yaw_positive, yaw_negative, pitch_positive, pitch_negative }
}

fn yaw(turns: &[SunTurn]) -> i128 {
    turns.iter().filter(|t| t.axis == SunAxis::Yaw).map(|t| t.angle).sum()
}

#[test]
fn no_key_turns_nothing() {
    assert!(animate_light_direction(16_000_000, &keys(false, false, false, false)).is_empty());
}

#[test]
fn each_key_turns_about_its_axis() {
    let delta = 10_000_000;
    assert_eq!(
        animate_light_direction(delta, &keys(true, false, false, false)),
        vec![SunTurn { axis: SunAxis::Yaw, angle: 20_000_000 }]
    );
    assert_eq!(
        animate_light_direction(delta, &keys(false, true, false, false)),
        vec![SunTurn { axis: SunAxis::Yaw, angle: -20_000_000 }]
    );
    assert_eq!(
        animate_light_direction(delta, &keys(false, false, true, false)),
        vec![SunTurn { axis: SunAxis::Pitch, angle: 20_000_000 }]
    );
    assert_eq!(
        animate_light_direction(delta, &keys(false, false, false, true)),
        vec![SunTurn { axis: SunAxis::Pitch, angle: -20_000_000 }]
    );
}

#[test]
fn held_keys_turn_in_order() {
    assert_eq!(
        animate_light_direction(5, &keys(true, true, true, true)),
        vec![
            SunTurn { axis: SunAxis::Yaw, angle: 10 },
            SunTurn { axis: SunAxis::Yaw, angle: -10 },
            SunTurn { axis: SunAxis::Pitch, angle: 10 },
            SunTurn { axis: SunAxis::Pitch, angle: -10 },
        ]
    );
}

#[test]
fn one_second_of_yaw_is_two_radians_at_any_frame_rate() {
    let held = keys(true, false, false, false);
    let whole = yaw(&animate_light_direction(1_000_000_000, &held));
    assert_eq!(whole, 2_000_000_000);
    let mut sixty = 0i128;
    let mut left = 1_000_000_000u64;
    for _ in 0..59 {
        sixty += yaw(&animate_light_direction(16_666_667, &held));
        left -= 16_666_667;
    }
    sixty += yaw(&animate_light_direction(left, &held));
    assert_eq!(sixty, 2_000_000_000);
    let uneven: i128 = [1u64, 999_999_998, 1].iter().map(|d| yaw(&animate_light_direction(*d, &held))).sum();
    assert_eq!(uneven, 2_000_000_000);
    assert_eq!(whole as f64 / 1e9, 2.0);
}

#[test]
fn longest_frame_does_not_overflow() {
    let turns = animate_light_direction(u64::MAX, &keys(false, true, false, false));
    assert_eq!(turns, vec![SunTurn { axis: SunAxis::Yaw, angle: -2 * (u64::MAX as i128) }]);
}
