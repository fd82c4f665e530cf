use std::f64::consts::PI;
use zen_clock::angle::Angle;
use zen_clock::hands::{hour_angle, minute_angle, HOUR_STEPS, MINUTE_STEPS};

fn radians(angle: Angle) -> f64 {
    2.0 * PI * f64::from(angle.num) / f64::from(angle.den)
}

fn close(left: f64, right: f64) -> bool {
    (left - right).abs() < 1e-12
}

#[test]
fn hour_angle_is_the_same_in_both_halves_of_the_day() {
    for hour in 0..24u32 {
        for minute in 0..60u32 {
            assert_eq!(hour_angle(hour, minute), hour_angle(hour % 12, minute));
        }
    }
}

#[test]
fn hour_angle_counts_sixty_steps_an_hour_and_one_a_minute() {
    assert_eq!(HOUR_STEPS, 720);
    assert_eq!(hour_angle(0, 0), Angle { num: 0, den: 720 });
    assert_eq!(hour_angle(0, 1), Angle { num: -1, den: 720 });
    assert_eq!(hour_angle(1, 0), Angle { num: -60, den: 720 });
    assert_eq!(hour_angle(11, 59), Angle { num: -719, den: 720 });
    assert_eq!(hour_angle(12, 0), Angle { num: 0, den: 720 });
    assert_eq!(hour_angle(23, 59), Angle { num: -719, den: 720 });
}

#[test]
fn hour_angle_follows_the_formula_in_radians() {
    for hour in 0..24u32 {
        for minute in 0..60u32 {
            let folded = f64::from(hour % 12);
            let expected = -PI * folded / 6.0 - PI * f64::from(minute) / 360.0;
            assert!(close(radians(hour_angle(hour, minute)), expected));
        }
    }
}

#[test]
fn minute_angle_counts_one_step_a_minute() {
    assert_eq!(MINUTE_STEPS, 60);
    for minute in 0..60u32 {
        let angle = minute_angle(minute);
        assert_eq!(angle.den, 60);
        assert_eq!(i64::from(angle.num), -i64::from(minute));
        assert!(close(radians(angle), -PI * f64::from(minute) / 30.0));
    }
}

#[test]
fn minute_angle_quarter_hour_fixed_points() {
    assert_eq!(minute_angle(0), Angle { num: 0, den: 60 });
    assert!(minute_angle(0).is_same_turn(&Angle::zero()));
    assert!(close(radians(minute_angle(0)), 0.0));

    assert_eq!(minute_angle(30), Angle { num: -30, den: 60 });
    assert!(minute_angle(30).is_same_turn(&Angle { num: -1, den: 2 }));
    assert!(close(radians(minute_angle(30)), -PI));

    assert_eq!(minute_angle(15), Angle { num: -15, den: 60 });
    assert!(minute_angle(15).is_same_turn(&Angle { num: -1, den: 4 }));
    assert!(close(radians(minute_angle(15)), -PI / 2.0));
}

#[test]
fn three_o_clock_hands() {
    let hour = hour_angle(3, 0);
    assert_eq!(hour, Angle { num: -180, den: 720 });
    assert!(hour.is_same_turn(&Angle { num: -1, den: 4 }));
    assert!(close(radians(hour), -PI / 2.0));

    let minute = minute_angle(0);
    assert_eq!(minute, Angle { num: 0, den: 60 });
    assert!(close(radians(minute), 0.0));
}

#[test]
fn half_past_six_hands() {
    let hour = hour_angle(6, 30);
    assert_eq!(hour, Angle { num: -390, den: 720 });
    assert!(hour.is_same_turn(&Angle { num: -13, den: 24 }));
    assert!(close(radians(hour), -PI - PI * 30.0 / 360.0));
    assert!(radians(hour) < -PI);

    let minute = minute_angle(30);
    assert_eq!(minute, Angle { num: -30, den: 60 });
    assert!(close(radians(minute), -PI));
}

#[test]
fn hands_meet_at_noon_and_midnight() {
    assert!(hour_angle(0, 0).is_same_turn(&minute_angle(0)));
    assert!(hour_angle(12, 0).is_same_turn(&minute_angle(0)));
    assert!(!hour_angle(12, 30).is_same_turn(&minute_angle(30)));
}
