//! Exercises the classification and assembly steps directly, over an
//! integer scalar where exact equality is meaningful: which strategy each
//! input shape selects, the side-priority rules, and the field each
//! quantity lands in.

use pythagoras::right_angle::{
    one_side, two_sides, Resolution, RightAngle, RightAngleError, RightAngleInput, Side, SidePair,
};

#[test]
fn test_classify_counts() {
    let none = RightAngleInput::<i32> {
        radians: Some(7),
        rise: None,
        run: None,
        diagonal: None,
    };
    assert_eq!(
        RightAngle::from_input(&none),
        Err(RightAngleError::TooFewSides)
    );

    let one = RightAngleInput {
        radians: Some(7),
        rise: None,
        run: Some(4),
        diagonal: None,
    };
    assert_eq!(
        RightAngle::from_input(&one),
        Ok(Resolution::OneSide {
            radians: 7,
            side: Side::Run,
            length: 4,
        })
    );

    let two = RightAngleInput {
        radians: None,
        rise: None,
        run: Some(4),
        diagonal: Some(5),
    };
    assert_eq!(
        RightAngle::from_input(&two),
        Ok(Resolution::TwoSides {
            sides: SidePair::RunDiagonal,
            first: 4,
            second: 5,
            radians: None,
        })
    );

    let three = RightAngleInput {
        radians: Some(7),
        rise: Some(3),
        run: Some(4),
        diagonal: Some(5),
    };
    assert_eq!(
        RightAngle::from_input(&three),
        Ok(Resolution::ThreeSides {
            rise: 3,
            run: 4,
            diagonal: 5,
            radians: Some(7),
        })
    );
}

#[test]
fn test_one_side_requires_angle_first() {
    let input = RightAngleInput::<i32> {
        radians: None,
        rise: Some(3),
        run: None,
        diagonal: None,
    };
    assert_eq!(one_side(&input), Err(RightAngleError::AngleRequired));
    let bare = RightAngleInput::<i32> {
        radians: Some(7),
        rise: None,
        run: None,
        diagonal: None,
    };
    assert_eq!(one_side(&bare), Err(RightAngleError::TooFewSides));
}

#[test]
fn test_one_side_priority() {
    let input = RightAngleInput {
        radians: Some(7),
        rise: Some(3),
        run: Some(4),
        diagonal: Some(5),
    };
    assert_eq!(
        one_side(&input),
        Ok(Resolution::OneSide {
            radians: 7,
            side: Side::Rise,
            length: 3,
        })
    );
    let no_rise = RightAngleInput {
        radians: Some(7),
        rise: None,
        run: Some(4),
        diagonal: Some(5),
    };
    assert_eq!(
        one_side(&no_rise),
        Ok(Resolution::OneSide {
            radians: 7,
            side: Side::Run,
            length: 4,
        })
    );
}

#[test]
fn test_two_sides_priority() {
    let input = RightAngleInput {
        radians: None,
        rise: Some(3),
        run: Some(4),
        diagonal: Some(5),
    };
    assert_eq!(
        two_sides(&input),
        Ok(Resolution::TwoSides {
            sides: SidePair::RiseRun,
            first: 3,
            second: 4,
            radians: None,
        })
    );
    let no_run = RightAngleInput {
        radians: None,
        rise: Some(3),
        run: None,
        diagonal: Some(5),
    };
    assert_eq!(
        two_sides(&no_run),
        Ok(Resolution::TwoSides {
            sides: SidePair::RiseDiagonal,
            first: 3,
            second: 5,
            radians: None,
        })
    );
    let lone = RightAngleInput::<i32> {
        radians: None,
        rise: Some(3),
        run: None,
        diagonal: None,
    };
    assert_eq!(two_sides(&lone), Err(RightAngleError::TooFewSides));
}

#[test]
fn test_from_one_side_placement() {
    assert_eq!(
        RightAngle::from_one_side(7, Side::Rise, 3, 4, 5),
        RightAngle {
            radians: 7,
            rise: 3,
            run: 4,
            diagonal: 5,
        }
    );
    assert_eq!(
        RightAngle::from_one_side(7, Side::Run, 4, 3, 5),
        RightAngle {
            radians: 7,
            rise: 3,
            run: 4,
            diagonal: 5,
        }
    );
    assert_eq!(
        RightAngle::from_one_side(7, Side::Diagonal, 5, 3, 4),
        RightAngle {
            radians: 7,
            rise: 3,
            run: 4,
            diagonal: 5,
        }
    );
}

#[test]
fn test_from_two_sides_placement() {
    assert_eq!(
        RightAngle::from_two_sides(SidePair::RiseRun, 3, 4, 5, None, 7),
        RightAngle {
            radians: 7,
            rise: 3,
            run: 4,
            diagonal: 5,
        }
    );
    assert_eq!(
        RightAngle::from_two_sides(SidePair::RiseDiagonal, 3, 5, 4, Some(9), 7),
        RightAngle {
            radians: 9,
            rise: 3,
            run: 4,
            diagonal: 5,
        }
    );
    assert_eq!(
        RightAngle::from_two_sides(SidePair::RunDiagonal, 4, 5, 3, None, 7),
        RightAngle {
            radians: 7,
            rise: 3,
            run: 4,
            diagonal: 5,
        }
    );
}

#[test]
fn test_from_three_sides_fallback_angle() {
    assert_eq!(
        RightAngle::from_three_sides(3, 4, 5, None, 7),
        RightAngle {
            radians: 7,
            rise: 3,
            run: 4,
            diagonal: 5,
        }
    );
    assert_eq!(
        RightAngle::from_three_sides(3, 4, 5, Some(9), 7),
        RightAngle {
            radians: 9,
            rise: 3,
            run: 4,
            diagonal: 5,
        }
    );
}
