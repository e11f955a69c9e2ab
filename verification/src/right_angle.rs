//! The resolver: classify a partial measurement record and assemble the
//! completed one.
//!
//! Completing a right triangle happens in two steps. First the resolver
//! inspects which fields of a [`RightAngleInput`] are present and picks the
//! resolution strategy — one side plus the angle, two sides, or all three
//! sides — returning a [`Resolution`] that names the strategy and carries the
//! given quantities, or a [`RightAngleError`] when the input is too sparse.
//! Second, once the caller has evaluated the closed-form formulas the chosen
//! strategy calls for, the `RightAngle::from_*` constructors place every
//! quantity, given or derived, into its field of the completed record.
//!
//! Both steps are pure and generic in the scalar type, and their contracts
//! pin the result exactly: which strategy is chosen for which input shape,
//! which error comes on which input, and that every given field reappears
//! verbatim in the completed record.

use vstd::prelude::*;

verus! {

/// The three sides of a right triangle, in the priority order the resolver
/// uses where a branch must pick a single side: rise, then run, then diagonal.
#[derive(Clone, Copy, Debug, PartialEq, Eq, Structural)]
pub enum Side {
    /// The side opposite the reference angle (`a`).
    Rise,
    /// The side adjacent to the reference angle (`b`).
    Run,
    /// The hypotenuse (`c`).
    Diagonal,
}

/// An unordered pair of distinct sides, named by the two members in the
/// canonical rise, run, diagonal order.
#[derive(Clone, Copy, Debug, PartialEq, Eq, Structural)]
pub enum SidePair {
    RiseRun,
    RiseDiagonal,
    RunDiagonal,
}

/// Why a partial record cannot be completed.
#[derive(Clone, Copy, Debug, PartialEq, Eq, Structural)]
pub enum RightAngleError {
    /// No side at all was supplied; a lone angle cannot fix the scale.
    TooFewSides,
    /// Exactly one side was supplied, so the angle is needed and was absent.
    AngleRequired,
    /// Defensive fallback for a side count outside 0 to 3; no input reaches it.
    InvalidInput,
}

/// A completed measurement record: all four quantities populated.
#[derive(Clone, Copy, Debug, PartialEq)]
pub struct RightAngle<T> {
    /// The reference angle, in radians.
    pub radians: T,
    /// The side opposite the angle (`a`).
    pub rise: T,
    /// The side adjacent to the angle (`b`).
    pub run: T,
    /// The hypotenuse (`c`).
    pub diagonal: T,
}

/// A partial measurement record: each quantity independently present or
/// absent. Absence means "unknown", which is distinct from any value.
#[derive(Clone, Copy, Debug, PartialEq)]
pub struct RightAngleInput<T> {
    /// The reference angle, in radians, if known.
    pub radians: Option<T>,
    /// The side opposite the angle (`a`), if known.
    pub rise: Option<T>,
    /// The side adjacent to the angle (`b`), if known.
    pub run: Option<T>,
    /// The hypotenuse (`c`), if known.
    pub diagonal: Option<T>,
}

/// How many of the three side fields are present in `input`.
pub open spec fn side_count<T>(input: RightAngleInput<T>) -> int {
    (if input.rise is Some { 1int } else { 0int })
        + (if input.run is Some { 1int } else { 0int })
        + (if input.diagonal is Some { 1int } else { 0int })
}

/// The resolution strategy chosen for a partial record, carrying every given
/// quantity the strategy consumes. The caller evaluates the named formulas
/// over these quantities and hands the results to the matching
/// `RightAngle::from_*` constructor.
#[derive(Clone, Copy, Debug, PartialEq)]
pub enum Resolution<T> {
    /// One side and the angle are known: derive the other two sides from
    /// `radians` and `length`, the length of `side`.
    OneSide { radians: T, side: Side, length: T },
    /// Two sides are known: `first` and `second` are their lengths in the
    /// canonical order of `sides`. Derive the third side from the pair, and
    /// the angle too when `radians` is absent; a present `radians` is kept
    /// verbatim.
    TwoSides { sides: SidePair, first: T, second: T, radians: Option<T> },
    /// All three sides are known and kept verbatim. Derive the angle from
    /// rise and run when `radians` is absent; a present `radians` is kept
    /// verbatim.
    ThreeSides { rise: T, run: T, diagonal: T, radians: Option<T> },
}

/// What [`one_side`] returns: the one-side strategy, or the error owed to the
/// input's shape. The present side is picked by the rise, run, diagonal
/// priority, which matters only to direct callers that supply more than one.
pub open spec fn one_side_spec<T>(input: RightAngleInput<T>) -> Result<
    Resolution<T>,
    RightAngleError,
> {
    match input.radians {
        None => Err(RightAngleError::AngleRequired),
        Some(r) => match (input.rise, input.run, input.diagonal) {
            (Some(a), _, _) => Ok(
                Resolution::OneSide { radians: r, side: Side::Rise, length: a },
            ),
            (_, Some(b), _) => Ok(Resolution::OneSide { radians: r, side: Side::Run, length: b }),
            (_, _, Some(c)) => Ok(
                Resolution::OneSide { radians: r, side: Side::Diagonal, length: c },
            ),
            _ => Err(RightAngleError::TooFewSides),
        },
    }
}

/// Classify a record for the one-side strategy: the angle and at least one
/// side must be present, and the first present side in rise, run, diagonal
/// order is the one used.
pub fn one_side<T: Copy>(input: &RightAngleInput<T>) -> (res: Result<
    Resolution<T>,
    RightAngleError,
>)
    ensures
        res == one_side_spec(*input),
{
    let radians = match input.radians {
        Some(r) => r,
        None => {
            return Err(RightAngleError::AngleRequired);
        },
    };
    match (input.rise, input.run, input.diagonal) {
        (Some(a), _, _) => Ok(Resolution::OneSide { radians, side: Side::Rise, length: a }),
        (_, Some(b), _) => Ok(Resolution::OneSide { radians, side: Side::Run, length: b }),
        (_, _, Some(c)) => Ok(Resolution::OneSide { radians, side: Side::Diagonal, length: c }),
        _ => Err(RightAngleError::TooFewSides),
    }
}

/// The record assembled for the one-side strategy: `length` fills the field
/// named by `side`, and `first` and `second` fill the two remaining side
/// fields in the canonical rise, run, diagonal order.
pub open spec fn from_one_side_spec<T>(
    radians: T,
    side: Side,
    length: T,
    first: T,
    second: T,
) -> RightAngle<T> {
    match side {
        Side::Rise => RightAngle { radians, rise: length, run: first, diagonal: second },
        Side::Run => RightAngle { radians, rise: first, run: length, diagonal: second },
        Side::Diagonal => RightAngle { radians, rise: first, run: second, diagonal: length },
    }
}

/// The record assembled for the two-side strategy: `first` and `second` fill
/// the two fields named by `sides` in its canonical order, `third` fills the
/// remaining side field, and the angle is `given` where present, else
/// `fallback`.
pub open spec fn from_two_sides_spec<T>(
    sides: SidePair,
    first: T,
    second: T,
    third: T,
    given: Option<T>,
    fallback: T,
) -> RightAngle<T> {
    let radians = match given {
        Some(r) => r,
        None => fallback,
    };
    match sides {
        SidePair::RiseRun => RightAngle { radians, rise: first, run: second, diagonal: third },
        SidePair::RiseDiagonal => RightAngle {
            radians,
            rise: first,
            run: third,
            diagonal: second,
        },
        SidePair::RunDiagonal => RightAngle { radians, rise: third, run: first, diagonal: second },
    }
}

/// The record assembled for the three-side strategy: every side verbatim,
/// and the angle is `given` where present, else `fallback`.
pub open spec fn from_three_sides_spec<T>(
    rise: T,
    run: T,
    diagonal: T,
    given: Option<T>,
    fallback: T,
) -> RightAngle<T> {
    let radians = match given {
        Some(r) => r,
        None => fallback,
    };
    RightAngle { radians, rise, run, diagonal }
}

/// What [`two_sides`] returns: the two-side strategy, or `TooFewSides` when
/// fewer than two sides are present. With all three sides present the
/// rise-run pair wins, by the same priority order as elsewhere.
pub open spec fn two_sides_spec<T>(input: RightAngleInput<T>) -> Result<
    Resolution<T>,
    RightAngleError,
> {
    match (input.rise, input.run, input.diagonal) {
        (Some(a), Some(b), _) => Ok(
            Resolution::TwoSides {
                sides: SidePair::RiseRun,
                first: a,
                second: b,
                radians: input.radians,
            },
        ),
        (Some(a), _, Some(c)) => Ok(
            Resolution::TwoSides {
                sides: SidePair::RiseDiagonal,
                first: a,
                second: c,
                radians: input.radians,
            },
        ),
        (_, Some(b), Some(c)) => Ok(
            Resolution::TwoSides {
                sides: SidePair::RunDiagonal,
                first: b,
                second: c,
                radians: input.radians,
            },
        ),
        _ => Err(RightAngleError::TooFewSides),
    }
}

/// Classify a record for the two-side strategy: a pair of sides is picked
/// and the angle, when present, travels with it untouched.
pub fn two_sides<T: Copy>(input: &RightAngleInput<T>) -> (res: Result<
    Resolution<T>,
    RightAngleError,
>)
    ensures
        res == two_sides_spec(*input),
{
    match (input.rise, input.run, input.diagonal) {
        (Some(a), Some(b), _) => Ok(
            Resolution::TwoSides {
                sides: SidePair::RiseRun,
                first: a,
                second: b,
                radians: input.radians,
            },
        ),
        (Some(a), _, Some(c)) => Ok(
            Resolution::TwoSides {
                sides: SidePair::RiseDiagonal,
                first: a,
                second: c,
                radians: input.radians,
            },
        ),
        (_, Some(b), Some(c)) => Ok(
            Resolution::TwoSides {
                sides: SidePair::RunDiagonal,
                first: b,
                second: c,
                radians: input.radians,
            },
        ),
        _ => Err(RightAngleError::TooFewSides),
    }
}

/// What [`three_sides`] returns: the three-side strategy, or `TooFewSides`
/// when some side is absent.
pub open spec fn three_sides_spec<T>(input: RightAngleInput<T>) -> Result<
    Resolution<T>,
    RightAngleError,
> {
    match (input.rise, input.run, input.diagonal) {
        (Some(a), Some(b), Some(c)) => Ok(
            Resolution::ThreeSides { rise: a, run: b, diagonal: c, radians: input.radians },
        ),
        _ => Err(RightAngleError::TooFewSides),
    }
}

/// Classify a record for the three-side strategy: all sides are kept
/// verbatim, and the angle, when present, travels with them untouched.
fn three_sides<T: Copy>(input: &RightAngleInput<T>) -> (res: Result<
    Resolution<T>,
    RightAngleError,
>)
    ensures
        res == three_sides_spec(*input),
{
    match (input.rise, input.run, input.diagonal) {
        (Some(a), Some(b), Some(c)) => Ok(
            Resolution::ThreeSides { rise: a, run: b, diagonal: c, radians: input.radians },
        ),
        _ => Err(RightAngleError::TooFewSides),
    }
}

/// What [`RightAngle::from_input`] returns: the strategy owed to the number
/// of present sides, or the error owed to a too-sparse input.
pub open spec fn resolve_spec<T>(input: RightAngleInput<T>) -> Result<
    Resolution<T>,
    RightAngleError,
> {
    let n = side_count(input);
    if n == 0 {
        Err(RightAngleError::TooFewSides)
    } else if n == 1 {
        one_side_spec(input)
    } else if n == 2 {
        two_sides_spec(input)
    } else {
        three_sides_spec(input)
    }
}

impl<T: Copy> RightAngle<T> {
    /// Classify a partial record by how many sides it carries and pick the
    /// resolution strategy: no side fails with `TooFewSides`; one side needs
    /// the angle, failing with `AngleRequired` without it; two or three sides
    /// always succeed, keeping a present angle verbatim.
    pub fn from_input(input: &RightAngleInput<T>) -> (res: Result<
        Resolution<T>,
        RightAngleError,
    >)
        ensures
            res == resolve_spec(*input),
    {
        let mut count: u32 = 0;
        if input.rise.is_some() {
            count += 1;
        }
        if input.run.is_some() {
            count += 1;
        }
        if input.diagonal.is_some() {
            count += 1;
        }
        match count {
            0 => Err(RightAngleError::TooFewSides),
            1 => one_side(input),
            2 => two_sides(input),
            3 => three_sides(input),
            // A fourth side does not exist, so this arm is unreachable; it
            // mirrors the closed 0-to-3 enumeration defensively.
            _ => Err(RightAngleError::InvalidInput),
        }
    }

    /// Assemble the completed record for the one-side strategy. `radians`,
    /// `side` and `length` come from [`Resolution::OneSide`]; `first` and
    /// `second` are the two derived sides, in the canonical rise, run,
    /// diagonal order of the fields they fill.
    pub fn from_one_side(radians: T, side: Side, length: T, first: T, second: T) -> (out: Self)
        ensures
            out == from_one_side_spec(radians, side, length, first, second),
    {
        match side {
            Side::Rise => RightAngle { radians, rise: length, run: first, diagonal: second },
            Side::Run => RightAngle { radians, rise: first, run: length, diagonal: second },
            Side::Diagonal => RightAngle { radians, rise: first, run: second, diagonal: length },
        }
    }

    /// Assemble the completed record for the two-side strategy. `sides`,
    /// `first`, `second` and `given` come from [`Resolution::TwoSides`];
    /// `third` is the derived missing side and `fallback` the derived angle,
    /// used only where `given` is absent.
    pub fn from_two_sides(
        sides: SidePair,
        first: T,
        second: T,
        third: T,
        given: Option<T>,
        fallback: T,
    ) -> (out: Self)
        ensures
            out == from_two_sides_spec(sides, first, second, third, given, fallback),
    {
        let radians = match given {
            Some(r) => r,
            None => fallback,
        };
        match sides {
            SidePair::RiseRun => RightAngle { radians, rise: first, run: second, diagonal: third },
            SidePair::RiseDiagonal => RightAngle {
                radians,
                rise: first,
                run: third,
                diagonal: second,
            },
            SidePair::RunDiagonal => RightAngle {
                radians,
                rise: third,
                run: first,
                diagonal: second,
            },
        }
    }

    /// Assemble the completed record for the three-side strategy. The sides
    /// and `given` come from [`Resolution::ThreeSides`]; `fallback` is the
    /// derived angle, used only where `given` is absent.
    pub fn from_three_sides(
        rise: T,
        run: T,
        diagonal: T,
        given: Option<T>,
        fallback: T,
    ) -> (out: Self)
        ensures
            out == from_three_sides_spec(rise, run, diagonal, given, fallback),
    {
        let radians = match given {
            Some(r) => r,
            None => fallback,
        };
        RightAngle { radians, rise, run, diagonal }
    }
}

} // verus!
