//! The laws the resolver obeys, stated over the resolver's own spec
//! functions and proved once for every input and every scalar type.

use vstd::prelude::*;

use crate::right_angle::{
    from_one_side_spec, from_three_sides_spec, from_two_sides_spec, resolve_spec, side_count,
    Resolution, RightAngleError, RightAngleInput, Side,
};

verus! {

/// Each resolver error comes exactly on the inputs it is owed to, and on no
/// other: `TooFewSides` exactly when no side is present, `AngleRequired`
/// exactly when one side is present without the angle, success on every
/// other input — whatever the values, since no consistency is checked — and
/// `InvalidInput` never.
pub proof fn lemma_error_classification<T>(input: RightAngleInput<T>)
    ensures
        resolve_spec(input) == Err::<Resolution<T>, RightAngleError>(RightAngleError::TooFewSides)
            <==> side_count(input) == 0,
        resolve_spec(input) == Err::<Resolution<T>, RightAngleError>(RightAngleError::AngleRequired)
            <==> side_count(input) == 1 && input.radians is None,
        resolve_spec(input) is Ok <==> side_count(input) >= 2 || (side_count(input) == 1
            && input.radians is Some),
        resolve_spec(input) != Err::<Resolution<T>, RightAngleError>(RightAngleError::InvalidInput),
{
}

/// On success the strategy is the one owed to the number of present sides:
/// one-side for a single side, two-side for a pair, three-side for all
/// three.
pub proof fn lemma_strategy_matches_count<T>(input: RightAngleInput<T>)
    ensures
        resolve_spec(input) matches Ok(res) ==> {
            &&& res is OneSide <==> side_count(input) == 1
            &&& res is TwoSides <==> side_count(input) == 2
            &&& res is ThreeSides <==> side_count(input) == 3
        },
{
}

/// One side and the angle given: the resolver picks the one-side strategy,
/// and whatever two derived sides are handed back, the completed record
/// keeps the given angle and the given side verbatim.
pub proof fn lemma_one_side_preserves_given<T>(input: RightAngleInput<T>, first: T, second: T)
    requires
        side_count(input) == 1,
        input.radians is Some,
    ensures
        resolve_spec(input) matches Ok(res) && res is OneSide && ({
            let out = from_one_side_spec(
                res->OneSide_radians,
                res->OneSide_side,
                res->OneSide_length,
                first,
                second,
            );
            &&& out.radians == input.radians->0
            &&& (input.rise matches Some(a) ==> res->OneSide_side == Side::Rise && out.rise == a)
            &&& (input.run matches Some(b) ==> res->OneSide_side == Side::Run && out.run == b)
            &&& (input.diagonal matches Some(c) ==> res->OneSide_side == Side::Diagonal
                && out.diagonal == c)
        }),
{
}

/// Two sides given: the resolver picks the two-side strategy and never
/// fails, whatever the values — an inconsistent pair is resolved from the
/// formulas, not rejected. The completed record keeps both given sides
/// verbatim, and a given angle verbatim too, untouched by the derived
/// fallback; only an absent angle takes the fallback.
pub proof fn lemma_two_sides_preserves_given<T>(input: RightAngleInput<T>, third: T, fallback: T)
    requires
        side_count(input) == 2,
    ensures
        resolve_spec(input) matches Ok(res) && res is TwoSides && ({
            let out = from_two_sides_spec(
                res->TwoSides_sides,
                res->TwoSides_first,
                res->TwoSides_second,
                third,
                res->TwoSides_radians,
                fallback,
            );
            &&& (input.radians matches Some(r) ==> out.radians == r)
            &&& (input.radians is None ==> out.radians == fallback)
            &&& (input.rise matches Some(a) ==> out.rise == a)
            &&& (input.run matches Some(b) ==> out.run == b)
            &&& (input.diagonal matches Some(c) ==> out.diagonal == c)
        }),
{
}

/// Three sides given: the resolver picks the three-side strategy and never
/// fails. The completed record keeps all three sides verbatim, and a given
/// angle verbatim too; only an absent angle takes the derived fallback.
pub proof fn lemma_three_sides_preserves_given<T>(input: RightAngleInput<T>, fallback: T)
    requires
        side_count(input) == 3,
    ensures
        resolve_spec(input) matches Ok(res) && res is ThreeSides && ({
            let out = from_three_sides_spec(
                res->ThreeSides_rise,
                res->ThreeSides_run,
                res->ThreeSides_diagonal,
                res->ThreeSides_radians,
                fallback,
            );
            &&& out.rise == input.rise->0
            &&& out.run == input.run->0
            &&& out.diagonal == input.diagonal->0
            &&& (input.radians matches Some(r) ==> out.radians == r)
            &&& (input.radians is None ==> out.radians == fallback)
        }),
{
}

} // verus!
