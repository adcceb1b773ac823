//! Goals as a host hands them over: flat arrays of scalars, so many per
//! goal, taken apart into positions, rotations and tolerances.
//!
//! A goal of a pose request is a [`Goal`] as the host wrote it. A rotation
//! is stored scalar part first, whichever way round the host writes it;
//! it is stored as given: bringing it to unit length is arithmetic and is
//! left to the numeric layer.

use crate::geometry::Position;
use crate::geometry::Rotation;
use crate::geometry::Tolerance;
use crate::vars::strict;
use crate::vars::Goal;
use crate::vars::InputError;
use vstd::prelude::*;

verus! {

/// One goal of a velocity request: a displacement, a turn as an axis
/// scaled by its angle, and a tolerance.
#[derive(Clone, Copy, Debug, PartialEq)]
pub struct VelocityInput<S> {
    pub linear: Position<S>,
    pub angular: Position<S>,
    pub tolerance: Tolerance<S>,
}

/// Triple `i` of a flat array.
pub open spec fn position_at<S>(flat: Seq<S>, i: int) -> Position<S> {
    Position { x: flat[3 * i], y: flat[3 * i + 1], z: flat[3 * i + 2] }
}

/// The order in which a host writes the four parts of a rotation.
#[derive(Clone, Copy, Debug, PartialEq, Eq, Structural)]
pub enum QuaternionOrder {
    /// `x, y, z, w`: the vector part first, as a JavaScript host writes it.
    VectorFirst,
    /// `w, x, y, z`: the scalar part first, as a C host writes it.
    ScalarFirst,
}

/// Quadruple `i` of a flat array, read in the given order.
pub open spec fn rotation_at<S>(flat: Seq<S>, i: int, order: QuaternionOrder) -> Rotation<S> {
    match order {
        QuaternionOrder::VectorFirst => Rotation {
            w: flat[4 * i + 3],
            i: flat[4 * i],
            j: flat[4 * i + 1],
            k: flat[4 * i + 2],
        },
        QuaternionOrder::ScalarFirst => Rotation {
            w: flat[4 * i],
            i: flat[4 * i + 1],
            j: flat[4 * i + 2],
            k: flat[4 * i + 3],
        },
    }
}

/// Sextuple `i` of a flat array: three translational widths, then three
/// rotational ones.
pub open spec fn tolerance_at<S>(flat: Seq<S>, i: int) -> Tolerance<S> {
    Tolerance {
        tx: flat[6 * i],
        ty: flat[6 * i + 1],
        tz: flat[6 * i + 2],
        rx: flat[6 * i + 3],
        ry: flat[6 * i + 4],
        rz: flat[6 * i + 5],
    }
}

/// The tolerance of goal `i`: read from the array where there is one, and
/// strict where the host gave none.
pub open spec fn tolerance_or_strict<S>(flat: Option<Seq<S>>, i: int, zero: S) -> Tolerance<S> {
    match flat {
        Some(values) => tolerance_at(values, i),
        None => strict(zero),
    }
}

/// The verdict on the lengths of a request for `count` goals with
/// `per_rotation` scalars per rotation: the first array of the wrong
/// length, if there is one. An absent tolerance array is never wrong.
pub open spec fn lengths_verdict(
    count: int,
    positions: int,
    rotations: int,
    per_rotation: int,
    tolerances: Option<int>,
) -> Option<InputError> {
    if positions != 3 * count {
        Some(InputError::PositionLength)
    } else if rotations != per_rotation * count {
        Some(InputError::RotationLength)
    } else if tolerances matches Some(n) && n != 6 * count {
        Some(InputError::ToleranceLength)
    } else {
        None
    }
}

/// The length of an optional array.
pub open spec fn optional_len<S>(flat: Option<&Vec<S>>) -> Option<int> {
    match flat {
        Some(v) => Some(v@.len() as int),
        None => None,
    }
}

/// The content of an optional array.
pub open spec fn optional_seq<S>(flat: Option<&Vec<S>>) -> Option<Seq<S>> {
    match flat {
        Some(v) => Some(v@),
        None => None,
    }
}

fn check_lengths(
    count: usize,
    positions: usize,
    rotations: usize,
    per_rotation: usize,
    tolerances: Option<usize>,
) -> (r: Option<InputError>)
    requires
        per_rotation == 3 || per_rotation == 4,
    ensures
        r == lengths_verdict(
            count as int,
            positions as int,
            rotations as int,
            per_rotation as int,
            match tolerances {
                Some(n) => Some(n as int),
                None => None,
            },
        ),
{
    if positions % 3 != 0 || positions / 3 != count {
        return Some(InputError::PositionLength);
    }
    if per_rotation == 3 {
        if rotations % 3 != 0 || rotations / 3 != count {
            return Some(InputError::RotationLength);
        }
    } else {
        if rotations % 4 != 0 || rotations / 4 != count {
            return Some(InputError::RotationLength);
        }
    }
    match tolerances {
        Some(n) => {
            if n % 6 != 0 || n / 6 != count {
                return Some(InputError::ToleranceLength);
            }
        },
        None => {},
    }
    None
}

fn read_tolerance<S: Copy>(tolerances: Option<&Vec<S>>, i: usize, zero: S) -> (r: Tolerance<S>)
    requires
        tolerances matches Some(v) ==> 6 * i + 5 < v.len(),
    ensures
        r == tolerance_or_strict(optional_seq(tolerances), i as int, zero),
{
    match tolerances {
        Some(v) => Tolerance {
            tx: v[6 * i],
            ty: v[6 * i + 1],
            tz: v[6 * i + 2],
            rx: v[6 * i + 3],
            ry: v[6 * i + 4],
            rz: v[6 * i + 5],
        },
        None => Tolerance::splat(zero),
    }
}

/// Takes a pose request for `count` goals apart.
///
/// `positions` holds three scalars per goal, `rotations` four in the
/// order `order`, and `tolerances`, where given, six. A request with
/// an array of any other length is turned down, naming the first such
/// array. A goal without a tolerance array is strict.
pub fn unpack_goals<S: Copy>(
    count: usize,
    positions: &Vec<S>,
    rotations: &Vec<S>,
    order: QuaternionOrder,
    tolerances: Option<&Vec<S>>,
    zero: S,
) -> (r: Result<Vec<Goal<S>>, InputError>)
    ensures
        match r {
            Ok(goals) => {
                &&& lengths_verdict(
                    count as int,
                    positions@.len() as int,
                    rotations@.len() as int,
                    4,
                    optional_len(tolerances),
                ) is None
                &&& goals.len() == count
                &&& forall|i: int|
                    0 <= i < count ==> #[trigger] goals[i] == (Goal {
                        position: position_at(positions@, i),
                        rotation: rotation_at(rotations@, i, order),
                        tolerance: tolerance_or_strict(optional_seq(tolerances), i, zero),
                    })
            },
            Err(e) => lengths_verdict(
                count as int,
                positions@.len() as int,
                rotations@.len() as int,
                4,
                optional_len(tolerances),
            ) == Some(e),
        },
{
    let given = match tolerances {
        Some(v) => Some(v.len()),
        None => None,
    };
    match check_lengths(count, positions.len(), rotations.len(), 4, given) {
        Some(e) => {
            return Err(e);
        },
        None => {},
    }
    let mut goals: Vec<Goal<S>> = Vec::new();
    let mut i: usize = 0;
    while i < count
        invariant
            i <= count,
            positions@.len() == 3 * count,
            rotations@.len() == 4 * count,
            tolerances matches Some(v) ==> v@.len() == 6 * count,
            4 * count <= usize::MAX,
            tolerances is Some ==> 6 * count <= usize::MAX,
            goals.len() == i,
            forall|k: int|
                0 <= k < i ==> #[trigger] goals[k] == (Goal {
                    position: position_at(positions@, k),
                    rotation: rotation_at(rotations@, k, order),
                    tolerance: tolerance_or_strict(optional_seq(tolerances), k, zero),
                }),
        decreases count - i,
    {
        let position = Position {
            x: positions[3 * i],
            y: positions[3 * i + 1],
            z: positions[3 * i + 2],
        };
        let rotation = match order {
            QuaternionOrder::VectorFirst => Rotation {
                w: rotations[4 * i + 3],
                i: rotations[4 * i],
                j: rotations[4 * i + 1],
                k: rotations[4 * i + 2],
            },
            QuaternionOrder::ScalarFirst => Rotation {
                w: rotations[4 * i],
                i: rotations[4 * i + 1],
                j: rotations[4 * i + 2],
                k: rotations[4 * i + 3],
            },
        };
        let tolerance = read_tolerance(tolerances, i, zero);
        goals.push(Goal { position, rotation, tolerance });
        i += 1;
    }
    Ok(goals)
}

/// Takes a velocity request for `count` goals apart.
///
/// `linear` and `angular` hold three scalars per goal, and `tolerances`,
/// where given, six. A request with an array of any other length is
/// turned down, naming the first such array.
pub fn unpack_velocities<S: Copy>(
    count: usize,
    linear: &Vec<S>,
    angular: &Vec<S>,
    tolerances: Option<&Vec<S>>,
    zero: S,
) -> (r: Result<Vec<VelocityInput<S>>, InputError>)
    ensures
        match r {
            Ok(goals) => {
                &&& lengths_verdict(
                    count as int,
                    linear@.len() as int,
                    angular@.len() as int,
                    3,
                    optional_len(tolerances),
                ) is None
                &&& goals.len() == count
                &&& forall|i: int|
                    0 <= i < count ==> #[trigger] goals[i] == (VelocityInput {
                        linear: position_at(linear@, i),
                        angular: position_at(angular@, i),
                        tolerance: tolerance_or_strict(optional_seq(tolerances), i, zero),
                    })
            },
            Err(e) => lengths_verdict(
                count as int,
                linear@.len() as int,
                angular@.len() as int,
                3,
                optional_len(tolerances),
            ) == Some(e),
        },
{
    let given = match tolerances {
        Some(v) => Some(v.len()),
        None => None,
    };
    match check_lengths(count, linear.len(), angular.len(), 3, given) {
        Some(e) => {
            return Err(e);
        },
        None => {},
    }
    let mut goals: Vec<VelocityInput<S>> = Vec::new();
    let mut i: usize = 0;
    while i < count
        invariant
            i <= count,
            linear@.len() == 3 * count,
            angular@.len() == 3 * count,
            tolerances matches Some(v) ==> v@.len() == 6 * count,
            3 * count <= usize::MAX,
            tolerances is Some ==> 6 * count <= usize::MAX,
            goals.len() == i,
            forall|k: int|
                0 <= k < i ==> #[trigger] goals[k] == (VelocityInput {
                    linear: position_at(linear@, k),
                    angular: position_at(angular@, k),
                    tolerance: tolerance_or_strict(optional_seq(tolerances), k, zero),
                }),
        decreases count - i,
    {
        let first = Position { x: linear[3 * i], y: linear[3 * i + 1], z: linear[3 * i + 2] };
        let second = Position { x: angular[3 * i], y: angular[3 * i + 1], z: angular[3 * i + 2] };
        let tolerance = read_tolerance(tolerances, i, zero);
        goals.push(VelocityInput { linear: first, angular: second, tolerance });
        i += 1;
    }
    Ok(goals)
}

} // verus!
