//! Positions, rotations, tolerances and poses over an abstract scalar.
//!
//! Nothing here computes with a scalar: values of the scalar type `S` are
//! stored, copied and laid out, so every statement holds for whatever
//! number type the numeric layer picks.

use vstd::prelude::*;

verus! {

/// A point or displacement in three-space.
#[derive(Clone, Copy, Debug, PartialEq)]
pub struct Position<S> {
    pub x: S,
    pub y: S,
    pub z: S,
}

/// A rotation as a quaternion, scalar part first: `w + i*x + j*y + k*z`.
#[derive(Clone, Copy, Debug, PartialEq)]
pub struct Rotation<S> {
    pub w: S,
    pub i: S,
    pub j: S,
    pub k: S,
}

/// The width of the band allowed around a goal on each of the six axes:
/// three translational, then three rotational.
#[derive(Clone, Copy, Debug, PartialEq)]
pub struct Tolerance<S> {
    pub tx: S,
    pub ty: S,
    pub tz: S,
    pub rx: S,
    pub ry: S,
    pub rz: S,
}

/// Where a link is and how it is turned.
#[derive(Clone, Copy, Debug, PartialEq)]
pub struct Pose<S> {
    pub position: Position<S>,
    pub rotation: Rotation<S>,
}

impl<S: Copy> Position<S> {
    pub fn new(x: S, y: S, z: S) -> (r: Self)
        ensures
            r == (Position { x, y, z }),
    {
        Position { x, y, z }
    }
}

impl<S: Copy> Rotation<S> {
    pub fn new(w: S, i: S, j: S, k: S) -> (r: Self)
        ensures
            r == (Rotation { w, i, j, k }),
    {
        Rotation { w, i, j, k }
    }
}

impl<S> Tolerance<S> {
    /// The translational width on `axis`: 0 is x, 1 is y, anything else is z.
    pub open spec fn spec_translational(self, axis: int) -> S {
        if axis == 0 {
            self.tx
        } else if axis == 1 {
            self.ty
        } else {
            self.tz
        }
    }

    /// The rotational width on `axis`: 0 is x, 1 is y, anything else is z.
    pub open spec fn spec_rotational(self, axis: int) -> S {
        if axis == 0 {
            self.rx
        } else if axis == 1 {
            self.ry
        } else {
            self.rz
        }
    }
}

impl<S: Copy> Tolerance<S> {
    /// The same width on all six axes.
    pub fn splat(value: S) -> (r: Self)
        ensures
            r == (Tolerance {
                tx: value,
                ty: value,
                tz: value,
                rx: value,
                ry: value,
                rz: value,
            }),
    {
        Tolerance { tx: value, ty: value, tz: value, rx: value, ry: value, rz: value }
    }

    /// The translational width on `axis`, or `None` where `axis` is not 0, 1 or 2.
    pub fn translational(&self, axis: usize) -> (r: Option<S>)
        ensures
            r == if axis < 3 {
                Some(self.spec_translational(axis as int))
            } else {
                None
            },
    {
        if axis == 0 {
            Some(self.tx)
        } else if axis == 1 {
            Some(self.ty)
        } else if axis == 2 {
            Some(self.tz)
        } else {
            None
        }
    }

    /// The rotational width on `axis`, or `None` where `axis` is not 0, 1 or 2.
    pub fn rotational(&self, axis: usize) -> (r: Option<S>)
        ensures
            r == if axis < 3 {
                Some(self.spec_rotational(axis as int))
            } else {
                None
            },
    {
        if axis == 0 {
            Some(self.rx)
        } else if axis == 1 {
            Some(self.ry)
        } else if axis == 2 {
            Some(self.rz)
        } else {
            None
        }
    }
}

impl<S> Pose<S> {
    /// The seven scalars of a pose in the order a host reads them:
    /// `x, y, z`, then the quaternion scalar part first, `w, i, j, k`.
    pub open spec fn flat(self) -> Seq<S> {
        seq![
            self.position.x,
            self.position.y,
            self.position.z,
            self.rotation.w,
            self.rotation.i,
            self.rotation.j,
            self.rotation.k,
        ]
    }
}

impl<S: Copy> Pose<S> {
    pub fn new(position: Position<S>, rotation: Rotation<S>) -> (r: Self)
        ensures
            r == (Pose { position, rotation }),
    {
        Pose { position, rotation }
    }

    /// Appends the seven scalars of the pose to `out`, in the order of [`Pose::flat`].
    pub fn append_flat(&self, out: &mut Vec<S>)
        ensures
            final(out)@ == old(out)@ + self.flat(),
    {
        out.push(self.position.x);
        out.push(self.position.y);
        out.push(self.position.z);
        out.push(self.rotation.w);
        out.push(self.rotation.i);
        out.push(self.rotation.j);
        out.push(self.rotation.k);
    }
}

/// The poses of `poses` laid end to end, seven scalars each.
pub open spec fn flat_poses<S>(poses: Seq<Pose<S>>) -> Seq<S>
    decreases poses.len(),
{
    if poses.len() == 0 {
        Seq::empty()
    } else {
        flat_poses(poses.drop_last()) + poses.last().flat()
    }
}

/// The flattened form holds seven scalars for each pose.
pub proof fn lemma_flat_poses_len<S>(poses: Seq<Pose<S>>)
    ensures
        flat_poses(poses).len() == 7 * poses.len(),
    decreases poses.len(),
{
    if poses.len() > 0 {
        lemma_flat_poses_len(poses.drop_last());
    }
}

/// Scalar `k` of pose `i` stands at place `7 * i + k` of the flattened form.
pub proof fn lemma_flat_poses_index<S>(poses: Seq<Pose<S>>, i: int, k: int)
    requires
        0 <= i < poses.len(),
        0 <= k < 7,
    ensures
        flat_poses(poses).len() == 7 * poses.len(),
        flat_poses(poses)[7 * i + k] == poses[i].flat()[k],
    decreases poses.len(),
{
    lemma_flat_poses_len(poses);
    lemma_flat_poses_len(poses.drop_last());
    if i < poses.len() - 1 {
        lemma_flat_poses_index(poses.drop_last(), i, k);
    }
}

/// A copy of a vector of copyable items.
pub fn copy_vec<T: Copy>(v: &Vec<T>) -> (r: Vec<T>)
    ensures
        r@ == v@,
{
    let mut r: Vec<T> = Vec::new();
    let mut i: usize = 0;
    while i < v.len()
        invariant
            i <= v.len(),
            r@ == v@.subrange(0, i as int),
        decreases v.len() - i,
    {
        r.push(v[i]);
        i += 1;
    }
    r
}

/// A vector of `len` copies of `value`.
pub fn filled<T: Copy>(len: usize, value: T) -> (r: Vec<T>)
    ensures
        r@ == Seq::new(len as nat, |i: int| value),
{
    let mut r: Vec<T> = Vec::new();
    let mut i: usize = 0;
    while i < len
        invariant
            i <= len,
            r@ == Seq::new(i as nat, |k: int| value),
        decreases len - i,
    {
        r.push(value);
        i += 1;
    }
    r
}

/// Lays the poses end to end, seven scalars each, in the order of [`Pose::flat`].
pub fn flatten_poses<S: Copy>(poses: &Vec<Pose<S>>) -> (r: Vec<S>)
    ensures
        r@ == flat_poses(poses@),
{
    let mut out: Vec<S> = Vec::new();
    let mut i: usize = 0;
    while i < poses.len()
        invariant
            i <= poses.len(),
            out@ == flat_poses(poses@.take(i as int)),
        decreases poses.len() - i,
    {
        proof {
            assert(poses@.take(i + 1).drop_last() == poses@.take(i as int));
        }
        poses[i].append_flat(&mut out);
        i += 1;
    }
    proof {
        assert(poses@.take(poses.len() as int) == poses@);
    }
    out
}

} // verus!
