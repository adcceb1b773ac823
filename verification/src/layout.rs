//! The shape of a robot as the solver sees it: which joints lie on which
//! chain, which of them move, and where the frame of a joint is found in
//! the forward-kinematics output.

use vstd::prelude::*;

verus! {

/// What a joint contributes to the configuration vector.
#[derive(Clone, Copy, Debug, PartialEq, Eq, Structural)]
pub enum JointKind {
    /// Rigid: it has a frame but no degree of freedom.
    Fixed,
    /// Sliding: its degree of freedom is a length.
    Prismatic,
    /// Any other joint: its degree of freedom is an angle.
    Revolute,
}

impl JointKind {
    /// The kind that a joint type name stands for: `fixed` and `prismatic`
    /// are themselves, every other name is a turning joint.
    pub open spec fn spec_from_name(name: Seq<char>) -> JointKind {
        if name == "fixed"@ {
            JointKind::Fixed
        } else if name == "prismatic"@ {
            JointKind::Prismatic
        } else {
            JointKind::Revolute
        }
    }

    pub fn from_name(name: &str) -> (r: JointKind)
        ensures
            r == Self::spec_from_name(name@),
    {
        let given = String::from_str(name);
        let fixed = String::from_str("fixed");
        let prismatic = String::from_str("prismatic");
        if given == fixed {
            JointKind::Fixed
        } else if given == prismatic {
            JointKind::Prismatic
        } else {
            JointKind::Revolute
        }
    }

    pub open spec fn spec_is_actuated(self) -> bool {
        self != JointKind::Fixed
    }

    /// Whether the joint owns an entry of the configuration vector.
    #[verifier::when_used_as_spec(spec_is_actuated)]
    pub fn is_actuated(self) -> (r: bool)
        ensures
            r == self.spec_is_actuated(),
    {
        match self {
            JointKind::Fixed => false,
            _ => true,
        }
    }
}

/// How many of `kinds` are actuated.
pub open spec fn actuated_count(kinds: Seq<JointKind>) -> nat
    decreases kinds.len(),
{
    if kinds.len() == 0 {
        0
    } else {
        actuated_count(kinds.drop_last()) + if kinds.last().is_actuated() {
            1nat
        } else {
            0nat
        }
    }
}

/// `k` is the place in `kinds` of the actuated joint that has exactly `n`
/// actuated joints before it.
pub open spec fn is_actuated_position(kinds: Seq<JointKind>, n: int, k: int) -> bool {
    &&& 0 <= k < kinds.len()
    &&& kinds[k].is_actuated()
    &&& actuated_count(kinds.take(k)) == n
}

/// The place in `kinds` of actuated joint number `n`, counting from zero.
pub open spec fn actuated_position(kinds: Seq<JointKind>, n: int) -> Option<int> {
    if exists|k: int| is_actuated_position(kinds, n, k) {
        Some(choose|k: int| is_actuated_position(kinds, n, k))
    } else {
        None
    }
}

/// A longer prefix holds at least as many actuated joints.
pub proof fn lemma_actuated_count_monotone(kinds: Seq<JointKind>, a: int, b: int)
    requires
        0 <= a <= b <= kinds.len(),
    ensures
        actuated_count(kinds.take(a)) <= actuated_count(kinds.take(b)),
    decreases b - a,
{
    if a < b {
        lemma_actuated_count_monotone(kinds, a, b - 1);
        assert(kinds.take(b).drop_last() == kinds.take(b - 1));
    }
}

/// At most one place holds actuated joint number `n`.
pub proof fn lemma_actuated_position_unique(kinds: Seq<JointKind>, n: int, k1: int, k2: int)
    requires
        is_actuated_position(kinds, n, k1),
        is_actuated_position(kinds, n, k2),
    ensures
        k1 == k2,
{
    if k1 < k2 {
        lemma_actuated_count_monotone(kinds, k1 + 1, k2);
        assert(kinds.take(k1 + 1).drop_last() == kinds.take(k1));
    } else if k2 < k1 {
        lemma_actuated_count_monotone(kinds, k2 + 1, k1);
        assert(kinds.take(k2 + 1).drop_last() == kinds.take(k2));
    }
}

/// Actuated joint number `n` exists exactly when more than `n` joints are
/// actuated.
pub proof fn lemma_actuated_position_exists(kinds: Seq<JointKind>, n: int)
    requires
        0 <= n,
    ensures
        actuated_position(kinds, n) is Some <==> n < actuated_count(kinds),
        actuated_position(kinds, n) matches Some(k) ==> is_actuated_position(kinds, n, k),
    decreases kinds.len(),
{
    if kinds.len() == 0 {
        assert(forall|k: int| !is_actuated_position(kinds, n, k));
    } else {
        let front = kinds.drop_last();
        let last = kinds.len() - 1;
        lemma_actuated_position_exists(front, n);
        assert(kinds.take(last) == front);
        assert(forall|k: int| 0 <= k <= last ==> #[trigger] kinds.take(k) == front.take(k));
        if n < actuated_count(front) {
            let k = choose|k: int| is_actuated_position(front, n, k);
            assert(is_actuated_position(kinds, n, k));
        } else if kinds.last().is_actuated() && actuated_count(front) == n {
            assert(is_actuated_position(kinds, n, last));
        } else {
            assert forall|k: int| !is_actuated_position(kinds, n, k) by {
                if is_actuated_position(kinds, n, k) {
                    if k < last {
                        assert(is_actuated_position(front, n, k));
                    }
                }
            }
        }
    }
}

/// The place in `kinds` of actuated joint number `n`, counting from zero;
/// `None` where fewer than `n + 1` joints are actuated.
pub fn find_actuated(kinds: &Vec<JointKind>, n: usize) -> (r: Option<usize>)
    ensures
        r is Some <==> n < actuated_count(kinds@),
        r matches Some(k) ==> actuated_position(kinds@, n as int) == Some(k as int),
        r is None ==> actuated_position(kinds@, n as int) is None,
{
    let mut seen: usize = 0;
    let mut k: usize = 0;
    while k < kinds.len()
        invariant
            k <= kinds.len(),
            seen == actuated_count(kinds@.take(k as int)),
            seen <= n,
        decreases kinds.len() - k,
    {
        proof {
            assert(kinds@.take(k + 1).drop_last() == kinds@.take(k as int));
        }
        if kinds[k].is_actuated() {
            if seen == n {
                proof {
                    assert(is_actuated_position(kinds@, n as int, k as int));
                    lemma_actuated_position_exists(kinds@, n as int);
                    lemma_actuated_position_unique(
                        kinds@,
                        n as int,
                        k as int,
                        actuated_position(kinds@, n as int).unwrap(),
                    );
                }
                return Some(k);
            }
            seen += 1;
        }
        k += 1;
    }
    proof {
        assert(kinds@.take(kinds.len() as int) == kinds@);
        lemma_actuated_position_exists(kinds@, n as int);
    }
    None
}

/// How many of `kinds` are actuated.
pub fn count_actuated(kinds: &Vec<JointKind>) -> (r: usize)
    ensures
        r == actuated_count(kinds@),
{
    let mut seen: usize = 0;
    let mut k: usize = 0;
    while k < kinds.len()
        invariant
            k <= kinds.len(),
            seen == actuated_count(kinds@.take(k as int)),
            seen <= k,
        decreases kinds.len() - k,
    {
        proof {
            assert(kinds@.take(k + 1).drop_last() == kinds@.take(k as int));
        }
        if kinds[k].is_actuated() {
            seen += 1;
        }
        k += 1;
    }
    proof {
        assert(kinds@.take(kinds.len() as int) == kinds@);
    }
    seen
}

/// Degree of freedom `dof` is entry `joint` of chain `chain`.
pub open spec fn occurs_at(chains: Seq<Vec<usize>>, dof: usize, chain: int, joint: int) -> bool {
    &&& 0 <= chain < chains.len()
    &&& 0 <= joint < chains[chain].len()
    &&& chains[chain][joint] == dof
}

/// Place `(c1, j1)` comes before `(c2, j2)` when the chains are read in
/// order, each from base to tip.
pub open spec fn comes_before(c1: int, j1: int, c2: int, j2: int) -> bool {
    c1 < c2 || (c1 == c2 && j1 < j2)
}

/// `(chain, joint)` is the first place at which `dof` occurs.
pub open spec fn is_first_occurrence(
    chains: Seq<Vec<usize>>,
    dof: usize,
    chain: int,
    joint: int,
) -> bool {
    &&& occurs_at(chains, dof, chain, joint)
    &&& forall|c: int, j: int| #[trigger]
        occurs_at(chains, dof, c, j) ==> !comes_before(c, j, chain, joint)
}

/// The first place at which `dof` occurs in `chains`, if it occurs.
pub open spec fn first_occurrence(chains: Seq<Vec<usize>>, dof: usize) -> Option<(int, int)> {
    if exists|p: (int, int)| is_first_occurrence(chains, dof, p.0, p.1) {
        Some(choose|p: (int, int)| is_first_occurrence(chains, dof, p.0, p.1))
    } else {
        None
    }
}

/// Two first occurrences of one degree of freedom are the same place.
pub proof fn lemma_first_occurrence_unique(
    chains: Seq<Vec<usize>>,
    dof: usize,
    p: (int, int),
    q: (int, int),
)
    requires
        is_first_occurrence(chains, dof, p.0, p.1),
        is_first_occurrence(chains, dof, q.0, q.1),
    ensures
        p == q,
{
    assert(occurs_at(chains, dof, p.0, p.1));
    assert(occurs_at(chains, dof, q.0, q.1));
}

/// The first `(chain, joint)` whose entry is `dof`, reading the chains in
/// order and each from base to tip.
pub fn locate_dof(chains: &[Vec<usize>], dof: usize) -> (r: Option<(usize, usize)>)
    ensures
        r matches Some(p) ==> first_occurrence(chains@, dof) == Some((p.0 as int, p.1 as int)),
        r is None ==> first_occurrence(chains@, dof) is None,
        r is None <==> forall|c: int, j: int| !occurs_at(chains@, dof, c, j),
{
    let mut c: usize = 0;
    while c < chains.len()
        invariant
            c <= chains.len(),
            forall|c2: int, j2: int| #[trigger] occurs_at(chains@, dof, c2, j2) ==> c <= c2,
        decreases chains.len() - c,
    {
        let mut j: usize = 0;
        while j < chains[c].len()
            invariant
                c < chains.len(),
                j <= chains@[c as int].len(),
                forall|c2: int, j2: int| #[trigger]
                    occurs_at(chains@, dof, c2, j2) ==> !comes_before(c2, j2, c as int, j as int),
            decreases chains@[c as int].len() - j,
        {
            if chains[c][j] == dof {
                proof {
                    let found = (c as int, j as int);
                    assert(is_first_occurrence(chains@, dof, found.0, found.1));
                    let chosen = choose|p: (int, int)|
                        is_first_occurrence(chains@, dof, p.0, p.1);
                    lemma_first_occurrence_unique(chains@, dof, found, chosen);
                    assert(occurs_at(chains@, dof, c as int, j as int));
                }
                return Some((c, j));
            }
            j += 1;
        }
        c += 1;
    }
    None
}

/// No entry of `chains` is larger than `bound`, and `bound` is one of
/// them.
pub open spec fn is_largest_index(chains: Seq<Vec<usize>>, bound: usize) -> bool {
    &&& forall|c: int, j: int|
        0 <= c < chains.len() && 0 <= j < chains[c].len() ==> #[trigger] chains[c][j] <= bound
    &&& exists|c: int, j: int| occurs_at(chains, bound, c, j)
}

/// Whether any chain holds an entry.
pub open spec fn has_entry(chains: Seq<Vec<usize>>) -> bool {
    exists|c: int| 0 <= c < chains.len() && #[trigger] chains[c].len() > 0
}

/// The largest degree-of-freedom index that any chain names; `None` where
/// the chains name none.
pub fn largest_index(chains: &[Vec<usize>]) -> (r: Option<usize>)
    ensures
        r is Some <==> has_entry(chains@),
        r matches Some(m) ==> is_largest_index(chains@, m),
{
    let mut found = false;
    let mut best: usize = 0;
    let mut c: usize = 0;
    while c < chains.len()
        invariant
            c <= chains.len(),
            !found ==> forall|c2: int| 0 <= c2 < c ==> #[trigger] chains@[c2].len() == 0,
            found ==> forall|c2: int, j2: int|
                0 <= c2 < c && 0 <= j2 < chains@[c2].len() ==> #[trigger] chains@[c2][j2] <= best,
            found ==> exists|c2: int, j2: int| c2 < c && #[trigger] occurs_at(chains@, best, c2, j2),
        decreases chains.len() - c,
    {
        let mut j: usize = 0;
        while j < chains[c].len()
            invariant
                c < chains.len(),
                j <= chains@[c as int].len(),
                !found ==> j == 0,
                !found ==> forall|c2: int| 0 <= c2 < c ==> #[trigger] chains@[c2].len() == 0,
                found ==> forall|c2: int, j2: int|
                    0 <= c2 < c && 0 <= j2 < chains@[c2].len() ==> #[trigger] chains@[c2][j2]
                        <= best,
                found ==> forall|j2: int| 0 <= j2 < j ==> #[trigger] chains@[c as int][j2] <= best,
                found ==> exists|c2: int, j2: int|
                    c2 <= c && #[trigger] occurs_at(chains@, best, c2, j2),
            decreases chains@[c as int].len() - j,
        {
            let value = chains[c][j];
            if !found || best < value {
                found = true;
                best = value;
                proof {
                    assert(occurs_at(chains@, value, c as int, j as int));
                }
            }
            j += 1;
        }
        proof {
            if found {
                let (c2, j2) = choose|c2: int, j2: int|
                    c2 <= c && #[trigger] occurs_at(chains@, best, c2, j2);
                assert(c2 < c + 1 && occurs_at(chains@, best, c2, j2));
            }
        }
        c += 1;
    }
    if found {
        proof {
            let (c2, j2) = choose|c2: int, j2: int|
                c2 < c && #[trigger] occurs_at(chains@, best, c2, j2);
            assert(chains@[c2].len() > 0);
        }
        Some(best)
    } else {
        None
    }
}

/// Two largest indices of the same chains are equal.
pub proof fn lemma_largest_index_unique(chains: Seq<Vec<usize>>, a: usize, b: usize)
    requires
        is_largest_index(chains, a),
        is_largest_index(chains, b),
    ensures
        a == b,
{
    let (ca, ja) = choose|c: int, j: int| occurs_at(chains, a, c, j);
    let (cb, jb) = choose|c: int, j: int| occurs_at(chains, b, c, j);
    assert(chains[ca][ja] <= b);
    assert(chains[cb][jb] <= a);
}

/// How many degrees of freedom the chains span: one more than the largest
/// index they name, and none where they name none.
pub open spec fn spec_dof_count(chains: Seq<Vec<usize>>) -> nat {
    if has_entry(chains) {
        (choose|m: usize| is_largest_index(chains, m)) as nat + 1
    } else {
        0
    }
}

/// The number of degrees of freedom that `chains` span, or `None` where
/// that number does not fit the machine word.
pub fn dof_count(chains: &[Vec<usize>]) -> (r: Option<usize>)
    ensures
        r == if spec_dof_count(chains@) <= usize::MAX {
            Some(spec_dof_count(chains@) as usize)
        } else {
            None
        },
{
    match largest_index(chains) {
        None => Some(0),
        Some(m) => {
            proof {
                let chosen = choose|m: usize| is_largest_index(chains@, m);
                lemma_largest_index_unique(chains@, m, chosen);
            }
            if m == usize::MAX {
                None
            } else {
                Some(m + 1)
            }
        },
    }
}

/// Why a robot layout was turned down.
#[derive(Clone, Copy, Debug, PartialEq, Eq, Structural)]
pub enum LayoutError {
    /// The lists of joint indices and of joint kinds name different numbers
    /// of chains.
    ChainCountMismatch,
    /// A chain lists a number of joint indices other than the number of its
    /// actuated joints.
    JointCountMismatch,
    /// A chain names a degree of freedom that the robot does not have.
    IndexOutOfRange,
    /// A chain holds an actuated joint that the joint ordering does not
    /// name.
    UnknownJoint,
}

impl LayoutError {
    /// What went wrong, in words.
    pub open spec fn spec_message(self) -> Seq<char> {
        match self {
            LayoutError::ChainCountMismatch =>
                "joint indices and joint kinds must be given for the same chains"@,
            LayoutError::JointCountMismatch =>
                "a chain must list one index for each of its actuated joints"@,
            LayoutError::IndexOutOfRange =>
                "a chain names a degree of freedom that the robot does not have"@,
            LayoutError::UnknownJoint =>
                "a chain holds a joint that the joint ordering does not name"@,
        }
    }

    pub fn message(&self) -> (r: String)
        ensures
            r@ == self.spec_message(),
    {
        match self {
            LayoutError::ChainCountMismatch => String::from_str(
                "joint indices and joint kinds must be given for the same chains",
            ),
            LayoutError::JointCountMismatch => String::from_str(
                "a chain must list one index for each of its actuated joints",
            ),
            LayoutError::IndexOutOfRange => String::from_str(
                "a chain names a degree of freedom that the robot does not have",
            ),
            LayoutError::UnknownJoint => String::from_str(
                "a chain holds a joint that the joint ordering does not name",
            ),
        }
    }
}

/// Chain `c` lists one index for each of its actuated joints.
pub open spec fn chain_counts_agree(
    chains: Seq<Vec<usize>>,
    kinds: Seq<Vec<JointKind>>,
    c: int,
) -> bool {
    actuated_count(kinds[c]@) == chains[c].len()
}

/// What a layout must satisfy: as many chains of kinds as of indices, one
/// index for each actuated joint of a chain, and every index below the
/// number of degrees of freedom.
pub open spec fn layout_is_consistent(
    chains: Seq<Vec<usize>>,
    kinds: Seq<Vec<JointKind>>,
    dofs: usize,
) -> bool {
    &&& chains.len() == kinds.len()
    &&& forall|c: int| 0 <= c < chains.len() ==> #[trigger] chain_counts_agree(chains, kinds, c)
    &&& forall|c: int, j: int|
        0 <= c < chains.len() && 0 <= j < chains[c].len() ==> #[trigger] chains[c][j] < dofs
}

/// The verdict on a candidate layout: the first of the three conditions
/// of [`layout_is_consistent`] that fails, if any does.
pub open spec fn layout_verdict(
    chains: Seq<Vec<usize>>,
    kinds: Seq<Vec<JointKind>>,
    dofs: usize,
) -> Option<LayoutError> {
    if chains.len() != kinds.len() {
        Some(LayoutError::ChainCountMismatch)
    } else if exists|c: int| 0 <= c < chains.len() && !#[trigger] chain_counts_agree(chains, kinds, c) {
        Some(LayoutError::JointCountMismatch)
    } else if exists|c: int, j: int|
        0 <= c < chains.len() && 0 <= j < chains[c].len() && #[trigger] chains[c][j] >= dofs {
        Some(LayoutError::IndexOutOfRange)
    } else {
        None
    }
}

/// Which joints lie on which chain of a robot, and which of them move.
///
/// For each chain the layout holds the kinds of all its joints, base to
/// tip, and the index into the configuration vector of each actuated one.
/// Forward kinematics yields one frame per joint of a chain, in the same
/// order, so the place of a joint among the kinds is the place of its frame.
#[derive(Debug)]
pub struct RobotLayout {
    chain_indices: Vec<Vec<usize>>,
    joint_kinds: Vec<Vec<JointKind>>,
    num_dofs: usize,
}

impl RobotLayout {
    #[verifier::type_invariant]
    spec fn consistent(&self) -> bool {
        layout_is_consistent(self.chain_indices@, self.joint_kinds@, self.num_dofs)
    }

    /// Per chain, the configuration index of each actuated joint.
    pub closed spec fn chains(&self) -> Seq<Vec<usize>> {
        self.chain_indices@
    }

    /// Per chain, the kind of every joint.
    pub closed spec fn kinds(&self) -> Seq<Vec<JointKind>> {
        self.joint_kinds@
    }

    /// The length of the configuration vector.
    pub closed spec fn dofs(&self) -> usize {
        self.num_dofs
    }

    /// Builds a layout from per-chain joint indices and joint kinds, or
    /// says which condition of [`layout_is_consistent`] fails first.
    pub fn new(
        chain_indices: Vec<Vec<usize>>,
        joint_kinds: Vec<Vec<JointKind>>,
        num_dofs: usize,
    ) -> (r: Result<RobotLayout, LayoutError>)
        ensures
            match r {
                Ok(layout) => {
                    &&& layout_verdict(chain_indices@, joint_kinds@, num_dofs) is None
                    &&& layout.chains() == chain_indices@
                    &&& layout.kinds() == joint_kinds@
                    &&& layout.dofs() == num_dofs
                    &&& layout_is_consistent(layout.chains(), layout.kinds(), layout.dofs())
                },
                Err(e) => layout_verdict(chain_indices@, joint_kinds@, num_dofs) == Some(e),
            },
    {
        if chain_indices.len() != joint_kinds.len() {
            return Err(LayoutError::ChainCountMismatch);
        }
        let mut c: usize = 0;
        while c < chain_indices.len()
            invariant
                c <= chain_indices.len(),
                chain_indices.len() == joint_kinds.len(),
                forall|c2: int|
                    0 <= c2 < c ==> #[trigger] chain_counts_agree(
                        chain_indices@,
                        joint_kinds@,
                        c2,
                    ),
            decreases chain_indices.len() - c,
        {
            if count_actuated(&joint_kinds[c]) != chain_indices[c].len() {
                proof {
                    assert(!chain_counts_agree(chain_indices@, joint_kinds@, c as int));
                }
                return Err(LayoutError::JointCountMismatch);
            }
            c += 1;
        }
        let mut c: usize = 0;
        while c < chain_indices.len()
            invariant
                c <= chain_indices.len(),
                layout_verdict(chain_indices@, joint_kinds@, num_dofs) is None
                    || layout_verdict(chain_indices@, joint_kinds@, num_dofs) == Some(
                    LayoutError::IndexOutOfRange,
                ),
                forall|c2: int, j2: int|
                    0 <= c2 < c && 0 <= j2 < chain_indices@[c2].len()
                        ==> #[trigger] chain_indices@[c2][j2] < num_dofs,
            decreases chain_indices.len() - c,
        {
            let mut j: usize = 0;
            while j < chain_indices[c].len()
                invariant
                    c < chain_indices.len(),
                    layout_verdict(chain_indices@, joint_kinds@, num_dofs) is None
                        || layout_verdict(chain_indices@, joint_kinds@, num_dofs) == Some(
                        LayoutError::IndexOutOfRange,
                    ),
                    j <= chain_indices@[c as int].len(),
                    forall|c2: int, j2: int|
                        0 <= c2 < c && 0 <= j2 < chain_indices@[c2].len()
                            ==> #[trigger] chain_indices@[c2][j2] < num_dofs,
                    forall|j2: int|
                        0 <= j2 < j ==> #[trigger] chain_indices@[c as int][j2] < num_dofs,
                decreases chain_indices@[c as int].len() - j,
            {
                if chain_indices[c][j] >= num_dofs {
                    proof {
                        assert(chain_indices@[c as int][j as int] >= num_dofs);
                    }
                    return Err(LayoutError::IndexOutOfRange);
                }
                j += 1;
            }
            c += 1;
        }
        Ok(RobotLayout { chain_indices, joint_kinds, num_dofs })
    }

    /// The number of chains.
    pub fn num_chains(&self) -> (r: usize)
        ensures
            r == self.chains().len(),
            r == self.kinds().len(),
    {
        proof {
            use_type_invariant(self);
        }
        self.chain_indices.len()
    }

    /// The length of the configuration vector.
    pub fn num_dofs(&self) -> (r: usize)
        ensures
            r == self.dofs(),
    {
        self.num_dofs
    }

    /// Per chain, the configuration index of each actuated joint.
    pub fn chain_indices(&self) -> (r: &Vec<Vec<usize>>)
        ensures
            r@ == self.chains(),
            layout_is_consistent(self.chains(), self.kinds(), self.dofs()),
    {
        proof {
            use_type_invariant(self);
        }
        &self.chain_indices
    }

    /// Per chain, the kind of every joint.
    pub fn joint_kinds(&self) -> (r: &Vec<Vec<JointKind>>)
        ensures
            r@ == self.kinds(),
            layout_is_consistent(self.chains(), self.kinds(), self.dofs()),
    {
        proof {
            use_type_invariant(self);
        }
        &self.joint_kinds
    }

    /// Where the frame of degree of freedom `dof` is found: the first chain
    /// that holds it, and the place of its joint among all joints of that
    /// chain. `None` where no chain holds `dof`.
    pub open spec fn spec_joint_frame(&self, dof: usize) -> Option<(int, int)> {
        match first_occurrence(self.chains(), dof) {
            Some(p) => match actuated_position(self.kinds()[p.0]@, p.1) {
                Some(k) => Some((p.0, k)),
                None => None,
            },
            None => None,
        }
    }

    /// The chain and the frame index at which degree of freedom `dof` is
    /// found; `None` exactly where no chain holds it.
    pub fn joint_frame(&self, dof: usize) -> (r: Option<(usize, usize)>)
        ensures
            r is Some <==> exists|c: int, j: int| occurs_at(self.chains(), dof, c, j),
            match r {
                Some(f) => {
                    &&& self.spec_joint_frame(dof) == Some((f.0 as int, f.1 as int))
                    &&& f.0 < self.kinds().len()
                    &&& f.1 < self.kinds()[f.0 as int].len()
                    &&& self.kinds()[f.0 as int][f.1 as int].is_actuated()
                },
                None => self.spec_joint_frame(dof) is None,
            },
    {
        proof {
            use_type_invariant(self);
        }
        match locate_dof(self.chain_indices.as_slice(), dof) {
            None => None,
            Some((c, j)) => {
                proof {
                    let chosen = first_occurrence(self.chain_indices@, dof).unwrap();
                    assert(is_first_occurrence(self.chain_indices@, dof, chosen.0, chosen.1));
                    assert(occurs_at(self.chain_indices@, dof, c as int, j as int));
                    assert(chain_counts_agree(self.chain_indices@, self.joint_kinds@, c as int));
                }
                let found = find_actuated(&self.joint_kinds[c], j);
                proof {
                    lemma_actuated_position_exists(self.joint_kinds@[c as int]@, j as int);
                }
                match found {
                    Some(k) => Some((c, k)),
                    None => None,
                }
            },
        }
    }

    /// The kind of the joint that drives degree of freedom `dof`; `None`
    /// exactly where no chain holds it.
    pub fn dof_kind(&self, dof: usize) -> (r: Option<JointKind>)
        ensures
            match self.spec_joint_frame(dof) {
                Some(f) => r == Some(self.kinds()[f.0][f.1]),
                None => r is None,
            },
            r is Some <==> exists|c: int, j: int| occurs_at(self.chains(), dof, c, j),
            r matches Some(kind) ==> kind.is_actuated(),
    {
        match self.joint_frame(dof) {
            Some((c, k)) => Some(self.joint_kinds[c][k]),
            None => None,
        }
    }
}

} // verus!
