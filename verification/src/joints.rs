//! Giving every actuated joint its place in the configuration vector.
//!
//! A robot names its joints. The configuration vector is ordered by a list
//! of joint names: the one a host supplies, or, where it supplies none,
//! the actuated joints in the order in which the chains first meet them.

use crate::layout::actuated_count;
use crate::layout::chain_counts_agree;
use crate::layout::layout_is_consistent;
use crate::layout::layout_verdict;
use crate::layout::JointKind;
use crate::layout::LayoutError;
use crate::layout::RobotLayout;
use crate::text::optional_views_of;
use crate::text::views_of;
use vstd::prelude::*;

verus! {

/// A joint of a chain: its name and what it contributes.
#[derive(Clone, Debug, PartialEq)]
pub struct NamedJoint {
    pub name: String,
    pub kind: JointKind,
}

/// The kinds of the joints, one for one.
pub open spec fn kinds_of(joints: Seq<NamedJoint>) -> Seq<JointKind> {
    Seq::new(joints.len(), |i: int| joints[i].kind)
}

/// The names of the actuated joints among `joints`, in order.
pub open spec fn actuated_names(joints: Seq<NamedJoint>) -> Seq<Seq<char>>
    decreases joints.len(),
{
    if joints.len() == 0 {
        Seq::empty()
    } else if joints.last().kind.is_actuated() {
        actuated_names(joints.drop_last()).push(joints.last().name@)
    } else {
        actuated_names(joints.drop_last())
    }
}

/// The names of the actuated joints of all chains, chain after chain.
pub open spec fn name_stream(chains: Seq<Vec<NamedJoint>>) -> Seq<Seq<char>>
    decreases chains.len(),
{
    if chains.len() == 0 {
        Seq::empty()
    } else {
        name_stream(chains.drop_last()) + actuated_names(chains.last()@)
    }
}

/// The names of `names` without repetitions, each where it first appears.
pub open spec fn first_appearances(names: Seq<Seq<char>>) -> Seq<Seq<char>>
    decreases names.len(),
{
    if names.len() == 0 {
        Seq::empty()
    } else if first_appearances(names.drop_last()).contains(names.last()) {
        first_appearances(names.drop_last())
    } else {
        first_appearances(names.drop_last()).push(names.last())
    }
}

/// `i` is the first place of `name` in `names`.
pub open spec fn is_first_position(names: Seq<Seq<char>>, name: Seq<char>, i: int) -> bool {
    &&& 0 <= i < names.len()
    &&& names[i] == name
    &&& forall|k: int| 0 <= k < i ==> names[k] != name
}

/// `indices` gives for each of the `wanted` names its first place in
/// `names`.
pub open spec fn indexes_chain(
    names: Seq<Seq<char>>,
    wanted: Seq<Seq<char>>,
    indices: Seq<usize>,
) -> bool {
    &&& indices.len() == wanted.len()
    &&& forall|j: int|
        0 <= j < wanted.len() ==> is_first_position(names, wanted[j], #[trigger] indices[j] as int)
}

/// The order of the configuration vector: the one given, or the actuated
/// joints as the chains first meet them.
pub open spec fn ordering_for(chains: Seq<Vec<NamedJoint>>, given: Option<Seq<Seq<char>>>) -> Seq<
    Seq<char>,
> {
    match given {
        Some(order) => order,
        None => first_appearances(name_stream(chains)),
    }
}

/// Every actuated joint of every chain is named in the given order. Where
/// no order is given there is nothing to miss.
pub open spec fn all_named(chains: Seq<Vec<NamedJoint>>, given: Option<Seq<Seq<char>>>) -> bool {
    given matches Some(order) ==> forall|i: int|
        0 <= i < name_stream(chains).len() ==> order.contains(#[trigger] name_stream(chains)[i])
}

/// The order of the configuration vector, and per chain the place in it of
/// each actuated joint.
#[derive(Clone, Debug, PartialEq)]
pub struct JointIndexing {
    pub names: Vec<String>,
    pub chain_indices: Vec<Vec<usize>>,
}

/// A name found once stays where it is however many names follow.
pub proof fn lemma_first_position_stays(
    names: Seq<Seq<char>>,
    more: Seq<char>,
    name: Seq<char>,
    i: int,
)
    requires
        is_first_position(names, name, i),
    ensures
        is_first_position(names.push(more), name, i),
{
}

/// A name is among the first appearances exactly when it appears at all.
pub proof fn lemma_first_appearances_hold(names: Seq<Seq<char>>, name: Seq<char>)
    ensures
        first_appearances(names).contains(name) <==> names.contains(name),
    decreases names.len(),
{
    if names.len() > 0 {
        let front = names.drop_last();
        let last = names.last();
        let kept = first_appearances(front);
        let all = first_appearances(names);
        lemma_first_appearances_hold(front, name);
        lemma_first_appearances_hold(front, last);
        if names.contains(name) {
            let i = choose|i: int| 0 <= i < names.len() && names[i] == name;
            if i < names.len() - 1 {
                assert(front[i] == name);
                let j = choose|j: int| 0 <= j < kept.len() && kept[j] == name;
                assert(all[j] == name);
            } else if kept.contains(last) {
                let j = choose|j: int| 0 <= j < kept.len() && kept[j] == last;
                assert(all[j] == name);
            } else {
                assert(all[kept.len() as int] == name);
            }
        }
        if all.contains(name) {
            let i = choose|i: int| 0 <= i < all.len() && all[i] == name;
            if i < kept.len() {
                assert(kept[i] == name);
                let k = choose|k: int| 0 <= k < front.len() && front[k] == name;
                assert(names[k] == name);
            } else {
                assert(names[names.len() - 1] == name);
            }
        }
    }
}

/// No name occurs twice among the first appearances.
pub proof fn lemma_first_appearances_distinct(names: Seq<Seq<char>>)
    ensures
        first_appearances(names).no_duplicates(),
    decreases names.len(),
{
    if names.len() > 0 {
        lemma_first_appearances_distinct(names.drop_last());
    }
}

/// There are as many names of actuated joints as actuated joints.
pub proof fn lemma_actuated_names_count(joints: Seq<NamedJoint>)
    ensures
        actuated_names(joints).len() == actuated_count(kinds_of(joints)),
    decreases joints.len(),
{
    if joints.len() > 0 {
        lemma_actuated_names_count(joints.drop_last());
        assert(kinds_of(joints).drop_last() == kinds_of(joints.drop_last()));
    }
}

/// The names of the first `k` joints of a chain open the names of the
/// whole chain.
pub proof fn lemma_actuated_names_prefix(joints: Seq<NamedJoint>, k: int)
    requires
        0 <= k <= joints.len(),
    ensures
        actuated_names(joints.take(k)).is_prefix_of(actuated_names(joints)),
    decreases joints.len() - k,
{
    if k < joints.len() {
        lemma_actuated_names_prefix(joints, k + 1);
        assert(joints.take(k + 1).drop_last() == joints.take(k));
    } else {
        assert(joints.take(k) == joints);
    }
}

/// The names of the first `c` chains open the names of all chains.
pub proof fn lemma_name_stream_prefix(chains: Seq<Vec<NamedJoint>>, c: int)
    requires
        0 <= c <= chains.len(),
    ensures
        name_stream(chains.take(c)).is_prefix_of(name_stream(chains)),
    decreases chains.len() - c,
{
    if c < chains.len() {
        lemma_name_stream_prefix(chains, c + 1);
        assert(chains.take(c + 1).drop_last() == chains.take(c));
    } else {
        assert(chains.take(c) == chains);
    }
}

/// The first place of `name` among `names`.
pub fn find_name(names: &Vec<String>, name: &String) -> (r: Option<usize>)
    ensures
        match r {
            Some(i) => is_first_position(views_of(names@), name@, i as int),
            None => !views_of(names@).contains(name@),
        },
{
    let mut i: usize = 0;
    while i < names.len()
        invariant
            i <= names.len(),
            forall|k: int| 0 <= k < i ==> views_of(names@)[k] != name@,
        decreases names.len() - i,
    {
        if names[i] == *name {
            return Some(i);
        }
        i += 1;
    }
    None
}

/// The kinds of the joints, one for one.
pub fn joint_kinds(joints: &Vec<NamedJoint>) -> (r: Vec<JointKind>)
    ensures
        r@ == kinds_of(joints@),
{
    let mut kinds: Vec<JointKind> = Vec::new();
    let mut k: usize = 0;
    while k < joints.len()
        invariant
            k <= joints.len(),
            kinds@ == kinds_of(joints@.take(k as int)),
        decreases joints.len() - k,
    {
        kinds.push(joints[k].kind);
        k += 1;
    }
    proof {
        assert(joints@.take(joints.len() as int) == joints@);
    }
    kinds
}

/// Places every actuated joint of every chain in the configuration
/// vector.
///
/// With an order given, every actuated joint must be named in it, and
/// sits where its name first stands; a joint that is not named is an
/// `UnknownJoint`. With none given, the order is that in which the chains
/// first meet the joints, and nothing can fail. A joint met by two chains
/// has one place.
pub fn index_joints(chains: &Vec<Vec<NamedJoint>>, ordering: Option<Vec<String>>) -> (r: Result<
    JointIndexing,
    LayoutError,
>)
    ensures
        match r {
            Ok(indexing) => {
                &&& all_named(chains@, optional_views_of(ordering))
                &&& views_of(indexing.names@) == ordering_for(chains@, optional_views_of(ordering))
                &&& indexing.chain_indices@.len() == chains@.len()
                &&& forall|c: int|
                    0 <= c < chains@.len() ==> indexes_chain(
                        views_of(indexing.names@),
                        actuated_names(chains@[c]@),
                        #[trigger] indexing.chain_indices@[c]@,
                    )
            },
            Err(e) => e == LayoutError::UnknownJoint && !all_named(
                chains@,
                optional_views_of(ordering),
            ),
        },
{
    let ghost given = optional_views_of(ordering);
    let fixed = ordering.is_some();
    let mut names: Vec<String> = match ordering {
        Some(order) => order,
        None => Vec::new(),
    };
    let mut chain_indices: Vec<Vec<usize>> = Vec::new();
    let ghost mut seen: Seq<Seq<char>> = Seq::empty();
    let mut c: usize = 0;
    while c < chains.len()
        invariant
            c <= chains.len(),
            chain_indices@.len() == c,
            fixed == given is Some,
            given == optional_views_of(ordering),
            seen == name_stream(chains@.take(c as int)),
            given matches Some(order) ==> views_of(names@) == order && forall|i: int|
                0 <= i < seen.len() ==> order.contains(#[trigger] seen[i]),
            given is None ==> views_of(names@) == first_appearances(seen),
            forall|c2: int|
                0 <= c2 < c ==> indexes_chain(
                    views_of(names@),
                    actuated_names(chains@[c2]@),
                    #[trigger] chain_indices@[c2]@,
                ),
        decreases chains.len() - c,
    {
        let ghost before = seen;
        let mut row: Vec<usize> = Vec::new();
        let mut k: usize = 0;
        while k < chains[c].len()
            invariant
                c < chains.len(),
                k <= chains@[c as int]@.len(),
                chain_indices@.len() == c,
                fixed == given is Some,
                given == optional_views_of(ordering),
                before == name_stream(chains@.take(c as int)),
                seen == before + actuated_names(chains@[c as int]@.take(k as int)),
                given matches Some(order) ==> views_of(names@) == order && forall|i: int|
                    0 <= i < seen.len() ==> order.contains(#[trigger] seen[i]),
                given is None ==> views_of(names@) == first_appearances(seen),
                forall|c2: int|
                    0 <= c2 < c ==> indexes_chain(
                        views_of(names@),
                        actuated_names(chains@[c2]@),
                        #[trigger] chain_indices@[c2]@,
                    ),
                indexes_chain(
                    views_of(names@),
                    actuated_names(chains@[c as int]@.take(k as int)),
                    row@,
                ),
            decreases chains@[c as int]@.len() - k,
        {
            let ghost chain = chains@[c as int]@;
            let ghost met = actuated_names(chain.take(k as int));
            proof {
                assert(chain.take(k + 1).drop_last() == chain.take(k as int));
            }
            if chains[c][k].kind.is_actuated() {
                let ghost name = chains@[c as int]@[k as int].name@;
                proof {
                    assert(actuated_names(chain.take(k + 1)) == met.push(name));
                    assert(before + met.push(name) == seen.push(name));
                    assert(seen.push(name).drop_last() == seen);
                }
                match find_name(&names, &chains[c][k].name) {
                    Some(place) => {
                        proof {
                            if given is None {
                                assert(views_of(names@)[place as int] == name);
                                assert(first_appearances(seen).contains(name));
                            }
                        }
                        row.push(place);
                    },
                    None => {
                        if fixed {
                            proof {
                                let whole = name_stream(chains@);
                                lemma_actuated_names_prefix(chain, k + 1);
                                lemma_name_stream_prefix(chains@, c + 1);
                                assert(chains@.take(c + 1).drop_last() == chains@.take(c as int));
                                let at = (before.len() + met.len()) as int;
                                let full = actuated_names(chain);
                                let so_far = actuated_names(chain.take(k + 1));
                                assert(so_far[met.len() as int] == name);
                                assert(full.subrange(0, so_far.len() as int)[met.len() as int]
                                    == name);
                                assert(chains@.take(c + 1).last() == chains@[c as int]);
                                assert(name_stream(chains@.take(c + 1)) == before + full);
                                assert(name_stream(chains@.take(c + 1))[at] == name);
                                assert(whole.subrange(
                                    0,
                                    name_stream(chains@.take(c + 1)).len() as int,
                                )[at] == name);
                                assert(0 <= at < whole.len() && whole[at] == name);
                                assert(!views_of(names@).contains(whole[at]));
                            }
                            return Err(LayoutError::UnknownJoint);
                        }
                        let ghost old_names = views_of(names@);
                        names.push(chains[c][k].name.clone());
                        proof {
                            assert(views_of(names@) == old_names.push(name));
                            assert forall|c2: int| 0 <= c2 < c implies indexes_chain(
                                views_of(names@),
                                actuated_names(chains@[c2]@),
                                #[trigger] chain_indices@[c2]@,
                            ) by {
                                let wanted = actuated_names(chains@[c2]@);
                                let row2 = chain_indices@[c2]@;
                                assert(indexes_chain(old_names, wanted, row2));
                                assert forall|j: int| 0 <= j < wanted.len() implies is_first_position(
                                    views_of(names@),
                                    wanted[j],
                                    #[trigger] row2[j] as int,
                                ) by {
                                    lemma_first_position_stays(
                                        old_names,
                                        name,
                                        wanted[j],
                                        row2[j] as int,
                                    );
                                }
                            }
                            assert forall|j: int| 0 <= j < met.len() implies is_first_position(
                                views_of(names@),
                                met[j],
                                #[trigger] row@[j] as int,
                            ) by {
                                lemma_first_position_stays(old_names, name, met[j], row@[j] as int);
                            }
                        }
                        row.push(names.len() - 1);
                    },
                }
                proof {
                    seen = seen.push(name);
                }
            }
            k += 1;
        }
        proof {
            assert(chains@[c as int]@.take(k as int) == chains@[c as int]@);
            assert(chains@.take(c + 1).drop_last() == chains@.take(c as int));
        }
        chain_indices.push(row);
        c += 1;
    }
    proof {
        assert(chains@.take(c as int) == chains@);
    }
    Ok(JointIndexing { names, chain_indices })
}

impl RobotLayout {
    /// The layout of a robot whose chains hold the given joints, together
    /// with the order of its configuration vector.
    ///
    /// The joints are placed as [`index_joints`] places them; the
    /// configuration vector has one entry per name of the order.
    pub fn from_joints(chains: &Vec<Vec<NamedJoint>>, ordering: Option<Vec<String>>) -> (r: Result<
        (RobotLayout, Vec<String>),
        LayoutError,
    >)
        ensures
            match r {
                Ok(built) => {
                    &&& all_named(chains@, optional_views_of(ordering))
                    &&& views_of(built.1@) == ordering_for(chains@, optional_views_of(ordering))
                    &&& built.0.dofs() == built.1@.len()
                    &&& built.0.chains().len() == chains@.len()
                    &&& built.0.kinds().len() == chains@.len()
                    &&& forall|c: int|
                        0 <= c < chains@.len() ==> indexes_chain(
                            views_of(built.1@),
                            actuated_names(chains@[c]@),
                            #[trigger] built.0.chains()[c]@,
                        )
                    &&& forall|c: int|
                        0 <= c < chains@.len() ==> (#[trigger] built.0.kinds()[c])@ == kinds_of(
                            chains@[c]@,
                        )
                },
                Err(e) => e == LayoutError::UnknownJoint && !all_named(
                    chains@,
                    optional_views_of(ordering),
                ),
            },
    {
        let indexing = index_joints(chains, ordering)?;
        let mut kinds: Vec<Vec<JointKind>> = Vec::new();
        let mut c: usize = 0;
        while c < chains.len()
            invariant
                c <= chains.len(),
                kinds@.len() == c,
                forall|c2: int| 0 <= c2 < c ==> (#[trigger] kinds@[c2])@ == kinds_of(chains@[c2]@),
            decreases chains.len() - c,
        {
            kinds.push(joint_kinds(&chains[c]));
            c += 1;
        }
        let names = indexing.names;
        let chain_indices = indexing.chain_indices;
        proof {
            assert forall|c2: int| 0 <= c2 < chain_indices@.len() implies #[trigger] chain_counts_agree(
                chain_indices@,
                kinds@,
                c2,
            ) by {
                lemma_actuated_names_count(chains@[c2]@);
                assert(indexes_chain(
                    views_of(names@),
                    actuated_names(chains@[c2]@),
                    chain_indices@[c2]@,
                ));
            }
            assert forall|c2: int, j: int|
                0 <= c2 < chain_indices@.len() && 0 <= j < chain_indices@[c2].len() implies #[trigger] chain_indices@[c2][j]
                < names.len() by {
                assert(indexes_chain(
                    views_of(names@),
                    actuated_names(chains@[c2]@),
                    chain_indices@[c2]@,
                ));
                assert(is_first_position(
                    views_of(names@),
                    actuated_names(chains@[c2]@)[j],
                    chain_indices@[c2]@[j] as int,
                ));
            }
            assert(layout_is_consistent(chain_indices@, kinds@, names.len()));
            assert(layout_verdict(chain_indices@, kinds@, names.len()) is None);
        }
        match RobotLayout::new(chain_indices, kinds, names.len()) {
            Ok(layout) => Ok((layout, names)),
            Err(e) => Err(e),
        }
    }
}

} // verus!
