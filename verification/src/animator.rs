//! Choosing which sprite an animation goes to.
//!
//! An animated entity names its target sprite. The sprite may be the entity
//! itself or one of its children; the entity is looked at first, then the
//! children in their order.

use vstd::prelude::*;

verus! {

/// What a type needs to serve as the key of an animation: it can be compared
/// and hashed, shared between threads, printed, and it has a default.
pub trait AnimationKey: Eq + std::hash::Hash + Sync + Send + Default + std::fmt::Display {

}

/// The sprite that takes the animation.
#[derive(Clone, Copy, Debug, PartialEq, Eq)]
pub enum AnimationTarget {
    /// The animated entity itself.
    Own,
    /// The child at this place among the entity's children.
    Child(usize),
    /// Neither the entity nor a child is the named sprite.
    Nothing,
}

/// The sprite that takes the animation: the entity itself where it is the
/// named sprite, else the first child that is.
pub open spec fn target_of(own_matches: bool, children_match: Seq<bool>) -> AnimationTarget {
    if own_matches {
        AnimationTarget::Own
    } else if exists|child: int| 0 <= child < children_match.len() && children_match[child] {
        AnimationTarget::Child(first_match(children_match) as usize)
    } else {
        AnimationTarget::Nothing
    }
}

/// The place of the first `true` in `flags`; their number where there is
/// none.
pub open spec fn first_match(flags: Seq<bool>) -> int
    decreases flags.len(),
{
    if flags.len() == 0 || flags[0] {
        0
    } else {
        1 + first_match(flags.drop_first())
    }
}

/// `first_match` finds a `true` with only `false` before it, or runs to the
/// end where all is `false`.
pub proof fn lemma_first_match(flags: Seq<bool>)
    ensures
        0 <= first_match(flags) <= flags.len(),
        first_match(flags) < flags.len() ==> flags[first_match(flags)],
        forall|k: int| 0 <= k < first_match(flags) ==> !#[trigger] flags[k],
        first_match(flags) == flags.len() <==> forall|k: int|
            0 <= k < flags.len() ==> !#[trigger] flags[k],
    decreases flags.len(),
{
    if flags.len() == 0 || flags[0] {
    } else {
        let rest = flags.drop_first();
        lemma_first_match(rest);
        assert forall|k: int| 0 <= k < first_match(flags) implies !#[trigger] flags[k] by {
            if k > 0 {
                assert(flags[k] == rest[k - 1]);
            }
        }
        if first_match(flags) < flags.len() {
            assert(flags[first_match(flags)] == rest[first_match(rest)]);
        }
        if first_match(flags) == flags.len() {
            assert forall|k: int| 0 <= k < flags.len() implies !#[trigger] flags[k] by {
                if k > 0 {
                    assert(flags[k] == rest[k - 1]);
                }
            }
        } else {
            assert(flags[first_match(flags)]);
        }
    }
}

/// Chooses the sprite that takes the animation. `own_matches` says whether
/// the entity itself is the named sprite, `children_match` says it of each
/// child.
pub fn choose_target(own_matches: bool, children_match: &Vec<bool>) -> (target: AnimationTarget)
    ensures
        target == target_of(own_matches, children_match@),
        match target {
            AnimationTarget::Own => own_matches,
            AnimationTarget::Child(child) => {
                &&& !own_matches
                &&& child < children_match@.len()
                &&& children_match@[child as int]
                &&& forall|k: int| 0 <= k < child ==> !#[trigger] children_match@[k]
            },
            AnimationTarget::Nothing => {
                &&& !own_matches
                &&& forall|k: int| 0 <= k < children_match@.len() ==> !#[trigger] children_match@[k]
            },
        },
{
    if own_matches {
        return AnimationTarget::Own;
    }
    let mut child: usize = 0;
    while child < children_match.len()
        invariant
            !own_matches,
            child <= children_match@.len(),
            forall|k: int| 0 <= k < child ==> !#[trigger] children_match@[k],
        decreases children_match@.len() - child,
    {
        if children_match[child] {
            proof {
                lemma_first_match(children_match@);
                let first = first_match(children_match@);
                assert(first == child) by {
                    if first < child {
                        assert(children_match@[first]);
                    } else if first > child {
                        assert(!children_match@[child as int]);
                    }
                }
            }
            return AnimationTarget::Child(child);
        }
        child = child + 1;
    }
    proof {
        lemma_first_match(children_match@);
    }
    AnimationTarget::Nothing
}

} // verus!
