//! Ground-contact classification.
//!
//! Each tick the physics engine reports one contact per pair of touching
//! bodies; the list is only valid for that tick. The controller is grounded
//! when some contact involves it and the other participant's vertical
//! coordinate lies below the controller's own by more than a small epsilon.
//! The check is purely positional, not normal-based, so a side-wall contact
//! whose reference point sits low enough also counts as ground; that quirk is
//! part of the behaviour this module states, not an accident of it.
//! A contact for which either participant has no known position is skipped.

use vstd::prelude::*;
use crate::math::COORD_LIMIT;

verus! {

/// How far below the controller's vertical coordinate a partner must sit to
/// count as ground, in milli-units (0.05 world units).
pub const GROUND_EPSILON_MILLI: i64 = 50;

/// One touching pair reported by the physics engine for this tick, by body
/// identity. The pair is unordered: the controller may appear on either side.
#[derive(Clone, Copy, Debug, PartialEq, Eq, Structural)]
pub struct Contact {
    pub entity_a: u64,
    pub entity_b: u64,
}

/// A body's vertical coordinate this tick, in milli-units.
#[derive(Clone, Copy, Debug, PartialEq, Eq, Structural)]
pub struct BodyPos {
    pub entity: u64,
    pub y_milli: i64,
}

/// The vertical coordinate recorded for `e`: the first entry wins, `None`
/// when the body's position is unknown this tick.
pub open spec fn spec_lookup_y(ps: Seq<BodyPos>, e: u64) -> Option<i64>
    decreases ps.len(),
{
    if ps.len() == 0 {
        None
    } else if ps[0].entity == e {
        Some(ps[0].y_milli)
    } else {
        spec_lookup_y(ps.drop_first(), e)
    }
}

/// The other participant of a contact involving `me`; `None` when the
/// contact does not involve `me`. When both sides are `me` the partner is
/// `me` itself.
pub open spec fn spec_partner(c: Contact, me: u64) -> Option<u64> {
    if c.entity_a == me {
        Some(c.entity_b)
    } else if c.entity_b == me {
        Some(c.entity_a)
    } else {
        None
    }
}

/// Whether one contact classifies the controller as grounded: it involves
/// `me`, both positions are known, and the partner sits more than the
/// epsilon below.
pub open spec fn spec_contact_grounds(c: Contact, ps: Seq<BodyPos>, me: u64) -> bool {
    match spec_partner(c, me) {
        Option::None => false,
        Option::Some(p) => match (spec_lookup_y(ps, me), spec_lookup_y(ps, p)) {
            (Option::Some(sy), Option::Some(oy)) => oy < sy - GROUND_EPSILON_MILLI,
            _ => false,
        },
    }
}

/// Grounded this tick: some reported contact classifies as ground.
pub open spec fn spec_grounded(cs: Seq<Contact>, ps: Seq<BodyPos>, me: u64) -> bool {
    exists|i: int| 0 <= i < cs.len() && spec_contact_grounds(cs[i], ps, me)
}

/// Every recorded coordinate within the world's coordinate limit.
pub open spec fn ys_bounded(ps: Seq<BodyPos>) -> bool {
    forall|j: int| 0 <= j < ps.len() ==> -COORD_LIMIT <= #[trigger] ps[j].y_milli <= COORD_LIMIT
}

/// First-match position lookup.
pub fn lookup_y(positions: &Vec<BodyPos>, e: u64) -> (r: Option<i64>)
    requires
        ys_bounded(positions@),
    ensures
        r == spec_lookup_y(positions@, e),
        r matches Option::Some(y) ==> -COORD_LIMIT <= y <= COORD_LIMIT,
{
    let n: usize = positions.len();
    let mut i: usize = 0;
    proof {
        assert(positions@.skip(0) =~= positions@);
    }
    while i < n
        invariant
            0 <= i <= n,
            n == positions@.len(),
            ys_bounded(positions@),
            spec_lookup_y(positions@, e) == spec_lookup_y(positions@.skip(i as int), e),
        decreases n - i,
    {
        if positions[i].entity == e {
            return Some(positions[i].y_milli);
        }
        proof {
            assert(positions@.skip(i as int).drop_first() =~= positions@.skip(i as int + 1));
        }
        i = i + 1;
    }
    None
}

/// Scan this tick's contacts and decide whether the controller `me` is
/// supported from below; the first qualifying contact settles it. A contact
/// not involving `me`, or one with a missing position, is skipped.
pub fn touching_ground(contacts: &Vec<Contact>, positions: &Vec<BodyPos>, me: u64) -> (r: bool)
    requires
        ys_bounded(positions@),
    ensures
        r == spec_grounded(contacts@, positions@, me),
{
    let n: usize = contacts.len();
    let mut i: usize = 0;
    while i < n
        invariant
            0 <= i <= n,
            n == contacts@.len(),
            ys_bounded(positions@),
            forall|j: int| 0 <= j < i ==> !spec_contact_grounds(contacts@[j], positions@, me),
        decreases n - i,
    {
        let c: Contact = contacts[i];
        let partner: Option<u64> = if c.entity_a == me {
            Some(c.entity_b)
        } else if c.entity_b == me {
            Some(c.entity_a)
        } else {
            None
        };
        if let Some(p) = partner {
            let self_y: Option<i64> = lookup_y(positions, me);
            let other_y: Option<i64> = lookup_y(positions, p);
            if let (Some(sy), Some(oy)) = (self_y, other_y) {
                if oy < sy - GROUND_EPSILON_MILLI {
                    return true;
                }
            }
        }
        i = i + 1;
    }
    false
}

} // verus!
