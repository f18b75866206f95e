//! The supergroup entity.

use vstd::prelude::*;

use crate::update::{RawSupergroup, Update};

verus! {

/// One observable attribute of a supergroup.
#[derive(Clone, Copy, Debug, PartialEq, Eq, Structural)]
pub enum SupergroupAttr {
    MemberCount,
}

/// A supergroup entity. The id and the channel flag are fixed at
/// construction.
#[derive(Clone, Copy, Debug)]
pub struct Supergroup {
    id: i64,
    member_count: i32,
    is_channel: bool,
}

/// The mathematical state of a supergroup.
pub ghost struct SupergroupV {
    pub id: i64,
    pub member_count: i32,
    pub is_channel: bool,
}

impl View for Supergroup {
    type V = SupergroupV;

    closed spec fn view(&self) -> SupergroupV {
        SupergroupV { id: self.id, member_count: self.member_count, is_channel: self.is_channel }
    }
}

/// The supergroup state constructed from a raw payload.
pub open spec fn supergroup_from_raw_v(raw: RawSupergroup) -> SupergroupV {
    SupergroupV { id: raw.id, member_count: raw.member_count, is_channel: raw.is_channel }
}

/// The supergroup state after one update.
pub open spec fn supergroup_apply(s: SupergroupV, u: Update) -> SupergroupV {
    match u {
        Update::Supergroup { supergroup } => SupergroupV {
            id: s.id,
            member_count: supergroup.member_count,
            is_channel: s.is_channel,
        },
        _ => s,
    }
}

/// The attributes one update genuinely changes.
pub open spec fn supergroup_changed(s: SupergroupV, u: Update) -> Seq<SupergroupAttr> {
    match u {
        Update::Supergroup { supergroup } => if s.member_count != supergroup.member_count {
            seq![SupergroupAttr::MemberCount]
        } else {
            seq![]
        },
        _ => seq![],
    }
}

impl Supergroup {
    /// Builds a supergroup from the raw payload that first introduced it.
    pub fn from_raw(raw: &RawSupergroup) -> (g: Supergroup)
        ensures
            g@ == supergroup_from_raw_v(*raw),
    {
        Supergroup { id: raw.id, member_count: raw.member_count, is_channel: raw.is_channel }
    }

    /// The identity key, fixed at construction.
    pub fn id(&self) -> (r: i64)
        ensures
            r == self@.id,
    {
        self.id
    }

    /// The current member count.
    pub fn member_count(&self) -> (r: i32)
        ensures
            r == self@.member_count,
    {
        self.member_count
    }

    /// Whether this supergroup is a broadcast channel; fixed at
    /// construction.
    pub fn is_channel(&self) -> (r: bool)
        ensures
            r == self@.is_channel,
    {
        self.is_channel
    }

    /// Applies one update and returns the attributes whose values
    /// genuinely changed. Variants not owned by a supergroup are ignored.
    pub fn handle_update(&mut self, u: &Update) -> (changed: Vec<SupergroupAttr>)
        ensures
            final(self)@ == supergroup_apply(old(self)@, *u),
            changed@ == supergroup_changed(old(self)@, *u),
    {
        match u {
            Update::Supergroup { supergroup } => {
                let mut changed: Vec<SupergroupAttr> = Vec::new();
                if self.set_member_count(supergroup.member_count) {
                    changed.push(SupergroupAttr::MemberCount);
                }
                proof {
                    assert(changed@ =~= supergroup_changed(old(self)@, *u));
                }
                changed
            }
            _ => {
                let changed: Vec<SupergroupAttr> = Vec::new();
                proof {
                    assert(changed@ =~= supergroup_changed(old(self)@, *u));
                }
                changed
            }
        }
    }

    /// Stores the member count; reports whether the value changed.
    fn set_member_count(&mut self, member_count: i32) -> (changed: bool)
        ensures
            final(self)@ == (SupergroupV { member_count: member_count, ..old(self)@ }),
            changed == (old(self)@.member_count != member_count),
    {
        let differs = !(self.member_count == member_count);
        self.member_count = member_count;
        differs
    }
}

} // verus!
