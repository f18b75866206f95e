//! The basic-group entity.

use vstd::prelude::*;

use crate::update::{RawBasicGroup, Update};

verus! {

/// One observable attribute of a basic group.
#[derive(Clone, Copy, Debug, PartialEq, Eq, Structural)]
pub enum BasicGroupAttr {
    MemberCount,
}

/// A basic group entity. The id is immutable after construction.
#[derive(Clone, Copy, Debug)]
pub struct BasicGroup {
    id: i64,
    member_count: i32,
}

/// The mathematical state of a basic group.
pub ghost struct BasicGroupV {
    pub id: i64,
    pub member_count: i32,
}

impl View for BasicGroup {
    type V = BasicGroupV;

    closed spec fn view(&self) -> BasicGroupV {
        BasicGroupV { id: self.id, member_count: self.member_count }
    }
}

/// The basic-group state constructed from a raw payload.
pub open spec fn basic_group_from_raw_v(raw: RawBasicGroup) -> BasicGroupV {
    BasicGroupV { id: raw.id, member_count: raw.member_count }
}

/// The basic-group state after one update.
pub open spec fn basic_group_apply(s: BasicGroupV, u: Update) -> BasicGroupV {
    match u {
        Update::BasicGroup { basic_group } => BasicGroupV {
            id: s.id,
            member_count: basic_group.member_count,
        },
        _ => s,
    }
}

/// The attributes one update genuinely changes.
pub open spec fn basic_group_changed(s: BasicGroupV, u: Update) -> Seq<BasicGroupAttr> {
    match u {
        Update::BasicGroup { basic_group } => if s.member_count != basic_group.member_count {
            seq![BasicGroupAttr::MemberCount]
        } else {
            seq![]
        },
        _ => seq![],
    }
}

impl BasicGroup {
    /// Builds a basic group from the raw payload that first introduced it.
    pub fn from_raw(raw: &RawBasicGroup) -> (g: BasicGroup)
        ensures
            g@ == basic_group_from_raw_v(*raw),
    {
        BasicGroup { id: raw.id, member_count: raw.member_count }
    }

    /// The identity key, fixed at construction.
    pub fn id(&self) -> (r: i64)
        ensures
            r == self@.id,
    {
        self.id
    }

    /// The current member count.
    pub fn member_count(&self) -> (r: i32)
        ensures
            r == self@.member_count,
    {
        self.member_count
    }

    /// Applies one update and returns the attributes whose values
    /// genuinely changed. Variants not owned by a basic group are ignored.
    pub fn handle_update(&mut self, u: &Update) -> (changed: Vec<BasicGroupAttr>)
        ensures
            final(self)@ == basic_group_apply(old(self)@, *u),
            changed@ == basic_group_changed(old(self)@, *u),
    {
        match u {
            Update::BasicGroup { basic_group } => {
                let mut changed: Vec<BasicGroupAttr> = Vec::new();
                if self.set_member_count(basic_group.member_count) {
                    changed.push(BasicGroupAttr::MemberCount);
                }
                proof {
                    assert(changed@ =~= basic_group_changed(old(self)@, *u));
                }
                changed
            }
            _ => {
                let changed: Vec<BasicGroupAttr> = Vec::new();
                proof {
                    assert(changed@ =~= basic_group_changed(old(self)@, *u));
                }
                changed
            }
        }
    }

    /// Stores the member count; reports whether the value changed.
    fn set_member_count(&mut self, member_count: i32) -> (changed: bool)
        ensures
            final(self)@ == (BasicGroupV { member_count: member_count, ..old(self)@ }),
            changed == (old(self)@.member_count != member_count),
    {
        let differs = !(self.member_count == member_count);
        self.member_count = member_count;
        differs
    }
}

} // verus!
