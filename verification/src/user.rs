//! The user entity.
//!
//! A user is constructed once, the first time its id is seen in the feed,
//! and mutated in place by later updates. `handle_update` returns the exact
//! list of attributes whose values genuinely changed, in the order they
//! were examined; an observer is notified once per genuinely changed
//! attribute and never for an untouched one.

use vstd::prelude::*;

use crate::types::{opt_avatar_eq, Avatar, UserKind, UserStatus};
use crate::update::{RawUserV, Update};

verus! {

/// One observable attribute of a user.
#[derive(Clone, Copy, Debug, PartialEq, Eq, Structural)]
pub enum UserAttr {
    FirstName,
    LastName,
    Username,
    PhoneNumber,
    Status,
    Avatar,
    Kind,
}

/// A user entity. The id is immutable after construction.
#[derive(Clone, Debug)]
pub struct User {
    id: i64,
    first_name: String,
    last_name: String,
    username: String,
    phone_number: String,
    status: UserStatus,
    avatar: Option<Avatar>,
    kind: UserKind,
}

/// The mathematical state of a user.
pub ghost struct UserV {
    pub id: i64,
    pub first_name: Seq<char>,
    pub last_name: Seq<char>,
    pub username: Seq<char>,
    pub phone_number: Seq<char>,
    pub status: UserStatus,
    pub avatar: Option<Avatar>,
    pub kind: UserKind,
}

impl View for User {
    type V = UserV;

    closed spec fn view(&self) -> UserV {
        UserV {
            id: self.id,
            first_name: self.first_name@,
            last_name: self.last_name@,
            username: self.username@,
            phone_number: self.phone_number@,
            status: self.status,
            avatar: self.avatar,
            kind: self.kind,
        }
    }
}

/// The user state constructed from a raw payload.
pub open spec fn user_from_raw_v(raw: RawUserV) -> UserV {
    UserV {
        id: raw.id,
        first_name: raw.first_name,
        last_name: raw.last_name,
        username: raw.username,
        phone_number: raw.phone_number,
        status: raw.status,
        avatar: raw.profile_photo,
        kind: raw.kind,
    }
}

/// The user state after one update. A full user payload replaces every
/// mutable attribute; a status update replaces the status alone; any other
/// variant leaves the user untouched. The id never changes.
pub open spec fn user_apply(s: UserV, u: Update) -> UserV {
    match u {
        Update::User { user } => UserV {
            id: s.id,
            first_name: user.first_name@,
            last_name: user.last_name@,
            username: user.username@,
            phone_number: user.phone_number@,
            status: user.status,
            avatar: user.profile_photo,
            kind: user.kind,
        },
        Update::UserStatus { user_id, status } => UserV { status: status, ..s },
        _ => s,
    }
}

/// The attributes one update genuinely changes, in notification order.
pub open spec fn user_changed(s: UserV, u: Update) -> Seq<UserAttr> {
    match u {
        Update::User { user } => (if s.first_name != user.first_name@ {
            seq![UserAttr::FirstName]
        } else {
            seq![]
        }) + (if s.last_name != user.last_name@ {
            seq![UserAttr::LastName]
        } else {
            seq![]
        }) + (if s.username != user.username@ {
            seq![UserAttr::Username]
        } else {
            seq![]
        }) + (if s.phone_number != user.phone_number@ {
            seq![UserAttr::PhoneNumber]
        } else {
            seq![]
        }) + (if s.status != user.status {
            seq![UserAttr::Status]
        } else {
            seq![]
        }) + (if s.avatar != user.profile_photo {
            seq![UserAttr::Avatar]
        } else {
            seq![]
        }) + (if s.kind != user.kind {
            seq![UserAttr::Kind]
        } else {
            seq![]
        }),
        Update::UserStatus { user_id, status } => if s.status != status {
            seq![UserAttr::Status]
        } else {
            seq![]
        },
        _ => seq![],
    }
}

impl User {
    /// Builds a user from the raw payload that first introduced it.
    pub fn from_raw(raw: &crate::update::RawUser) -> (u: User)
        ensures
            u@ == user_from_raw_v(raw@),
    {
        User {
            id: raw.id,
            first_name: raw.first_name.clone(),
            last_name: raw.last_name.clone(),
            username: raw.username.clone(),
            phone_number: raw.phone_number.clone(),
            status: raw.status,
            avatar: raw.profile_photo,
            kind: raw.kind,
        }
    }

    /// The identity key, fixed at construction.
    pub fn id(&self) -> (r: i64)
        ensures
            r == self@.id,
    {
        self.id
    }

    /// The current first name.
    pub fn first_name(&self) -> (r: &String)
        ensures
            r@ == self@.first_name,
    {
        &self.first_name
    }

    /// The current last name.
    pub fn last_name(&self) -> (r: &String)
        ensures
            r@ == self@.last_name,
    {
        &self.last_name
    }

    /// The current username.
    pub fn username(&self) -> (r: &String)
        ensures
            r@ == self@.username,
    {
        &self.username
    }

    /// The current phone number.
    pub fn phone_number(&self) -> (r: &String)
        ensures
            r@ == self@.phone_number,
    {
        &self.phone_number
    }

    /// The current presence status.
    pub fn status(&self) -> (r: UserStatus)
        ensures
            r == self@.status,
    {
        self.status
    }

    /// The current avatar, if any.
    pub fn avatar(&self) -> (r: Option<Avatar>)
        ensures
            r == self@.avatar,
    {
        self.avatar
    }

    /// The account kind.
    pub fn kind(&self) -> (r: UserKind)
        ensures
            r == self@.kind,
    {
        self.kind
    }

    /// Applies one update to this user and returns the attributes whose
    /// values genuinely changed, in notification order. Variants not owned
    /// by a user are ignored.
    #[verifier::rlimit(60)]
    pub fn handle_update(&mut self, u: &Update) -> (changed: Vec<UserAttr>)
        ensures
            final(self)@ == user_apply(old(self)@, *u),
            changed@ == user_changed(old(self)@, *u),
    {
        match u {
            Update::User { user } => {
                let mut changed: Vec<UserAttr> = Vec::new();
                if self.set_first_name(user.first_name.clone()) {
                    changed.push(UserAttr::FirstName);
                }
                if self.set_last_name(user.last_name.clone()) {
                    changed.push(UserAttr::LastName);
                }
                if self.set_username(user.username.clone()) {
                    changed.push(UserAttr::Username);
                }
                if self.set_phone_number(user.phone_number.clone()) {
                    changed.push(UserAttr::PhoneNumber);
                }
                if self.set_status(user.status) {
                    changed.push(UserAttr::Status);
                }
                if self.set_avatar(user.profile_photo) {
                    changed.push(UserAttr::Avatar);
                }
                if self.set_kind(user.kind) {
                    changed.push(UserAttr::Kind);
                }
                proof {
                    assert(changed@ =~= user_changed(old(self)@, *u));
                }
                changed
            }
            Update::UserStatus { user_id: _, status } => {
                let mut changed: Vec<UserAttr> = Vec::new();
                if self.set_status(*status) {
                    changed.push(UserAttr::Status);
                }
                proof {
                    assert(changed@ =~= user_changed(old(self)@, *u));
                }
                changed
            }
            _ => {
                let changed: Vec<UserAttr> = Vec::new();
                proof {
                    assert(changed@ =~= user_changed(old(self)@, *u));
                }
                changed
            }
        }
    }

    /// Stores the first name; reports whether the value changed.
    fn set_first_name(&mut self, first_name: String) -> (changed: bool)
        ensures
            final(self)@ == (UserV { first_name: first_name@, ..old(self)@ }),
            changed == (old(self)@.first_name != first_name@),
    {
        let differs = !(self.first_name == first_name);
        self.first_name = first_name;
        differs
    }

    /// Stores the last name; reports whether the value changed.
    fn set_last_name(&mut self, last_name: String) -> (changed: bool)
        ensures
            final(self)@ == (UserV { last_name: last_name@, ..old(self)@ }),
            changed == (old(self)@.last_name != last_name@),
    {
        let differs = !(self.last_name == last_name);
        self.last_name = last_name;
        differs
    }

    /// Stores the username; reports whether the value changed.
    fn set_username(&mut self, username: String) -> (changed: bool)
        ensures
            final(self)@ == (UserV { username: username@, ..old(self)@ }),
            changed == (old(self)@.username != username@),
    {
        let differs = !(self.username == username);
        self.username = username;
        differs
    }

    /// Stores the phone number; reports whether the value changed.
    fn set_phone_number(&mut self, phone_number: String) -> (changed: bool)
        ensures
            final(self)@ == (UserV { phone_number: phone_number@, ..old(self)@ }),
            changed == (old(self)@.phone_number != phone_number@),
    {
        let differs = !(self.phone_number == phone_number);
        self.phone_number = phone_number;
        differs
    }

    /// Stores the status; reports whether the value changed.
    fn set_status(&mut self, status: UserStatus) -> (changed: bool)
        ensures
            final(self)@ == (UserV { status: status, ..old(self)@ }),
            changed == (old(self)@.status != status),
    {
        let differs = !(self.status == status);
        self.status = status;
        differs
    }

    /// Stores the avatar; reports whether the value changed.
    fn set_avatar(&mut self, avatar: Option<Avatar>) -> (changed: bool)
        ensures
            final(self)@ == (UserV { avatar: avatar, ..old(self)@ }),
            changed == (old(self)@.avatar != avatar),
    {
        let differs = !opt_avatar_eq(&self.avatar, &avatar);
        self.avatar = avatar;
        differs
    }

    /// Stores the account kind; reports whether the value changed.
    fn set_kind(&mut self, kind: UserKind) -> (changed: bool)
        ensures
            final(self)@ == (UserV { kind: kind, ..old(self)@ }),
            changed == (old(self)@.kind != kind),
    {
        let differs = !(self.kind == kind);
        self.kind = kind;
        differs
    }
}

} // verus!
