//! Domain entities and their validated value objects.
//!
//! Every field is validated when the entity is constructed, all-or-nothing:
//! a single invalid field aborts construction and no partial entity exists.
//! Names and descriptions must be non-empty after trimming; an email must be
//! non-empty and contain an `@`.

use vstd::prelude::*;

use crate::ids::GroupId;
use crate::ids::UserGroupId;
use crate::ids::UserId;
use crate::ids::parsed_uuid;
use crate::store::Keyed;
use crate::text::contains_char;
use crate::text::contains_char_str;
use crate::text::is_blank;
use crate::text::is_blank_str;

verus! {

/// A user's display name: non-empty after trimming.
#[derive(Debug, Clone)]
pub struct UserName(String);

impl View for UserName {
    type V = Seq<char>;

    closed spec fn view(&self) -> Seq<char> {
        self.0@
    }
}

impl UserName {
    pub fn new(name: &str) -> (r: Result<Self, &'static str>)
        ensures
            is_blank(name@) ==> (r matches Err(e) && e@ == "Name cannot be empty"@),
            !is_blank(name@) ==> (r matches Ok(n) && n@ == name@),
    {
        if is_blank_str(name) {
            Err("Name cannot be empty")
        } else {
            Ok(UserName(name.to_string()))
        }
    }

    pub fn value(&self) -> (s: &str)
        ensures
            s@ == self@,
    {
        self.0.as_str()
    }
}

/// A user's email address: non-empty after trimming and containing an `@`.
#[derive(Debug, Clone)]
pub struct UserEmail(String);

impl View for UserEmail {
    type V = Seq<char>;

    closed spec fn view(&self) -> Seq<char> {
        self.0@
    }
}

impl UserEmail {
    pub fn new(email: &str) -> (r: Result<Self, &'static str>)
        ensures
            is_blank(email@) ==> (r matches Err(e) && e@ == "Email cannot be empty"@),
            !is_blank(email@) && !contains_char(email@, '@') ==> (r matches Err(e) && e@
                == "Email must contain @"@),
            !is_blank(email@) && contains_char(email@, '@') ==> (r matches Ok(m) && m@ == email@),
    {
        if is_blank_str(email) {
            Err("Email cannot be empty")
        } else if !contains_char_str(email, '@') {
            Err("Email must contain @")
        } else {
            Ok(UserEmail(email.to_string()))
        }
    }

    pub fn value(&self) -> (s: &str)
        ensures
            s@ == self@,
    {
        self.0.as_str()
    }
}

/// A group's display name: non-empty after trimming.
#[derive(Debug, Clone)]
pub struct GroupName(String);

impl View for GroupName {
    type V = Seq<char>;

    closed spec fn view(&self) -> Seq<char> {
        self.0@
    }
}

impl GroupName {
    pub fn new(name: &str) -> (r: Result<Self, &'static str>)
        ensures
            is_blank(name@) ==> (r matches Err(e) && e@ == "Name cannot be empty"@),
            !is_blank(name@) ==> (r matches Ok(n) && n@ == name@),
    {
        if is_blank_str(name) {
            Err("Name cannot be empty")
        } else {
            Ok(GroupName(name.to_string()))
        }
    }

    pub fn value(&self) -> (s: &str)
        ensures
            s@ == self@,
    {
        self.0.as_str()
    }
}

/// A group's description: non-empty after trimming.
#[derive(Debug, Clone)]
pub struct GroupDescription(String);

impl View for GroupDescription {
    type V = Seq<char>;

    closed spec fn view(&self) -> Seq<char> {
        self.0@
    }
}

impl GroupDescription {
    pub fn new(description: &str) -> (r: Result<Self, &'static str>)
        ensures
            is_blank(description@) ==> (r matches Err(e) && e@ == "Description cannot be empty"@),
            !is_blank(description@) ==> (r matches Ok(d) && d@ == description@),
    {
        if is_blank_str(description) {
            Err("Description cannot be empty")
        } else {
            Ok(GroupDescription(description.to_string()))
        }
    }

    pub fn value(&self) -> (s: &str)
        ensures
            s@ == self@,
    {
        self.0.as_str()
    }
}

/// A user: identifier, name and email.
#[derive(Debug, Clone)]
pub struct User {
    pub id: UserId,
    pub name: UserName,
    pub email: UserEmail,
}

impl User {
    /// Validates both fields and assigns a fresh identifier; a single
    /// invalid field aborts construction.
    pub fn new(name: &str, email: &str) -> (r: Result<Self, &'static str>)
        ensures
            is_blank(name@) ==> (r matches Err(e) && e@ == "Name cannot be empty"@),
            !is_blank(name@) && is_blank(email@) ==> (r matches Err(e) && e@
                == "Email cannot be empty"@),
            !is_blank(name@) && !is_blank(email@) && !contains_char(email@, '@') ==> (r matches Err(
                e,
            ) && e@ == "Email must contain @"@),
            !is_blank(name@) && !is_blank(email@) && contains_char(email@, '@') ==> (r matches Ok(u)
                && u.name@ == name@ && u.email@ == email@),
    {
        let id = UserId::new();
        let name = match UserName::new(name) {
            Ok(n) => n,
            Err(e) => {
                return Err(e);
            },
        };
        let email = match UserEmail::new(email) {
            Ok(m) => m,
            Err(e) => {
                return Err(e);
            },
        };
        Ok(User { id, name, email })
    }
}

impl Keyed for User {
    open spec fn key(&self) -> u128 {
        self.id@
    }

    fn key_of(&self) -> u128 {
        self.id.as_u128()
    }

    fn duplicate(&self) -> Self {
        User { id: self.id, name: UserName(self.name.0.clone()), email: UserEmail(
            self.email.0.clone(),
        ) }
    }
}

/// A group: identifier, name and description.
#[derive(Debug, Clone)]
pub struct Group {
    pub id: GroupId,
    pub name: GroupName,
    pub description: GroupDescription,
}

impl Group {
    /// Validates both fields and assigns a fresh identifier; a single
    /// invalid field aborts construction.
    pub fn new(name: &str, description: &str) -> (r: Result<Self, &'static str>)
        ensures
            is_blank(name@) ==> (r matches Err(e) && e@ == "Name cannot be empty"@),
            !is_blank(name@) && is_blank(description@) ==> (r matches Err(e) && e@
                == "Description cannot be empty"@),
            !is_blank(name@) && !is_blank(description@) ==> (r matches Ok(g) && g.name@ == name@
                && g.description@ == description@),
    {
        let id = GroupId::new();
        let name = match GroupName::new(name) {
            Ok(n) => n,
            Err(e) => {
                return Err(e);
            },
        };
        let description = match GroupDescription::new(description) {
            Ok(d) => d,
            Err(e) => {
                return Err(e);
            },
        };
        Ok(Group { id, name, description })
    }
}

impl Keyed for Group {
    open spec fn key(&self) -> u128 {
        self.id@
    }

    fn key_of(&self) -> u128 {
        self.id.as_u128()
    }

    fn duplicate(&self) -> Self {
        Group { id: self.id, name: GroupName(self.name.0.clone()), description: GroupDescription(
            self.description.0.clone(),
        ) }
    }
}

/// An association between a user and a group.  The referenced identifiers
/// are validated syntactically here; whether they name existing entities is
/// the service layer's check.
#[derive(Debug, Clone, Copy)]
pub struct UserGroup {
    pub id: UserGroupId,
    pub user_id: UserId,
    pub group_id: GroupId,
}

impl UserGroup {
    /// Parses both referenced identifiers and assigns a fresh identifier.
    pub fn new(user_id: &str, group_id: &str) -> (r: Result<Self, &'static str>)
        ensures
            parsed_uuid(user_id@) is None ==> (r matches Err(e) && e@ == "Invalid UUID string"@),
            parsed_uuid(user_id@) is Some && parsed_uuid(group_id@) is None ==> (r matches Err(e)
                && e@ == "Invalid UUID string"@),
            parsed_uuid(user_id@) is Some && parsed_uuid(group_id@) is Some ==> (r matches Ok(g)
                && g.user_id@ == parsed_uuid(user_id@)->Some_0 && g.group_id@ == parsed_uuid(
                group_id@,
            )->Some_0),
    {
        let user_id = match UserId::from_string(user_id) {
            Ok(u) => u,
            Err(e) => {
                return Err(e);
            },
        };
        let group_id = match GroupId::from_string(group_id) {
            Ok(g) => g,
            Err(e) => {
                return Err(e);
            },
        };
        Ok(UserGroup { id: UserGroupId::new(), user_id, group_id })
    }
}

impl Keyed for UserGroup {
    open spec fn key(&self) -> u128 {
        self.id@
    }

    fn key_of(&self) -> u128 {
        self.id.as_u128()
    }

    fn duplicate(&self) -> Self {
        *self
    }
}

} // verus!
