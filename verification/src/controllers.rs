//! Request and response bodies exchanged with the surrounding API layer,
//! as plain data.  Responses render identifiers in their canonical
//! hyphenated form.

use vstd::prelude::*;

use crate::ids::hyphenated_of;
use crate::models::Group;
use crate::models::User;
use crate::models::UserGroup;

verus! {

/// The body of a user-creation request.
#[derive(Debug, Clone)]
pub struct CreateUserRequest {
    pub name: String,
    pub email: String,
}

/// A user as the API reports it.
#[derive(Debug, Clone)]
pub struct UserResponse {
    pub id: String,
    pub name: String,
    pub email: String,
}

impl UserResponse {
    pub fn from_user(user: User) -> (r: Self)
        ensures
            r.id@ == hyphenated_of(user.id@),
            r.name@ == user.name@,
            r.email@ == user.email@,
    {
        UserResponse {
            id: user.id.value(),
            name: user.name.value().to_string(),
            email: user.email.value().to_string(),
        }
    }
}

/// The body of a group-creation request.
#[derive(Debug, Clone)]
pub struct CreateGroupRequest {
    pub name: String,
    pub description: String,
}

/// A group as the API reports it.
#[derive(Debug, Clone)]
pub struct GroupResponse {
    pub id: String,
    pub name: String,
    pub description: String,
}

impl GroupResponse {
    pub fn from_group(group: Group) -> (r: Self)
        ensures
            r.id@ == hyphenated_of(group.id@),
            r.name@ == group.name@,
            r.description@ == group.description@,
    {
        GroupResponse {
            id: group.id.value(),
            name: group.name.value().to_string(),
            description: group.description.value().to_string(),
        }
    }
}

/// The body of an association-creation request.
#[derive(Debug, Clone)]
pub struct CreateUserGroupRequest {
    pub user_id: String,
    pub group_id: String,
}

/// An association as the API reports it.
#[derive(Debug, Clone)]
pub struct UserGroupResponse {
    pub id: String,
    pub user_id: String,
    pub group_id: String,
}

impl UserGroupResponse {
    pub fn from_user_group(user_group: UserGroup) -> (r: Self)
        ensures
            r.id@ == hyphenated_of(user_group.id@),
            r.user_id@ == hyphenated_of(user_group.user_id@),
            r.group_id@ == hyphenated_of(user_group.group_id@),
    {
        UserGroupResponse {
            id: user_group.id.value(),
            user_id: user_group.user_id.value(),
            group_id: user_group.group_id.value(),
        }
    }
}

} // verus!
