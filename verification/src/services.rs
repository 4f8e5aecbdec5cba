//! The service layer: the sole access point for callers outside the data
//! layer.  The user and group services delegate to their repositories; the
//! user-group service additionally verifies, before creating an
//! association, that both referenced entities exist.

use std::sync::Arc;

use vstd::prelude::*;

use crate::errors::DatabaseError;
use crate::models::Group;
use crate::models::User;
use crate::models::UserGroup;
use crate::repositories::InMemoryGroupRepository;
use crate::repositories::InMemoryUserGroupRepository;
use crate::repositories::InMemoryUserRepository;
use crate::ids::parsed_uuid;
use crate::store::StoreMap;
use crate::store::has_key;
use crate::store::keys_distinct;

verus! {

/// Per-user CRUD, delegating to the user repository.
pub struct UserService {
    data: InMemoryUserRepository,
}

impl UserService {
    pub fn new(repository: InMemoryUserRepository) -> Self {
        UserService { data: repository }
    }

    pub fn get_user_by_id(&self, id: &str) -> (r: Result<User, DatabaseError>)
        ensures
            r matches Ok(u) ==> parsed_uuid(id@) == Some(u.id@),
            r matches Err(e) ==> e == DatabaseError::UserNotFound,
    {
        self.data.get_user_by_id(id)
    }

    pub fn get_user_by_email(&self, email: &str) -> (r: Result<User, DatabaseError>)
        ensures
            r matches Ok(u) ==> u.email@ == email@,
            r matches Err(e) ==> e == DatabaseError::UserNotFound,
    {
        self.data.get_user_by_email(email)
    }

    pub fn get_all_users(&self) -> (r: Result<Vec<User>, DatabaseError>)
        ensures
            r matches Ok(v) && keys_distinct(v@),
    {
        self.data.get_all_users()
    }

    pub fn create_user(&self, user: User) -> (r: Result<User, DatabaseError>)
        ensures
            r matches Ok(u) ==> u == user,
            r matches Err(e) ==> e == DatabaseError::UserAlreadyExists,
    {
        self.data.create_user(user)
    }

    pub fn update_user(&self, user: User) -> (r: Result<User, DatabaseError>)
        ensures
            r matches Ok(u) ==> u == user,
            r matches Err(e) ==> e == DatabaseError::UserNotFound,
    {
        self.data.update_user(user)
    }

    pub fn delete_user(&self, id: &str) -> (r: Result<(), DatabaseError>)
        ensures
            r matches Err(e) ==> e == DatabaseError::UserNotFound,
            parsed_uuid(id@) is None ==> (r matches Err(e) && e == DatabaseError::UserNotFound),
    {
        self.data.delete_user(id)
    }
}

/// Per-group CRUD, delegating to the group repository.
pub struct GroupService {
    data: InMemoryGroupRepository,
}

impl GroupService {
    pub fn new(repository: InMemoryGroupRepository) -> Self {
        GroupService { data: repository }
    }

    pub fn get_group_by_id(&self, id: &str) -> (r: Result<Group, DatabaseError>)
        ensures
            r matches Ok(g) ==> parsed_uuid(id@) == Some(g.id@),
            r matches Err(e) ==> e == DatabaseError::GroupNotFound,
    {
        self.data.get_group_by_id(id)
    }

    pub fn get_group_by_name(&self, name: &str) -> (r: Result<Group, DatabaseError>)
        ensures
            r matches Ok(g) ==> g.name@ == name@,
            r matches Err(e) ==> e == DatabaseError::GroupNotFound,
    {
        self.data.get_group_by_name(name)
    }

    pub fn get_group_by_description(&self, description: &str) -> (r: Result<Group, DatabaseError>)
        ensures
            r matches Ok(g) ==> g.description@ == description@,
            r matches Err(e) ==> e == DatabaseError::GroupNotFound,
    {
        self.data.get_group_by_description(description)
    }

    pub fn get_all_groups(&self) -> (r: Result<Vec<Group>, DatabaseError>)
        ensures
            r matches Ok(v) && keys_distinct(v@),
    {
        self.data.get_all_groups()
    }

    pub fn create_group(&self, group: Group) -> (r: Result<Group, DatabaseError>)
        ensures
            r matches Ok(g) ==> g == group,
            r matches Err(e) ==> e == DatabaseError::RegisterAlreadyExists,
    {
        self.data.create_group(group)
    }

    pub fn update_group(&self, group: Group) -> (r: Result<Group, DatabaseError>)
        ensures
            r matches Ok(g) ==> g == group,
            r matches Err(e) ==> e == DatabaseError::GroupNotFound,
    {
        self.data.update_group(group)
    }

    pub fn delete_group(&self, id: &str) -> (r: Result<(), DatabaseError>)
        ensures
            r matches Err(e) ==> e == DatabaseError::GroupNotFound,
            parsed_uuid(id@) is None ==> (r matches Err(e) && e == DatabaseError::GroupNotFound),
    {
        self.data.delete_group(id)
    }
}

/// User-group association CRUD.  Creation first checks that the referenced
/// user and group exist, each check against that entity's own store.
pub struct UserGroupService {
    data: InMemoryUserGroupRepository,
    user_service: Arc<UserService>,
    group_service: Arc<GroupService>,
}

impl UserGroupService {
    pub fn new(
        repository: InMemoryUserGroupRepository,
        user_service: Arc<UserService>,
        group_service: Arc<GroupService>,
    ) -> Self {
        UserGroupService { data: repository, user_service, group_service }
    }

    pub fn get_user_group_by_id(&self, id: &str) -> (r: Result<UserGroup, DatabaseError>)
        ensures
            r matches Ok(g) ==> parsed_uuid(id@) == Some(g.id@),
            r matches Err(e) ==> e == DatabaseError::NotFoundError,
    {
        self.data.get_user_group_by_id(id)
    }

    pub fn get_user_group_by_user_id(&self, user_id: &str) -> (r: Result<
        Vec<UserGroup>,
        DatabaseError,
    >)
        ensures
            r matches Ok(v) && (forall|j: int|
                0 <= j < v@.len() ==> Some((#[trigger] v@[j].user_id)@) == parsed_uuid(user_id@)),
    {
        self.data.get_user_group_by_user_id(user_id)
    }

    pub fn get_user_group_by_group_id(&self, group_id: &str) -> (r: Result<
        Vec<UserGroup>,
        DatabaseError,
    >)
        ensures
            r matches Ok(v) && (forall|j: int|
                0 <= j < v@.len() ==> Some((#[trigger] v@[j].group_id)@) == parsed_uuid(group_id@)),
    {
        self.data.get_user_group_by_group_id(group_id)
    }

    pub fn get_all_user_groups(&self) -> (r: Result<Vec<UserGroup>, DatabaseError>)
        ensures
            r matches Ok(v) && keys_distinct(v@),
    {
        self.data.get_all_user_groups()
    }

    /// Checks that the referenced user and group exist, in that order, and
    /// only then delegates to the association repository; a failed lookup
    /// is propagated and nothing is created.  The existence checks and the
    /// create are separate critical sections against different stores, so a
    /// referenced entity deleted concurrently between check and create can
    /// leave an association referencing nothing; that gap is accepted here,
    /// matching the absence of any cross-store transaction.
    pub fn create_user_group(&self, user_group: UserGroup) -> (r: Result<UserGroup, DatabaseError>)
        ensures
            r matches Ok(g) ==> g == user_group,
            r matches Err(e) ==> (e == DatabaseError::UserNotFound || e
                == DatabaseError::GroupNotFound || e == DatabaseError::RegisterAlreadyExists),
    {
        let user_id = user_group.user_id.value();
        match self.user_service.get_user_by_id(user_id.as_str()) {
            Ok(_) => (),
            Err(e) => {
                return Err(e);
            },
        }
        let group_id = user_group.group_id.value();
        match self.group_service.get_group_by_id(group_id.as_str()) {
            Ok(_) => (),
            Err(e) => {
                return Err(e);
            },
        }
        self.data.create_user_group(user_group)
    }

    pub fn update_user_group(&self, group: UserGroup) -> (r: Result<UserGroup, DatabaseError>)
        ensures
            r matches Ok(g) ==> g == group,
            r matches Err(e) ==> e == DatabaseError::NotFoundError,
    {
        self.data.update_user_group(group)
    }

    pub fn delete_user_group(&self, id: &str) -> (r: Result<(), DatabaseError>)
        ensures
            r matches Err(e) ==> e == DatabaseError::NotFoundError,
            parsed_uuid(id@) is None ==> (r matches Err(e) && e == DatabaseError::NotFoundError),
    {
        self.data.delete_user_group(id)
    }
}

/// The referential-integrity protocol in its sequential form, against the
/// three keyed maps themselves: check that the referenced user and group
/// exist, in that order, and only then create the association.  Nothing is
/// written unless both checks pass, and a failed lookup or an identifier
/// collision leaves the association map exactly as it was.
pub fn create_user_group_checked(
    users: &StoreMap<User>,
    groups: &StoreMap<Group>,
    links: &mut StoreMap<UserGroup>,
    user_group: UserGroup,
) -> (r: Result<UserGroup, DatabaseError>)
    requires
        old(links).wf(),
    ensures
        final(links).wf(),
        !has_key(users@, user_group.user_id@) ==> (r matches Err(e) && e
            == DatabaseError::UserNotFound && final(links)@ == old(links)@),
        has_key(users@, user_group.user_id@) && !has_key(groups@, user_group.group_id@) ==> (
        r matches Err(e) && e == DatabaseError::GroupNotFound && final(links)@ == old(links)@),
        has_key(users@, user_group.user_id@) && has_key(groups@, user_group.group_id@) && has_key(
            old(links)@,
            user_group.id@,
        ) ==> (r matches Err(e) && e == DatabaseError::RegisterAlreadyExists && final(links)@ == old(
            links,
        )@),
        has_key(users@, user_group.user_id@) && has_key(groups@, user_group.group_id@) && !has_key(
            old(links)@,
            user_group.id@,
        ) ==> (r matches Ok(g) && g == user_group && final(links)@ == old(links)@.push(user_group)),
{
    if users.get(user_group.user_id.as_u128()).is_none() {
        return Err(DatabaseError::UserNotFound);
    }
    if groups.get(user_group.group_id.as_u128()).is_none() {
        return Err(DatabaseError::GroupNotFound);
    }
    match links.create(user_group) {
        Ok(g) => Ok(g),
        Err(_) => Err(DatabaseError::RegisterAlreadyExists),
    }
}

} // verus!
