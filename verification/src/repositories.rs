//! In-memory repositories: one `EntityStore` per entity type, each
//! translating store outcomes into the error taxonomy and offering the
//! entity's secondary lookups as linear scans over a snapshot.

use vstd::prelude::*;

use crate::errors::DatabaseError;
use crate::ids::GroupId;
use crate::ids::UserGroupId;
use crate::ids::UserId;
use crate::ids::parsed_uuid;
use crate::models::Group;
use crate::models::User;
use crate::models::UserGroup;
use crate::store::EntityStore;
use crate::store::Keyed;
use crate::store::keys_distinct;
use crate::text::str_eq;

verus! {

/// The first user whose email reads `e`, in store-iteration order.
pub open spec fn first_user_with_email(s: Seq<User>, e: Seq<char>) -> Option<User>
    decreases s.len(),
{
    if s.len() == 0 {
        None
    } else if s[0].email@ == e {
        Some(s[0])
    } else {
        first_user_with_email(s.drop_first(), e)
    }
}

proof fn lemma_first_user_with_email_at(s: Seq<User>, e: Seq<char>, i: int)
    requires
        0 <= i < s.len(),
        s[i].email@ == e,
        forall|j: int| 0 <= j < i ==> (#[trigger] s[j].email@) != e,
    ensures
        first_user_with_email(s, e) == Some(s[i]),
    decreases i,
{
    if i > 0 {
        lemma_first_user_with_email_at(s.drop_first(), e, i - 1);
    }
}

proof fn lemma_first_user_with_email_absent(s: Seq<User>, e: Seq<char>)
    requires
        forall|j: int| 0 <= j < s.len() ==> (#[trigger] s[j].email@) != e,
    ensures
        first_user_with_email(s, e) is None,
    decreases s.len(),
{
    if s.len() > 0 {
        lemma_first_user_with_email_absent(s.drop_first(), e);
    }
}

/// The linear scan behind the user store's lookup by email.
pub fn find_user_by_email(users: &Vec<User>, email: &str) -> (r: Option<User>)
    ensures
        r == first_user_with_email(users@, email@),
        r matches Some(u) ==> u.email@ == email@,
{
    let n = users.len();
    let mut i: usize = 0;
    while i < n
        invariant
            0 <= i <= n,
            n == users@.len(),
            forall|j: int| 0 <= j < i ==> (#[trigger] users@[j].email@) != email@,
        decreases n - i,
    {
        if str_eq(users[i].email.value(), email) {
            proof {
                lemma_first_user_with_email_at(users@, email@, i as int);
            }
            return Some(users[i].duplicate());
        }
        i = i + 1;
    }
    proof {
        lemma_first_user_with_email_absent(users@, email@);
    }
    None
}

/// The first group whose name reads `e`, in store-iteration order.
pub open spec fn first_group_with_name(s: Seq<Group>, e: Seq<char>) -> Option<Group>
    decreases s.len(),
{
    if s.len() == 0 {
        None
    } else if s[0].name@ == e {
        Some(s[0])
    } else {
        first_group_with_name(s.drop_first(), e)
    }
}

proof fn lemma_first_group_with_name_at(s: Seq<Group>, e: Seq<char>, i: int)
    requires
        0 <= i < s.len(),
        s[i].name@ == e,
        forall|j: int| 0 <= j < i ==> (#[trigger] s[j].name@) != e,
    ensures
        first_group_with_name(s, e) == Some(s[i]),
    decreases i,
{
    if i > 0 {
        lemma_first_group_with_name_at(s.drop_first(), e, i - 1);
    }
}

proof fn lemma_first_group_with_name_absent(s: Seq<Group>, e: Seq<char>)
    requires
        forall|j: int| 0 <= j < s.len() ==> (#[trigger] s[j].name@) != e,
    ensures
        first_group_with_name(s, e) is None,
    decreases s.len(),
{
    if s.len() > 0 {
        lemma_first_group_with_name_absent(s.drop_first(), e);
    }
}

/// The linear scan behind the group store's lookup by name.
pub fn find_group_by_name(groups: &Vec<Group>, name: &str) -> (r: Option<Group>)
    ensures
        r == first_group_with_name(groups@, name@),
        r matches Some(g) ==> g.name@ == name@,
{
    let n = groups.len();
    let mut i: usize = 0;
    while i < n
        invariant
            0 <= i <= n,
            n == groups@.len(),
            forall|j: int| 0 <= j < i ==> (#[trigger] groups@[j].name@) != name@,
        decreases n - i,
    {
        if str_eq(groups[i].name.value(), name) {
            proof {
                lemma_first_group_with_name_at(groups@, name@, i as int);
            }
            return Some(groups[i].duplicate());
        }
        i = i + 1;
    }
    proof {
        lemma_first_group_with_name_absent(groups@, name@);
    }
    None
}

/// The first group whose description reads `e`, in store-iteration order.
pub open spec fn first_group_with_description(s: Seq<Group>, e: Seq<char>) -> Option<Group>
    decreases s.len(),
{
    if s.len() == 0 {
        None
    } else if s[0].description@ == e {
        Some(s[0])
    } else {
        first_group_with_description(s.drop_first(), e)
    }
}

proof fn lemma_first_group_with_description_at(s: Seq<Group>, e: Seq<char>, i: int)
    requires
        0 <= i < s.len(),
        s[i].description@ == e,
        forall|j: int| 0 <= j < i ==> (#[trigger] s[j].description@) != e,
    ensures
        first_group_with_description(s, e) == Some(s[i]),
    decreases i,
{
    if i > 0 {
        lemma_first_group_with_description_at(s.drop_first(), e, i - 1);
    }
}

proof fn lemma_first_group_with_description_absent(s: Seq<Group>, e: Seq<char>)
    requires
        forall|j: int| 0 <= j < s.len() ==> (#[trigger] s[j].description@) != e,
    ensures
        first_group_with_description(s, e) is None,
    decreases s.len(),
{
    if s.len() > 0 {
        lemma_first_group_with_description_absent(s.drop_first(), e);
    }
}

/// The linear scan behind the group store's lookup by description.
pub fn find_group_by_description(groups: &Vec<Group>, description: &str) -> (r: Option<Group>)
    ensures
        r == first_group_with_description(groups@, description@),
        r matches Some(g) ==> g.description@ == description@,
{
    let n = groups.len();
    let mut i: usize = 0;
    while i < n
        invariant
            0 <= i <= n,
            n == groups@.len(),
            forall|j: int| 0 <= j < i ==> (#[trigger] groups@[j].description@) != description@,
        decreases n - i,
    {
        if str_eq(groups[i].description.value(), description) {
            proof {
                lemma_first_group_with_description_at(groups@, description@, i as int);
            }
            return Some(groups[i].duplicate());
        }
        i = i + 1;
    }
    proof {
        lemma_first_group_with_description_absent(groups@, description@);
    }
    None
}

/// The associations referencing the user keyed `k`, in store-iteration
/// order.
pub open spec fn links_of_user(s: Seq<UserGroup>, k: u128) -> Seq<UserGroup>
    decreases s.len(),
{
    if s.len() == 0 {
        Seq::empty()
    } else {
        let rest = links_of_user(s.drop_last(), k);
        if s.last().user_id@ == k {
            rest.push(s.last())
        } else {
            rest
        }
    }
}

/// The associations referencing the group keyed `k`, in store-iteration
/// order.
pub open spec fn links_of_group(s: Seq<UserGroup>, k: u128) -> Seq<UserGroup>
    decreases s.len(),
{
    if s.len() == 0 {
        Seq::empty()
    } else {
        let rest = links_of_group(s.drop_last(), k);
        if s.last().group_id@ == k {
            rest.push(s.last())
        } else {
            rest
        }
    }
}

/// The filter behind the association store's lookup by user.
pub fn filter_links_by_user(links: &Vec<UserGroup>, k: u128) -> (r: Vec<UserGroup>)
    ensures
        r@ == links_of_user(links@, k),
{
    let n = links.len();
    let mut out: Vec<UserGroup> = Vec::new();
    let mut i: usize = 0;
    while i < n
        invariant
            0 <= i <= n,
            n == links@.len(),
            out@ == links_of_user(links@.take(i as int), k),
        decreases n - i,
    {
        proof {
            assert(links@.take(i + 1 as int).drop_last() =~= links@.take(i as int));
            assert(links@.take(i + 1 as int).last() == links@[i as int]);
        }
        if links[i].user_id.as_u128() == k {
            out.push(links[i].duplicate());
        }
        i = i + 1;
    }
    proof {
        assert(links@.take(n as int) =~= links@);
    }
    out
}

/// The filter behind the association store's lookup by group.
pub fn filter_links_by_group(links: &Vec<UserGroup>, k: u128) -> (r: Vec<UserGroup>)
    ensures
        r@ == links_of_group(links@, k),
{
    let n = links.len();
    let mut out: Vec<UserGroup> = Vec::new();
    let mut i: usize = 0;
    while i < n
        invariant
            0 <= i <= n,
            n == links@.len(),
            out@ == links_of_group(links@.take(i as int), k),
        decreases n - i,
    {
        proof {
            assert(links@.take(i + 1 as int).drop_last() =~= links@.take(i as int));
            assert(links@.take(i + 1 as int).last() == links@[i as int]);
        }
        if links[i].group_id.as_u128() == k {
            out.push(links[i].duplicate());
        }
        i = i + 1;
    }
    proof {
        assert(links@.take(n as int) =~= links@);
    }
    out
}

/// The concurrent in-memory user store.
pub struct InMemoryUserRepository {
    data: EntityStore<User>,
}

impl InMemoryUserRepository {
    pub fn new() -> Self {
        InMemoryUserRepository { data: EntityStore::new() }
    }

    pub fn get_user_by_id(&self, id: &str) -> (r: Result<User, DatabaseError>)
        ensures
            r matches Ok(u) ==> parsed_uuid(id@) == Some(u.id@),
            r matches Err(e) ==> e == DatabaseError::UserNotFound,
    {
        match UserId::from_string(id) {
            Ok(uid) => match self.data.get_by_id(uid.as_u128()) {
                Ok(u) => Ok(u),
                Err(_) => Err(DatabaseError::UserNotFound),
            },
            Err(_) => Err(DatabaseError::UserNotFound),
        }
    }

    pub fn get_user_by_email(&self, email: &str) -> (r: Result<User, DatabaseError>)
        ensures
            r matches Ok(u) ==> u.email@ == email@,
            r matches Err(e) ==> e == DatabaseError::UserNotFound,
    {
        let all = self.data.get_all();
        match find_user_by_email(&all, email) {
            Some(u) => Ok(u),
            None => Err(DatabaseError::UserNotFound),
        }
    }

    /// A snapshot copy of all current users at call time.
    pub fn get_all_users(&self) -> (r: Result<Vec<User>, DatabaseError>)
        ensures
            r matches Ok(v) && keys_distinct(v@),
    {
        Ok(self.data.get_all())
    }

    pub fn create_user(&self, user: User) -> (r: Result<User, DatabaseError>)
        ensures
            r matches Ok(u) ==> u == user,
            r matches Err(e) ==> e == DatabaseError::UserAlreadyExists,
    {
        match self.data.create(user) {
            Ok(u) => Ok(u),
            Err(_) => Err(DatabaseError::UserAlreadyExists),
        }
    }

    pub fn update_user(&self, user: User) -> (r: Result<User, DatabaseError>)
        ensures
            r matches Ok(u) ==> u == user,
            r matches Err(e) ==> e == DatabaseError::UserNotFound,
    {
        match self.data.update(user) {
            Ok(u) => Ok(u),
            Err(_) => Err(DatabaseError::UserNotFound),
        }
    }

    pub fn delete_user(&self, id: &str) -> (r: Result<(), DatabaseError>)
        ensures
            r matches Err(e) ==> e == DatabaseError::UserNotFound,
            parsed_uuid(id@) is None ==> (r matches Err(e) && e == DatabaseError::UserNotFound),
    {
        match UserId::from_string(id) {
            Ok(uid) => match self.data.delete(uid.as_u128()) {
                Ok(_) => Ok(()),
                Err(_) => Err(DatabaseError::UserNotFound),
            },
            Err(_) => Err(DatabaseError::UserNotFound),
        }
    }
}

/// The concurrent in-memory group store.
pub struct InMemoryGroupRepository {
    data: EntityStore<Group>,
}

impl InMemoryGroupRepository {
    pub fn new() -> Self {
        InMemoryGroupRepository { data: EntityStore::new() }
    }

    pub fn get_group_by_id(&self, id: &str) -> (r: Result<Group, DatabaseError>)
        ensures
            r matches Ok(g) ==> parsed_uuid(id@) == Some(g.id@),
            r matches Err(e) ==> e == DatabaseError::GroupNotFound,
    {
        match GroupId::from_string(id) {
            Ok(gid) => match self.data.get_by_id(gid.as_u128()) {
                Ok(g) => Ok(g),
                Err(_) => Err(DatabaseError::GroupNotFound),
            },
            Err(_) => Err(DatabaseError::GroupNotFound),
        }
    }

    pub fn get_group_by_name(&self, name: &str) -> (r: Result<Group, DatabaseError>)
        ensures
            r matches Ok(g) ==> g.name@ == name@,
            r matches Err(e) ==> e == DatabaseError::GroupNotFound,
    {
        let all = self.data.get_all();
        match find_group_by_name(&all, name) {
            Some(g) => Ok(g),
            None => Err(DatabaseError::GroupNotFound),
        }
    }

    pub fn get_group_by_description(&self, description: &str) -> (r: Result<Group, DatabaseError>)
        ensures
            r matches Ok(g) ==> g.description@ == description@,
            r matches Err(e) ==> e == DatabaseError::GroupNotFound,
    {
        let all = self.data.get_all();
        match find_group_by_description(&all, description) {
            Some(g) => Ok(g),
            None => Err(DatabaseError::GroupNotFound),
        }
    }

    /// A snapshot copy of all current groups at call time.
    pub fn get_all_groups(&self) -> (r: Result<Vec<Group>, DatabaseError>)
        ensures
            r matches Ok(v) && keys_distinct(v@),
    {
        Ok(self.data.get_all())
    }

    pub fn create_group(&self, group: Group) -> (r: Result<Group, DatabaseError>)
        ensures
            r matches Ok(g) ==> g == group,
            r matches Err(e) ==> e == DatabaseError::RegisterAlreadyExists,
    {
        match self.data.create(group) {
            Ok(g) => Ok(g),
            Err(_) => Err(DatabaseError::RegisterAlreadyExists),
        }
    }

    pub fn update_group(&self, group: Group) -> (r: Result<Group, DatabaseError>)
        ensures
            r matches Ok(g) ==> g == group,
            r matches Err(e) ==> e == DatabaseError::GroupNotFound,
    {
        match self.data.update(group) {
            Ok(g) => Ok(g),
            Err(_) => Err(DatabaseError::GroupNotFound),
        }
    }

    pub fn delete_group(&self, id: &str) -> (r: Result<(), DatabaseError>)
        ensures
            r matches Err(e) ==> e == DatabaseError::GroupNotFound,
            parsed_uuid(id@) is None ==> (r matches Err(e) && e == DatabaseError::GroupNotFound),
    {
        match GroupId::from_string(id) {
            Ok(gid) => match self.data.delete(gid.as_u128()) {
                Ok(_) => Ok(()),
                Err(_) => Err(DatabaseError::GroupNotFound),
            },
            Err(_) => Err(DatabaseError::GroupNotFound),
        }
    }
}

/// The concurrent in-memory user-group association store.
pub struct InMemoryUserGroupRepository {
    data: EntityStore<UserGroup>,
}

impl InMemoryUserGroupRepository {
    pub fn new() -> Self {
        InMemoryUserGroupRepository { data: EntityStore::new() }
    }

    pub fn get_user_group_by_id(&self, id: &str) -> (r: Result<UserGroup, DatabaseError>)
        ensures
            r matches Ok(g) ==> parsed_uuid(id@) == Some(g.id@),
            r matches Err(e) ==> e == DatabaseError::NotFoundError,
    {
        match UserGroupId::from_string(id) {
            Ok(gid) => match self.data.get_by_id(gid.as_u128()) {
                Ok(g) => Ok(g),
                Err(_) => Err(DatabaseError::NotFoundError),
            },
            Err(_) => Err(DatabaseError::NotFoundError),
        }
    }

    /// All associations referencing the given user; an unparseable
    /// identifier references nothing.
    pub fn get_user_group_by_user_id(&self, user_id: &str) -> (r: Result<
        Vec<UserGroup>,
        DatabaseError,
    >)
        ensures
            r matches Ok(v) && (forall|j: int|
                0 <= j < v@.len() ==> Some((#[trigger] v@[j].user_id)@) == parsed_uuid(user_id@)),
    {
        match UserId::from_string(user_id) {
            Ok(uid) => {
                let all = self.data.get_all();
                let out = filter_links_by_user(&all, uid.as_u128());
                proof {
                    lemma_links_of_user_elements(all@, uid@);
                }
                Ok(out)
            },
            Err(_) => Ok(Vec::new()),
        }
    }

    /// All associations referencing the given group; an unparseable
    /// identifier references nothing.
    pub fn get_user_group_by_group_id(&self, group_id: &str) -> (r: Result<
        Vec<UserGroup>,
        DatabaseError,
    >)
        ensures
            r matches Ok(v) && (forall|j: int|
                0 <= j < v@.len() ==> Some((#[trigger] v@[j].group_id)@) == parsed_uuid(group_id@)),
    {
        match GroupId::from_string(group_id) {
            Ok(gid) => {
                let all = self.data.get_all();
                let out = filter_links_by_group(&all, gid.as_u128());
                proof {
                    lemma_links_of_group_elements(all@, gid@);
                }
                Ok(out)
            },
            Err(_) => Ok(Vec::new()),
        }
    }

    /// A snapshot copy of all current associations at call time.
    pub fn get_all_user_groups(&self) -> (r: Result<Vec<UserGroup>, DatabaseError>)
        ensures
            r matches Ok(v) && keys_distinct(v@),
    {
        Ok(self.data.get_all())
    }

    pub fn create_user_group(&self, group: UserGroup) -> (r: Result<UserGroup, DatabaseError>)
        ensures
            r matches Ok(g) ==> g == group,
            r matches Err(e) ==> e == DatabaseError::RegisterAlreadyExists,
    {
        match self.data.create(group) {
            Ok(g) => Ok(g),
            Err(_) => Err(DatabaseError::RegisterAlreadyExists),
        }
    }

    pub fn update_user_group(&self, group: UserGroup) -> (r: Result<UserGroup, DatabaseError>)
        ensures
            r matches Ok(g) ==> g == group,
            r matches Err(e) ==> e == DatabaseError::NotFoundError,
    {
        match self.data.update(group) {
            Ok(g) => Ok(g),
            Err(_) => Err(DatabaseError::NotFoundError),
        }
    }

    pub fn delete_user_group(&self, id: &str) -> (r: Result<(), DatabaseError>)
        ensures
            r matches Err(e) ==> e == DatabaseError::NotFoundError,
            parsed_uuid(id@) is None ==> (r matches Err(e) && e == DatabaseError::NotFoundError),
    {
        match UserGroupId::from_string(id) {
            Ok(gid) => match self.data.delete(gid.as_u128()) {
                Ok(_) => Ok(()),
                Err(_) => Err(DatabaseError::NotFoundError),
            },
            Err(_) => Err(DatabaseError::NotFoundError),
        }
    }
}

/// Every association the user filter keeps references that user.
proof fn lemma_links_of_user_elements(s: Seq<UserGroup>, k: u128)
    ensures
        forall|j: int|
            0 <= j < links_of_user(s, k).len() ==> (#[trigger] links_of_user(s, k)[j].user_id@)
                == k,
    decreases s.len(),
{
    if s.len() > 0 {
        lemma_links_of_user_elements(s.drop_last(), k);
        let rest = links_of_user(s.drop_last(), k);
        if s.last().user_id@ == k {
            assert forall|j: int|
                0 <= j < links_of_user(s, k).len() implies (#[trigger] links_of_user(
                s,
                k,
            )[j].user_id@) == k by {
                if j < rest.len() {
                    assert(links_of_user(s, k)[j] == rest[j]);
                } else {
                    assert(links_of_user(s, k)[j] == s.last());
                }
            }
        }
    }
}

/// Every association the group filter keeps references that group.
proof fn lemma_links_of_group_elements(s: Seq<UserGroup>, k: u128)
    ensures
        forall|j: int|
            0 <= j < links_of_group(s, k).len() ==> (#[trigger] links_of_group(s, k)[j].group_id@)
                == k,
    decreases s.len(),
{
    if s.len() > 0 {
        lemma_links_of_group_elements(s.drop_last(), k);
        let rest = links_of_group(s.drop_last(), k);
        if s.last().group_id@ == k {
            assert forall|j: int|
                0 <= j < links_of_group(s, k).len() implies (#[trigger] links_of_group(
                s,
                k,
            )[j].group_id@) == k by {
                if j < rest.len() {
                    assert(links_of_group(s, k)[j] == rest[j]);
                } else {
                    assert(links_of_group(s, k)[j] == s.last());
                }
            }
        }
    }
}

} // verus!
