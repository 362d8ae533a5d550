//! Permission storage: a capability interface with an in-memory
//! implementation, selected at construction time.
//!
//! A permission is one of a few built-in capabilities or a custom named
//! one. A `PermissionSet` holds each permission at most once; the backend
//! maps user ids to their sets, and the manager is the public face over
//! whichever backend was chosen. A persistent-store-backed backend can
//! implement the same interface outside this crate.

use vstd::prelude::*;
use std::collections::HashMap;

verus! {

broadcast use vstd::std_specs::hash::group_hash_axioms;

/// A unique user identifier.
pub type UserId = i64;

/// A capability a user may hold.
#[derive(Debug)]
pub enum Permission {
    Read,
    Write,
    Delete,
    Admin,
    /// An application-defined capability, by name.
    Custom(String),
}

/// The mathematical content of a permission.
#[verifier::ext_equal]
pub enum PermissionModel {
    Read,
    Write,
    Delete,
    Admin,
    Custom(Seq<char>),
}

impl View for Permission {
    type V = PermissionModel;

    open spec fn view(&self) -> PermissionModel {
        match self {
            Permission::Read => PermissionModel::Read,
            Permission::Write => PermissionModel::Write,
            Permission::Delete => PermissionModel::Delete,
            Permission::Admin => PermissionModel::Admin,
            Permission::Custom(s) => PermissionModel::Custom(s@),
        }
    }
}

impl Clone for Permission {
    fn clone(&self) -> (r: Self)
        ensures
            r@ == self@,
    {
        match self {
            Permission::Read => Permission::Read,
            Permission::Write => Permission::Write,
            Permission::Delete => Permission::Delete,
            Permission::Admin => Permission::Admin,
            Permission::Custom(s) => Permission::Custom(s.clone()),
        }
    }
}

impl PartialEq for Permission {
    fn eq(&self, other: &Self) -> (r: bool) {
        match (self, other) {
            (Permission::Read, Permission::Read) => true,
            (Permission::Write, Permission::Write) => true,
            (Permission::Delete, Permission::Delete) => true,
            (Permission::Admin, Permission::Admin) => true,
            (Permission::Custom(a), Permission::Custom(b)) => *a == *b,
            _ => false,
        }
    }
}

impl vstd::std_specs::cmp::PartialEqSpecImpl for Permission {
    open spec fn obeys_eq_spec() -> bool {
        true
    }

    open spec fn eq_spec(&self, other: &Permission) -> bool {
        self@ == other@
    }
}

/// The canonical name of a permission: the fixed name of a built-in one,
/// the chosen name of a custom one.
pub open spec fn spec_permission_name(p: PermissionModel) -> Seq<char> {
    match p {
        PermissionModel::Read => "read"@,
        PermissionModel::Write => "write"@,
        PermissionModel::Delete => "delete"@,
        PermissionModel::Admin => "admin"@,
        PermissionModel::Custom(s) => s,
    }
}

/// The permission a name denotes: a built-in one for its fixed name, a
/// custom one for any other name.
pub open spec fn spec_permission_of_name(s: Seq<char>) -> PermissionModel {
    if s == "read"@ {
        PermissionModel::Read
    } else if s == "write"@ {
        PermissionModel::Write
    } else if s == "delete"@ {
        PermissionModel::Delete
    } else if s == "admin"@ {
        PermissionModel::Admin
    } else {
        PermissionModel::Custom(s)
    }
}

/// The canonical name of a permission, for storage outside this crate.
pub fn permission_to_string(permission: &Permission) -> (r: String)
    ensures
        r@ == spec_permission_name(permission@),
{
    match permission {
        Permission::Read => "read".to_owned(),
        Permission::Write => "write".to_owned(),
        Permission::Delete => "delete".to_owned(),
        Permission::Admin => "admin".to_owned(),
        Permission::Custom(s) => s.clone(),
    }
}

/// The permission a stored name denotes. Every name denotes one: unknown
/// names come back as custom permissions.
pub fn string_to_permission(s: &str) -> (r: Option<Permission>)
    ensures
        r matches Some(p) && p@ == spec_permission_of_name(s@),
{
    let owned: String = s.to_owned();
    if owned == "read".to_owned() {
        Some(Permission::Read)
    } else if owned == "write".to_owned() {
        Some(Permission::Write)
    } else if owned == "delete".to_owned() {
        Some(Permission::Delete)
    } else if owned == "admin".to_owned() {
        Some(Permission::Admin)
    } else {
        Some(Permission::Custom(owned))
    }
}

/// A set of permissions: each held at most once.
#[derive(Debug)]
pub struct PermissionSet {
    permissions: Vec<Permission>,
}

impl View for PermissionSet {
    type V = Set<PermissionModel>;

    open spec fn view(&self) -> Set<PermissionModel> {
        self.as_seq().to_set()
    }
}

impl PermissionSet {
    /// The stored permissions, by content, in storage order.
    pub closed spec fn as_seq(&self) -> Seq<PermissionModel> {
        self.permissions@.map_values(|p: Permission| p@)
    }

    /// No permission is stored twice.
    pub open spec fn wf(&self) -> bool {
        self.as_seq().no_duplicates()
    }

    pub fn new() -> (r: Self)
        ensures
            r@ == Set::<PermissionModel>::empty(),
            r.wf(),
    {
        let r = PermissionSet { permissions: Vec::new() };
        proof {
            assert(r.as_seq() =~= Seq::<PermissionModel>::empty());
            assert(r@ =~= Set::<PermissionModel>::empty());
        }
        r
    }

    /// Whether the set holds this permission.
    pub fn contains(&self, permission: &Permission) -> (r: bool)
        ensures
            r == self@.contains(permission@),
    {
        let n = self.permissions.len();
        let mut i: usize = 0;
        while i < n
            invariant
                n == self.permissions@.len(),
                i <= n,
                forall|j: int| 0 <= j < i ==> self.as_seq()[j] != permission@,
            decreases n - i,
        {
            if self.permissions[i] == *permission {
                proof {
                    assert(self.as_seq()[i as int] == permission@);
                    assert(self@.contains(permission@));
                }
                return true;
            }
            i = i + 1;
        }
        proof {
            assert(!self.as_seq().contains(permission@));
        }
        false
    }

    /// Add a permission; holding it already changes nothing.
    pub fn insert(&mut self, permission: Permission)
        requires
            old(self).wf(),
        ensures
            final(self)@ == old(self)@.insert(permission@),
            final(self).wf(),
    {
        let ghost pre = self.as_seq();
        if !self.contains(&permission) {
            let ghost pm = permission@;
            self.permissions.push(permission);
            proof {
                assert(self.as_seq() =~= pre.push(pm));
                pre.lemma_push_to_set_commute(pm);
                assert(!pre.contains(pm));
                assert(self.as_seq().no_duplicates()) by {
                    assert(forall|j: int| 0 <= j < pre.len() ==> pre[j] != pm);
                }
            }
        } else {
            proof {
                assert(self@ =~= old(self)@.insert(permission@));
            }
        }
    }

    /// Drop a permission; not holding it changes nothing.
    pub fn remove(&mut self, permission: &Permission)
        requires
            old(self).wf(),
        ensures
            final(self)@ == old(self)@.remove(permission@),
            final(self).wf(),
    {
        let ghost pre = self.as_seq();
        let ghost pm = permission@;
        let n = self.permissions.len();
        let mut kept: Vec<Permission> = Vec::new();
        let mut i: usize = 0;
        while i < n
            invariant
                pre.no_duplicates(),
                n == self.permissions@.len(),
                self.as_seq() == pre,
                pm == permission@,
                i <= n,
                kept@.map_values(|p: Permission| p@).no_duplicates(),
                kept@.map_values(|p: Permission| p@).to_set() == pre.subrange(
                    0,
                    i as int,
                ).to_set().remove(pm),
            decreases n - i,
        {
            let ghost cur = pre[i as int];
            let ghost head = pre.subrange(0, i as int);
            proof {
                assert(pre.subrange(0, i + 1) =~= head.push(cur));
                head.lemma_push_to_set_commute(cur);
            }
            let keep = !(self.permissions[i] == *permission);
            if keep {
                let item = self.permissions[i].clone();
                let ghost kv = kept@.map_values(|p: Permission| p@);
                kept.push(item);
                proof {
                    assert(kept@.map_values(|p: Permission| p@) =~= kv.push(cur));
                    kv.lemma_push_to_set_commute(cur);
                    assert(!kv.contains(cur)) by {
                        if kv.contains(cur) {
                            assert(kv.to_set().contains(cur));
                            assert(head.contains(cur));
                            let j = choose|j: int| 0 <= j < head.len() && head[j] == cur;
                            assert(pre[j] == pre[i as int]);
                        }
                    }
                    assert(kv.push(cur).no_duplicates()) by {
                        assert(forall|j: int| 0 <= j < kv.len() ==> kv[j] != cur);
                    }
                }
            } else {
                proof {
                    assert(cur == pm);
                    assert(head.push(cur).to_set().remove(pm) =~= head.to_set().remove(pm));
                }
            }
            proof {
                assert(kept@.map_values(|p: Permission| p@).to_set() =~= pre.subrange(
                    0,
                    i + 1,
                ).to_set().remove(pm));
            }
            i = i + 1;
        }
        proof {
            assert(pre.subrange(0, n as int) =~= pre);
        }
        self.permissions = kept;
        proof {
            assert(self@ =~= old(self)@.remove(pm));
        }
    }

    /// All held permissions, each exactly once, in storage order.
    pub fn list(&self) -> (r: Vec<Permission>)
        ensures
            r@.map_values(|p: Permission| p@) == self.as_seq(),
            r@.map_values(|p: Permission| p@).to_set() == self@,
    {
        let n = self.permissions.len();
        let mut r: Vec<Permission> = Vec::new();
        let mut i: usize = 0;
        while i < n
            invariant
                n == self.permissions@.len(),
                i <= n,
                r@.map_values(|p: Permission| p@) == self.as_seq().subrange(0, i as int),
            decreases n - i,
        {
            let item = self.permissions[i].clone();
            let ghost rpre = r@.map_values(|p: Permission| p@);
            r.push(item);
            proof {
                assert(r@.map_values(|p: Permission| p@) =~= rpre.push(self.as_seq()[i as int]));
                assert(self.as_seq().subrange(0, i + 1) =~= self.as_seq().subrange(
                    0,
                    i as int,
                ).push(self.as_seq()[i as int]));
            }
            i = i + 1;
        }
        proof {
            assert(self.as_seq().subrange(0, n as int) =~= self.as_seq());
        }
        r
    }
}

impl Default for PermissionSet {
    fn default() -> (r: Self)
        ensures
            r@ == Set::<PermissionModel>::empty(),
            r.wf(),
    {
        PermissionSet::new()
    }
}

impl Clone for PermissionSet {
    fn clone(&self) -> (r: Self)
        ensures
            r.as_seq() == self.as_seq(),
            r@ == self@,
    {
        PermissionSet { permissions: clone_permissions(&self.permissions) }
    }
}

/// An element-by-element copy that provably keeps each permission's
/// content.
fn clone_permissions(v: &Vec<Permission>) -> (r: Vec<Permission>)
    ensures
        r@.map_values(|p: Permission| p@) == v@.map_values(|p: Permission| p@),
{
    let n = v.len();
    let mut r: Vec<Permission> = Vec::new();
    let mut i: usize = 0;
    while i < n
        invariant
            n == v@.len(),
            i <= n,
            r@.map_values(|p: Permission| p@) == v@.map_values(|p: Permission| p@).subrange(
                0,
                i as int,
            ),
        decreases n - i,
    {
        let ghost rpre = r@.map_values(|p: Permission| p@);
        r.push(v[i].clone());
        proof {
            let full = v@.map_values(|p: Permission| p@);
            assert(r@.map_values(|p: Permission| p@) =~= rpre.push(full[i as int]));
            assert(full.subrange(0, i + 1) =~= full.subrange(0, i as int).push(full[i as int]));
        }
        i = i + 1;
    }
    proof {
        assert(v@.map_values(|p: Permission| p@).subrange(0, n as int) =~= v@.map_values(
            |p: Permission| p@,
        ));
    }
    r
}

/// One user's standing on one calendar, as the permission store records
/// it.
#[derive(Clone, Copy, PartialEq, Eq, Structural, Debug)]
pub struct CalendarPermission {
    pub user_id: i64,
    pub calendar_id: i64,
    pub can_admin: bool,
    pub can_view: bool,
    pub can_read: bool,
    pub can_add_event: bool,
    pub can_modify_event: bool,
    pub can_add_recurring_event: bool,
    pub can_modify_recurring_event: bool,
}

/// One user's global standing, as the permission store records it.
#[derive(Clone, Copy, PartialEq, Eq, Structural, Debug)]
pub struct UserGlobalPermissions {
    pub user_id: i64,
    pub is_global_admin: bool,
}

/// The set a user holds in a backend model, the empty set if the user was
/// never granted anything.
pub open spec fn spec_user_set(m: Map<i64, Set<PermissionModel>>, user: UserId) -> Set<
    PermissionModel,
> {
    if m.contains_key(user) {
        m[user]
    } else {
        Set::empty()
    }
}

/// The capability interface permission storage is consumed through. A
/// backend maps user ids to permission sets; which storage backs it —
/// memory here, a persistent store elsewhere — is chosen at construction
/// time, never by runtime inspection.
pub trait PermissionBackend {
    /// The stored grants, as a map from user id to the user's set.
    spec fn model(&self) -> Map<i64, Set<PermissionModel>>;

    /// Grant a permission to a user.
    fn assign_permission(&mut self, user: UserId, permission: Permission)
        ensures
            final(self).model() == old(self).model().insert(
                user,
                spec_user_set(old(self).model(), user).insert(permission@),
            ),
    ;

    /// Revoke a permission from a user; absent grants stay absent.
    fn remove_permission(&mut self, user: UserId, permission: &Permission)
        ensures
            final(self).model() == if old(self).model().contains_key(user) {
                old(self).model().insert(
                    user,
                    old(self).model()[user].remove(permission@),
                )
            } else {
                old(self).model()
            },
    ;

    /// Whether a user holds a permission.
    fn check_permission(&self, user: UserId, permission: &Permission) -> (r: bool)
        ensures
            r == spec_user_set(self.model(), user).contains(permission@),
    ;

    /// All permissions a user holds, each exactly once.
    fn list_permissions(&self, user: UserId) -> (r: Vec<Permission>)
        ensures
            r@.map_values(|p: Permission| p@).to_set() == spec_user_set(self.model(), user),
            r@.map_values(|p: Permission| p@).no_duplicates(),
    ;
}

/// In-memory permission storage.
pub struct InMemoryPermissionBackend {
    user_permissions: HashMap<i64, PermissionSet>,
}

impl InMemoryPermissionBackend {
    #[verifier::type_invariant]
    spec fn inv(&self) -> bool {
        forall|u: i64| #[trigger]
            self.user_permissions@.contains_key(u) ==> self.user_permissions@[u].wf()
    }

    pub fn new() -> (r: Self)
        ensures
            r.model() == Map::<i64, Set<PermissionModel>>::empty(),
    {
        let r = InMemoryPermissionBackend { user_permissions: HashMap::new() };
        proof {
            assert(r.model() =~= Map::<i64, Set<PermissionModel>>::empty());
        }
        r
    }
}

impl PermissionBackend for InMemoryPermissionBackend {
    closed spec fn model(&self) -> Map<i64, Set<PermissionModel>> {
        Map::new(
            |u: i64| self.user_permissions@.contains_key(u),
            |u: i64| self.user_permissions@[u]@,
        )
    }

    fn assign_permission(&mut self, user: UserId, permission: Permission) {
        proof {
            use_type_invariant(&*self);
        }
        let ghost pre = *self;
        let mut map: HashMap<i64, PermissionSet> = HashMap::new();
        core::mem::swap(&mut map, &mut self.user_permissions);
        let mut set = match map.remove(&user) {
            Some(s) => s,
            None => PermissionSet::new(),
        };
        set.insert(permission);
        map.insert(user, set);
        core::mem::swap(&mut map, &mut self.user_permissions);
        proof {
            assert(self.model() =~= pre.model().insert(
                user,
                spec_user_set(pre.model(), user).insert(permission@),
            ));
        }
    }

    fn remove_permission(&mut self, user: UserId, permission: &Permission) {
        proof {
            use_type_invariant(&*self);
        }
        let ghost pre = *self;
        let mut map: HashMap<i64, PermissionSet> = HashMap::new();
        core::mem::swap(&mut map, &mut self.user_permissions);
        match map.remove(&user) {
            Some(mut s) => {
                s.remove(permission);
                map.insert(user, s);
            },
            None => {},
        }
        core::mem::swap(&mut map, &mut self.user_permissions);
        proof {
            if pre.model().contains_key(user) {
                assert(self.model() =~= pre.model().insert(
                    user,
                    pre.model()[user].remove(permission@),
                ));
            } else {
                assert(self.model() =~= pre.model());
            }
        }
    }

    fn check_permission(&self, user: UserId, permission: &Permission) -> (r: bool) {
        proof {
            use_type_invariant(self);
        }
        match self.user_permissions.get(&user) {
            Some(s) => s.contains(permission),
            None => false,
        }
    }

    fn list_permissions(&self, user: UserId) -> (r: Vec<Permission>) {
        proof {
            use_type_invariant(self);
        }
        match self.user_permissions.get(&user) {
            Some(s) => s.list(),
            None => Vec::new(),
        }
    }
}

/// The main API for managing permissions, over whichever backend was
/// chosen at construction time.
pub struct PermissionsManager<B: PermissionBackend> {
    backend: B,
}

impl<B: PermissionBackend> PermissionsManager<B> {
    /// The grants the chosen backend holds.
    pub closed spec fn model(&self) -> Map<i64, Set<PermissionModel>> {
        self.backend.model()
    }

    pub fn new(backend: B) -> (r: Self)
        ensures
            r.model() == backend.model(),
    {
        PermissionsManager { backend }
    }

    /// Grant a permission to a user.
    pub fn assign_permission(&mut self, user: UserId, permission: Permission)
        ensures
            final(self).model() == old(self).model().insert(
                user,
                spec_user_set(old(self).model(), user).insert(permission@),
            ),
    {
        self.backend.assign_permission(user, permission);
    }

    /// Revoke a permission from a user; revoking what was never granted
    /// changes nothing.
    pub fn remove_permission(&mut self, user: UserId, permission: &Permission)
        ensures
            final(self).model() == if old(self).model().contains_key(user) {
                old(self).model().insert(
                    user,
                    old(self).model()[user].remove(permission@),
                )
            } else {
                old(self).model()
            },
    {
        self.backend.remove_permission(user, permission);
    }

    /// Whether a user holds a permission.
    pub fn check_permission(&self, user: UserId, permission: &Permission) -> (r: bool)
        ensures
            r == spec_user_set(self.model(), user).contains(permission@),
    {
        self.backend.check_permission(user, permission)
    }

    /// All permissions a user holds, each exactly once.
    pub fn list_permissions(&self, user: UserId) -> (r: Vec<Permission>)
        ensures
            r@.map_values(|p: Permission| p@).to_set() == spec_user_set(self.model(), user),
            r@.map_values(|p: Permission| p@).no_duplicates(),
    {
        self.backend.list_permissions(user)
    }
}

} // verus!
