//! The storage interface that the core depends on: atomic operations on
//! single entities, stated over a model of the whole store.
use crate::error::Error;
use crate::namespace::{Namespace, NamespaceView};
use crate::organization_profile::{OrganizationProfile, OrganizationProfileView};
use crate::product::{Product, ProductView};
use crate::role::{Role, RoleView};
use crate::tenant::{PopulatedTenant, Tenant, TenantView};
use crate::user::{User, UserInfo, UserQuery, UserView};
use vstd::prelude::*;

verus! {

/// What the store holds, each kind of entity by its identity.
pub struct Db {
    pub namespaces: Map<Seq<char>, NamespaceView>,
    /// Keyed by `(namespace_id, id)`.
    pub products: Map<(Seq<char>, Seq<char>), ProductView>,
    pub tenants: Map<Seq<char>, TenantView>,
    pub roles: Map<Seq<char>, RoleView>,
    /// Keyed by the user's id at its external provider.
    pub users: Map<Seq<char>, UserView>,
    pub profiles: Map<Seq<char>, OrganizationProfileView>,
}

impl Db {
    pub open spec fn with_namespaces(self, m: Map<Seq<char>, NamespaceView>) -> Db {
        Db { namespaces: m, ..self }
    }

    pub open spec fn with_products(self, m: Map<(Seq<char>, Seq<char>), ProductView>) -> Db {
        Db { products: m, ..self }
    }

    pub open spec fn with_tenants(self, m: Map<Seq<char>, TenantView>) -> Db {
        Db { tenants: m, ..self }
    }

    pub open spec fn with_roles(self, m: Map<Seq<char>, RoleView>) -> Db {
        Db { roles: m, ..self }
    }

    pub open spec fn with_users(self, m: Map<Seq<char>, UserView>) -> Db {
        Db { users: m, ..self }
    }

    pub open spec fn with_profiles(self, m: Map<Seq<char>, OrganizationProfileView>) -> Db {
        Db { profiles: m, ..self }
    }
}

impl Db {
    /// Each entity sits under its own identity.
    pub open spec fn wf(self) -> bool {
        &&& forall|k| #[trigger] self.namespaces.contains_key(k) ==> self.namespaces[k].id == k
        &&& forall|k: (Seq<char>, Seq<char>)| #[trigger]
            self.products.contains_key(k) ==> (self.products[k].namespace_id, self.products[k].id)
                == k
        &&& forall|k| #[trigger] self.tenants.contains_key(k) ==> self.tenants[k].id == k
        &&& forall|k| #[trigger] self.roles.contains_key(k) ==> self.roles[k].id == k
        &&& forall|k| #[trigger] self.users.contains_key(k) ==> self.users[k].external_id == k
        &&& forall|k| #[trigger] self.profiles.contains_key(k) ==> self.profiles[k].id == k
    }
}

/// `r` is the answer of a lookup of `k` in `m`.
pub open spec fn fetched<K, E: View>(m: Map<K, E::V>, k: K, r: Result<E, Error>) -> bool {
    match r {
        Ok(e) => m.contains_key(k) && e@ == m[k],
        Err(Error::NotFound) => !m.contains_key(k),
        Err(Error::StorageFailure(_)) => true,
        Err(_) => false,
    }
}

/// `r` lists exactly the entities of `m` that `keep` accepts.
pub open spec fn listed<K, E: View>(m: Map<K, E::V>, keep: spec_fn(E::V) -> bool, r: Result<Vec<E>, Error>) -> bool {
    match r {
        Ok(v) => (forall|i: int|
            0 <= i < v.len() ==> keep(#[trigger] v@[i]@) && m.contains_value(v@[i]@)) && (forall|k|
            #[trigger] m.contains_key(k) && keep(m[k]) ==> exists|i: int|
                0 <= i < v.len() && #[trigger] v@[i]@ == m[k]),
        Err(Error::StorageFailure(_)) => true,
        Err(_) => false,
    }
}

/// Adding `v` under `k` to `before` answered `r` and left `after`.
pub open spec fn added<K, V>(
    before: Map<K, V>,
    k: K,
    v: V,
    r: Result<(), Error>,
    after: Map<K, V>,
) -> bool {
    match r {
        Ok(_) => !before.contains_key(k) && after == before.insert(k, v),
        Err(Error::AlreadyExists) => before.contains_key(k) && after == before,
        Err(Error::StorageFailure(_)) => after == before,
        Err(_) => false,
    }
}

/// Replacing the entity under `k` by `v`, whose own key is `new_key`,
/// answered `r` (the entity replaced) and left `after`.
pub open spec fn replaced<K, E: View>(
    before: Map<K, E::V>,
    k: K,
    new_key: K,
    v: E::V,
    r: Result<E, Error>,
    after: Map<K, E::V>,
) -> bool {
    match r {
        Ok(prev) => before.contains_key(k) && prev@ == before[k] && after == before.remove(
            k,
        ).insert(new_key, v),
        Err(Error::NotFound) => !before.contains_key(k) && after == before,
        Err(Error::StorageFailure(_)) => after == before,
        Err(_) => false,
    }
}

/// Deleting `k` from `before` answered `r` (the entity deleted) and left
/// `after`.
pub open spec fn removed<K, E: View>(
    before: Map<K, E::V>,
    k: K,
    r: Result<E, Error>,
    after: Map<K, E::V>,
) -> bool {
    match r {
        Ok(prev) => before.contains_key(k) && prev@ == before[k] && after == before.remove(k),
        Err(Error::NotFound) => !before.contains_key(k) && after == before,
        Err(Error::StorageFailure(_)) => after == before,
        Err(_) => false,
    }
}

/// Deleting the same identity twice: once the first delete has succeeded,
/// the second never succeeds; it reports that nothing was found (or that
/// the store failed).
pub proof fn lemma_delete_twice<K, E: View>(
    before: Map<K, E::V>,
    k: K,
    first: Result<E, Error>,
    between: Map<K, E::V>,
    second: Result<E, Error>,
    after: Map<K, E::V>,
)
    requires
        removed(before, k, first, between),
        first is Ok,
        removed(between, k, second, after),
    ensures
        second matches Err(e) && (e is NotFound || e is StorageFailure),
{
}

/// `r` is the user known by `external_id`, joined with the tenants it is
/// associated with and the roles bound to it, as far as they exist.
pub open spec fn joined(db: Db, external_id: Seq<char>, r: Result<UserInfo, Error>) -> bool {
    match r {
        Ok(info) => {
            let user = db.users[external_id];
            &&& db.users.contains_key(external_id)
            &&& info.user() == user
            &&& listed(
                db.tenants,
                |t: TenantView| user.associated_tenants.contains(t.id),
                Ok::<Vec<PopulatedTenant>, Error>(info.populated_associated_tenants),
            )
            &&& listed(
                db.roles,
                |role: RoleView| user.roles.contains(role.id),
                Ok::<Vec<Role>, Error>(info.populated_roles),
            )
        },
        Err(Error::NotFound) => !db.users.contains_key(external_id),
        Err(Error::StorageFailure(_)) => true,
        Err(_) => false,
    }
}

/// A role grants `permission` within `tenant`.
pub open spec fn grants(role: RoleView, tenant: Seq<char>, permission: Seq<char>) -> bool {
    role.tenant_id == tenant && role.permissions.contains(permission)
}

/// `r` lists exactly the roles of `roles` whose id is in `ids` and that grant
/// `permission` within `tenant`, each once.
pub open spec fn granting(
    roles: Map<Seq<char>, RoleView>,
    ids: Seq<Seq<char>>,
    tenant: Seq<char>,
    permission: Seq<char>,
    r: Result<Vec<Role>, Error>,
) -> bool {
    match r {
        Ok(v) => (forall|i: int|
            0 <= i < v.len() ==> {
                let role = #[trigger] v@[i]@;
                &&& ids.contains(role.id)
                &&& roles.contains_key(role.id)
                &&& roles[role.id] == role
                &&& grants(role, tenant, permission)
            }) && (forall|i: int, j: int|
            0 <= i < j < v.len() ==> (#[trigger] v@[i]@).id != (#[trigger] v@[j]@).id) && (forall|k: Seq<char>|
            #![trigger roles.contains_key(k), ids.contains(k)]
            roles.contains_key(k) && ids.contains(k) && grants(roles[k], tenant, permission)
                ==> exists|i: int| 0 <= i < v.len() && (#[trigger] v@[i]@).id == k),
        Err(Error::StorageFailure(_)) => true,
        Err(_) => false,
    }
}

/// Atomic single-entity operations on a document store. A failure of the
/// store itself leaves the model as it was.
pub trait Store {
    spec fn db(&self) -> Db;

    /// What an implementation keeps true between operations.
    spec fn inv(&self) -> bool;

    /// The store may fail with message `m`. A store that can fail with no
    /// message is reliable: all its operations succeed or report a rule.
    spec fn fails_with(&self, m: String) -> bool;

    proof fn lemma_inv_wf(&self)
        requires
            self.inv(),
        ensures
            self.db().wf(),
    ;

    fn add_namespace(&mut self, namespace: &Namespace) -> (r: Result<(), Error>)
        requires
            old(self).inv(),
        ensures
            r matches Err(Error::StorageFailure(m)) ==> old(self).fails_with(m),
            forall|m: String| #[trigger] final(self).fails_with(m) == old(self).fails_with(m),
            final(self).inv(),
            added(old(self).db().namespaces, namespace.id@, namespace@, r, final(self).db().namespaces),
            final(self).db() == old(self).db().with_namespaces(final(self).db().namespaces),
    ;

    fn delete_namespace(&mut self, id: String) -> (r: Result<Namespace, Error>)
        requires
            old(self).inv(),
        ensures
            r matches Err(Error::StorageFailure(m)) ==> old(self).fails_with(m),
            forall|m: String| #[trigger] final(self).fails_with(m) == old(self).fails_with(m),
            final(self).inv(),
            removed(old(self).db().namespaces, id@, r, final(self).db().namespaces),
            final(self).db() == old(self).db().with_namespaces(final(self).db().namespaces),
    ;

    fn get_namespace(&self, id: String) -> (r: Result<Namespace, Error>)
        requires
            self.inv(),
        ensures
            r matches Err(Error::StorageFailure(m)) ==> self.fails_with(m),
            fetched(self.db().namespaces, id@, r),
    ;

    fn get_namespaces(&self) -> (r: Result<Vec<Namespace>, Error>)
        requires
            self.inv(),
        ensures
            r matches Err(Error::StorageFailure(m)) ==> self.fails_with(m),
            listed(self.db().namespaces, |v: NamespaceView| true, r),
    ;

    fn add_product(&mut self, product: &Product) -> (r: Result<(), Error>)
        requires
            old(self).inv(),
        ensures
            r matches Err(Error::StorageFailure(m)) ==> old(self).fails_with(m),
            forall|m: String| #[trigger] final(self).fails_with(m) == old(self).fails_with(m),
            final(self).inv(),
            added(
                old(self).db().products,
                (product.namespace_id@, product.id@),
                product@,
                r,
                final(self).db().products,
            ),
            final(self).db() == old(self).db().with_products(final(self).db().products),
    ;

    fn update_product(&mut self, namespace_id: String, id: String, updated_product: &Product) -> (r:
        Result<Product, Error>)
        requires
            old(self).inv(),
            updated_product.namespace_id@ == namespace_id@,
            updated_product.id@ == id@,
        ensures
            r matches Err(Error::StorageFailure(m)) ==> old(self).fails_with(m),
            forall|m: String| #[trigger] final(self).fails_with(m) == old(self).fails_with(m),
            final(self).inv(),
            replaced(
                old(self).db().products,
                (namespace_id@, id@),
                (namespace_id@, id@),
                updated_product@,
                r,
                final(self).db().products,
            ),
            final(self).db() == old(self).db().with_products(final(self).db().products),
    ;

    fn delete_product(&mut self, namespace_id: String, id: String) -> (r: Result<Product, Error>)
        requires
            old(self).inv(),
        ensures
            r matches Err(Error::StorageFailure(m)) ==> old(self).fails_with(m),
            forall|m: String| #[trigger] final(self).fails_with(m) == old(self).fails_with(m),
            final(self).inv(),
            removed(old(self).db().products, (namespace_id@, id@), r, final(self).db().products),
            final(self).db() == old(self).db().with_products(final(self).db().products),
    ;

    fn get_product(&self, namespace_id: String, id: String) -> (r: Result<Product, Error>)
        requires
            self.inv(),
        ensures
            r matches Err(Error::StorageFailure(m)) ==> self.fails_with(m),
            fetched(self.db().products, (namespace_id@, id@), r),
    ;

    fn get_products(&self, namespace_id: String) -> (r: Result<Vec<Product>, Error>)
        requires
            self.inv(),
        ensures
            r matches Err(Error::StorageFailure(m)) ==> self.fails_with(m),
            listed(self.db().products, |v: ProductView| v.namespace_id == namespace_id@, r),
    ;

    fn add_tenant(&mut self, tenant: &Tenant) -> (r: Result<(), Error>)
        requires
            old(self).inv(),
        ensures
            r matches Err(Error::StorageFailure(m)) ==> old(self).fails_with(m),
            forall|m: String| #[trigger] final(self).fails_with(m) == old(self).fails_with(m),
            final(self).inv(),
            added(old(self).db().tenants, tenant.id@, tenant@, r, final(self).db().tenants),
            final(self).db() == old(self).db().with_tenants(final(self).db().tenants),
    ;

    fn update_tenant(&mut self, id: String, updated_tenant: &Tenant) -> (r: Result<Tenant, Error>)
        requires
            old(self).inv(),
            updated_tenant.id@ == id@,
        ensures
            r matches Err(Error::StorageFailure(m)) ==> old(self).fails_with(m),
            forall|m: String| #[trigger] final(self).fails_with(m) == old(self).fails_with(m),
            final(self).inv(),
            replaced(old(self).db().tenants, id@, id@, updated_tenant@, r, final(self).db().tenants),
            final(self).db() == old(self).db().with_tenants(final(self).db().tenants),
    ;

    fn delete_tenant(&mut self, id: String) -> (r: Result<Tenant, Error>)
        requires
            old(self).inv(),
        ensures
            r matches Err(Error::StorageFailure(m)) ==> old(self).fails_with(m),
            forall|m: String| #[trigger] final(self).fails_with(m) == old(self).fails_with(m),
            final(self).inv(),
            removed(old(self).db().tenants, id@, r, final(self).db().tenants),
            final(self).db() == old(self).db().with_tenants(final(self).db().tenants),
    ;

    fn get_tenant(&self, id: String) -> (r: Result<Tenant, Error>)
        requires
            self.inv(),
        ensures
            r matches Err(Error::StorageFailure(m)) ==> self.fails_with(m),
            fetched(self.db().tenants, id@, r),
    ;

    fn get_tenants(&self, namespace_id: String) -> (r: Result<Vec<Tenant>, Error>)
        requires
            self.inv(),
        ensures
            r matches Err(Error::StorageFailure(m)) ==> self.fails_with(m),
            listed(self.db().tenants, |v: TenantView| v.namespace_id == namespace_id@, r),
    ;

    fn add_organization_profile(&mut self, organization_profile: &OrganizationProfile) -> (r:
        Result<(), Error>)
        requires
            old(self).inv(),
        ensures
            r matches Err(Error::StorageFailure(m)) ==> old(self).fails_with(m),
            forall|m: String| #[trigger] final(self).fails_with(m) == old(self).fails_with(m),
            final(self).inv(),
            added(
                old(self).db().profiles,
                organization_profile.id@,
                organization_profile@,
                r,
                final(self).db().profiles,
            ),
            final(self).db() == old(self).db().with_profiles(final(self).db().profiles),
    ;

    fn update_organization_profile(
        &mut self,
        id: String,
        updated_organization_profile: &OrganizationProfile,
    ) -> (r: Result<OrganizationProfile, Error>)
        requires
            old(self).inv(),
            updated_organization_profile.id@ == id@,
        ensures
            r matches Err(Error::StorageFailure(m)) ==> old(self).fails_with(m),
            forall|m: String| #[trigger] final(self).fails_with(m) == old(self).fails_with(m),
            final(self).inv(),
            replaced(
                old(self).db().profiles,
                id@,
                id@,
                updated_organization_profile@,
                r,
                final(self).db().profiles,
            ),
            final(self).db() == old(self).db().with_profiles(final(self).db().profiles),
    ;

    fn delete_organization_profile(&mut self, id: String) -> (r: Result<
        OrganizationProfile,
        Error,
    >)
        requires
            old(self).inv(),
        ensures
            r matches Err(Error::StorageFailure(m)) ==> old(self).fails_with(m),
            forall|m: String| #[trigger] final(self).fails_with(m) == old(self).fails_with(m),
            final(self).inv(),
            removed(old(self).db().profiles, id@, r, final(self).db().profiles),
            final(self).db() == old(self).db().with_profiles(final(self).db().profiles),
    ;

    fn get_organization_profile(&self, id: String) -> (r: Result<OrganizationProfile, Error>)
        requires
            self.inv(),
        ensures
            r matches Err(Error::StorageFailure(m)) ==> self.fails_with(m),
            fetched(self.db().profiles, id@, r),
    ;

    fn get_organization_profiles(&self, namespace_id: String) -> (r: Result<
        Vec<OrganizationProfile>,
        Error,
    >)
        requires
            self.inv(),
        ensures
            r matches Err(Error::StorageFailure(m)) ==> self.fails_with(m),
            listed(
                self.db().profiles,
                |v: OrganizationProfileView| v.namespace_id == namespace_id@,
                r,
            ),
    ;

    fn add_user(&mut self, user: &User) -> (r: Result<(), Error>)
        requires
            old(self).inv(),
        ensures
            r matches Err(Error::StorageFailure(m)) ==> old(self).fails_with(m),
            forall|m: String| #[trigger] final(self).fails_with(m) == old(self).fails_with(m),
            final(self).inv(),
            added(
                old(self).db().users,
                user.external_provider.id@,
                user@,
                r,
                final(self).db().users,
            ),
            final(self).db() == old(self).db().with_users(final(self).db().users),
    ;

    /// The replacement may carry a new external id, one that no other user
    /// has.
    fn update_user(&mut self, external_id: String, updated_user: &User) -> (r: Result<User, Error>)
        requires
            old(self).inv(),
            updated_user.external_provider.id@ == external_id@ || !old(
                self,
            ).db().users.contains_key(updated_user.external_provider.id@),
        ensures
            r matches Err(Error::StorageFailure(m)) ==> old(self).fails_with(m),
            forall|m: String| #[trigger] final(self).fails_with(m) == old(self).fails_with(m),
            final(self).inv(),
            replaced(
                old(self).db().users,
                external_id@,
                updated_user.external_provider.id@,
                updated_user@,
                r,
                final(self).db().users,
            ),
            final(self).db() == old(self).db().with_users(final(self).db().users),
    ;

    fn delete_user(&mut self, external_id: String) -> (r: Result<User, Error>)
        requires
            old(self).inv(),
        ensures
            r matches Err(Error::StorageFailure(m)) ==> old(self).fails_with(m),
            forall|m: String| #[trigger] final(self).fails_with(m) == old(self).fails_with(m),
            final(self).inv(),
            removed(old(self).db().users, external_id@, r, final(self).db().users),
            final(self).db() == old(self).db().with_users(final(self).db().users),
    ;

    fn get_user(&self, external_id: String) -> (r: Result<User, Error>)
        requires
            self.inv(),
        ensures
            r matches Err(Error::StorageFailure(m)) ==> self.fails_with(m),
            fetched(self.db().users, external_id@, r),
    ;

    /// The users of the namespace that every filter of `query` matches.
    fn get_users(&self, namespace_id: String, query: &UserQuery) -> (r: Result<Vec<User>, Error>)
        requires
            self.inv(),
        ensures
            r matches Err(Error::StorageFailure(m)) ==> self.fails_with(m),
            listed(
                self.db().users,
                |v: UserView| v.namespace_id == namespace_id@ && query.accepts(v),
                r,
            ),
    ;

    /// The read model of a user: its own fields with its tenants and roles.
    fn get_user_info(&self, external_id: String) -> (r: Result<UserInfo, Error>)
        requires
            self.inv(),
        ensures
            r matches Err(Error::StorageFailure(m)) ==> self.fails_with(m),
            joined(self.db(), external_id@, r),
    ;

    fn add_role(&mut self, role: &Role) -> (r: Result<(), Error>)
        requires
            old(self).inv(),
        ensures
            r matches Err(Error::StorageFailure(m)) ==> old(self).fails_with(m),
            forall|m: String| #[trigger] final(self).fails_with(m) == old(self).fails_with(m),
            final(self).inv(),
            added(old(self).db().roles, role.id@, role@, r, final(self).db().roles),
            final(self).db() == old(self).db().with_roles(final(self).db().roles),
    ;

    fn update_role(&mut self, id: String, updated_role: &Role) -> (r: Result<Role, Error>)
        requires
            old(self).inv(),
            updated_role.id@ == id@,
        ensures
            r matches Err(Error::StorageFailure(m)) ==> old(self).fails_with(m),
            forall|m: String| #[trigger] final(self).fails_with(m) == old(self).fails_with(m),
            final(self).inv(),
            replaced(old(self).db().roles, id@, id@, updated_role@, r, final(self).db().roles),
            final(self).db() == old(self).db().with_roles(final(self).db().roles),
    ;

    fn delete_role(&mut self, id: String) -> (r: Result<Role, Error>)
        requires
            old(self).inv(),
        ensures
            r matches Err(Error::StorageFailure(m)) ==> old(self).fails_with(m),
            forall|m: String| #[trigger] final(self).fails_with(m) == old(self).fails_with(m),
            final(self).inv(),
            removed(old(self).db().roles, id@, r, final(self).db().roles),
            final(self).db() == old(self).db().with_roles(final(self).db().roles),
    ;

    fn get_role(&self, id: String) -> (r: Result<Role, Error>)
        requires
            self.inv(),
        ensures
            r matches Err(Error::StorageFailure(m)) ==> self.fails_with(m),
            fetched(self.db().roles, id@, r),
    ;

    fn get_roles(&self, namespace_id: String) -> (r: Result<Vec<Role>, Error>)
        requires
            self.inv(),
        ensures
            r matches Err(Error::StorageFailure(m)) ==> self.fails_with(m),
            listed(self.db().roles, |v: RoleView| v.namespace_id == namespace_id@, r),
    ;

    /// The roles among `role_ids` that grant `permission` within `tenant`,
    /// each once, in one filtered lookup. An empty id list finds none.
    fn get_roles_matching_request(
        &self,
        role_ids: &Vec<String>,
        tenant: &String,
        permission: &String,
    ) -> (r: Result<Vec<Role>, Error>)
        requires
            self.inv(),
        ensures
            r matches Err(Error::StorageFailure(m)) ==> self.fails_with(m),
            granting(self.db().roles, role_ids.deep_view(), tenant@, permission@, r),
    ;
}

/// The store never fails: every operation succeeds or reports a rule.
pub open spec fn reliable<S: Store>(s: &S) -> bool {
    forall|m: String| !#[trigger] s.fails_with(m)
}

} // verus!
