//! A store that keeps every entity in memory.
use crate::error::Error;
use crate::namespace::{Namespace, NamespaceView};
use crate::organization_profile::{OrganizationProfile, OrganizationProfileView};
use crate::product::{Product, ProductView};
use crate::role::{Role, RoleView};
use crate::store::{grants, listed, reliable, Db, Store};
use crate::table::{Row, Table};
use crate::tenant::{PopulatedTenant, Tenant, TenantView};
use crate::text::contains_string;
use crate::user::{User, UserInfo, UserQuery, UserView};
use vstd::prelude::*;

verus! {

impl Row for Namespace {
    type Key = String;

    open spec fn key(v: Self::V) -> Seq<char> {
        v.id
    }

    fn has_key(&self, k: &String) -> (r: bool) {
        self.id == *k
    }

    fn identity(&self) -> (k: String) {
        self.id.clone()
    }

    fn copy(&self) -> (r: Self) {
        Namespace::copy(self)
    }
}

impl Row for Product {
    type Key = (String, String);

    open spec fn key(v: Self::V) -> (Seq<char>, Seq<char>) {
        (v.namespace_id, v.id)
    }

    fn has_key(&self, k: &(String, String)) -> (r: bool) {
        self.namespace_id == k.0 && self.id == k.1
    }

    fn identity(&self) -> (k: (String, String)) {
        (self.namespace_id.clone(), self.id.clone())
    }

    fn copy(&self) -> (r: Self) {
        Product::copy(self)
    }
}

impl Row for Tenant {
    type Key = String;

    open spec fn key(v: Self::V) -> Seq<char> {
        v.id
    }

    fn has_key(&self, k: &String) -> (r: bool) {
        self.id == *k
    }

    fn identity(&self) -> (k: String) {
        self.id.clone()
    }

    fn copy(&self) -> (r: Self) {
        Tenant::copy(self)
    }
}

impl Row for Role {
    type Key = String;

    open spec fn key(v: Self::V) -> Seq<char> {
        v.id
    }

    fn has_key(&self, k: &String) -> (r: bool) {
        self.id == *k
    }

    fn identity(&self) -> (k: String) {
        self.id.clone()
    }

    fn copy(&self) -> (r: Self) {
        Role::copy(self)
    }
}

impl Row for User {
    type Key = String;

    open spec fn key(v: Self::V) -> Seq<char> {
        v.external_id
    }

    fn has_key(&self, k: &String) -> (r: bool) {
        self.external_provider.id == *k
    }

    fn identity(&self) -> (k: String) {
        self.external_provider.id.clone()
    }

    fn copy(&self) -> (r: Self) {
        User::copy(self)
    }
}

impl Row for OrganizationProfile {
    type Key = String;

    open spec fn key(v: Self::V) -> Seq<char> {
        v.id
    }

    fn has_key(&self, k: &String) -> (r: bool) {
        self.id == *k
    }

    fn identity(&self) -> (k: String) {
        self.id.clone()
    }

    fn copy(&self) -> (r: Self) {
        OrganizationProfile::copy(self)
    }
}

/// Every entity in memory; its operations never fail.
pub struct MemStore {
    namespaces: Table<Namespace>,
    products: Table<Product>,
    tenants: Table<Tenant>,
    roles: Table<Role>,
    users: Table<User>,
    profiles: Table<OrganizationProfile>,
}

impl MemStore {
    pub fn new() -> (s: MemStore)
        ensures
            s.inv(),
            reliable(&s),
            s.db() == (Db {
                namespaces: Map::empty(),
                products: Map::empty(),
                tenants: Map::empty(),
                roles: Map::empty(),
                users: Map::empty(),
                profiles: Map::empty(),
            }),
    {
        MemStore {
            namespaces: Table::new(),
            products: Table::new(),
            tenants: Table::new(),
            roles: Table::new(),
            users: Table::new(),
            profiles: Table::new(),
        }
    }
}

fn added_answer(added: bool) -> (r: Result<(), Error>)
    ensures
        added ==> r is Ok,
        !added ==> r == Err::<(), Error>(Error::AlreadyExists),
{
    if added {
        Ok(())
    } else {
        Err(Error::AlreadyExists)
    }
}

fn found_answer<E>(found: Option<E>) -> (r: Result<E, Error>)
    ensures
        found matches Some(e) ==> r == Ok::<E, Error>(e),
        found is None ==> r == Err::<E, Error>(Error::NotFound),
{
    match found {
        Some(e) => Ok(e),
        None => Err(Error::NotFound),
    }
}

impl Store for MemStore {
    closed spec fn db(&self) -> Db {
        Db {
            namespaces: self.namespaces@,
            products: self.products@,
            tenants: self.tenants@,
            roles: self.roles@,
            users: self.users@,
            profiles: self.profiles@,
        }
    }

    closed spec fn inv(&self) -> bool {
        &&& self.namespaces.wf()
        &&& self.products.wf()
        &&& self.tenants.wf()
        &&& self.roles.wf()
        &&& self.users.wf()
        &&& self.profiles.wf()
    }

    open spec fn fails_with(&self, m: String) -> bool {
        false
    }

    proof fn lemma_inv_wf(&self) {
        self.namespaces.lemma_keys();
        self.products.lemma_keys();
        self.tenants.lemma_keys();
        self.roles.lemma_keys();
        self.users.lemma_keys();
        self.profiles.lemma_keys();
    }

    fn add_namespace(&mut self, namespace: &Namespace) -> (r: Result<(), Error>) {
        added_answer(self.namespaces.insert(namespace.copy()))
    }

    fn delete_namespace(&mut self, id: String) -> (r: Result<Namespace, Error>) {
        found_answer(self.namespaces.remove(&id))
    }

    fn get_namespace(&self, id: String) -> (r: Result<Namespace, Error>) {
        found_answer(self.namespaces.get(&id))
    }

    fn get_namespaces(&self) -> (r: Result<Vec<Namespace>, Error>) {
        Ok(
            self.namespaces.select(
                (|n: &Namespace| -> (b: bool)
                    ensures
                        b,
                    { true }),
                Ghost(|v: NamespaceView| true),
            ),
        )
    }

    fn add_product(&mut self, product: &Product) -> (r: Result<(), Error>) {
        added_answer(self.products.insert(product.copy()))
    }

    fn update_product(&mut self, namespace_id: String, id: String, updated_product: &Product) -> (r:
        Result<Product, Error>) {
        found_answer(self.products.replace(&(namespace_id, id), updated_product.copy()))
    }

    fn delete_product(&mut self, namespace_id: String, id: String) -> (r: Result<Product, Error>) {
        found_answer(self.products.remove(&(namespace_id, id)))
    }

    fn get_product(&self, namespace_id: String, id: String) -> (r: Result<Product, Error>) {
        found_answer(self.products.get(&(namespace_id, id)))
    }

    fn get_products(&self, namespace_id: String) -> (r: Result<Vec<Product>, Error>) {
        let ns = &namespace_id;
        Ok(
            self.products.select(
                (|p: &Product| -> (b: bool)
                    ensures
                        b == (p@.namespace_id == ns@),
                    { p.namespace_id == *ns }),
                Ghost(|v: ProductView| v.namespace_id == namespace_id@),
            ),
        )
    }

    fn add_tenant(&mut self, tenant: &Tenant) -> (r: Result<(), Error>) {
        added_answer(self.tenants.insert(tenant.copy()))
    }

    fn update_tenant(&mut self, id: String, updated_tenant: &Tenant) -> (r: Result<Tenant, Error>) {
        found_answer(self.tenants.replace(&id, updated_tenant.copy()))
    }

    fn delete_tenant(&mut self, id: String) -> (r: Result<Tenant, Error>) {
        found_answer(self.tenants.remove(&id))
    }

    fn get_tenant(&self, id: String) -> (r: Result<Tenant, Error>) {
        found_answer(self.tenants.get(&id))
    }

    fn get_tenants(&self, namespace_id: String) -> (r: Result<Vec<Tenant>, Error>) {
        let ns = &namespace_id;
        Ok(
            self.tenants.select(
                (|t: &Tenant| -> (b: bool)
                    ensures
                        b == (t@.namespace_id == ns@),
                    { t.namespace_id == *ns }),
                Ghost(|v: TenantView| v.namespace_id == namespace_id@),
            ),
        )
    }

    fn add_organization_profile(&mut self, organization_profile: &OrganizationProfile) -> (r:
        Result<(), Error>) {
        added_answer(self.profiles.insert(organization_profile.copy()))
    }

    fn update_organization_profile(
        &mut self,
        id: String,
        updated_organization_profile: &OrganizationProfile,
    ) -> (r: Result<OrganizationProfile, Error>) {
        found_answer(self.profiles.replace(&id, updated_organization_profile.copy()))
    }

    fn delete_organization_profile(&mut self, id: String) -> (r: Result<
        OrganizationProfile,
        Error,
    >) {
        found_answer(self.profiles.remove(&id))
    }

    fn get_organization_profile(&self, id: String) -> (r: Result<OrganizationProfile, Error>) {
        found_answer(self.profiles.get(&id))
    }

    fn get_organization_profiles(&self, namespace_id: String) -> (r: Result<
        Vec<OrganizationProfile>,
        Error,
    >) {
        let ns = &namespace_id;
        Ok(
            self.profiles.select(
                (|p: &OrganizationProfile| -> (b: bool)
                    ensures
                        b == (p@.namespace_id == ns@),
                    { p.namespace_id == *ns }),
                Ghost(|v: OrganizationProfileView| v.namespace_id == namespace_id@),
            ),
        )
    }

    fn add_user(&mut self, user: &User) -> (r: Result<(), Error>) {
        added_answer(self.users.insert(user.copy()))
    }

    fn update_user(&mut self, external_id: String, updated_user: &User) -> (r: Result<User, Error>) {
        found_answer(self.users.replace(&external_id, updated_user.copy()))
    }

    fn delete_user(&mut self, external_id: String) -> (r: Result<User, Error>) {
        found_answer(self.users.remove(&external_id))
    }

    fn get_user(&self, external_id: String) -> (r: Result<User, Error>) {
        found_answer(self.users.get(&external_id))
    }

    fn get_users(&self, namespace_id: String, query: &UserQuery) -> (r: Result<Vec<User>, Error>) {
        let ns = &namespace_id;
        Ok(
            self.users.select(
                (|u: &User| -> (b: bool)
                    ensures
                        b == (u@.namespace_id == ns@ && query.accepts(u@)),
                    { u.namespace_id == *ns && query.matches(u) }),
                Ghost(|v: UserView| v.namespace_id == namespace_id@ && query.accepts(v)),
            ),
        )
    }

    fn get_user_info(&self, external_id: String) -> (r: Result<UserInfo, Error>) {
        let user = match self.users.get(&external_id) {
            Some(u) => u,
            None => {
                return Err(Error::NotFound);
            },
        };
        let ghost uv = self.db().users[external_id@];
        let tenant_ids = &user.associated_tenants;
        let ghost keep = |t: TenantView| uv.associated_tenants.contains(t.id);
        let tenants = self.tenants.select(
            (|t: &Tenant| -> (b: bool)
                ensures
                    b == tenant_ids.deep_view().contains(t@.id),
                { contains_string(tenant_ids, &t.id) }),
            Ghost(keep),
        );
        let ghost listed_tenants = Ok::<Vec<Tenant>, Error>(tenants);
        assert(listed_tenants->Ok_0 == tenants);
        assert(listed(self.tenants@, keep, listed_tenants));
        let role_ids = &user.roles;
        let roles = self.roles.select(
            (|role: &Role| -> (b: bool)
                ensures
                    b == role_ids.deep_view().contains(role@.id),
                { contains_string(role_ids, &role.id) }),
            Ghost(|role: RoleView| uv.roles.contains(role.id)),
        );
        let mut populated: Vec<PopulatedTenant> = Vec::new();
        let mut i: usize = 0;
        while i < tenants.len()
            invariant
                i <= tenants.len(),
                populated.len() == i,
                forall|j: int| 0 <= j < i ==> (#[trigger] populated@[j])@ == tenants@[j]@,
            decreases tenants.len() - i,
        {
            populated.push(PopulatedTenant::from_tenant(&tenants[i]));
            i += 1;
        }
        let ghost m = self.db().tenants;
        let ghost listed_populated = Ok::<Vec<PopulatedTenant>, Error>(populated);
        assert(listed_populated->Ok_0 == populated);
        assert(listed(m, keep, listed_populated)) by {
            assert forall|k| #[trigger] m.contains_key(k) && keep(m[k]) implies exists|j: int|
                0 <= j < populated.len() && #[trigger] populated@[j]@ == m[k] by {
                let j = choose|j: int| 0 <= j < tenants.len() && #[trigger] tenants@[j]@ == m[k];
                assert(populated@[j]@ == tenants@[j]@);
            }
            assert forall|j: int| 0 <= j < populated.len() implies keep(#[trigger] populated@[j]@)
                && m.contains_value(populated@[j]@) by {
                assert(populated@[j]@ == tenants@[j]@);
                assert(keep(tenants@[j]@) && m.contains_value(tenants@[j]@));
            }
        }
        Ok(
            UserInfo {
                id: user.id,
                namespace_id: user.namespace_id,
                email: user.email,
                external_provider: user.external_provider,
                first_name: user.first_name,
                last_name: user.last_name,
                is_active: user.is_active,
                is_invited: user.is_invited,
                metadata: user.metadata,
                associated_tenants: user.associated_tenants,
                populated_associated_tenants: populated,
                roles: user.roles,
                populated_roles: roles,
                timestamps: user.timestamps,
            },
        )
    }

    fn add_role(&mut self, role: &Role) -> (r: Result<(), Error>) {
        added_answer(self.roles.insert(role.copy()))
    }

    fn update_role(&mut self, id: String, updated_role: &Role) -> (r: Result<Role, Error>) {
        found_answer(self.roles.replace(&id, updated_role.copy()))
    }

    fn delete_role(&mut self, id: String) -> (r: Result<Role, Error>) {
        found_answer(self.roles.remove(&id))
    }

    fn get_role(&self, id: String) -> (r: Result<Role, Error>) {
        found_answer(self.roles.get(&id))
    }

    fn get_roles(&self, namespace_id: String) -> (r: Result<Vec<Role>, Error>) {
        let ns = &namespace_id;
        Ok(
            self.roles.select(
                (|r: &Role| -> (b: bool)
                    ensures
                        b == (r@.namespace_id == ns@),
                    { r.namespace_id == *ns }),
                Ghost(|v: RoleView| v.namespace_id == namespace_id@),
            ),
        )
    }

    fn get_roles_matching_request(
        &self,
        role_ids: &Vec<String>,
        tenant: &String,
        permission: &String,
    ) -> (r: Result<Vec<Role>, Error>) {
        let ghost ids = role_ids.deep_view();
        let ghost roles = self.roles@;
        let mut out: Vec<Role> = Vec::new();
        let mut i: usize = 0;
        while i < self.roles.len()
            invariant
                self.roles.wf(),
                roles == self.roles@,
                ids == role_ids.deep_view(),
                i <= self.roles.entries().len(),
                forall|j: int|
                    0 <= j < out.len() ==> exists|idx: int|
                        0 <= idx < i && (#[trigger] out@[j]@) == self.roles.entries()[idx],
                forall|a: int, b: int|
                    0 <= a < b < out.len() ==> (#[trigger] out@[a]@).id != (#[trigger] out@[b]@).id,
                forall|j: int|
                    0 <= j < out.len() ==> {
                        let role = #[trigger] out@[j]@;
                        &&& ids.contains(role.id)
                        &&& roles.contains_key(role.id)
                        &&& roles[role.id] == role
                        &&& grants(role, tenant@, permission@)
                    },
                forall|j: int|
                    #![trigger self.roles.entries()[j]]
                    0 <= j < i && ids.contains(self.roles.entries()[j].id) && grants(
                        self.roles.entries()[j],
                        tenant@,
                        permission@,
                    ) ==> exists|m: int|
                        0 <= m < out.len() && (#[trigger] out@[m]@).id
                            == self.roles.entries()[j].id,
            decreases self.roles.entries().len() - i,
        {
            let role = self.roles.row(i);
            if contains_string(role_ids, &role.id) && role.tenant_id == *tenant && contains_string(
                &role.permissions,
                permission,
            ) {
                let ghost before = out@;
                out.push(role.copy());
                assert forall|j: int| 0 <= j < out.len() implies exists|idx: int|
                    0 <= idx < i + 1 && (#[trigger] out@[j]@) == self.roles.entries()[idx] by {
                    if j < before.len() {
                        assert(out@[j] == before[j]);
                    } else {
                        assert(out@[j]@ == self.roles.entries()[i as int]);
                    }
                }
                assert forall|a: int, b: int| 0 <= a < b < out.len() implies (#[trigger] out@[a]@).id
                    != (#[trigger] out@[b]@).id by {
                    if b == before.len() {
                        assert(out@[a] == before[a]);
                        let idx = choose|idx: int|
                            0 <= idx < i && (#[trigger] before[a]@) == self.roles.entries()[idx];
                        self.roles.lemma_distinct(idx, i as int);
                    } else {
                        assert(out@[a] == before[a]);
                        assert(out@[b] == before[b]);
                    }
                }
                assert forall|j: int|
                    #![trigger self.roles.entries()[j]]
                    0 <= j < i + 1 && ids.contains(self.roles.entries()[j].id) && grants(
                        self.roles.entries()[j],
                        tenant@,
                        permission@,
                    ) implies exists|m: int|
                    0 <= m < out.len() && (#[trigger] out@[m]@).id
                        == self.roles.entries()[j].id by {
                    if j < i {
                        let m = choose|m: int|
                            0 <= m < before.len() && (#[trigger] before[m]@).id
                                == self.roles.entries()[j].id;
                        assert(out@[m] == before[m]);
                    } else {
                        assert(out@[before.len() as int]@.id == self.roles.entries()[j].id);
                    }
                }
            }
            i += 1;
        }
        assert forall|k: Seq<char>|
            #![trigger roles.contains_key(k), ids.contains(k)]
            roles.contains_key(k) && ids.contains(k) && grants(roles[k], tenant@, permission@)
                implies exists|m: int| 0 <= m < out.len() && (#[trigger] out@[m]@).id == k by {
            let j = self.roles.lemma_row_of(k);
            assert(ids.contains(self.roles.entries()[j].id));
        }
        Ok(out)
    }
}

} // verus!
