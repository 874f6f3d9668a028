//! Referential integrity of the store as a whole, and the creates that keep
//! it.
use crate::namespace::{Namespace, NewNamespace};
use crate::operations::{created, namespace_created, tenant_created};
use crate::organization_profile::{NewOrganizationProfile, OrganizationProfile, OrganizationProfileView};
use crate::product::{NewProduct, Product, ProductView};
use crate::role::{NewRole, Role, RoleView};
use crate::store::Db;
use crate::tenant::{NewTenant, Tenant};
use crate::user::{NewUser, User, UserView};
use crate::error::Error;
use crate::validation::{first_missing, products_in, ValidateDataIntegrity};
use vstd::prelude::*;

verus! {

/// Every reference in `db` resolves: namespaces of every entity, tenants of
/// roles, profiles and users, and products of roles and subscriptions within
/// the referring entity's namespace.
pub open spec fn integral(db: Db) -> bool {
    &&& forall|k| #[trigger]
        db.products.contains_key(k) ==> db.namespaces.contains_key(db.products[k].namespace_id)
    &&& forall|k| #[trigger]
        db.tenants.contains_key(k) ==> db.namespaces.contains_key(db.tenants[k].namespace_id)
    &&& forall|k| #[trigger]
        db.roles.contains_key(k) ==> db.namespaces.contains_key(db.roles[k].namespace_id)
    &&& forall|k| #[trigger]
        db.profiles.contains_key(k) ==> db.namespaces.contains_key(db.profiles[k].namespace_id)
    &&& forall|k| #[trigger]
        db.users.contains_key(k) ==> db.namespaces.contains_key(db.users[k].namespace_id)
    &&& forall|k| #[trigger]
        db.roles.contains_key(k) ==> db.tenants.contains_key(db.roles[k].tenant_id)
    &&& forall|k| #[trigger]
        db.profiles.contains_key(k) ==> db.tenants.contains_key(db.profiles[k].tenant_id)
    &&& forall|k, t|
        db.users.contains_key(k) && #[trigger] db.users[k].associated_tenants.contains(t)
            ==> db.tenants.contains_key(t)
    &&& forall|k| #[trigger]
        db.roles.contains_key(k) ==> db.products.contains_key(
            (db.roles[k].namespace_id, db.roles[k].product_id),
        )
    &&& forall|k, p|
        db.tenants.contains_key(k) && #[trigger] db.tenants[k].subscribed_products.contains(p)
            ==> db.products.contains_key((db.tenants[k].namespace_id, p))
}

/// If no id of `ids` is missing from `present`, all of them are present.
pub proof fn lemma_none_missing(ids: Seq<Seq<char>>, present: Set<Seq<char>>)
    requires
        first_missing(ids, present) is None,
    ensures
        forall|x| #[trigger] ids.contains(x) ==> present.contains(x),
    decreases ids.len(),
{
    if ids.len() > 0 {
        lemma_none_missing(ids.drop_first(), present);
        assert forall|x| #[trigger] ids.contains(x) implies present.contains(x) by {
            let i = choose|i: int| 0 <= i < ids.len() && ids[i] == x;
            if i > 0 {
                assert(ids.drop_first()[i - 1] == x);
                assert(ids.drop_first().contains(x));
            }
        }
    }
}

/// A namespace created on an integral store leaves it integral.
pub proof fn lemma_namespace_create_keeps_integrity(
    before: Db,
    new_namespace: NewNamespace,
    r: Result<Namespace, Error>,
    after: Db,
)
    requires
        integral(before),
        namespace_created(before, new_namespace, r, after),
    ensures
        integral(after),
{
}

/// A tenant created on an integral store leaves it integral.
pub proof fn lemma_tenant_create_keeps_integrity(
    before: Db,
    new_tenant: NewTenant,
    r: Result<Tenant, Error>,
    after: Db,
)
    requires
        integral(before),
        tenant_created(before, new_tenant, r, after),
    ensures
        integral(after),
{
    if r is Ok {
        let ns = new_tenant.namespace_id@;
        lemma_none_missing(new_tenant.subscribed_products.deep_view(), products_in(before, ns));
    }
}

/// A product created on an integral store leaves it integral.
pub proof fn lemma_product_create_keeps_integrity(
    before: Db,
    new_product: NewProduct,
    r: Result<Product, Error>,
    after: Db,
)
    requires
        integral(before),
        created(
            before.products,
            after.products,
            new_product.integrity_failure(before),
            |v: ProductView| (v.namespace_id, v.id),
            r,
        ),
        after == before.with_products(after.products),
        r matches Ok(p) ==> p.namespace_id@ == new_product.namespace_id@,
    ensures
        integral(after),
{
}

/// A role created on an integral store leaves it integral.
pub proof fn lemma_role_create_keeps_integrity(
    before: Db,
    new_role: NewRole,
    r: Result<Role, Error>,
    after: Db,
)
    requires
        integral(before),
        created(
            before.roles,
            after.roles,
            new_role.integrity_failure(before),
            |v: RoleView| v.id,
            r,
        ),
        after == before.with_roles(after.roles),
        r matches Ok(role) ==> role.namespace_id@ == new_role.namespace_id@
            && role.tenant_id@ == new_role.tenant_id@ && role.product_id@ == new_role.product_id@,
    ensures
        integral(after),
{
}

/// A user created on an integral store leaves it integral.
pub proof fn lemma_user_create_keeps_integrity(
    before: Db,
    new_user: NewUser,
    r: Result<User, Error>,
    after: Db,
)
    requires
        integral(before),
        created(
            before.users,
            after.users,
            new_user.integrity_failure(before),
            |v: UserView| v.external_id,
            r,
        ),
        after == before.with_users(after.users),
        r matches Ok(u) ==> u@.namespace_id == new_user.namespace_id@ && u@.associated_tenants
            == new_user.associated_tenants.deep_view(),
    ensures
        integral(after),
{
    if r is Ok {
        lemma_none_missing(new_user.associated_tenants.deep_view(), before.tenants.dom());
    }
}

/// A profile created on an integral store leaves it integral.
pub proof fn lemma_profile_create_keeps_integrity(
    before: Db,
    new_profile: NewOrganizationProfile,
    r: Result<OrganizationProfile, Error>,
    after: Db,
)
    requires
        integral(before),
        created(
            before.profiles,
            after.profiles,
            new_profile.integrity_failure(before),
            |v: OrganizationProfileView| v.id,
            r,
        ),
        after == before.with_profiles(after.profiles),
        r matches Ok(p) ==> p.namespace_id@ == new_profile.namespace_id@ && p.tenant_id@
            == new_profile.tenant_id@,
    ensures
        integral(after),
{
}

} // verus!
