//! Deleting entities that others may still refer to. Whether a delete
//! leaves dangling references behind or is refused while they exist is the
//! caller's choice.
use crate::error::{in_use, Error, Failure, Kind};
use crate::namespace::Namespace;
use crate::organization_profile::OrganizationProfile;
use crate::product::Product;
use crate::rbac::TokenContext;
use crate::role::Role;
use crate::text::contains_string;
use crate::store::{removed, Db, Store};
use crate::tenant::Tenant;
use crate::user::UserQuery;
use vstd::prelude::*;

verus! {

#[derive(Debug, Clone, Copy, PartialEq, Eq, Structural)]
pub enum DeletePolicy {
    /// Delete even while other entities refer to the target.
    Permissive,
    /// Refuse while any entity refers to the target.
    Block,
}

/// Some entity belongs to namespace `ns`.
pub open spec fn namespace_in_use(db: Db, ns: Seq<char>) -> bool {
    ||| exists|k| #[trigger] db.products.contains_key(k) && db.products[k].namespace_id == ns
    ||| exists|k| #[trigger] db.tenants.contains_key(k) && db.tenants[k].namespace_id == ns
    ||| exists|k| #[trigger] db.roles.contains_key(k) && db.roles[k].namespace_id == ns
    ||| exists|k| #[trigger] db.profiles.contains_key(k) && db.profiles[k].namespace_id == ns
    ||| exists|k| #[trigger] db.users.contains_key(k) && db.users[k].namespace_id == ns
}

/// A delete under `policy`, refused with `failure` when the target is in use.
pub open spec fn deleted_under<K, E: View>(
    policy: DeletePolicy,
    used: bool,
    failure: Failure,
    before: Map<K, E::V>,
    k: K,
    r: Result<E, Error>,
    after: Map<K, E::V>,
) -> bool {
    if policy == DeletePolicy::Block && used {
        &&& after == before
        &&& r matches Err(e) && (e is StorageFailure || (e matches Error::ValidationError(c) && c.is(
            failure,
        )))
    } else {
        removed(before, k, r, after)
    }
}

fn no_filter() -> (q: UserQuery)
    ensures
        forall|u| q.accepts(u),
{
    UserQuery {
        id: None,
        email: None,
        external_provider_id: None,
        is_active: None,
        is_invited: None,
        associated_tenant: None,
    }
}

/// Deletes the namespace under `id`; under `Block`, only once nothing
/// belongs to it any more.
pub fn delete_namespace<S: Store>(store: &mut S, id: String, policy: DeletePolicy) -> (r: Result<
    Namespace,
    Error,
>)
    requires
        old(store).inv(),
    ensures
        final(store).inv(),
        r matches Err(Error::StorageFailure(m)) ==> old(store).fails_with(m),
        forall|m: String| #[trigger] final(store).fails_with(m) == old(store).fails_with(m),
        final(store).db() == old(store).db().with_namespaces(final(store).db().namespaces),
        deleted_under(
            policy,
            namespace_in_use(old(store).db(), id@),
            Failure::InUse(Kind::Namespace, id@),
            old(store).db().namespaces,
            id@,
            r,
            final(store).db().namespaces,
        ),
{
    if policy == DeletePolicy::Block {
        let ghost db = store.db();
        let products = store.get_products(id.clone())?;
        if products.len() > 0 {
            assert(db.products.contains_value(products@[0]@));
            return Err(in_use(Kind::Namespace, &id));
        }
        let tenants = store.get_tenants(id.clone())?;
        if tenants.len() > 0 {
            assert(db.tenants.contains_value(tenants@[0]@));
            return Err(in_use(Kind::Namespace, &id));
        }
        let roles = store.get_roles(id.clone())?;
        if roles.len() > 0 {
            assert(db.roles.contains_value(roles@[0]@));
            return Err(in_use(Kind::Namespace, &id));
        }
        let profiles = store.get_organization_profiles(id.clone())?;
        if profiles.len() > 0 {
            assert(db.profiles.contains_value(profiles@[0]@));
            return Err(in_use(Kind::Namespace, &id));
        }
        let users = store.get_users(id.clone(), &no_filter())?;
        if users.len() > 0 {
            assert(db.users.contains_value(users@[0]@));
            return Err(in_use(Kind::Namespace, &id));
        }
    }
    store.delete_namespace(id)
}

/// Within the tenant's namespace, a role or a profile is scoped to tenant
/// `t`, or a user is associated with it.
pub open spec fn tenant_in_use(db: Db, t: Seq<char>) -> bool {
    let ns = db.tenants[t].namespace_id;
    ||| exists|k| #[trigger]
        db.roles.contains_key(k) && db.roles[k].namespace_id == ns && db.roles[k].tenant_id == t
    ||| exists|k| #[trigger]
        db.profiles.contains_key(k) && db.profiles[k].namespace_id == ns && db.profiles[k].tenant_id
            == t
    ||| exists|k| #[trigger]
        db.users.contains_key(k) && db.users[k].namespace_id == ns
            && db.users[k].associated_tenants.contains(t)
}

/// Within namespace `ns`, a tenant subscribes to product `p` or a role is
/// scoped to it.
pub open spec fn product_in_use(db: Db, ns: Seq<char>, p: Seq<char>) -> bool {
    ||| exists|k| #[trigger]
        db.tenants.contains_key(k) && db.tenants[k].namespace_id == ns
            && db.tenants[k].subscribed_products.contains(p)
    ||| exists|k| #[trigger]
        db.roles.contains_key(k) && db.roles[k].namespace_id == ns && db.roles[k].product_id == p
}

fn role_for_tenant(roles: &Vec<Role>, tenant: &String) -> (b: bool)
    ensures
        b == exists|i: int| 0 <= i < roles.len() && (#[trigger] roles@[i]@).tenant_id == tenant@,
{
    let mut i: usize = 0;
    while i < roles.len()
        invariant
            i <= roles.len(),
            forall|j: int| 0 <= j < i ==> (#[trigger] roles@[j]@).tenant_id != tenant@,
        decreases roles.len() - i,
    {
        if roles[i].tenant_id == *tenant {
            assert(roles@[i as int]@.tenant_id == tenant@);
            return true;
        }
        i += 1;
    }
    false
}

fn profile_for_tenant(profiles: &Vec<OrganizationProfile>, tenant: &String) -> (b: bool)
    ensures
        b == exists|i: int|
            0 <= i < profiles.len() && (#[trigger] profiles@[i]@).tenant_id == tenant@,
{
    let mut i: usize = 0;
    while i < profiles.len()
        invariant
            i <= profiles.len(),
            forall|j: int| 0 <= j < i ==> (#[trigger] profiles@[j]@).tenant_id != tenant@,
        decreases profiles.len() - i,
    {
        if profiles[i].tenant_id == *tenant {
            assert(profiles@[i as int]@.tenant_id == tenant@);
            return true;
        }
        i += 1;
    }
    false
}

fn role_for_product(roles: &Vec<Role>, product: &String) -> (b: bool)
    ensures
        b == exists|i: int| 0 <= i < roles.len() && (#[trigger] roles@[i]@).product_id == product@,
{
    let mut i: usize = 0;
    while i < roles.len()
        invariant
            i <= roles.len(),
            forall|j: int| 0 <= j < i ==> (#[trigger] roles@[j]@).product_id != product@,
        decreases roles.len() - i,
    {
        if roles[i].product_id == *product {
            assert(roles@[i as int]@.product_id == product@);
            return true;
        }
        i += 1;
    }
    false
}

fn tenant_subscribed(tenants: &Vec<Tenant>, product: &String) -> (b: bool)
    ensures
        b == exists|i: int|
            0 <= i < tenants.len() && (#[trigger] tenants@[i]@).subscribed_products.contains(product@),
{
    let mut i: usize = 0;
    while i < tenants.len()
        invariant
            i <= tenants.len(),
            forall|j: int|
                0 <= j < i ==> !(#[trigger] tenants@[j]@).subscribed_products.contains(product@),
        decreases tenants.len() - i,
    {
        if contains_string(&tenants[i].subscribed_products, product) {
            assert(tenants@[i as int]@.subscribed_products.contains(product@));
            return true;
        }
        i += 1;
    }
    false
}

/// Deletes the tenant under `id`; under `Block`, only once no role, profile
/// or user of its namespace refers to it.
pub fn delete_tenant<S: Store>(store: &mut S, id: String, policy: DeletePolicy) -> (r: Result<
    Tenant,
    Error,
>)
    requires
        old(store).inv(),
    ensures
        final(store).inv(),
        r matches Err(Error::StorageFailure(m)) ==> old(store).fails_with(m),
        forall|m: String| #[trigger] final(store).fails_with(m) == old(store).fails_with(m),
        final(store).db() == old(store).db().with_tenants(final(store).db().tenants),
        deleted_under(
            policy,
            old(store).db().tenants.contains_key(id@) && tenant_in_use(old(store).db(), id@),
            Failure::InUse(Kind::Tenant, id@),
            old(store).db().tenants,
            id@,
            r,
            final(store).db().tenants,
        ),
{
    if policy == DeletePolicy::Block {
        proof {
            store.lemma_inv_wf();
        }
        let ghost db = store.db();
        let tenant = store.get_tenant(id.clone())?;
        let ns = &tenant.namespace_id;
        let roles = store.get_roles(ns.clone())?;
        if role_for_tenant(&roles, &id) {
            let ghost i = choose|i: int| 0 <= i < roles.len() && (#[trigger] roles@[i]@).tenant_id == id@;
            assert(db.roles.contains_value(roles@[i]@));
            return Err(in_use(Kind::Tenant, &id));
        }
        let profiles = store.get_organization_profiles(ns.clone())?;
        if profile_for_tenant(&profiles, &id) {
            let ghost i = choose|i: int|
                0 <= i < profiles.len() && (#[trigger] profiles@[i]@).tenant_id == id@;
            assert(db.profiles.contains_value(profiles@[i]@));
            return Err(in_use(Kind::Tenant, &id));
        }
        let query = UserQuery {
            id: None,
            email: None,
            external_provider_id: None,
            is_active: None,
            is_invited: None,
            associated_tenant: Some(id.clone()),
        };
        let users = store.get_users(ns.clone(), &query)?;
        if users.len() > 0 {
            assert(db.users.contains_value(users@[0]@));
            return Err(in_use(Kind::Tenant, &id));
        }
    }
    store.delete_tenant(id)
}

/// Deletes the caller's product under `id`; under `Block`, only once no
/// tenant of the namespace subscribes to it and no role is scoped to it.
pub fn delete_product<S: Store>(
    ctx: &TokenContext,
    store: &mut S,
    id: String,
    policy: DeletePolicy,
) -> (r: Result<Product, Error>)
    requires
        old(store).inv(),
    ensures
        final(store).inv(),
        r matches Err(Error::StorageFailure(m)) ==> old(store).fails_with(m),
        forall|m: String| #[trigger] final(store).fails_with(m) == old(store).fails_with(m),
        final(store).db() == old(store).db().with_products(final(store).db().products),
        deleted_under(
            policy,
            product_in_use(old(store).db(), ctx.namespace@, id@),
            Failure::InUse(Kind::Product, id@),
            old(store).db().products,
            (ctx.namespace@, id@),
            r,
            final(store).db().products,
        ),
{
    if policy == DeletePolicy::Block {
        let ghost db = store.db();
        let tenants = store.get_tenants(ctx.namespace.clone())?;
        if tenant_subscribed(&tenants, &id) {
            let ghost i = choose|i: int|
                0 <= i < tenants.len() && (#[trigger] tenants@[i]@).subscribed_products.contains(id@);
            assert(db.tenants.contains_value(tenants@[i]@));
            return Err(in_use(Kind::Product, &id));
        }
        let roles = store.get_roles(ctx.namespace.clone())?;
        if role_for_product(&roles, &id) {
            let ghost i = choose|i: int| 0 <= i < roles.len() && (#[trigger] roles@[i]@).product_id == id@;
            assert(db.roles.contains_value(roles@[i]@));
            return Err(in_use(Kind::Product, &id));
        }
    }
    store.delete_product(ctx.namespace.clone(), id)
}

} // verus!
