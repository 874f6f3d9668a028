//! The mutations that the routing layer performs: each checks the payload's
//! references against the store, builds or patches the entity, and persists
//! it.
use crate::error::{Cause, Error, Failure, Kind};
use crate::ids::is_crockford_char;
use crate::namespace::{Namespace, NamespaceView, NewNamespace};
use crate::organization_profile::{
    opt_text,
    NewOrganizationProfile,
    OrganizationProfile,
    OrganizationProfileView,
    UpdateOrganizationProfile,
};
use crate::product::{NewProduct, Product, ProductView, UpdateProduct};
use crate::role::{NewRole, Role, RoleView, UpdateRole};
use crate::user::{NewUser, UpdateUser, User, UserView};
use crate::rbac::TokenContext;
use crate::store::{Db, Store};
use crate::tenant::{NewTenant, Tenant, TenantView, UpdateTenant};
use crate::text::contains_string;
use crate::validation::{
    first_missing,
    products_in,
    ValidateDataIntegrity,
    ValidateDataIntegrityWithNamespace,
};
use vstd::prelude::*;

verus! {

/// A create guarded by an integrity check whose first failure is `failure`:
/// it persists the new entity only when the check passes, and nothing else.
pub open spec fn created<K, E: View>(
    before: Map<K, E::V>,
    after: Map<K, E::V>,
    failure: Option<Failure>,
    key: spec_fn(E::V) -> K,
    r: Result<E, Error>,
) -> bool {
    match r {
        Ok(e) => failure is None && !before.contains_key(key(e@)) && after == before.insert(
            key(e@),
            e@,
        ),
        Err(Error::ValidationError(c)) => failure is Some && c.is(failure->Some_0) && after
            == before,
        Err(Error::AlreadyExists) => failure is None && after == before,
        Err(Error::StorageFailure(_)) => after == before,
        Err(_) => false,
    }
}

pub open spec fn namespace_created(before: Db, new_namespace: NewNamespace, r: Result<Namespace, Error>, after: Db) -> bool {
    &&& created(
        before.namespaces,
        after.namespaces,
        new_namespace.integrity_failure(before),
        |v: NamespaceView| v.id,
        r,
    )
    &&& after == before.with_namespaces(after.namespaces)
    &&& r matches Ok(n) ==> n.id@ == new_namespace.id@ && n.timestamps.updated_at is None
}

/// Creates the namespace unless its id is taken.
pub fn add_namespace<S: Store>(store: &mut S, new_namespace: &NewNamespace) -> (r: Result<
    Namespace,
    Error,
>)
    requires
        old(store).inv(),
    ensures
        final(store).inv(),
        r matches Err(Error::StorageFailure(m)) ==> old(store).fails_with(m),
        forall|m: String| #[trigger] final(store).fails_with(m) == old(store).fails_with(m),
        namespace_created(old(store).db(), *new_namespace, r, final(store).db()),
{
    new_namespace.validate_data_integrity(store)?;
    let namespace = Namespace::new_from_obj(new_namespace);
    store.add_namespace(&namespace)?;
    Ok(namespace)
}

pub open spec fn product_made_from(p: ProductView, new_product: NewProduct) -> bool {
    &&& p.id == new_product.id@
    &&& p.namespace_id == new_product.namespace_id@
    &&& p.name == new_product.name@
    &&& p.description == new_product.description@
    &&& p.metadata == new_product.metadata
    &&& p.img == new_product.img@
    &&& p.url == new_product.url@
    &&& p.can_self_register == new_product.can_self_register
    &&& p.timestamps.updated_at is None
}

/// Creates the product in the caller's namespace, which must be the one the
/// payload names.
pub fn add_product<S: Store>(ctx: &TokenContext, store: &mut S, new_product: &NewProduct) -> (r:
    Result<Product, Error>)
    requires
        old(store).inv(),
    ensures
        final(store).inv(),
        r matches Err(Error::StorageFailure(m)) ==> old(store).fails_with(m),
        forall|m: String| #[trigger] final(store).fails_with(m) == old(store).fails_with(m),
        ctx.namespace@ != new_product.namespace_id@ ==> r == Err::<Product, Error>(
            Error::Unauthorized,
        ) && final(store).db() == old(store).db(),
        ctx.namespace@ == new_product.namespace_id@ ==> created(
            old(store).db().products,
            final(store).db().products,
            new_product.integrity_failure(old(store).db()),
            |v: ProductView| (v.namespace_id, v.id),
            r,
        ),
        final(store).db() == old(store).db().with_products(final(store).db().products),
        r matches Ok(p) ==> product_made_from(p@, *new_product),
{
    if ctx.namespace != new_product.namespace_id {
        return Err(Error::Unauthorized);
    }
    new_product.validate_data_integrity(store)?;
    let product = Product::new_from_obj(new_product);
    store.add_product(&product)?;
    Ok(product)
}

pub open spec fn tenant_made_from(t: TenantView, new_tenant: NewTenant) -> bool {
    &&& t.id.len() == 26
    &&& forall|i: int| 0 <= i < 26 ==> is_crockford_char(#[trigger] t.id[i])
    &&& t.namespace_id == new_tenant.namespace_id@
    &&& t.name == new_tenant.name@
    &&& t.description == new_tenant.description@
    &&& t.metadata == new_tenant.metadata
    &&& t.subscribed_products == new_tenant.subscribed_products.deep_view()
    &&& t.timestamps.updated_at is None
}

pub open spec fn tenant_created(before: Db, new_tenant: NewTenant, r: Result<Tenant, Error>, after: Db) -> bool {
    &&& created(
        before.tenants,
        after.tenants,
        new_tenant.integrity_failure(before),
        |v: TenantView| v.id,
        r,
    )
    &&& after == before.with_tenants(after.tenants)
    &&& r matches Ok(t) ==> tenant_made_from(t@, new_tenant)
}

/// Creates a tenant with a fresh id once its namespace and every product it
/// subscribes to are found.
pub fn add_tenant<S: Store>(store: &mut S, new_tenant: &NewTenant) -> (r: Result<Tenant, Error>)
    requires
        old(store).inv(),
    ensures
        final(store).inv(),
        r matches Err(Error::StorageFailure(m)) ==> old(store).fails_with(m),
        forall|m: String| #[trigger] final(store).fails_with(m) == old(store).fails_with(m),
        tenant_created(old(store).db(), *new_tenant, r, final(store).db()),
{
    new_tenant.validate_data_integrity(store)?;
    let tenant = Tenant::new_from_obj(new_tenant);
    store.add_tenant(&tenant)?;
    Ok(tenant)
}

pub open spec fn tenant_updated(
    before: Db,
    id: Seq<char>,
    update: UpdateTenant,
    r: Result<Tenant, Error>,
    after: Db,
) -> bool {
    let old_tenant = before.tenants[id];
    let failure = update.integrity_failure_in(before, old_tenant.namespace_id);
    &&& after == before.with_tenants(after.tenants)
    &&& match r {
        Ok(t) => {
            &&& before.tenants.contains_key(id)
            &&& failure is None
            &&& t@ == old_tenant.patched(update).stamped(t.timestamps)
            &&& t.timestamps.created_at == old_tenant.timestamps.created_at
            &&& after.tenants == before.tenants.insert(id, t@)
        },
        Err(Error::NotFound) => !before.tenants.contains_key(id) && after == before,
        Err(Error::ValidationError(c)) => {
            &&& before.tenants.contains_key(id)
            &&& failure is Some
            &&& c.is(failure->Some_0)
            &&& after == before
        },
        Err(Error::StorageFailure(_)) => after == before,
        Err(_) => false,
    }
}

/// Patches the tenant; a new product list must resolve within the tenant's
/// own namespace.
pub fn update_tenant<S: Store>(store: &mut S, id: String, update: &UpdateTenant) -> (r:
    Result<Tenant, Error>)
    requires
        old(store).inv(),
    ensures
        final(store).inv(),
        r matches Err(Error::StorageFailure(m)) ==> old(store).fails_with(m),
        forall|m: String| #[trigger] final(store).fails_with(m) == old(store).fails_with(m),
        tenant_updated(old(store).db(), id@, *update, r, final(store).db()),
{
    proof {
        store.lemma_inv_wf();
    }
    let mut tenant = store.get_tenant(id.clone())?;
    update.validate_data_integrity_with_namespace(store, &tenant.namespace_id)?;
    tenant.apply_update(update);
    let ghost before = store.db().tenants;
    proof {
        assert(before.remove(id@).insert(id@, tenant@) =~= before.insert(id@, tenant@));
    }
    store.update_tenant(id, &tenant)?;
    Ok(tenant)
}

/// Appends `product_id` to the tenant's subscriptions, once both are found
/// and the subscription is new.
pub fn subscribe_tenant_to_product<S: Store>(
    store: &mut S,
    tenant_id: String,
    product_id: String,
) -> (r: Result<Tenant, Error>)
    requires
        old(store).inv(),
    ensures
        final(store).inv(),
        r matches Err(Error::StorageFailure(m)) ==> old(store).fails_with(m),
        forall|m: String| #[trigger] final(store).fails_with(m) == old(store).fails_with(m),
        final(store).db() == old(store).db().with_tenants(final(store).db().tenants),
        ({
            let before = old(store).db();
            let after = final(store).db();
            let found = before.tenants.contains_key(tenant_id@) && before.products.contains_key(
                (before.tenants[tenant_id@].namespace_id, product_id@),
            );
            let subscribed = before.tenants[tenant_id@].subscribed_products;
            match r {
                Ok(t) => {
                    &&& found
                    &&& !subscribed.contains(product_id@)
                    &&& t@ == TenantView {
                        subscribed_products: subscribed.push(product_id@),
                        timestamps: t.timestamps,
                        ..before.tenants[tenant_id@]
                    }
                    &&& after.tenants == before.tenants.insert(tenant_id@, t@)
                },
                Err(Error::NotFound) => !found && after == before,
                Err(Error::NotModified) => found && subscribed.contains(product_id@) && after
                    == before,
                Err(Error::StorageFailure(_)) => after == before,
                Err(_) => false,
            }
        }),
{
    proof {
        store.lemma_inv_wf();
    }
    let mut tenant = store.get_tenant(tenant_id.clone())?;
    store.get_product(tenant.namespace_id.clone(), product_id.clone())?;
    if contains_string(&tenant.subscribed_products, &product_id) {
        return Err(Error::NotModified);
    }
    let ghost subscribed = tenant.subscribed_products.deep_view();
    let ghost pid = product_id@;
    tenant.subscribed_products.push(product_id);
    assert(tenant.subscribed_products.deep_view() =~= subscribed.push(pid));
    tenant.timestamps.update();
    let ghost before = store.db().tenants;
    proof {
        assert(before.remove(tenant_id@).insert(tenant_id@, tenant@) =~= before.insert(
            tenant_id@,
            tenant@,
        ));
    }
    store.update_tenant(tenant_id, &tenant)?;
    Ok(tenant)
}

/// Patches the product that the caller's namespace holds under `id`.
pub fn update_product<S: Store>(
    ctx: &TokenContext,
    store: &mut S,
    id: String,
    update: &UpdateProduct,
) -> (r: Result<Product, Error>)
    requires
        old(store).inv(),
    ensures
        final(store).inv(),
        r matches Err(Error::StorageFailure(m)) ==> old(store).fails_with(m),
        forall|m: String| #[trigger] final(store).fails_with(m) == old(store).fails_with(m),
        final(store).db() == old(store).db().with_products(final(store).db().products),
        ({
            let before = old(store).db().products;
            let after = final(store).db().products;
            let k = (ctx.namespace@, id@);
            match r {
                Ok(p) => {
                    &&& before.contains_key(k)
                    &&& p@ == before[k].patched(*update).stamped(p.timestamps)
                    &&& p.timestamps.created_at == before[k].timestamps.created_at
                    &&& after == before.insert(k, p@)
                },
                Err(Error::NotFound) => !before.contains_key(k) && after == before,
                Err(Error::StorageFailure(_)) => after == before,
                Err(_) => false,
            }
        }),
{
    proof {
        store.lemma_inv_wf();
    }
    let mut product = store.get_product(ctx.namespace.clone(), id.clone())?;
    product.apply_update(update);
    let ghost before = store.db().products;
    let ghost k = (ctx.namespace@, id@);
    proof {
        assert(before.remove(k).insert(k, product@) =~= before.insert(k, product@));
    }
    store.update_product(ctx.namespace.clone(), id, &product)?;
    Ok(product)
}

pub open spec fn role_made_from(r: RoleView, new_role: NewRole) -> bool {
    &&& r.id.len() == 26
    &&& forall|i: int| 0 <= i < 26 ==> is_crockford_char(#[trigger] r.id[i])
    &&& r.namespace_id == new_role.namespace_id@
    &&& r.name == new_role.name@
    &&& r.description == new_role.description@
    &&& r.metadata == new_role.metadata
    &&& r.permissions == new_role.permissions.deep_view()
    &&& r.tenant_id == new_role.tenant_id@
    &&& r.product_id == new_role.product_id@
    &&& r.timestamps.updated_at is None
}

/// Creates a role with a fresh id once its namespace, its tenant and its
/// product are found, checked in that order.
pub fn add_role<S: Store>(store: &mut S, new_role: &NewRole) -> (r: Result<Role, Error>)
    requires
        old(store).inv(),
    ensures
        final(store).inv(),
        r matches Err(Error::StorageFailure(m)) ==> old(store).fails_with(m),
        forall|m: String| #[trigger] final(store).fails_with(m) == old(store).fails_with(m),
        created(
            old(store).db().roles,
            final(store).db().roles,
            new_role.integrity_failure(old(store).db()),
            |v: RoleView| v.id,
            r,
        ),
        final(store).db() == old(store).db().with_roles(final(store).db().roles),
        r matches Ok(role) ==> role_made_from(role@, *new_role),
{
    new_role.validate_data_integrity(store)?;
    let role = Role::new_from_obj(new_role);
    store.add_role(&role)?;
    Ok(role)
}

/// Patches the role; a new product must resolve within the caller's
/// namespace, which may differ from the one the role was made in.
pub fn update_role<S: Store>(ctx: &TokenContext, store: &mut S, id: String, update: &UpdateRole) -> (r:
    Result<Role, Error>)
    requires
        old(store).inv(),
    ensures
        final(store).inv(),
        r matches Err(Error::StorageFailure(m)) ==> old(store).fails_with(m),
        forall|m: String| #[trigger] final(store).fails_with(m) == old(store).fails_with(m),
        final(store).db() == old(store).db().with_roles(final(store).db().roles),
        ({
            let before = old(store).db();
            let after = final(store).db().roles;
            let failure = update.integrity_failure_in(before, ctx.namespace@);
            match r {
                Ok(role) => {
                    &&& failure is None
                    &&& before.roles.contains_key(id@)
                    &&& role@ == before.roles[id@].patched(*update).stamped(role.timestamps)
                    &&& role.timestamps.created_at == before.roles[id@].timestamps.created_at
                    &&& after == before.roles.insert(id@, role@)
                },
                Err(Error::ValidationError(c)) => failure is Some && c.is(failure->Some_0) && after
                    == before.roles,
                Err(Error::NotFound) => failure is None && !before.roles.contains_key(id@) && after
                    == before.roles,
                Err(Error::StorageFailure(_)) => after == before.roles,
                Err(_) => false,
            }
        }),
{
    proof {
        store.lemma_inv_wf();
    }
    update.validate_data_integrity_with_namespace(store, &ctx.namespace)?;
    let mut role = store.get_role(id.clone())?;
    role.apply_update(update);
    let ghost before = store.db().roles;
    proof {
        assert(before.remove(id@).insert(id@, role@) =~= before.insert(id@, role@));
    }
    store.update_role(id, &role)?;
    Ok(role)
}

pub open spec fn user_made_from(u: UserView, new_user: NewUser) -> bool {
    &&& u.id.len() == 26
    &&& forall|i: int| 0 <= i < 26 ==> is_crockford_char(#[trigger] u.id[i])
    &&& u.namespace_id == new_user.namespace_id@
    &&& u.email == new_user.email@
    &&& u.provider_type == new_user.external_provider.provider_type@
    &&& u.external_id == new_user.external_provider.id@
    &&& u.first_name == new_user.first_name@
    &&& u.last_name == new_user.last_name@
    &&& u.is_active == new_user.is_active
    &&& u.is_invited == new_user.is_invited
    &&& u.metadata == new_user.metadata
    &&& u.associated_tenants == new_user.associated_tenants.deep_view()
    &&& u.roles == new_user.roles.deep_view()
    &&& u.timestamps.updated_at is None
}

/// Creates a user once its namespace is found, its external id is free and
/// every tenant it is associated with is found.
pub fn add_user<S: Store>(store: &mut S, new_user: &NewUser) -> (r: Result<User, Error>)
    requires
        old(store).inv(),
    ensures
        final(store).inv(),
        r matches Err(Error::StorageFailure(m)) ==> old(store).fails_with(m),
        forall|m: String| #[trigger] final(store).fails_with(m) == old(store).fails_with(m),
        created(
            old(store).db().users,
            final(store).db().users,
            new_user.integrity_failure(old(store).db()),
            |v: UserView| v.external_id,
            r,
        ),
        final(store).db() == old(store).db().with_users(final(store).db().users),
        r matches Ok(u) ==> user_made_from(u@, *new_user),
{
    new_user.validate_data_integrity(store)?;
    let user = User::new_from_obj(new_user);
    store.add_user(&user)?;
    Ok(user)
}

/// Patches the user known by `external_id`; a new external id must be free
/// and new tenants must be found.
pub fn update_user<S: Store>(store: &mut S, external_id: String, update: &UpdateUser) -> (r: Result<
    User,
    Error,
>)
    requires
        old(store).inv(),
    ensures
        final(store).inv(),
        r matches Err(Error::StorageFailure(m)) ==> old(store).fails_with(m),
        forall|m: String| #[trigger] final(store).fails_with(m) == old(store).fails_with(m),
        final(store).db() == old(store).db().with_users(final(store).db().users),
        ({
            let before = old(store).db();
            let after = final(store).db().users;
            let failure = update.integrity_failure(before);
            match r {
                Ok(u) => {
                    &&& failure is None
                    &&& before.users.contains_key(external_id@)
                    &&& u@ == before.users[external_id@].patched(*update).stamped(u.timestamps)
                    &&& u.timestamps.created_at == before.users[external_id@].timestamps.created_at
                    &&& after == before.users.remove(external_id@).insert(u@.external_id, u@)
                },
                Err(Error::ValidationError(c)) => failure is Some && c.is(failure->Some_0) && after
                    == before.users,
                Err(Error::NotFound) => failure is None && !before.users.contains_key(external_id@)
                    && after == before.users,
                Err(Error::StorageFailure(_)) => after == before.users,
                Err(_) => false,
            }
        }),
{
    proof {
        store.lemma_inv_wf();
    }
    update.validate_data_integrity(store)?;
    let mut user = store.get_user(external_id.clone())?;
    user.apply_update(update);
    store.update_user(external_id, &user)?;
    Ok(user)
}

/// Adds `tenant_id` to the user's tenants, once both are found and the
/// association is new.
pub fn associate_user_with_tenant<S: Store>(
    store: &mut S,
    external_user_id: String,
    tenant_id: String,
) -> (r: Result<User, Error>)
    requires
        old(store).inv(),
    ensures
        final(store).inv(),
        r matches Err(Error::StorageFailure(m)) ==> old(store).fails_with(m),
        forall|m: String| #[trigger] final(store).fails_with(m) == old(store).fails_with(m),
        final(store).db() == old(store).db().with_users(final(store).db().users),
        ({
            let before = old(store).db();
            let after = final(store).db();
            let found = before.users.contains_key(external_user_id@) && before.tenants.contains_key(
                tenant_id@,
            );
            let tenants = before.users[external_user_id@].associated_tenants;
            match r {
                Ok(u) => {
                    &&& found
                    &&& !tenants.contains(tenant_id@)
                    &&& u@ == UserView {
                        associated_tenants: tenants.push(tenant_id@),
                        timestamps: u.timestamps,
                        ..before.users[external_user_id@]
                    }
                    &&& after.users == before.users.insert(external_user_id@, u@)
                },
                Err(Error::NotFound) => !found && after == before,
                Err(Error::NotModified) => found && tenants.contains(tenant_id@) && after == before,
                Err(Error::StorageFailure(_)) => after == before,
                Err(_) => false,
            }
        }),
{
    proof {
        store.lemma_inv_wf();
    }
    let mut user = store.get_user(external_user_id.clone())?;
    store.get_tenant(tenant_id.clone())?;
    if contains_string(&user.associated_tenants, &tenant_id) {
        return Err(Error::NotModified);
    }
    let ghost tenants = user.associated_tenants.deep_view();
    let ghost tid = tenant_id@;
    user.associated_tenants.push(tenant_id);
    assert(user.associated_tenants.deep_view() =~= tenants.push(tid));
    user.timestamps.update();
    let ghost before = store.db().users;
    proof {
        assert(before.remove(external_user_id@).insert(external_user_id@, user@) =~= before.insert(
            external_user_id@,
            user@,
        ));
    }
    store.update_user(external_user_id, &user)?;
    Ok(user)
}

pub open spec fn profile_made_from(p: OrganizationProfileView, new_profile: NewOrganizationProfile) -> bool {
    &&& p.id.len() == 26
    &&& forall|i: int| 0 <= i < 26 ==> is_crockford_char(#[trigger] p.id[i])
    &&& p.namespace_id == new_profile.namespace_id@
    &&& p.tenant_id == new_profile.tenant_id@
    &&& p.organization_name == new_profile.organization_name@
    &&& p.organization_type == new_profile.organization_type@
    &&& p.primary_contact_number == new_profile.primary_contact_number@
    &&& p.registered_address_line_1 == opt_text(new_profile.registered_address_line_1)
    &&& p.registered_address_line_2 == opt_text(new_profile.registered_address_line_2)
    &&& p.city == new_profile.city@
    &&& p.state == new_profile.state@
    &&& p.zip == opt_text(new_profile.zip)
    &&& p.timestamps.updated_at is None
}

/// Creates the profile in the caller's namespace, which must be the one the
/// payload names, once that namespace and the tenant are found.
pub fn add_organization_profile<S: Store>(
    ctx: &TokenContext,
    store: &mut S,
    new_organization_profile: &NewOrganizationProfile,
) -> (r: Result<OrganizationProfile, Error>)
    requires
        old(store).inv(),
    ensures
        final(store).inv(),
        r matches Err(Error::StorageFailure(m)) ==> old(store).fails_with(m),
        forall|m: String| #[trigger] final(store).fails_with(m) == old(store).fails_with(m),
        ctx.namespace@ != new_organization_profile.namespace_id@ ==> r == Err::<
            OrganizationProfile,
            Error,
        >(Error::Unauthorized) && final(store).db() == old(store).db(),
        ctx.namespace@ == new_organization_profile.namespace_id@ ==> created(
            old(store).db().profiles,
            final(store).db().profiles,
            new_organization_profile.integrity_failure(old(store).db()),
            |v: OrganizationProfileView| v.id,
            r,
        ),
        final(store).db() == old(store).db().with_profiles(final(store).db().profiles),
        r matches Ok(p) ==> profile_made_from(p@, *new_organization_profile),
{
    if ctx.namespace != new_organization_profile.namespace_id {
        return Err(Error::Unauthorized);
    }
    new_organization_profile.validate_data_integrity(store)?;
    let profile = OrganizationProfile::new_from_obj(new_organization_profile);
    store.add_organization_profile(&profile)?;
    Ok(profile)
}

/// The profile under `id` as the caller may see it: it must belong to the
/// caller's namespace.
pub open spec fn profile_in_scope(
    profiles: Map<Seq<char>, OrganizationProfileView>,
    ctx: TokenContext,
    id: Seq<char>,
) -> bool {
    profiles.contains_key(id) && profiles[id].namespace_id == ctx.namespace@
}

pub fn get_organization_profile<S: Store>(ctx: &TokenContext, store: &S, id: String) -> (r: Result<
    OrganizationProfile,
    Error,
>)
    requires
        store.inv(),
    ensures
        r matches Err(Error::StorageFailure(m)) ==> store.fails_with(m),
        ({
            let profiles = store.db().profiles;
            match r {
                Ok(p) => profile_in_scope(profiles, *ctx, id@) && p@ == profiles[id@],
                Err(Error::NotFound) => !profiles.contains_key(id@),
                Err(Error::Unauthorized) => profiles.contains_key(id@) && !profile_in_scope(
                    profiles,
                    *ctx,
                    id@,
                ),
                Err(Error::StorageFailure(_)) => true,
                Err(_) => false,
            }
        }),
{
    let profile = store.get_organization_profile(id)?;
    if ctx.namespace != profile.namespace_id {
        return Err(Error::Unauthorized);
    }
    Ok(profile)
}

/// Patches the profile under `id`, which must belong to the caller's
/// namespace.
pub fn update_organization_profile<S: Store>(
    ctx: &TokenContext,
    store: &mut S,
    id: String,
    update: &UpdateOrganizationProfile,
) -> (r: Result<OrganizationProfile, Error>)
    requires
        old(store).inv(),
    ensures
        final(store).inv(),
        r matches Err(Error::StorageFailure(m)) ==> old(store).fails_with(m),
        forall|m: String| #[trigger] final(store).fails_with(m) == old(store).fails_with(m),
        final(store).db() == old(store).db().with_profiles(final(store).db().profiles),
        ({
            let before = old(store).db().profiles;
            let after = final(store).db().profiles;
            match r {
                Ok(p) => {
                    &&& profile_in_scope(before, *ctx, id@)
                    &&& p@ == before[id@].patched(*update).stamped(p.timestamps)
                    &&& p.timestamps.created_at == before[id@].timestamps.created_at
                    &&& after == before.insert(id@, p@)
                },
                Err(Error::NotFound) => !before.contains_key(id@) && after == before,
                Err(Error::Unauthorized) => before.contains_key(id@) && !profile_in_scope(
                    before,
                    *ctx,
                    id@,
                ) && after == before,
                Err(Error::StorageFailure(_)) => after == before,
                Err(_) => false,
            }
        }),
{
    proof {
        store.lemma_inv_wf();
    }
    let mut profile = store.get_organization_profile(id.clone())?;
    if ctx.namespace != profile.namespace_id {
        return Err(Error::Unauthorized);
    }
    profile.apply_update(update);
    let ghost before = store.db().profiles;
    proof {
        assert(before.remove(id@).insert(id@, profile@) =~= before.insert(id@, profile@));
    }
    store.update_organization_profile(id, &profile)?;
    Ok(profile)
}

/// Deletes the profile under `id`, which must belong to the caller's
/// namespace.
pub fn delete_organization_profile<S: Store>(ctx: &TokenContext, store: &mut S, id: String) -> (r:
    Result<OrganizationProfile, Error>)
    requires
        old(store).inv(),
    ensures
        final(store).inv(),
        r matches Err(Error::StorageFailure(m)) ==> old(store).fails_with(m),
        forall|m: String| #[trigger] final(store).fails_with(m) == old(store).fails_with(m),
        final(store).db() == old(store).db().with_profiles(final(store).db().profiles),
        ({
            let before = old(store).db().profiles;
            let after = final(store).db().profiles;
            match r {
                Ok(p) => profile_in_scope(before, *ctx, id@) && p@ == before[id@] && after
                    == before.remove(id@),
                Err(Error::NotFound) => !before.contains_key(id@) && after == before,
                Err(Error::Unauthorized) => before.contains_key(id@) && !profile_in_scope(
                    before,
                    *ctx,
                    id@,
                ) && after == before,
                Err(Error::StorageFailure(_)) => after == before,
                Err(_) => false,
            }
        }),
{
    let profile = store.get_organization_profile(id.clone())?;
    if ctx.namespace != profile.namespace_id {
        return Err(Error::Unauthorized);
    }
    store.delete_organization_profile(id)
}

/// Creating a tenant in a namespace that does not exist fails with a
/// validation error naming that namespace (unless the store itself fails),
/// and persists nothing.
pub proof fn lemma_tenant_needs_namespace(
    before: Db,
    new_tenant: NewTenant,
    r: Result<Tenant, Error>,
    after: Db,
)
    requires
        tenant_created(before, new_tenant, r, after),
        !before.namespaces.contains_key(new_tenant.namespace_id@),
    ensures
        after == before,
        r is Err,
        r matches Err(Error::ValidationError(c)) ==> c.is(
            Failure::Missing(Kind::Namespace, new_tenant.namespace_id@),
        ),
        r matches Err(e) ==> e is ValidationError || e is StorageFailure,
{
    assert(after.tenants == before.tenants);
}

/// Creating a namespace whose id another creation has just taken fails with
/// a validation error naming that id (unless the store itself fails), and the
/// first namespace stays as it was created.
pub proof fn lemma_namespace_id_unique(
    start: Db,
    first: NewNamespace,
    first_result: Result<Namespace, Error>,
    between: Db,
    second: NewNamespace,
    second_result: Result<Namespace, Error>,
    after: Db,
)
    requires
        namespace_created(start, first, first_result, between),
        first_result is Ok,
        namespace_created(between, second, second_result, after),
        second.id@ == first.id@,
    ensures
        second_result matches Err(Error::ValidationError(c)) ==> c.is(
            Failure::Duplicate(Kind::Namespace, first.id@),
        ),
        second_result matches Err(e) && (e is ValidationError || e is StorageFailure),
        after == between,
        after.namespaces[first.id@] == first_result->Ok_0@,
{
    assert(after.namespaces == between.namespaces);
}

/// An id listed anywhere in `ids` and absent from `present` makes the search
/// for the first missing id succeed.
pub proof fn lemma_first_missing_found(ids: Seq<Seq<char>>, present: Set<Seq<char>>, x: Seq<char>)
    requires
        ids.contains(x),
        !present.contains(x),
    ensures
        first_missing(ids, present) is Some,
    decreases ids.len(),
{
    if present.contains(ids[0]) {
        let i = choose|i: int| 0 <= i < ids.len() && ids[i] == x;
        assert(ids.drop_first()[i - 1] == x);
        lemma_first_missing_found(ids.drop_first(), present, x);
    }
}

/// Updating a tenant's subscriptions to a list that holds a product missing
/// from the tenant's namespace fails with a validation error naming a
/// missing product (unless the store itself fails), and the stored
/// subscriptions stay as they were.
pub proof fn lemma_bad_subscription_rejected(
    before: Db,
    id: Seq<char>,
    update: UpdateTenant,
    product: Seq<char>,
    r: Result<Tenant, Error>,
    after: Db,
)
    requires
        tenant_updated(before, id, update, r, after),
        before.tenants.contains_key(id),
        update.subscribed_products is Some,
        update.subscribed_products->Some_0.deep_view().contains(product),
        !before.products.contains_key((before.tenants[id].namespace_id, product)),
    ensures
        r matches Err(e) && (e is ValidationError || e is StorageFailure),
        r matches Err(Error::ValidationError(c)) ==> c matches Cause::Missing(Kind::Product, _),
        after.tenants[id].subscribed_products == before.tenants[id].subscribed_products,
{
    let ps = update.subscribed_products->Some_0.deep_view();
    let present = products_in(before, before.tenants[id].namespace_id);
    assert(!present.contains(product));
    lemma_first_missing_found(ps, present, product);
}

} // verus!
