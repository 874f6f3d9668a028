use trusty::access::AccessControlEngine;
use trusty::deletion::{delete_namespace, delete_product, delete_tenant, DeletePolicy};
use trusty::error::{Cause, Error, Kind};
use trusty::memstore::MemStore;
use trusty::namespace::NewNamespace;
use trusty::operations::{
    add_namespace, add_organization_profile, add_product, add_role, add_tenant, add_user,
    associate_user_with_tenant, delete_organization_profile, get_organization_profile,
    subscribe_tenant_to_product, update_organization_profile, update_product, update_role,
    update_tenant, update_user,
};
use trusty::organization_profile::{NewOrganizationProfile, UpdateOrganizationProfile};
use trusty::product::{NewProduct, UpdateProduct};
use trusty::rbac::{IsAllowedRequest, TokenContext};
use trusty::role::{NewRole, UpdateRole};
use trusty::store::Store;
use trusty::validation::{ValidateDataIntegrity, ValidateDataIntegrityWithNamespace};
use trusty::tenant::{NewTenant, UpdateTenant};
use trusty::user::{NewUser, UpdateUser, UserExternalProvider, UserQuery};

fn ctx(ns: &str) -> TokenContext {
    TokenContext { namespace: ns.to_string(), tenant: String::new(), product: String::new() }
}

fn new_product(ns: &str, id: &str) -> NewProduct {
    NewProduct {
        id: id.to_string(),
        namespace_id: ns.to_string(),
        name: "product".to_string(),
        description: "a product".to_string(),
        metadata: None,
        img: "img.png".to_string(),
        url: "example.com".to_string(),
        can_self_register: false,
    }
}

fn new_tenant(ns: &str, products: &[&str]) -> NewTenant {
    NewTenant {
        namespace_id: ns.to_string(),
        name: "tenant".to_string(),
        description: "a tenant".to_string(),
        metadata: None,
        subscribed_products: products.iter().map(|p| p.to_string()).collect(),
    }
}

fn new_role(ns: &str, tenant: &str, product: &str, permissions: &[&str]) -> NewRole {
    NewRole {
        namespace_id: ns.to_string(),
        name: "role".to_string(),
        description: "a role".to_string(),
        metadata: None,
        permissions: permissions.iter().map(|p| p.to_string()).collect(),
        tenant_id: tenant.to_string(),
        product_id: product.to_string(),
    }
}

fn new_user(ns: &str, external_id: &str, tenants: &[String], roles: &[String]) -> NewUser {
    NewUser {
        namespace_id: ns.to_string(),
        email: "user@example.com".to_string(),
        external_provider: UserExternalProvider::new("auth0".to_string(), external_id.to_string()),
        first_name: "First".to_string(),
        last_name: "Last".to_string(),
        is_active: true,
        is_invited: false,
        metadata: None,
        associated_tenants: tenants.to_vec(),
        roles: roles.to_vec(),
    }
}

fn request(user: &str, tenant: &str, product: &str, resource: &str, action: &str) -> IsAllowedRequest {
    IsAllowedRequest {
        external_user_id: user.to_string(),
        tenant: tenant.to_string(),
        product: product.to_string(),
        resource: resource.to_string(),
        action: action.to_string(),
    }
}

/// Namespace ns1, product p1, one tenant subscribed to it; returns the
/// tenant's id.
fn base(store: &mut MemStore) -> String {
    add_namespace(store, &NewNamespace { id: "ns1".to_string() }).unwrap();
    add_product(&ctx("ns1"), store, &new_product("ns1", "p1")).unwrap();
    add_tenant(store, &new_tenant("ns1", &["p1"])).unwrap().id
}

#[test]
fn scenario_allows_exact_permission_only() {
    let mut store = MemStore::new();
    let t1 = base(&mut store);
    let r1 = add_role(&mut store, &new_role("ns1", &t1, "p1", &["res:act"])).unwrap().id;
    add_user(&mut store, &new_user("ns1", "u1", &[t1.clone()], &[r1])).unwrap();
    let engine = AccessControlEngine::new(store);
    let yes = engine.is_allowed(&request("u1", &t1, "p1", "res", "act")).unwrap();
    assert!(yes.result);
    let no = engine.is_allowed(&request("u1", &t1, "p1", "res", "other")).unwrap();
    assert!(!no.result);
}

#[test]
fn user_without_roles_is_denied() {
    let mut store = MemStore::new();
    let t1 = base(&mut store);
    add_role(&mut store, &new_role("ns1", &t1, "p1", &["resource1:action1"])).unwrap();
    add_user(&mut store, &new_user("ns1", "u2", &[t1.clone()], &[])).unwrap();
    let engine = AccessControlEngine::new(store);
    let r = engine.is_allowed(&request("u2", &t1, "p1", "resource1", "action1")).unwrap();
    assert!(!r.result);
}

#[test]
fn bound_role_with_permission_allows() {
    let mut store = MemStore::new();
    let t1 = base(&mut store);
    let other = add_role(&mut store, &new_role("ns1", &t1, "p1", &["x:y"])).unwrap().id;
    let granting =
        add_role(&mut store, &new_role("ns1", &t1, "p1", &["a:b", "resource1:action1"])).unwrap().id;
    add_user(&mut store, &new_user("ns1", "u1", &[], &[other, granting])).unwrap();
    let engine = AccessControlEngine::new(store);
    let r = engine.is_allowed(&request("u1", &t1, "p1", "resource1", "action1")).unwrap();
    assert!(r.result);
}

#[test]
fn role_of_another_tenant_does_not_allow() {
    let mut store = MemStore::new();
    let t1 = base(&mut store);
    let t2 = add_tenant(&mut store, &new_tenant("ns1", &[])).unwrap().id;
    let r = add_role(&mut store, &new_role("ns1", &t2, "p1", &["resource1:action1"])).unwrap().id;
    add_user(&mut store, &new_user("ns1", "u1", &[], &[r])).unwrap();
    let engine = AccessControlEngine::new(store);
    let in_t1 = engine.is_allowed(&request("u1", &t1, "p1", "resource1", "action1")).unwrap();
    assert!(!in_t1.result);
    let in_t2 = engine.is_allowed(&request("u1", &t2, "p1", "resource1", "action1")).unwrap();
    assert!(in_t2.result);
}

#[test]
fn permissions_match_verbatim() {
    let mut store = MemStore::new();
    let t1 = base(&mut store);
    let r = add_role(&mut store, &new_role("ns1", &t1, "p1", &["Res:Act", "res:act:x"])).unwrap().id;
    add_user(&mut store, &new_user("ns1", "u1", &[], &[r])).unwrap();
    let engine = AccessControlEngine::new(store);
    assert!(!engine.is_allowed(&request("u1", &t1, "p1", "res", "act")).unwrap().result);
    assert!(engine.is_allowed(&request("u1", &t1, "p1", "Res", "Act")).unwrap().result);
}

#[test]
fn unknown_user_is_not_found() {
    let mut store = MemStore::new();
    let t1 = base(&mut store);
    let engine = AccessControlEngine::new(store);
    assert!(matches!(
        engine.is_allowed(&request("nobody", &t1, "p1", "res", "act")),
        Err(Error::NotFound)
    ));
}

#[test]
fn tenant_in_missing_namespace_is_rejected() {
    let mut store = MemStore::new();
    let r = add_tenant(&mut store, &new_tenant("nope", &[]));
    match r {
        Err(Error::ValidationError(Cause::Missing(Kind::Namespace, id))) => assert_eq!(id, "nope"),
        other => panic!("unexpected {other:?}"),
    }
    assert!(store.get_namespace("nope".to_string()).is_err());
}

#[test]
fn tenant_with_missing_product_is_rejected() {
    let mut store = MemStore::new();
    base(&mut store);
    let r = add_tenant(&mut store, &new_tenant("ns1", &["p1", "p9", "p8"]));
    match r {
        Err(Error::ValidationError(Cause::Missing(Kind::Product, id))) => assert_eq!(id, "p9"),
        other => panic!("unexpected {other:?}"),
    }
}

#[test]
fn duplicate_namespace_is_rejected_and_first_kept() {
    let mut store = MemStore::new();
    let first = add_namespace(&mut store, &NewNamespace { id: "ns1".to_string() }).unwrap();
    let second = add_namespace(&mut store, &NewNamespace { id: "ns1".to_string() });
    match second {
        Err(Error::ValidationError(Cause::Duplicate(Kind::Namespace, id))) => assert_eq!(id, "ns1"),
        other => panic!("unexpected {other:?}"),
    }
    let kept = store.get_namespace("ns1".to_string()).unwrap();
    assert_eq!(kept.id, first.id);
    assert_eq!(kept.timestamps, first.timestamps);
}

#[test]
fn duplicate_product_and_product_in_missing_namespace() {
    let mut store = MemStore::new();
    base(&mut store);
    assert!(matches!(
        add_product(&ctx("ns1"), &mut store, &new_product("ns1", "p1")),
        Err(Error::ValidationError(Cause::Duplicate(Kind::Product, _)))
    ));
    assert!(matches!(
        add_product(&ctx("ns2"), &mut store, &new_product("ns2", "p1")),
        Err(Error::ValidationError(Cause::Missing(Kind::Namespace, _)))
    ));
    assert!(matches!(
        add_product(&ctx("ns2"), &mut store, &new_product("ns1", "p2")),
        Err(Error::Unauthorized)
    ));
}

#[test]
fn bad_subscription_update_leaves_tenant_unchanged() {
    let mut store = MemStore::new();
    let t1 = base(&mut store);
    let update = UpdateTenant {
        name: None,
        description: Some("changed".to_string()),
        metadata: None,
        subscribed_products: Some(vec!["p1".to_string(), "missing".to_string()]),
    };
    let r = update_tenant(&mut store, t1.clone(), &update);
    match r {
        Err(Error::ValidationError(Cause::Missing(Kind::Product, id))) => assert_eq!(id, "missing"),
        other => panic!("unexpected {other:?}"),
    }
    let stored = store.get_tenant(t1).unwrap();
    assert_eq!(stored.subscribed_products, vec!["p1".to_string()]);
    assert_eq!(stored.description, "a tenant");
}

#[test]
fn good_subscription_update_is_persisted() {
    let mut store = MemStore::new();
    let t1 = base(&mut store);
    add_product(&ctx("ns1"), &mut store, &new_product("ns1", "p2")).unwrap();
    let update = UpdateTenant {
        name: Some("renamed".to_string()),
        description: None,
        metadata: None,
        subscribed_products: Some(vec!["p2".to_string()]),
    };
    let t = update_tenant(&mut store, t1.clone(), &update).unwrap();
    assert_eq!(t.name, "renamed");
    let stored = store.get_tenant(t1).unwrap();
    assert_eq!(stored.subscribed_products, vec!["p2".to_string()]);
    assert!(stored.timestamps.updated_at.is_some());
    assert!(matches!(update_tenant(&mut store, "x".to_string(), &update), Err(Error::NotFound)));
}

#[test]
fn subscription_to_product_once() {
    let mut store = MemStore::new();
    let t1 = base(&mut store);
    add_product(&ctx("ns1"), &mut store, &new_product("ns1", "p2")).unwrap();
    let t = subscribe_tenant_to_product(&mut store, t1.clone(), "p2".to_string()).unwrap();
    assert_eq!(t.subscribed_products, vec!["p1".to_string(), "p2".to_string()]);
    assert!(matches!(
        subscribe_tenant_to_product(&mut store, t1.clone(), "p2".to_string()),
        Err(Error::NotModified)
    ));
    assert!(matches!(
        subscribe_tenant_to_product(&mut store, t1, "p3".to_string()),
        Err(Error::NotFound)
    ));
}

#[test]
fn delete_twice_succeeds_then_not_found() {
    let mut store = MemStore::new();
    let t1 = base(&mut store);
    assert_eq!(store.delete_tenant(t1.clone()).unwrap().id, t1);
    assert!(matches!(store.delete_tenant(t1), Err(Error::NotFound)));
    assert!(store.delete_namespace("ns1".to_string()).is_ok());
    assert!(matches!(store.delete_namespace("ns1".to_string()), Err(Error::NotFound)));
    assert!(store.delete_product("ns1".to_string(), "p1".to_string()).is_ok());
    assert!(matches!(
        store.delete_product("ns1".to_string(), "p1".to_string()),
        Err(Error::NotFound)
    ));
}

#[test]
fn role_checks_namespace_then_tenant_then_product() {
    let mut store = MemStore::new();
    let t1 = base(&mut store);
    assert!(matches!(
        add_role(&mut store, &new_role("nsx", "tx", "px", &[])),
        Err(Error::ValidationError(Cause::Missing(Kind::Namespace, _)))
    ));
    assert!(matches!(
        add_role(&mut store, &new_role("ns1", "tx", "px", &[])),
        Err(Error::ValidationError(Cause::Missing(Kind::Tenant, _)))
    ));
    assert!(matches!(
        add_role(&mut store, &new_role("ns1", &t1, "px", &[])),
        Err(Error::ValidationError(Cause::Missing(Kind::Product, _)))
    ));
}

#[test]
fn role_update_checks_product_in_caller_namespace() {
    let mut store = MemStore::new();
    let t1 = base(&mut store);
    let r1 = add_role(&mut store, &new_role("ns1", &t1, "p1", &["a:b"])).unwrap().id;
    add_namespace(&mut store, &NewNamespace { id: "ns2".to_string() }).unwrap();
    add_product(&ctx("ns2"), &mut store, &new_product("ns2", "q1")).unwrap();
    let update = UpdateRole {
        name: None,
        description: None,
        metadata: None,
        permissions: None,
        tenant_id: None,
        product_id: Some("q1".to_string()),
    };
    assert!(matches!(
        update_role(&ctx("ns1"), &mut store, r1.clone(), &update),
        Err(Error::ValidationError(Cause::Missing(Kind::Product, _)))
    ));
    let role = update_role(&ctx("ns2"), &mut store, r1.clone(), &update).unwrap();
    assert_eq!(role.product_id, "q1");
    assert_eq!(store.get_role(r1).unwrap().product_id, "q1");
}

#[test]
fn user_rules() {
    let mut store = MemStore::new();
    let t1 = base(&mut store);
    add_user(&mut store, &new_user("ns1", "u1", &[t1.clone()], &[])).unwrap();
    assert!(matches!(
        add_user(&mut store, &new_user("ns1", "u1", &[], &[])),
        Err(Error::ValidationError(Cause::Duplicate(Kind::User, _)))
    ));
    assert!(matches!(
        add_user(&mut store, &new_user("ns1", "u2", &["tx".to_string()], &[])),
        Err(Error::ValidationError(Cause::Missing(Kind::Tenant, _)))
    ));
    assert!(matches!(
        add_user(&mut store, &new_user("nsx", "u3", &[], &[])),
        Err(Error::ValidationError(Cause::Missing(Kind::Namespace, _)))
    ));
    add_user(&mut store, &new_user("ns1", "u4", &[], &[])).unwrap();
    let mut update = UpdateUser {
        email: None,
        external_provider: Some(UserExternalProvider::new("auth0".to_string(), "u4".to_string())),
        first_name: None,
        last_name: None,
        is_active: None,
        metadata: None,
        associated_tenants: None,
        roles: None,
    };
    assert!(matches!(
        update_user(&mut store, "u1".to_string(), &update),
        Err(Error::ValidationError(Cause::Duplicate(Kind::User, _)))
    ));
    update.external_provider =
        Some(UserExternalProvider::new("auth0".to_string(), "u5".to_string()));
    let moved = update_user(&mut store, "u1".to_string(), &update).unwrap();
    assert_eq!(moved.external_provider.id, "u5");
    assert!(store.get_user("u5".to_string()).is_ok());
    assert!(matches!(store.get_user("u1".to_string()), Err(Error::NotFound)));
}

#[test]
fn user_tenant_association_once() {
    let mut store = MemStore::new();
    let t1 = base(&mut store);
    add_user(&mut store, &new_user("ns1", "u1", &[], &[])).unwrap();
    let u = associate_user_with_tenant(&mut store, "u1".to_string(), t1.clone()).unwrap();
    assert_eq!(u.associated_tenants, vec![t1.clone()]);
    assert!(matches!(
        associate_user_with_tenant(&mut store, "u1".to_string(), t1.clone()),
        Err(Error::NotModified)
    ));
    assert!(matches!(
        associate_user_with_tenant(&mut store, "u9".to_string(), t1),
        Err(Error::NotFound)
    ));
}

#[test]
fn product_update_in_caller_namespace() {
    let mut store = MemStore::new();
    base(&mut store);
    let update = UpdateProduct {
        description: Some("updated description".to_string()),
        metadata: None,
        img: Some("updated img".to_string()),
        url: None,
        can_self_register: None,
    };
    let p = update_product(&ctx("ns1"), &mut store, "p1".to_string(), &update).unwrap();
    assert_eq!(p.description, "updated description");
    assert_eq!(p.url, "example.com");
    assert!(matches!(
        update_product(&ctx("ns2"), &mut store, "p1".to_string(), &update),
        Err(Error::NotFound)
    ));
}

fn new_profile(ns: &str, tenant: &str) -> NewOrganizationProfile {
    NewOrganizationProfile {
        namespace_id: ns.to_string(),
        tenant_id: tenant.to_string(),
        organization_name: "Org".to_string(),
        organization_type: "company".to_string(),
        primary_contact_number: "5555555".to_string(),
        registered_address_line_1: Some("1 Main St".to_string()),
        registered_address_line_2: None,
        city: "Town".to_string(),
        state: "CA".to_string(),
        zip: Some("90210".to_string()),
    }
}

#[test]
fn organization_profiles_are_scoped() {
    let mut store = MemStore::new();
    let t1 = base(&mut store);
    assert!(matches!(
        add_organization_profile(&ctx("ns2"), &mut store, &new_profile("ns1", &t1)),
        Err(Error::Unauthorized)
    ));
    assert!(matches!(
        add_organization_profile(&ctx("ns1"), &mut store, &new_profile("ns1", "tx")),
        Err(Error::ValidationError(Cause::Missing(Kind::Tenant, _)))
    ));
    let p = add_organization_profile(&ctx("ns1"), &mut store, &new_profile("ns1", &t1)).unwrap();
    assert!(matches!(
        get_organization_profile(&ctx("ns2"), &store, p.id.clone()),
        Err(Error::Unauthorized)
    ));
    let update = UpdateOrganizationProfile {
        organization_name: None,
        organization_type: None,
        primary_contact_number: None,
        registered_address_line_1: None,
        registered_address_line_2: Some(Some("Suite 2".to_string())),
        city: None,
        state: None,
        zip: Some(None),
    };
    let q = update_organization_profile(&ctx("ns1"), &mut store, p.id.clone(), &update).unwrap();
    assert_eq!(q.registered_address_line_2, Some("Suite 2".to_string()));
    assert_eq!(q.zip, None);
    assert_eq!(get_organization_profile(&ctx("ns1"), &store, p.id.clone()).unwrap().zip, None);
    assert!(matches!(
        delete_organization_profile(&ctx("ns2"), &mut store, p.id.clone()),
        Err(Error::Unauthorized)
    ));
    assert!(delete_organization_profile(&ctx("ns1"), &mut store, p.id.clone()).is_ok());
    assert!(matches!(
        delete_organization_profile(&ctx("ns1"), &mut store, p.id),
        Err(Error::NotFound)
    ));
}

#[test]
fn store_add_reports_taken_identity() {
    let mut store = MemStore::new();
    let t1 = base(&mut store);
    let t = store.get_tenant(t1).unwrap();
    assert!(matches!(store.add_tenant(&t), Err(Error::AlreadyExists)));
}

#[test]
fn listings_are_scoped_to_a_namespace() {
    let mut store = MemStore::new();
    let t1 = base(&mut store);
    add_namespace(&mut store, &NewNamespace { id: "ns2".to_string() }).unwrap();
    add_product(&ctx("ns2"), &mut store, &new_product("ns2", "q1")).unwrap();
    add_product(&ctx("ns2"), &mut store, &new_product("ns2", "q2")).unwrap();
    add_role(&mut store, &new_role("ns1", &t1, "p1", &[])).unwrap();
    assert_eq!(store.get_namespaces().unwrap().len(), 2);
    let mut ids: Vec<String> =
        store.get_products("ns2".to_string()).unwrap().into_iter().map(|p| p.id).collect();
    ids.sort();
    assert_eq!(ids, vec!["q1".to_string(), "q2".to_string()]);
    assert_eq!(store.get_products("ns1".to_string()).unwrap().len(), 1);
    assert_eq!(store.get_tenants("ns1".to_string()).unwrap().len(), 1);
    assert!(store.get_tenants("ns2".to_string()).unwrap().is_empty());
    assert_eq!(store.get_roles("ns1".to_string()).unwrap().len(), 1);
    assert!(store.get_organization_profiles("ns1".to_string()).unwrap().is_empty());
}

#[test]
fn user_query_filters_combine() {
    let mut store = MemStore::new();
    let t1 = base(&mut store);
    add_user(&mut store, &new_user("ns1", "u1", &[t1.clone()], &[])).unwrap();
    add_user(&mut store, &new_user("ns1", "u2", &[], &[])).unwrap();
    let all = UserQuery {
        id: None,
        email: None,
        external_provider_id: None,
        is_active: None,
        is_invited: None,
        associated_tenant: None,
    };
    assert_eq!(store.get_users("ns1".to_string(), &all).unwrap().len(), 2);
    assert!(store.get_users("ns2".to_string(), &all).unwrap().is_empty());
    let in_tenant = UserQuery { associated_tenant: Some(t1.clone()), ..all.clone() };
    let found = store.get_users("ns1".to_string(), &in_tenant).unwrap();
    assert_eq!(found.len(), 1);
    assert_eq!(found[0].external_provider.id, "u1");
    let by_id = UserQuery { external_provider_id: Some("u2".to_string()), is_active: Some(true), ..all.clone() };
    assert_eq!(store.get_users("ns1".to_string(), &by_id).unwrap().len(), 1);
    let inactive = UserQuery { is_active: Some(false), ..all };
    assert!(store.get_users("ns1".to_string(), &inactive).unwrap().is_empty());
}

#[test]
fn user_info_joins_existing_tenants_and_roles() {
    let mut store = MemStore::new();
    let t1 = base(&mut store);
    let t2 = add_tenant(&mut store, &new_tenant("ns1", &[])).unwrap().id;
    let r1 = add_role(&mut store, &new_role("ns1", &t1, "p1", &["a:b"])).unwrap().id;
    add_user(&mut store, &new_user("ns1", "u1", &[t1.clone()], &[r1.clone()])).unwrap();
    let mut update = UpdateUser {
        email: None,
        external_provider: None,
        first_name: None,
        last_name: None,
        is_active: None,
        metadata: None,
        associated_tenants: None,
        roles: None,
    };
    update.roles = Some(vec![r1.clone(), "gone".to_string()]);
    update_user(&mut store, "u1".to_string(), &update).unwrap();
    let info = store.get_user_info("u1".to_string()).unwrap();
    assert_eq!(info.external_provider.id, "u1");
    assert_eq!(info.populated_associated_tenants.len(), 1);
    assert_eq!(info.populated_associated_tenants[0].id, t1);
    assert_ne!(info.populated_associated_tenants[0].id, t2);
    assert_eq!(info.populated_roles.len(), 1);
    assert_eq!(info.populated_roles[0].id, r1);
    assert_eq!(info.roles.len(), 2);
    assert!(matches!(store.get_user_info("nobody".to_string()), Err(Error::NotFound)));
}

#[test]
fn blocked_namespace_delete_while_in_use() {
    let mut store = MemStore::new();
    base(&mut store);
    let r = delete_namespace(&mut store, "ns1".to_string(), DeletePolicy::Block);
    match r {
        Err(Error::ValidationError(Cause::InUse(Kind::Namespace, id))) => assert_eq!(id, "ns1"),
        other => panic!("unexpected {other:?}"),
    }
    assert!(store.get_namespace("ns1".to_string()).is_ok());
    add_namespace(&mut store, &NewNamespace { id: "empty".to_string() }).unwrap();
    assert!(delete_namespace(&mut store, "empty".to_string(), DeletePolicy::Block).is_ok());
    assert!(matches!(
        delete_namespace(&mut store, "empty".to_string(), DeletePolicy::Block),
        Err(Error::NotFound)
    ));
    assert!(delete_namespace(&mut store, "ns1".to_string(), DeletePolicy::Permissive).is_ok());
    assert_eq!(store.get_products("ns1".to_string()).unwrap().len(), 1);
}

#[test]
fn blocked_tenant_and_product_deletes() {
    let mut store = MemStore::new();
    let t1 = base(&mut store);
    assert!(matches!(
        delete_product(&ctx("ns1"), &mut store, "p1".to_string(), DeletePolicy::Block),
        Err(Error::ValidationError(Cause::InUse(Kind::Product, _)))
    ));
    add_user(&mut store, &new_user("ns1", "u1", &[t1.clone()], &[])).unwrap();
    assert!(matches!(
        delete_tenant(&mut store, t1.clone(), DeletePolicy::Block),
        Err(Error::ValidationError(Cause::InUse(Kind::Tenant, _)))
    ));
    store.delete_user("u1".to_string()).unwrap();
    assert!(delete_tenant(&mut store, t1.clone(), DeletePolicy::Block).is_ok());
    assert!(delete_product(&ctx("ns1"), &mut store, "p1".to_string(), DeletePolicy::Block).is_ok());
    assert!(matches!(
        delete_tenant(&mut store, t1, DeletePolicy::Permissive),
        Err(Error::NotFound)
    ));
}

#[test]
fn namespace_scoped_decision() {
    let mut store = MemStore::new();
    let t1 = base(&mut store);
    add_namespace(&mut store, &NewNamespace { id: "ns2".to_string() }).unwrap();
    add_product(&ctx("ns2"), &mut store, &new_product("ns2", "p1")).unwrap();
    let own = add_role(&mut store, &new_role("ns1", &t1, "p1", &["res:act"])).unwrap().id;
    let foreign = add_role(&mut store, &new_role("ns2", &t1, "p1", &["res:read"])).unwrap().id;
    add_user(&mut store, &new_user("ns1", "u1", &[], &[own, foreign])).unwrap();
    let engine = AccessControlEngine::new(store);
    let ns1 = "ns1".to_string();
    let ns2 = "ns2".to_string();
    assert!(engine.is_allowed_in_namespace(&request("u1", &t1, "p1", "res", "act"), &ns1).unwrap().result);
    assert!(!engine.is_allowed_in_namespace(&request("u1", &t1, "p1", "res", "read"), &ns1).unwrap().result);
    assert!(engine.is_allowed(&request("u1", &t1, "p1", "res", "read")).unwrap().result);
    assert!(matches!(
        engine.is_allowed_in_namespace(&request("u1", &t1, "p1", "res", "act"), &ns2),
        Err(Error::NotFound)
    ));
}

#[test]
fn role_query_lists_each_role_once() {
    let mut store = MemStore::new();
    let t1 = base(&mut store);
    let r1 = add_role(&mut store, &new_role("ns1", &t1, "p1", &["res:act"])).unwrap().id;
    let none = store
        .get_roles_matching_request(&vec![], &t1, &"res:act".to_string())
        .unwrap();
    assert!(none.is_empty());
    let twice = store
        .get_roles_matching_request(&vec![r1.clone(), r1.clone()], &t1, &"res:act".to_string())
        .unwrap();
    assert_eq!(twice.len(), 1);
    assert_eq!(twice[0].id, r1);
}

#[test]
fn updates_naming_nothing_pass_without_lookups() {
    let store = MemStore::new();
    let user_update = UpdateUser {
        email: Some("a@b.com".to_string()),
        external_provider: None,
        first_name: None,
        last_name: None,
        is_active: None,
        metadata: None,
        associated_tenants: Some(vec![]),
        roles: None,
    };
    assert!(user_update.validate_data_integrity(&store).is_ok());
    let role_update = UpdateRole {
        name: Some("renamed".to_string()),
        description: None,
        metadata: None,
        permissions: None,
        tenant_id: None,
        product_id: None,
    };
    assert!(role_update.validate_data_integrity_with_namespace(&store, &"ns".to_string()).is_ok());
    let tenant_update = UpdateTenant {
        name: None,
        description: None,
        metadata: None,
        subscribed_products: Some(vec![]),
    };
    assert!(tenant_update.validate_data_integrity_with_namespace(&store, &"ns".to_string()).is_ok());
}
