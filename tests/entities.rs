use trusty::error::{Cause, Error};
use trusty::ids::validate_url_safe_id;
use trusty::namespace::{Namespace, NewNamespace};
use trusty::product::{Product, UpdateProduct};
use trusty::rbac::permission;
use trusty::role::{NewRole, Role, UpdateRole};
use trusty::tenant::{NewTenant, Tenant, UpdateTenant};
use trusty::timestamps::Timestamps;
use trusty::user::{NewUser, UpdateUser, User, UserExternalProvider};

fn sample_product() -> Product {
    Product {
        id: "1234".to_string(),
        namespace_id: "abcd".to_string(),
        name: "cool-product".to_string(),
        description: "i am a description".to_string(),
        metadata: None,
        img: "im/a/path.img".to_string(),
        url: "imawebsite.com".to_string(),
        can_self_register: false,
        timestamps: Timestamps { created_at: 1_700_000_000_000, updated_at: None },
    }
}

#[test]
fn test_product_apply_update() {
    let mut test_product = sample_product();
    let url = test_product.url.clone();
    let new_description = "i am a new description".to_string();
    let new_img = "new/img/path.jpg".to_string();
    let test_product_update: UpdateProduct = UpdateProduct {
        description: Some(new_description.clone()),
        metadata: Some(None),
        img: Some(new_img.clone()),
        url: None,
        can_self_register: None,
    };
    test_product.apply_update(&test_product_update);
    assert!(test_product.description == new_description);
    assert!(test_product.img == new_img);
    // Assert an unchanged value stayed the same
    assert!(test_product.url == url);
}

#[test]
fn product_update_stamps_time_and_keeps_creation() {
    let mut p = sample_product();
    let update = UpdateProduct {
        description: None,
        metadata: None,
        img: None,
        url: None,
        can_self_register: Some(true),
    };
    p.apply_update(&update);
    assert!(p.can_self_register);
    assert_eq!(p.timestamps.created_at, 1_700_000_000_000);
    assert!(p.timestamps.updated_at.is_some());
}

#[test]
fn empty_update_leaves_timestamps_alone() {
    let mut p = sample_product();
    let update = UpdateProduct {
        description: None,
        metadata: None,
        img: None,
        url: None,
        can_self_register: None,
    };
    p.apply_update(&update);
    assert_eq!(p.timestamps.updated_at, None);
    assert_eq!(p.description, "i am a description");
}

#[test]
fn namespace_from_input_keeps_id() {
    let ns = Namespace::new_from_obj(&NewNamespace { id: "portal-test".to_string() });
    assert_eq!(ns.id, "portal-test");
    assert_eq!(ns.timestamps.updated_at, None);
    let direct = Namespace::new("other".to_string());
    assert_eq!(direct.id, "other");
}

#[test]
fn generated_ids_are_ulids_and_distinct() {
    let new_tenant = NewTenant {
        namespace_id: "ns1".to_string(),
        name: "tenant".to_string(),
        description: "a tenant".to_string(),
        metadata: Some(serde_json::Value::Bool(true)),
        subscribed_products: vec!["p1".to_string()],
    };
    let a = Tenant::new_from_obj(&new_tenant);
    let b = Tenant::new_from_obj(&new_tenant);
    assert_eq!(a.id.len(), 26);
    assert!(a.id.chars().all(|c| c.is_ascii_digit() || c.is_ascii_uppercase()));
    assert_ne!(a.id, b.id);
    assert_eq!(a.namespace_id, "ns1");
    assert_eq!(a.subscribed_products, vec!["p1".to_string()]);
    assert_eq!(a.metadata, Some(serde_json::Value::Bool(true)));
    assert!(a.timestamps.created_at > 0);
}

#[test]
fn tenant_update_replaces_present_fields_only() {
    let mut t = Tenant::new(
        "ns1".to_string(),
        "tenant".to_string(),
        "a tenant".to_string(),
        None,
        vec![],
    );
    let update = UpdateTenant {
        name: None,
        description: Some("new description".to_string()),
        metadata: Some(Some(serde_json::Value::Null)),
        subscribed_products: Some(vec!["p1".to_string(), "p2".to_string()]),
    };
    t.apply_update(&update);
    assert_eq!(t.name, "tenant");
    assert_eq!(t.description, "new description");
    assert_eq!(t.metadata, Some(serde_json::Value::Null));
    assert_eq!(t.subscribed_products.len(), 2);
    assert!(t.timestamps.updated_at.is_some());
}

#[test]
fn role_update_changes_scope() {
    let mut role = Role::new_from_obj(&NewRole {
        namespace_id: "ns1".to_string(),
        name: "admin".to_string(),
        description: "administrators".to_string(),
        metadata: None,
        permissions: vec!["res:act".to_string()],
        tenant_id: "t1".to_string(),
        product_id: "p1".to_string(),
    });
    assert_eq!(role.id.len(), 26);
    let update = UpdateRole {
        name: None,
        description: None,
        metadata: None,
        permissions: Some(vec!["res:read".to_string()]),
        tenant_id: Some("t2".to_string()),
        product_id: None,
    };
    role.apply_update(&update);
    assert_eq!(role.permissions, vec!["res:read".to_string()]);
    assert_eq!(role.tenant_id, "t2");
    assert_eq!(role.product_id, "p1");
}

#[test]
fn user_from_input_copies_invitation_flag() {
    let new_user = NewUser {
        namespace_id: "ns1".to_string(),
        email: "a@b.com".to_string(),
        external_provider: UserExternalProvider::new("auth0".to_string(), "u1".to_string()),
        first_name: "Ada".to_string(),
        last_name: "Lovelace".to_string(),
        is_active: true,
        is_invited: false,
        metadata: None,
        associated_tenants: vec![],
        roles: vec!["r1".to_string()],
    };
    let mut u = User::new_from_obj(&new_user);
    assert!(u.is_active);
    assert!(!u.is_invited);
    assert_eq!(u.external_provider.id, "u1");
    let update = UpdateUser {
        email: Some("c@d.com".to_string()),
        external_provider: None,
        first_name: None,
        last_name: None,
        is_active: Some(false),
        metadata: None,
        associated_tenants: None,
        roles: Some(vec![]),
    };
    u.apply_update(&update);
    assert_eq!(u.email, "c@d.com");
    assert!(!u.is_active);
    assert!(u.roles.is_empty());
    assert_eq!(u.first_name, "Ada");
}

#[test]
fn url_safe_ids() {
    assert!(validate_url_safe_id(&"cool-product-1".to_string()).is_ok());
    assert!(validate_url_safe_id(&"ABC".to_string()).is_ok());
    for bad in ["", "has space", "slash/id", "dot.id", "emoji-\u{1F600}"] {
        let r = validate_url_safe_id(&bad.to_string());
        assert!(matches!(r, Err(Error::ValidationError(Cause::Input(_)))), "{bad}");
    }
}

#[test]
fn permission_string_joins_with_colon() {
    assert_eq!(permission(&"resource1".to_string(), &"action1".to_string()), "resource1:action1");
    assert_eq!(permission(&"".to_string(), &"".to_string()), ":");
}
