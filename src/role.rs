//! Roles: bundles of permission strings scoped to one tenant and one product.
use crate::ids::{is_crockford_char, new_ulid};
use crate::metadata::copy_metadata;
use crate::text::{copy_strings, patch, patch_list, patch_text};
use crate::timestamps::Timestamps;
use vstd::prelude::*;

verus! {

#[derive(Debug, Clone)]
pub struct Role {
    pub id: String,
    pub namespace_id: String,
    pub name: String,
    pub description: String,
    pub metadata: Option<serde_json::Value>,
    /// Entries of the form `<resource>:<action>`, matched verbatim.
    pub permissions: Vec<String>,
    pub tenant_id: String,
    pub product_id: String,
    pub timestamps: Timestamps,
}

pub struct RoleView {
    pub id: Seq<char>,
    pub namespace_id: Seq<char>,
    pub name: Seq<char>,
    pub description: Seq<char>,
    pub metadata: Option<serde_json::Value>,
    pub permissions: Seq<Seq<char>>,
    pub tenant_id: Seq<char>,
    pub product_id: Seq<char>,
    pub timestamps: Timestamps,
}

impl View for Role {
    type V = RoleView;

    open spec fn view(&self) -> RoleView {
        RoleView {
            id: self.id@,
            namespace_id: self.namespace_id@,
            name: self.name@,
            description: self.description@,
            metadata: self.metadata,
            permissions: self.permissions.deep_view(),
            tenant_id: self.tenant_id@,
            product_id: self.product_id@,
            timestamps: self.timestamps,
        }
    }
}

#[derive(Debug, Clone)]
pub struct NewRole {
    pub namespace_id: String,
    pub name: String,
    pub description: String,
    pub metadata: Option<serde_json::Value>,
    pub permissions: Vec<String>,
    pub tenant_id: String,
    pub product_id: String,
}

#[derive(Debug, Clone)]
pub struct UpdateRole {
    pub name: Option<String>,
    pub description: Option<String>,
    pub metadata: Option<Option<serde_json::Value>>,
    pub permissions: Option<Vec<String>>,
    pub tenant_id: Option<String>,
    pub product_id: Option<String>,
}

impl UpdateRole {
    pub open spec fn touches(&self) -> bool {
        self.name is Some || self.description is Some || self.metadata is Some
            || self.permissions is Some || self.tenant_id is Some || self.product_id is Some
    }
}

impl RoleView {
    pub open spec fn patched(self, u: UpdateRole) -> RoleView {
        RoleView {
            name: patch_text(u.name, self.name),
            description: patch_text(u.description, self.description),
            metadata: patch(u.metadata, self.metadata),
            permissions: patch_list(u.permissions, self.permissions),
            tenant_id: patch_text(u.tenant_id, self.tenant_id),
            product_id: patch_text(u.product_id, self.product_id),
            ..self
        }
    }

    pub open spec fn stamped(self, timestamps: Timestamps) -> RoleView {
        RoleView { timestamps, ..self }
    }
}

impl Role {
    pub fn new(
        namespace_id: String,
        name: String,
        description: String,
        metadata: Option<serde_json::Value>,
        permissions: Vec<String>,
        tenant_id: String,
        product_id: String,
    ) -> (r: Role)
        ensures
            r.id@.len() == 26,
            forall|i: int| 0 <= i < 26 ==> is_crockford_char(#[trigger] r.id@[i]),
            r.namespace_id@ == namespace_id@,
            r.name@ == name@,
            r.description@ == description@,
            r.metadata == metadata,
            r.permissions.deep_view() == permissions.deep_view(),
            r.tenant_id@ == tenant_id@,
            r.product_id@ == product_id@,
            r.timestamps.updated_at is None,
    {
        Role {
            id: new_ulid(),
            namespace_id,
            name,
            description,
            metadata,
            permissions,
            tenant_id,
            product_id,
            timestamps: Timestamps::new(),
        }
    }

    pub fn new_from_obj(new_role: &NewRole) -> (r: Role)
        ensures
            r.id@.len() == 26,
            forall|i: int| 0 <= i < 26 ==> is_crockford_char(#[trigger] r.id@[i]),
            r.namespace_id@ == new_role.namespace_id@,
            r.name@ == new_role.name@,
            r.description@ == new_role.description@,
            r.metadata == new_role.metadata,
            r.permissions.deep_view() == new_role.permissions.deep_view(),
            r.tenant_id@ == new_role.tenant_id@,
            r.product_id@ == new_role.product_id@,
            r.timestamps.updated_at is None,
    {
        Role {
            id: new_ulid(),
            namespace_id: new_role.namespace_id.clone(),
            name: new_role.name.clone(),
            description: new_role.description.clone(),
            metadata: copy_metadata(&new_role.metadata),
            permissions: copy_strings(&new_role.permissions),
            tenant_id: new_role.tenant_id.clone(),
            product_id: new_role.product_id.clone(),
            timestamps: Timestamps::new(),
        }
    }

    pub fn apply_update(&mut self, update: &UpdateRole)
        ensures
            final(self)@ == old(self)@.patched(*update).stamped(final(self).timestamps),
            final(self).timestamps.created_at == old(self).timestamps.created_at,
            update.touches() ==> final(self).timestamps.updated_at is Some,
            !update.touches() ==> final(self).timestamps == old(self).timestamps,
    {
        let mut did_update = false;
        if let Some(name) = &update.name {
            self.name = name.clone();
            did_update = true;
        }
        if let Some(description) = &update.description {
            self.description = description.clone();
            did_update = true;
        }
        if let Some(metadata) = &update.metadata {
            self.metadata = copy_metadata(metadata);
            did_update = true;
        }
        if let Some(permissions) = &update.permissions {
            self.permissions = copy_strings(permissions);
            did_update = true;
        }
        if let Some(tenant_id) = &update.tenant_id {
            self.tenant_id = tenant_id.clone();
            did_update = true;
        }
        if let Some(product_id) = &update.product_id {
            self.product_id = product_id.clone();
            did_update = true;
        }
        if did_update {
            self.timestamps.update();
        }
    }

    pub fn copy(&self) -> (r: Role)
        ensures
            r@ == self@,
    {
        Role {
            id: self.id.clone(),
            namespace_id: self.namespace_id.clone(),
            name: self.name.clone(),
            description: self.description.clone(),
            metadata: copy_metadata(&self.metadata),
            permissions: copy_strings(&self.permissions),
            tenant_id: self.tenant_id.clone(),
            product_id: self.product_id.clone(),
            timestamps: self.timestamps,
        }
    }
}

} // verus!
