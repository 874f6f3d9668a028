//! Tenants: customers within a namespace, subscribed to its products.
use crate::ids::{is_crockford_char, new_ulid};
use crate::metadata::copy_metadata;
use crate::text::{copy_strings, patch, patch_list, patch_text};
use crate::timestamps::Timestamps;
use vstd::prelude::*;

verus! {

#[derive(Debug, Clone)]
pub struct Tenant {
    pub id: String,
    pub namespace_id: String,
    pub name: String,
    pub description: String,
    pub metadata: Option<serde_json::Value>,
    /// Product ids, in the order of subscription.
    pub subscribed_products: Vec<String>,
    pub timestamps: Timestamps,
}

pub struct TenantView {
    pub id: Seq<char>,
    pub namespace_id: Seq<char>,
    pub name: Seq<char>,
    pub description: Seq<char>,
    pub metadata: Option<serde_json::Value>,
    pub subscribed_products: Seq<Seq<char>>,
    pub timestamps: Timestamps,
}

impl View for Tenant {
    type V = TenantView;

    open spec fn view(&self) -> TenantView {
        TenantView {
            id: self.id@,
            namespace_id: self.namespace_id@,
            name: self.name@,
            description: self.description@,
            metadata: self.metadata,
            subscribed_products: self.subscribed_products.deep_view(),
            timestamps: self.timestamps,
        }
    }
}

#[derive(Debug, Clone)]
pub struct NewTenant {
    pub namespace_id: String,
    pub name: String,
    pub description: String,
    pub metadata: Option<serde_json::Value>,
    pub subscribed_products: Vec<String>,
}

/// A partial update: each field present replaces the tenant's own. Identity
/// and namespace cannot change.
#[derive(Debug, Clone)]
pub struct UpdateTenant {
    pub name: Option<String>,
    pub description: Option<String>,
    pub metadata: Option<Option<serde_json::Value>>,
    pub subscribed_products: Option<Vec<String>>,
}

/// The read model of a tenant joined with the products it subscribes to.
#[derive(Debug, Clone)]
pub struct PopulatedTenant {
    pub id: String,
    pub namespace_id: String,
    pub name: String,
    pub description: String,
    pub metadata: Option<serde_json::Value>,
    pub subscribed_products: Vec<String>,
    pub timestamps: Timestamps,
}

impl View for PopulatedTenant {
    type V = TenantView;

    open spec fn view(&self) -> TenantView {
        TenantView {
            id: self.id@,
            namespace_id: self.namespace_id@,
            name: self.name@,
            description: self.description@,
            metadata: self.metadata,
            subscribed_products: self.subscribed_products.deep_view(),
            timestamps: self.timestamps,
        }
    }
}

impl PopulatedTenant {
    pub fn from_tenant(t: &Tenant) -> (r: PopulatedTenant)
        ensures
            r@ == t@,
    {
        PopulatedTenant {
            id: t.id.clone(),
            namespace_id: t.namespace_id.clone(),
            name: t.name.clone(),
            description: t.description.clone(),
            metadata: copy_metadata(&t.metadata),
            subscribed_products: copy_strings(&t.subscribed_products),
            timestamps: t.timestamps,
        }
    }
}

impl UpdateTenant {
    pub open spec fn touches(&self) -> bool {
        self.name is Some || self.description is Some || self.metadata is Some
            || self.subscribed_products is Some
    }
}

impl TenantView {
    /// The fields after `u`, timestamps aside.
    pub open spec fn patched(self, u: UpdateTenant) -> TenantView {
        TenantView {
            name: patch_text(u.name, self.name),
            description: patch_text(u.description, self.description),
            metadata: patch(u.metadata, self.metadata),
            subscribed_products: patch_list(u.subscribed_products, self.subscribed_products),
            ..self
        }
    }

    pub open spec fn stamped(self, timestamps: Timestamps) -> TenantView {
        TenantView { timestamps, ..self }
    }
}

impl Tenant {
    pub fn new(
        namespace_id: String,
        name: String,
        description: String,
        metadata: Option<serde_json::Value>,
        subscribed_products: Vec<String>,
    ) -> (r: Tenant)
        ensures
            r.id@.len() == 26,
            forall|i: int| 0 <= i < 26 ==> is_crockford_char(#[trigger] r.id@[i]),
            r.namespace_id@ == namespace_id@,
            r.name@ == name@,
            r.description@ == description@,
            r.metadata == metadata,
            r.subscribed_products.deep_view() == subscribed_products.deep_view(),
            r.timestamps.updated_at is None,
    {
        Tenant {
            id: new_ulid(),
            namespace_id,
            name,
            description,
            metadata,
            subscribed_products,
            timestamps: Timestamps::new(),
        }
    }

    pub fn new_from_obj(new_tenant: &NewTenant) -> (r: Tenant)
        ensures
            r.id@.len() == 26,
            forall|i: int| 0 <= i < 26 ==> is_crockford_char(#[trigger] r.id@[i]),
            r.namespace_id@ == new_tenant.namespace_id@,
            r.name@ == new_tenant.name@,
            r.description@ == new_tenant.description@,
            r.metadata == new_tenant.metadata,
            r.subscribed_products.deep_view() == new_tenant.subscribed_products.deep_view(),
            r.timestamps.updated_at is None,
    {
        Tenant {
            id: new_ulid(),
            namespace_id: new_tenant.namespace_id.clone(),
            name: new_tenant.name.clone(),
            description: new_tenant.description.clone(),
            metadata: copy_metadata(&new_tenant.metadata),
            subscribed_products: copy_strings(&new_tenant.subscribed_products),
            timestamps: Timestamps::new(),
        }
    }

    pub fn apply_update(&mut self, update: &UpdateTenant)
        ensures
            final(self)@ == old(self)@.patched(*update).stamped(final(self).timestamps),
            final(self).timestamps.created_at == old(self).timestamps.created_at,
            update.touches() ==> final(self).timestamps.updated_at is Some,
            !update.touches() ==> final(self).timestamps == old(self).timestamps,
    {
        let mut did_update = false;
        if let Some(name) = &update.name {
            self.name = name.clone();
            did_update = true;
        }
        if let Some(description) = &update.description {
            self.description = description.clone();
            did_update = true;
        }
        if let Some(metadata) = &update.metadata {
            self.metadata = copy_metadata(metadata);
            did_update = true;
        }
        if let Some(products) = &update.subscribed_products {
            self.subscribed_products = copy_strings(products);
            did_update = true;
        }
        if did_update {
            self.timestamps.update();
        }
    }

    pub fn copy(&self) -> (r: Tenant)
        ensures
            r@ == self@,
    {
        Tenant {
            id: self.id.clone(),
            namespace_id: self.namespace_id.clone(),
            name: self.name.clone(),
            description: self.description.clone(),
            metadata: copy_metadata(&self.metadata),
            subscribed_products: copy_strings(&self.subscribed_products),
            timestamps: self.timestamps,
        }
    }
}

} // verus!
