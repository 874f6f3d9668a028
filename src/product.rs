//! Products: registerable offerings within a namespace.
use crate::metadata::copy_metadata;
use crate::text::{patch, patch_text};
use crate::timestamps::Timestamps;
use vstd::prelude::*;

verus! {

/// `(namespace_id, id)` identifies a product.
#[derive(Debug, Clone)]
pub struct Product {
    pub id: String,
    pub namespace_id: String,
    pub name: String,
    pub description: String,
    pub metadata: Option<serde_json::Value>,
    pub img: String,
    pub url: String,
    pub can_self_register: bool,
    pub timestamps: Timestamps,
}

pub struct ProductView {
    pub id: Seq<char>,
    pub namespace_id: Seq<char>,
    pub name: Seq<char>,
    pub description: Seq<char>,
    pub metadata: Option<serde_json::Value>,
    pub img: Seq<char>,
    pub url: Seq<char>,
    pub can_self_register: bool,
    pub timestamps: Timestamps,
}

impl View for Product {
    type V = ProductView;

    open spec fn view(&self) -> ProductView {
        ProductView {
            id: self.id@,
            namespace_id: self.namespace_id@,
            name: self.name@,
            description: self.description@,
            metadata: self.metadata,
            img: self.img@,
            url: self.url@,
            can_self_register: self.can_self_register,
            timestamps: self.timestamps,
        }
    }
}

#[derive(Debug, Clone)]
pub struct NewProduct {
    pub id: String,
    pub namespace_id: String,
    pub name: String,
    pub description: String,
    pub metadata: Option<serde_json::Value>,
    pub img: String,
    pub url: String,
    pub can_self_register: bool,
}

/// A partial update; the name and the identity of a product are fixed.
#[derive(Debug, Clone)]
pub struct UpdateProduct {
    pub description: Option<String>,
    pub metadata: Option<Option<serde_json::Value>>,
    pub img: Option<String>,
    pub url: Option<String>,
    pub can_self_register: Option<bool>,
}

impl UpdateProduct {
    pub open spec fn touches(&self) -> bool {
        self.description is Some || self.metadata is Some || self.img is Some || self.url is Some
            || self.can_self_register is Some
    }
}

impl ProductView {
    pub open spec fn patched(self, u: UpdateProduct) -> ProductView {
        ProductView {
            description: patch_text(u.description, self.description),
            metadata: patch(u.metadata, self.metadata),
            img: patch_text(u.img, self.img),
            url: patch_text(u.url, self.url),
            can_self_register: patch(u.can_self_register, self.can_self_register),
            ..self
        }
    }

    pub open spec fn stamped(self, timestamps: Timestamps) -> ProductView {
        ProductView { timestamps, ..self }
    }
}

impl Product {
    pub fn new(
        id: String,
        namespace_id: String,
        name: String,
        description: String,
        metadata: Option<serde_json::Value>,
        img: String,
        url: String,
        can_self_register: bool,
    ) -> (r: Product)
        ensures
            r.id@ == id@,
            r.namespace_id@ == namespace_id@,
            r.name@ == name@,
            r.description@ == description@,
            r.metadata == metadata,
            r.img@ == img@,
            r.url@ == url@,
            r.can_self_register == can_self_register,
            r.timestamps.updated_at is None,
    {
        Product {
            id,
            namespace_id,
            name,
            description,
            metadata,
            img,
            url,
            can_self_register,
            timestamps: Timestamps::new(),
        }
    }

    pub fn new_from_obj(new_product: &NewProduct) -> (r: Product)
        ensures
            r.id@ == new_product.id@,
            r.namespace_id@ == new_product.namespace_id@,
            r.name@ == new_product.name@,
            r.description@ == new_product.description@,
            r.metadata == new_product.metadata,
            r.img@ == new_product.img@,
            r.url@ == new_product.url@,
            r.can_self_register == new_product.can_self_register,
            r.timestamps.updated_at is None,
    {
        Product {
            id: new_product.id.clone(),
            namespace_id: new_product.namespace_id.clone(),
            name: new_product.name.clone(),
            description: new_product.description.clone(),
            metadata: copy_metadata(&new_product.metadata),
            img: new_product.img.clone(),
            url: new_product.url.clone(),
            can_self_register: new_product.can_self_register,
            timestamps: Timestamps::new(),
        }
    }

    pub fn apply_update(&mut self, update: &UpdateProduct)
        ensures
            final(self)@ == old(self)@.patched(*update).stamped(final(self).timestamps),
            final(self).timestamps.created_at == old(self).timestamps.created_at,
            update.touches() ==> final(self).timestamps.updated_at is Some,
            !update.touches() ==> final(self).timestamps == old(self).timestamps,
    {
        let mut did_update = false;
        if let Some(description) = &update.description {
            self.description = description.clone();
            did_update = true;
        }
        if let Some(metadata) = &update.metadata {
            self.metadata = copy_metadata(metadata);
            did_update = true;
        }
        if let Some(img) = &update.img {
            self.img = img.clone();
            did_update = true;
        }
        if let Some(url) = &update.url {
            self.url = url.clone();
            did_update = true;
        }
        if let Some(can_self_register) = update.can_self_register {
            self.can_self_register = can_self_register;
            did_update = true;
        }
        if did_update {
            self.timestamps.update();
        }
    }

    pub fn copy(&self) -> (r: Product)
        ensures
            r@ == self@,
    {
        Product {
            id: self.id.clone(),
            namespace_id: self.namespace_id.clone(),
            name: self.name.clone(),
            description: self.description.clone(),
            metadata: copy_metadata(&self.metadata),
            img: self.img.clone(),
            url: self.url.clone(),
            can_self_register: self.can_self_register,
            timestamps: self.timestamps,
        }
    }
}

} // verus!
