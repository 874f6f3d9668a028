//! Organization profiles: the registered details of a tenant.
use crate::ids::{is_crockford_char, new_ulid};
use crate::text::{patch, patch_text};
use crate::timestamps::Timestamps;
use vstd::prelude::*;

verus! {

#[derive(Debug, Clone)]
pub struct OrganizationProfile {
    pub id: String,
    pub namespace_id: String,
    pub tenant_id: String,
    pub organization_name: String,
    pub organization_type: String,
    pub primary_contact_number: String,
    pub registered_address_line_1: Option<String>,
    pub registered_address_line_2: Option<String>,
    pub city: String,
    pub state: String,
    pub zip: Option<String>,
    pub timestamps: Timestamps,
}

pub open spec fn opt_text(s: Option<String>) -> Option<Seq<char>> {
    match s {
        Some(t) => Some(t@),
        None => None,
    }
}

pub struct OrganizationProfileView {
    pub id: Seq<char>,
    pub namespace_id: Seq<char>,
    pub tenant_id: Seq<char>,
    pub organization_name: Seq<char>,
    pub organization_type: Seq<char>,
    pub primary_contact_number: Seq<char>,
    pub registered_address_line_1: Option<Seq<char>>,
    pub registered_address_line_2: Option<Seq<char>>,
    pub city: Seq<char>,
    pub state: Seq<char>,
    pub zip: Option<Seq<char>>,
    pub timestamps: Timestamps,
}

impl View for OrganizationProfile {
    type V = OrganizationProfileView;

    open spec fn view(&self) -> OrganizationProfileView {
        OrganizationProfileView {
            id: self.id@,
            namespace_id: self.namespace_id@,
            tenant_id: self.tenant_id@,
            organization_name: self.organization_name@,
            organization_type: self.organization_type@,
            primary_contact_number: self.primary_contact_number@,
            registered_address_line_1: opt_text(self.registered_address_line_1),
            registered_address_line_2: opt_text(self.registered_address_line_2),
            city: self.city@,
            state: self.state@,
            zip: opt_text(self.zip),
            timestamps: self.timestamps,
        }
    }
}

#[derive(Debug, Clone)]
pub struct NewOrganizationProfile {
    pub namespace_id: String,
    pub tenant_id: String,
    pub organization_name: String,
    pub organization_type: String,
    pub primary_contact_number: String,
    pub registered_address_line_1: Option<String>,
    pub registered_address_line_2: Option<String>,
    pub city: String,
    pub state: String,
    pub zip: Option<String>,
}

#[derive(Debug, Clone)]
pub struct UpdateOrganizationProfile {
    pub organization_name: Option<String>,
    pub organization_type: Option<String>,
    pub primary_contact_number: Option<String>,
    pub registered_address_line_1: Option<Option<String>>,
    pub registered_address_line_2: Option<Option<String>>,
    pub city: Option<String>,
    pub state: Option<String>,
    pub zip: Option<Option<String>>,
}

pub open spec fn patch_opt_text(u: Option<Option<String>>, current: Option<Seq<char>>) -> Option<
    Seq<char>,
> {
    match u {
        Some(v) => opt_text(v),
        None => current,
    }
}

impl UpdateOrganizationProfile {
    pub open spec fn touches(&self) -> bool {
        self.organization_name is Some || self.organization_type is Some
            || self.primary_contact_number is Some || self.registered_address_line_1 is Some
            || self.registered_address_line_2 is Some || self.city is Some || self.state is Some
            || self.zip is Some
    }
}

impl OrganizationProfileView {
    pub open spec fn patched(self, u: UpdateOrganizationProfile) -> OrganizationProfileView {
        OrganizationProfileView {
            organization_name: patch_text(u.organization_name, self.organization_name),
            organization_type: patch_text(u.organization_type, self.organization_type),
            primary_contact_number: patch_text(
                u.primary_contact_number,
                self.primary_contact_number,
            ),
            registered_address_line_1: patch_opt_text(
                u.registered_address_line_1,
                self.registered_address_line_1,
            ),
            registered_address_line_2: patch_opt_text(
                u.registered_address_line_2,
                self.registered_address_line_2,
            ),
            city: patch_text(u.city, self.city),
            state: patch_text(u.state, self.state),
            zip: patch_opt_text(u.zip, self.zip),
            ..self
        }
    }

    pub open spec fn stamped(self, timestamps: Timestamps) -> OrganizationProfileView {
        OrganizationProfileView { timestamps, ..self }
    }
}

pub fn copy_opt_text(s: &Option<String>) -> (r: Option<String>)
    ensures
        opt_text(r) == opt_text(*s),
{
    match s {
        Some(t) => Some(t.clone()),
        None => None,
    }
}

impl OrganizationProfile {
    pub fn new(
        namespace_id: String,
        tenant_id: String,
        organization_name: String,
        organization_type: String,
        primary_contact_number: String,
        registered_address_line_1: Option<String>,
        registered_address_line_2: Option<String>,
        city: String,
        state: String,
        zip: Option<String>,
    ) -> (r: OrganizationProfile)
        ensures
            r.id@.len() == 26,
            forall|i: int| 0 <= i < 26 ==> is_crockford_char(#[trigger] r.id@[i]),
            r.namespace_id@ == namespace_id@,
            r.tenant_id@ == tenant_id@,
            r.organization_name@ == organization_name@,
            r.organization_type@ == organization_type@,
            r.primary_contact_number@ == primary_contact_number@,
            opt_text(r.registered_address_line_1) == opt_text(registered_address_line_1),
            opt_text(r.registered_address_line_2) == opt_text(registered_address_line_2),
            r.city@ == city@,
            r.state@ == state@,
            opt_text(r.zip) == opt_text(zip),
            r.timestamps.updated_at is None,
    {
        OrganizationProfile {
            id: new_ulid(),
            namespace_id,
            tenant_id,
            organization_name,
            organization_type,
            primary_contact_number,
            registered_address_line_1,
            registered_address_line_2,
            city,
            state,
            zip,
            timestamps: Timestamps::new(),
        }
    }

    pub fn new_from_obj(new_profile: &NewOrganizationProfile) -> (r: OrganizationProfile)
        ensures
            r.id@.len() == 26,
            forall|i: int| 0 <= i < 26 ==> is_crockford_char(#[trigger] r.id@[i]),
            r.namespace_id@ == new_profile.namespace_id@,
            r.tenant_id@ == new_profile.tenant_id@,
            r.organization_name@ == new_profile.organization_name@,
            r.organization_type@ == new_profile.organization_type@,
            r.primary_contact_number@ == new_profile.primary_contact_number@,
            opt_text(r.registered_address_line_1) == opt_text(
                new_profile.registered_address_line_1,
            ),
            opt_text(r.registered_address_line_2) == opt_text(
                new_profile.registered_address_line_2,
            ),
            r.city@ == new_profile.city@,
            r.state@ == new_profile.state@,
            opt_text(r.zip) == opt_text(new_profile.zip),
            r.timestamps.updated_at is None,
    {
        OrganizationProfile {
            id: new_ulid(),
            namespace_id: new_profile.namespace_id.clone(),
            tenant_id: new_profile.tenant_id.clone(),
            organization_name: new_profile.organization_name.clone(),
            organization_type: new_profile.organization_type.clone(),
            primary_contact_number: new_profile.primary_contact_number.clone(),
            registered_address_line_1: copy_opt_text(&new_profile.registered_address_line_1),
            registered_address_line_2: copy_opt_text(&new_profile.registered_address_line_2),
            city: new_profile.city.clone(),
            state: new_profile.state.clone(),
            zip: copy_opt_text(&new_profile.zip),
            timestamps: Timestamps::new(),
        }
    }

    pub fn apply_update(&mut self, update: &UpdateOrganizationProfile)
        ensures
            final(self)@ == old(self)@.patched(*update).stamped(final(self).timestamps),
            final(self).timestamps.created_at == old(self).timestamps.created_at,
            update.touches() ==> final(self).timestamps.updated_at is Some,
            !update.touches() ==> final(self).timestamps == old(self).timestamps,
    {
        let mut did_update = false;
        if let Some(v) = &update.organization_name {
            self.organization_name = v.clone();
            did_update = true;
        }
        if let Some(v) = &update.organization_type {
            self.organization_type = v.clone();
            did_update = true;
        }
        if let Some(v) = &update.primary_contact_number {
            self.primary_contact_number = v.clone();
            did_update = true;
        }
        if let Some(v) = &update.registered_address_line_1 {
            self.registered_address_line_1 = copy_opt_text(v);
            did_update = true;
        }
        if let Some(v) = &update.registered_address_line_2 {
            self.registered_address_line_2 = copy_opt_text(v);
            did_update = true;
        }
        if let Some(v) = &update.city {
            self.city = v.clone();
            did_update = true;
        }
        if let Some(v) = &update.state {
            self.state = v.clone();
            did_update = true;
        }
        if let Some(v) = &update.zip {
            self.zip = copy_opt_text(v);
            did_update = true;
        }
        if did_update {
            self.timestamps.update();
        }
    }

    pub fn copy(&self) -> (r: OrganizationProfile)
        ensures
            r@ == self@,
    {
        OrganizationProfile {
            id: self.id.clone(),
            namespace_id: self.namespace_id.clone(),
            tenant_id: self.tenant_id.clone(),
            organization_name: self.organization_name.clone(),
            organization_type: self.organization_type.clone(),
            primary_contact_number: self.primary_contact_number.clone(),
            registered_address_line_1: copy_opt_text(&self.registered_address_line_1),
            registered_address_line_2: copy_opt_text(&self.registered_address_line_2),
            city: self.city.clone(),
            state: self.state.clone(),
            zip: copy_opt_text(&self.zip),
            timestamps: self.timestamps,
        }
    }
}

} // verus!
