//! Users: global identities linked to an external identity provider.
use crate::ids::{is_crockford_char, new_ulid};
use crate::metadata::copy_metadata;
use crate::role::Role;
use crate::tenant::PopulatedTenant;
use crate::text::{contains_string, copy_strings, patch, patch_list, patch_text};
use crate::timestamps::Timestamps;
use vstd::prelude::*;

verus! {

/// The identity of a user at its provider; replaced whole, never edited.
#[derive(Debug, Clone)]
pub struct UserExternalProvider {
    pub provider_type: String,
    pub id: String,
}

impl UserExternalProvider {
    pub fn new(provider_type: String, id: String) -> (r: UserExternalProvider)
        ensures
            r.provider_type@ == provider_type@,
            r.id@ == id@,
    {
        UserExternalProvider { provider_type, id }
    }

    pub fn copy(&self) -> (r: UserExternalProvider)
        ensures
            r.provider_type@ == self.provider_type@,
            r.id@ == self.id@,
    {
        UserExternalProvider { provider_type: self.provider_type.clone(), id: self.id.clone() }
    }
}

#[derive(Debug, Clone)]
pub struct User {
    pub id: String,
    pub namespace_id: String,
    pub email: String,
    pub external_provider: UserExternalProvider,
    pub first_name: String,
    pub last_name: String,
    pub is_active: bool,
    pub is_invited: bool,
    pub metadata: Option<serde_json::Value>,
    pub associated_tenants: Vec<String>,
    /// Ids of the roles bound to the user.
    pub roles: Vec<String>,
    pub timestamps: Timestamps,
}

pub struct UserView {
    pub id: Seq<char>,
    pub namespace_id: Seq<char>,
    pub email: Seq<char>,
    pub provider_type: Seq<char>,
    pub external_id: Seq<char>,
    pub first_name: Seq<char>,
    pub last_name: Seq<char>,
    pub is_active: bool,
    pub is_invited: bool,
    pub metadata: Option<serde_json::Value>,
    pub associated_tenants: Seq<Seq<char>>,
    pub roles: Seq<Seq<char>>,
    pub timestamps: Timestamps,
}

impl View for User {
    type V = UserView;

    open spec fn view(&self) -> UserView {
        UserView {
            id: self.id@,
            namespace_id: self.namespace_id@,
            email: self.email@,
            provider_type: self.external_provider.provider_type@,
            external_id: self.external_provider.id@,
            first_name: self.first_name@,
            last_name: self.last_name@,
            is_active: self.is_active,
            is_invited: self.is_invited,
            metadata: self.metadata,
            associated_tenants: self.associated_tenants.deep_view(),
            roles: self.roles.deep_view(),
            timestamps: self.timestamps,
        }
    }
}

/// Filters of a user listing; each field present must match.
#[derive(Debug, Clone)]
pub struct UserQuery {
    pub id: Option<String>,
    pub email: Option<String>,
    pub external_provider_id: Option<String>,
    pub is_active: Option<bool>,
    pub is_invited: Option<bool>,
    pub associated_tenant: Option<String>,
}

#[derive(Debug, Clone)]
pub struct NewUser {
    pub namespace_id: String,
    pub email: String,
    pub external_provider: UserExternalProvider,
    pub first_name: String,
    pub last_name: String,
    pub is_active: bool,
    pub is_invited: bool,
    pub metadata: Option<serde_json::Value>,
    pub associated_tenants: Vec<String>,
    pub roles: Vec<String>,
}

#[derive(Debug, Clone)]
pub struct UpdateUser {
    pub email: Option<String>,
    pub external_provider: Option<UserExternalProvider>,
    pub first_name: Option<String>,
    pub last_name: Option<String>,
    pub is_active: Option<bool>,
    pub metadata: Option<Option<serde_json::Value>>,
    pub associated_tenants: Option<Vec<String>>,
    pub roles: Option<Vec<String>>,
}

/// The read model of a user joined with its tenants and roles.
#[derive(Debug, Clone)]
pub struct UserInfo {
    pub id: String,
    pub namespace_id: String,
    pub email: String,
    pub external_provider: UserExternalProvider,
    pub first_name: String,
    pub last_name: String,
    pub is_active: bool,
    pub is_invited: bool,
    pub metadata: Option<serde_json::Value>,
    pub associated_tenants: Vec<String>,
    pub populated_associated_tenants: Vec<PopulatedTenant>,
    pub roles: Vec<String>,
    pub populated_roles: Vec<Role>,
    pub timestamps: Timestamps,
}

impl UserInfo {
    /// The user's own fields, without what was joined in.
    pub open spec fn user(&self) -> UserView {
        UserView {
            id: self.id@,
            namespace_id: self.namespace_id@,
            email: self.email@,
            provider_type: self.external_provider.provider_type@,
            external_id: self.external_provider.id@,
            first_name: self.first_name@,
            last_name: self.last_name@,
            is_active: self.is_active,
            is_invited: self.is_invited,
            metadata: self.metadata,
            associated_tenants: self.associated_tenants.deep_view(),
            roles: self.roles.deep_view(),
            timestamps: self.timestamps,
        }
    }
}

impl UserQuery {
    /// Every filter present matches the user.
    pub open spec fn accepts(&self, u: UserView) -> bool {
        &&& self.id matches Some(x) ==> u.id == x@
        &&& self.email matches Some(x) ==> u.email == x@
        &&& self.external_provider_id matches Some(x) ==> u.external_id == x@
        &&& self.is_active matches Some(x) ==> u.is_active == x
        &&& self.is_invited matches Some(x) ==> u.is_invited == x
        &&& self.associated_tenant matches Some(x) ==> u.associated_tenants.contains(x@)
    }

    pub fn matches(&self, u: &User) -> (r: bool)
        ensures
            r == self.accepts(u@),
    {
        if let Some(x) = &self.id {
            if u.id != *x {
                return false;
            }
        }
        if let Some(x) = &self.email {
            if u.email != *x {
                return false;
            }
        }
        if let Some(x) = &self.external_provider_id {
            if u.external_provider.id != *x {
                return false;
            }
        }
        if let Some(x) = self.is_active {
            if u.is_active != x {
                return false;
            }
        }
        if let Some(x) = self.is_invited {
            if u.is_invited != x {
                return false;
            }
        }
        if let Some(x) = &self.associated_tenant {
            if !contains_string(&u.associated_tenants, x) {
                return false;
            }
        }
        true
    }
}

impl UpdateUser {
    pub open spec fn touches(&self) -> bool {
        self.email is Some || self.external_provider is Some || self.first_name is Some
            || self.last_name is Some || self.is_active is Some || self.metadata is Some
            || self.associated_tenants is Some || self.roles is Some
    }
}

impl UserView {
    pub open spec fn patched(self, u: UpdateUser) -> UserView {
        UserView {
            email: patch_text(u.email, self.email),
            provider_type: match u.external_provider {
                Some(p) => p.provider_type@,
                None => self.provider_type,
            },
            external_id: match u.external_provider {
                Some(p) => p.id@,
                None => self.external_id,
            },
            first_name: patch_text(u.first_name, self.first_name),
            last_name: patch_text(u.last_name, self.last_name),
            is_active: patch(u.is_active, self.is_active),
            metadata: patch(u.metadata, self.metadata),
            associated_tenants: patch_list(u.associated_tenants, self.associated_tenants),
            roles: patch_list(u.roles, self.roles),
            ..self
        }
    }

    pub open spec fn stamped(self, timestamps: Timestamps) -> UserView {
        UserView { timestamps, ..self }
    }
}

impl User {
    pub fn new(
        namespace_id: String,
        email: String,
        external_provider: UserExternalProvider,
        first_name: String,
        last_name: String,
        is_active: bool,
        is_invited: bool,
        metadata: Option<serde_json::Value>,
        associated_tenants: Vec<String>,
        roles: Vec<String>,
    ) -> (r: User)
        ensures
            r.id@.len() == 26,
            forall|i: int| 0 <= i < 26 ==> is_crockford_char(#[trigger] r.id@[i]),
            r.namespace_id@ == namespace_id@,
            r.email@ == email@,
            r.external_provider.provider_type@ == external_provider.provider_type@,
            r.external_provider.id@ == external_provider.id@,
            r.first_name@ == first_name@,
            r.last_name@ == last_name@,
            r.is_active == is_active,
            r.is_invited == is_invited,
            r.metadata == metadata,
            r.associated_tenants.deep_view() == associated_tenants.deep_view(),
            r.roles.deep_view() == roles.deep_view(),
            r.timestamps.updated_at is None,
    {
        User {
            id: new_ulid(),
            namespace_id,
            email,
            external_provider,
            first_name,
            last_name,
            is_active,
            is_invited,
            metadata,
            associated_tenants,
            roles,
            timestamps: Timestamps::new(),
        }
    }

    pub fn new_from_obj(new_user: &NewUser) -> (r: User)
        ensures
            r.id@.len() == 26,
            forall|i: int| 0 <= i < 26 ==> is_crockford_char(#[trigger] r.id@[i]),
            r.namespace_id@ == new_user.namespace_id@,
            r.email@ == new_user.email@,
            r.external_provider.provider_type@ == new_user.external_provider.provider_type@,
            r.external_provider.id@ == new_user.external_provider.id@,
            r.first_name@ == new_user.first_name@,
            r.last_name@ == new_user.last_name@,
            r.is_active == new_user.is_active,
            r.is_invited == new_user.is_invited,
            r.metadata == new_user.metadata,
            r.associated_tenants.deep_view() == new_user.associated_tenants.deep_view(),
            r.roles.deep_view() == new_user.roles.deep_view(),
            r.timestamps.updated_at is None,
    {
        User {
            id: new_ulid(),
            namespace_id: new_user.namespace_id.clone(),
            email: new_user.email.clone(),
            external_provider: new_user.external_provider.copy(),
            first_name: new_user.first_name.clone(),
            last_name: new_user.last_name.clone(),
            is_active: new_user.is_active,
            is_invited: new_user.is_invited,
            metadata: copy_metadata(&new_user.metadata),
            associated_tenants: copy_strings(&new_user.associated_tenants),
            roles: copy_strings(&new_user.roles),
            timestamps: Timestamps::new(),
        }
    }

    pub fn apply_update(&mut self, update: &UpdateUser)
        ensures
            final(self)@ == old(self)@.patched(*update).stamped(final(self).timestamps),
            final(self).timestamps.created_at == old(self).timestamps.created_at,
            update.touches() ==> final(self).timestamps.updated_at is Some,
            !update.touches() ==> final(self).timestamps == old(self).timestamps,
    {
        let mut did_update = false;
        if let Some(email) = &update.email {
            self.email = email.clone();
            did_update = true;
        }
        if let Some(external_provider) = &update.external_provider {
            self.external_provider = external_provider.copy();
            did_update = true;
        }
        if let Some(first_name) = &update.first_name {
            self.first_name = first_name.clone();
            did_update = true;
        }
        if let Some(last_name) = &update.last_name {
            self.last_name = last_name.clone();
            did_update = true;
        }
        if let Some(is_active) = update.is_active {
            self.is_active = is_active;
            did_update = true;
        }
        if let Some(metadata) = &update.metadata {
            self.metadata = copy_metadata(metadata);
            did_update = true;
        }
        if let Some(tenants) = &update.associated_tenants {
            self.associated_tenants = copy_strings(tenants);
            did_update = true;
        }
        if let Some(roles) = &update.roles {
            self.roles = copy_strings(roles);
            did_update = true;
        }
        if did_update {
            self.timestamps.update();
        }
    }

    pub fn copy(&self) -> (r: User)
        ensures
            r@ == self@,
    {
        User {
            id: self.id.clone(),
            namespace_id: self.namespace_id.clone(),
            email: self.email.clone(),
            external_provider: self.external_provider.copy(),
            first_name: self.first_name.clone(),
            last_name: self.last_name.clone(),
            is_active: self.is_active,
            is_invited: self.is_invited,
            metadata: copy_metadata(&self.metadata),
            associated_tenants: copy_strings(&self.associated_tenants),
            roles: copy_strings(&self.roles),
            timestamps: self.timestamps,
        }
    }
}

} // verus!
