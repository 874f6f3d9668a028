//! Referential integrity: before a mutation is persisted, every reference it
//! makes must resolve and every identity it claims must be free.
use crate::error::{duplicate, missing, reports, Error, Failure, Kind};
use crate::namespace::NewNamespace;
use crate::organization_profile::NewOrganizationProfile;
use crate::product::NewProduct;
use crate::role::{NewRole, UpdateRole};
use crate::store::{Db, Store};
use crate::tenant::{NewTenant, UpdateTenant};
use crate::user::{NewUser, UpdateUser};
use vstd::prelude::*;

verus! {

/// The first of `ids` that is not in `present`.
pub open spec fn first_missing(ids: Seq<Seq<char>>, present: Set<Seq<char>>) -> Option<Seq<char>>
    decreases ids.len(),
{
    if ids.len() == 0 {
        None
    } else if !present.contains(ids[0]) {
        Some(ids[0])
    } else {
        first_missing(ids.drop_first(), present)
    }
}

pub open spec fn missing_from(kind: Kind, id: Option<Seq<char>>) -> Option<Failure> {
    match id {
        Some(i) => Some(Failure::Missing(kind, i)),
        None => None,
    }
}

/// The ids of the products of namespace `ns`.
pub open spec fn products_in(db: Db, ns: Seq<char>) -> Set<Seq<char>> {
    Set::new(|p: Seq<char>| db.products.contains_key((ns, p)))
}

pub open spec fn namespace_missing(db: Db, ns: Seq<char>) -> Option<Failure> {
    if db.namespaces.contains_key(ns) {
        None
    } else {
        Some(Failure::Missing(Kind::Namespace, ns))
    }
}

pub open spec fn tenant_missing(db: Db, t: Seq<char>) -> Option<Failure> {
    if db.tenants.contains_key(t) {
        None
    } else {
        Some(Failure::Missing(Kind::Tenant, t))
    }
}

pub open spec fn product_missing(db: Db, ns: Seq<char>, p: Seq<char>) -> Option<Failure> {
    if db.products.contains_key((ns, p)) {
        None
    } else {
        Some(Failure::Missing(Kind::Product, p))
    }
}

pub open spec fn user_taken(db: Db, external_id: Seq<char>) -> Option<Failure> {
    if db.users.contains_key(external_id) {
        Some(Failure::Duplicate(Kind::User, external_id))
    } else {
        None
    }
}

/// The first failure of `first`, else that of `second`.
pub open spec fn then_check(first: Option<Failure>, second: Option<Failure>) -> Option<Failure> {
    if first is Some {
        first
    } else {
        second
    }
}

/// Checks that each of `ids` names a tenant, in order, stopping at the first
/// that does not.
fn check_tenants<S: Store>(store: &S, ids: &Vec<String>) -> (r: Result<(), Error>)
    requires
        store.inv(),
    ensures
        r matches Err(Error::StorageFailure(m)) ==> store.fails_with(m),
        ids@.len() == 0 ==> r is Ok,
        reports(r, missing_from(Kind::Tenant, first_missing(ids.deep_view(), store.db().tenants.dom()))),
{
    let ghost present = store.db().tenants.dom();
    let mut i: usize = 0;
    assert(ids.deep_view().subrange(0, ids.len() as int) =~= ids.deep_view());
    while i < ids.len()
        invariant
            store.inv(),
            i <= ids.len(),
            present == store.db().tenants.dom(),
            first_missing(ids.deep_view(), present) == first_missing(
                ids.deep_view().subrange(i as int, ids.len() as int),
                present,
            ),
        decreases ids.len() - i,
    {
        let ghost rest = ids.deep_view().subrange(i as int, ids.len() as int);
        assert(rest.drop_first() =~= ids.deep_view().subrange(i + 1, ids.len() as int));
        match store.get_tenant(ids[i].clone()) {
            Ok(_) => {},
            Err(Error::NotFound) => {
                return Err(missing(Kind::Tenant, &ids[i]));
            },
            Err(e) => {
                return Err(e);
            },
        }
        i += 1;
    }
    assert(ids.deep_view().subrange(i as int, ids.len() as int).len() == 0);
    Ok(())
}

/// Checks that each of `ids` names a product of namespace `ns`, in order,
/// stopping at the first that does not.
fn check_products<S: Store>(store: &S, ns: &String, ids: &Vec<String>) -> (r: Result<(), Error>)
    requires
        store.inv(),
    ensures
        r matches Err(Error::StorageFailure(m)) ==> store.fails_with(m),
        ids@.len() == 0 ==> r is Ok,
        reports(
            r,
            missing_from(Kind::Product, first_missing(ids.deep_view(), products_in(store.db(), ns@))),
        ),
{
    let ghost present = products_in(store.db(), ns@);
    let mut i: usize = 0;
    assert(ids.deep_view().subrange(0, ids.len() as int) =~= ids.deep_view());
    while i < ids.len()
        invariant
            store.inv(),
            i <= ids.len(),
            present == products_in(store.db(), ns@),
            first_missing(ids.deep_view(), present) == first_missing(
                ids.deep_view().subrange(i as int, ids.len() as int),
                present,
            ),
        decreases ids.len() - i,
    {
        let ghost rest = ids.deep_view().subrange(i as int, ids.len() as int);
        assert(rest.drop_first() =~= ids.deep_view().subrange(i + 1, ids.len() as int));
        match store.get_product(ns.clone(), ids[i].clone()) {
            Ok(_) => {},
            Err(Error::NotFound) => {
                return Err(missing(Kind::Product, &ids[i]));
            },
            Err(e) => {
                return Err(e);
            },
        }
        i += 1;
    }
    assert(ids.deep_view().subrange(i as int, ids.len() as int).len() == 0);
    Ok(())
}

fn check_namespace<S: Store>(store: &S, ns: &String) -> (r: Result<(), Error>)
    requires
        store.inv(),
    ensures
        r matches Err(Error::StorageFailure(m)) ==> store.fails_with(m),
        reports(r, namespace_missing(store.db(), ns@)),
{
    match store.get_namespace(ns.clone()) {
        Ok(_) => Ok(()),
        Err(Error::NotFound) => Err(missing(Kind::Namespace, ns)),
        Err(e) => Err(e),
    }
}

fn check_tenant<S: Store>(store: &S, t: &String) -> (r: Result<(), Error>)
    requires
        store.inv(),
    ensures
        r matches Err(Error::StorageFailure(m)) ==> store.fails_with(m),
        reports(r, tenant_missing(store.db(), t@)),
{
    match store.get_tenant(t.clone()) {
        Ok(_) => Ok(()),
        Err(Error::NotFound) => Err(missing(Kind::Tenant, t)),
        Err(e) => Err(e),
    }
}

fn check_product<S: Store>(store: &S, ns: &String, p: &String) -> (r: Result<(), Error>)
    requires
        store.inv(),
    ensures
        r matches Err(Error::StorageFailure(m)) ==> store.fails_with(m),
        reports(r, product_missing(store.db(), ns@, p@)),
{
    match store.get_product(ns.clone(), p.clone()) {
        Ok(_) => Ok(()),
        Err(Error::NotFound) => Err(missing(Kind::Product, p)),
        Err(e) => Err(e),
    }
}

fn check_user_free<S: Store>(store: &S, external_id: &String) -> (r: Result<(), Error>)
    requires
        store.inv(),
    ensures
        r matches Err(Error::StorageFailure(m)) ==> store.fails_with(m),
        reports(r, user_taken(store.db(), external_id@)),
{
    match store.get_user(external_id.clone()) {
        Ok(_) => Err(duplicate(Kind::User, external_id)),
        Err(Error::NotFound) => Ok(()),
        Err(e) => Err(e),
    }
}

/// A payload whose references are checked against the store as it is.
pub trait ValidateDataIntegrity {
    /// The first rule that the payload breaks in `db`, if any.
    spec fn integrity_failure(&self, db: Db) -> Option<Failure>;

    /// The payload names something that the check must look up.
    spec fn looks_up(&self) -> bool;

    /// A storage failure of a lookup is returned as it came; a payload that
    /// names nothing to look up passes without any lookup.
    fn validate_data_integrity<S: Store>(&self, store: &S) -> (r: Result<(), Error>)
        requires
            store.inv(),
        ensures
            reports(r, self.integrity_failure(store.db())),
            r matches Err(Error::StorageFailure(m)) ==> store.fails_with(m),
            !self.looks_up() ==> r is Ok,
    ;
}

/// A partial update whose product references resolve within a namespace
/// that the caller supplies.
pub trait ValidateDataIntegrityWithNamespace {
    spec fn integrity_failure_in(&self, db: Db, namespace: Seq<char>) -> Option<Failure>;

    /// The update names something that the check must look up.
    spec fn looks_up(&self) -> bool;

    /// A storage failure of a lookup is returned as it came; an update that
    /// names nothing to look up passes without any lookup.
    fn validate_data_integrity_with_namespace<S: Store>(&self, store: &S, namespace: &String) -> (r:
        Result<(), Error>)
        requires
            store.inv(),
        ensures
            reports(r, self.integrity_failure_in(store.db(), namespace@)),
            r matches Err(Error::StorageFailure(m)) ==> store.fails_with(m),
            !self.looks_up() ==> r is Ok,
    ;
}

impl ValidateDataIntegrity for NewNamespace {
    open spec fn looks_up(&self) -> bool {
        true
    }

    open spec fn integrity_failure(&self, db: Db) -> Option<Failure> {
        if db.namespaces.contains_key(self.id@) {
            Some(Failure::Duplicate(Kind::Namespace, self.id@))
        } else {
            None
        }
    }

    fn validate_data_integrity<S: Store>(&self, store: &S) -> (r: Result<(), Error>) {
        match store.get_namespace(self.id.clone()) {
            Ok(_) => Err(duplicate(Kind::Namespace, &self.id)),
            Err(Error::NotFound) => Ok(()),
            Err(e) => Err(e),
        }
    }
}

impl ValidateDataIntegrity for NewProduct {
    open spec fn looks_up(&self) -> bool {
        true
    }

    open spec fn integrity_failure(&self, db: Db) -> Option<Failure> {
        then_check(
            namespace_missing(db, self.namespace_id@),
            if db.products.contains_key((self.namespace_id@, self.id@)) {
                Some(Failure::Duplicate(Kind::Product, self.id@))
            } else {
                None
            },
        )
    }

    fn validate_data_integrity<S: Store>(&self, store: &S) -> (r: Result<(), Error>) {
        check_namespace(store, &self.namespace_id)?;
        match store.get_product(self.namespace_id.clone(), self.id.clone()) {
            Ok(_) => Err(duplicate(Kind::Product, &self.id)),
            Err(Error::NotFound) => Ok(()),
            Err(e) => Err(e),
        }
    }
}

impl ValidateDataIntegrity for NewTenant {
    open spec fn looks_up(&self) -> bool {
        true
    }

    open spec fn integrity_failure(&self, db: Db) -> Option<Failure> {
        then_check(
            namespace_missing(db, self.namespace_id@),
            missing_from(
                Kind::Product,
                first_missing(
                    self.subscribed_products.deep_view(),
                    products_in(db, self.namespace_id@),
                ),
            ),
        )
    }

    fn validate_data_integrity<S: Store>(&self, store: &S) -> (r: Result<(), Error>) {
        check_namespace(store, &self.namespace_id)?;
        check_products(store, &self.namespace_id, &self.subscribed_products)
    }
}

impl ValidateDataIntegrityWithNamespace for UpdateTenant {
    open spec fn looks_up(&self) -> bool {
        self.subscribed_products matches Some(ps) && ps@.len() > 0
    }

    open spec fn integrity_failure_in(&self, db: Db, namespace: Seq<char>) -> Option<Failure> {
        match self.subscribed_products {
            Some(ps) => missing_from(
                Kind::Product,
                first_missing(ps.deep_view(), products_in(db, namespace)),
            ),
            None => None,
        }
    }

    fn validate_data_integrity_with_namespace<S: Store>(&self, store: &S, namespace: &String) -> (r:
        Result<(), Error>) {
        match &self.subscribed_products {
            Some(ps) => check_products(store, namespace, ps),
            None => Ok(()),
        }
    }
}

impl ValidateDataIntegrity for NewRole {
    open spec fn looks_up(&self) -> bool {
        true
    }

    open spec fn integrity_failure(&self, db: Db) -> Option<Failure> {
        then_check(
            namespace_missing(db, self.namespace_id@),
            then_check(
                tenant_missing(db, self.tenant_id@),
                product_missing(db, self.namespace_id@, self.product_id@),
            ),
        )
    }

    fn validate_data_integrity<S: Store>(&self, store: &S) -> (r: Result<(), Error>) {
        check_namespace(store, &self.namespace_id)?;
        check_tenant(store, &self.tenant_id)?;
        check_product(store, &self.namespace_id, &self.product_id)
    }
}

impl ValidateDataIntegrityWithNamespace for UpdateRole {
    open spec fn looks_up(&self) -> bool {
        self.tenant_id is Some || self.product_id is Some
    }

    open spec fn integrity_failure_in(&self, db: Db, namespace: Seq<char>) -> Option<Failure> {
        then_check(
            match self.tenant_id {
                Some(t) => tenant_missing(db, t@),
                None => None,
            },
            match self.product_id {
                Some(p) => product_missing(db, namespace, p@),
                None => None,
            },
        )
    }

    fn validate_data_integrity_with_namespace<S: Store>(&self, store: &S, namespace: &String) -> (r:
        Result<(), Error>) {
        if let Some(t) = &self.tenant_id {
            check_tenant(store, t)?;
        }
        if let Some(p) = &self.product_id {
            check_product(store, namespace, p)?;
        }
        Ok(())
    }
}

impl ValidateDataIntegrity for NewUser {
    open spec fn looks_up(&self) -> bool {
        true
    }

    open spec fn integrity_failure(&self, db: Db) -> Option<Failure> {
        then_check(
            namespace_missing(db, self.namespace_id@),
            then_check(
                user_taken(db, self.external_provider.id@),
                missing_from(
                    Kind::Tenant,
                    first_missing(self.associated_tenants.deep_view(), db.tenants.dom()),
                ),
            ),
        )
    }

    fn validate_data_integrity<S: Store>(&self, store: &S) -> (r: Result<(), Error>) {
        check_namespace(store, &self.namespace_id)?;
        check_user_free(store, &self.external_provider.id)?;
        check_tenants(store, &self.associated_tenants)
    }
}

impl ValidateDataIntegrity for UpdateUser {
    open spec fn looks_up(&self) -> bool {
        self.external_provider is Some || (self.associated_tenants matches Some(ts) && ts@.len() > 0)
    }

    open spec fn integrity_failure(&self, db: Db) -> Option<Failure> {
        then_check(
            match self.external_provider {
                Some(p) => user_taken(db, p.id@),
                None => None,
            },
            match self.associated_tenants {
                Some(ts) => missing_from(Kind::Tenant, first_missing(ts.deep_view(), db.tenants.dom())),
                None => None,
            },
        )
    }

    fn validate_data_integrity<S: Store>(&self, store: &S) -> (r: Result<(), Error>) {
        if let Some(p) = &self.external_provider {
            check_user_free(store, &p.id)?;
        }
        if let Some(ts) = &self.associated_tenants {
            check_tenants(store, ts)?;
        }
        Ok(())
    }
}

impl ValidateDataIntegrity for NewOrganizationProfile {
    open spec fn looks_up(&self) -> bool {
        true
    }

    open spec fn integrity_failure(&self, db: Db) -> Option<Failure> {
        then_check(namespace_missing(db, self.namespace_id@), tenant_missing(db, self.tenant_id@))
    }

    fn validate_data_integrity<S: Store>(&self, store: &S) -> (r: Result<(), Error>) {
        check_namespace(store, &self.namespace_id)?;
        check_tenant(store, &self.tenant_id)
    }
}

} // verus!
