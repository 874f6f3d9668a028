//! The access-control decision engine: does a user hold a permission within
//! a tenant?
use crate::error::Error;
use crate::rbac::{permission, permission_of, IsAllowedRequest, IsAllowedResult};
use crate::store::{grants, Db, Store};
use vstd::prelude::*;

verus! {

/// Some role bound to `user_roles` exists in `db` and grants `perm` within
/// `tenant`.
pub open spec fn holds_permission(
    db: Db,
    user_roles: Seq<Seq<char>>,
    tenant: Seq<char>,
    perm: Seq<char>,
) -> bool {
    exists|k: Seq<char>|
        #![trigger user_roles.contains(k), db.roles.contains_key(k)]
        user_roles.contains(k) && db.roles.contains_key(k) && grants(db.roles[k], tenant, perm)
}

/// `r` is the engine's answer to `request` on `db`: an unknown user is an
/// error of its own, not a denial.
pub open spec fn decided(db: Db, request: IsAllowedRequest, r: Result<IsAllowedResult, Error>) -> bool {
    let user = request.external_user_id@;
    match r {
        Ok(answer) => db.users.contains_key(user) && answer.result == holds_permission(
            db,
            db.users[user].roles,
            request.tenant@,
            permission_of(request.resource@, request.action@),
        ),
        Err(Error::NotFound) => !db.users.contains_key(user),
        Err(Error::StorageFailure(_)) => true,
        Err(_) => false,
    }
}

/// Some role of namespace `ns` bound to `user_roles` exists in `db` and
/// grants `perm` within `tenant`.
pub open spec fn holds_permission_in(
    db: Db,
    ns: Seq<char>,
    user_roles: Seq<Seq<char>>,
    tenant: Seq<char>,
    perm: Seq<char>,
) -> bool {
    exists|k: Seq<char>|
        #![trigger user_roles.contains(k), db.roles.contains_key(k)]
        user_roles.contains(k) && db.roles.contains_key(k) && db.roles[k].namespace_id == ns
            && grants(db.roles[k], tenant, perm)
}

/// `r` is the engine's answer to `request` from a caller of namespace `ns`: a
/// user of another namespace is as unknown as a missing one.
pub open spec fn decided_in(
    db: Db,
    ns: Seq<char>,
    request: IsAllowedRequest,
    r: Result<IsAllowedResult, Error>,
) -> bool {
    let user = request.external_user_id@;
    let known = db.users.contains_key(user) && db.users[user].namespace_id == ns;
    match r {
        Ok(answer) => known && answer.result == holds_permission_in(
            db,
            ns,
            db.users[user].roles,
            request.tenant@,
            permission_of(request.resource@, request.action@),
        ),
        Err(Error::NotFound) => !known,
        Err(Error::StorageFailure(_)) => true,
        Err(_) => false,
    }
}

pub struct AccessControlEngine<S: Store> {
    pub store: S,
}

impl<S: Store> AccessControlEngine<S> {
    pub fn new(store: S) -> (e: AccessControlEngine<S>)
        ensures
            e.store == store,
    {
        AccessControlEngine { store }
    }

    /// Answers whether the request's user holds `<resource>:<action>` within
    /// the request's tenant. A user without roles is denied without a role
    /// lookup.
    pub fn is_allowed(&self, is_allowed_request: &IsAllowedRequest) -> (r: Result<
        IsAllowedResult,
        Error,
    >)
        requires
            self.store.inv(),
        ensures
            decided(self.store.db(), *is_allowed_request, r),
            r matches Err(Error::StorageFailure(m)) ==> self.store.fails_with(m),
    {
        let user = self.store.get_user(is_allowed_request.external_user_id.clone())?;
        if user.roles.len() == 0 {
            return Ok(IsAllowedResult { result: false });
        }
        let perm = permission(&is_allowed_request.resource, &is_allowed_request.action);
        let matching = self.store.get_roles_matching_request(
            &user.roles,
            &is_allowed_request.tenant,
            &perm,
        )?;
        let ghost db = self.store.db();
        let ghost ids = user.roles.deep_view();
        if matching.len() > 0 {
            let ghost k = matching@[0]@.id;
            assert(ids.contains(k) && db.roles.contains_key(k));
        }
        Ok(IsAllowedResult { result: matching.len() > 0 })
    }

    /// As `is_allowed`, for a caller scoped to `namespace`: only users and
    /// roles of that namespace count.
    pub fn is_allowed_in_namespace(
        &self,
        is_allowed_request: &IsAllowedRequest,
        namespace: &String,
    ) -> (r: Result<IsAllowedResult, Error>)
        requires
            self.store.inv(),
        ensures
            decided_in(self.store.db(), namespace@, *is_allowed_request, r),
            r matches Err(Error::StorageFailure(m)) ==> self.store.fails_with(m),
    {
        let user = self.store.get_user(is_allowed_request.external_user_id.clone())?;
        if user.namespace_id != *namespace {
            return Err(Error::NotFound);
        }
        if user.roles.len() == 0 {
            return Ok(IsAllowedResult { result: false });
        }
        let perm = permission(&is_allowed_request.resource, &is_allowed_request.action);
        let matching = self.store.get_roles_matching_request(
            &user.roles,
            &is_allowed_request.tenant,
            &perm,
        )?;
        let ghost db = self.store.db();
        let ghost ids = user.roles.deep_view();
        let mut i: usize = 0;
        while i < matching.len()
            invariant
                i <= matching.len(),
                db == self.store.db(),
                ids == user.roles.deep_view(),
                db.users.contains_key(is_allowed_request.external_user_id@),
                db.users[is_allowed_request.external_user_id@] == user@,
                user.namespace_id@ == namespace@,
                perm@ == permission_of(is_allowed_request.resource@, is_allowed_request.action@),
                forall|j: int| 0 <= j < i ==> (#[trigger] matching@[j]@).namespace_id != namespace@,
                forall|j: int|
                    0 <= j < matching.len() ==> {
                        let role = #[trigger] matching@[j]@;
                        &&& ids.contains(role.id)
                        &&& db.roles.contains_key(role.id)
                        &&& db.roles[role.id] == role
                        &&& grants(role, is_allowed_request.tenant@, perm@)
                    },
            decreases matching.len() - i,
        {
            if matching[i].namespace_id == *namespace {
                let ghost k = matching@[i as int]@.id;
                assert(ids.contains(k) && db.roles.contains_key(k));
                return Ok(IsAllowedResult { result: true });
            }
            i += 1;
        }
        assert forall|k: Seq<char>|
            #![trigger ids.contains(k), db.roles.contains_key(k)]
            ids.contains(k) && db.roles.contains_key(k) && db.roles[k].namespace_id == namespace@
                implies !grants(db.roles[k], is_allowed_request.tenant@, perm@) by {
            if grants(db.roles[k], is_allowed_request.tenant@, perm@) {
                let j = choose|j: int| 0 <= j < matching.len() && (#[trigger] matching@[j]@).id == k;
            }
        }
        Ok(IsAllowedResult { result: false })
    }
}

/// A known user with no roles is denied, unless the store fails.
pub proof fn lemma_no_roles_denied(db: Db, request: IsAllowedRequest, r: Result<IsAllowedResult, Error>)
    requires
        decided(db, request, r),
        !(r matches Err(Error::StorageFailure(_))),
        db.users.contains_key(request.external_user_id@),
        db.users[request.external_user_id@].roles.len() == 0,
    ensures
        r == Ok::<IsAllowedResult, Error>(IsAllowedResult { result: false }),
{
}

/// A user bound to an existing role that holds `<resource>:<action>` and is
/// scoped to the requested tenant is allowed, unless the store fails.
pub proof fn lemma_granting_role_allows(
    db: Db,
    request: IsAllowedRequest,
    role_id: Seq<char>,
    r: Result<IsAllowedResult, Error>,
)
    requires
        decided(db, request, r),
        !(r matches Err(Error::StorageFailure(_))),
        db.users.contains_key(request.external_user_id@),
        db.users[request.external_user_id@].roles.contains(role_id),
        db.roles.contains_key(role_id),
        db.roles[role_id].tenant_id == request.tenant@,
        db.roles[role_id].permissions.contains(
            permission_of(request.resource@, request.action@),
        ),
    ensures
        r == Ok::<IsAllowedResult, Error>(IsAllowedResult { result: true }),
{
}

/// A known user whose roles are all scoped to other tenants is denied within
/// this one, whatever permissions those roles hold, unless the store fails.
pub proof fn lemma_other_tenant_denied(
    db: Db,
    request: IsAllowedRequest,
    r: Result<IsAllowedResult, Error>,
)
    requires
        decided(db, request, r),
        !(r matches Err(Error::StorageFailure(_))),
        db.users.contains_key(request.external_user_id@),
        forall|k: Seq<char>|
            #![trigger db.roles.contains_key(k)]
            db.users[request.external_user_id@].roles.contains(k) && db.roles.contains_key(k)
                ==> db.roles[k].tenant_id != request.tenant@,
    ensures
        r == Ok::<IsAllowedResult, Error>(IsAllowedResult { result: false }),
{
}

} // verus!
