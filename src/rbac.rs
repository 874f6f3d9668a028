//! Authorization queries and their answers, the caller contexts that the
//! routing layer hands in, and the small records that travel with them.
use vstd::prelude::*;

verus! {

#[derive(Debug, Clone)]
pub struct IsAllowedRequest {
    pub external_user_id: String,
    pub tenant: String,
    pub product: String,
    pub resource: String,
    pub action: String,
}

#[derive(Debug, Clone, Copy, PartialEq, Eq, Structural)]
pub struct IsAllowedResult {
    pub result: bool,
}

/// The scope of an already verified caller token.
#[derive(Debug, Clone)]
pub struct TokenContext {
    pub namespace: String,
    pub tenant: String,
    pub product: String,
}

#[derive(Debug, Clone, Default)]
pub struct ProductTenantAwareContext {
    pub namespace: String,
    pub product_id: String,
    pub tenant_id: String,
}

#[derive(Debug, Clone, Default)]
pub struct EncryptedSecret {
    pub cyphertext: String,
    pub nonce: String,
}

#[derive(Debug, Clone, Default)]
pub struct MetaInput {
    pub meta: Option<serde_json::Value>,
}

/// The permission string `<resource>:<action>`.
pub open spec fn permission_of(resource: Seq<char>, action: Seq<char>) -> Seq<char> {
    resource + seq![':'] + action
}

pub fn permission(resource: &String, action: &String) -> (r: String)
    ensures
        r@ == permission_of(resource@, action@),
{
    let mut p = resource.clone();
    p.append(":");
    p.append(action.as_str());
    proof {
        reveal_strlit(":");
    }
    p
}

} // verus!
