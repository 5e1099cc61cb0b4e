//! AWS identities, profile discovery, EC2 listings and the bookkeeping of
//! spawned instances.

pub mod discovery;
pub mod ec2;
pub mod launch;
pub mod spawn;

use vstd::prelude::*;
use crate::text::{
    after_last, after_last_exec, before_first, before_first_exec, chars_of, contains,
    contains_exec, string_from_chars,
};

verus! {

/// The kind of principal an ARN names, with its name.
#[derive(Debug)]
pub enum IdentityType {
    User(String),
    AssumedRole(String),
    FederatedUser(String),
    Unknown,
}

/// A caller identity as STS reports it.
#[derive(Debug)]
pub struct IdentityInfo {
    pub account: String,
    pub arn: String,
    pub identity_type: IdentityType,
}

/// The identity type an ARN gives: the first of `:user/`,
/// `:assumed-role/`, `:federated-user/` that occurs decides; the name is the
/// text after its last occurrence (for a role, up to the next `/`).
pub open spec fn identity_of_arn(arn: Seq<char>, t: IdentityType) -> bool {
    if contains(arn, ":user/"@) {
        t matches IdentityType::User(n) && n@ == after_last(arn, ":user/"@)
    } else if contains(arn, ":assumed-role/"@) {
        t matches IdentityType::AssumedRole(n) && n@ == before_first(
            after_last(arn, ":assumed-role/"@),
            "/"@,
        )
    } else if contains(arn, ":federated-user/"@) {
        t matches IdentityType::FederatedUser(n) && n@ == after_last(arn, ":federated-user/"@)
    } else {
        t is Unknown
    }
}

/// The label of an identity type.
pub open spec fn type_label(t: IdentityType) -> Seq<char> {
    match t {
        IdentityType::User(_) => "IAM User"@,
        IdentityType::AssumedRole(_) => "Assumed Role"@,
        IdentityType::FederatedUser(_) => "Federated User"@,
        IdentityType::Unknown => "Unknown"@,
    }
}

/// The name an identity type carries, `unknown` when it carries none.
pub open spec fn type_name_of(t: IdentityType) -> Seq<char> {
    match t {
        IdentityType::User(n) => n@,
        IdentityType::AssumedRole(n) => n@,
        IdentityType::FederatedUser(n) => n@,
        IdentityType::Unknown => "unknown"@,
    }
}

impl IdentityInfo {
    pub fn from_arn(arn: &str, account: &str) -> (res: Self)
        ensures
            res.account@ == account@,
            res.arn@ == arn@,
            identity_of_arn(arn@, res.identity_type),
    {
        let a = chars_of(arn);
        let user = chars_of(":user/");
        let role = chars_of(":assumed-role/");
        let fed = chars_of(":federated-user/");
        let identity_type = if contains_exec(&a, &user) {
            let n = after_last_exec(&a, &user);
            IdentityType::User(string_from_chars(&n))
        } else if contains_exec(&a, &role) {
            let rest = after_last_exec(&a, &role);
            let n = before_first_exec(&rest, &chars_of("/"));
            IdentityType::AssumedRole(string_from_chars(&n))
        } else if contains_exec(&a, &fed) {
            let n = after_last_exec(&a, &fed);
            IdentityType::FederatedUser(string_from_chars(&n))
        } else {
            IdentityType::Unknown
        };
        IdentityInfo {
            account: account.to_string(),
            arn: arn.to_string(),
            identity_type,
        }
    }

    pub fn kind_name(&self) -> (res: &str)
        ensures
            res@ == type_label(self.identity_type),
    {
        match &self.identity_type {
            IdentityType::User(_) => "IAM User",
            IdentityType::AssumedRole(_) => "Assumed Role",
            IdentityType::FederatedUser(_) => "Federated User",
            IdentityType::Unknown => "Unknown",
        }
    }

    pub fn name(&self) -> (res: &str)
        ensures
            res@ == type_name_of(self.identity_type),
    {
        match &self.identity_type {
            IdentityType::User(n) => n.as_str(),
            IdentityType::AssumedRole(n) => n.as_str(),
            IdentityType::FederatedUser(n) => n.as_str(),
            IdentityType::Unknown => "unknown",
        }
    }
}

} // verus!
