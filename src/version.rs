use vstd::prelude::*;
use vstd::string::*;
use crate::error::ContractError;

verus! {

/// How two version texts compare under semver's `Version` ordering: whether the first
/// precedes the second, or `None` where either is not a version.
pub uninterp spec fn semver_order(a: Seq<char>, b: Seq<char>) -> Option<bool>;

/// Relies on `semver::Version::parse` for both texts and on `Version`'s
/// derived ordering (SemVer precedence, with build metadata compared last).
#[verifier::external_body]
fn version_precedes(a: &str, b: &str) -> (r: Result<bool, String>)
    ensures
        r matches Ok(x) ==> semver_order(a@, b@) == Some(x),
        r is Err ==> semver_order(a@, b@) is None,
{
    let x = semver::Version::parse(a).map_err(|e| e.to_string())?;
    let y = semver::Version::parse(b).map_err(|e| e.to_string())?;
    Ok(x < y)
}

/// Decides an upgrade of a contract that recorded `stored_contract` at
/// `stored_version` to `name` at `current_version`: the names must match,
/// both versions must parse, and the stored version must precede the current
/// one; the caller then records the current version.
pub fn plan_migration(
    stored_contract: &String,
    stored_version: &String,
    name: &String,
    current_version: &String,
) -> (r: Result<(), ContractError>)
    ensures
        stored_contract@ != name@ ==> r matches Err(ContractError::MigrationError { .. }),
        stored_contract@ == name@ ==> match semver_order(stored_version@, current_version@) {
            Some(true) => r is Ok,
            Some(false) => r matches Err(ContractError::MigrationError { .. }),
            None => r matches Err(ContractError::SemVer { .. }),
        },
{
    if *stored_contract != *name {
        return Err(ContractError::MigrationError { val: String::from_str("Contract name not match") });
    }
    match version_precedes(stored_version.as_str(), current_version.as_str()) {
        Ok(true) => Ok(()),
        Ok(false) => Err(ContractError::MigrationError { val: String::from_str("Not a newer version") }),
        Err(val) => Err(ContractError::SemVer { val }),
    }
}

} // verus!
