use vstd::prelude::*;

verus! {

/// The error that `local_ip_address` reports when it cannot find the address.
#[verifier::external_type_specification]
#[verifier::external_body]
pub struct ExLocalIpError(local_ip_address::Error);

/// Relies on `local_ip_address::local_ip`: the machine's local IPv4 address,
/// written in dotted form, or the reason it could not be found. What comes
/// back depends on the machine's interfaces, so nothing more is stated.
#[verifier::external_body]
pub(crate) fn local_ip_text() -> (r: Result<String, local_ip_address::Error>) {
    match local_ip_address::local_ip() {
        Ok(ip) => Ok(ip.to_string()),
        Err(e) => Err(e),
    }
}

/// Relies on `nacos_sdk::api::constants::DEFAULT_GROUP`, the group under
/// which the registry files a service when the caller names none; its source
/// defines it as `"DEFAULT_GROUP"`.
#[verifier::external_body]
pub(crate) fn registry_default_group() -> (r: String)
    ensures
        r@ == "DEFAULT_GROUP"@,
{
    nacos_sdk::api::constants::DEFAULT_GROUP.to_string()
}

} // verus!
