//! The identity of a service: its name and its version.

use vstd::prelude::*;
use vstd::string::*;

verus! {

/// What a settings provider says of the service that it configures.
pub trait ServiceInfo {
    /// Name under which the service logs, subscribes and reports.
    fn get_service_name(&self) -> String;

    /// Version of the service.
    fn get_service_version(&self) -> String;
}

/// Name and version of a service.
pub struct ServiceIdentity {
    pub name: String,
    pub version: String,
}

impl ServiceInfo for ServiceIdentity {
    fn get_service_name(&self) -> (name: String)
        ensures
            name@ == self.name@,
    {
        self.name.clone()
    }

    fn get_service_version(&self) -> (version: String)
        ensures
            version@ == self.version@,
    {
        self.version.clone()
    }
}

/// The view of an optional string slice.
pub open spec fn optional_text(text: Option<&str>) -> Option<Seq<char>> {
    match text {
        Some(t) => Some(t@),
        None => None,
    }
}

/// The name of a service: the name of its package, followed by a hyphen
/// and the suffix of the deployment where there is one.
pub open spec fn service_name(package_name: Seq<char>, suffix: Option<Seq<char>>) -> Seq<char> {
    match suffix {
        Some(s) => package_name + seq!['-'] + s,
        None => package_name,
    }
}

/// The identity that a provider reports when it is generated for a
/// package: the version is that of the package, and the name is that of
/// the package, extended by the suffix of the deployment if one is set.
pub fn generate_sdk_settings_traits(
    package_name: &str,
    package_version: &str,
    name_suffix: Option<&str>,
) -> (identity: ServiceIdentity)
    ensures
        identity.name@ == service_name(package_name@, optional_text(name_suffix)),
        identity.version@ == package_version@,
{
    let mut name = String::from_str(package_name);
    match name_suffix {
        Some(suffix) => {
            proof {
                reveal_strlit("-");
                assert("-"@ =~= seq!['-']);
            }
            name.append("-");
            name.append(suffix);
        },
        None => {},
    }
    ServiceIdentity { name, version: String::from_str(package_version) }
}

} // verus!
