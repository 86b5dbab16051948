//! The resource descriptor: the identity of the process that every exported
//! signal carries.

use vstd::prelude::*;
use crate::oltp::{get_env_or_default, text_view, value_or};

verus! {

/// The identity of the process: which service, which version, which
/// deployment environment. It is made once and never changed.
#[derive(Clone, Debug)]
pub struct Resource {
    pub service_name: String,
    pub service_version: String,
    pub environment: String,
}

/// The mathematical content of a [`Resource`].
pub struct ResourceView {
    pub service_name: Seq<char>,
    pub service_version: Seq<char>,
    pub environment: Seq<char>,
}

impl View for Resource {
    type V = ResourceView;

    open spec fn view(&self) -> ResourceView {
        ResourceView {
            service_name: self.service_name@,
            service_version: self.service_version@,
            environment: self.environment@,
        }
    }
}

/// The deployment environment of a process for which none is configured.
pub open spec fn default_environment() -> Seq<char> {
    "development"@
}

/// Describes the process from its build metadata and the configured
/// deployment environment, `development` where none is configured.
pub fn get_resource(
    service_name: &str,
    service_version: &str,
    environment: Option<String>,
) -> (resource: Resource)
    ensures
        resource@ == (ResourceView {
            service_name: service_name@,
            service_version: service_version@,
            environment: value_or(text_view(environment), default_environment()),
        }),
{
    Resource {
        service_name: String::from_str(service_name),
        service_version: String::from_str(service_version),
        environment: get_env_or_default(environment, String::from_str("development")),
    }
}

} // verus!
