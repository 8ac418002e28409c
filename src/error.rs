use vstd::prelude::*;

verus! {

/// The environment variables consulted when an option is left unset.
#[derive(Clone, Copy, Debug, PartialEq, Eq, Structural)]
pub enum EnvVar {
    NacosAddr,
    NacosNamespace,
    ServiceAddr,
    ServiceName,
    ServiceHost,
}

impl EnvVar {
    /// The variable's name in the process environment.
    pub open spec fn spec_name(self) -> Seq<char> {
        match self {
            EnvVar::NacosAddr => "NACOS_ADDR"@,
            EnvVar::NacosNamespace => "NACOS_NAMESPACE"@,
            EnvVar::ServiceAddr => "SERVICE_ADDR"@,
            EnvVar::ServiceName => "SERVICE_NAME"@,
            EnvVar::ServiceHost => "SERVICE_HOST"@,
        }
    }

    /// Whether resolution fails when neither the option nor the variable is set.
    pub open spec fn is_required(self) -> bool {
        self != EnvVar::ServiceHost
    }

    pub fn name(&self) -> (r: &'static str)
        ensures
            r@ == self.spec_name(),
    {
        match self {
            EnvVar::NacosAddr => "NACOS_ADDR",
            EnvVar::NacosNamespace => "NACOS_NAMESPACE",
            EnvVar::ServiceAddr => "SERVICE_ADDR",
            EnvVar::ServiceName => "SERVICE_NAME",
            EnvVar::ServiceHost => "SERVICE_HOST",
        }
    }

    /// Every variable, in the order in which resolution consults them.
    pub fn all() -> (r: Vec<EnvVar>)
        ensures
            r@ == seq![
                EnvVar::NacosAddr,
                EnvVar::NacosNamespace,
                EnvVar::ServiceAddr,
                EnvVar::ServiceName,
                EnvVar::ServiceHost,
            ],
    {
        vec![
            EnvVar::NacosAddr,
            EnvVar::NacosNamespace,
            EnvVar::ServiceAddr,
            EnvVar::ServiceName,
            EnvVar::ServiceHost,
        ]
    }
}

/// Every way that building, registering or deregistering a service can fail.
#[derive(Debug)]
pub enum EzError {
    /// A required setting is neither an option nor set in the environment.
    Env(EnvVar),
    /// The value is not a `host:port` socket address.
    Parse(String),
    /// The local IP address could not be determined; the text says why.
    LocalIP(String),
    /// The service address has no port after its last `:`, or the port is not
    /// a decimal number in `0..=65535`; holds the service address.
    Configuration(String),
    /// The registry client could not be built; the text says why.
    ClientInit(String),
    /// The registry refused or failed the register call.
    Registration(String),
    /// The registry refused or failed the deregister call.
    Deregistration(String),
}

} // verus!
