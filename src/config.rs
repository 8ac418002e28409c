use vstd::prelude::*;

use crate::error::{EnvVar, EzError};
use crate::outside::local_ip_text;


verus! {

/// The settings a caller may give explicitly; an unset one falls back to its
/// environment variable.
pub struct ServeOptions {
    pub addr: Option<String>,
    pub namespace: Option<String>,
    pub service_addr: Option<String>,
    pub service_name: Option<String>,
    pub service_host: Option<String>,
}

impl ServeOptions {
    /// The option that stands for the variable `v`.
    pub open spec fn option_for(self, v: EnvVar) -> Option<String> {
        match v {
            EnvVar::NacosAddr => self.addr,
            EnvVar::NacosNamespace => self.namespace,
            EnvVar::ServiceAddr => self.service_addr,
            EnvVar::ServiceName => self.service_name,
            EnvVar::ServiceHost => self.service_host,
        }
    }

    pub open spec fn all_given(self) -> bool {
        &&& self.addr is Some
        &&& self.namespace is Some
        &&& self.service_addr is Some
        &&& self.service_name is Some
        &&& self.service_host is Some
    }
}

impl Default for ServeOptions {
    fn default() -> (r: Self)
        ensures
            r.addr is None,
            r.namespace is None,
            r.service_addr is None,
            r.service_name is None,
            r.service_host is None,
    {
        ServeOptions {
            addr: None,
            namespace: None,
            service_addr: None,
            service_name: None,
            service_host: None,
        }
    }
}

/// A snapshot of the environment variables that resolution may read; `None`
/// where a variable is unset.
pub struct Environment {
    pub nacos_addr: Option<String>,
    pub nacos_namespace: Option<String>,
    pub service_addr: Option<String>,
    pub service_name: Option<String>,
    pub service_host: Option<String>,
}

impl Environment {
    pub open spec fn lookup(self, v: EnvVar) -> Option<String> {
        match v {
            EnvVar::NacosAddr => self.nacos_addr,
            EnvVar::NacosNamespace => self.nacos_namespace,
            EnvVar::ServiceAddr => self.service_addr,
            EnvVar::ServiceName => self.service_name,
            EnvVar::ServiceHost => self.service_host,
        }
    }

    /// An environment in which no variable is set.
    pub fn empty() -> (r: Self)
        ensures
            forall|v: EnvVar| r.lookup(v) is None,
    {
        Environment {
            nacos_addr: None,
            nacos_namespace: None,
            service_addr: None,
            service_name: None,
            service_host: None,
        }
    }

    /// Records that the variable `v` holds `value`.
    pub fn set(&mut self, v: EnvVar, value: String)
        ensures
            final(self).lookup(v) == Some(value),
            forall|w: EnvVar| w != v ==> final(self).lookup(w) == old(self).lookup(w),
    {
        match v {
            EnvVar::NacosAddr => self.nacos_addr = Some(value),
            EnvVar::NacosNamespace => self.nacos_namespace = Some(value),
            EnvVar::ServiceAddr => self.service_addr = Some(value),
            EnvVar::ServiceName => self.service_name = Some(value),
            EnvVar::ServiceHost => self.service_host = Some(value),
        }
    }

    /// The variable's value, if it is set.
    pub fn get(&self, v: EnvVar) -> (r: Option<String>)
        ensures
            r == self.lookup(v),
    {
        let slot = match v {
            EnvVar::NacosAddr => &self.nacos_addr,
            EnvVar::NacosNamespace => &self.nacos_namespace,
            EnvVar::ServiceAddr => &self.service_addr,
            EnvVar::ServiceName => &self.service_name,
            EnvVar::ServiceHost => &self.service_host,
        };
        match slot {
            Some(s) => Some(s.clone()),
            None => None,
        }
    }
}

/// The resolved settings; `service_host` is `None` where neither the option
/// nor `SERVICE_HOST` gives one.
pub struct Settings {
    pub addr: String,
    pub namespace: String,
    pub service_addr: String,
    pub service_name: String,
    pub service_host: Option<String>,
}

impl Settings {
    /// The resolved value that stands for the variable `v`.
    pub open spec fn value_for(self, v: EnvVar) -> Option<String> {
        match v {
            EnvVar::NacosAddr => Some(self.addr),
            EnvVar::NacosNamespace => Some(self.namespace),
            EnvVar::ServiceAddr => Some(self.service_addr),
            EnvVar::ServiceName => Some(self.service_name),
            EnvVar::ServiceHost => self.service_host,
        }
    }
}

/// An explicit value wins over the environment's.
pub open spec fn prefer(explicit: Option<String>, fallback: Option<String>) -> Option<String> {
    match explicit {
        Some(s) => Some(s),
        None => fallback,
    }
}

/// The value that resolution takes for the variable `v`.
pub open spec fn chosen(opt: ServeOptions, env: Environment, v: EnvVar) -> Option<String> {
    prefer(opt.option_for(v), env.lookup(v))
}

/// What resolution yields: each setting from its option or else from its
/// variable; the first required setting that has neither is reported.
pub open spec fn resolve_spec(opt: ServeOptions, env: Environment) -> Result<Settings, EzError> {
    match chosen(opt, env, EnvVar::NacosAddr) {
        None => Err(EzError::Env(EnvVar::NacosAddr)),
        Some(addr) => match chosen(opt, env, EnvVar::NacosNamespace) {
            None => Err(EzError::Env(EnvVar::NacosNamespace)),
            Some(namespace) => match chosen(opt, env, EnvVar::ServiceAddr) {
                None => Err(EzError::Env(EnvVar::ServiceAddr)),
                Some(service_addr) => match chosen(opt, env, EnvVar::ServiceName) {
                    None => Err(EzError::Env(EnvVar::ServiceName)),
                    Some(service_name) => Ok(
                        Settings {
                            addr,
                            namespace,
                            service_addr,
                            service_name,
                            service_host: chosen(opt, env, EnvVar::ServiceHost),
                        },
                    ),
                },
            },
        },
    }
}

fn pick(explicit: Option<String>, env: &Environment, v: EnvVar) -> (r: Option<String>)
    ensures
        r == prefer(explicit, env.lookup(v)),
{
    match explicit {
        Some(s) => Some(s),
        None => env.get(v),
    }
}

/// Resolves every setting from `opt`, falling back to `env` for each one that
/// is unset.
pub fn resolve(opt: ServeOptions, env: &Environment) -> (r: Result<Settings, EzError>)
    ensures
        r == resolve_spec(opt, *env),
{
    let ghost o = opt;
    let addr = match pick(opt.addr, env, EnvVar::NacosAddr) {
        Some(s) => s,
        None => return Err(EzError::Env(EnvVar::NacosAddr)),
    };
    let namespace = match pick(opt.namespace, env, EnvVar::NacosNamespace) {
        Some(s) => s,
        None => return Err(EzError::Env(EnvVar::NacosNamespace)),
    };
    let service_addr = match pick(opt.service_addr, env, EnvVar::ServiceAddr) {
        Some(s) => s,
        None => return Err(EzError::Env(EnvVar::ServiceAddr)),
    };
    let service_name = match pick(opt.service_name, env, EnvVar::ServiceName) {
        Some(s) => s,
        None => return Err(EzError::Env(EnvVar::ServiceName)),
    };
    let service_host = pick(opt.service_host, env, EnvVar::ServiceHost);
    Ok(Settings { addr, namespace, service_addr, service_name, service_host })
}

} // verus!

verus! {

/// The socket-address checks on resolved settings: `addr_is_socket` and
/// `service_addr_is_socket` say whether `settings.addr` and
/// `settings.service_addr` parse as `host:port` socket addresses.
pub open spec fn check_spec(
    settings: Settings,
    addr_is_socket: bool,
    service_addr_is_socket: bool,
) -> Result<Settings, EzError> {
    if !addr_is_socket {
        Err(EzError::Parse(settings.addr))
    } else if !service_addr_is_socket {
        Err(EzError::Parse(settings.service_addr))
    } else {
        Ok(settings)
    }
}

/// Rejects settings whose registry address or service address is not a
/// socket address, naming the offending value; the registry address is
/// checked first.
pub fn check_addresses(settings: Settings, addr_is_socket: bool, service_addr_is_socket: bool) -> (r:
    Result<Settings, EzError>)
    ensures
        r == check_spec(settings, addr_is_socket, service_addr_is_socket),
{
    if !addr_is_socket {
        Err(EzError::Parse(settings.addr))
    } else if !service_addr_is_socket {
        Err(EzError::Parse(settings.service_addr))
    } else {
        Ok(settings)
    }
}

/// The published host: the resolved one where there is one, else the
/// detected local address, else a `LocalIP` error carrying the reason.
pub open spec fn host_spec(host: Option<String>, detected: Result<String, String>) -> Result<
    String,
    EzError,
> {
    match host {
        Some(h) => Ok(h),
        None => match detected {
            Ok(ip) => Ok(ip),
            Err(why) => Err(EzError::LocalIP(why)),
        },
    }
}

/// Picks the published host from the resolved one and the outcome of local
/// address detection.
pub fn choose_service_host(host: Option<String>, detected: Result<String, String>) -> (r: Result<
    String,
    EzError,
>)
    ensures
        r == host_spec(host, detected),
{
    match host {
        Some(h) => Ok(h),
        None => match detected {
            Ok(ip) => Ok(ip),
            Err(why) => Err(EzError::LocalIP(why)),
        },
    }
}

/// The published host: the resolved one, or else the machine's local IP
/// address, which is looked up only in that case.
pub fn service_host_or_local(host: Option<String>) -> (r: Result<String, EzError>)
    ensures
        host is Some ==> r == Ok::<String, EzError>(host->0),
        host is None ==> exists|detected: Result<String, String>| r == host_spec(host, detected),
{
    match host {
        Some(h) => Ok(h),
        None => {
            let detected = match local_ip_text() {
                Ok(ip) => Ok(ip),
                Err(e) => Err(e.to_string()),
            };
            let r = choose_service_host(None, detected);
            assert(r == host_spec(host, detected));
            r
        },
    }
}

} // verus!

verus! {

/// When every option is given, resolution yields exactly the options and the
/// environment plays no part.
pub proof fn lemma_explicit_options_ignore_environment(
    opt: ServeOptions,
    env1: Environment,
    env2: Environment,
)
    requires
        opt.all_given(),
    ensures
        resolve_spec(opt, env1) == resolve_spec(opt, env2),
        resolve_spec(opt, env1) == Ok::<Settings, EzError>(
            Settings {
                addr: opt.addr->0,
                namespace: opt.namespace->0,
                service_addr: opt.service_addr->0,
                service_name: opt.service_name->0,
                service_host: opt.service_host,
            },
        ),
{
}

/// An unset option is read from its own variable: the resolved value is that
/// variable's value. Where the variable is unset too and the setting is
/// required, resolution fails with an `Env` error that names an unset
/// variable, and names this one when no other required setting is missing.
pub proof fn lemma_unset_option_reads_its_variable(opt: ServeOptions, env: Environment, v: EnvVar)
    requires
        opt.option_for(v) is None,
    ensures
        resolve_spec(opt, env) is Ok ==> resolve_spec(opt, env)->Ok_0.value_for(v) == env.lookup(
            v,
        ),
        v.is_required() && env.lookup(v) is None ==> (resolve_spec(opt, env) matches Err(
            EzError::Env(w),
        ) && w.is_required() && chosen(opt, env, w) is None),
        v.is_required() && env.lookup(v) is None && (forall|w: EnvVar|
            #![trigger chosen(opt, env, w)]
            w.is_required() && w != v ==> chosen(opt, env, w) is Some) ==> resolve_spec(opt, env)
            == Err::<Settings, EzError>(EzError::Env(v)),
{
    if v.is_required() && env.lookup(v) is None && (forall|w: EnvVar|
        #![trigger chosen(opt, env, w)]
        w.is_required() && w != v ==> chosen(opt, env, w) is Some) {
        assert(chosen(opt, env, EnvVar::NacosAddr) is Some || v == EnvVar::NacosAddr);
        assert(chosen(opt, env, EnvVar::NacosNamespace) is Some || v == EnvVar::NacosNamespace);
        assert(chosen(opt, env, EnvVar::ServiceAddr) is Some || v == EnvVar::ServiceAddr);
        assert(chosen(opt, env, EnvVar::ServiceName) is Some || v == EnvVar::ServiceName);
    }
}

/// An address that does not parse as a socket address is rejected with a
/// `Parse` error that names it; the registry address is reported first.
pub proof fn lemma_bad_address_is_parse_error(
    settings: Settings,
    addr_is_socket: bool,
    service_addr_is_socket: bool,
)
    requires
        !addr_is_socket || !service_addr_is_socket,
    ensures
        check_spec(settings, addr_is_socket, service_addr_is_socket) matches Err(EzError::Parse(v))
            && if !addr_is_socket {
            v == settings.addr
        } else {
            v == settings.service_addr
        },
{
}

} // verus!
