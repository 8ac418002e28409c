use vstd::prelude::*;

use crate::config::{check_addresses, check_spec, service_host_or_local, Settings};
use crate::error::EzError;
use crate::instance::{build_instance, builds, ServiceInstance};
use crate::outside::registry_default_group;

verus! {

/// Everything needed to register one service instance and to take it off
/// the registry again: where the registry is, and what to publish there.
pub struct ServiceManager {
    pub registry_addr: String,
    pub namespace: String,
    pub service_name: String,
    pub service_instance: ServiceInstance,
}

/// Whether `r` is the manager built from `settings` that publishes `ip`, or
/// the error that building its instance yields.
pub open spec fn assembles(settings: Settings, ip: String, r: Result<ServiceManager, EzError>) -> bool {
    match r {
        Ok(m) => {
            &&& m.registry_addr == settings.addr
            &&& m.namespace == settings.namespace
            &&& m.service_name == settings.service_name
            &&& builds(settings.service_addr@, ip, Ok(m.service_instance))
        },
        Err(e) => builds(settings.service_addr@, ip, Err(e)),
    }
}

/// The two calls that a manager makes on the registry.
#[derive(Clone, Copy, Debug, PartialEq, Eq, Structural)]
pub enum RegistryAction {
    Register,
    Deregister,
}

/// One request to the registry, borrowed from the manager that makes it.
pub struct RegistryCall<'a> {
    pub action: RegistryAction,
    pub service_name: &'a String,
    /// The registry's default group, under which every instance is filed.
    pub group: String,
    pub instance: &'a ServiceInstance,
}

/// What a registry call reports: success, or the registry's reason wrapped
/// in the error of the action that failed.
pub open spec fn outcome_spec(action: RegistryAction, result: Result<(), String>) -> Result<
    (),
    EzError,
> {
    match result {
        Ok(()) => Ok(()),
        Err(why) => match action {
            RegistryAction::Register => Err(EzError::Registration(why)),
            RegistryAction::Deregister => Err(EzError::Deregistration(why)),
        },
    }
}

impl<'a> RegistryCall<'a> {
    /// Whether this is the request for `action` of the manager `m`.
    pub open spec fn requests(&self, m: ServiceManager, action: RegistryAction) -> bool {
        &&& self.action == action
        &&& *self.service_name == m.service_name
        &&& self.group@ == "DEFAULT_GROUP"@
        &&& *self.instance == m.service_instance
    }

    /// Turns what the registry answered into this call's result.
    pub fn outcome(&self, result: Result<(), String>) -> (r: Result<(), EzError>)
        ensures
            r == outcome_spec(self.action, result),
    {
        match result {
            Ok(()) => Ok(()),
            Err(why) => match self.action {
                RegistryAction::Register => Err(EzError::Registration(why)),
                RegistryAction::Deregister => Err(EzError::Deregistration(why)),
            },
        }
    }
}

impl ServiceManager {
    /// Builds the manager for resolved `settings` that publishes `ip`.
    pub fn with_host(settings: Settings, ip: String) -> (r: Result<ServiceManager, EzError>)
        ensures
            assembles(settings, ip, r),
    {
        let instance = build_instance(&settings.service_addr, ip);
        match instance {
            Ok(inst) => Ok(
                ServiceManager {
                    registry_addr: settings.addr,
                    namespace: settings.namespace,
                    service_name: settings.service_name,
                    service_instance: inst,
                },
            ),
            Err(e) => Err(e),
        }
    }

    /// Builds the manager for resolved `settings`. `addr_is_socket` and
    /// `service_addr_is_socket` say whether the two addresses parse as
    /// socket addresses. The published host is the resolved one, or else the
    /// machine's local IP address.
    pub fn new(settings: Settings, addr_is_socket: bool, service_addr_is_socket: bool) -> (r: Result<
        ServiceManager,
        EzError,
    >)
        ensures
            check_spec(settings, addr_is_socket, service_addr_is_socket) is Err ==> r is Err
                && r->Err_0 == check_spec(settings, addr_is_socket, service_addr_is_socket)->Err_0,
            check_spec(settings, addr_is_socket, service_addr_is_socket) is Ok
                && settings.service_host is Some ==> assembles(
                settings,
                settings.service_host->0,
                r,
            ),
            check_spec(settings, addr_is_socket, service_addr_is_socket) is Ok
                && settings.service_host is None ==> r matches Err(EzError::LocalIP(_)) || exists|
                ip: String,
            | assembles(settings, ip, r),
    {
        let settings = match check_addresses(settings, addr_is_socket, service_addr_is_socket) {
            Ok(s) => s,
            Err(e) => return Err(e),
        };
        let host = match &settings.service_host {
            Some(h) => Some(h.clone()),
            None => None,
        };
        let ip = match service_host_or_local(host) {
            Ok(ip) => ip,
            Err(e) => return Err(e),
        };
        ServiceManager::with_host(settings, ip)
    }

    /// The request that puts the instance on the registry.
    pub fn online(&self) -> (r: RegistryCall<'_>)
        ensures
            r.requests(*self, RegistryAction::Register),
    {
        RegistryCall {
            action: RegistryAction::Register,
            service_name: &self.service_name,
            group: registry_default_group(),
            instance: &self.service_instance,
        }
    }

    /// The request that takes the instance off the registry.
    pub fn offline(&self) -> (r: RegistryCall<'_>)
        ensures
            r.requests(*self, RegistryAction::Deregister),
    {
        RegistryCall {
            action: RegistryAction::Deregister,
            service_name: &self.service_name,
            group: registry_default_group(),
            instance: &self.service_instance,
        }
    }
}

} // verus!

verus! {

/// The deregister request names the same service, group and instance as
/// the register request of the same manager.
pub proof fn lemma_offline_repeats_online(m: ServiceManager, on: RegistryCall, off: RegistryCall)
    requires
        on.requests(m, RegistryAction::Register),
        off.requests(m, RegistryAction::Deregister),
    ensures
        *on.service_name == *off.service_name,
        on.group@ == off.group@,
        *on.instance == *off.instance,
{
}

/// A register call that the registry fails is reported as a `Registration`
/// error carrying the registry's reason, and a successful one as success.
pub proof fn lemma_failed_register_is_reported(call: RegistryCall, result: Result<(), String>)
    requires
        call.action == RegistryAction::Register,
    ensures
        result is Ok ==> outcome_spec(call.action, result) is Ok,
        result is Err ==> outcome_spec(call.action, result) == Err::<(), EzError>(
            EzError::Registration(result->Err_0),
        ),
{
}

} // verus!
