//! Registers and deregisters a service instance with a Nacos naming service.
//!
//! The library resolves the configuration (explicit options first, then a
//! snapshot of the environment), validates it, and builds the instance
//! descriptor together with the register / deregister requests. Reading the
//! environment, parsing socket addresses and talking to the registry are left
//! to the caller, which hands the outcomes back as plain values.

pub mod config;
pub mod error;
pub mod instance;
pub mod manager;
mod outside;

pub use config::{
    check_addresses, choose_service_host, resolve, service_host_or_local, Environment,
    ServeOptions, Settings,
};
pub use error::{EnvVar, EzError};
pub use instance::{build_instance, parse_port, port_text, ServiceInstance};
pub use manager::{RegistryAction, RegistryCall, ServiceManager};
