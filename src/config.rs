//! The fixed names of the privileged component and the registration that
//! lets it attach to the file-system filter stack.

use vstd::prelude::*;

verus! {

/// How the service is started.
#[derive(Clone, Copy, Debug, PartialEq, Eq, Structural)]
pub enum StartPolicy {
    /// Started only when explicitly asked to.
    Demand,
    /// Started by the system at boot.
    Automatic,
}

/// How a failure to start the service is treated by the system.
#[derive(Clone, Copy, Debug, PartialEq, Eq, Structural)]
pub enum ErrorSeverity {
    /// Logged, startup goes on.
    Normal,
    /// Startup fails.
    Critical,
}

/// The class of the service.
#[derive(Clone, Copy, Debug, PartialEq, Eq, Structural)]
pub enum ServiceKind {
    /// A file-system filter-class component.
    FileSystemDriver,
    /// Any other kernel-mode component.
    KernelDriver,
}

/// The names that identify the privileged component. Fixed for a given
/// deployment and handed explicitly to each step.
pub struct ServiceConfig {
    /// Name of the service registration.
    pub service_name: String,
    /// Name of the communication endpoint exposed by the component.
    pub port_name: String,
    /// Attachment altitude reserved for the component, as a decimal string.
    pub altitude: String,
    /// Name of the privilege needed to load the component.
    pub privilege_name: String,
}

/// Everything that registering the component writes to the service
/// configuration store.
pub struct Registration {
    pub service_name: String,
    pub binary_path: String,
    pub kind: ServiceKind,
    pub start: StartPolicy,
    pub severity: ErrorSeverity,
    /// Name of the entry created under `Instances`.
    pub instance_name: String,
    /// Value of `DefaultInstance`, under `Instances`.
    pub default_instance: String,
    /// Value of `Altitude`, under the named instance.
    pub altitude: String,
}

/// The name of the attachment instance of a service.
pub open spec fn instance_name_of(service_name: Seq<char>) -> Seq<char> {
    service_name + " Instance"@
}

/// The file name of the component's image.
pub open spec fn image_file_name_of(service_name: Seq<char>) -> Seq<char> {
    service_name + ".sys"@
}

/// The path, under the local machine's configuration root, of the service's
/// configuration key.
pub open spec fn service_key_path_of(service_name: Seq<char>) -> Seq<char> {
    "SYSTEM\\CurrentControlSet\\Services\\"@ + service_name
}

impl ServiceConfig {
    /// The names of the deployed component.
    pub fn standard() -> (r: ServiceConfig)
        ensures
            r.service_name@ == "probmon"@,
            r.port_name@ == "\\ITM_Mon"@,
            r.altitude@ == "145610"@,
            r.privilege_name@ == "SeLoadDriverPrivilege"@,
    {
        ServiceConfig {
            service_name: String::from_str("probmon"),
            port_name: String::from_str("\\ITM_Mon"),
            altitude: String::from_str("145610"),
            privilege_name: String::from_str("SeLoadDriverPrivilege"),
        }
    }

    /// `"<service name> Instance"`.
    pub fn instance_name(&self) -> (r: String)
        ensures
            r@ == instance_name_of(self.service_name@),
    {
        self.service_name.clone().concat(" Instance")
    }

    /// `"<service name>.sys"`.
    pub fn image_file_name(&self) -> (r: String)
        ensures
            r@ == image_file_name_of(self.service_name@),
    {
        self.service_name.clone().concat(".sys")
    }

    /// The configuration key of the service.
    pub fn service_key_path(&self) -> (r: String)
        ensures
            r@ == service_key_path_of(self.service_name@),
    {
        let mut p = String::from_str("SYSTEM\\CurrentControlSet\\Services\\");
        p.append(self.service_name.as_str());
        p
    }

    /// The key under the service's configuration key that holds its
    /// attachment instances.
    pub fn instances_key_name(&self) -> (r: String)
        ensures
            r@ == "Instances"@,
    {
        String::from_str("Instances")
    }

    /// The value, under `Instances`, that names the default instance.
    pub fn default_instance_value_name(&self) -> (r: String)
        ensures
            r@ == "DefaultInstance"@,
    {
        String::from_str("DefaultInstance")
    }

    /// The value, under an instance key, that holds its altitude.
    pub fn altitude_value_name(&self) -> (r: String)
        ensures
            r@ == "Altitude"@,
    {
        String::from_str("Altitude")
    }

    /// The registration of the component whose image lies at `binary_path`:
    /// a demand-started file-system filter with normal error severity, one
    /// instance named after the service, that instance as the default one,
    /// and the reserved altitude.
    pub fn registration(&self, binary_path: &str) -> (r: Registration)
        ensures
            r.service_name@ == self.service_name@,
            r.binary_path@ == binary_path@,
            r.kind == ServiceKind::FileSystemDriver,
            r.start == StartPolicy::Demand,
            r.severity == ErrorSeverity::Normal,
            r.instance_name@ == instance_name_of(self.service_name@),
            r.default_instance@ == instance_name_of(self.service_name@),
            r.altitude@ == self.altitude@,
    {
        Registration {
            service_name: self.service_name.clone(),
            binary_path: String::from_str(binary_path),
            kind: ServiceKind::FileSystemDriver,
            start: StartPolicy::Demand,
            severity: ErrorSeverity::Normal,
            instance_name: self.instance_name(),
            default_instance: self.instance_name(),
            altitude: self.altitude.clone(),
        }
    }
}

} // verus!
