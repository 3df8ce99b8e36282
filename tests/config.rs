use s4killer::config::{ErrorSeverity, ServiceConfig, ServiceKind, StartPolicy};

#[test]
fn standard_names() {
    let c = ServiceConfig::standard();
    assert_eq!(c.service_name, "probmon");
    assert_eq!(c.port_name, "\\ITM_Mon");
    assert_eq!(c.altitude, "145610");
    assert_eq!(c.privilege_name, "SeLoadDriverPrivilege");
}

#[test]
fn derived_names() {
    let c = ServiceConfig::standard();
    assert_eq!(c.instance_name(), "probmon Instance");
    assert_eq!(c.image_file_name(), "probmon.sys");
    assert_eq!(c.service_key_path(), "SYSTEM\\CurrentControlSet\\Services\\probmon");
    assert_eq!(c.instances_key_name(), "Instances");
    assert_eq!(c.default_instance_value_name(), "DefaultInstance");
    assert_eq!(c.altitude_value_name(), "Altitude");
}

#[test]
fn registration_values() {
    let c = ServiceConfig::standard();
    let r = c.registration("C:\\Temp\\probmon.sys");
    assert_eq!(r.service_name, "probmon");
    assert_eq!(r.binary_path, "C:\\Temp\\probmon.sys");
    assert_eq!(r.kind, ServiceKind::FileSystemDriver);
    assert_eq!(r.start, StartPolicy::Demand);
    assert_eq!(r.severity, ErrorSeverity::Normal);
    assert_eq!(r.instance_name, "probmon Instance");
    assert_eq!(r.default_instance, "probmon Instance");
    assert_eq!(r.altitude, "145610");
}

#[test]
fn registration_follows_the_service_name() {
    let c = ServiceConfig {
        service_name: "other".to_string(),
        port_name: "\\P".to_string(),
        altitude: "1".to_string(),
        privilege_name: "X".to_string(),
    };
    let r = c.registration("");
    assert_eq!(r.default_instance, "other Instance");
    assert_eq!(r.altitude, "1");
    assert_eq!(r.binary_path, "");
}
