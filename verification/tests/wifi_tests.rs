use wifi_reporter::config::ClientConfig;
use wifi_reporter::wifi::{Association, WifiError, WifiStage};

fn valid_config() -> ClientConfig {
    ClientConfig::new(b"homenet".to_vec(), b"passphrase".to_vec()).unwrap()
}

#[test]
fn happy_path_reaches_ip_assigned() {
    let cfg = valid_config();
    let mut a = Association::new();
    assert_eq!(a.stage(), WifiStage::Unconfigured);
    a.apply_configuration(&cfg, true).unwrap();
    assert_eq!(a.stage(), WifiStage::Configured);
    a.start(true).unwrap();
    assert_eq!(a.stage(), WifiStage::Started);
    a.connect(true).unwrap();
    assert_eq!(a.stage(), WifiStage::Connecting);
    a.await_ip(true).unwrap();
    assert_eq!(a.stage(), WifiStage::IpAssigned);
}

#[test]
fn rejected_configuration_is_fatal_and_keeps_stage() {
    let cfg = valid_config();
    let mut a = Association::new();
    let r = a.apply_configuration(&cfg, false);
    assert_eq!(r.unwrap_err(), WifiError::Configuration);
    assert_eq!(a.stage(), WifiStage::Unconfigured);
}

#[test]
fn failed_start_is_fatal_and_keeps_stage() {
    let cfg = valid_config();
    let mut a = Association::new();
    a.apply_configuration(&cfg, true).unwrap();
    let r = a.start(false);
    assert_eq!(r.unwrap_err(), WifiError::Driver);
    assert_eq!(a.stage(), WifiStage::Configured);
}

#[test]
fn failed_association_is_fatal_and_keeps_stage() {
    let cfg = valid_config();
    let mut a = Association::new();
    a.apply_configuration(&cfg, true).unwrap();
    a.start(true).unwrap();
    let r = a.connect(false);
    assert_eq!(r.unwrap_err(), WifiError::Association);
    assert_eq!(a.stage(), WifiStage::Started);
}

#[test]
fn failed_ip_wait_is_fatal_and_keeps_stage() {
    let cfg = valid_config();
    let mut a = Association::new();
    a.apply_configuration(&cfg, true).unwrap();
    a.start(true).unwrap();
    a.connect(true).unwrap();
    let r = a.await_ip(false);
    assert_eq!(r.unwrap_err(), WifiError::IpWait);
    assert_eq!(a.stage(), WifiStage::Connecting);
}
