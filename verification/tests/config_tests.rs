use wifi_reporter::config::{ClientConfig, ConfigError, PASSWORD_MAX_LEN, SSID_MAX_LEN};

#[test]
fn accepts_ordinary_pair() {
    let cfg = ClientConfig::new(b"homenet".to_vec(), b"correct horse".to_vec()).unwrap();
    assert_eq!(cfg.ssid(), &b"homenet".to_vec());
    assert_eq!(cfg.password(), &b"correct horse".to_vec());
}

#[test]
fn accepts_empty_pair() {
    let cfg = ClientConfig::new(Vec::new(), Vec::new()).unwrap();
    assert_eq!(cfg.ssid().len(), 0);
    assert_eq!(cfg.password().len(), 0);
}

#[test]
fn accepts_longest_allowed_pair() {
    let ssid = vec![b'a'; SSID_MAX_LEN];
    let password = vec![b'b'; PASSWORD_MAX_LEN];
    let cfg = ClientConfig::new(ssid.clone(), password.clone()).unwrap();
    assert_eq!(cfg.ssid(), &ssid);
    assert_eq!(cfg.password(), &password);
}

#[test]
fn rejects_overlong_ssid() {
    let r = ClientConfig::new(vec![b'a'; SSID_MAX_LEN + 1], b"pw".to_vec());
    assert_eq!(r.unwrap_err(), ConfigError::SsidTooLong);
}

#[test]
fn rejects_overlong_password() {
    let r = ClientConfig::new(b"net".to_vec(), vec![b'b'; PASSWORD_MAX_LEN + 1]);
    assert_eq!(r.unwrap_err(), ConfigError::PasswordTooLong);
}

#[test]
fn overlong_ssid_reported_before_overlong_password() {
    let r = ClientConfig::new(
        vec![b'a'; SSID_MAX_LEN + 5],
        vec![b'b'; PASSWORD_MAX_LEN + 5],
    );
    assert_eq!(r.unwrap_err(), ConfigError::SsidTooLong);
}
