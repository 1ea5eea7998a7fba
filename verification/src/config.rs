use vstd::prelude::*;

verus! {

/// Longest network name (in bytes) that the platform's fixed-length
/// identifier buffer accepts.
pub const SSID_MAX_LEN: usize = 32;

/// Longest passphrase (in bytes) that the platform's fixed-length
/// identifier buffer accepts.
pub const PASSWORD_MAX_LEN: usize = 64;

/// Why a client configuration was rejected.
#[derive(Clone, Copy, Debug, PartialEq, Eq, Structural)]
pub enum ConfigError {
    /// The network name exceeds [`SSID_MAX_LEN`] bytes.
    SsidTooLong,
    /// The passphrase exceeds [`PASSWORD_MAX_LEN`] bytes.
    PasswordTooLong,
}

/// A validated client configuration: network name and passphrase as byte
/// strings, to be applied with WPA2-Personal authentication.
///
/// Values can only be built through [`ClientConfig::new`], so every
/// configuration satisfies [`ClientConfig::wf`].
#[derive(Debug, PartialEq, Eq)]
pub struct ClientConfig {
    ssid: Vec<u8>,
    password: Vec<u8>,
}

impl ClientConfig {
    /// Both fields fit the platform's fixed-length buffers.
    pub closed spec fn wf(self) -> bool {
        self.ssid@.len() <= SSID_MAX_LEN && self.password@.len() <= PASSWORD_MAX_LEN
    }

    pub closed spec fn spec_ssid(self) -> Seq<u8> {
        self.ssid@
    }

    pub closed spec fn spec_password(self) -> Seq<u8> {
        self.password@
    }

    /// Validates a network-name/passphrase pair against the platform's length
    /// limits.
    ///
    /// Succeeds exactly when the name is at most [`SSID_MAX_LEN`] bytes and
    /// the passphrase at most [`PASSWORD_MAX_LEN`] bytes, keeping both
    /// unchanged; the name is checked first.
    pub fn new(ssid: Vec<u8>, password: Vec<u8>) -> (r: Result<ClientConfig, ConfigError>)
        ensures
            r is Ok <==> ssid@.len() <= SSID_MAX_LEN && password@.len() <= PASSWORD_MAX_LEN,
            ssid@.len() <= SSID_MAX_LEN && password@.len() <= PASSWORD_MAX_LEN ==> (r
                matches Ok(c) && c.spec_ssid() == ssid@ && c.spec_password() == password@),
            ssid@.len() > SSID_MAX_LEN ==> r == Err::<ClientConfig, ConfigError>(
                ConfigError::SsidTooLong,
            ),
            ssid@.len() <= SSID_MAX_LEN && password@.len() > PASSWORD_MAX_LEN ==> r == Err::<
                ClientConfig,
                ConfigError,
            >(ConfigError::PasswordTooLong),
            r matches Ok(c) ==> c.wf(),
    {
        if ssid.len() > SSID_MAX_LEN {
            Err(ConfigError::SsidTooLong)
        } else if password.len() > PASSWORD_MAX_LEN {
            Err(ConfigError::PasswordTooLong)
        } else {
            Ok(ClientConfig { ssid, password })
        }
    }

    pub fn ssid(&self) -> (r: &Vec<u8>)
        ensures
            r@ == self.spec_ssid(),
    {
        &self.ssid
    }

    pub fn password(&self) -> (r: &Vec<u8>)
        ensures
            r@ == self.spec_password(),
    {
        &self.password
    }
}

} // verus!
