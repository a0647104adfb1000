//! SRT listener settings and their validation.

use vstd::prelude::*;

use crate::text::{decimal, decimal_string, join3, owned, utf8_len};

verus! {

/// How the SRT listener is set up.
#[derive(Debug, Clone)]
pub struct SrtConfig {
    pub enabled: bool,
    pub listen_addr: String,
    pub listen_port: u16,
    pub latency_ms: u32,
    pub max_bandwidth: i64,
    pub passphrase: Option<String>,
    pub pbkey_len: Option<u32>,
}

impl Default for SrtConfig {
    fn default() -> (c: Self)
        ensures
            !c.enabled,
            c.listen_addr@ == "0.0.0.0"@,
            c.listen_port == 3000,
            c.latency_ms == 200,
            c.max_bandwidth == -1,
            c.passphrase.is_none(),
            c.pbkey_len.is_none(),
    {
        SrtConfig {
            enabled: false,
            listen_addr: owned("0.0.0.0"),
            listen_port: 3000,
            latency_ms: 200,
            max_bandwidth: -1,
            passphrase: None,
            pbkey_len: None,
        }
    }
}

/// The first rule a configuration breaks, in the order they are checked,
/// as the message that reports it; `None` when it breaks none.
pub open spec fn srt_config_problem(c: SrtConfig) -> Option<Seq<char>> {
    if c.listen_port == 0 {
        Some("SRT listen_port cannot be 0"@)
    } else if c.listen_addr@.len() == 0 {
        Some("SRT listen_addr cannot be empty"@)
    } else if c.latency_ms == 0 {
        Some("SRT latency_ms cannot be 0"@)
    } else if c.enabled && c.passphrase.is_none() {
        Some("SRT passphrase is required when SRT is enabled"@)
    } else if c.passphrase matches Some(p) && utf8_len(p@) < 10 {
        Some("SRT passphrase must be at least 10 characters"@)
    } else if c.pbkey_len matches Some(n) && n != 16 && n != 24 && n != 32 {
        Some("SRT pbkey_len must be 16, 24, or 32"@)
    } else {
        None
    }
}

impl SrtConfig {
    /// Checks the port, address, latency, passphrase and key length.
    pub fn validate(&self) -> (r: Result<(), String>)
        ensures
            match srt_config_problem(*self) {
                Some(m) => r matches Err(e) && e@ == m,
                None => r is Ok,
            },
    {
        if self.listen_port == 0 {
            return Err(owned("SRT listen_port cannot be 0"));
        }
        if self.listen_addr.as_str().is_empty() {
            return Err(owned("SRT listen_addr cannot be empty"));
        }
        if self.latency_ms == 0 {
            return Err(owned("SRT latency_ms cannot be 0"));
        }
        if self.enabled && self.passphrase.is_none() {
            return Err(owned("SRT passphrase is required when SRT is enabled"));
        }
        if let Some(pass) = &self.passphrase {
            if pass.as_str().len() < 10 {
                return Err(owned("SRT passphrase must be at least 10 characters"));
            }
        }
        if let Some(len) = self.pbkey_len {
            if len != 16 && len != 24 && len != 32 {
                return Err(owned("SRT pbkey_len must be 16, 24, or 32"));
            }
        }
        Ok(())
    }

    /// The `address:port` the listener binds.
    pub fn bind_address(&self) -> (r: String)
        ensures
            r@ == self.listen_addr@ + ":"@ + decimal(self.listen_port as nat),
    {
        let port = decimal_string(self.listen_port as u64);
        join3(self.listen_addr.as_str(), ":", port.as_str())
    }

    /// The encryption key length used with a passphrase: the configured one,
    /// or 16 bytes.
    pub fn key_len(&self) -> (r: u32)
        ensures
            r == match self.pbkey_len {
                Some(n) => n,
                None => 16u32,
            },
    {
        match self.pbkey_len {
            Some(n) => n,
            None => 16,
        }
    }
}

} // verus!
