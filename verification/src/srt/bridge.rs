//! The SRT-to-RTMP bridge: its settings, its counters, and the listener it
//! starts.

use vstd::prelude::*;

use crate::srt::config::{SrtConfig, srt_config_problem};
use crate::srt::error::SrtError;
use crate::text::{decimal, decimal_string, join3, owned};
use crate::weburl::UrlParts;

verus! {

/// How the bridge is set up.
#[derive(Debug, Clone)]
pub struct BridgeConfig {
    pub enabled: bool,
    pub srt_listen_port: u16,
    pub rtmp_forward_url: Option<String>,
    pub hls_output: bool,
    pub latency_ms: u32,
}

impl Default for BridgeConfig {
    fn default() -> (c: Self)
        ensures
            !c.enabled,
            c.srt_listen_port == 3000,
            c.rtmp_forward_url.is_none(),
            c.hls_output,
            c.latency_ms == 200,
    {
        BridgeConfig {
            enabled: false,
            srt_listen_port: 3000,
            rtmp_forward_url: None,
            hls_output: true,
            latency_ms: 200,
        }
    }
}

/// The settings of the listener a bridge starts: enabled, on the bridge's
/// port and latency, everything else as by default.
pub open spec fn bridge_listener_settings(c: BridgeConfig, l: SrtConfig) -> bool {
    &&& l.enabled
    &&& l.listen_port == c.srt_listen_port
    &&& l.latency_ms == c.latency_ms
    &&& l.listen_addr@ == "0.0.0.0"@
    &&& l.max_bandwidth == -1
    &&& l.passphrase.is_none()
    &&& l.pbkey_len.is_none()
}

impl BridgeConfig {
    /// The listener settings the bridge runs with, or an error when the
    /// bridge is disabled.
    pub fn listener_config(&self) -> (r: Result<SrtConfig, SrtError>)
        ensures
            !self.enabled ==> (r matches Err(SrtError::InvalidConfig(m)) && m@ == "Bridge is disabled"@),
            self.enabled ==> (r matches Ok(l) && bridge_listener_settings(*self, l)),
    {
        if !self.enabled {
            return Err(SrtError::InvalidConfig(owned("Bridge is disabled")));
        }
        let mut l = SrtConfig::default();
        l.enabled = true;
        l.listen_port = self.srt_listen_port;
        l.latency_ms = self.latency_ms;
        Ok(l)
    }
}

/// The bridge's running counters.
#[derive(Debug)]
pub struct BridgeStats {
    pub packets_received: u64,
    pub packets_forwarded: u64,
    pub bytes_received: u64,
    pub active: bool,
}

impl Default for BridgeStats {
    fn default() -> (s: Self)
        ensures
            s.packets_received == 0,
            s.packets_forwarded == 0,
            s.bytes_received == 0,
            !s.active,
    {
        BridgeStats { packets_received: 0, packets_forwarded: 0, bytes_received: 0, active: false }
    }
}

/// A copy of the counters at one moment.
#[derive(Debug, Clone, Copy, PartialEq, Eq)]
pub struct BridgeStatsSnapshot {
    pub packets_received: u64,
    pub packets_forwarded: u64,
    pub bytes_received: u64,
    pub active: bool,
}

/// `a + b` wrapped to 64 bits, as an atomic counter adds.
pub open spec fn wrapped_add(a: u64, b: u64) -> u64 {
    if a + b > u64::MAX {
        (a + b - (u64::MAX + 1)) as u64
    } else {
        (a + b) as u64
    }
}

impl BridgeStats {
    /// The counters as they stand.
    pub fn to_snapshot(&self) -> (s: BridgeStatsSnapshot)
        ensures
            s.packets_received == self.packets_received,
            s.packets_forwarded == self.packets_forwarded,
            s.bytes_received == self.bytes_received,
            s.active == self.active,
    {
        BridgeStatsSnapshot {
            packets_received: self.packets_received,
            packets_forwarded: self.packets_forwarded,
            bytes_received: self.bytes_received,
            active: self.active,
        }
    }

    /// Counts one packet of `len` bytes taken in and passed on.
    pub fn record_packet(&mut self, len: u64)
        ensures
            final(self).packets_received == wrapped_add(old(self).packets_received, 1),
            final(self).packets_forwarded == wrapped_add(old(self).packets_forwarded, 1),
            final(self).bytes_received == wrapped_add(old(self).bytes_received, len),
            final(self).active == old(self).active,
    {
        self.packets_received = self.packets_received.wrapping_add(1);
        self.bytes_received = self.bytes_received.wrapping_add(len);
        self.packets_forwarded = self.packets_forwarded.wrapping_add(1);
    }

    /// Marks the bridge running or stopped.
    pub fn set_active(&mut self, active: bool)
        ensures
            final(self).active == active,
            final(self).packets_received == old(self).packets_received,
            final(self).packets_forwarded == old(self).packets_forwarded,
            final(self).bytes_received == old(self).bytes_received,
    {
        self.active = active;
    }
}

/// The port an SRT sender calls when its URL names none.
pub const SRT_DEFAULT_PORT: u16 = 3000;

/// The `host:port` an SRT sender calls for `url`: its host, and its port or
/// 3000; an error when the URL has no host.
pub fn sender_address(url: &UrlParts) -> (r: Result<String, SrtError>)
    ensures
        match url@.host {
            None => r matches Err(SrtError::InvalidConfig(m)) && m@ == "No host in SRT URL"@,
            Some(h) => r matches Ok(a) && a@ == h + ":"@ + decimal(
                (match url@.port {
                    Some(p) => p,
                    None => 3000u16,
                }) as nat,
            ),
        },
{
    match &url.host {
        None => Err(SrtError::InvalidConfig(owned("No host in SRT URL"))),
        Some(h) => {
            let port: u16 = match url.port {
                Some(p) => p,
                None => SRT_DEFAULT_PORT,
            };
            let p = decimal_string(port as u64);
            Ok(join3(h.as_str(), ":", p.as_str()))
        },
    }
}

/// The listener an enabled bridge starts is enabled without a passphrase,
/// so its own validation refuses it: with a port and a latency set, the
/// complaint is the missing passphrase.
pub proof fn law_bridge_listener_needs_passphrase(c: BridgeConfig, l: SrtConfig)
    requires
        bridge_listener_settings(c, l),
        c.srt_listen_port != 0,
        c.latency_ms != 0,
    ensures
        srt_config_problem(l) == Some("SRT passphrase is required when SRT is enabled"@),
{
    reveal_strlit("0.0.0.0");
}

} // verus!
