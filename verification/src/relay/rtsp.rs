//! RTSP camera input: settings and the FFmpeg arguments that pull from it.

use vstd::prelude::*;

use crate::text::{owned, push_str};

verus! {

/// Credentials an RTSP source asks for.
#[derive(Debug, Clone)]
pub struct RtspAuth {
    pub username: String,
    pub password: String,
}

/// The transport FFmpeg uses to pull RTSP.
#[derive(Debug, Clone, Copy, PartialEq, Eq, Structural)]
pub enum RtspTransport {
    Tcp,
    Udp,
}

/// RTSP input settings.
#[derive(Debug, Clone)]
pub struct RtspConfig {
    pub enabled: bool,
    pub listen_port: u16,
    pub listen_addr: String,
    pub auth: Option<RtspAuth>,
    pub transport: RtspTransport,
}

impl Default for RtspConfig {
    fn default() -> (c: Self)
        ensures
            !c.enabled,
            c.listen_port == 8554,
            c.listen_addr@ == "0.0.0.0"@,
            c.auth.is_none(),
            c.transport == RtspTransport::Tcp,
    {
        RtspConfig {
            enabled: false,
            listen_port: 8554,
            listen_addr: owned("0.0.0.0"),
            auth: None,
            transport: RtspTransport::Tcp,
        }
    }
}

impl RtspConfig {
    /// Rejects a zero port.
    pub fn validate(&self) -> (r: Result<(), String>)
        ensures
            self.listen_port == 0 ==> (r matches Err(e) && e@ == "RTSP port cannot be 0"@),
            self.listen_port != 0 ==> r is Ok,
    {
        if self.listen_port == 0 {
            return Err(owned("RTSP port cannot be 0"));
        }
        Ok(())
    }
}

/// Pulls an RTSP stream through FFmpeg.
pub struct RtspInput {
    pub config: RtspConfig,
}

/// The input arguments for `url` over the configured transport.
pub open spec fn rtsp_input_args(transport: RtspTransport, url: Seq<char>) -> Seq<Seq<char>> {
    seq![
        "-rtsp_transport"@,
        match transport {
            RtspTransport::Tcp => "tcp"@,
            RtspTransport::Udp => "udp"@,
        },
        "-i"@,
        url,
    ]
}

impl RtspInput {
    /// An input with the given settings.
    pub fn new(config: RtspConfig) -> (i: Self)
        ensures
            i.config == config,
    {
        RtspInput { config }
    }

    /// The FFmpeg input arguments for `url`.
    pub fn build_ffmpeg_input_args(&self, url: &str) -> (v: Vec<String>)
        ensures
            v.deep_view() == rtsp_input_args(self.config.transport, url@),
    {
        let mut v: Vec<String> = Vec::new();
        push_str(&mut v, "-rtsp_transport");
        match self.config.transport {
            RtspTransport::Tcp => push_str(&mut v, "tcp"),
            RtspTransport::Udp => push_str(&mut v, "udp"),
        }
        push_str(&mut v, "-i");
        push_str(&mut v, url);
        proof {
            assert(v.deep_view() =~= rtsp_input_args(self.config.transport, url@));
        }
        v
    }

    /// Pulls `input_url` and copies it as FLV to `output_url`.
    pub fn build_restream_args(&self, input_url: &str, output_url: &str) -> (v: Vec<String>)
        ensures
            v.deep_view() == rtsp_input_args(self.config.transport, input_url@) + seq![
                "-c"@,
                "copy"@,
                "-f"@,
                "flv"@,
                output_url@,
            ],
    {
        let mut v = self.build_ffmpeg_input_args(input_url);
        push_str(&mut v, "-c");
        push_str(&mut v, "copy");
        push_str(&mut v, "-f");
        push_str(&mut v, "flv");
        push_str(&mut v, output_url);
        proof {
            assert(v.deep_view() =~= rtsp_input_args(self.config.transport, input_url@) + seq![
                "-c"@,
                "copy"@,
                "-f"@,
                "flv"@,
                output_url@,
            ]);
        }
        v
    }
}

} // verus!
