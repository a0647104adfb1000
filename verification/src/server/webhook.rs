//! Which stream events are reported to the configured webhook.

use vstd::prelude::*;



verus! {

/// Webhook settings: target, secret, timeout and the events to report.
#[derive(Debug, Clone)]
pub struct WebhookConfig {
    pub enabled: bool,
    pub url: String,
    pub secret: Option<String>,
    pub timeout_secs: u64,
    pub on_stream_start: bool,
    pub on_stream_end: bool,
    pub on_stream_error: bool,
    pub on_viewer_connect: bool,
    pub on_viewer_disconnect: bool,
}

impl Default for WebhookConfig {
    fn default() -> (c: Self)
        ensures
            !c.enabled,
            c.url@.len() == 0,
            c.secret.is_none(),
            c.timeout_secs == 10,
            c.on_stream_start,
            c.on_stream_end,
            c.on_stream_error,
            !c.on_viewer_connect,
            !c.on_viewer_disconnect,
    {
        WebhookConfig {
            enabled: false,
            url: String::new(),
            secret: None,
            timeout_secs: 10,
            on_stream_start: true,
            on_stream_end: true,
            on_stream_error: true,
            on_viewer_connect: false,
            on_viewer_disconnect: false,
        }
    }
}

/// A stream event a webhook can report.
#[derive(Debug, Clone, Copy, PartialEq, Eq, Structural)]
pub enum WebhookEvent {
    StreamStart,
    StreamEnd,
    StreamError,
    ViewerConnect,
    ViewerDisconnect,
}

/// Whether a configuration reports an event.
pub open spec fn reports(c: WebhookConfig, e: WebhookEvent) -> bool {
    c.enabled && match e {
        WebhookEvent::StreamStart => c.on_stream_start,
        WebhookEvent::StreamEnd => c.on_stream_end,
        WebhookEvent::StreamError => c.on_stream_error,
        WebhookEvent::ViewerConnect => c.on_viewer_connect,
        WebhookEvent::ViewerDisconnect => c.on_viewer_disconnect,
    }
}

/// Sends events to the configured webhook.
pub struct WebhookSender {
    pub config: WebhookConfig,
}

impl WebhookSender {
    /// A sender with the given settings.
    pub fn new(config: WebhookConfig) -> (s: Self)
        ensures
            s.config == config,
    {
        WebhookSender { config }
    }

    /// Whether `event` is reported: the webhook is enabled and the event's
    /// switch is on.
    pub fn should_send(&self, event: &WebhookEvent) -> (r: bool)
        ensures
            r == reports(self.config, *event),
    {
        if !self.config.enabled {
            return false;
        }
        match event {
            WebhookEvent::StreamStart => self.config.on_stream_start,
            WebhookEvent::StreamEnd => self.config.on_stream_end,
            WebhookEvent::StreamError => self.config.on_stream_error,
            WebhookEvent::ViewerConnect => self.config.on_viewer_connect,
            WebhookEvent::ViewerDisconnect => self.config.on_viewer_disconnect,
        }
    }
}

} // verus!
