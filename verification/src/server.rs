//! The HTTP side: webhooks, recordings, HLS/FLV framing, stream bookkeeping
//! and the request helpers of the REST API.

pub mod webhook;
pub mod webrtc;
pub mod recording;
pub mod recording_ext;
pub mod segments;
pub mod dvr;
pub mod hls;
pub mod flv;
pub mod stream;
pub mod dashboard;
pub mod api;
pub mod audience;
pub mod ingest;
pub mod overlays;
pub mod routes_v1;
pub mod databus;
pub mod playback;
pub mod schedule;
pub mod restream;
pub mod events;
pub mod api_v1;
pub mod studio;
pub mod metrics;
pub mod auth;
pub mod secrets;
pub mod records;
pub mod channels;
pub mod drafts;
pub mod files;
pub mod requests;
pub mod studio_sessions;
pub mod chat;
pub mod accounts;
pub mod sorting;
pub mod listings;
pub mod oauth;
pub mod uploads;
