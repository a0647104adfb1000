//! The decisions of a publishing session: which destinations get a push
//! client, what a destination event does to them, which headers are kept
//! for late joiners, and what a reconnecting destination does next.

use vstd::prelude::*;

use crate::relay::client::{
    audio_sequence_header, destination_enabled, is_audio_sequence_header, is_video_sequence_header,
    platform_still_enabled, video_sequence_header,
};
use crate::relay::config::{Platform, PlatformEvent, platform_id_from, platform_id_of};
use crate::text::{join2, owned, str_eq};
use crate::weburl::{UrlParts, url_parse};

verus! {

/// What the session does about a destination.
#[derive(Debug)]
pub enum DestinationAction {
    /// Nothing.
    Nothing,
    /// Shut down the push client at `position` and report the destination
    /// disconnected.
    ShutDown { position: usize },
    /// A push client for the destination runs already.
    AlreadyActive,
    /// The destination's URL does not parse; it is skipped.
    InvalidUrl,
    /// Connect a push client to the destination.
    Connect { platform_id: String, url: UrlParts, key: String },
}

/// What the session does with a client that reconnected.
#[derive(Debug, PartialEq, Eq, Structural)]
pub enum ReconnectedAction {
    /// It takes the place of the old client at `position`.
    Replace { position: usize },
    /// It joins the running clients.
    Add,
    /// The destination is gone or disabled: shut it down.
    Discard,
}

/// Where the destinations of a publish request come from.
#[derive(Debug, PartialEq, Eq, Structural)]
pub enum PublishTarget {
    /// The configured key: the configured enabled destinations.
    Configured,
    /// Ask the key resolver.
    AskResolver,
    /// Refuse the request with an invalid key.
    Reject,
}

/// The first index of `id` in `ids`, or -1.
pub open spec fn position_of(ids: Seq<String>, id: Seq<char>, i: int) -> int
    decreases ids.len() - i,
{
    if i < 0 || i >= ids.len() {
        -1
    } else if ids[i]@ == id {
        i
    } else {
        position_of(ids, id, i + 1)
    }
}

/// The state a publishing session keeps: the destinations its push clients
/// serve, in order, the last sequence headers, and the stream it
/// registered.
pub struct PublisherSession {
    push_ids: Vec<String>,
    video_header: Option<Vec<u8>>,
    audio_header: Option<Vec<u8>>,
    stream_id: Option<String>,
}

fn position_in(ids: &Vec<String>, id: &str) -> (r: Option<usize>)
    ensures
        match r {
            Some(i) => i < ids@.len() && position_of(ids@, id@, 0) == i,
            None => position_of(ids@, id@, 0) == -1,
        },
{
    let n = ids.len();
    for i in 0..n
        invariant
            n == ids@.len(),
            position_of(ids@, id@, 0) == position_of(ids@, id@, i as int),
    {
        if str_eq(ids[i].as_str(), id) {
            return Some(i);
        }
    }
    None
}

/// What connecting to a destination comes to: nothing new when a client
/// serves it already, a skip when its URL does not parse.
pub open spec fn connect_action(ids: Seq<String>, pid: Seq<char>, url: Seq<char>, key: Seq<char>, a: DestinationAction) -> bool {
    if position_of(ids, pid, 0) != -1 {
        a is AlreadyActive
    } else {
        match url_parse(url) {
            None => a is InvalidUrl,
            Some(u) => a matches DestinationAction::Connect { platform_id, url: cu, key: ck } && platform_id@ == pid
                && cu@ == u && ck@ == key,
        }
    }
}

impl PublisherSession {
    /// The destinations served by push clients, in the clients' order.
    pub closed spec fn clients(&self) -> Seq<String> {
        self.push_ids@
    }

    /// The last video sequence header seen.
    pub closed spec fn video(&self) -> Option<Seq<u8>> {
        match self.video_header {
            Some(h) => Some(h@),
            None => None,
        }
    }

    /// The last audio sequence header seen.
    pub closed spec fn audio(&self) -> Option<Seq<u8>> {
        match self.audio_header {
            Some(h) => Some(h@),
            None => None,
        }
    }

    /// The stream the session registered.
    pub closed spec fn stream(&self) -> Option<Seq<char>> {
        match self.stream_id {
            Some(s) => Some(s@),
            None => None,
        }
    }

    /// A session with no clients, headers or stream.
    pub fn new() -> (s: PublisherSession)
        ensures
            s.clients().len() == 0,
            s.video().is_none(),
            s.audio().is_none(),
            s.stream().is_none(),
    {
        PublisherSession { push_ids: Vec::new(), video_header: None, audio_header: None, stream_id: None }
    }

    /// Whether no push client runs.
    pub fn has_no_clients(&self) -> (r: bool)
        ensures
            r == (self.clients().len() == 0),
    {
        self.push_ids.len() == 0
    }

    /// Records that a push client for `platform_id` now runs.
    pub fn connected(&mut self, platform_id: &str)
        ensures
            final(self).clients().len() == old(self).clients().len() + 1,
            final(self).clients().drop_last() == old(self).clients(),
            final(self).clients().last()@ == platform_id@,
            final(self).video() == old(self).video(),
            final(self).audio() == old(self).audio(),
            final(self).stream() == old(self).stream(),
    {
        self.push_ids.push(owned(platform_id));
        proof {
            assert(self.push_ids@.drop_last() =~= old(self).push_ids@);
        }
    }

    /// What to do with a client that reconnected to `platform_id`: replace
    /// the old client when one is listed, add it when the destination is
    /// still enabled, else discard it.
    pub fn on_reconnected(&mut self, platform_id: &str, platforms: &Vec<Platform>) -> (a: ReconnectedAction)
        ensures
            ({
                let pos = position_of(old(self).clients(), platform_id@, 0);
                if pos != -1 {
                    a == ReconnectedAction::Replace { position: pos as usize } && final(self).clients() == old(
                        self,
                    ).clients()
                } else if destination_enabled(platforms@, platform_id@) {
                    a == ReconnectedAction::Add && final(self).clients().drop_last() == old(self).clients()
                        && final(self).clients().len() == old(self).clients().len() + 1
                        && final(self).clients().last()@ == platform_id@
                } else {
                    a == ReconnectedAction::Discard && final(self).clients() == old(self).clients()
                }
            }),
            final(self).video() == old(self).video(),
            final(self).audio() == old(self).audio(),
            final(self).stream() == old(self).stream(),
    {
        match position_in(&self.push_ids, platform_id) {
            Some(pos) => ReconnectedAction::Replace { position: pos },
            None => {
                if platform_still_enabled(platforms, platform_id) {
                    self.connected(platform_id);
                    ReconnectedAction::Add
                } else {
                    ReconnectedAction::Discard
                }
            },
        }
    }

    fn stop_client(&mut self, platform_id: &str) -> (a: DestinationAction)
        ensures
            ({
                let pos = position_of(old(self).clients(), platform_id@, 0);
                if pos != -1 {
                    a == DestinationAction::ShutDown { position: pos as usize } && final(self).clients() == old(
                        self,
                    ).clients().remove(pos)
                } else {
                    a is Nothing && final(self).clients() == old(self).clients()
                }
            }),
            final(self).video() == old(self).video(),
            final(self).audio() == old(self).audio(),
            final(self).stream() == old(self).stream(),
    {
        match position_in(&self.push_ids, platform_id) {
            Some(pos) => {
                self.push_ids.remove(pos);
                DestinationAction::ShutDown { position: pos }
            },
            None => DestinationAction::Nothing,
        }
    }

    fn start_client(&self, platform_id: &str, url: &str, key: &str) -> (a: DestinationAction)
        ensures
            connect_action(self.clients(), platform_id@, url@, key@, a),
    {
        if position_in(&self.push_ids, platform_id).is_some() {
            return DestinationAction::AlreadyActive;
        }
        match UrlParts::parse(url) {
            None => DestinationAction::InvalidUrl,
            Some(u) => DestinationAction::Connect { platform_id: owned(platform_id), url: u, key: owned(key) },
        }
    }

    /// What a destination event does to the running clients. A destination
    /// that is removed or disabled loses its client; one that is added or
    /// enabled gets one unless it has one or its URL does not parse. The
    /// session lists a new client once `connected` reports it.
    pub fn on_platform_event(&mut self, event: &PlatformEvent) -> (a: DestinationAction)
        ensures
            final(self).video() == old(self).video(),
            final(self).audio() == old(self).audio(),
            final(self).stream() == old(self).stream(),
            match *event {
                PlatformEvent::Removed { platform_id } | PlatformEvent::Toggled { platform_id, enabled: false, .. } => {
                    let pos = position_of(old(self).clients(), platform_id@, 0);
                    if pos != -1 {
                        a == DestinationAction::ShutDown { position: pos as usize } && final(self).clients() == old(
                            self,
                        ).clients().remove(pos)
                    } else {
                        a is Nothing && final(self).clients() == old(self).clients()
                    }
                },
                PlatformEvent::Added { platform_id, url, key } | PlatformEvent::Toggled {
                    platform_id,
                    url,
                    key,
                    enabled: true,
                } => connect_action(old(self).clients(), platform_id@, url@, key@, a) && final(self).clients() == old(
                    self,
                ).clients(),
            },
    {
        match event {
            PlatformEvent::Removed { platform_id } => self.stop_client(platform_id.as_str()),
            PlatformEvent::Toggled { platform_id, url, key, enabled } => {
                if *enabled {
                    self.start_client(platform_id.as_str(), url.as_str(), key.as_str())
                } else {
                    self.stop_client(platform_id.as_str())
                }
            },
            PlatformEvent::Added { platform_id, url, key } => {
                self.start_client(platform_id.as_str(), url.as_str(), key.as_str())
            },
        }
    }

    /// Keeps a media payload that is a sequence header of its kind, so that
    /// clients that join later can be primed with it.
    pub fn on_media(&mut self, is_video: bool, data: &[u8])
        ensures
            final(self).clients() == old(self).clients(),
            final(self).stream() == old(self).stream(),
            final(self).video() == if is_video && video_sequence_header(data@) {
                Some(data@)
            } else {
                old(self).video()
            },
            final(self).audio() == if !is_video && audio_sequence_header(data@) {
                Some(data@)
            } else {
                old(self).audio()
            },
    {
        if is_video {
            if is_video_sequence_header(data) {
                self.video_header = Some(copy_bytes(data));
            }
        } else if is_audio_sequence_header(data) {
            self.audio_header = Some(copy_bytes(data));
        }
    }

    /// Records the stream the session registered.
    pub fn register_stream(&mut self, stream_id: &str)
        ensures
            final(self).stream() == Some(stream_id@),
            final(self).clients() == old(self).clients(),
            final(self).video() == old(self).video(),
            final(self).audio() == old(self).audio(),
    {
        self.stream_id = Some(owned(stream_id));
    }

    /// The stream media is published under: the one registered, if any.
    pub fn media_stream(&self) -> (r: Option<&String>)
        ensures
            match r {
                Some(s) => self.stream() == Some(s@),
                None => self.stream().is_none(),
            },
    {
        match &self.stream_id {
            Some(s) => Some(s),
            None => None,
        }
    }

    /// Ends the session: the registered stream to release, and the
    /// destinations whose clients are shut down and reported disconnected.
    pub fn finish(&mut self) -> (r: (Option<String>, Vec<String>))
        ensures
            released(
                *old(self),
                *final(self),
                match r.0 {
                    Some(s) => Some(s@),
                    None => None,
                },
            ),
            r.1@ == old(self).clients(),
            final(self).clients().len() == 0,
    {
        let mut ids: Vec<String> = Vec::new();
        std::mem::swap(&mut ids, &mut self.push_ids);
        let mut stream: Option<String> = None;
        std::mem::swap(&mut stream, &mut self.stream_id);
        (stream, ids)
    }
}

/// Whether ending session `before` left `after` and released `stream`:
/// the stream it had registered, if any; afterwards none is registered.
pub open spec fn released(before: PublisherSession, after: PublisherSession, stream: Option<Seq<char>>) -> bool {
    stream == before.stream() && after.stream().is_none()
}

/// A registered stream is released once: ending the session releases the
/// stream registered last, and ending it again releases nothing.
pub proof fn law_stream_released_once(
    registered: PublisherSession,
    once: PublisherSession,
    twice: PublisherSession,
    id: Seq<char>,
    first: Option<Seq<char>>,
    second: Option<Seq<char>>,
)
    requires
        registered.stream() == Some(id),
        released(registered, once, first),
        released(once, twice, second),
    ensures
        first == Some(id),
        second.is_none(),
{
}

/// One step of releasing a stream when a session ends.
#[derive(Debug, Clone)]
pub enum ReleaseStep {
    /// Stop feeding the preview from the stream.
    Deactivate(String),
    /// Remove the stream from the registry.
    Unregister(String),
}

/// How a stream released at the end of a session is let go: first the
/// preview stops taking it, then the registry forgets it; nothing when no
/// stream was registered.
pub fn release_steps(stream: Option<String>) -> (r: Vec<ReleaseStep>)
    ensures
        match stream {
            None => r@.len() == 0,
            Some(id) => {
                &&& r@.len() == 2
                &&& r@[0] matches ReleaseStep::Deactivate(a) && a@ == id@
                &&& r@[1] matches ReleaseStep::Unregister(b) && b@ == id@
            },
        },
{
    let mut r: Vec<ReleaseStep> = Vec::new();
    if let Some(id) = stream {
        r.push(ReleaseStep::Deactivate(id.clone()));
        r.push(ReleaseStep::Unregister(id));
    }
    r
}

fn copy_bytes(data: &[u8]) -> (r: Vec<u8>)
    ensures
        r@ == data@,
{
    let mut r: Vec<u8> = Vec::new();
    let n = data.len();
    for i in 0..n
        invariant
            n == data@.len(),
            r@ == data@.subrange(0, i as int),
    {
        r.push(data[i]);
        proof {
            assert(r@ =~= data@.subrange(0, i + 1));
        }
    }
    proof {
        assert(data@.subrange(0, n as int) =~= data@);
    }
    r
}

/// Where the destinations of a publish request come from.
pub open spec fn publish_target_of(configured: Seq<char>, presented: Seq<char>, has_resolver: bool) -> PublishTarget {
    if configured.len() > 0 && presented == configured {
        PublishTarget::Configured
    } else if has_resolver {
        PublishTarget::AskResolver
    } else {
        PublishTarget::Reject
    }
}

/// Only the configured key selects the configured destinations: an empty
/// configured key selects nothing, and without a resolver any other key
/// is refused.
pub proof fn law_only_configured_key_publishes(configured: Seq<char>, presented: Seq<char>)
    ensures
        configured.len() > 0 ==> publish_target_of(configured, configured, false) == PublishTarget::Configured,
        presented != configured ==> publish_target_of(configured, presented, false) == PublishTarget::Reject,
        configured.len() == 0 ==> publish_target_of(configured, presented, false) == PublishTarget::Reject,
{
}

/// Where the destinations of a publish request come from: the configured
/// key selects the configured destinations, another key goes to the
/// resolver when there is one, and is refused otherwise.
pub fn publish_target(configured_key: &str, presented_key: &str, has_resolver: bool) -> (t: PublishTarget)
    ensures
        t == publish_target_of(configured_key@, presented_key@, has_resolver),
{
    if crate::relay::client::is_configured_key(configured_key, presented_key) {
        PublishTarget::Configured
    } else if has_resolver {
        PublishTarget::AskResolver
    } else {
        PublishTarget::Reject
    }
}

/// What becomes of a publish request.
#[derive(Debug)]
pub enum PublishDecision {
    /// Refuse the request with `status` and `description` and end the
    /// session: no stream is registered or activated, no destination is
    /// connected.
    Reject { status: &'static str, description: &'static str },
    /// Release the stream just registered, refuse the request with
    /// `status` and `description`, and go on reading the session.
    UnregisterAndReject { status: &'static str, description: &'static str },
    /// Accept the request and publish to these destinations.
    Accept { platforms: Vec<Platform> },
}

/// The destinations a key selects: the configured ones for the configured
/// key, else what the resolver answered when there is one, else none.
pub open spec fn selected_platforms(
    configured_key: Seq<char>,
    presented_key: Seq<char>,
    has_resolver: bool,
    configured_platforms: Vec<Platform>,
    resolved: Option<Vec<Platform>>,
) -> Option<Vec<Platform>> {
    if configured_key.len() > 0 && presented_key == configured_key {
        Some(configured_platforms)
    } else if has_resolver {
        resolved
    } else {
        None
    }
}

/// Decides a publish request. `resolved` is the resolver's answer for the
/// presented key (read only when the key is not the configured one and
/// there is a resolver); `activated` is whether the registered stream
/// could take the preview, `None` when no activation was tried.
///
/// A key that selects no destinations is refused with
/// `NetStream.Publish.BadName` / `Invalid key`; a refused activation
/// releases the stream and is refused with `NetStream.Publish.BadName` /
/// `Another preview stream is already active`; otherwise the request is
/// accepted with the selected destinations.
pub fn publish_decision(
    configured_key: &str,
    presented_key: &str,
    has_resolver: bool,
    configured_platforms: Vec<Platform>,
    resolved: Option<Vec<Platform>>,
    activated: Option<bool>,
) -> (d: PublishDecision)
    ensures
        match selected_platforms(configured_key@, presented_key@, has_resolver, configured_platforms, resolved) {
            None => d matches PublishDecision::Reject { status, description }
                && status@ == "NetStream.Publish.BadName"@ && description@ == "Invalid key"@,
            Some(ps) => if activated == Some(false) {
                d matches PublishDecision::UnregisterAndReject { status, description }
                    && status@ == "NetStream.Publish.BadName"@
                    && description@ == "Another preview stream is already active"@
            } else {
                d matches PublishDecision::Accept { platforms } && platforms == ps
            },
        },
{
    let selected = match publish_target(configured_key, presented_key, has_resolver) {
        PublishTarget::Configured => Some(configured_platforms),
        PublishTarget::AskResolver => resolved,
        PublishTarget::Reject => None,
    };
    match selected {
        None => PublishDecision::Reject { status: "NetStream.Publish.BadName", description: "Invalid key" },
        Some(ps) => match activated {
            Some(false) => PublishDecision::UnregisterAndReject {
                status: "NetStream.Publish.BadName",
                description: "Another preview stream is already active",
            },
            _ => PublishDecision::Accept { platforms: ps },
        },
    }
}

/// The input URL a stream is registered under when the resolver names none.
pub fn default_input_url(stream_key: &str) -> (r: String)
    ensures
        r@ == "rtmp://localhost/live/"@ + stream_key@,
{
    join2("rtmp://localhost/live/", stream_key)
}

/// A destination to connect when publishing starts: its identifier, URL
/// and key.
#[derive(Debug)]
pub struct Destination {
    pub platform_id: String,
    pub url: UrlParts,
    pub key: String,
}

/// The destinations to connect to when publishing starts: every selected
/// one, in order, when no client runs yet; none otherwise.
pub fn initial_destinations(session: &PublisherSession, selected: &Vec<Platform>) -> (r: Vec<Destination>)
    ensures
        session.clients().len() != 0 ==> r@.len() == 0,
        session.clients().len() == 0 ==> {
            &&& r@.len() == selected@.len()
            &&& forall|i: int|
                0 <= i < r@.len() ==> {
                    let d = #[trigger] r@[i];
                    &&& d.platform_id@ == platform_id_of(selected@[i].url.serialized@, selected@[i].key@)
                    &&& d.url == selected@[i].url
                    &&& d.key == selected@[i].key
                }
        },
{
    let mut r: Vec<Destination> = Vec::new();
    if !session.has_no_clients() {
        return r;
    }
    let n = selected.len();
    for i in 0..n
        invariant
            n == selected@.len(),
            r@.len() == i,
            forall|j: int|
                0 <= j < i ==> {
                    let d = #[trigger] r@[j];
                    &&& d.platform_id@ == platform_id_of(selected@[j].url.serialized@, selected@[j].key@)
                    &&& d.url == selected@[j].url
                    &&& d.key == selected@[j].key
                },
    {
        let p = &selected[i];
        let pid = platform_id_from(p.url.as_str(), p.key.as_str());
        r.push(Destination { platform_id: pid, url: p.url.duplicate(), key: p.key.clone() });
    }
    r
}

/// How one attempt to reconnect a destination ended.
#[derive(Debug, Clone, Copy, PartialEq, Eq, Structural)]
pub enum ConnectOutcome {
    Connected,
    Failed,
    TimedOut,
}

/// What the reconnect loop does after a wait.
#[derive(Debug, Clone, Copy, PartialEq, Eq, Structural)]
pub enum ReconnectStep {
    /// The session is over: stop.
    Stop,
    /// The destination is gone or disabled: report it disconnected, stop.
    Abandon,
    /// Try to connect.
    Attempt,
}

/// What the reconnect loop does after waiting: stop when the session ended,
/// give up when the destination is no longer enabled, else try again.
pub fn reconnect_step(stopped: bool, platforms: &Vec<Platform>, platform_id: &str) -> (s: ReconnectStep)
    ensures
        s == if stopped {
            ReconnectStep::Stop
        } else if !destination_enabled(platforms@, platform_id@) {
            ReconnectStep::Abandon
        } else {
            ReconnectStep::Attempt
        },
{
    if stopped {
        ReconnectStep::Stop
    } else if !platform_still_enabled(platforms, platform_id) {
        ReconnectStep::Abandon
    } else {
        ReconnectStep::Attempt
    }
}

/// The status the reconnect loop reports for a step: a destination given
/// up is reported disconnected; the other steps report nothing.
pub fn step_report(s: ReconnectStep) -> (r: Option<&'static str>)
    ensures
        match s {
            ReconnectStep::Abandon => r matches Some(x) && x@ == "disconnected"@,
            _ => r is None,
        },
{
    match s {
        ReconnectStep::Abandon => Some("disconnected"),
        _ => None,
    }
}

/// What the reconnect loop does with a client that just connected.
#[derive(Debug, Clone, Copy, PartialEq, Eq, Structural)]
pub enum AfterConnect {
    /// The session ended meanwhile: shut the new client down, report
    /// nothing, stop.
    ShutDown,
    /// Report the destination connected, hand the client to the session,
    /// stop.
    Deliver,
}

/// What to do with a client that just connected: deliver it, unless the
/// session ended meanwhile.
pub fn after_connect(stopped: bool) -> (a: AfterConnect)
    ensures
        a == if stopped {
            AfterConnect::ShutDown
        } else {
            AfterConnect::Deliver
        },
{
    if stopped {
        AfterConnect::ShutDown
    } else {
        AfterConnect::Deliver
    }
}

/// The status reported after an attempt: the status word, the error text
/// if any, and whether the loop ends (it ends once connected).
pub open spec fn attempt_report(outcome: ConnectOutcome) -> (Seq<char>, Option<Seq<char>>, bool) {
    match outcome {
        ConnectOutcome::Connected => ("connected"@, None, true),
        ConnectOutcome::Failed => ("error"@, Some("destination connection failed"@), false),
        ConnectOutcome::TimedOut => ("error"@, Some("destination connection timed out"@), false),
    }
}

/// The status to report after an attempt, and whether the loop ends.
pub fn after_attempt(outcome: ConnectOutcome) -> (r: (&'static str, Option<&'static str>, bool))
    ensures
        (r.0@, match r.1 {
            Some(e) => Some(e@),
            None => None,
        }, r.2) == attempt_report(outcome),
{
    match outcome {
        ConnectOutcome::Connected => ("connected", None, true),
        ConnectOutcome::Failed => ("error", Some("destination connection failed"), false),
        ConnectOutcome::TimedOut => ("error", Some("destination connection timed out"), false),
    }
}

/// What happens to a media payload at one push client.
#[derive(Debug, Clone, Copy, PartialEq, Eq, Structural)]
pub enum ForwardStep {
    /// The client's feed is closed: replace it and reconnect the
    /// destination.
    Reconnect,
    /// The destination accepts media: publish the payload.
    Publish,
    /// The destination is not ready yet: keep the payload for later.
    Buffer,
}

/// What a push client does with a payload: a closed feed is reconnected;
/// otherwise the payload is published once the destination is ready, and
/// kept until then.
pub fn forward_step(feed_closed: bool, publish_ready: bool) -> (s: ForwardStep)
    ensures
        s == if feed_closed {
            ForwardStep::Reconnect
        } else if publish_ready {
            ForwardStep::Publish
        } else {
            ForwardStep::Buffer
        },
{
    if feed_closed {
        ForwardStep::Reconnect
    } else if publish_ready {
        ForwardStep::Publish
    } else {
        ForwardStep::Buffer
    }
}

/// The destinations being reconnected: at most one loop runs per
/// destination.
pub struct ReconnectRegistry {
    active: Vec<String>,
}

/// Whether `ids` holds `id`.
pub open spec fn holds(ids: Seq<String>, id: Seq<char>) -> bool {
    exists|i: int| 0 <= i < ids.len() && (#[trigger] ids[i])@ == id
}

impl ReconnectRegistry {
    /// The destinations with a running loop.
    pub closed spec fn running(&self) -> Set<Seq<char>> {
        Set::new(|id: Seq<char>| holds(self.active@, id))
    }

    /// No loop runs.
    pub fn new() -> (r: ReconnectRegistry)
        ensures
            r.running() == Set::<Seq<char>>::empty(),
    {
        let r = ReconnectRegistry { active: Vec::new() };
        proof {
            assert(r.running() =~= Set::<Seq<char>>::empty());
        }
        r
    }

    /// Claims the loop of `platform_id`; false when one runs already.
    pub fn begin(&mut self, platform_id: &str) -> (started: bool)
        ensures
            started == !old(self).running().contains(platform_id@),
            final(self).running() == old(self).running().insert(platform_id@),
    {
        match position_in(&self.active, platform_id) {
            Some(i) => {
                proof {
                    lemma_position_found(self.active@, platform_id@, 0);
                    assert(self.active@[i as int]@ == platform_id@);
                    assert(holds(self.active@, platform_id@));
                    assert(old(self).running().insert(platform_id@) =~= old(self).running());
                }
                false
            },
            None => {
                proof {
                    lemma_position_absent(self.active@, platform_id@, 0);
                }
                self.active.push(owned(platform_id));
                proof {
                    assert forall|id: Seq<char>| holds(self.active@, id) <==> (holds(old(self).active@, id) || id == platform_id@) by {
                        if holds(self.active@, id) {
                            let i = choose|i: int| 0 <= i < self.active@.len() && (#[trigger] self.active@[i])@ == id;
                            if i < old(self).active@.len() {
                                assert(old(self).active@[i] == self.active@[i]);
                            }
                        }
                        if holds(old(self).active@, id) {
                            let i = choose|i: int| 0 <= i < old(self).active@.len() && (#[trigger] old(self).active@[i])@ == id;
                            assert(self.active@[i] == old(self).active@[i]);
                        }
                        if id == platform_id@ {
                            assert(self.active@[self.active@.len() - 1]@ == id);
                        }
                    }
                    assert(final(self).running() =~= old(self).running().insert(platform_id@));
                }
                true
            },
        }
    }

    /// Releases the loop of `platform_id`.
    pub fn finish(&mut self, platform_id: &str)
        ensures
            final(self).running() == old(self).running().remove(platform_id@),
    {
        let ghost before = self.active@;
        let mut kept: Vec<String> = Vec::new();
        let n = self.active.len();
        for i in 0..n
            invariant
                n == before.len(),
                self.active@ == before,
                forall|id: Seq<char>| holds(kept@, id) <==> (id != platform_id@ && exists|j: int| 0 <= j < i && (#[trigger] before[j])@ == id),
        {
            let same = str_eq(self.active[i].as_str(), platform_id);
            let ghost prev = kept@;
            if !same {
                kept.push(self.active[i].clone());
            }
            proof {
                assert forall|id: Seq<char>| holds(kept@, id) <==> (id != platform_id@ && exists|j: int| 0 <= j < i + 1 && (#[trigger] before[j])@ == id) by {
                    if holds(kept@, id) {
                        let k = choose|k: int| 0 <= k < kept@.len() && (#[trigger] kept@[k])@ == id;
                        if k < prev.len() {
                            assert(prev[k] == kept@[k]);
                            assert(holds(prev, id));
                        } else {
                            assert(before[i as int]@ == id);
                        }
                    }
                    if id != platform_id@ && exists|j: int| 0 <= j < i + 1 && (#[trigger] before[j])@ == id {
                        let j = choose|j: int| 0 <= j < i + 1 && (#[trigger] before[j])@ == id;
                        if j < i {
                            assert(holds(prev, id));
                            let k = choose|k: int| 0 <= k < prev.len() && (#[trigger] prev[k])@ == id;
                            assert(kept@[k] == prev[k]);
                        } else {
                            assert(kept@[kept@.len() - 1]@ == id);
                        }
                    }
                }
            }
        }
        self.active = kept;
        proof {
            assert(final(self).running() =~= old(self).running().remove(platform_id@));
        }
    }
}

proof fn lemma_position_found(ids: Seq<String>, id: Seq<char>, i: int)
    requires
        0 <= i,
    ensures
        position_of(ids, id, i) != -1 ==> i <= position_of(ids, id, i) < ids.len() && ids[position_of(ids, id, i)]@
            == id,
    decreases ids.len() - i,
{
    if i < ids.len() {
        lemma_position_found(ids, id, i + 1);
    }
}

proof fn lemma_position_absent(ids: Seq<String>, id: Seq<char>, i: int)
    requires
        0 <= i,
        position_of(ids, id, i) == -1,
    ensures
        forall|j: int| i <= j < ids.len() ==> (#[trigger] ids[j])@ != id,
    decreases ids.len() - i,
{
    if i < ids.len() {
        lemma_position_absent(ids, id, i + 1);
    }
}

} // verus!
