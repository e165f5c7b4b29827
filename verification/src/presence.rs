//! Discord Rich Presence while streaming: when to connect to the local Discord
//! client, the activity published while live (with a button linking to the
//! stream), and when to clear it. Discord is best-effort: nothing here ever
//! fails a stream; a failed call only marks the client disconnected so that the
//! next attempt connects again. The caller talks to Discord and reports back.
use vstd::prelude::*;

verus! {

/// The Discord application the activity is published under.
pub fn app_id() -> (id: &'static str)
    ensures
        id@ == "1371963968804880456"@,
{
    "1371963968804880456"
}

/// The key of the logo among the application's Rich Presence art assets.
pub open spec fn logo_asset_key() -> Seq<char> {
    "scope_monogram"@
}

/// Whether an IPC client to Discord has been made, and whether it is connected.
#[derive(Clone, Copy, PartialEq, Eq, Debug, Structural)]
pub struct DiscordState {
    pub has_client: bool,
    pub connected: bool,
}

impl DiscordState {
    /// No client yet.
    pub fn new() -> (s: DiscordState)
        ensures
            !s.has_client && !s.connected,
    {
        DiscordState { has_client: false, connected: false }
    }
}

/// What making sure of a connection takes.
#[derive(Clone, Copy, PartialEq, Eq, Debug, Structural)]
pub enum ConnectStep {
    /// Already connected: nothing to do.
    Connected,
    /// Connect, making the client with [`app_id`] first when there is none, and
    /// report the outcome to [`connect_finished`].
    Connect { make_client: bool },
}

/// What making sure of a connection takes in state `s`.
pub open spec fn connect_step(s: DiscordState) -> ConnectStep {
    if s.connected { ConnectStep::Connected } else { ConnectStep::Connect { make_client: !s.has_client } }
}

/// The first half of making sure of a connection.
pub fn ensure_connected(s: &DiscordState) -> (step: ConnectStep)
    ensures
        step == connect_step(*s),
{
    if s.connected {
        ConnectStep::Connected
    } else {
        ConnectStep::Connect { make_client: !s.has_client }
    }
}

/// Records the outcome of a connection attempt: the client now exists, and is
/// connected when the attempt succeeded. Returns whether it is connected.
pub fn connect_finished(s: &mut DiscordState, ok: bool) -> (connected: bool)
    ensures
        *final(s) == (DiscordState { has_client: true, connected: ok || old(s).connected }),
        connected == (ok || old(s).connected),
{
    s.has_client = true;
    if ok {
        s.connected = true;
    }
    s.connected
}

/// The activity published while live.
pub struct ActivityPlan {
    pub details: String,
    pub state: String,
    pub large_image: String,
    pub large_text: String,
    pub button_label: String,
    pub button_url: String,
    /// The start timestamp, in seconds since the Unix epoch.
    pub start: i64,
}

/// The page where viewers watch the stream of producer `producer_id`.
pub open spec fn watch_url(producer_id: Seq<char>) -> Seq<char> {
    "https://streamsnipe.live?streamId="@ + producer_id
}

/// The activity's start: the seconds since the Unix epoch as a signed count, or
/// 0 when the clock reads before the epoch (`None`).
pub open spec fn activity_start(since_epoch_secs: Option<u64>) -> i64 {
    match since_epoch_secs {
        Some(secs) => secs as i64,
        None => 0,
    }
}

/// Whether `a` is the activity for producer `producer_id`: "Streaming via
/// StreamSnipe", "Live now", the logo captioned "StreamSnipe", a "Watch Stream"
/// button to the stream, started at the given time.
pub open spec fn is_streaming_activity(a: ActivityPlan, producer_id: Seq<char>, since_epoch_secs: Option<u64>) -> bool {
    &&& a.details@ == "Streaming via StreamSnipe"@
    &&& a.state@ == "Live now"@
    &&& a.large_image@ == logo_asset_key()
    &&& a.large_text@ == "StreamSnipe"@
    &&& a.button_label@ == "Watch Stream"@
    &&& a.button_url@ == watch_url(producer_id)
    &&& a.start == activity_start(since_epoch_secs)
}

/// Publishing the live activity, once a connection was made sure of: with a
/// connected client, the activity to publish; otherwise nothing (the stream
/// goes on without it).
pub fn set_streaming(s: &DiscordState, producer_id: &str, since_epoch_secs: Option<u64>) -> (r: Option<ActivityPlan>)
    ensures
        r is Some <==> (s.connected && s.has_client),
        r matches Some(a) ==> is_streaming_activity(a, producer_id@, since_epoch_secs),
{
    if !s.connected || !s.has_client {
        return None;
    }
    let start: i64 = match since_epoch_secs {
        Some(secs) => secs as i64,
        None => 0,
    };
    Some(ActivityPlan {
        details: String::from_str("Streaming via StreamSnipe"),
        state: String::from_str("Live now"),
        large_image: String::from_str("scope_monogram"),
        large_text: String::from_str("StreamSnipe"),
        button_label: String::from_str("Watch Stream"),
        button_url: String::from_str("https://streamsnipe.live?streamId=").concat(producer_id),
        start,
    })
}

/// Clearing the activity when the stream ends: whether there is a connected
/// client to clear it on.
pub fn clear(s: &DiscordState) -> (call: bool)
    ensures
        call == (s.connected && s.has_client),
{
    s.connected && s.has_client
}

/// The state after publishing or clearing the activity succeeded (`ok`) or failed.
pub open spec fn after_activity_call(s: DiscordState, ok: bool) -> DiscordState {
    DiscordState { connected: s.connected && ok, ..s }
}

/// Records the outcome of publishing or clearing the activity: a failure marks
/// the client disconnected, so the next attempt connects again.
pub fn activity_call_finished(s: &mut DiscordState, ok: bool)
    ensures
        *final(s) == after_activity_call(*old(s), ok),
{
    if !ok {
        s.connected = false;
    }
}

/// A connected presence publishes without connecting again; after a failed
/// publish or clear the next attempt connects again, on the client it has; a
/// successful one changes nothing.
pub proof fn failed_calls_reconnect(s: DiscordState)
    ensures
        s.connected ==> connect_step(s) == ConnectStep::Connected,
        s.has_client ==> connect_step(after_activity_call(s, false)) == (ConnectStep::Connect { make_client: false }),
        after_activity_call(s, true) == s,
{
}

} // verus!
