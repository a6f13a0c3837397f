//! Values shown to the user, event payloads and configuration.

use std::collections::HashMap;

use base64::Engine;
use vstd::prelude::*;

use crate::ids::{fresh_uuid, is_random_id, uuid_reading};
use crate::text::same_text;

verus! {

/// How a channel keeps its messages.
#[derive(Debug, Clone, Copy, PartialEq, Eq, Structural)]
pub enum PchatProtocol {
    /// Not at all.
    Disabled,
    /// The full history, for every member.
    FancyV1FullArchive,
    /// From a member's joining on.
    SignalV1,
}

/// The name by which a protocol travels.
pub open spec fn pchat_name(protocol: PchatProtocol) -> Seq<char> {
    match protocol {
        PchatProtocol::Disabled => "none"@,
        PchatProtocol::FancyV1FullArchive => "fancy_v1_full_archive"@,
        PchatProtocol::SignalV1 => "signal_v1"@,
    }
}

/// The protocol of a name; an unknown name stands for none.
pub open spec fn pchat_of_name(name: Seq<char>) -> PchatProtocol {
    if name == "fancy_v1_full_archive"@ {
        PchatProtocol::FancyV1FullArchive
    } else if name == "signal_v1"@ {
        PchatProtocol::SignalV1
    } else {
        PchatProtocol::Disabled
    }
}

impl PchatProtocol {
    /// The name by which this protocol travels.
    pub fn name(self) -> (r: &'static str)
        ensures
            r@ == pchat_name(self),
    {
        match self {
            PchatProtocol::Disabled => "none",
            PchatProtocol::FancyV1FullArchive => "fancy_v1_full_archive",
            PchatProtocol::SignalV1 => "signal_v1",
        }
    }
}

/// The protocol of a name that the user interface sends.
pub fn parse_pchat_protocol_str(s: &str) -> (r: PchatProtocol)
    ensures
        r == pchat_of_name(s@),
{
    if same_text(s, "fancy_v1_full_archive") {
        PchatProtocol::FancyV1FullArchive
    } else if same_text(s, "signal_v1") {
        PchatProtocol::SignalV1
    } else {
        PchatProtocol::Disabled
    }
}

/// Every protocol is read back from its name.
pub proof fn pchat_names_round_trip(protocol: PchatProtocol)
    ensures
        pchat_of_name(pchat_name(protocol)) == protocol,
{
    reveal_strlit("none");
    reveal_strlit("fancy_v1_full_archive");
    reveal_strlit("signal_v1");
    assert("none"@.len() == 4);
    assert("fancy_v1_full_archive"@.len() == 21);
    assert("signal_v1"@.len() == 9);
}

/// The factor of a digest; odd, so that no step of a digest loses anything.
pub const DIGEST_FACTOR: u64 = 16777619;

/// How many digests there are.
pub const DIGESTS: u64 = 0x8000_0000;

/// One step of a digest.
pub open spec fn digest_step(digest: int, byte: u8) -> int {
    (digest * DIGEST_FACTOR + byte) % (DIGESTS as int)
}

/// The digest of some bytes: a polynomial in all of them.
pub open spec fn digest_of(bytes: Seq<u8>) -> int
    decreases bytes.len(),
{
    if bytes.len() == 0 {
        1
    } else {
        digest_step(digest_of(bytes.drop_last()), bytes.last())
    }
}

/// The marker of some bytes: twice their digest, made odd.
pub open spec fn marker_of(bytes: Seq<u8>) -> int {
    2 * digest_of(bytes) + 1
}

/// A stable, non-zero marker of some bytes.
///
/// It is non-zero whenever there is something, so that the user interface knows
/// to fetch it, and changes with it, so that caches are refreshed.
pub fn blob_marker(bytes: &Vec<u8>) -> (r: u32)
    ensures
        r == marker_of(bytes@),
        r != 0,
{
    let mut digest: u64 = 1;
    let mut i: usize = 0;
    assert(bytes@.subrange(0, 0) =~= Seq::empty());
    while i < bytes.len()
        invariant
            i <= bytes.len(),
            digest < DIGESTS,
            digest == digest_of(bytes@.subrange(0, i as int)),
        decreases bytes.len() - i,
    {
        let ghost more = bytes@.subrange(0, i + 1);
        assert(more.drop_last() =~= bytes@.subrange(0, i as int));
        digest = (digest * DIGEST_FACTOR + bytes[i] as u64) % DIGESTS;
        i += 1;
    }
    assert(bytes@.subrange(0, bytes@.len() as int) =~= bytes@);
    digest as u32 * 2 + 1
}

proof fn lemma_digest_range(bytes: Seq<u8>)
    ensures
        0 <= digest_of(bytes) < DIGESTS,
    decreases bytes.len(),
{
    if bytes.len() > 0 {
        lemma_digest_range(bytes.drop_last());
    }
}

/// Numbers with the same remainder differ by a multiple.
proof fn lemma_same_remainder(x: int, y: int, n: int) -> (k: int)
    requires
        n > 0,
        x % n == y % n,
    ensures
        x - y == k * n,
{
    let k = x / n - y / n;
    assert(x - y == k * n) by (nonlinear_arith)
        requires
            n > 0,
            x % n == y % n,
            k == x / n - y / n,
    ;
    k
}

/// A small multiple is zero.
proof fn lemma_small_multiple(d: int, k: int, n: int)
    requires
        d == k * n,
        -n < d < n,
        n > 0,
    ensures
        d == 0,
{
    assert(k == 0) by (nonlinear_arith)
        requires
            d == k * n,
            -n < d < n,
            n > 0,
    ;
    assert(0 * n == 0) by (nonlinear_arith);
}

/// A step keeps digests apart.
proof fn lemma_step_keeps_apart(a: int, b: int, byte: u8)
    requires
        0 <= a < DIGESTS,
        0 <= b < DIGESTS,
        a != b,
    ensures
        digest_step(a, byte) != digest_step(b, byte),
{
    let n = DIGESTS as int;
    let m = DIGEST_FACTOR as int;
    if digest_step(a, byte) == digest_step(b, byte) {
        let k = lemma_same_remainder(a * m + byte, b * m + byte, n);
        let d = a - b;
        assert(d * m == k * n) by (nonlinear_arith)
            requires
                d == a - b,
                (a * m + byte) - (b * m + byte) == k * n,
        ;
        // The factor has an inverse among the digests.
        let inverse: int = 899433627;
        let over: int = 7026994;
        assert(m * inverse == 1 + over * n);
        let t = k * inverse - d * over;
        assert(d == t * n) by (nonlinear_arith)
            requires
                d * m == k * n,
                m * inverse == 1 + over * n,
                t == k * inverse - d * over,
        ;
        lemma_small_multiple(d, t, n);
    }
}

/// Whatever follows keeps digests apart.
proof fn lemma_suffix_keeps_apart(a: Seq<u8>, b: Seq<u8>, rest: Seq<u8>)
    requires
        digest_of(a) != digest_of(b),
    ensures
        digest_of(a + rest) != digest_of(b + rest),
    decreases rest.len(),
{
    if rest.len() == 0 {
        assert(a + rest =~= a);
        assert(b + rest =~= b);
    } else {
        let before = rest.drop_last();
        lemma_suffix_keeps_apart(a, b, before);
        lemma_digest_range(a + before);
        lemma_digest_range(b + before);
        lemma_step_keeps_apart(digest_of(a + before), digest_of(b + before), rest.last());
        assert((a + rest).drop_last() =~= a + before);
        assert((b + rest).drop_last() =~= b + before);
    }
}

/// Two things of one length that differ in one byte have different markers.
pub proof fn a_changed_byte_changes_the_marker(a: Seq<u8>, b: Seq<u8>, i: int)
    requires
        a.len() == b.len(),
        0 <= i < a.len(),
        a[i] != b[i],
        forall|j: int| 0 <= j < a.len() && j != i ==> a[j] == b[j],
    ensures
        marker_of(a) != marker_of(b),
{
    let n = DIGESTS as int;
    let head = a.subrange(0, i);
    let tail = a.subrange(i + 1, a.len() as int);
    let x = head.push(a[i]);
    let y = head.push(b[i]);
    assert(a =~= x + tail);
    assert(b =~= y + tail);
    assert(x.drop_last() =~= head);
    assert(y.drop_last() =~= head);
    if digest_of(x) == digest_of(y) {
        let base = digest_of(head) * DIGEST_FACTOR;
        let k = lemma_same_remainder(base + a[i], base + b[i], n);
        lemma_small_multiple(a[i] - b[i], k, n);
    }
    lemma_suffix_keeps_apart(x, y, tail);
}

/// The length in bytes that stands for a text that is fetched on demand; none
/// for an empty one.
pub fn text_size(text: &str) -> (r: Option<u32>)
    ensures
        r == if text@.len() == 0 {
            None
        } else {
            Some(vstd::utf8::encode_utf8(text@).len() as u32)
        },
        r == size_shown(text@),
{
    if text.is_empty() {
        None
    } else {
        let size: usize = text.as_bytes().len();
        Some(
            #[verifier::truncate]
            (size as u32),
        )
    }
}

/// A channel.
#[derive(Debug, Clone, PartialEq)]
pub struct ChannelEntry {
    /// Its number.
    pub id: u32,
    /// The channel it lies in.
    pub parent_id: Option<u32>,
    /// Its name.
    pub name: String,
    /// Its description; the user interface gets the size and fetches the rest.
    pub description: String,
    /// The hash of the description.
    pub description_hash: Option<Vec<u8>>,
    /// How many users are in it.
    pub user_count: u32,
    /// What we may do in it, once the server has said so.
    pub permissions: Option<u32>,
    /// Whether it goes when the last user leaves.
    pub temporary: bool,
    /// Where it is sorted.
    pub position: i32,
    /// How many users it takes; 0 for no limit.
    pub max_users: u32,
    /// How it keeps messages, where the server has said so.
    pub pchat_protocol: Option<PchatProtocol>,
    /// How many messages it keeps; 0 for no limit.
    pub pchat_max_history: Option<u32>,
    /// For how many days it keeps them; 0 for ever.
    pub pchat_retention_days: Option<u32>,
    /// The certificate hashes of those who keep its keys.
    pub pchat_key_custodians: Vec<String>,
    /// Whether it takes a password to enter.
    pub is_enter_restricted: bool,
}

/// A user.
#[derive(Debug, Clone, PartialEq)]
pub struct UserEntry {
    /// The session.
    pub session: u32,
    /// The name.
    pub name: String,
    /// The channel the user is in.
    pub channel_id: u32,
    /// The registration, where there is one.
    pub user_id: Option<u32>,
    /// The avatar, once it was fetched.
    pub texture: Option<Vec<u8>>,
    /// Marks the avatar's version, where there is one.
    pub texture_marker: Option<u32>,
    /// The comment, once it was fetched.
    pub comment: Option<String>,
    /// Marks the comment's version, where there is one.
    pub comment_marker: Option<u32>,
    /// Muted by the server.
    pub mute: bool,
    /// Deafened by the server.
    pub deaf: bool,
    /// Suppressed by the server.
    pub suppress: bool,
    /// Muted by themselves.
    pub self_mute: bool,
    /// Deafened by themselves.
    pub self_deaf: bool,
    /// Whether others are lowered while this user speaks.
    pub priority_speaker: bool,
    /// The certificate's hash, a stable identity.
    pub hash: Option<String>,
    /// What the client says it can do.
    pub client_features: Vec<i32>,
}

impl UserEntry {
    /// A user of whom only the session is known.
    pub fn new(session: u32) -> (r: Self)
        ensures
            r.session == session,
            r.name@ == Seq::<char>::empty(),
            r.channel_id == 0,
            r.user_id is None,
            r.texture is None,
            r.texture_marker is None,
            r.comment is None,
            r.comment_marker is None,
            !r.mute,
            !r.deaf,
            !r.suppress,
            !r.self_mute,
            !r.self_deaf,
            !r.priority_speaker,
            r.hash is None,
            r.client_features@ == Seq::<i32>::empty(),
    {
        UserEntry {
            session,
            name: String::new(),
            channel_id: 0,
            user_id: None,
            texture: None,
            texture_marker: None,
            comment_marker: None,
            comment: None,
            mute: false,
            deaf: false,
            suppress: false,
            self_mute: false,
            self_deaf: false,
            priority_speaker: false,
            hash: None,
            client_features: Vec::new(),
        }
    }

    /// Whether this user's client can take part in encrypted persistent chat;
    /// `feature` is the number under which clients announce that.
    pub fn has_pchat_e2ee(&self, feature: i32) -> (r: bool)
        ensures
            r == self.client_features@.contains(feature),
    {
        let mut i: usize = 0;
        while i < self.client_features.len()
            invariant
                i <= self.client_features.len(),
                forall|j: int| 0 <= j < i ==> self.client_features@[j] != feature,
            decreases self.client_features.len() - i,
        {
            if self.client_features[i] == feature {
                assert(self.client_features@[i as int] == feature);
                return true;
            }
            i += 1;
        }
        false
    }
}

/// A message, in a channel or between two users.
#[derive(Debug, Clone, PartialEq)]
pub struct ChatMessage {
    /// Who sent it, while that session lasts.
    pub sender_session: Option<u32>,
    /// The sender's name.
    pub sender_name: String,
    /// The sender's certificate hash, which outlasts the session.
    pub sender_hash: Option<String>,
    /// The text.
    pub body: String,
    /// The channel.
    pub channel_id: u32,
    /// Whether we sent it.
    pub is_own: bool,
    /// The other user of a direct message.
    pub dm_session: Option<u32>,
    /// Identifies the message.
    pub message_id: Option<String>,
    /// When it was sent, in milliseconds.
    pub timestamp: Option<u64>,
    /// Whether it was sent in the clear on a channel with encrypted history.
    pub is_legacy: bool,
    /// When it was edited.
    pub edited_at: Option<u64>,
    /// Whether it is pinned.
    pub pinned: bool,
    /// Who pinned it.
    pub pinned_by: Option<String>,
    /// When it was pinned.
    pub pinned_at: Option<u64>,
    /// The plugin that wrote it, where one did.
    pub plugin_name: Option<String>,
    /// The plugin's interface components, as JSON text.
    pub plugin_components: Option<String>,
}

impl ChatMessage {
    /// Make sure that the message has an identity, `fresh` where it has none.
    pub fn ensure_id_from(&mut self, fresh: String)
        ensures
            *final(self) == (ChatMessage {
                message_id: match old(self).message_id {
                    Some(id) => Some(id),
                    None => Some(fresh),
                },
                ..*old(self)
            }),
            *final(self) == identified(*old(self), fresh),
    {
        if self.message_id.is_none() {
            self.message_id = Some(fresh);
        }
    }

    /// Make sure that the message has an identity, a random one where it has
    /// none, so that it can be referred to while it is stored elsewhere.
    pub fn ensure_id(&mut self)
        ensures
            final(self).message_id is Some,
            old(self).message_id is Some ==> *final(self) == *old(self),
            *final(self) == (ChatMessage { message_id: final(self).message_id, ..*old(self) }),
            old(self).message_id is None ==> {
                &&& final(self).message_id->0@.len() == 36
                &&& uuid_reading(final(self).message_id->0@) matches Ok(number)
                    && is_random_id(number)
            },
    {
        if self.message_id.is_none() {
            let fresh = fresh_uuid();
            self.ensure_id_from(fresh);
        }
    }
}

/// Whether a server connection is up.
#[derive(Debug, Clone, Copy, PartialEq, Eq, Structural)]
pub enum ConnectionStatus {
    /// It is not.
    Disconnected,
    /// It is being set up.
    Connecting,
    /// It is.
    Connected,
}

impl Default for ConnectionStatus {
    fn default() -> (r: Self)
        ensures
            r == ConnectionStatus::Disconnected,
    {
        ConnectionStatus::Disconnected
    }
}

/// One line of a server's activity log.
#[derive(Debug, Clone)]
pub struct ServerLogEntry {
    /// When, in milliseconds.
    pub timestamp_ms: u64,
    /// What.
    pub message: String,
}

/// A point in time of the system's clock.
#[verifier::external_type_specification]
#[verifier::external_body]
pub struct ExSystemTime(std::time::SystemTime);

/// That one point in time lies before another.
#[verifier::external_type_specification]
#[verifier::external_body]
pub struct ExSystemTimeError(std::time::SystemTimeError);

/// `SystemTime::now`: the system's clock.  Nothing is claimed of it.
#[verifier::external_body]
fn clock_now() -> (r: std::time::SystemTime) {
    std::time::SystemTime::now()
}

/// `SystemTime::duration_since` the Unix epoch.  Nothing is claimed of it: the
/// clock may stand before the epoch.
#[verifier::external_body]
fn since_epoch(now: std::time::SystemTime) -> (r: Result<
    std::time::Duration,
    std::time::SystemTimeError,
>) {
    now.duration_since(std::time::UNIX_EPOCH)
}

/// `Duration::as_millis`: the whole milliseconds of a span.  Nothing is claimed
/// of them.
#[verifier::external_body]
fn whole_millis(span: &std::time::Duration) -> (r: u128) {
    span.as_millis()
}

impl ServerLogEntry {
    /// A line written at this time after the epoch; without one, at the epoch.
    pub fn at(elapsed_ms: Option<u128>, message: String) -> (r: Self)
        ensures
            r.message@ == message@,
            r.timestamp_ms == match elapsed_ms {
                Some(ms) => ms as u64,
                None => 0,
            },
            r == logged_at(elapsed_ms, message),
    {
        let timestamp_ms: u64 = match elapsed_ms {
            Some(ms) => {
                #[verifier::truncate]
                (ms as u64)
            },
            None => 0,
        };
        ServerLogEntry { timestamp_ms, message }
    }

    /// A line written now.
    pub fn now(message: String) -> (r: Self)
        ensures
            r.message@ == message@,
    {
        let elapsed: Option<u128> = match since_epoch(clock_now()) {
            Ok(span) => Some(whole_millis(&span)),
            Err(_) => None,
        };
        ServerLogEntry::at(elapsed, message)
    }
}

/// What a server allows.
#[derive(Debug, Clone)]
pub struct ServerConfig {
    /// Longest text of a message.
    pub max_message_length: u32,
    /// Longest message with images.
    pub max_image_message_length: u32,
    /// Whether messages may hold HTML.
    pub allow_html: bool,
    /// Whether the server forwards screen shares.
    pub webrtc_sfu_available: bool,
    /// Whether the server relays the signals of direct screen-share
    /// connections.  Without that, one would be taken for the start of a
    /// broadcast, so this has to be known before one is sent.
    pub webrtc_p2p_relay_available: bool,
    /// Where the server's extra interface is, where it says so.
    pub fancy_rest_api_url: Option<String>,
}

/// What a server allows before it has said anything.
pub open spec fn is_default_config(c: ServerConfig) -> bool {
    &&& c.max_message_length == 5000
    &&& c.max_image_message_length == 131072
    &&& c.allow_html
    &&& !c.webrtc_sfu_available
    &&& !c.webrtc_p2p_relay_available
    &&& c.fancy_rest_api_url is None
}

impl Default for ServerConfig {
    fn default() -> (r: Self)
        ensures
            is_default_config(r),
    {
        ServerConfig {
            max_message_length: 5000,
            max_image_message_length: 131072,
            allow_html: true,
            webrtc_sfu_available: false,
            webrtc_p2p_relay_available: false,
            fancy_rest_api_url: None,
        }
    }
}

/// What the server says of itself in the handshake.
#[derive(Debug, Default, Clone)]
pub struct ServerVersionInfo {
    /// Release.
    pub release: Option<String>,
    /// Operating system.
    pub os: Option<String>,
    /// Its version.
    pub os_version: Option<String>,
    /// Protocol version in the first encoding.
    pub version_v1: Option<u32>,
    /// Protocol version in the second encoding.
    pub version_v2: Option<u64>,
    /// Version of the extensions.
    pub fancy_version: Option<u64>,
}

/// What the user is shown of a server.
#[derive(Debug, Clone)]
pub struct ServerInfo {
    /// Host.
    pub host: String,
    /// Port.
    pub port: u16,
    /// Users on the server.
    pub user_count: u32,
    /// Users it takes.
    pub max_users: Option<u32>,
    /// Protocol version, readable.
    pub protocol_version: Option<String>,
    /// Version of the extensions.
    pub fancy_version: Option<u64>,
    /// Release.
    pub release: Option<String>,
    /// Operating system.
    pub os: Option<String>,
    /// Most bandwidth, in bits per second.
    pub max_bandwidth: Option<u32>,
    /// Whether it takes Opus.
    pub opus: bool,
}

/// Statistics for developers.
#[derive(Debug, Clone)]
pub struct DebugStats {
    /// Channel messages in memory.
    pub channel_message_count: usize,
    /// Direct messages in memory.
    pub dm_message_count: usize,
    /// All messages in memory.
    pub total_message_count: usize,
    /// Messages stored elsewhere.
    pub offloaded_count: usize,
    /// Channels.
    pub channel_count: usize,
    /// Users.
    pub user_count: usize,
    /// How many connections there have been.
    pub connection_epoch: u64,
    /// The voice state.
    pub voice_state: String,
    /// Seconds since the start.
    pub uptime_seconds: u64,
}

/// One of the server's plugins.
#[derive(Debug, Clone)]
pub struct PluginRegistryEntryPayload {
    /// Its name.
    pub plugin_name: String,
    /// Its version.
    pub version: String,
    /// Where its data goes.
    pub plugin_slot: Option<u32>,
    /// What it says of itself, as JSON text.
    pub info_json: Option<String>,
}

/// A signal of a screen share on its way to the user interface.
#[derive(Debug, Clone, PartialEq, Eq)]
pub struct WebRtcSignalPayload {
    /// Who sent it.
    pub sender_session: Option<u32>,
    /// Whom it is for.
    pub target_session: Option<u32>,
    /// The number of its kind.
    pub signal_type: i32,
    /// What it carries.
    pub payload: String,
}

/// The end of a connection on its way to the user interface.
#[derive(Debug, Clone, PartialEq, Eq)]
pub struct DisconnectedPayload {
    /// Which connection.
    pub server_id: Option<String>,
    /// Why.
    pub reason: Option<String>,
}

/// Data of a plugin on its way to the user interface.
#[derive(Debug, Clone)]
pub struct PluginDataPayload {
    /// Who sent it.
    pub sender_session: Option<u32>,
    /// The data.
    pub data: Vec<u8>,
    /// Which data.
    pub data_id: String,
}

/// Bytes in base 64.
pub uninterp spec fn base64_text(bytes: Seq<u8>) -> Seq<char>;

/// `base64::engine::general_purpose::STANDARD.encode`: the bytes in base 64,
/// with the standard alphabet and padding.
#[verifier::external_body]
fn base64_standard(bytes: &Vec<u8>) -> (r: String)
    ensures
        r@ == base64_text(bytes@),
{
    base64::engine::general_purpose::STANDARD.encode(bytes)
}

impl PluginDataPayload {
    /// The data as it travels: in base 64, because an array of numbers would be
    /// many times its size.
    pub fn data_text(&self) -> (r: String)
        ensures
            r@ == base64_text(self.data@),
    {
        base64_standard(&self.data)
    }
}

/// A key-share request that waits for the user.
#[derive(Debug, Clone)]
pub struct PendingKeyShare {
    /// The channel.
    pub channel_id: u32,
    /// Who asks.
    pub peer_cert_hash: String,
    /// Their name.
    pub peer_name: String,
    /// The server's number of the request, where there is one.
    pub request_id: Option<String>,
}

/// Someone who holds the key of a channel.
#[derive(Debug, Clone)]
pub struct KeyHolderEntry {
    /// Certificate hash.
    pub cert_hash: String,
    /// Name.
    pub name: String,
    /// Whether they are online.
    pub is_online: bool,
}

/// A registered user.
#[derive(Debug, Clone)]
pub struct RegisteredUserPayload {
    /// Registration.
    pub user_id: u32,
    /// Name.
    pub name: String,
    /// When they were last seen.
    pub last_seen: Option<String>,
    /// Where they were last seen.
    pub last_channel: Option<u32>,
    /// The avatar's size, where there is one.
    pub texture_size: Option<u32>,
    /// The comment, where it is short.
    pub comment: Option<String>,
    /// The comment's hash, where it is long.
    pub comment_hash: Option<Vec<u8>>,
}

/// The comment of a registered user.
#[derive(Debug, Clone)]
pub struct UserCommentPayload {
    /// Registration.
    pub user_id: u32,
    /// Comment.
    pub comment: String,
}

/// A change of a registration: a new name, or none to remove it.
#[derive(Debug, Clone)]
pub struct RegisteredUserUpdate {
    /// Registration.
    pub user_id: u32,
    /// The new name.
    pub name: Option<String>,
}

/// A ban.
#[derive(Debug, Clone)]
pub struct BanEntryPayload {
    /// Address.
    pub address: String,
    /// How many bits of it count.
    pub mask: u32,
    /// Name.
    pub name: String,
    /// Certificate hash.
    pub hash: String,
    /// Why.
    pub reason: String,
    /// Since when.
    pub start: String,
    /// For how long.
    pub duration: u32,
}

/// The access rules of a channel.
#[derive(Debug, Clone)]
pub struct AclPayload {
    /// The channel.
    pub channel_id: u32,
    /// Whether it takes over the rules of its parent.
    pub inherit_acls: bool,
    /// Its groups.
    pub groups: Vec<AclGroupPayload>,
    /// Its rules.
    pub acls: Vec<AclEntryPayload>,
}

/// A group of a channel.
#[derive(Debug, Clone)]
pub struct AclGroupPayload {
    /// Name.
    pub name: String,
    /// Whether it comes from the parent.
    pub inherited: bool,
    /// Whether it takes over the parent's members.
    pub inherit: bool,
    /// Whether channels below take it over.
    pub inheritable: bool,
    /// Members added here.
    pub add: Vec<u32>,
    /// Members removed here.
    pub remove: Vec<u32>,
    /// Members taken over.
    pub inherited_members: Vec<u32>,
    /// Colour.
    pub color: Option<String>,
    /// Icon.
    pub icon: Option<Vec<u8>>,
    /// Style.
    pub style_preset: Option<String>,
    /// Anything else.
    pub metadata: HashMap<String, String>,
}

/// A rule of a channel.
#[derive(Debug, Clone)]
pub struct AclEntryPayload {
    /// Whether it holds here.
    pub apply_here: bool,
    /// Whether it holds below.
    pub apply_subs: bool,
    /// Whether it comes from the parent.
    pub inherited: bool,
    /// Whom it is for.
    pub user_id: Option<u32>,
    /// Which group it is for.
    pub group: Option<String>,
    /// What it grants.
    pub grant: u32,
    /// What it denies.
    pub deny: u32,
}

/// What a flag of an access rule is where it is left out.
pub fn default_true() -> (r: bool)
    ensures
        r,
{
    true
}

/// A ban that the user has entered.
#[derive(Debug, Clone)]
pub struct BanEntryInput {
    /// Address.
    pub address: String,
    /// How many bits of it count.
    pub mask: u32,
    /// Name.
    pub name: String,
    /// Certificate hash.
    pub hash: String,
    /// Why.
    pub reason: String,
    /// Since when.
    pub start: String,
    /// For how long.
    pub duration: u32,
}

/// Access rules that the user has entered.
#[derive(Debug, Clone)]
pub struct AclInput {
    /// The channel.
    pub channel_id: u32,
    /// Whether it takes over the rules of its parent.
    pub inherit_acls: bool,
    /// Its groups.
    pub groups: Vec<AclGroupInput>,
    /// Its rules.
    pub acls: Vec<AclEntryInput>,
}

/// A group that the user has entered.
#[derive(Debug, Clone)]
pub struct AclGroupInput {
    /// Name.
    pub name: String,
    /// Whether it comes from the parent.
    pub inherited: bool,
    /// Whether it takes over the parent's members.
    pub inherit: bool,
    /// Whether channels below take it over.
    pub inheritable: bool,
    /// Members added here.
    pub add: Vec<u32>,
    /// Members removed here.
    pub remove: Vec<u32>,
    /// Members taken over.
    pub inherited_members: Vec<u32>,
    /// Colour.
    pub color: Option<String>,
    /// Icon.
    pub icon: Option<Vec<u8>>,
    /// Style.
    pub style_preset: Option<String>,
    /// Anything else.
    pub metadata: HashMap<String, String>,
}

/// A rule that the user has entered.
#[derive(Debug, Clone)]
pub struct AclEntryInput {
    /// Whether it holds here.
    pub apply_here: bool,
    /// Whether it holds below.
    pub apply_subs: bool,
    /// Whether it comes from the parent.
    pub inherited: bool,
    /// Whom it is for.
    pub user_id: Option<u32>,
    /// Which group it is for.
    pub group: Option<String>,
    /// What it grants.
    pub grant: u32,
    /// What it denies.
    pub deny: u32,
}

/// What a search is limited to.
#[derive(Debug, Clone, Copy, PartialEq, Eq, Structural)]
pub enum SearchFilter {
    /// Nothing.
    All,
    /// Messages.
    Messages,
    /// Photos.
    Photos,
    /// Users.
    Users,
    /// Links.
    Links,
}

/// What a search has found.
#[derive(Debug, Clone)]
pub enum SearchCategory {
    /// A channel.
    Channel,
    /// A user.
    User,
    /// A message.
    Message,
}

/// One result of a search.
#[derive(Debug, Clone)]
pub struct SearchResult {
    /// What was found.
    pub category: SearchCategory,
    /// How well it matches; 0 is best.
    pub score: u32,
    /// What is shown.
    pub title: String,
    /// What is shown below.
    pub subtitle: Option<String>,
    /// Its number.
    pub id: Option<u32>,
    /// Its identity, where that is no number.
    pub string_id: Option<String>,
}

/// A photo from a message.
#[derive(Debug, Clone)]
pub struct PhotoEntry {
    /// Where it is.
    pub src: String,
    /// Who sent it.
    pub sender_name: String,
    /// The channel, for a channel message.
    pub channel_id: Option<u32>,
    /// The other user, for a direct message.
    pub dm_session: Option<u32>,
    /// Readable context.
    pub context: String,
    /// When it was sent.
    pub timestamp: Option<u64>,
}

/// An audio device.
#[derive(Debug, Clone)]
pub struct AudioDevice {
    /// Name.
    pub name: String,
    /// Whether it is the default.
    pub is_default: bool,
}

/// The audio settings that are not levels.
///
/// The levels (thresholds, gains, volumes and the denoiser's knobs) are
/// fractions and are kept by the audio pipeline; where they count here, what
/// counts is whether they have moved.
#[derive(Debug, PartialEq)]
pub struct AudioSettings {
    /// The input device; none for the default.
    pub selected_device: Option<String>,
    /// Whether the gain is automatic.
    pub auto_gain: bool,
    /// For how many frames sound still passes after it has become quiet.
    pub hold_frames: u32,
    /// Whether a key has to be held to speak.
    pub push_to_talk: bool,
    /// Which key.
    pub push_to_talk_key: Option<String>,
    /// Bit rate, in bits per second.
    pub bitrate_bps: i32,
    /// Length of a packet in milliseconds.
    pub frame_size_ms: u32,
    /// Whether noise is suppressed.
    pub noise_suppression: bool,
    /// How, by the number of the algorithm.
    pub denoiser_algorithm: u32,
    /// The output device; none for the default.
    pub selected_output_device: Option<String>,
    /// Whether the sensitivity adjusts itself.
    pub auto_input_sensitivity: bool,
    /// Whether audio goes through the control connection.
    pub force_tcp_audio: bool,
}

/// Which levels have moved.
#[derive(Debug, Clone, Copy, PartialEq, Eq, Structural)]
pub struct MovedLevels {
    /// The voice activation threshold.
    pub vad_threshold: bool,
    /// The most gain.
    pub max_gain_db: bool,
    /// The ratio at which quiet sound no longer passes.
    pub noise_gate_close_ratio: bool,
    /// Any of the denoiser's knobs.
    pub denoiser_params: bool,
}

/// Optional texts are the same.
pub open spec fn same_option(a: Option<String>, b: Option<String>) -> bool {
    match (a, b) {
        (None, None) => true,
        (Some(x), Some(y)) => x@ == y@,
        _ => false,
    }
}

fn equal_options(a: &Option<String>, b: &Option<String>) -> (r: bool)
    ensures
        r == same_option(*a, *b),
{
    match (a, b) {
        (None, None) => true,
        (Some(x), Some(y)) => same_text(x.as_str(), y.as_str()),
        _ => false,
    }
}

fn copied(text: &Option<String>) -> (r: Option<String>)
    ensures
        r == *text,
{
    match text {
        Some(t) => Some(t.clone()),
        None => None,
    }
}

impl Clone for AudioSettings {
    fn clone(&self) -> (r: Self)
        ensures
            r == *self,
    {
        AudioSettings {
            selected_device: copied(&self.selected_device),
            auto_gain: self.auto_gain,
            hold_frames: self.hold_frames,
            push_to_talk: self.push_to_talk,
            push_to_talk_key: copied(&self.push_to_talk_key),
            bitrate_bps: self.bitrate_bps,
            frame_size_ms: self.frame_size_ms,
            noise_suppression: self.noise_suppression,
            denoiser_algorithm: self.denoiser_algorithm,
            selected_output_device: copied(&self.selected_output_device),
            auto_input_sensitivity: self.auto_input_sensitivity,
            force_tcp_audio: self.force_tcp_audio,
        }
    }
}

/// The audio settings of a new user.
pub open spec fn default_audio() -> AudioSettings {
    AudioSettings {
        selected_device: None,
        auto_gain: true,
        hold_frames: 15,
        push_to_talk: false,
        push_to_talk_key: None,
        bitrate_bps: 72_000,
        frame_size_ms: 20,
        noise_suppression: true,
        denoiser_algorithm: 0,
        selected_output_device: None,
        auto_input_sensitivity: false,
        force_tcp_audio: false,
    }
}

impl Default for AudioSettings {
    fn default() -> (r: Self)
        ensures
            r == default_audio(),
    {
        AudioSettings {
            selected_device: None,
            auto_gain: true,
            hold_frames: 15,
            push_to_talk: false,
            push_to_talk_key: None,
            bitrate_bps: 72_000,
            frame_size_ms: 20,
            noise_suppression: true,
            denoiser_algorithm: 0,
            selected_output_device: None,
            auto_input_sensitivity: false,
            force_tcp_audio: false,
        }
    }
}

impl AudioSettings {
    /// The samples per channel of a packet at 48 kHz; a length that is not
    /// offered counts as 20 ms.
    pub fn frame_ms_to_samples(frame_size_ms: u32) -> (r: usize)
        ensures
            r == if frame_size_ms == 10 || frame_size_ms == 40 || frame_size_ms == 60 {
                frame_size_ms * 48
            } else {
                960
            },
            r == samples_of(frame_size_ms),
    {
        match frame_size_ms {
            10 => 480,
            40 => 1920,
            60 => 2880,
            _ => 960,
        }
    }

    /// Whether the outgoing pipeline has to be restarted for other settings.
    ///
    /// The key to speak and what only the user interface shows do not count.
    pub fn needs_pipeline_restart(&self, other: &Self, moved: MovedLevels) -> (r: bool)
        ensures
            r == !({
                &&& same_option(self.selected_device, other.selected_device)
                &&& self.auto_gain == other.auto_gain
                &&& !moved.vad_threshold
                &&& !moved.max_gain_db
                &&& !moved.noise_gate_close_ratio
                &&& self.hold_frames == other.hold_frames
                &&& self.bitrate_bps == other.bitrate_bps
                &&& self.frame_size_ms == other.frame_size_ms
                &&& self.noise_suppression == other.noise_suppression
                &&& self.denoiser_algorithm == other.denoiser_algorithm
                &&& !moved.denoiser_params
                &&& self.auto_input_sensitivity == other.auto_input_sensitivity
            }),
            r == restarts_capture(*self, *other, moved),
    {
        !equal_options(&self.selected_device, &other.selected_device) || self.auto_gain
            != other.auto_gain || moved.vad_threshold || moved.max_gain_db
            || moved.noise_gate_close_ratio || self.hold_frames != other.hold_frames
            || self.bitrate_bps != other.bitrate_bps || self.frame_size_ms != other.frame_size_ms
            || self.noise_suppression != other.noise_suppression || self.denoiser_algorithm
            != other.denoiser_algorithm || moved.denoiser_params || self.auto_input_sensitivity
            != other.auto_input_sensitivity
    }

    /// Whether the incoming pipeline has to be restarted for other settings:
    /// when the output device has changed.
    pub fn needs_inbound_restart(&self, other: &Self) -> (r: bool)
        ensures
            r == !same_option(self.selected_output_device, other.selected_output_device),
            r == restarts_playback(*self, *other),
    {
        !equal_options(&self.selected_output_device, &other.selected_output_device)
    }
}

/// Whether the user takes part in the voice call.
#[derive(Debug, Clone, Copy, PartialEq, Eq, Structural)]
pub enum VoiceState {
    /// Neither hears nor speaks.
    Inactive,
    /// Hears and speaks.
    Active,
    /// Hears only.
    Muted,
}

impl Default for VoiceState {
    fn default() -> (r: Self)
        ensures
            r == VoiceState::Inactive,
    {
        VoiceState::Inactive
    }
}

/// One answer of an onboarding question.
#[derive(Debug, Clone, Default, PartialEq, Eq)]
pub struct OnboardingAnswer {
    /// Identifies it.
    pub id: String,
    /// What is shown.
    pub label: String,
    /// Channels that become visible.
    pub channel_ids: Vec<u32>,
    /// Groups that the user joins.
    pub group_names: Vec<String>,
    /// An emoji.
    pub emoji: Option<String>,
    /// What is shown below.
    pub description: Option<String>,
}

/// One onboarding question.
#[derive(Debug, Clone, Default, PartialEq, Eq)]
pub struct OnboardingQuestion {
    /// Identifies it.
    pub id: String,
    /// The question.
    pub text: String,
    /// Whether several answers may be picked.
    pub multi_select: bool,
    /// Whether one has to be.
    pub required: bool,
    /// Whether it comes before the server can be entered.
    pub ask_before_join: bool,
    /// The answers.
    pub answers: Vec<OnboardingAnswer>,
}

/// A server's onboarding.
#[derive(Debug, Clone, Default, PartialEq, Eq)]
pub struct OnboardingConfig {
    /// Its format.
    pub version: u32,
    /// Whether it is on.
    pub enabled: bool,
    /// Channels that everybody sees.
    pub default_channel_ids: Vec<u32>,
    /// The questions.
    pub questions: Vec<OnboardingQuestion>,
    /// How often it was changed.
    pub revision: u64,
    /// Who changed it.
    pub updated_by: Option<String>,
    /// When.
    pub updated_at: Option<u64>,
}

/// One setting of a server that can be edited.
#[derive(Debug, Clone, Default, PartialEq, Eq)]
pub struct ServerSetting {
    /// Identifies it.
    pub key: String,
    /// The kind of its value.
    pub value_type: String,
    /// Where it is shown.
    pub group: String,
    /// What is shown.
    pub label: String,
    /// Its value, unless it is a secret.
    pub value: Option<String>,
    /// The values it can take.
    pub options: Vec<String>,
    /// Whether it is a secret.
    pub secret: bool,
    /// A line of help.
    pub help: Option<String>,
}

/// A server's settings.
#[derive(Debug, Clone, Default, PartialEq, Eq)]
pub struct ServerSettingsSnapshot {
    /// The settings.
    pub settings: Vec<ServerSetting>,
    /// How often they were changed.
    pub revision: u64,
}

/// The answers picked for one question.
#[derive(Debug, Clone, Default, PartialEq, Eq)]
pub struct OnboardingSelection {
    /// The question.
    pub question_id: String,
    /// The answers.
    pub answer_ids: Vec<String>,
}

/// A user's answers.
#[derive(Debug, Clone, Default, PartialEq, Eq)]
pub struct OnboardingResponse {
    /// Whose.
    pub user_hash: Option<String>,
    /// When.
    pub submitted_at: Option<u64>,
    /// To which revision.
    pub config_revision: u64,
    /// The answers.
    pub selections: Vec<OnboardingSelection>,
}

/// How many messages of a channel or of a conversation are kept in memory.
/// Older ones can be loaded on demand.
pub const MAX_MESSAGES_PER_THREAD: usize = 500;

/// The last `limit` messages after another one.
pub open spec fn capped(messages: Seq<ChatMessage>, msg: ChatMessage, limit: int) -> Seq<
    ChatMessage,
> {
    let all = messages.push(msg);
    if all.len() > limit {
        all.subrange(all.len() - limit, all.len() as int)
    } else {
        all
    }
}

/// Append a message, dropping the oldest ones beyond the limit.
pub fn push_capped(messages: &mut Vec<ChatMessage>, msg: ChatMessage)
    ensures
        final(messages)@ == capped(old(messages)@, msg, MAX_MESSAGES_PER_THREAD as int),
{
    messages.push(msg);
    let ghost all = messages@;
    let len: usize = messages.len();
    if len > MAX_MESSAGES_PER_THREAD {
        let drop_count: usize = len - MAX_MESSAGES_PER_THREAD;
        let kept = messages.split_off(drop_count);
        *messages = kept;
        assert(messages@ =~= all.subrange(drop_count as int, all.len() as int));
    }
}

/// However many messages arrive, no more than the limit are kept, in order, and
/// the newest is always the last.
pub proof fn threads_are_bounded(messages: Seq<ChatMessage>, msg: ChatMessage)
    ensures
        capped(messages, msg, MAX_MESSAGES_PER_THREAD as int).len() <= MAX_MESSAGES_PER_THREAD,
        capped(messages, msg, MAX_MESSAGES_PER_THREAD as int).last() == msg,
        messages.len() < MAX_MESSAGES_PER_THREAD ==> capped(
            messages,
            msg,
            MAX_MESSAGES_PER_THREAD as int,
        ) == messages.push(msg),
        messages.len() == MAX_MESSAGES_PER_THREAD ==> capped(
            messages,
            msg,
            MAX_MESSAGES_PER_THREAD as int,
        ) == messages.subrange(1, messages.len() as int).push(msg),
{
    if messages.len() == MAX_MESSAGES_PER_THREAD {
        assert(capped(messages, msg, MAX_MESSAGES_PER_THREAD as int) =~= messages.subrange(
            1,
            messages.len() as int,
        ).push(msg));
    }
}

/// The size that is shown of a text.
pub open spec fn size_shown(text: Seq<char>) -> Option<u32> {
    if text.len() == 0 {
        None
    } else {
        Some(vstd::utf8::encode_utf8(text).len() as u32)
    }
}

/// Only a text with something in it has a size, which is that of its bytes.
pub proof fn sizes_are_those_of_the_bytes(text: Seq<char>)
    ensures
        size_shown(Seq::empty()) is None,
        text.len() > 0 && vstd::utf8::encode_utf8(text).len() <= u32::MAX ==> size_shown(text)
            is Some && size_shown(text)->0 == vstd::utf8::encode_utf8(text).len(),
{
}

/// A message with an identity: its own, or the fresh one where it has none.
pub open spec fn identified(msg: ChatMessage, fresh: String) -> ChatMessage {
    ChatMessage {
        message_id: match msg.message_id {
            Some(id) => Some(id),
            None => Some(fresh),
        },
        ..msg
    }
}

/// A message keeps the identity it has, and what it says in any case.
pub proof fn an_identity_is_given_once(msg: ChatMessage, fresh: String, other: String)
    ensures
        msg.message_id is Some ==> identified(msg, fresh) == msg,
        msg.message_id is None ==> identified(msg, fresh).message_id == Some(fresh),
        identified(identified(msg, fresh), other) == identified(msg, fresh),
        identified(msg, fresh).body == msg.body,
        identified(msg, fresh).sender_name == msg.sender_name,
        identified(msg, fresh).channel_id == msg.channel_id,
        identified(msg, fresh).timestamp == msg.timestamp,
{
}

/// A line of the log at a time since the epoch, where the clock gives one.
pub open spec fn logged_at(elapsed_ms: Option<u128>, message: String) -> ServerLogEntry {
    ServerLogEntry {
        timestamp_ms: match elapsed_ms {
            Some(ms) => ms as u64,
            None => 0,
        },
        message,
    }
}

/// A line of the log says what was logged and when, in milliseconds; 0 where the
/// clock stands before the epoch.
pub proof fn the_log_says_what_and_when(ms: u128, message: String)
    ensures
        ms <= u64::MAX ==> logged_at(Some(ms), message).timestamp_ms == ms,
        logged_at(None, message).timestamp_ms == 0,
        logged_at(Some(ms), message).message == message,
{
}

/// How many samples a frame of audio holds.
pub open spec fn samples_of(frame_size_ms: u32) -> int {
    if frame_size_ms == 10 || frame_size_ms == 40 || frame_size_ms == 60 {
        48 * frame_size_ms
    } else {
        960
    }
}

/// A frame holds the samples of its time at 48 kHz; a length that Opus does not
/// take counts as 20 ms.
pub proof fn a_frame_holds_the_samples_of_its_time(frame_size_ms: u32)
    ensures
        frame_size_ms == 10 || frame_size_ms == 20 || frame_size_ms == 40 || frame_size_ms == 60
            ==> samples_of(frame_size_ms) * 1000 == 48_000 * frame_size_ms,
        frame_size_ms != 10 && frame_size_ms != 20 && frame_size_ms != 40 && frame_size_ms != 60
            ==> samples_of(frame_size_ms) == samples_of(20),
{
}

/// Whether going from one setting to another takes a restart of what is
/// recorded.
pub open spec fn restarts_capture(a: AudioSettings, b: AudioSettings, moved: MovedLevels) -> bool {
    ||| !same_option(a.selected_device, b.selected_device)
    ||| a.auto_gain != b.auto_gain
    ||| a.hold_frames != b.hold_frames
    ||| a.bitrate_bps != b.bitrate_bps
    ||| a.frame_size_ms != b.frame_size_ms
    ||| a.noise_suppression != b.noise_suppression
    ||| a.denoiser_algorithm != b.denoiser_algorithm
    ||| a.auto_input_sensitivity != b.auto_input_sensitivity
    ||| moved.vad_threshold
    ||| moved.max_gain_db
    ||| moved.noise_gate_close_ratio
    ||| moved.denoiser_params
}

/// Whether going from one setting to another takes a restart of what is played.
pub open spec fn restarts_playback(a: AudioSettings, b: AudioSettings) -> bool {
    !same_option(a.selected_output_device, b.selected_output_device)
}

/// What is recorded starts anew exactly for a change of the microphone, the
/// processing or the encoding; where to play, how to talk and which way to send
/// need no such restart, and what is played starts anew for another device only.
pub proof fn only_what_has_changed_starts_anew(
    a: AudioSettings,
    b: AudioSettings,
    moved: MovedLevels,
)
    ensures
        restarts_capture(a, b, moved) == restarts_capture(b, a, moved),
        restarts_playback(a, b) == restarts_playback(b, a),
        !moved.vad_threshold && !moved.max_gain_db && !moved.noise_gate_close_ratio
            && !moved.denoiser_params ==> !restarts_capture(
            a,
            AudioSettings {
                push_to_talk: b.push_to_talk,
                push_to_talk_key: b.push_to_talk_key,
                selected_output_device: b.selected_output_device,
                force_tcp_audio: b.force_tcp_audio,
                ..a
            },
            moved,
        ),
        moved.vad_threshold || moved.max_gain_db || moved.noise_gate_close_ratio
            || moved.denoiser_params ==> restarts_capture(a, b, moved),
        !same_option(a.selected_device, b.selected_device) ==> restarts_capture(a, b, moved),
        a.auto_gain != b.auto_gain ==> restarts_capture(a, b, moved),
        a.hold_frames != b.hold_frames ==> restarts_capture(a, b, moved),
        a.bitrate_bps != b.bitrate_bps ==> restarts_capture(a, b, moved),
        a.frame_size_ms != b.frame_size_ms ==> restarts_capture(a, b, moved),
        a.noise_suppression != b.noise_suppression ==> restarts_capture(a, b, moved),
        a.denoiser_algorithm != b.denoiser_algorithm ==> restarts_capture(a, b, moved),
        a.auto_input_sensitivity != b.auto_input_sensitivity ==> restarts_capture(a, b, moved),
        !restarts_playback(a, AudioSettings { selected_device: b.selected_device, ..a }),
        a.selected_output_device is Some && b.selected_output_device is Some
            && a.selected_output_device->0@ != b.selected_output_device->0@ ==> restarts_playback(
            a,
            b,
        ),
        a.selected_output_device is Some != b.selected_output_device is Some ==> restarts_playback(
            a,
            b,
        ),
{
}

/// A thread keeps its last five hundred messages, the newest last.
pub proof fn a_thread_keeps_its_newest_messages(messages: Seq<ChatMessage>, msg: ChatMessage)
    ensures
        ({
            let kept = capped(messages, msg, MAX_MESSAGES_PER_THREAD as int);
            &&& kept.last() == msg
            &&& messages.len() < 500 ==> kept == messages.push(msg)
            &&& messages.len() >= 500 ==> kept.len() == 500 && forall|i: int|
                0 <= i < 499 ==> #[trigger] kept[i] == messages[messages.len() - 499 + i]
        }),
{
}

/// Until the server says otherwise messages may have five thousand characters
/// and may be marked up, images 128 KiB, and nothing goes by WebRTC.
pub proof fn a_server_that_says_nothing(c: ServerConfig)
    requires
        is_default_config(c),
    ensures
        c.max_message_length == 5000,
        c.max_image_message_length == 128 * 1024,
        c.allow_html,
        !c.webrtc_sfu_available && !c.webrtc_p2p_relay_available,
        c.fancy_rest_api_url is None,
{
}

/// Audio starts out with the default devices, processed, by voice, in frames of
/// 20 ms at 72 kbit/s, and not through the control connection.
pub proof fn audio_at_the_start()
    ensures
        default_audio().selected_device is None && default_audio().selected_output_device is None,
        default_audio().auto_gain && default_audio().noise_suppression,
        default_audio().hold_frames == 15,
        !default_audio().push_to_talk && default_audio().push_to_talk_key is None,
        default_audio().bitrate_bps == 72_000,
        default_audio().frame_size_ms == 20,
        default_audio().denoiser_algorithm == 0,
        !default_audio().auto_input_sensitivity,
        !default_audio().force_tcp_audio,
{
}

/// Each protocol goes by its name on the wire, and any other name means none.
pub proof fn protocols_go_by_their_names(name: Seq<char>)
    ensures
        pchat_name(PchatProtocol::Disabled) == "none"@,
        pchat_name(PchatProtocol::FancyV1FullArchive) == "fancy_v1_full_archive"@,
        pchat_name(PchatProtocol::SignalV1) == "signal_v1"@,
        name != "fancy_v1_full_archive"@ && name != "signal_v1"@ ==> pchat_of_name(name)
            == PchatProtocol::Disabled,
{
}

} // verus!
