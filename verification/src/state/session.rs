//! What is known of one server connection.

use std::collections::{HashMap, HashSet};

use vstd::prelude::*;
use vstd::std_specs::hash::*;

use crate::ids::ServerId;
use crate::media::broadcast::status::Status;
use crate::media::encoder::text_view;
use crate::state::types::{
    is_default_config, AudioSettings, ChannelEntry, ChatMessage, ConnectionStatus, KeyHolderEntry,
    OnboardingConfig, OnboardingResponse, PendingKeyShare, PluginDataPayload,
    PluginRegistryEntryPayload, ServerConfig, ServerSettingsSnapshot, ServerVersionInfo, UserEntry,
    VoiceState,
};

verus! {

broadcast use group_hash_axioms;

/// The voice call.
pub struct AudioPipelineState {
    /// The settings.
    pub settings: AudioSettings,
    /// Whether the user takes part.
    pub voice_state: VoiceState,
    /// Who is talking.
    pub talking_sessions: HashSet<u32>,
}

/// What the server says of itself.
pub struct ServerMetadata {
    /// Version of the extensions.
    pub fancy_version: Option<u64>,
    /// Versions from the handshake.
    pub version_info: ServerVersionInfo,
    /// Host.
    pub host: String,
    /// Port.
    pub port: u16,
    /// Users it takes.
    pub max_users: Option<u32>,
    /// Most bandwidth.
    pub max_bandwidth: Option<u32>,
    /// Whether it takes Opus.
    pub opus: bool,
    /// What it allows.
    pub config: ServerConfig,
    /// What it greets with.
    pub welcome_text: Option<String>,
    /// What we may do on it.
    pub root_permissions: Option<u32>,
}

/// The user's preferences.
#[derive(Debug, Clone, Copy, PartialEq, Eq, Structural)]
pub struct AppPreferences {
    /// Whether notifications are shown.
    pub notifications_enabled: bool,
    /// Whether messages are not also sent in the clear.
    pub disable_dual_path: bool,
    /// Whether the application has the focus.
    pub app_focused: bool,
}

/// Persistent chat.
pub struct PchatContext {
    /// Whether its keys are loaded.
    pub loaded: bool,
    /// The identity's seed.
    pub seed: Option<Vec<u8>>,
    /// Where the identity is kept.
    pub identity_dir: Option<String>,
    /// Requests for a key that wait for the user.
    pub pending_key_shares: Vec<PendingKeyShare>,
    /// Who holds the key of a channel.
    pub key_holders: HashMap<u32, Vec<KeyHolderEntry>>,
}

/// Messages and what is unread.
pub struct MessageStore {
    /// Messages of a channel.
    pub by_channel: HashMap<u32, Vec<ChatMessage>>,
    /// Messages with a user.
    pub by_dm: HashMap<u32, Vec<ChatMessage>>,
    /// Unread messages of a channel.
    pub channel_unread: HashMap<u32, u32>,
    /// Unread messages from a user.
    pub dm_unread: HashMap<u32, u32>,
    /// The conversation that is shown.
    pub selected_dm_user: Option<u32>,
}

/// The connection.
pub struct ConnectionFields {
    /// Whether it is up.
    pub status: ConnectionStatus,
    /// How many attempts there have been.
    pub epoch: u64,
    /// Whether commands can be sent.
    pub client: bool,
    /// Whether an attempt is under way.
    pub connect_task: bool,
    /// Whether messages are being received.
    pub event_loop: bool,
    /// Whether the server has sent its state.
    pub synced: bool,
    /// Our session.
    pub own_session: Option<u32>,
    /// Our name.
    pub own_name: String,
    /// Whether the user has asked to disconnect.
    pub user_initiated_disconnect: bool,
}

/// One server connection.
pub struct SharedState {
    /// The last screen share, running or not.
    pub native_broadcast: Option<Status>,
    /// The connection.
    pub conn: ConnectionFields,
    /// The server.
    pub server: ServerMetadata,
    /// Users by session.
    pub users: HashMap<u32, UserEntry>,
    /// Channels by number.
    pub channels: HashMap<u32, ChannelEntry>,
    /// Avatars of registered users, until the connection is ended.
    pub registered_user_textures: HashMap<u32, Vec<u8>>,
    /// The channel that is shown.
    pub selected_channel: Option<u32>,
    /// The channel we are in.
    pub current_channel: Option<u32>,
    /// Channels that are listened to from outside.
    pub permanently_listened: HashSet<u32>,
    /// Channels whose messages are pushed.
    pub push_subscribed_channels: HashSet<u32>,
    /// Messages.
    pub msgs: MessageStore,
    /// The voice call.
    pub audio: AudioPipelineState,
    /// Persistent chat.
    pub pchat_ctx: PchatContext,
    /// Preferences.
    pub prefs: AppPreferences,
    /// Identifies the connection while it is registered.
    pub server_id: Option<ServerId>,
    /// The certificate that was used.
    pub cert_label: Option<String>,
    /// The server's onboarding.
    pub onboarding: Option<OnboardingConfig>,
    /// Our answers.
    pub onboarding_response: Option<OnboardingResponse>,
    /// The server's settings.
    pub server_settings: Option<ServerSettingsSnapshot>,
    /// The server's plugins.
    pub plugin_registry: Vec<PluginRegistryEntryPayload>,
    /// What the server's plugins have broadcast.
    pub plugin_broadcasts: Vec<PluginDataPayload>,
}

/// What belongs to one connection is gone: a user who looks at the state sees
/// nothing of an earlier server.
pub open spec fn is_cleared(s: SharedState) -> bool {
    &&& !s.conn.client
    &&& !s.conn.connect_task
    &&& !s.conn.event_loop
    &&& !s.conn.synced
    &&& s.conn.own_session is None
    &&& s.users@ == Map::<u32, UserEntry>::empty()
    &&& s.channels@ == Map::<u32, ChannelEntry>::empty()
    &&& s.msgs.by_channel@ == Map::<u32, Vec<ChatMessage>>::empty()
    &&& s.msgs.channel_unread@ == Map::<u32, u32>::empty()
    &&& s.permanently_listened@ == Set::<u32>::empty()
    &&& s.selected_channel is None
    &&& s.current_channel is None
    &&& is_default_config(s.server.config)
    &&& s.server.root_permissions is None
    &&& s.audio.voice_state == VoiceState::Inactive
    &&& !s.pchat_ctx.loaded
    &&& s.pchat_ctx.seed is None
    &&& s.pchat_ctx.identity_dir is None
    &&& s.pchat_ctx.pending_key_shares@ == Seq::<PendingKeyShare>::empty()
}

/// What is not cleared with a connection is as it was.
pub open spec fn keeps_the_rest(before: SharedState, after: SharedState) -> bool {
    &&& after.native_broadcast == before.native_broadcast
    &&& after.server == (ServerMetadata {
        host: after.server.host,
        port: after.server.port,
        config: after.server.config,
        root_permissions: after.server.root_permissions,
        ..before.server
    })
    &&& after.push_subscribed_channels == before.push_subscribed_channels
    &&& after.msgs.by_dm == before.msgs.by_dm
    &&& after.msgs.dm_unread == before.msgs.dm_unread
    &&& after.msgs.selected_dm_user == before.msgs.selected_dm_user
    &&& after.audio.settings == before.audio.settings
    &&& after.audio.talking_sessions == before.audio.talking_sessions
    &&& after.pchat_ctx.key_holders == before.pchat_ctx.key_holders
    &&& after.prefs == before.prefs
    &&& after.onboarding == before.onboarding
    &&& after.onboarding_response == before.onboarding_response
    &&& after.server_settings == before.server_settings
    &&& after.plugin_registry == before.plugin_registry
    &&& after.plugin_broadcasts == before.plugin_broadcasts
}

/// The state of a connection that is being set up anew.
pub open spec fn restarted(
    before: SharedState,
    after: SharedState,
    username: Seq<char>,
    host: Seq<char>,
    port: u16,
    cert_label: Option<Seq<char>>,
    server_id: ServerId,
) -> bool {
    &&& is_cleared(after)
    &&& keeps_the_rest(before, after)
    &&& after.registered_user_textures == before.registered_user_textures
    &&& after.conn.status == ConnectionStatus::Connecting
    &&& after.conn.epoch == before.conn.epoch + 1
    &&& after.conn.own_name@ == username
    &&& after.conn.user_initiated_disconnect == before.conn.user_initiated_disconnect
    &&& after.server.host@ == host
    &&& after.server.port == port
    &&& after.server_id == Some(server_id)
    &&& text_view(after.cert_label) == cert_label
}

/// The state of a connection that was torn down.
pub open spec fn torn_down(before: SharedState, after: SharedState) -> bool {
    &&& is_cleared(after)
    &&& keeps_the_rest(before, after)
    &&& after.registered_user_textures@ == Map::<u32, Vec<u8>>::empty()
    &&& after.conn.status == ConnectionStatus::Disconnected
    &&& after.conn.epoch == before.conn.epoch
    &&& after.conn.own_name == before.conn.own_name
    &&& after.conn.user_initiated_disconnect == before.conn.user_initiated_disconnect
    &&& after.server.host == before.server.host
    &&& after.server.port == before.server.port
    &&& after.server_id is None
    &&& after.cert_label is None
}

/// What is left over from an earlier attempt and has to go first.
#[derive(Debug, Clone, Copy, PartialEq, Eq, Structural)]
pub struct Leftovers {
    /// The task that receives messages is to be aborted.
    pub event_loop: bool,
    /// The task that connects is to be aborted.
    pub connect_task: bool,
    /// The chat's keys and messages are to be saved.
    pub chat: bool,
}

/// What is to be ended for a connection that the user ends.
#[derive(Debug, Clone, Copy, PartialEq, Eq, Structural)]
pub struct OpenEnds {
    /// The task that connects is to be aborted.
    pub connect_task: bool,
    /// The server is to be told.
    pub client: bool,
    /// The task that receives messages is to be waited for.
    pub event_loop: bool,
}

impl SharedState {
    /// A connection of which nothing is known, with these preferences and these
    /// audio settings.
    pub fn fresh(prefs: AppPreferences, settings: AudioSettings) -> (r: Self)
        ensures
            is_fresh(r, prefs, settings),
    {
        SharedState {
            native_broadcast: None,
            conn: ConnectionFields {
                status: ConnectionStatus::Disconnected,
                epoch: 0,
                client: false,
                connect_task: false,
                event_loop: false,
                synced: false,
                own_session: None,
                own_name: String::new(),
                user_initiated_disconnect: false,
            },
            server: ServerMetadata {
                fancy_version: None,
                version_info: ServerVersionInfo {
                    release: None,
                    os: None,
                    os_version: None,
                    version_v1: None,
                    version_v2: None,
                    fancy_version: None,
                },
                host: String::new(),
                port: 0,
                max_users: None,
                max_bandwidth: None,
                opus: false,
                config: ServerConfig::default(),
                welcome_text: None,
                root_permissions: None,
            },
            users: HashMap::new(),
            channels: HashMap::new(),
            registered_user_textures: HashMap::new(),
            selected_channel: None,
            current_channel: None,
            permanently_listened: HashSet::new(),
            push_subscribed_channels: HashSet::new(),
            msgs: MessageStore {
                by_channel: HashMap::new(),
                by_dm: HashMap::new(),
                channel_unread: HashMap::new(),
                dm_unread: HashMap::new(),
                selected_dm_user: None,
            },
            audio: AudioPipelineState {
                settings,
                voice_state: VoiceState::Inactive,
                talking_sessions: HashSet::new(),
            },
            pchat_ctx: PchatContext {
                loaded: false,
                seed: None,
                identity_dir: None,
                pending_key_shares: Vec::new(),
                key_holders: HashMap::new(),
            },
            prefs,
            server_id: None,
            cert_label: None,
            onboarding: None,
            onboarding_response: None,
            server_settings: None,
            plugin_registry: Vec::new(),
            plugin_broadcasts: Vec::new(),
        }
    }

    /// Forget what belongs to one connection.
    fn clear(&mut self)
        ensures
            is_cleared(*final(self)),
            keeps_the_rest(*old(self), *final(self)),
            final(self).registered_user_textures == old(self).registered_user_textures,
            final(self).conn == (ConnectionFields {
                client: false,
                connect_task: false,
                event_loop: false,
                synced: false,
                own_session: None,
                ..old(self).conn
            }),
            final(self).server.host == old(self).server.host,
            final(self).server.port == old(self).server.port,
            final(self).server_id == old(self).server_id,
            final(self).cert_label == old(self).cert_label,
    {
        self.conn.client = false;
        self.conn.connect_task = false;
        self.conn.event_loop = false;
        self.conn.synced = false;
        self.conn.own_session = None;
        self.users.clear();
        self.channels.clear();
        self.msgs.by_channel.clear();
        self.msgs.channel_unread.clear();
        self.permanently_listened.clear();
        self.selected_channel = None;
        self.current_channel = None;
        self.server.config = ServerConfig::default();
        self.server.root_permissions = None;
        self.audio.voice_state = VoiceState::Inactive;
        self.pchat_ctx.loaded = false;
        self.pchat_ctx.seed = None;
        self.pchat_ctx.identity_dir = None;
        self.pchat_ctx.pending_key_shares = Vec::new();
    }

    /// Make the state ready for a fresh attempt to connect, and say what is left
    /// over from an earlier one.
    pub fn reset_for_connect(
        &mut self,
        username: String,
        host: String,
        port: u16,
        cert_label: Option<String>,
        server_id: ServerId,
    ) -> (r: Leftovers)
        requires
            old(self).conn.epoch < u64::MAX,
        ensures
            restarted(
                *old(self),
                *final(self),
                username@,
                host@,
                port,
                text_view(cert_label),
                server_id,
            ),
            r == (Leftovers {
                event_loop: old(self).conn.event_loop,
                connect_task: old(self).conn.connect_task,
                chat: old(self).pchat_ctx.loaded,
            }),
    {
        let left = Leftovers {
            event_loop: self.conn.event_loop,
            connect_task: self.conn.connect_task,
            chat: self.pchat_ctx.loaded,
        };
        self.clear();
        self.conn.epoch = self.conn.epoch + 1;
        self.conn.status = ConnectionStatus::Connecting;
        self.conn.own_name = username;
        self.server_id = Some(server_id);
        self.cert_label = cert_label;
        self.server.host = host;
        self.server.port = port;
        left
    }

    /// Note that the user ends the connection, and say what has to be ended.
    pub fn begin_disconnect(&mut self) -> (r: OpenEnds)
        ensures
            *final(self) == (SharedState {
                conn: ConnectionFields {
                    user_initiated_disconnect: true,
                    client: false,
                    event_loop: false,
                    connect_task: false,
                    ..old(self).conn
                },
                ..*old(self)
            }),
            r == (OpenEnds {
                connect_task: old(self).conn.connect_task,
                client: old(self).conn.client,
                event_loop: old(self).conn.event_loop,
            }),
    {
        let ends = OpenEnds {
            connect_task: self.conn.connect_task,
            client: self.conn.client,
            event_loop: self.conn.event_loop,
        };
        self.conn.user_initiated_disconnect = true;
        self.conn.client = false;
        self.conn.event_loop = false;
        self.conn.connect_task = false;
        ends
    }

    /// Forget a connection that has ended, and say whether the chat's keys and
    /// messages are to be saved.
    pub fn tear_down(&mut self) -> (r: bool)
        ensures
            torn_down(*old(self), *final(self)),
            r == old(self).pchat_ctx.loaded,
    {
        let save = self.pchat_ctx.loaded;
        self.clear();
        self.registered_user_textures.clear();
        self.conn.status = ConnectionStatus::Disconnected;
        self.server_id = None;
        self.cert_label = None;
        save
    }

    /// Note that an attempt to connect has failed.
    pub fn mark_disconnected(&mut self)
        ensures
            *final(self) == (SharedState {
                conn: ConnectionFields {
                    status: ConnectionStatus::Disconnected,
                    client: false,
                    event_loop: false,
                    connect_task: false,
                    ..old(self).conn
                },
                server_id: None,
                cert_label: None,
                ..*old(self)
            }),
    {
        self.conn.status = ConnectionStatus::Disconnected;
        self.server_id = None;
        self.cert_label = None;
        self.conn.client = false;
        self.conn.event_loop = false;
        self.conn.connect_task = false;
    }

    /// Note that the transport is up: commands can be sent, messages are
    /// received, the attempt is over.
    pub fn transport_up(&mut self)
        ensures
            *final(self) == (SharedState {
                conn: ConnectionFields {
                    client: true,
                    event_loop: true,
                    connect_task: false,
                    ..old(self).conn
                },
                ..*old(self)
            }),
            *final(self) == reached(*old(self)),
    {
        self.conn.client = true;
        self.conn.event_loop = true;
        self.conn.connect_task = false;
    }

    /// Note the identity that was loaded for this connection.
    pub fn set_identity(&mut self, seed: Vec<u8>, identity_dir: String)
        ensures
            *final(self) == (SharedState {
                pchat_ctx: PchatContext {
                    seed: Some(seed),
                    identity_dir: Some(identity_dir),
                    ..old(self).pchat_ctx
                },
                ..*old(self)
            }),
    {
        self.pchat_ctx.seed = Some(seed);
        self.pchat_ctx.identity_dir = Some(identity_dir);
    }
}

/// A connection of which nothing is known.
pub open spec fn is_fresh(s: SharedState, prefs: AppPreferences, settings: AudioSettings) -> bool {
    &&& is_cleared(s)
    &&& s.native_broadcast is None
    &&& s.conn.status == ConnectionStatus::Disconnected
    &&& s.conn.epoch == 0
    &&& s.conn.own_name@ == Seq::<char>::empty()
    &&& !s.conn.user_initiated_disconnect
    &&& s.server.fancy_version is None
    &&& s.server.version_info == (ServerVersionInfo {
        release: None,
        os: None,
        os_version: None,
        version_v1: None,
        version_v2: None,
        fancy_version: None,
    })
    &&& s.server.host@ == Seq::<char>::empty()
    &&& s.server.port == 0
    &&& s.server.max_users is None
    &&& s.server.max_bandwidth is None
    &&& !s.server.opus
    &&& s.server.welcome_text is None
    &&& s.registered_user_textures@ == Map::<u32, Vec<u8>>::empty()
    &&& s.push_subscribed_channels@ == Set::<u32>::empty()
    &&& s.msgs.by_dm@ == Map::<u32, Vec<ChatMessage>>::empty()
    &&& s.msgs.dm_unread@ == Map::<u32, u32>::empty()
    &&& s.msgs.selected_dm_user is None
    &&& s.audio.settings == settings
    &&& s.audio.talking_sessions@ == Set::<u32>::empty()
    &&& s.pchat_ctx.key_holders@ == Map::<u32, Vec<KeyHolderEntry>>::empty()
    &&& s.prefs == prefs
    &&& s.server_id is None
    &&& s.cert_label is None
    &&& s.onboarding is None
    &&& s.onboarding_response is None
    &&& s.server_settings is None
    &&& s.plugin_registry@ == Seq::<PluginRegistryEntryPayload>::empty()
    &&& s.plugin_broadcasts@ == Seq::<PluginDataPayload>::empty()
}

/// The state of a connection whose server was reached.
pub open spec fn reached(s: SharedState) -> SharedState {
    SharedState {
        conn: ConnectionFields { client: true, event_loop: true, connect_task: false, ..s.conn },
        ..s
    }
}

/// The label under which the identity of a certificate is kept.
pub open spec fn kept_under(cert_label: Option<Seq<char>>) -> Seq<char> {
    match cert_label {
        Some(label) => label,
        None => "default"@,
    }
}

/// The label under which an identity is kept: that of the certificate, or
/// "default".
pub fn identity_label(cert_label: &Option<String>) -> (r: String)
    ensures
        r@ == match *cert_label {
            Some(label) => label@,
            None => "default"@,
        },
        r@ == kept_under(text_view(*cert_label)),
{
    match cert_label {
        Some(label) => label.clone(),
        None => "default".to_string(),
    }
}

/// Once the server is reached, commands can be sent and messages come in, the
/// attempt is over, and the state of the connection is still what it was: that
/// it is up is for the server to say.
pub proof fn a_reached_server_can_be_talked_to(s: SharedState)
    ensures
        reached(s).conn.client && reached(s).conn.event_loop && !reached(s).conn.connect_task,
        reached(s).conn.status == s.conn.status,
        reached(s).conn.epoch == s.conn.epoch,
        reached(s).conn.synced == s.conn.synced,
        reached(s).server == s.server,
        reached(s).server_id == s.server_id,
{
}

/// Each certificate has an identity of its own, and no certificate has the
/// default one.
pub proof fn each_certificate_has_its_identity(one: Seq<char>, other: Seq<char>)
    ensures
        kept_under(Some(one)) == one,
        kept_under(Some(one)) == kept_under(Some(other)) ==> one == other,
        kept_under(None) == "default"@,
{
}

/// An attempt starts with nothing of an earlier one to be seen, counts one more
/// attempt, and keeps what the user has set and the conversations with users.
pub proof fn an_attempt_starts_clean(
    before: SharedState,
    after: SharedState,
    username: Seq<char>,
    host: Seq<char>,
    port: u16,
    cert_label: Option<Seq<char>>,
    server_id: ServerId,
    key: u32,
)
    requires
        restarted(before, after, username, host, port, cert_label, server_id),
    ensures
        after.conn.status == ConnectionStatus::Connecting,
        after.conn.epoch == before.conn.epoch + 1,
        after.conn.own_name@ == username,
        after.server.host@ == host && after.server.port == port,
        after.server_id == Some(server_id),
        text_view(after.cert_label) == cert_label,
        !after.conn.synced && after.conn.own_session is None,
        !after.conn.client && !after.conn.event_loop && !after.conn.connect_task,
        !after.users@.contains_key(key),
        !after.channels@.contains_key(key),
        !after.msgs.by_channel@.contains_key(key),
        !after.msgs.channel_unread@.contains_key(key),
        !after.permanently_listened@.contains(key),
        after.current_channel is None && after.selected_channel is None,
        after.server.root_permissions is None,
        after.audio.voice_state == VoiceState::Inactive,
        !after.pchat_ctx.loaded && after.pchat_ctx.seed is None,
        after.pchat_ctx.pending_key_shares@.len() == 0,
        after.prefs == before.prefs,
        after.audio.settings == before.audio.settings,
        after.msgs.by_dm == before.msgs.by_dm,
        after.msgs.dm_unread == before.msgs.dm_unread,
        after.msgs.selected_dm_user == before.msgs.selected_dm_user,
        after.push_subscribed_channels == before.push_subscribed_channels,
        after.audio.talking_sessions == before.audio.talking_sessions,
        after.pchat_ctx.key_holders == before.pchat_ctx.key_holders,
        after.pchat_ctx.identity_dir is None,
        after.conn.user_initiated_disconnect == before.conn.user_initiated_disconnect,
        after.server.welcome_text == before.server.welcome_text,
        after.server.fancy_version == before.server.fancy_version,
        after.server.max_users == before.server.max_users,
        after.server.max_bandwidth == before.server.max_bandwidth,
        after.server.opus == before.server.opus,
        after.onboarding == before.onboarding,
        after.onboarding_response == before.onboarding_response,
        after.server_settings == before.server_settings,
        after.plugin_registry == before.plugin_registry,
        after.plugin_broadcasts == before.plugin_broadcasts,
        after.registered_user_textures == before.registered_user_textures,
        after.native_broadcast == before.native_broadcast,
{
}

/// Of a connection that was torn down nothing is to be seen, not even the
/// avatars; where it was to, under which name, and what the user has set stay.
pub proof fn a_torn_down_connection_is_empty(before: SharedState, after: SharedState, key: u32)
    requires
        torn_down(before, after),
    ensures
        after.conn.status == ConnectionStatus::Disconnected,
        after.conn.epoch == before.conn.epoch,
        after.conn.own_name == before.conn.own_name,
        after.server.host == before.server.host && after.server.port == before.server.port,
        after.server_id is None && after.cert_label is None,
        !after.conn.client && !after.conn.event_loop && !after.conn.connect_task,
        !after.users@.contains_key(key),
        !after.channels@.contains_key(key),
        !after.registered_user_textures@.contains_key(key),
        !after.msgs.by_channel@.contains_key(key),
        after.current_channel is None && after.selected_channel is None,
        after.audio.voice_state == VoiceState::Inactive,
        !after.pchat_ctx.loaded && after.pchat_ctx.seed is None,
        after.conn.user_initiated_disconnect == before.conn.user_initiated_disconnect,
        after.prefs == before.prefs,
        after.audio.settings == before.audio.settings,
        after.msgs.by_dm == before.msgs.by_dm,
{
}

/// A connection of which nothing is known has ended, counts no attempt, is to
/// nowhere, and follows the preferences and audio settings it was given.
pub proof fn a_fresh_connection_follows_the_settings(
    s: SharedState,
    prefs: AppPreferences,
    settings: AudioSettings,
)
    requires
        is_fresh(s, prefs, settings),
    ensures
        s.prefs == prefs,
        s.audio.settings == settings,
        s.conn.status == ConnectionStatus::Disconnected,
        s.conn.epoch == 0,
        s.conn.own_name@.len() == 0 && s.server.host@.len() == 0 && s.server.port == 0,
        !s.conn.user_initiated_disconnect,
        s.server_id is None && s.cert_label is None,
        s.native_broadcast is None,
        s.users@.dom() == Set::<u32>::empty(),
        s.msgs.by_dm@.dom() == Set::<u32>::empty(),
        s.msgs.dm_unread@.dom() == Set::<u32>::empty(),
        s.msgs.selected_dm_user is None,
        s.audio.voice_state == VoiceState::Inactive,
        s.audio.talking_sessions@ == Set::<u32>::empty(),
        s.push_subscribed_channels@ == Set::<u32>::empty(),
        s.registered_user_textures@.dom() == Set::<u32>::empty(),
        s.pchat_ctx.key_holders@.dom() == Set::<u32>::empty(),
        s.server.fancy_version is None && s.server.max_users is None && s.server.max_bandwidth
            is None,
        !s.server.opus && s.server.welcome_text is None,
        s.onboarding is None && s.onboarding_response is None && s.server_settings is None,
        s.plugin_registry@.len() == 0 && s.plugin_broadcasts@.len() == 0,
{
}

} // verus!
