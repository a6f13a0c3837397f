//! Channels: select, join, listen, create, update, delete, and who is in them.

use std::collections::HashMap;

use vstd::prelude::*;
use vstd::std_specs::hash::*;

use crate::collections::{map_keys, set_members};
use crate::state::app::{only_current_changed, AppState};
use crate::state::session::{MessageStore, SharedState};
use crate::state::types::{
    parse_pchat_protocol_str, pchat_of_name, ChannelEntry, PchatProtocol, UserEntry,
};

verus! {

broadcast use group_hash_axioms;

/// A channel to be made or changed; what is left out stays as it is.
#[derive(Debug, PartialEq, Eq)]
pub struct ChannelState {
    /// The channel; none to make one.
    pub channel_id: Option<u32>,
    /// The channel it lies in.
    pub parent: Option<u32>,
    /// Its name.
    pub name: Option<String>,
    /// Its description.
    pub description: Option<String>,
    /// Where it is sorted.
    pub position: Option<i32>,
    /// Whether it goes when the last user leaves.
    pub temporary: Option<bool>,
    /// How many users it takes.
    pub max_users: Option<u32>,
    /// How it keeps messages.
    pub pchat_protocol: Option<PchatProtocol>,
    /// How many messages it keeps.
    pub pchat_max_history: Option<u32>,
    /// For how many days it keeps them.
    pub pchat_retention_days: Option<u32>,
    /// The password to enter.
    pub channel_info_password: Option<String>,
}

/// What the server is told.
#[derive(Debug, PartialEq, Eq)]
pub enum Command {
    /// Ask what we may do in a channel.
    PermissionQuery {
        /// The channel.
        channel_id: u32,
    },
    /// Go to a channel.
    JoinChannel {
        /// The channel.
        channel_id: u32,
        /// Its password.
        password: Option<String>,
    },
    /// Listen to channels, or no longer.
    ChannelListen {
        /// Listen to these.
        add: Vec<u32>,
        /// No longer to these.
        remove: Vec<u32>,
    },
    /// Make or change a channel.
    SetChannelState(ChannelState),
    /// Delete a channel.
    DeleteChannel {
        /// The channel.
        channel_id: u32,
    },
}

/// How to go to a channel.
#[derive(Debug, PartialEq, Eq)]
pub struct JoinPlan {
    /// The screen share is to be stopped first, so that its channel still
    /// learns of the end.
    pub stop_share: bool,
    /// What the server is told, where it can be.
    pub command: Option<Command>,
}

/// A channel that is now listened to, or no longer.
#[derive(Debug, PartialEq, Eq)]
pub struct Toggled {
    /// Whether it is listened to.
    pub listened: bool,
    /// What the server is told, where it can and has to be.
    pub command: Option<Command>,
}

/// The permission to listen to a channel.
pub const LISTEN_PERMISSION: u32 = 0x800;

/// Whether we may listen to a channel: unless the server has said what we may
/// do there and listening is not part of it.
pub open spec fn may_listen(s: SharedState, channel_id: u32) -> bool {
    if s.channels@.dom().contains(channel_id) {
        match s.channels@[channel_id].permissions {
            Some(p) => p & LISTEN_PERMISSION != 0,
            None => true,
        }
    } else {
        true
    }
}

/// The channels that are listened to after one was toggled.
pub open spec fn after_toggle(listened: Set<u32>, channel_id: u32) -> Set<u32> {
    if listened.contains(channel_id) {
        listened.remove(channel_id)
    } else {
        listened.insert(channel_id)
    }
}

/// What the server is told when a channel was toggled: nothing where it is
/// shown, for it is then listened to anyway.
pub open spec fn toggle_command(s: SharedState, channel_id: u32, command: Option<Command>) -> bool {
    if s.conn.client && s.selected_channel != Some(channel_id) {
        match command {
            Some(Command::ChannelListen { add, remove }) => if s.permanently_listened@.contains(
                channel_id,
            ) {
                add@ == Seq::<u32>::empty() && remove@ == seq![channel_id]
            } else {
                add@ == seq![channel_id] && remove@ == Seq::<u32>::empty()
            },
            _ => false,
        }
    } else {
        command is None
    }
}

/// Toggling a channel twice leaves the channels that are listened to as they
/// were.
pub proof fn toggling_twice_changes_nothing(listened: Set<u32>, channel_id: u32)
    ensures
        after_toggle(after_toggle(listened, channel_id), channel_id) == listened,
{
    assert(after_toggle(after_toggle(listened, channel_id), channel_id) =~= listened);
}

/// Toggling a channel touches no other.
pub proof fn toggling_touches_one_channel(listened: Set<u32>, channel_id: u32, other: u32)
    requires
        channel_id != other,
    ensures
        after_toggle(listened, channel_id).contains(other) == listened.contains(other),
        after_toggle(listened, channel_id).contains(channel_id) != listened.contains(channel_id),
{
}

/// The protocol that a name in a request stands for, where there is one.
pub open spec fn requested_protocol(name: Option<String>) -> Option<PchatProtocol> {
    match name {
        Some(name) => Some(pchat_of_name(name@)),
        None => None,
    }
}

fn parsed_protocol(name: &Option<String>) -> (r: Option<PchatProtocol>)
    ensures
        r == requested_protocol(*name),
{
    match name {
        Some(name) => Some(parse_pchat_protocol_str(name.as_str())),
        None => None,
    }
}

/// The users in a channel.
pub open spec fn users_in(users: Map<u32, UserEntry>, channel_id: u32) -> Set<u32> {
    users.dom().filter(|session: u32| users[session].channel_id == channel_id)
}

/// How many of these sessions are in a channel.
spec fn tally(users: Map<u32, UserEntry>, keys: Seq<u32>, channel_id: u32) -> nat
    decreases keys.len(),
{
    if keys.len() == 0 {
        0
    } else {
        tally(users, keys.drop_last(), channel_id) + if users[keys.last()].channel_id
            == channel_id {
            1nat
        } else {
            0nat
        }
    }
}

proof fn lemma_tally(users: Map<u32, UserEntry>, keys: Seq<u32>, channel_id: u32)
    requires
        keys.no_duplicates(),
    ensures
        tally(users, keys, channel_id) <= keys.len(),
        tally(users, keys, channel_id) == keys.to_set().filter(
            |session: u32| users[session].channel_id == channel_id,
        ).len(),
        keys.to_set().filter(|session: u32| users[session].channel_id == channel_id).finite(),
    decreases keys.len(),
{
    let p = |session: u32| users[session].channel_id == channel_id;
    if keys.len() == 0 {
        assert(keys.to_set().filter(p) =~= Set::empty());
    } else {
        let rest = keys.drop_last();
        let last = keys.last();
        lemma_tally(users, rest, channel_id);
        assert(keys.to_set() =~= rest.to_set().insert(last)) by {
            assert(keys =~= rest.push(last));
            assert forall|x: u32| keys.to_set().contains(x) implies rest.to_set().insert(
                last,
            ).contains(x) by {
                let i = choose|i: int| 0 <= i < keys.len() && keys[i] == x;
                if i < rest.len() {
                    assert(rest[i] == x);
                }
            }
            assert forall|x: u32| rest.to_set().insert(last).contains(x) implies #[trigger] keys.to_set().contains(
            x) by {
                if x == last {
                    assert(keys[keys.len() - 1] == x);
                } else {
                    let i = choose|i: int| 0 <= i < rest.len() && rest[i] == x;
                    assert(keys[i] == x);
                }
            }
        }
        assert(!rest.to_set().contains(last)) by {
            if rest.to_set().contains(last) {
                let i = choose|i: int| 0 <= i < rest.len() && rest[i] == last;
                assert(keys[i] == keys[keys.len() - 1]);
            }
        }
        if p(last) {
            assert(keys.to_set().filter(p) =~= rest.to_set().filter(p).insert(last));
        } else {
            assert(keys.to_set().filter(p) =~= rest.to_set().filter(p));
        }
    }
}

/// The entry of a channel with this many users.
pub open spec fn with_user_count(channel: ChannelEntry, count: nat) -> ChannelEntry {
    ChannelEntry { user_count: count as u32, ..channel }
}

fn count_by_channel(users: &HashMap<u32, UserEntry>) -> (r: HashMap<u32, u32>)
    requires
        users@.dom().len() <= u32::MAX,
    ensures
        forall|c: u32|
            users_in(users@, c).len() == if #[trigger] r@.dom().contains(c) {
                r@[c] as nat
            } else {
                0
            },
{
    let keys = map_keys(users);
    let mut counts: HashMap<u32, u32> = HashMap::new();
    let mut i: usize = 0;
    assert(keys@.subrange(0, 0) =~= Seq::empty());
    while i < keys.len()
        invariant
            i <= keys.len(),
            keys@.len() <= u32::MAX,
            keys@.no_duplicates(),
            keys@.to_set() == users@.dom(),
            forall|c: u32|
                tally(users@, keys@.subrange(0, i as int), c) == if #[trigger] counts@.dom().contains(
                    c,
                ) {
                    counts@[c] as nat
                } else {
                    0
                },
        decreases keys.len() - i,
    {
        let session: u32 = keys[i];
        assert(keys@.to_set().contains(session));
        let ghost done = keys@.subrange(0, i as int);
        let ghost more = keys@.subrange(0, i + 1);
        proof {
            assert(more.drop_last() =~= done);
            assert(more.last() == session);
            assert forall|c: u32| #[trigger] tally(users@, done, c) <= i by {
                assert(done.no_duplicates());
                lemma_tally(users@, done, c);
            }
        }
        if let Some(user) = users.get(&session) {
            let channel: u32 = user.channel_id;
            let so_far: u32 = match counts.get(&channel) {
                Some(n) => *n,
                None => 0,
            };
            assert(tally(users@, done, channel) == so_far);
            counts.insert(channel, so_far + 1);
        }
        i += 1;
    }
    proof {
        assert(keys@.subrange(0, i as int) =~= keys@);
        assert forall|c: u32|
            users_in(users@, c).len() == if #[trigger] counts@.dom().contains(c) {
                counts@[c] as nat
            } else {
                0
            } by {
            lemma_tally(users@, keys@, c);
            assert(tally(users@, keys@.subrange(0, i as int), c) == users_in(users@, c).len());
        }
    }
    counts
}

/// A channel is shown, and the server is told this.
pub open spec fn shown(
    before: SharedState,
    after: SharedState,
    channel_id: u32,
    command: Option<Command>,
) -> bool {
    &&& after.selected_channel == Some(channel_id)
    &&& after.msgs.selected_dm_user is None
    &&& after.msgs.channel_unread@ == before.msgs.channel_unread@.remove(channel_id)
    &&& after.msgs.by_channel == before.msgs.by_channel
    &&& after.msgs.by_dm == before.msgs.by_dm
    &&& after.msgs.dm_unread == before.msgs.dm_unread
    &&& after.current_channel == before.current_channel
    &&& after.permanently_listened == before.permanently_listened
    &&& command == if before.conn.client {
        Some(Command::PermissionQuery { channel_id })
    } else {
        None
    }
}

/// How to go to a channel.
pub open spec fn going_to(s: SharedState, channel_id: u32, password: Option<String>) -> JoinPlan {
    JoinPlan {
        stop_share: s.current_channel != Some(channel_id) && s.native_broadcast is Some,
        command: if s.conn.client {
            Some(Command::JoinChannel { channel_id, password })
        } else {
            None
        },
    }
}

/// What the server is told of a channel.
pub open spec fn told(
    channel_id: Option<u32>,
    parent: Option<u32>,
    name: Option<String>,
    description: Option<String>,
    position: Option<i32>,
    temporary: Option<bool>,
    max_users: Option<u32>,
    protocol: Option<String>,
    history: Option<u32>,
    days: Option<u32>,
    password: Option<String>,
) -> Command {
    Command::SetChannelState(
        ChannelState {
            channel_id,
            parent,
            name,
            description,
            position,
            temporary,
            max_users,
            pchat_protocol: requested_protocol(protocol),
            pchat_max_history: history,
            pchat_retention_days: days,
            channel_info_password: password,
        },
    )
}

impl AppState {
    /// Show a channel.  What is unread there is read, and the server is asked
    /// what we may do there, where it can be.
    pub fn select_channel(&mut self, channel_id: u32) -> (r: Option<Command>)
        requires
            old(self).wf(),
        ensures
            final(self).wf(),
            only_current_changed(*old(self), *final(self)),
            ({
                let before = old(self).current();
                let after = final(self).current();
                &&& after == (SharedState {
                    selected_channel: Some(channel_id),
                    msgs: MessageStore {
                        selected_dm_user: None,
                        channel_unread: after.msgs.channel_unread,
                        ..before.msgs
                    },
                    ..before
                })
                &&& after.msgs.channel_unread@ == before.msgs.channel_unread@.remove(channel_id)
            }),
            r == if old(self).current().conn.client {
                Some(Command::PermissionQuery { channel_id })
            } else {
                None
            },
            shown(old(self).current(), final(self).current(), channel_id, r),
    {
        let state = self.current_mut();
        state.selected_channel = Some(channel_id);
        state.msgs.selected_dm_user = None;
        state.msgs.channel_unread.remove(&channel_id);
        if state.conn.client {
            Some(Command::PermissionQuery { channel_id })
        } else {
            None
        }
    }

    /// How to go to a channel.
    pub fn join_channel(&self, channel_id: u32, password: Option<String>) -> (r: JoinPlan)
        requires
            self.wf(),
        ensures
            r.stop_share == (self.current().current_channel != Some(channel_id)
                && self.current().native_broadcast is Some),
            r.command == if self.current().conn.client {
                Some(Command::JoinChannel { channel_id, password })
            } else {
                None
            },
            r == going_to(self.current(), channel_id, password),
    {
        let state = self.snapshot();
        let changing = match state.current_channel {
            Some(current) => current != channel_id,
            None => true,
        };
        JoinPlan {
            stop_share: changing && state.native_broadcast.is_some(),
            command: if state.conn.client {
                Some(Command::JoinChannel { channel_id, password })
            } else {
                None
            },
        }
    }

    /// The channel we are in.
    pub fn current_channel(&self) -> (r: Option<u32>)
        requires
            self.wf(),
        ensures
            r == self.current().current_channel,
    {
        self.snapshot().current_channel
    }

    /// Listen to a channel from outside, or no longer.
    pub fn toggle_listen(&mut self, channel_id: u32) -> (r: Result<Toggled, String>)
        requires
            old(self).wf(),
        ensures
            final(self).wf(),
            ({
                let before = old(self).current();
                let after = final(self).current();
                let listened = before.permanently_listened@.contains(channel_id);
                if !listened && !may_listen(before, channel_id) {
                    &&& r is Err
                    &&& r->Err_0@ == "You do not have permission to listen to this channel"@
                    &&& *final(self) == *old(self)
                } else {
                    &&& only_current_changed(*old(self), *final(self))
                    &&& after == (SharedState {
                        permanently_listened: after.permanently_listened,
                        ..before
                    })
                    &&& after.permanently_listened@ == after_toggle(
                        before.permanently_listened@,
                        channel_id,
                    )
                    &&& r is Ok
                    &&& r->Ok_0.listened == !listened
                    &&& toggle_command(before, channel_id, r->Ok_0.command)
                }
            }),
    {
        let state = self.snapshot();
        let listened = state.permanently_listened.contains(&channel_id);
        if !listened {
            let denied = match state.channels.get(&channel_id) {
                Some(channel) => match channel.permissions {
                    Some(p) => p & LISTEN_PERMISSION == 0,
                    None => false,
                },
                None => false,
            };
            if denied {
                return Err("You do not have permission to listen to this channel".to_string());
            }
        }
        let shown = match state.selected_channel {
            Some(selected) => selected == channel_id,
            None => false,
        };
        let tell = state.conn.client && !shown;
        let state = self.current_mut();
        let mut add: Vec<u32> = Vec::new();
        let mut remove: Vec<u32> = Vec::new();
        if listened {
            state.permanently_listened.remove(&channel_id);
            remove.push(channel_id);
        } else {
            state.permanently_listened.insert(channel_id);
            add.push(channel_id);
        }
        let command = if tell {
            Some(Command::ChannelListen { add, remove })
        } else {
            None
        };
        Ok(Toggled { listened: !listened, command })
    }

    /// The channels that are listened to, each once, in no particular order.
    pub fn listened_channels(&self) -> (r: Vec<u32>)
        requires
            self.wf(),
        ensures
            r@.no_duplicates(),
            r@.to_set() == self.current().permanently_listened@,
    {
        set_members(&self.snapshot().permanently_listened)
    }

    /// What the server is told to change a channel.
    pub fn update_channel(
        &self,
        channel_id: u32,
        name: Option<String>,
        description: Option<String>,
        position: Option<i32>,
        temporary: Option<bool>,
        max_users: Option<u32>,
        pchat_protocol: Option<String>,
        pchat_max_history: Option<u32>,
        pchat_retention_days: Option<u32>,
        password: Option<String>,
    ) -> (r: Result<Command, String>)
        requires
            self.wf(),
        ensures
            if self.current().conn.client {
                r == Ok::<Command, String>(
                    Command::SetChannelState(
                        ChannelState {
                            channel_id: Some(channel_id),
                            parent: None,
                            name,
                            description,
                            position,
                            temporary,
                            max_users,
                            pchat_protocol: requested_protocol(pchat_protocol),
                            pchat_max_history,
                            pchat_retention_days,
                            channel_info_password: password,
                        },
                    ),
                )
            } else {
                r is Err && r->Err_0@ == "Not connected"@
            },
            r is Ok ==> r->Ok_0 == told(
                Some(channel_id),
                None,
                name,
                description,
                position,
                temporary,
                max_users,
                pchat_protocol,
                pchat_max_history,
                pchat_retention_days,
                password,
            ),
    {
        if !self.snapshot().conn.client {
            return Err("Not connected".to_string());
        }
        Ok(
            Command::SetChannelState(
                ChannelState {
                    channel_id: Some(channel_id),
                    parent: None,
                    name,
                    description,
                    position,
                    temporary,
                    max_users,
                    pchat_protocol: parsed_protocol(&pchat_protocol),
                    pchat_max_history,
                    pchat_retention_days,
                    channel_info_password: password,
                },
            ),
        )
    }

    /// What the server is told to delete a channel.
    pub fn delete_channel(&self, channel_id: u32) -> (r: Result<Command, String>)
        requires
            self.wf(),
        ensures
            if self.current().conn.client {
                r == Ok::<Command, String>(Command::DeleteChannel { channel_id })
            } else {
                r is Err && r->Err_0@ == "Not connected"@
            },
    {
        if self.snapshot().conn.client {
            Ok(Command::DeleteChannel { channel_id })
        } else {
            Err("Not connected".to_string())
        }
    }

    /// What the server is told to make a channel.
    pub fn create_channel(
        &self,
        parent_id: u32,
        name: String,
        description: Option<String>,
        position: Option<i32>,
        temporary: Option<bool>,
        max_users: Option<u32>,
        pchat_protocol: Option<String>,
        pchat_max_history: Option<u32>,
        pchat_retention_days: Option<u32>,
        password: Option<String>,
    ) -> (r: Result<Command, String>)
        requires
            self.wf(),
        ensures
            if self.current().conn.client {
                r == Ok::<Command, String>(
                    Command::SetChannelState(
                        ChannelState {
                            channel_id: None,
                            parent: Some(parent_id),
                            name: Some(name),
                            description,
                            position,
                            temporary,
                            max_users,
                            pchat_protocol: requested_protocol(pchat_protocol),
                            pchat_max_history,
                            pchat_retention_days,
                            channel_info_password: password,
                        },
                    ),
                )
            } else {
                r is Err && r->Err_0@ == "Not connected"@
            },
            r is Ok ==> r->Ok_0 == told(
                None,
                Some(parent_id),
                Some(name),
                description,
                position,
                temporary,
                max_users,
                pchat_protocol,
                pchat_max_history,
                pchat_retention_days,
                password,
            ),
    {
        if !self.snapshot().conn.client {
            return Err("Not connected".to_string());
        }
        Ok(
            Command::SetChannelState(
                ChannelState {
                    channel_id: None,
                    parent: Some(parent_id),
                    name: Some(name),
                    description,
                    position,
                    temporary,
                    max_users,
                    pchat_protocol: parsed_protocol(&pchat_protocol),
                    pchat_max_history,
                    pchat_retention_days,
                    channel_info_password: password,
                },
            ),
        )
    }

    /// Count the users of every channel.
    pub fn refresh_user_counts(state: &mut SharedState)
        requires
            old(state).users@.dom().len() <= u32::MAX,
        ensures
            *final(state) == (SharedState { channels: final(state).channels, ..*old(state) }),
            final(state).channels@.dom() == old(state).channels@.dom(),
            forall|c: u32| #[trigger]
                final(state).channels@.dom().contains(c) ==> final(state).channels@[c]
                    == with_user_count(
                    old(state).channels@[c],
                    users_in(old(state).users@, c).len(),
                ),
    {
        let counts = count_by_channel(&state.users);
        let keys = map_keys(&state.channels);
        let mut i: usize = 0;
        while i < keys.len()
            invariant
                i <= keys.len(),
                keys@.no_duplicates(),
                keys@.to_set() == old(state).channels@.dom(),
                *state == (SharedState { channels: state.channels, ..*old(state) }),
                state.channels@.dom() == old(state).channels@.dom(),
                forall|c: u32|
                    users_in(old(state).users@, c).len() == if #[trigger] counts@.dom().contains(
                        c,
                    ) {
                        counts@[c] as nat
                    } else {
                        0
                    },
                forall|j: int|
                    0 <= j < i ==> state.channels@[#[trigger] keys@[j]] == with_user_count(
                        old(state).channels@[keys@[j]],
                        users_in(old(state).users@, keys@[j]).len(),
                    ),
                forall|j: int|
                    i <= j < keys@.len() ==> state.channels@[#[trigger] keys@[j]] == old(
                        state,
                    ).channels@[keys@[j]],
            decreases keys.len() - i,
        {
            let key: u32 = keys[i];
            assert(keys@.to_set().contains(key));
            let count: u32 = match counts.get(&key) {
                Some(n) => *n,
                None => 0,
            };
            assert(counts@.dom().contains(key) || !counts@.dom().contains(key));
            let ghost before = state.channels@;
            if let Some(entry) = state.channels.remove(&key) {
                let mut entry = entry;
                entry.user_count = count;
                state.channels.insert(key, entry);
                assert(state.channels@.dom() =~= before.dom());
            }
            i += 1;
        }
        proof {
            assert forall|c: u32| #[trigger] state.channels@.dom().contains(c) implies state.channels@[c]
                == with_user_count(
                old(state).channels@[c],
                users_in(old(state).users@, c).len(),
            ) by {
                assert(keys@.to_set().contains(c));
                let j = choose|j: int| 0 <= j < keys@.len() && keys@[j] == c;
                assert(keys@[j] == c);
            }
        }
    }
}

/// Whoever looks at a channel has read it: nothing is unread there, what is
/// unread elsewhere still is, no conversation is shown beside it, and they stay
/// in the channel they are in.  What they may do there is asked of that channel.
pub proof fn a_channel_that_is_shown_is_read(
    before: SharedState,
    after: SharedState,
    channel_id: u32,
    command: Option<Command>,
    other: u32,
)
    requires
        shown(before, after, channel_id, command),
        other != channel_id,
    ensures
        after.selected_channel == Some(channel_id),
        after.msgs.selected_dm_user is None,
        !after.msgs.channel_unread@.contains_key(channel_id),
        after.msgs.channel_unread@.contains_key(other) == before.msgs.channel_unread@.contains_key(
            other,
        ),
        before.msgs.channel_unread@.contains_key(other) ==> after.msgs.channel_unread@[other]
            == before.msgs.channel_unread@[other],
        after.current_channel == before.current_channel,
        after.msgs.dm_unread == before.msgs.dm_unread,
        before.conn.client ==> command == Some(Command::PermissionQuery { channel_id }),
        !before.conn.client ==> command is None,
{
}

/// Going to another channel ends a share in the one before; going to where one
/// is ends none.  The server is told the channel and the password as given,
/// where it can be told.
pub proof fn a_share_ends_with_its_channel(
    s: SharedState,
    channel_id: u32,
    password: Option<String>,
)
    ensures
        s.current_channel == Some(channel_id) ==> !going_to(s, channel_id, password).stop_share,
        s.native_broadcast is None ==> !going_to(s, channel_id, password).stop_share,
        s.current_channel != Some(channel_id) && s.native_broadcast is Some ==> going_to(
            s,
            channel_id,
            password,
        ).stop_share,
        s.conn.client ==> going_to(s, channel_id, password).command == Some(
            Command::JoinChannel { channel_id, password },
        ),
        !s.conn.client ==> going_to(s, channel_id, password).command is None,
{
}

/// The twelfth bit of what we may do in a channel says whether we may listen;
/// where the server has said nothing of it we may.
pub proof fn listening_is_one_of_the_permissions(s: SharedState, channel_id: u32, p: u32)
    ensures
        !s.channels@.contains_key(channel_id) ==> may_listen(s, channel_id),
        s.channels@.contains_key(channel_id) && s.channels@[channel_id].permissions is None
            ==> may_listen(s, channel_id),
        s.channels@.contains_key(channel_id) && s.channels@[channel_id].permissions == Some(p)
            ==> (may_listen(s, channel_id) <==> (p as int / 2048) % 2 == 1),
{
    assert((p & 0x800 != 0) == ((p / 2048) % 2 == 1)) by (bit_vector);
}

/// The server is told of just the channel that was toggled, to add it where it
/// was not listened to and to remove it where it was; nothing of one that is
/// shown, and nothing without a connection.
pub proof fn the_server_hears_of_the_toggled_channel(
    s: SharedState,
    channel_id: u32,
    command: Option<Command>,
)
    requires
        toggle_command(s, channel_id, command),
    ensures
        !s.conn.client || s.selected_channel == Some(channel_id) ==> command is None,
        s.conn.client && s.selected_channel != Some(channel_id) ==> {
            &&& command is Some
            &&& command->0 is ChannelListen
            &&& command->0->add@.contains(channel_id) <==> !s.permanently_listened@.contains(
                channel_id,
            )
            &&& command->0->remove@.contains(channel_id) <==> s.permanently_listened@.contains(
                channel_id,
            )
            &&& command->0->add@.len() + command->0->remove@.len() == 1
        },
{
    if s.conn.client && s.selected_channel != Some(channel_id) {
        assert(seq![channel_id][0] == channel_id);
        assert(seq![channel_id].contains(channel_id));
    }
}

/// The server is told of a channel exactly what was asked for, each thing as
/// what it is; a change names the channel and moves it nowhere, a new channel
/// names the one it lies in.
pub proof fn a_channel_is_made_as_asked_for(
    channel_id: u32,
    parent: u32,
    name: Option<String>,
    description: Option<String>,
    position: Option<i32>,
    temporary: Option<bool>,
    max_users: Option<u32>,
    protocol: String,
    history: Option<u32>,
    days: Option<u32>,
    password: Option<String>,
)
    ensures
        told(
            Some(channel_id),
            None,
            name,
            description,
            position,
            temporary,
            max_users,
            Some(protocol),
            history,
            days,
            password,
        ) == Command::SetChannelState(
            ChannelState {
                channel_id: Some(channel_id),
                parent: None,
                name,
                description,
                position,
                temporary,
                max_users,
                pchat_protocol: Some(pchat_of_name(protocol@)),
                pchat_max_history: history,
                pchat_retention_days: days,
                channel_info_password: password,
            },
        ),
        told(
            None,
            Some(parent),
            name,
            description,
            position,
            temporary,
            max_users,
            None,
            history,
            days,
            password,
        ) == Command::SetChannelState(
            ChannelState {
                channel_id: None,
                parent: Some(parent),
                name,
                description,
                position,
                temporary,
                max_users,
                pchat_protocol: None,
                pchat_max_history: history,
                pchat_retention_days: days,
                channel_info_password: password,
            },
        ),
{
}

/// A channel counts the users who are in it: one who comes makes one more, and
/// of the channel nothing else changes by counting.
pub proof fn a_channel_counts_who_is_in_it(
    users: Map<u32, UserEntry>,
    session: u32,
    user: UserEntry,
    channel_id: u32,
    channel: ChannelEntry,
    n: u32,
)
    requires
        users.dom().finite(),
        !users.contains_key(session),
    ensures
        users_in(Map::empty(), channel_id).len() == 0,
        user.channel_id == channel_id ==> users_in(users.insert(session, user), channel_id).len()
            == users_in(users, channel_id).len() + 1,
        user.channel_id != channel_id ==> users_in(users.insert(session, user), channel_id).len()
            == users_in(users, channel_id).len(),
        with_user_count(channel, n as nat).user_count == n,
        with_user_count(channel, n as nat).id == channel.id,
        with_user_count(channel, n as nat).name == channel.name,
        with_user_count(channel, n as nat).parent_id == channel.parent_id,
        with_user_count(channel, n as nat).permissions == channel.permissions,
{
    let more = users.insert(session, user);
    assert(users_in(Map::empty(), channel_id) =~= Set::empty());
    assert(!users_in(users, channel_id).contains(session));
    if user.channel_id == channel_id {
        assert(users_in(more, channel_id) =~= users_in(users, channel_id).insert(session));
    } else {
        assert(users_in(more, channel_id) =~= users_in(users, channel_id));
    }
}

} // verus!
