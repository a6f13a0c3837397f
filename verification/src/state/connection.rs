//! Setting up and tearing down server connections.

use vstd::prelude::*;

use crate::collections::first_where_is_first;
use crate::ids::{is_random_id, unknown_server, unknown_server_error, uuid_text, ServerId};
use crate::media::encoder::text_view;
use crate::state::app::{only_current_changed, AppState};
use crate::state::registry::{
    fallback, ids_distinct, is_known, is_live_other, is_reusable, latest, lemma_found, lemma_position, lemma_update, position,
    registering_leaves_the_others, removing_leaves_the_others, reusable, state_of, with_session,
    without_session, Session,
};
use crate::state::session::{
    is_cleared, is_fresh, restarted, torn_down, ConnectionFields, Leftovers, OpenEnds, SharedState,
};
use crate::state::types::{ConnectionStatus, DisconnectedPayload};
use crate::text::concat2;

verus! {

/// An attempt to connect that is about to begin.
#[derive(Debug, Clone, Copy, PartialEq, Eq, Structural)]
pub struct Connecting {
    /// The connection.
    pub server_id: ServerId,
    /// Which attempt this is.
    pub epoch: u64,
    /// Whether audio goes through the control connection.
    pub force_tcp: bool,
    /// What is left over from an earlier attempt.
    pub leftovers: Leftovers,
}

/// What is to be ended, in this order, before a connection is forgotten.
#[derive(Debug, Clone, Copy, PartialEq, Eq, Structural)]
pub struct Teardown {
    /// Its screen share, so that the channel still learns of the end.
    pub stop_share: bool,
    /// The voice call.
    pub stop_audio: bool,
    /// The rest.
    pub ends: OpenEnds,
}

/// A connection that was forgotten.
pub struct Ended {
    /// What is left of it.
    pub state: SharedState,
    /// Whether the chat's keys and messages are to be saved.
    pub save_chat: bool,
}

/// The end of a connection, from the user's wish to when it was forgotten.
pub struct Disconnection {
    /// What is to be ended.
    pub teardown: Teardown,
    /// What is left of it.
    pub ended: Ended,
}

/// What a failed attempt has failed at.
#[derive(Debug, Clone, Copy, PartialEq, Eq, Structural)]
pub enum ConnectFailure {
    /// Reaching the server.
    Transport,
    /// Sending our name.
    Authentication,
}

/// Why an attempt has failed, for the user.
pub open spec fn failure_text(failure: ConnectFailure, e: Seq<char>) -> Seq<char> {
    match failure {
        ConnectFailure::Transport => "Connection failed: "@ + e,
        ConnectFailure::Authentication => "Failed to authenticate: "@ + e,
    }
}

/// The connection that an attempt uses: one that has ended, to the same server
/// under the same name, else a new one.
pub open spec fn connect_target(
    before: AppState,
    host: Seq<char>,
    port: u16,
    username: Seq<char>,
    fresh: ServerId,
) -> ServerId {
    match reusable(before.registry.sessions@, host, port, username) {
        Some(i) => before.registry.sessions@[i].id,
        None => fresh,
    }
}

/// An attempt to connect has begun: its connection is the active one, with
/// which the user works, and starts anew; no other has changed.
pub open spec fn connecting(
    before: AppState,
    after: AppState,
    host: Seq<char>,
    port: u16,
    username: Seq<char>,
    cert_label: Option<Seq<char>>,
    fresh: ServerId,
) -> bool {
    let target = connect_target(before, host, port, username, fresh);
    let renewed = Session { id: target, state: after.current() };
    &&& after.inner == Some(target)
    &&& after.registry.active == Some(target)
    &&& after.default_inner == before.default_inner
    &&& after.initialized == before.initialized
    &&& after.uploads == before.uploads
    &&& match reusable(before.registry.sessions@, host, port, username) {
        Some(i) => {
            &&& after.registry.sessions@ == before.registry.sessions@.update(i, renewed)
            &&& restarted(
                before.registry.sessions@[i].state,
                after.current(),
                username,
                host,
                port,
                cert_label,
                target,
            )
        },
        None => {
            &&& after.registry.sessions@ == with_session(before.registry.sessions@, renewed)
            &&& exists|f: SharedState|
                {
                    &&& #[trigger] is_fresh(
                        f,
                        before.default_inner.prefs,
                        before.default_inner.audio.settings,
                    )
                    &&& restarted(f, after.current(), username, host, port, cert_label, target)
                }
        },
    }
}

/// What is left over from the earlier attempt of the connection that an attempt
/// uses.
pub open spec fn left_over(
    before: AppState,
    host: Seq<char>,
    port: u16,
    username: Seq<char>,
) -> Leftovers {
    match reusable(before.registry.sessions@, host, port, username) {
        Some(i) => {
            let s = before.registry.sessions@[i].state;
            Leftovers {
                event_loop: s.conn.event_loop,
                connect_task: s.conn.connect_task,
                chat: s.pchat_ctx.loaded,
            }
        },
        None => Leftovers { event_loop: false, connect_task: false, chat: false },
    }
}

/// Attempts can still be counted.
pub open spec fn epochs_in_range(sessions: Seq<Session>) -> bool {
    forall|i: int| 0 <= i < sessions.len() ==> #[trigger] sessions[i].state.conn.epoch < u64::MAX
}

/// A connection has been forgotten.  Where it was the active one, the one
/// registered last becomes the active one, with which the user works.
pub open spec fn forgotten(before: AppState, after: AppState, id: ServerId) -> bool {
    let left = without_session(before.registry.sessions@, id);
    let was_active = before.registry.active == Some(id);
    &&& after.registry.sessions@ == left
    &&& after.registry.active == if was_active {
        latest(left)
    } else {
        before.registry.active
    }
    &&& after.inner == if was_active {
        latest(left)
    } else {
        before.inner
    }
    &&& after.default_inner == before.default_inner
    &&& after.initialized == before.initialized
    &&& after.uploads == before.uploads
}

/// What is to be ended before a connection is forgotten.
pub open spec fn teardown_of(before: AppState, id: ServerId) -> Teardown {
    let s = state_of(before.registry.sessions@, id);
    Teardown {
        stop_share: s.native_broadcast is Some,
        stop_audio: before.registry.active == Some(id),
        ends: OpenEnds {
            connect_task: s.conn.connect_task,
            client: s.conn.client,
            event_loop: s.conn.event_loop,
        },
    }
}

/// The user ends this connection.
pub open spec fn leaving(s: SharedState) -> SharedState {
    SharedState {
        conn: ConnectionFields {
            user_initiated_disconnect: true,
            client: false,
            event_loop: false,
            connect_task: false,
            ..s.conn
        },
        ..s
    }
}

/// Only one connection has changed.
pub open spec fn only_session_changed(
    before: AppState,
    after: AppState,
    id: ServerId,
    state: SharedState,
) -> bool {
    &&& after.registry.sessions@ == before.registry.sessions@.update(
        position(before.registry.sessions@, id)->0,
        Session { id, state },
    )
    &&& after.registry.active == before.registry.active
    &&& after.inner == before.inner
    &&& after.default_inner == before.default_inner
    &&& after.initialized == before.initialized
    &&& after.uploads == before.uploads
}

/// The state of a connection whose attempt has failed.
pub open spec fn failed(s: SharedState) -> SharedState {
    SharedState {
        conn: ConnectionFields {
            status: ConnectionStatus::Disconnected,
            client: false,
            event_loop: false,
            connect_task: false,
            ..s.conn
        },
        server_id: None,
        cert_label: None,
        ..s
    }
}

/// An attempt of a connection has failed.
pub open spec fn attempt_failed(before: AppState, after: AppState, id: ServerId) -> bool {
    let sessions = before.registry.sessions@;
    if is_known(sessions, id) {
        let marked = sessions.update(
            position(sessions, id)->0,
            Session { id, state: failed(state_of(sessions, id)) },
        );
        &&& after.registry.sessions@ == marked
        &&& if before.registry.active == Some(id) && fallback(marked, id) is Some {
            &&& after.inner == Some(marked[fallback(marked, id)->0].id)
            &&& after.registry.active == after.inner
        } else {
            &&& after.inner == before.inner
            &&& after.registry.active == before.registry.active
        }
    } else {
        after == before
    }
}

impl AppState {
    /// Begin to connect, under `fresh` where no connection that has ended was to
    /// the same server under the same name.
    ///
    /// Reusing one keeps a retry in the place of the attempt before it.
    pub fn connect_with(
        &mut self,
        host: String,
        port: u16,
        username: String,
        cert_label: Option<String>,
        fresh: ServerId,
    ) -> (r: Result<Connecting, String>)
        requires
            old(self).wf(),
            epochs_in_range(old(self).registry.sessions@),
        ensures
            final(self).wf(),
            if !old(self).initialized {
                &&& r is Err
                &&& r->Err_0@ == "App not initialized"@
                &&& *final(self) == *old(self)
            } else {
                &&& connecting(
                    *old(self),
                    *final(self),
                    host@,
                    port,
                    username@,
                    text_view(cert_label),
                    fresh,
                )
                &&& r == Ok::<Connecting, String>(
                    Connecting {
                        server_id: connect_target(*old(self), host@, port, username@, fresh),
                        epoch: final(self).current().conn.epoch,
                        force_tcp: final(self).current().audio.settings.force_tcp_audio,
                        leftovers: left_over(*old(self), host@, port, username@),
                    },
                )
            },
    {
        if !self.initialized {
            return Err("App not initialized".to_string());
        }
        let ghost before = self.registry.sessions@;
        match self.registry.reusable_for(host.as_str(), port, username.as_str()) {
            Some(i) => {
                let id = self.registry.sessions[i].id;
                let ghost name = username@;
                let ghost place = host@;
                let leftovers = self.registry.sessions[i].state.reset_for_connect(
                    username,
                    host,
                    port,
                    cert_label,
                    id,
                );
                let epoch: u64 = self.registry.sessions[i].state.conn.epoch;
                let force_tcp = self.registry.sessions[i].state.audio.settings.force_tcp_audio;
                self.registry.active = Some(id);
                self.inner = Some(id);
                proof {
                    let renewed = self.registry.sessions@[i as int];
                    assert(self.registry.sessions@ =~= before.update(i as int, renewed));
                    lemma_found(before, i as int);
                    lemma_update(before, i as int, renewed, id);
                }
                Ok(Connecting { server_id: id, epoch, force_tcp, leftovers })
            },
            None => {
                let mut state = self.fresh_session_state();
                let ghost blank = state;
                let leftovers = state.reset_for_connect(username, host, port, cert_label, fresh);
                let epoch: u64 = state.conn.epoch;
                let force_tcp = state.audio.settings.force_tcp_audio;
                proof {
                    let other = ServerId(
                        if fresh.0 == 0 {
                            1u128
                        } else {
                            0u128
                        },
                    );
                    registering_leaves_the_others(before, Session { id: fresh, state }, other);
                    assert(is_fresh(
                        blank,
                        old(self).default_inner.prefs,
                        old(self).default_inner.audio.settings,
                    ));
                }
                self.registry.register_active(fresh, state);
                self.inner = Some(fresh);
                Ok(Connecting { server_id: fresh, epoch, force_tcp, leftovers })
            },
        }
    }

    /// Begin to connect.
    pub fn connect(
        &mut self,
        host: String,
        port: u16,
        username: String,
        cert_label: Option<String>,
    ) -> (r: Result<Connecting, String>)
        requires
            old(self).wf(),
            epochs_in_range(old(self).registry.sessions@),
        ensures
            final(self).wf(),
            if !old(self).initialized {
                &&& r is Err
                &&& r->Err_0@ == "App not initialized"@
                &&& *final(self) == *old(self)
            } else {
                &&& r is Ok
                &&& exists|fresh: ServerId|
                    {
                        &&& is_random_id(fresh.0)
                        &&& #[trigger] connecting(
                            *old(self),
                            *final(self),
                            host@,
                            port,
                            username@,
                            text_view(cert_label),
                            fresh,
                        )
                        &&& r->Ok_0 == (Connecting {
                            server_id: connect_target(*old(self), host@, port, username@, fresh),
                            epoch: final(self).current().conn.epoch,
                            force_tcp: final(self).current().audio.settings.force_tcp_audio,
                            leftovers: left_over(*old(self), host@, port, username@),
                        })
                    }
            },
    {
        let fresh = ServerId::new();
        self.connect_with(host, port, username, cert_label, fresh)
    }

    /// Note that the attempt has begun on the connection that the user works
    /// with.
    pub fn note_connecting(&mut self)
        requires
            old(self).wf(),
        ensures
            final(self).wf(),
            only_current_changed(*old(self), *final(self)),
            final(self).current() == (SharedState {
                conn: ConnectionFields { connect_task: true, ..old(self).current().conn },
                ..old(self).current()
            }),
    {
        let current = self.current_mut();
        current.conn.connect_task = true;
    }

    /// Note that a connection's transport is up, where it is still there.
    pub fn transport_up(&mut self, id: ServerId) -> (r: bool)
        requires
            old(self).wf(),
        ensures
            final(self).wf(),
            r == is_known(old(self).registry.sessions@, id),
            if r {
                only_session_changed(
                    *old(self),
                    *final(self),
                    id,
                    (SharedState {
                        conn: ConnectionFields {
                            client: true,
                            event_loop: true,
                            connect_task: false,
                            ..state_of(old(self).registry.sessions@, id).conn
                        },
                        ..state_of(old(self).registry.sessions@, id)
                    }),
                )
            } else {
                *final(self) == *old(self)
            },
    {
        let ghost before = self.registry.sessions@;
        match self.registry.index_of(id) {
            Some(i) => {
                self.registry.sessions[i].state.transport_up();
                proof {
                    self.lemma_session_changed(before, i as int);
                }
                true
            },
            None => false,
        }
    }

    proof fn lemma_session_changed(self, before: Seq<Session>, i: int)
        requires
            ids_distinct(before),
            0 <= i < before.len(),
            self.registry.sessions@ == before.update(i, self.registry.sessions@[i]),
            self.registry.sessions@[i].id == before[i].id,
        ensures
            ids_distinct(self.registry.sessions@),
            forall|id: ServerId| #[trigger]
                position(self.registry.sessions@, id) == position(before, id),
    {
        let now = self.registry.sessions@;
        assert forall|id: ServerId| #[trigger] position(now, id) == position(before, id) by {
            lemma_update(before, i, now[i], id);
        }
        lemma_update(before, i, now[i], before[i].id);
    }

    /// Note that an attempt has failed, and give what the user is told.
    ///
    /// The connection stays, so that the next attempt reuses it.  Only where it
    /// is the active one and another is up or being set up does the user go
    /// over to that one.  Where the connection was forgotten meanwhile, the
    /// user is told all the same, and nothing else happens.
    pub fn connection_failed(&mut self, id: ServerId, failure: ConnectFailure, e: &str) -> (r:
        DisconnectedPayload)
        requires
            old(self).wf(),
        ensures
            final(self).wf(),
            r.server_id is Some,
            r.server_id->0@ == uuid_text(id.0),
            r.reason is Some,
            r.reason->0@ == failure_text(failure, e@),
            attempt_failed(*old(self), *final(self), id),
            !is_known(old(self).registry.sessions@, id) ==> *final(self) == *old(self),
            is_known(old(self).registry.sessions@, id) ==> ({
                let sessions = old(self).registry.sessions@.update(
                    position(old(self).registry.sessions@, id)->0,
                    Session { id, state: failed(state_of(old(self).registry.sessions@, id)) },
                );
                let next = if old(self).registry.active == Some(id) {
                    fallback(sessions, id)
                } else {
                    None
                };
                &&& final(self).registry.sessions@ == sessions
                &&& final(self).default_inner == old(self).default_inner
                &&& final(self).initialized == old(self).initialized
                &&& final(self).uploads == old(self).uploads
                &&& match next {
                    Some(k) => {
                        &&& final(self).registry.active == Some(sessions[k].id)
                        &&& final(self).inner == Some(sessions[k].id)
                    },
                    None => {
                        &&& final(self).registry.active == old(self).registry.active
                        &&& final(self).inner == old(self).inner
                    },
                }
            }),
    {
        let ghost before = self.registry.sessions@;
        proof {
            lemma_position(before, id);
        }
        if let Some(i) = self.registry.index_of(id) {
            self.registry.sessions[i].state.mark_disconnected();
            proof {
                self.lemma_session_changed(before, i as int);
            }
        }
        if self.registry.activate_fallback(id) {
            self.rebind_active();
        }
        let reason = match failure {
            ConnectFailure::Transport => concat2("Connection failed: ", e),
            ConnectFailure::Authentication => concat2("Failed to authenticate: ", e),
        };
        DisconnectedPayload { server_id: Some(id.text()), reason: Some(reason) }
    }

    /// Note that the user ends a connection, and say what is to be ended before
    /// it is forgotten.
    pub fn begin_disconnect(&mut self, id: ServerId) -> (r: Result<Teardown, String>)
        requires
            old(self).wf(),
        ensures
            final(self).wf(),
            if is_known(old(self).registry.sessions@, id) {
                &&& r == Ok::<Teardown, String>(teardown_of(*old(self), id))
                &&& only_session_changed(
                    *old(self),
                    *final(self),
                    id,
                    leaving(state_of(old(self).registry.sessions@, id)),
                )
            } else {
                &&& r is Err
                &&& r->Err_0@ == unknown_server(id)
                &&& *final(self) == *old(self)
            },
    {
        let ghost before = self.registry.sessions@;
        match self.registry.index_of(id) {
            Some(i) => {
                let stop_share = self.registry.sessions[i].state.native_broadcast.is_some();
                let stop_audio = match self.registry.active {
                    Some(active) => active == id,
                    None => false,
                };
                let ends = self.registry.sessions[i].state.begin_disconnect();
                proof {
                    self.lemma_session_changed(before, i as int);
                }
                Ok(Teardown { stop_share, stop_audio, ends })
            },
            None => Err(unknown_server_error(id)),
        }
    }

    /// Forget a connection, where it is still there.
    pub fn finish_disconnect(&mut self, id: ServerId) -> (r: Option<Ended>)
        requires
            old(self).wf(),
        ensures
            final(self).wf(),
            if is_known(old(self).registry.sessions@, id) {
                &&& forgotten(*old(self), *final(self), id)
                &&& r is Some
                &&& torn_down(state_of(old(self).registry.sessions@, id), r->0.state)
                &&& r->0.save_chat == state_of(old(self).registry.sessions@, id).pchat_ctx.loaded
            } else {
                &&& r is None
                &&& *final(self) == *old(self)
            },
    {
        if self.registry.index_of(id).is_none() {
            return None;
        }
        let was_active = match self.registry.active {
            Some(active) => active == id,
            None => false,
        };
        let removed = self.registry.remove(id);
        if was_active {
            self.inner = self.registry.active;
        }
        match removed {
            Some(state) => {
                let mut state = state;
                let save_chat = state.tear_down();
                Some(Ended { state, save_chat })
            },
            None => None,
        }
    }

    /// End a connection: note that the user ends it, and forget it.
    pub fn disconnect_session(&mut self, id: ServerId) -> (r: Result<Disconnection, String>)
        requires
            old(self).wf(),
        ensures
            final(self).wf(),
            if is_known(old(self).registry.sessions@, id) {
                &&& forgotten(*old(self), *final(self), id)
                &&& r is Ok
                &&& r->Ok_0.teardown == teardown_of(*old(self), id)
                &&& torn_down(
                    leaving(state_of(old(self).registry.sessions@, id)),
                    r->Ok_0.ended.state,
                )
                &&& r->Ok_0.ended.save_chat == state_of(
                    old(self).registry.sessions@,
                    id,
                ).pchat_ctx.loaded
            } else {
                &&& r is Err
                &&& r->Err_0@ == unknown_server(id)
                &&& *final(self) == *old(self)
            },
    {
        let ghost before = self.registry.sessions@;
        proof {
            lemma_position(before, id);
        }
        let teardown = match self.begin_disconnect(id) {
            Ok(teardown) => teardown,
            Err(e) => {
                return Err(e);
            },
        };
        let ghost between = self.registry.sessions@;
        proof {
            let i = position(before, id)->0;
            lemma_update(before, i, between[i], id);
            assert(between.remove(i) =~= before.remove(i));
        }
        match self.finish_disconnect(id) {
            Some(ended) => Ok(Disconnection { teardown, ended }),
            None => Err(unknown_server_error(id)),
        }
    }

    /// End the active connection, where there is one.
    pub fn disconnect(&mut self) -> (r: Result<Option<Disconnection>, String>)
        requires
            old(self).wf(),
        ensures
            final(self).wf(),
            r is Ok,
            match old(self).registry.active {
                Some(id) => {
                    &&& forgotten(*old(self), *final(self), id)
                    &&& r->Ok_0 is Some
                    &&& r->Ok_0->0.teardown == teardown_of(*old(self), id)
                    &&& torn_down(
                        leaving(state_of(old(self).registry.sessions@, id)),
                        r->Ok_0->0.ended.state,
                    )
                    &&& r->Ok_0->0.ended.save_chat == state_of(
                        old(self).registry.sessions@,
                        id,
                    ).pchat_ctx.loaded
                },
                None => r->Ok_0 is None && *final(self) == *old(self),
            },
    {
        match self.registry.active_id() {
            Some(id) => match self.disconnect_session(id) {
                Ok(end) => Ok(Some(end)),
                Err(e) => Err(e),
            },
            None => Ok(None),
        }
    }
}

/// Ending a connection touches no other: each is there as it was, and where the
/// ended one was not the active one the user goes on where they were.
pub proof fn ending_one_leaves_the_others(
    before: AppState,
    after: AppState,
    id: ServerId,
    other: ServerId,
)
    requires
        before.wf(),
        forgotten(before, after, id),
        id != other,
    ensures
        !is_known(after.registry.sessions@, id),
        is_known(after.registry.sessions@, other) == is_known(before.registry.sessions@, other),
        is_known(before.registry.sessions@, other) ==> state_of(after.registry.sessions@, other)
            == state_of(before.registry.sessions@, other),
        before.registry.active != Some(id) ==> {
            &&& after.registry.active == before.registry.active
            &&& after.inner == before.inner
        },
        after.default_inner == before.default_inner,
        after.initialized == before.initialized,
        after.uploads == before.uploads,
{
    removing_leaves_the_others(before.registry.sessions@, id, other);
}

/// Ending the active connection leaves the user with another one that is still
/// there, or with none where none is left.
pub proof fn ending_the_active_one_moves_on(before: AppState, after: AppState, id: ServerId)
    requires
        before.wf(),
        forgotten(before, after, id),
        before.registry.active == Some(id),
    ensures
        after.inner == after.registry.active,
        after.inner is None <==> before.registry.sessions@.len() == 1,
        match after.inner {
            Some(next) => next != id && is_known(after.registry.sessions@, next),
            None => after.current() == before.default_inner,
        },
{
    let sessions = before.registry.sessions@;
    let left = after.registry.sessions@;
    lemma_position(sessions, id);
    let other = ServerId(
        if id.0 == 0 {
            1u128
        } else {
            0u128
        },
    );
    removing_leaves_the_others(sessions, id, other);
    if left.len() > 0 {
        lemma_found(left, left.len() - 1);
        lemma_position(left, id);
    }
}

/// A retry to the same server under the same name keeps its place: there are as
/// many connections as before, and the user works with the one that failed.
pub proof fn a_retry_reuses_its_connection(
    before: AppState,
    after: AppState,
    i: int,
    cert_label: Option<Seq<char>>,
    fresh: ServerId,
)
    requires
        before.wf(),
        0 <= i < before.registry.sessions@.len(),
        before.registry.sessions@[i].state.conn.status == ConnectionStatus::Disconnected,
        connecting(
            before,
            after,
            before.registry.sessions@[i].state.server.host@,
            before.registry.sessions@[i].state.server.port,
            before.registry.sessions@[i].state.conn.own_name@,
            cert_label,
            fresh,
        ),
    ensures
        after.registry.sessions@.len() == before.registry.sessions@.len(),
        after.inner is Some,
        is_known(before.registry.sessions@, after.inner->0),
        after.current().conn.status == ConnectionStatus::Connecting,
        is_cleared(after.current()),
{
    let sessions = before.registry.sessions@;
    let s = sessions[i].state;
    let host = s.server.host@;
    let port = s.server.port;
    let name = s.conn.own_name@;
    first_where_is_first(
        sessions,
        |x: Session| is_reusable(x, host, port, name),
    );
    assert(is_reusable(sessions[i], host, port, name));
    let k = reusable(sessions, host, port, name)->0;
    lemma_found(sessions, k);
}

/// A failed attempt says what failed and why.
pub proof fn a_failure_is_told_as_what_it_is(e: Seq<char>)
    ensures
        failure_text(ConnectFailure::Transport, e) == "Connection failed: "@ + e,
        failure_text(ConnectFailure::Authentication, e) == "Failed to authenticate: "@ + e,
{
}

/// A connection whose attempt has failed has ended and is to no server, but
/// keeps its place, its host, its port and its name: the next attempt to that
/// host under that name can reuse it.
pub proof fn a_failed_attempt_can_be_retried(id: ServerId, s: SharedState)
    ensures
        failed(s).conn.status == ConnectionStatus::Disconnected,
        !failed(s).conn.client && !failed(s).conn.event_loop && !failed(s).conn.connect_task,
        failed(s).server_id is None && failed(s).cert_label is None,
        failed(s).conn.epoch == s.conn.epoch,
        failed(s).conn.user_initiated_disconnect == s.conn.user_initiated_disconnect,
        failed(s).prefs == s.prefs,
        is_reusable(
            Session { id, state: failed(s) },
            s.server.host@,
            s.server.port,
            s.conn.own_name@,
        ),
{
}

/// The failure of one connection changes no other, and takes the user elsewhere
/// only where they were on it and another is up or being set up.
pub proof fn a_failure_concerns_one_connection(
    before: AppState,
    after: AppState,
    id: ServerId,
    other: ServerId,
)
    requires
        before.wf(),
        attempt_failed(before, after, id),
        id != other,
    ensures
        after.registry.sessions@.len() == before.registry.sessions@.len(),
        is_known(after.registry.sessions@, id) == is_known(before.registry.sessions@, id),
        is_known(before.registry.sessions@, id) ==> state_of(
            after.registry.sessions@,
            id,
        ).conn.status == ConnectionStatus::Disconnected,
        is_known(after.registry.sessions@, other) == is_known(before.registry.sessions@, other),
        is_known(before.registry.sessions@, other) ==> state_of(after.registry.sessions@, other)
            == state_of(before.registry.sessions@, other),
        before.registry.active != Some(id) ==> after.inner == before.inner
            && after.registry.active == before.registry.active,
        before.registry.active == Some(id) && is_known(before.registry.sessions@, other)
            && state_of(before.registry.sessions@, other).conn.status
            != ConnectionStatus::Disconnected ==> {
            &&& after.inner is Some
            &&& after.registry.active == after.inner
            &&& after.inner != Some(id)
            &&& is_known(before.registry.sessions@, after.inner->0)
            &&& state_of(before.registry.sessions@, after.inner->0).conn.status
                != ConnectionStatus::Disconnected
        },
{
    let sessions = before.registry.sessions@;
    let now = after.registry.sessions@;
    lemma_position(sessions, id);
    lemma_position(sessions, other);
    if is_known(sessions, id) {
        let i = position(sessions, id)->0;
        let changed = Session { id, state: failed(state_of(sessions, id)) };
        lemma_update(sessions, i, changed, id);
        lemma_update(sessions, i, changed, other);
        if before.registry.active == Some(id) {
            let p = |s: Session| is_live_other(s, id);
            first_where_is_first(now, p);
            if is_known(sessions, other) && state_of(sessions, other).conn.status
                != ConnectionStatus::Disconnected {
                let k = position(sessions, other)->0;
                assert(p(now[k]));
                let f = fallback(now, id)->0;
                assert(p(now[f]));
                assert(f != i);
                lemma_found(sessions, f);
            }
        }
    }
}

/// An attempt goes to the connection that has ended and was to the same server
/// under the same name, and to a new one where there is none.
pub proof fn an_attempt_goes_where_it_belongs(
    before: AppState,
    host: Seq<char>,
    port: u16,
    username: Seq<char>,
    fresh: ServerId,
)
    ensures
        reusable(before.registry.sessions@, host, port, username) is None ==> {
            &&& connect_target(before, host, port, username, fresh) == fresh
            &&& !left_over(before, host, port, username).event_loop
            &&& !left_over(before, host, port, username).connect_task
            &&& !left_over(before, host, port, username).chat
        },
        reusable(before.registry.sessions@, host, port, username) is Some ==> ({
            let s = before.registry.sessions@[reusable(
                before.registry.sessions@,
                host,
                port,
                username,
            )->0];
            &&& connect_target(before, host, port, username, fresh) == s.id
            &&& left_over(before, host, port, username).event_loop == s.state.conn.event_loop
            &&& left_over(before, host, port, username).connect_task == s.state.conn.connect_task
            &&& left_over(before, host, port, username).chat == s.state.pchat_ctx.loaded
        }),
{
}

/// Whoever begins to connect works with that connection, which is being set up
/// to the server, under the name and with the certificate they gave; every
/// other connection is as it was.
pub proof fn an_attempt_concerns_one_connection(
    before: AppState,
    after: AppState,
    host: Seq<char>,
    port: u16,
    username: Seq<char>,
    cert_label: Option<Seq<char>>,
    fresh: ServerId,
    other: ServerId,
)
    requires
        before.wf(),
        connecting(before, after, host, port, username, cert_label, fresh),
        other != connect_target(before, host, port, username, fresh),
    ensures
        after.inner == Some(connect_target(before, host, port, username, fresh)),
        after.registry.active == after.inner,
        after.current().conn.status == ConnectionStatus::Connecting,
        after.current().conn.own_name@ == username,
        after.current().server.host@ == host,
        after.current().server.port == port,
        text_view(after.current().cert_label) == cert_label,
        after.current().server_id == after.inner,
        after.default_inner == before.default_inner,
        after.initialized == before.initialized,
        after.uploads == before.uploads,
        is_known(after.registry.sessions@, other) == is_known(before.registry.sessions@, other),
        is_known(before.registry.sessions@, other) ==> state_of(after.registry.sessions@, other)
            == state_of(before.registry.sessions@, other),
{
    let sessions = before.registry.sessions@;
    let target = connect_target(before, host, port, username, fresh);
    let renewed = Session { id: target, state: after.current() };
    match reusable(sessions, host, port, username) {
        Some(i) => {
            first_where_is_first(sessions, |x: Session| is_reusable(x, host, port, username));
            lemma_position(sessions, other);
            lemma_update(sessions, i, renewed, other);
        },
        None => {
            registering_leaves_the_others(sessions, renewed, other);
        },
    }
}

/// Leaving a connection is the user's doing and closes what is open of it; what
/// it held is kept until it is forgotten.
pub proof fn leaving_is_the_users_doing(s: SharedState)
    ensures
        leaving(s).conn.user_initiated_disconnect,
        !leaving(s).conn.client && !leaving(s).conn.event_loop && !leaving(s).conn.connect_task,
        leaving(s).conn.status == s.conn.status,
        leaving(s).conn.epoch == s.conn.epoch,
        leaving(s).conn.own_name == s.conn.own_name,
        leaving(s).server == s.server,
        leaving(s).server_id == s.server_id,
        leaving(s).pchat_ctx == s.pchat_ctx,
        leaving(s).native_broadcast == s.native_broadcast,
{
}

/// What is ended is what was open: the share where one ran there, the call only
/// where the connection was the active one, and each end that it had.
pub proof fn what_was_open_is_ended(before: AppState, id: ServerId)
    ensures
        ({
            let s = state_of(before.registry.sessions@, id);
            let t = teardown_of(before, id);
            &&& t.stop_share <==> s.native_broadcast is Some
            &&& t.stop_audio <==> before.registry.active == Some(id)
            &&& t.ends.connect_task <==> s.conn.connect_task
            &&& t.ends.client <==> s.conn.client
            &&& t.ends.event_loop <==> s.conn.event_loop
        }),
{
}

/// A change of one connection is a change of that one only.
pub proof fn a_change_concerns_one_connection(
    before: AppState,
    after: AppState,
    id: ServerId,
    state: SharedState,
    other: ServerId,
)
    requires
        before.wf(),
        is_known(before.registry.sessions@, id),
        only_session_changed(before, after, id, state),
        id != other,
    ensures
        is_known(after.registry.sessions@, id),
        state_of(after.registry.sessions@, id) == state,
        is_known(after.registry.sessions@, other) == is_known(before.registry.sessions@, other),
        is_known(before.registry.sessions@, other) ==> state_of(after.registry.sessions@, other)
            == state_of(before.registry.sessions@, other),
        after.registry.active == before.registry.active,
        after.inner == before.inner,
        after.default_inner == before.default_inner,
        after.initialized == before.initialized,
        after.uploads == before.uploads,
{
    let sessions = before.registry.sessions@;
    let i = position(sessions, id)->0;
    lemma_position(sessions, id);
    lemma_position(sessions, other);
    lemma_update(sessions, i, Session { id, state }, id);
    lemma_update(sessions, i, Session { id, state }, other);
}

} // verus!
