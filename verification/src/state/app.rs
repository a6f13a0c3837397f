//! The state of the application: its server connections, and which of them the
//! user works with.

use vstd::prelude::*;

use crate::collections::{first_from, first_where, first_where_is_first};
use crate::ids::{unknown_server, unknown_server_error, ServerId};
use crate::state::registry::{
    ids_distinct, is_known, lemma_position, lemma_update, position, state_of, Registry, Session,
};
use crate::state::session::{is_fresh, AppPreferences, AudioPipelineState, SharedState};
use crate::state::types::{default_audio, AudioSettings, VoiceState};
use crate::text::{same_text, texts};

verus! {

/// The state of the application.
pub struct AppState {
    /// Every server connection, and which one is active.
    pub registry: Registry,
    /// What the user sees while there is no connection.
    pub default_inner: SharedState,
    /// The connection the user works with; none for `default_inner`.
    pub inner: Option<ServerId>,
    /// Whether the application has been set up.
    pub initialized: bool,
    /// The uploads under way.
    pub uploads: Vec<String>,
}

/// The preferences of a new user.
pub open spec fn initial_prefs() -> AppPreferences {
    AppPreferences { notifications_enabled: true, disable_dual_path: false, app_focused: true }
}

/// Nothing has changed but the connection that the user works with.
pub open spec fn only_current_changed(before: AppState, after: AppState) -> bool {
    &&& after.inner == before.inner
    &&& after.initialized == before.initialized
    &&& after.uploads == before.uploads
    &&& after.registry.active == before.registry.active
    &&& match before.inner {
        Some(id) => {
            &&& after.default_inner == before.default_inner
            &&& after.registry.sessions@ == before.registry.sessions@.update(
                position(before.registry.sessions@, id)->0,
                Session { id, state: after.current() },
            )
        },
        None => after.registry == before.registry,
    }
}

/// Whether this is the upload of an identity.
pub open spec fn is_upload(upload: String, id: Seq<char>) -> bool {
    upload@ == id
}

/// Where an upload stands among those under way.
pub open spec fn upload_position(uploads: Seq<String>, id: Seq<char>) -> Option<int> {
    first_where(uploads, |u: String| is_upload(u, id))
}

/// No upload is listed twice.
pub open spec fn uploads_distinct(uploads: Seq<String>) -> bool {
    texts(uploads).no_duplicates()
}

proof fn lemma_upload_position(uploads: Seq<String>, id: Seq<char>)
    ensures
        match upload_position(uploads, id) {
            Some(i) => 0 <= i < uploads.len() && uploads[i]@ == id,
            None => forall|j: int| 0 <= j < uploads.len() ==> #[trigger] uploads[j]@ != id,
        },
{
    first_where_is_first(uploads, |u: String| is_upload(u, id));
}

impl AppState {
    /// The connections are sound, the one the user works with is the active
    /// one, and no upload is listed twice.
    pub open spec fn wf(self) -> bool {
        &&& self.registry.wf()
        &&& match self.inner {
            Some(id) => self.registry.active == Some(id),
            None => true,
        }
        &&& uploads_distinct(self.uploads@)
    }

    /// What the user works with.
    pub open spec fn current(self) -> SharedState {
        match self.inner {
            Some(id) => state_of(self.registry.sessions@, id),
            None => self.default_inner,
        }
    }

    /// The state at the start: no connections.
    pub fn new() -> (r: Self)
        ensures
            r.wf(),
            r.registry.sessions@ == Seq::<Session>::empty(),
            r.registry.active is None,
            r.inner is None,
            is_fresh(r.default_inner, initial_prefs(), default_audio()),
            !r.initialized,
            r.uploads@ == Seq::<String>::empty(),
    {
        let uploads: Vec<String> = Vec::new();
        assert(texts(uploads@) =~= Seq::empty());
        AppState {
            registry: Registry::new(),
            default_inner: SharedState::fresh(
                AppPreferences {
                    notifications_enabled: true,
                    disable_dual_path: false,
                    app_focused: true,
                },
                AudioSettings::default(),
            ),
            inner: None,
            initialized: false,
            uploads,
        }
    }

    /// What the user works with.
    pub fn snapshot(&self) -> (r: &SharedState)
        requires
            self.wf(),
        ensures
            *r == self.current(),
    {
        match self.inner {
            Some(id) => match self.registry.index_of(id) {
                Some(i) => &self.registry.sessions[i].state,
                None => &self.default_inner,
            },
            None => &self.default_inner,
        }
    }

    /// What the user works with, to change it.
    pub fn current_mut(&mut self) -> (r: &mut SharedState)
        requires
            old(self).wf(),
        ensures
            *r == old(self).current(),
            final(self).current() == *final(r),
            only_current_changed(*old(self), *final(self)),
            final(self).wf(),
    {
        let found: Option<usize> = match self.inner {
            Some(id) => self.registry.index_of(id),
            None => None,
        };
        match found {
            Some(i) => {
                proof {
                    assert forall|s: Session, id: ServerId|
                        s.id == self.registry.sessions@[i as int].id implies position(
                        #[trigger] self.registry.sessions@.update(i as int, s),
                        id,
                    ) == #[trigger] position(self.registry.sessions@, id)
                        && ids_distinct(
                        self.registry.sessions@.update(i as int, s),
                    ) by {
                        lemma_update(self.registry.sessions@, i as int, s, id);
                    }
                }
                &mut self.registry.sessions[i].state
            },
            None => &mut self.default_inner,
        }
    }

    /// Note that the application has been set up.
    pub fn set_app_handle(&mut self)
        ensures
            *final(self) == (AppState { initialized: true, ..*old(self) }),
    {
        self.initialized = true;
    }

    /// Whether the server that the user works with relays the signals of direct
    /// screen-share connections.  Without a connection it does not.
    pub fn server_relays_p2p(&self) -> (r: bool)
        requires
            self.wf(),
        ensures
            r == self.current().server.config.webrtc_p2p_relay_available,
    {
        self.snapshot().server.config.webrtc_p2p_relay_available
    }

    /// A connection of which nothing is known, with the user's preferences and
    /// audio settings, so that they hold from the first call on.
    pub fn fresh_session_state(&self) -> (r: SharedState)
        ensures
            is_fresh(r, self.default_inner.prefs, self.default_inner.audio.settings),
    {
        SharedState::fresh(self.default_inner.prefs, self.default_inner.audio.settings.clone())
    }

    /// Work with another connection, which becomes the active one.
    pub fn switch_active_to(&mut self, target: ServerId) -> (r: Result<(), String>)
        requires
            old(self).wf(),
        ensures
            final(self).wf(),
            if is_known(old(self).registry.sessions@, target) {
                &&& r is Ok
                &&& switched(*old(self), *final(self), target)
            } else {
                &&& r is Err
                &&& r->Err_0@ == unknown_server(target)
                &&& *final(self) == *old(self)
            },
    {
        match self.registry.set_active(target) {
            Ok(()) => {
                self.inner = Some(target);
                Ok(())
            },
            Err(e) => Err(e),
        }
    }

    /// Work with another connection, and take the voice call along.
    ///
    /// Returns what the call was on the connection that is left, where the
    /// connection changes: it has to be stopped there unless it was inactive,
    /// and started in the same way on the new one.
    pub fn switch_active_with_voice(&mut self, target: ServerId) -> (r: Result<
        Option<VoiceState>,
        String,
    >)
        requires
            old(self).wf(),
        ensures
            final(self).wf(),
            if !is_known(old(self).registry.sessions@, target) {
                &&& r is Err
                &&& r->Err_0@ == unknown_server(target)
                &&& *final(self) == *old(self)
            } else if old(self).inner == Some(target) {
                &&& r == Ok::<Option<VoiceState>, String>(None)
                &&& *final(self) == *old(self)
            } else {
                &&& r == Ok::<Option<VoiceState>, String>(
                    Some(old(self).current().audio.voice_state),
                )
                &&& exists|silent: AppState|
                    {
                        &&& #[trigger] silenced(*old(self), silent)
                        &&& switched(silent, *final(self), target)
                    }
            },
    {
        let known = match self.registry.index_of(target) {
            Some(_) => true,
            None => false,
        };
        if !known {
            return Err(unknown_server_error(target));
        }
        let same = match self.inner {
            Some(id) => id == target,
            None => false,
        };
        if same {
            return Ok(None);
        }
        let voice = self.snapshot().audio.voice_state;
        let current = self.current_mut();
        current.audio.voice_state = VoiceState::Inactive;
        let ghost silent = *self;
        proof {
            assert(silenced(*old(self), silent));
            if let Some(id) = old(self).inner {
                lemma_position(old(self).registry.sessions@, id);
                lemma_update(
                    old(self).registry.sessions@,
                    position(old(self).registry.sessions@, id)->0,
                    Session { id, state: silent.current() },
                    target,
                );
            }
        }
        match self.switch_active_to(target) {
            Ok(()) => Ok(Some(voice)),
            Err(e) => Err(e),
        }
    }

    /// Work with no connection.
    pub fn reset_to_default(&mut self)
        requires
            old(self).wf(),
        ensures
            final(self).wf(),
            *final(self) == (AppState { inner: None, ..*old(self) }),
    {
        self.inner = None;
    }

    /// Work with the active connection, where there is one.
    pub fn rebind_active(&mut self)
        requires
            old(self).registry.wf(),
            uploads_distinct(old(self).uploads@),
        ensures
            *final(self) == (AppState {
                inner: match old(self).registry.active {
                    Some(id) => Some(id),
                    None => old(self).inner,
                },
                ..*old(self)
            }),
    {
        if let Some(id) = self.registry.active_id() {
            self.inner = Some(id);
        }
    }

    fn upload_index(&self, upload_id: &str) -> (r: Option<usize>)
        ensures
            match r {
                Some(i) => upload_position(self.uploads@, upload_id@) == Some(i as int) && i
                    < self.uploads@.len(),
                None => upload_position(self.uploads@, upload_id@) is None,
            },
    {
        let ghost p = |u: String| is_upload(u, upload_id@);
        let mut i: usize = 0;
        while i < self.uploads.len()
            invariant
                i <= self.uploads.len(),
                p == (|u: String| is_upload(u, upload_id@)),
                first_where(self.uploads@, p) == first_from(self.uploads@, p, i as int),
            decreases self.uploads.len() - i,
        {
            if same_text(self.uploads[i].as_str(), upload_id) {
                return Some(i);
            }
            i += 1;
        }
        None
    }

    /// Note that an upload has begun.
    pub fn begin_upload(&mut self, upload_id: String)
        requires
            old(self).wf(),
        ensures
            final(self).wf(),
            *final(self) == (AppState { uploads: final(self).uploads, ..*old(self) }),
            final(self).uploads@ == if upload_position(old(self).uploads@, upload_id@) is Some {
                old(self).uploads@
            } else {
                old(self).uploads@.push(upload_id)
            },
            upload_position(final(self).uploads@, upload_id@) is Some,
            final(self).uploads@ == with_upload(old(self).uploads@, upload_id),
    {
        let ghost before = self.uploads@;
        proof {
            lemma_upload_position(before, upload_id@);
        }
        if self.upload_index(upload_id.as_str()).is_none() {
            let ghost text = upload_id@;
            self.uploads.push(upload_id);
            proof {
                assert(texts(self.uploads@) =~= texts(before).push(text));
                assert(forall|i: int|
                    0 <= i < before.len() ==> #[trigger] texts(before)[i] == before[i]@);
                lemma_upload_position(self.uploads@, text);
                assert(self.uploads@[before.len() as int]@ == text);
            }
        }
    }

    /// Cancel an upload.  Whether it was under way is returned; it is not any
    /// more.
    pub fn cancel_upload(&mut self, upload_id: &str) -> (r: bool)
        requires
            old(self).wf(),
        ensures
            final(self).wf(),
            *final(self) == (AppState { uploads: final(self).uploads, ..*old(self) }),
            r == (upload_position(old(self).uploads@, upload_id@) is Some),
            final(self).uploads@ == match upload_position(old(self).uploads@, upload_id@) {
                Some(i) => old(self).uploads@.remove(i),
                None => old(self).uploads@,
            },
            upload_position(final(self).uploads@, upload_id@) is None,
            final(self).uploads@ == without_upload(old(self).uploads@, upload_id@),
    {
        let ghost before = self.uploads@;
        proof {
            lemma_upload_position(before, upload_id@);
        }
        match self.upload_index(upload_id) {
            Some(i) => {
                self.uploads.remove(i);
                proof {
                    let after = self.uploads@;
                    assert forall|a: int, b: int|
                        0 <= a < after.len() && 0 <= b < after.len() && a != b implies #[trigger] texts(
                        after,
                    )[a] != #[trigger] texts(after)[b] by {
                        let a0 = if a < i {
                            a
                        } else {
                            a + 1
                        };
                        let b0 = if b < i {
                            b
                        } else {
                            b + 1
                        };
                        assert(texts(before)[a0] != texts(before)[b0]);
                    }
                    lemma_upload_position(after, upload_id@);
                    if let Some(k) = upload_position(after, upload_id@) {
                        let k0 = if k < i {
                            k
                        } else {
                            k + 1
                        };
                        assert(texts(before)[k0] == texts(before)[i as int]);
                    }
                }
                true
            },
            None => false,
        }
    }
}

/// A connection has become the active one, with which the user works.
pub open spec fn switched(before: AppState, after: AppState, target: ServerId) -> bool {
    after == (AppState {
        registry: Registry { active: Some(target), ..before.registry },
        inner: Some(target),
        ..before
    })
}

/// The call has ended on the connection that the user works with.
pub open spec fn silenced(before: AppState, after: AppState) -> bool {
    &&& only_current_changed(before, after)
    &&& after.current() == (SharedState {
        audio: AudioPipelineState {
            voice_state: VoiceState::Inactive,
            ..before.current().audio
        },
        ..before.current()
    })
}

/// Switching to another connection changes nothing of any connection but the
/// one that is left, whose voice call ends.
pub proof fn switching_leaves_the_others(
    before: AppState,
    silent: AppState,
    after: AppState,
    target: ServerId,
    other: ServerId,
)
    requires
        before.wf(),
        silenced(before, silent),
        switched(silent, after, target),
        before.inner != Some(other),
    ensures
        is_known(after.registry.sessions@, other) == is_known(before.registry.sessions@, other),
        is_known(before.registry.sessions@, other) ==> state_of(after.registry.sessions@, other)
            == state_of(before.registry.sessions@, other),
{
    if let Some(id) = before.inner {
        let i = position(before.registry.sessions@, id)->0;
        lemma_position(before.registry.sessions@, id);
        lemma_position(before.registry.sessions@, other);
        lemma_update(
            before.registry.sessions@,
            i,
            Session { id, state: silent.current() },
            other,
        );
    }
}

/// At the start notifications are on, messages take both paths, and the
/// application has the focus.
pub proof fn preferences_at_the_start()
    ensures
        initial_prefs().notifications_enabled,
        !initial_prefs().disable_dual_path,
        initial_prefs().app_focused,
{
}

/// Whoever switches works with that connection as it was, and it is the active
/// one; nothing of any connection changes.
pub proof fn switching_shows_the_other_as_it_was(
    before: AppState,
    after: AppState,
    target: ServerId,
)
    requires
        switched(before, after, target),
    ensures
        after.inner == Some(target),
        after.registry.active == Some(target),
        after.registry.sessions == before.registry.sessions,
        after.current() == state_of(before.registry.sessions@, target),
        after.default_inner == before.default_inner,
        after.uploads == before.uploads,
        after.initialized == before.initialized,
{
}

/// The call that ends with a switch ends just there: what else is known of that
/// connection stays.
pub proof fn a_silenced_connection_stays_up(before: AppState, after: AppState)
    requires
        before.wf(),
        silenced(before, after),
    ensures
        after.inner == before.inner,
        after.current().audio.voice_state == VoiceState::Inactive,
        after.current().audio.settings == before.current().audio.settings,
        after.current().conn == before.current().conn,
        after.current().users == before.current().users,
        after.current().current_channel == before.current().current_channel,
        after.current().native_broadcast == before.current().native_broadcast,
{
}

/// What changes the connection that the user works with changes no other.
pub proof fn work_on_one_connection_leaves_the_others(
    before: AppState,
    after: AppState,
    other: ServerId,
)
    requires
        before.wf(),
        only_current_changed(before, after),
        before.inner != Some(other),
    ensures
        after.inner == before.inner,
        after.registry.active == before.registry.active,
        is_known(after.registry.sessions@, other) == is_known(before.registry.sessions@, other),
        is_known(before.registry.sessions@, other) ==> state_of(after.registry.sessions@, other)
            == state_of(before.registry.sessions@, other),
        before.inner is Some ==> after.default_inner == before.default_inner,
{
    if let Some(id) = before.inner {
        let sessions = before.registry.sessions@;
        lemma_position(sessions, id);
        lemma_position(sessions, other);
        lemma_update(
            sessions,
            position(sessions, id)->0,
            Session { id, state: after.current() },
            other,
        );
    }
}

/// The uploads under way after one has begun.
pub open spec fn with_upload(uploads: Seq<String>, id: String) -> Seq<String> {
    if upload_position(uploads, id@) is Some {
        uploads
    } else {
        uploads.push(id)
    }
}

/// The uploads under way after one was cancelled.
pub open spec fn without_upload(uploads: Seq<String>, id: Seq<char>) -> Seq<String> {
    match upload_position(uploads, id) {
        Some(i) => uploads.remove(i),
        None => uploads,
    }
}

/// An upload that has begun is under way until it is cancelled, and neither
/// concerns any other.
pub proof fn an_upload_is_under_way_until_cancelled(
    uploads: Seq<String>,
    id: String,
    other: Seq<char>,
)
    requires
        uploads_distinct(uploads),
        other != id@,
    ensures
        upload_position(with_upload(uploads, id), id@) is Some,
        upload_position(without_upload(uploads, id@), id@) is None,
        upload_position(with_upload(uploads, id), other) is Some <==> upload_position(
            uploads,
            other,
        ) is Some,
        upload_position(without_upload(uploads, id@), other) is Some <==> upload_position(
            uploads,
            other,
        ) is Some,
{
    let more = with_upload(uploads, id);
    let less = without_upload(uploads, id@);
    lemma_upload_position(uploads, id@);
    lemma_upload_position(uploads, other);
    lemma_upload_position(more, id@);
    lemma_upload_position(more, other);
    lemma_upload_position(less, id@);
    lemma_upload_position(less, other);
    if upload_position(uploads, id@) is None {
        assert(more[uploads.len() as int]@ == id@);
    }
    if let Some(k) = upload_position(uploads, other) {
        assert(more[k]@ == other);
        if let Some(i) = upload_position(uploads, id@) {
            let k1 = if k < i {
                k
            } else {
                k - 1
            };
            assert(less[k1]@ == other);
        }
    }
    if let Some(k) = upload_position(more, other) {
        if k < uploads.len() {
            assert(uploads[k]@ == other);
        }
    }
    if let Some(i) = upload_position(uploads, id@) {
        if let Some(k) = upload_position(less, other) {
            let k0 = if k < i {
                k
            } else {
                k + 1
            };
            assert(uploads[k0]@ == other);
        }
        if let Some(k) = upload_position(less, id@) {
            let k0 = if k < i {
                k
            } else {
                k + 1
            };
            assert(texts(uploads)[k0] == uploads[k0]@);
            assert(texts(uploads)[i] == uploads[i]@);
            assert(texts(uploads)[k0] == texts(uploads)[i]);
        }
    }
}

} // verus!
