//! Starting up: command line, environment, saved preferences, windows.

use vstd::prelude::*;

use crate::collections::{first_from, first_where, first_where_is_first};
use crate::json::{
    json_bool_at, json_flag, json_holds, json_present, json_text, json_text_at,
};
use crate::media::encoder::{has_argument, text_view, wants_probe, PROBE_FLAG};
use crate::media::selftest::{wants_selftest, SELFTEST_FLAG};
use crate::state::app::{only_current_changed, AppState};
use crate::state::session::{AppPreferences, SharedState};
use crate::text::{concat2, has_prefix, same_text, starts_with, trim, trimmed};

verus! {

/// What the process does instead of starting the application.
#[derive(Debug, Clone, Copy, PartialEq, Eq, Structural)]
pub enum Helper {
    /// It probes the encoders.
    Probe,
    /// It tests the pipeline.
    SelfTest,
}

/// What arguments make of the process, where not the application.
pub open spec fn helper_for(args: Seq<String>, native: bool) -> Option<Helper> {
    if has_argument(args, "--probe-video-encoders"@) {
        Some(Helper::Probe)
    } else if native && has_argument(args, "--capture-selftest"@) {
        Some(Helper::SelfTest)
    } else {
        None
    }
}

/// What the arguments make of the process, where not the application.  The
/// test is there only in builds with native screen sharing.
pub fn handle_media_cli_flags(args: &Vec<String>, native: bool) -> (r: Option<Helper>)
    ensures
        r == if has_argument(args@, PROBE_FLAG@) {
            Some(Helper::Probe)
        } else if native && has_argument(args@, SELFTEST_FLAG@) {
            Some(Helper::SelfTest)
        } else {
            None
        },
        r == helper_for(args@, native),
{
    if wants_probe(args) {
        Some(Helper::Probe)
    } else if native && wants_selftest(args) {
        Some(Helper::SelfTest)
    } else {
        None
    }
}

/// A variable of the environment.
#[derive(Debug, Clone, Copy, PartialEq, Eq)]
pub struct Variable {
    /// Its name.
    pub key: &'static str,
    /// Its value.
    pub value: &'static str,
}

/// The variables that are to be set.
pub open spec fn variables_to_set(
    worker_threads_set: bool,
    purge_delay_set: bool,
    can_purge: bool,
) -> Seq<Variable> {
    let threads = Variable { key: "TOKIO_WORKER_THREADS", value: "4" };
    let purge = Variable { key: "MIMALLOC_PURGE_DELAY", value: "100" };
    let first = if worker_threads_set {
        Seq::<Variable>::empty()
    } else {
        seq![threads]
    };
    if purge_delay_set || !can_purge {
        first
    } else {
        first.push(purge)
    }
}

/// The variables to set before anything else runs: those that the user has not
/// set.  Four worker threads are plenty; freed pages are given back promptly
/// where the allocator can do that.
pub fn configure_runtime_env(
    worker_threads_set: bool,
    purge_delay_set: bool,
    can_purge: bool,
) -> (r: Vec<Variable>)
    ensures
        r@ == variables_to_set(worker_threads_set, purge_delay_set, can_purge),
        r@ == (if worker_threads_set {
            Seq::<Variable>::empty()
        } else {
            seq![Variable { key: "TOKIO_WORKER_THREADS", value: "4" }]
        }) + (if purge_delay_set || !can_purge {
            Seq::<Variable>::empty()
        } else {
            seq![Variable { key: "MIMALLOC_PURGE_DELAY", value: "100" }]
        }),
{
    let mut out: Vec<Variable> = Vec::new();
    if !worker_threads_set {
        out.push(Variable { key: "TOKIO_WORKER_THREADS", value: "4" });
    }
    if can_purge && !purge_delay_set {
        out.push(Variable { key: "MIMALLOC_PURGE_DELAY", value: "100" });
    }
    out
}

/// Where data is kept, given where the environment and the system say.
pub open spec fn data_dir(overridden: Option<String>, system: Result<String, String>) -> Result<
    String,
    String,
> {
    if overridden is Some && trimmed(overridden->0@).len() > 0 {
        Ok(overridden->0)
    } else {
        system
    }
}

/// Where the application keeps its data: where the environment says so, else
/// where the system does.  A blank value says nothing.
pub fn e2e_data_dir(overridden: Option<String>, app_data_dir: Result<String, String>) -> (r: Result<
    String,
    String,
>)
    ensures
        r == match overridden {
            Some(dir) => if trimmed(dir@).len() > 0 {
                Ok(dir)
            } else {
                app_data_dir
            },
            None => app_data_dir,
        },
        r == data_dir(overridden, app_data_dir),
{
    if let Some(dir) = overridden {
        let inner = trim(dir.as_str());
        if !inner.as_str().is_empty() {
            return Ok(dir);
        }
    }
    app_data_dir
}

/// The saved preferences that matter here, as far as they are there.
#[derive(Debug, PartialEq, Eq)]
pub struct SavedPrefs {
    /// Whether notifications are shown.
    pub enable_notifications: Option<bool>,
    /// Whether nothing personal is shown.
    pub streamer_mode: Option<bool>,
    /// Whether messages are also sent in the clear.
    pub enable_dual_path: Option<bool>,
    /// How much is logged.
    pub log_level: Option<String>,
    /// How much was logged, before there were levels.
    pub debug_logging: Option<bool>,
    /// Whether the log goes to the terminal.
    pub terminal_logging: Option<bool>,
    /// Whether old logs are packed.
    pub auto_zip_logs: Option<bool>,
    /// Whether the log goes to a file.
    pub log_to_file: Option<bool>,
}

/// The pointer to the preferences: older versions kept them at the top.
pub open spec fn prefs_root(doc: Seq<u8>) -> Seq<char> {
    if json_present(doc, "/preferences"@) {
        "/preferences"@
    } else {
        ""@
    }
}

/// The preferences of a document.
pub open spec fn prefs_of(doc: Seq<u8>, p: SavedPrefs) -> bool {
    let root = prefs_root(doc);
    &&& p.enable_notifications == json_bool_at(doc, root + "/enableNotifications"@)
    &&& p.streamer_mode == json_bool_at(doc, root + "/streamerMode"@)
    &&& p.enable_dual_path == json_bool_at(doc, root + "/enableDualPath"@)
    &&& text_view(p.log_level) == json_text_at(doc, root + "/logLevel"@)
    &&& p.debug_logging == json_bool_at(doc, root + "/debugLogging"@)
    &&& p.terminal_logging == json_bool_at(doc, root + "/terminalLogging"@)
    &&& p.auto_zip_logs == json_bool_at(doc, root + "/autoZipLogs"@)
    &&& p.log_to_file == json_bool_at(doc, root + "/logToFile"@)
}

/// Read the preferences of a document; none where it is not valid JSON.
pub fn read_prefs(doc: &Vec<u8>) -> (r: Option<SavedPrefs>)
    ensures
        match r {
            Some(p) => json_present(doc@, ""@) && prefs_of(doc@, p),
            None => !json_present(doc@, ""@),
        },
{
    if !json_holds(doc, "") {
        return None;
    }
    let root: &str = if json_holds(doc, "/preferences") {
        "/preferences"
    } else {
        ""
    };
    let log_level = json_text(doc, concat2(root, "/logLevel").as_str());
    Some(
        SavedPrefs {
            enable_notifications: json_flag(doc, concat2(root, "/enableNotifications").as_str()),
            streamer_mode: json_flag(doc, concat2(root, "/streamerMode").as_str()),
            enable_dual_path: json_flag(doc, concat2(root, "/enableDualPath").as_str()),
            log_level,
            debug_logging: json_flag(doc, concat2(root, "/debugLogging").as_str()),
            terminal_logging: json_flag(doc, concat2(root, "/terminalLogging").as_str()),
            auto_zip_logs: json_flag(doc, concat2(root, "/autoZipLogs").as_str()),
            log_to_file: json_flag(doc, concat2(root, "/logToFile").as_str()),
        },
    )
}

/// Whether saved audio settings are there to be read.
pub fn has_audio_settings(doc: &Vec<u8>) -> (r: bool)
    ensures
        r == json_present(doc@, "/audioSettings"@),
{
    json_holds(doc, "/audioSettings")
}

/// The preferences after the saved ones were taken over.  Nobody is notified
/// while nothing personal is to be shown; what was not saved stays.
pub open spec fn with_saved(prefs: AppPreferences, saved: SavedPrefs) -> AppPreferences {
    AppPreferences {
        notifications_enabled: match saved.enable_notifications {
            Some(enabled) => enabled && saved.streamer_mode != Some(true),
            None => prefs.notifications_enabled,
        },
        disable_dual_path: match saved.enable_dual_path {
            Some(enabled) => !enabled,
            None => prefs.disable_dual_path,
        },
        app_focused: prefs.app_focused,
    }
}

/// The level to log at: the one that was saved, else the one that the older
/// switch stands for.
pub open spec fn saved_level(saved: SavedPrefs) -> Option<Seq<char>> {
    match saved.log_level {
        Some(level) => Some(level@),
        None => match saved.debug_logging {
            Some(true) => Some("debug"@),
            Some(false) => Some("info"@),
            None => None,
        },
    }
}

/// What is to be done about logging, in this order.
#[derive(Debug, PartialEq, Eq)]
pub struct LogSettings {
    /// Log at this level.
    pub level: Option<String>,
    /// Log to the terminal, or not.
    pub terminal: Option<bool>,
    /// Pack old logs, or not.
    pub auto_zip: Option<bool>,
    /// Log to a file.
    pub to_file: bool,
}

/// Logging goes on as the saved preferences say.
pub open spec fn logs_as_saved(saved: SavedPrefs, r: LogSettings) -> bool {
    &&& text_view(r.level) == saved_level(saved)
    &&& r.terminal == saved.terminal_logging
    &&& r.auto_zip == saved.auto_zip_logs
    &&& r.to_file == (saved.log_to_file == Some(true))
}

/// What the saved preferences say about logging.
pub fn log_settings(saved: &SavedPrefs) -> (r: LogSettings)
    ensures
        text_view(r.level) == saved_level(*saved),
        r.terminal == saved.terminal_logging,
        r.auto_zip == saved.auto_zip_logs,
        r.to_file == (saved.log_to_file == Some(true)),
        logs_as_saved(*saved, r),
{
    let level = match &saved.log_level {
        Some(level) => Some(level.clone()),
        None => match saved.debug_logging {
            Some(true) => Some("debug".to_string()),
            Some(false) => Some("info".to_string()),
            None => None,
        },
    };
    LogSettings {
        level,
        terminal: saved.terminal_logging,
        auto_zip: saved.auto_zip_logs,
        to_file: match saved.log_to_file {
            Some(on) => on,
            None => false,
        },
    }
}

impl AppState {
    /// Take over saved preferences.
    pub fn apply_saved_prefs(&mut self, saved: &SavedPrefs)
        requires
            old(self).wf(),
        ensures
            final(self).wf(),
            only_current_changed(*old(self), *final(self)),
            final(self).current() == (SharedState {
                prefs: with_saved(old(self).current().prefs, *saved),
                ..old(self).current()
            }),
    {
        let state = self.current_mut();
        if let Some(enabled) = saved.enable_notifications {
            let streamer_mode = match saved.streamer_mode {
                Some(on) => on,
                None => false,
            };
            state.prefs.notifications_enabled = enabled && !streamer_mode;
        }
        if let Some(enabled) = saved.enable_dual_path {
            state.prefs.disable_dual_path = !enabled;
        }
    }

    /// Take over the preferences of a saved document, and say what it says about
    /// logging.  A document that is not valid JSON says nothing.
    pub fn hydrate_persisted_prefs(&mut self, doc: &Vec<u8>) -> (r: Option<LogSettings>)
        requires
            old(self).wf(),
        ensures
            final(self).wf(),
            if json_present(doc@, ""@) {
                exists|saved: SavedPrefs|
                    {
                        &&& #[trigger] prefs_of(doc@, saved)
                        &&& only_current_changed(*old(self), *final(self))
                        &&& final(self).current() == (SharedState {
                            prefs: with_saved(old(self).current().prefs, saved),
                            ..old(self).current()
                        })
                        &&& r is Some
                        &&& text_view(r->0.level) == saved_level(saved)
                        &&& r->0.terminal == saved.terminal_logging
                        &&& r->0.auto_zip == saved.auto_zip_logs
                        &&& r->0.to_file == (saved.log_to_file == Some(true))
                    }
            } else {
                r is None && *final(self) == *old(self)
            },
    {
        match read_prefs(doc) {
            Some(saved) => {
                self.apply_saved_prefs(&saved);
                Some(log_settings(&saved))
            },
            None => None,
        }
    }

    /// Note whether the application has the focus.
    pub fn set_focused(&mut self, focused: bool)
        requires
            old(self).wf(),
        ensures
            final(self).wf(),
            only_current_changed(*old(self), *final(self)),
            final(self).current() == (SharedState {
                prefs: AppPreferences { app_focused: focused, ..old(self).current().prefs },
                ..old(self).current()
            }),
    {
        let state = self.current_mut();
        state.prefs.app_focused = focused;
    }
}

/// What happens to a window.
#[derive(Debug, Clone, Copy, PartialEq, Eq, Structural)]
pub enum WindowEvent {
    /// It gets or loses the focus.
    Focused(bool),
    /// Its size changes; minimized or not.
    Resized {
        /// Whether it is minimized now.
        minimized: bool,
    },
    /// It is gone.
    Destroyed,
    /// Anything else.
    Other,
}

/// What is done about it, in this order.
#[derive(Debug, Clone, Copy, PartialEq, Eq, Structural)]
pub enum WindowAction {
    /// Note whether the application has the focus.
    SetFocused(bool),
    /// Ask the browser for little memory, or no longer.
    SetMemoryTarget {
        /// Whether for little.
        low: bool,
    },
    /// Show the main window.
    ShowMainWindow,
    /// Tell the main window that a stream is no longer shown in its own.
    StreamClosed {
        /// Whose stream.
        session: u32,
    },
    /// Tell the main window that no translation is picked any more.
    StopTranslationPicker,
}

/// A window that shows a stream.
#[derive(Debug, PartialEq, Eq)]
pub struct StreamWindow {
    /// Its label.
    pub label: String,
    /// Whose stream it shows.
    pub session: u32,
}

/// Whether this is the window of a label.
pub open spec fn is_labelled(w: StreamWindow, label: Seq<char>) -> bool {
    w.label@ == label
}

/// Where a window stands among those that show a stream.
pub open spec fn stream_window(windows: Seq<StreamWindow>, label: Seq<char>) -> Option<int> {
    first_where(windows, |w: StreamWindow| is_labelled(w, label))
}

/// What is known of the windows.
pub struct Windows {
    /// The label of the main window.
    pub main: String,
    /// The label of the updater's window.
    pub updater: String,
    /// Whether the browser can be asked for little memory.
    pub trims_memory: bool,
    /// Whether it was.
    pub memory_low: bool,
    /// The windows that show a stream.
    pub streams: Vec<StreamWindow>,
}

/// Whether the browser should be asked for little memory after an event, where
/// the event says so.
pub open spec fn memory_wish(w: Windows, label: Seq<char>, event: WindowEvent) -> Option<bool> {
    if w.trims_memory && label == w.main@ {
        match event {
            WindowEvent::Resized { minimized } => Some(minimized),
            WindowEvent::Focused(true) => Some(false),
            _ => None,
        }
    } else {
        None
    }
}

/// The stream whose window is gone.
pub open spec fn closed_stream(w: Windows, label: Seq<char>, event: WindowEvent) -> Option<int> {
    if event is Destroyed && has_prefix(label, "popout-stream-"@) {
        stream_window(w.streams@, label)
    } else {
        None
    }
}

/// One action or none.
pub open spec fn when(condition: bool, action: WindowAction) -> Seq<WindowAction> {
    if condition {
        seq![action]
    } else {
        Seq::<WindowAction>::empty()
    }
}

/// What is done about an event.
pub open spec fn window_actions(w: Windows, label: Seq<char>, event: WindowEvent) -> Seq<
    WindowAction,
> {
    let gone = event is Destroyed;
    let focus = match event {
        WindowEvent::Focused(focused) => seq![WindowAction::SetFocused(focused)],
        _ => Seq::<WindowAction>::empty(),
    };
    let memory = match memory_wish(w, label, event) {
        Some(low) => when(low != w.memory_low, WindowAction::SetMemoryTarget { low }),
        None => Seq::<WindowAction>::empty(),
    };
    let stream = match closed_stream(w, label, event) {
        Some(i) => seq![WindowAction::StreamClosed { session: w.streams@[i].session }],
        None => Seq::<WindowAction>::empty(),
    };
    focus + memory + when(gone && label == w.updater@, WindowAction::ShowMainWindow) + stream
        + when(gone && label == "popout-translation"@, WindowAction::StopTranslationPicker)
}

/// Whether the browser was last asked for little memory, after an event.
pub open spec fn memory_after(w: Windows, label: Seq<char>, event: WindowEvent) -> bool {
    match memory_wish(w, label, event) {
        Some(low) => low,
        None => w.memory_low,
    }
}

/// The windows that show a stream, after an event.
pub open spec fn streams_after(w: Windows, label: Seq<char>, event: WindowEvent) -> Seq<
    StreamWindow,
> {
    match closed_stream(w, label, event) {
        Some(i) => w.streams@.remove(i),
        None => w.streams@,
    }
}

/// The windows that show a stream, after one more was opened.
pub open spec fn with_stream(streams: Seq<StreamWindow>, w: StreamWindow) -> Seq<StreamWindow> {
    match stream_window(streams, w.label@) {
        Some(i) => streams.update(i, w),
        None => streams.push(w),
    }
}

impl Windows {
    /// No stream has a window yet.
    pub fn new(main: String, updater: String, trims_memory: bool) -> (r: Self)
        ensures
            r.main == main,
            r.updater == updater,
            r.trims_memory == trims_memory,
            !r.memory_low,
            r.streams@ == Seq::<StreamWindow>::empty(),
    {
        Windows { main, updater, trims_memory, memory_low: false, streams: Vec::new() }
    }

    /// A stream gets its own window.
    pub fn open_stream(&mut self, label: String, session: u32)
        ensures
            final(self).main == old(self).main,
            final(self).updater == old(self).updater,
            final(self).trims_memory == old(self).trims_memory,
            final(self).memory_low == old(self).memory_low,
            final(self).streams@ == match stream_window(old(self).streams@, label@) {
                Some(i) => old(self).streams@.update(i, (StreamWindow { label, session })),
                None => old(self).streams@.push((StreamWindow { label, session })),
            },
            final(self).streams@ == with_stream(
                old(self).streams@,
                (StreamWindow { label, session }),
            ),
    {
        match self.stream_index(label.as_str()) {
            Some(i) => {
                self.streams.set(i, StreamWindow { label, session });
            },
            None => {
                self.streams.push(StreamWindow { label, session });
            },
        }
    }

    fn stream_index(&self, label: &str) -> (r: Option<usize>)
        ensures
            match r {
                Some(i) => stream_window(self.streams@, label@) == Some(i as int) && i
                    < self.streams@.len(),
                None => stream_window(self.streams@, label@) is None,
            },
    {
        let ghost p = |w: StreamWindow| is_labelled(w, label@);
        let mut i: usize = 0;
        while i < self.streams.len()
            invariant
                i <= self.streams.len(),
                p == (|w: StreamWindow| is_labelled(w, label@)),
                first_where(self.streams@, p) == first_from(self.streams@, p, i as int),
            decreases self.streams.len() - i,
        {
            if same_text(self.streams[i].label.as_str(), label) {
                return Some(i);
            }
            i += 1;
        }
        None
    }

    /// What is done about an event of a window.
    ///
    /// A size changes in many steps, but the browser is asked only where what
    /// it is asked for changes.
    pub fn on_event(&mut self, label: &str, event: WindowEvent) -> (r: Vec<WindowAction>)
        ensures
            r@ == window_actions(*old(self), label@, event),
            final(self).main == old(self).main,
            final(self).updater == old(self).updater,
            final(self).trims_memory == old(self).trims_memory,
            final(self).memory_low == match memory_wish(*old(self), label@, event) {
                Some(low) => low,
                None => old(self).memory_low,
            },
            final(self).streams@ == match closed_stream(*old(self), label@, event) {
                Some(i) => old(self).streams@.remove(i),
                None => old(self).streams@,
            },
            final(self).memory_low == memory_after(*old(self), label@, event),
            final(self).streams@ == streams_after(*old(self), label@, event),
    {
        let mut out: Vec<WindowAction> = Vec::new();
        if let WindowEvent::Focused(focused) = event {
            out.push(WindowAction::SetFocused(focused));
        }
        let wish: Option<bool> = if self.trims_memory && same_text(label, self.main.as_str()) {
            match event {
                WindowEvent::Resized { minimized } => Some(minimized),
                WindowEvent::Focused(true) => Some(false),
                _ => None,
            }
        } else {
            None
        };
        if let Some(low) = wish {
            if low != self.memory_low {
                self.memory_low = low;
                out.push(WindowAction::SetMemoryTarget { low });
            }
        }
        let gone = match event {
            WindowEvent::Destroyed => true,
            _ => false,
        };
        if gone && same_text(label, self.updater.as_str()) {
            out.push(WindowAction::ShowMainWindow);
        }
        if gone && starts_with(label, "popout-stream-") {
            if let Some(i) = self.stream_index(label) {
                let window = self.streams.remove(i);
                out.push(WindowAction::StreamClosed { session: window.session });
            }
        }
        if gone && same_text(label, "popout-translation") {
            out.push(WindowAction::StopTranslationPicker);
        }
        assert(out@ =~= window_actions(*old(self), label@, event));
        out
    }
}

/// The browser is asked for little memory only where the main window is
/// minimized, and never twice for the same.
pub proof fn memory_requests_are_changes(w: Windows, label: Seq<char>, event: WindowEvent)
    ensures
        forall|low: bool| #[trigger]
            window_actions(w, label, event).contains(WindowAction::SetMemoryTarget { low }) ==> {
                &&& low != w.memory_low
                &&& label == w.main@
                &&& low ==> event == WindowEvent::Resized { minimized: true }
            },
{
    assert forall|low: bool| #[trigger]
        window_actions(w, label, event).contains(
            WindowAction::SetMemoryTarget { low },
        ) implies low != w.memory_low && label == w.main@ && (low ==> event
        == WindowEvent::Resized { minimized: true }) by {
        let all = window_actions(w, label, event);
        let i = choose|i: int|
            0 <= i < all.len() && all[i] == WindowAction::SetMemoryTarget { low };
        assert(all[i] == WindowAction::SetMemoryTarget { low });
    }
}

/// The flag of the probe makes the process the probe, before anything else; the
/// flag of the test makes it the test, in builds that can share natively; any
/// other arguments start the application.
pub proof fn flags_make_the_process_a_helper(args: Seq<String>, native: bool, k: int)
    requires
        0 <= k < args.len(),
    ensures
        args[k]@ == "--probe-video-encoders"@ ==> helper_for(args, native) == Some(Helper::Probe),
        args[k]@ == "--capture-selftest"@ && (forall|j: int|
            0 <= j < args.len() ==> (#[trigger] args[j])@ != "--probe-video-encoders"@) ==> {
            &&& helper_for(args, true) == Some(Helper::SelfTest)
            &&& helper_for(args, false) is None
        },
        (forall|j: int|
            0 <= j < args.len() ==> (#[trigger] args[j])@ != "--probe-video-encoders"@
                && args[j]@ != "--capture-selftest"@) ==> helper_for(args, native) is None,
{
}

/// What the user has set is never overridden, and what they have not set is set
/// to four threads and, where pages can be given back, to a tenth of a second.
pub proof fn what_the_user_has_set_stays(purge_delay_set: bool, can_purge: bool)
    ensures
        variables_to_set(true, true, can_purge).len() == 0,
        variables_to_set(true, purge_delay_set, false).len() == 0,
        variables_to_set(false, true, can_purge) == seq![
            Variable { key: "TOKIO_WORKER_THREADS", value: "4" },
        ],
        variables_to_set(true, false, true) == seq![
            Variable { key: "MIMALLOC_PURGE_DELAY", value: "100" },
        ],
        variables_to_set(false, false, true) == seq![
            Variable { key: "TOKIO_WORKER_THREADS", value: "4" },
            Variable { key: "MIMALLOC_PURGE_DELAY", value: "100" },
        ],
{
    assert(variables_to_set(true, false, true) =~= seq![
        Variable { key: "MIMALLOC_PURGE_DELAY", value: "100" },
    ]);
    assert(variables_to_set(false, false, true) =~= seq![
        Variable { key: "TOKIO_WORKER_THREADS", value: "4" },
        Variable { key: "MIMALLOC_PURGE_DELAY", value: "100" },
    ]);
}

/// What the environment names is taken as it is, blanks at its ends and all;
/// where it names nothing but blanks, what the system says counts.
pub proof fn the_environment_decides_where_data_is_kept(
    dir: String,
    system: Result<String, String>,
)
    ensures
        trimmed(dir@).len() > 0 ==> data_dir(Some(dir), system) == Ok::<String, String>(dir),
        trimmed(dir@).len() == 0 ==> data_dir(Some(dir), system) == system,
        data_dir(None, system) == system,
{
}

/// Each preference is read from where it is kept: below the preferences where
/// the document has such, else at its top.
pub proof fn preferences_are_read_from_their_place(doc: Seq<u8>, p: SavedPrefs)
    requires
        prefs_of(doc, p),
    ensures
        json_present(doc, "/preferences"@) ==> {
            &&& p.enable_notifications == json_bool_at(
                doc,
                "/preferences"@ + "/enableNotifications"@,
            )
            &&& p.streamer_mode == json_bool_at(doc, "/preferences"@ + "/streamerMode"@)
            &&& p.enable_dual_path == json_bool_at(doc, "/preferences"@ + "/enableDualPath"@)
            &&& text_view(p.log_level) == json_text_at(doc, "/preferences"@ + "/logLevel"@)
            &&& p.debug_logging == json_bool_at(doc, "/preferences"@ + "/debugLogging"@)
            &&& p.terminal_logging == json_bool_at(doc, "/preferences"@ + "/terminalLogging"@)
            &&& p.auto_zip_logs == json_bool_at(doc, "/preferences"@ + "/autoZipLogs"@)
            &&& p.log_to_file == json_bool_at(doc, "/preferences"@ + "/logToFile"@)
        },
        !json_present(doc, "/preferences"@) ==> {
            &&& p.enable_notifications == json_bool_at(doc, "/enableNotifications"@)
            &&& p.streamer_mode == json_bool_at(doc, "/streamerMode"@)
            &&& p.enable_dual_path == json_bool_at(doc, "/enableDualPath"@)
            &&& text_view(p.log_level) == json_text_at(doc, "/logLevel"@)
            &&& p.debug_logging == json_bool_at(doc, "/debugLogging"@)
            &&& p.terminal_logging == json_bool_at(doc, "/terminalLogging"@)
            &&& p.auto_zip_logs == json_bool_at(doc, "/autoZipLogs"@)
            &&& p.log_to_file == json_bool_at(doc, "/logToFile"@)
        },
{
    reveal_strlit("");
    assert(""@ + "/enableNotifications"@ =~= "/enableNotifications"@);
    assert(""@ + "/streamerMode"@ =~= "/streamerMode"@);
    assert(""@ + "/enableDualPath"@ =~= "/enableDualPath"@);
    assert(""@ + "/logLevel"@ =~= "/logLevel"@);
    assert(""@ + "/debugLogging"@ =~= "/debugLogging"@);
    assert(""@ + "/terminalLogging"@ =~= "/terminalLogging"@);
    assert(""@ + "/autoZipLogs"@ =~= "/autoZipLogs"@);
    assert(""@ + "/logToFile"@ =~= "/logToFile"@);
}

/// Nobody is notified in streamer mode; without it notifications and the second
/// path are as they were saved, and what was not saved stays as it was.
pub proof fn saved_preferences_are_honoured(prefs: AppPreferences, saved: SavedPrefs)
    ensures
        saved.enable_notifications is Some && saved.streamer_mode == Some(true) ==> !with_saved(
            prefs,
            saved,
        ).notifications_enabled,
        saved.enable_notifications is Some && saved.streamer_mode != Some(true) ==> with_saved(
            prefs,
            saved,
        ).notifications_enabled == saved.enable_notifications->0,
        saved.enable_notifications is None ==> with_saved(prefs, saved).notifications_enabled
            == prefs.notifications_enabled,
        saved.enable_dual_path == Some(true) ==> !with_saved(prefs, saved).disable_dual_path,
        saved.enable_dual_path == Some(false) ==> with_saved(prefs, saved).disable_dual_path,
        saved.enable_dual_path is None ==> with_saved(prefs, saved).disable_dual_path
            == prefs.disable_dual_path,
        with_saved(prefs, saved).app_focused == prefs.app_focused,
{
}

/// What is logged, and where to, is what was saved; the older switch counts only
/// where no level was.
pub proof fn logging_is_as_saved(saved: SavedPrefs, r: LogSettings)
    requires
        logs_as_saved(saved, r),
    ensures
        saved.log_level is Some ==> r.level is Some && r.level->0@ == saved.log_level->0@,
        saved.log_level is None && saved.debug_logging == Some(true) ==> r.level is Some
            && r.level->0@ == "debug"@,
        saved.log_level is None && saved.debug_logging == Some(false) ==> r.level is Some
            && r.level->0@ == "info"@,
        saved.log_level is None && saved.debug_logging is None ==> r.level is None,
        r.terminal == saved.terminal_logging,
        r.auto_zip == saved.auto_zip_logs,
        r.to_file <==> saved.log_to_file == Some(true),
{
}

/// What happens to any window is heeded as what it is: focus is noted whichever
/// window it concerns, the end of the updater shows the main window, that of the
/// translation's window stops the picker, and nothing else does.
pub proof fn windows_are_heeded(w: Windows, label: Seq<char>, event: WindowEvent)
    ensures
        forall|focused: bool| #[trigger]
            window_actions(w, label, event).contains(WindowAction::SetFocused(focused))
                <==> event == WindowEvent::Focused(focused),
        window_actions(w, label, event).contains(WindowAction::ShowMainWindow) <==> event
            == WindowEvent::Destroyed && label == w.updater@,
        window_actions(w, label, event).contains(WindowAction::StopTranslationPicker) <==> event
            == WindowEvent::Destroyed && label == "popout-translation"@,
        event == WindowEvent::Other ==> window_actions(w, label, event).len() == 0,
{
    let all = window_actions(w, label, event);
    assert forall|focused: bool| #[trigger]
        all.contains(WindowAction::SetFocused(focused)) <==> event
            == WindowEvent::Focused(focused) by {
        if event == WindowEvent::Focused(focused) {
            assert(all[0] == WindowAction::SetFocused(focused));
        }
    }
    let gone = event is Destroyed;
    if gone && label == w.updater@ {
        assert(all[0] == WindowAction::ShowMainWindow);
    }
    if gone && label == "popout-translation"@ {
        assert(all.last() == WindowAction::StopTranslationPicker);
    }
}

/// The main window's being minimized asks for little memory, and its being
/// shown again or coming to the front takes that back; no other window does.
pub proof fn a_minimized_window_gives_back_memory(w: Windows, label: Seq<char>, event: WindowEvent)
    ensures
        w.trims_memory ==> {
            &&& memory_after(w, w.main@, WindowEvent::Resized { minimized: true })
            &&& !memory_after(w, w.main@, WindowEvent::Resized { minimized: false })
            &&& !memory_after(w, w.main@, WindowEvent::Focused(true))
            &&& memory_after(w, w.main@, WindowEvent::Focused(false)) == w.memory_low
        },
        !w.trims_memory || label != w.main@ ==> memory_after(w, label, event) == w.memory_low,
        memory_after(w, label, event) != w.memory_low ==> window_actions(w, label, event).contains(
            WindowAction::SetMemoryTarget { low: !w.memory_low },
        ),
{
    let all = window_actions(w, label, event);
    if memory_after(w, label, event) != w.memory_low {
        match event {
            WindowEvent::Focused(_) => {
                assert(all[1] == WindowAction::SetMemoryTarget { low: !w.memory_low });
            },
            _ => {
                assert(all[0] == WindowAction::SetMemoryTarget { low: !w.memory_low });
            },
        }
    }
}

/// The end of a stream's window is told for just the user whose stream it
/// showed, and that window is forgotten; the others stay.
pub proof fn a_closed_stream_is_told_once(w: Windows, k: int, label: Seq<char>)
    requires
        0 <= k < w.streams@.len(),
        w.streams@[k].label@ == "popout-stream-"@ + label,
        forall|j: int| 0 <= j < k ==> (#[trigger] w.streams@[j]).label@ != w.streams@[k].label@,
    ensures
        window_actions(w, w.streams@[k].label@, WindowEvent::Destroyed).contains(
            WindowAction::StreamClosed { session: w.streams@[k].session },
        ),
        streams_after(w, w.streams@[k].label@, WindowEvent::Destroyed) == w.streams@.remove(k),
        forall|event: WindowEvent|
            event != WindowEvent::Destroyed ==> #[trigger] streams_after(
                w,
                w.streams@[k].label@,
                event,
            ) == w.streams@,
{
    let full = w.streams@[k].label@;
    let prefix = "popout-stream-"@;
    assert(full.subrange(0, prefix.len() as int) =~= prefix);
    let p = |s: StreamWindow| is_labelled(s, full);
    first_where_is_first(w.streams@, p);
    assert(p(w.streams@[k]));
    let found = stream_window(w.streams@, full)->0;
    assert(p(w.streams@[found]));
    if found > k {
        assert(!p(w.streams@[k]));
    }
    let all = window_actions(w, full, WindowEvent::Destroyed);
    let i: int = if full == w.updater@ {
        1
    } else {
        0
    };
    assert(all[i] == WindowAction::StreamClosed { session: w.streams@[k].session });
}

/// A stream that gets a window is known by it, in place of what that window
/// showed before.
pub proof fn an_opened_stream_is_known(streams: Seq<StreamWindow>, w: StreamWindow)
    ensures
        stream_window(with_stream(streams, w), w.label@) is Some,
        with_stream(streams, w)[stream_window(with_stream(streams, w), w.label@)->0].session
            == w.session,
        stream_window(streams, w.label@) is Some ==> with_stream(streams, w).len()
            == streams.len(),
        stream_window(streams, w.label@) is None ==> with_stream(streams, w) == streams.push(w),
{
    let p = |s: StreamWindow| is_labelled(s, w.label@);
    let now = with_stream(streams, w);
    first_where_is_first(streams, p);
    first_where_is_first(now, p);
    match stream_window(streams, w.label@) {
        Some(i) => {
            assert(p(now[i]));
            let k = stream_window(now, w.label@)->0;
            assert(p(now[k]));
            if k < i {
                assert(!p(streams[k]));
            }
            if i < k {
                assert(!p(now[i]));
            }
        },
        None => {
            assert(p(now[streams.len() as int]));
            let k = stream_window(now, w.label@)->0;
            assert(p(now[k]));
            if k < streams.len() {
                assert(!p(streams[k]));
            }
        },
    }
}

} // verus!
