//! Source-picker entries: displays and windows that can be shared.

use vstd::prelude::*;

use crate::text::{concat2, decimal, decimal_text, utf16_lossy, utf16_text};

use super::capture::CaptureSource;
use super::display::{displays_view, source_of, DesktopRect, Display, DisplayInfo};
use super::settings::OutputSize;

verus! {

/// What the picker shows of a source, plus the source itself.
#[derive(Debug, PartialEq, Eq)]
pub struct SourceInfo {
    /// Identifies the entry: `monitor:` or `window:` and the handle.
    pub id: String,
    /// The name shown.
    pub name: String,
    /// The size in pixels.
    pub size: OutputSize,
    /// What the pipeline captures when the entry is picked.
    pub source: CaptureSource,
}

/// What a picker entry says.
#[verifier::ext_equal]
pub struct Entry {
    /// Identifies the entry.
    pub id: Seq<char>,
    /// The name shown.
    pub name: Seq<char>,
    /// The size in pixels.
    pub size: OutputSize,
    /// What the pipeline captures.
    pub source: CaptureSource,
}

impl View for SourceInfo {
    type V = Entry;

    open spec fn view(&self) -> Entry {
        Entry { id: self.id@, name: self.name@, size: self.size, source: self.source }
    }
}

/// The entries of a list of sources.
pub open spec fn entries_view(sources: Seq<SourceInfo>) -> Seq<Entry> {
    sources.map_values(|s: SourceInfo| s@)
}

/// What the window manager says of a top-level window.
#[derive(Debug)]
pub struct WindowFacts {
    /// The window's handle.
    pub handle: u64,
    /// Whether it is shown at all.
    pub visible: bool,
    /// Whether it is minimised.
    pub minimized: bool,
    /// Why the compositor hides it, or 0 where it does not.
    pub cloaked: u32,
    /// The buffer its title was written to, as UTF-16.
    pub title: Vec<u16>,
    /// How many units of the buffer the title takes, negative on failure.
    pub title_length: i32,
    /// Its bounds without the invisible resize borders, where known.
    pub frame: Option<DesktopRect>,
    /// Its plain bounds, where known.
    pub rect: Option<DesktopRect>,
}

/// A number brought into the range of 32 bits.
pub open spec fn saturated(n: int) -> int {
    if n > i32::MAX {
        i32::MAX as int
    } else if n < i32::MIN {
        i32::MIN as int
    } else {
        n
    }
}

/// The bounds to go by.
pub open spec fn window_bounds(w: WindowFacts) -> Option<DesktopRect> {
    if w.frame is Some {
        w.frame
    } else {
        w.rect
    }
}

/// Whether a window can be shared: shown, with a title and an extent.
pub open spec fn shareable(w: WindowFacts) -> bool {
    &&& w.visible
    &&& !w.minimized
    &&& w.cloaked == 0
    &&& w.title_length > 0
    &&& window_bounds(w) matches Some(r) && r.left < r.right && r.top < r.bottom
}

/// The picker entry of a window that can be shared.
pub open spec fn window_entry(w: WindowFacts) -> Entry {
    let r = window_bounds(w)->0;
    Entry {
        id: "window:"@ + decimal_text(w.handle as nat),
        name: utf16_text(w.title@.subrange(0, w.title_length as int)),
        size: OutputSize {
            width: saturated(r.right - r.left) as u32,
            height: saturated(r.bottom - r.top) as u32,
        },
        source: CaptureSource::Window { hwnd: w.handle },
    }
}

fn extent(from: i32, to: i32) -> (r: i32)
    ensures
        r == saturated(to - from),
{
    let wide: i64 = to as i64 - from as i64;
    if wide > i32::MAX as i64 {
        i32::MAX
    } else if wide < i32::MIN as i64 {
        i32::MIN
    } else {
        wide as i32
    }
}

/// The picker entry of a window, or `None` where it cannot be shared.
pub fn collect_window(w: &WindowFacts) -> (r: Option<SourceInfo>)
    requires
        w.title_length <= w.title@.len(),
    ensures
        if shareable(*w) {
            r is Some && r->0@ == window_entry(*w)
        } else {
            r is None
        },
{
    if !w.visible || w.minimized || w.cloaked != 0 || w.title_length <= 0 {
        return None;
    }
    let bounds = match w.frame {
        Some(frame) => frame,
        None => match w.rect {
            Some(rect) => rect,
            None => {
                return None;
            },
        },
    };
    let width: i32 = extent(bounds.left, bounds.right);
    let height: i32 = extent(bounds.top, bounds.bottom);
    if width <= 0 || height <= 0 {
        return None;
    }
    let length: usize = w.title_length as usize;
    let mut title: Vec<u16> = Vec::new();
    let mut i: usize = 0;
    while i < length
        invariant
            i <= length,
            length <= w.title@.len(),
            title@ == w.title@.subrange(0, i as int),
        decreases length - i,
    {
        title.push(w.title[i]);
        i += 1;
    }
    let number = decimal(w.handle);
    Some(
        SourceInfo {
            id: concat2("window:", number.as_str()),
            name: utf16_lossy(&title),
            size: OutputSize { width: width as u32, height: height as u32 },
            source: CaptureSource::Window { hwnd: w.handle },
        },
    )
}

/// The picker entry of a display.
pub open spec fn display_entry(d: Display) -> Entry {
    Entry {
        id: "monitor:"@ + decimal_text(d.hmonitor as nat),
        name: d.device_name,
        size: d.size,
        source: source_of(d),
    }
}

/// The picker entries of the windows that can be shared, in order.
pub open spec fn window_entries(windows: Seq<WindowFacts>) -> Seq<Entry>
    decreases windows.len(),
{
    if windows.len() == 0 {
        Seq::empty()
    } else if shareable(windows.last()) {
        window_entries(windows.drop_last()).push(window_entry(windows.last()))
    } else {
        window_entries(windows.drop_last())
    }
}

/// The picker's list: every display, then every window that can be shared.
pub fn list_sources(displays: &Vec<DisplayInfo>, windows: &Vec<WindowFacts>) -> (r: Vec<
    SourceInfo,
>)
    requires
        forall|i: int|
            0 <= i < windows@.len() ==> (#[trigger] windows@[i]).title_length
                <= windows@[i].title@.len(),
    ensures
        entries_view(r@) == displays_view(displays@).map_values(|d: Display| display_entry(d))
            + window_entries(windows@),
{
    let mut sources: Vec<SourceInfo> = Vec::new();
    let mut i: usize = 0;
    let ghost shown = displays_view(displays@).map_values(|d: Display| display_entry(d));
    assert(entries_view(sources@) =~= shown.subrange(0, 0));
    while i < displays.len()
        invariant
            i <= displays.len(),
            shown == displays_view(displays@).map_values(|d: Display| display_entry(d)),
            entries_view(sources@) == shown.subrange(0, i as int),
        decreases displays.len() - i,
    {
        let ghost before = sources@;
        let d = &displays[i];
        let number = decimal(d.hmonitor);
        let info = SourceInfo {
            id: concat2("monitor:", number.as_str()),
            name: d.device_name.clone(),
            size: d.size,
            source: d.source(),
        };
        let ghost entry = info@;
        sources.push(info);
        assert(entry == shown[i as int]);
        assert(entries_view(sources@) =~= entries_view(before).push(entry));
        assert(shown.subrange(0, i + 1) =~= shown.subrange(0, i as int).push(entry));
        i += 1;
    }
    assert(shown.subrange(0, shown.len() as int) =~= shown);
    let mut j: usize = 0;
    assert(shown + window_entries(windows@.subrange(0, 0)) =~= shown);
    while j < windows.len()
        invariant
            j <= windows.len(),
            forall|i: int|
                0 <= i < windows@.len() ==> (#[trigger] windows@[i]).title_length
                    <= windows@[i].title@.len(),
            entries_view(sources@) == shown + window_entries(windows@.subrange(0, j as int)),
        decreases windows.len() - j,
    {
        let ghost before = sources@;
        let ghost upto = windows@.subrange(0, j + 1);
        assert(upto.drop_last() =~= windows@.subrange(0, j as int));
        assert(upto.last() == windows@[j as int]);
        if let Some(info) = collect_window(&windows[j]) {
            let ghost entry = info@;
            let ghost listed = window_entries(windows@.subrange(0, j as int));
            sources.push(info);
            assert(entries_view(sources@) =~= entries_view(before).push(entry));
            assert((shown + listed).push(entry) =~= shown + listed.push(entry));
        }
        j += 1;
    }
    assert(windows@.subrange(0, windows@.len() as int) =~= windows@);
    sources
}

/// A window can be picked exactly where there is something to see of it: it is
/// shown, not minimised, not hidden by the compositor, has a title, and its
/// bounds have an extent.
pub proof fn only_windows_that_can_be_seen_are_offered(w: WindowFacts)
    ensures
        !w.visible || w.minimized || w.cloaked != 0 || w.title_length <= 0 ==> !shareable(w),
        w.frame is None && w.rect is None ==> !shareable(w),
        w.visible && !w.minimized && w.cloaked == 0 && w.title_length > 0 ==> {
            &&& w.frame is Some ==> (shareable(w) <==> w.frame->0.left < w.frame->0.right
                && w.frame->0.top < w.frame->0.bottom)
            &&& w.frame is None && w.rect is Some ==> (shareable(w) <==> w.rect->0.left
                < w.rect->0.right && w.rect->0.top < w.rect->0.bottom)
        },
{
}

/// What is picked is what is captured: the entry of a window stands for that
/// window, with its title and its size without invisible borders, and the entry
/// of a display for that display.
pub proof fn an_entry_stands_for_what_it_shows(w: WindowFacts, d: Display)
    ensures
        window_entry(w).source == (CaptureSource::Window { hwnd: w.handle }),
        window_entry(w).id == "window:"@ + decimal_text(w.handle as nat),
        0 <= w.title_length <= w.title@.len() ==> window_entry(w).name == utf16_text(
            w.title@.take(w.title_length as int),
        ),
        w.frame is Some && 0 < w.frame->0.right - w.frame->0.left <= i32::MAX && 0
            < w.frame->0.bottom - w.frame->0.top <= i32::MAX ==> {
            &&& window_entry(w).size.width == w.frame->0.right - w.frame->0.left
            &&& window_entry(w).size.height == w.frame->0.bottom - w.frame->0.top
        },
        w.frame is None && w.rect is Some && 0 < w.rect->0.right - w.rect->0.left <= i32::MAX && 0
            < w.rect->0.bottom - w.rect->0.top <= i32::MAX ==> {
            &&& window_entry(w).size.width == w.rect->0.right - w.rect->0.left
            &&& window_entry(w).size.height == w.rect->0.bottom - w.rect->0.top
        },
        display_entry(d).source == (CaptureSource::Monitor {
            output_index: d.output_index,
            hmonitor: d.hmonitor,
        }),
        display_entry(d).id == "monitor:"@ + decimal_text(d.hmonitor as nat),
        display_entry(d).name == d.device_name,
        display_entry(d).size == d.size,
{
}

/// Windows are offered in the order in which they were found, and those that
/// cannot be seen are left out.
pub proof fn windows_are_offered_in_order(windows: Seq<WindowFacts>, next: WindowFacts)
    ensures
        window_entries(Seq::empty()).len() == 0,
        shareable(next) ==> window_entries(windows.push(next)) == window_entries(windows).push(
            window_entry(next),
        ),
        !shareable(next) ==> window_entries(windows.push(next)) == window_entries(windows),
{
    assert(windows.push(next).drop_last() =~= windows);
}

/// An entry says what it holds.
pub proof fn an_entry_says_what_it_holds(s: SourceInfo, sources: Seq<SourceInfo>, i: int)
    ensures
        s@.id == s.id@,
        s@.name == s.name@,
        s@.size == s.size,
        s@.source == s.source,
        entries_view(sources).len() == sources.len(),
        0 <= i < sources.len() ==> entries_view(sources)[i] == sources[i]@,
{
}

} // verus!
