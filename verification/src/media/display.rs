//! The displays the capture backends can address.
//!
//! Both backends need a different name for the same monitor: `ddagrab` takes
//! an output index, `gfxcapture` a monitor handle.  Enumerating the adapters'
//! outputs gives both at once, plus the exact pixel size.
//!
//! The index is per adapter, in the order in which the adapter enumerates its
//! outputs, because that is what `ddagrab` passes it to.  The adapter's index
//! comes along so that the pipeline can create its device on the adapter that
//! actually drives the chosen display.

use vstd::prelude::*;

use crate::collections::{first_from, first_where, first_where_is_first};
use crate::text::{concat2, decimal, decimal_text, trim, trimmed, utf16_field, utf16_prefix};

use super::capture::CaptureSource;
use super::settings::OutputSize;

verus! {

/// A rectangle in desktop coordinates.
#[derive(Debug, Clone, Copy, PartialEq, Eq, Structural)]
pub struct DesktopRect {
    /// Left edge.
    pub left: i32,
    /// Top edge.
    pub top: i32,
    /// Right edge, exclusive.
    pub right: i32,
    /// Bottom edge, exclusive.
    pub bottom: i32,
}

impl DesktopRect {
    /// The extents of the rectangle are 32-bit numbers, as its edges are.
    pub open spec fn representable(self) -> bool {
        &&& i32::MIN <= self.right - self.left <= i32::MAX
        &&& i32::MIN <= self.bottom - self.top <= i32::MAX
    }
}

/// What an adapter says of one of its outputs.
#[derive(Debug)]
pub struct OutputFacts {
    /// Where the output lies on the desktop.
    pub rect: DesktopRect,
    /// The monitor's handle.
    pub monitor: u64,
    /// The device name, as a zero-padded UTF-16 field.
    pub device_name: Vec<u16>,
}

/// What is known of one adapter and its outputs.
///
/// An output that cannot be described is `None`, and keeps its index.
#[derive(Debug)]
pub struct AdapterOutputs {
    /// The adapter's description, or `None` where it cannot be had.
    pub description: Option<Vec<u16>>,
    /// Its outputs, in the adapter's order.
    pub outputs: Vec<Option<OutputFacts>>,
}

/// One display, addressable by either capture backend.
#[derive(Debug, PartialEq, Eq)]
pub struct DisplayInfo {
    /// Index of the adapter that drives this display.
    pub adapter_index: u32,
    /// Index of the output on that adapter.
    pub output_index: u32,
    /// The display's monitor handle.
    pub hmonitor: u64,
    /// Device name, e.g. `\\.\DISPLAY1`.
    pub device_name: String,
    /// Name of the adapter driving it.
    pub adapter_name: String,
    /// The display's size in pixels, from its desktop coordinates.
    pub size: OutputSize,
    /// Whether the desktop origin lies on this display.
    pub is_primary: bool,
}

impl Clone for DisplayInfo {
    fn clone(&self) -> (r: Self)
        ensures
            r == *self,
    {
        DisplayInfo {
            adapter_index: self.adapter_index,
            output_index: self.output_index,
            hmonitor: self.hmonitor,
            device_name: self.device_name.clone(),
            adapter_name: self.adapter_name.clone(),
            size: self.size,
            is_primary: self.is_primary,
        }
    }
}

/// What a display's entry says.
#[verifier::ext_equal]
pub struct Display {
    /// Index of the adapter.
    pub adapter_index: u32,
    /// Index of the output on that adapter.
    pub output_index: u32,
    /// The monitor handle.
    pub hmonitor: u64,
    /// Device name.
    pub device_name: Seq<char>,
    /// Name of the adapter.
    pub adapter_name: Seq<char>,
    /// Size in pixels.
    pub size: OutputSize,
    /// Whether the desktop origin lies on it.
    pub is_primary: bool,
}

impl View for DisplayInfo {
    type V = Display;

    open spec fn view(&self) -> Display {
        Display {
            adapter_index: self.adapter_index,
            output_index: self.output_index,
            hmonitor: self.hmonitor,
            device_name: self.device_name@,
            adapter_name: self.adapter_name@,
            size: self.size,
            is_primary: self.is_primary,
        }
    }
}

/// The entries of a list of displays.
pub open spec fn displays_view(displays: Seq<DisplayInfo>) -> Seq<Display> {
    displays.map_values(|d: DisplayInfo| d@)
}

/// The capture source that names a display.
pub open spec fn source_of(d: Display) -> CaptureSource {
    CaptureSource::Monitor { output_index: d.output_index, hmonitor: d.hmonitor }
}

impl DisplayInfo {
    /// The capture source that names this display.
    pub fn source(&self) -> (r: CaptureSource)
        ensures
            r == source_of(self@),
    {
        CaptureSource::Monitor { output_index: self.output_index, hmonitor: self.hmonitor }
    }
}

/// Whether the desktop's origin lies inside a rectangle.
pub open spec fn holds_origin(rect: DesktopRect) -> bool {
    rect.left <= 0 < rect.right && rect.top <= 0 < rect.bottom
}

/// The display that an output is, or none where it has no extent.
pub open spec fn described(
    output: OutputFacts,
    adapter_index: u32,
    output_index: u32,
    adapter_name: Seq<char>,
) -> Option<Display> {
    let rect = output.rect;
    if rect.right <= rect.left || rect.bottom <= rect.top {
        None
    } else {
        Some(
            Display {
                adapter_index,
                output_index,
                hmonitor: output.monitor,
                device_name: utf16_field(output.device_name@),
                adapter_name: trimmed(adapter_name),
                size: OutputSize {
                    width: (rect.right - rect.left) as u32,
                    height: (rect.bottom - rect.top) as u32,
                },
                is_primary: holds_origin(rect),
            },
        )
    }
}

/// Describe one output, or `None` where it has no extent.
pub fn describe_output(
    output: &OutputFacts,
    adapter_index: u32,
    output_index: u32,
    adapter_name: &str,
) -> (r: Option<DisplayInfo>)
    requires
        output.rect.representable(),
    ensures
        match described(*output, adapter_index, output_index, adapter_name@) {
            Some(d) => r is Some && r->0@ == d,
            None => r is None,
        },
{
    let rect = output.rect;
    let width: i32 = rect.right - rect.left;
    let height: i32 = rect.bottom - rect.top;
    if width <= 0 || height <= 0 {
        return None;
    }
    Some(
        DisplayInfo {
            adapter_index,
            output_index,
            hmonitor: output.monitor,
            device_name: utf16_prefix(&output.device_name),
            adapter_name: trim(adapter_name),
            size: OutputSize { width: width as u32, height: height as u32 },
            is_primary: rect.left <= 0 && 0 < rect.right && rect.top <= 0 && 0 < rect.bottom,
        },
    )
}

/// The name of an adapter, empty where it cannot be described.
pub open spec fn adapter_name(adapter: AdapterOutputs) -> Seq<char> {
    match adapter.description {
        Some(units) => utf16_field(units@),
        None => Seq::empty(),
    }
}

/// The displays among the first `n` outputs of an adapter; none where the
/// adapter cannot be described.
pub open spec fn output_displays(adapter: AdapterOutputs, adapter_index: int, n: int) -> Seq<
    Display,
>
    decreases n,
{
    if n <= 0 || adapter.description is None {
        Seq::empty()
    } else {
        let before = output_displays(adapter, adapter_index, n - 1);
        match adapter.outputs@[n - 1] {
            None => before,
            Some(output) => match described(
                output,
                adapter_index as u32,
                (n - 1) as u32,
                adapter_name(adapter),
            ) {
                Some(d) => before.push(d),
                None => before,
            },
        }
    }
}

/// The displays of the first `n` adapters, adapter by adapter.
pub open spec fn adapter_displays(adapters: Seq<AdapterOutputs>, n: int) -> Seq<Display>
    decreases n,
{
    if n <= 0 {
        Seq::empty()
    } else {
        adapter_displays(adapters, n - 1) + output_displays(
            adapters[n - 1],
            n - 1,
            adapters[n - 1].outputs@.len() as int,
        )
    }
}

/// Indices fit their type, and the outputs' rectangles are representable.
pub open spec fn adapter_listing(adapters: Seq<AdapterOutputs>) -> bool {
    &&& adapters.len() <= u32::MAX
    &&& forall|i: int|
        0 <= i < adapters.len() ==> (#[trigger] adapters[i]).outputs@.len() <= u32::MAX
    &&& forall|i: int, j: int|
        0 <= i < adapters.len() && 0 <= j < adapters[i].outputs@.len() && adapters[i].outputs@[j]
            is Some ==> (#[trigger] adapters[i].outputs@[j])->0.rect.representable()
}

fn collect_outputs(adapter: &AdapterOutputs, adapter_index: u32, out: &mut Vec<DisplayInfo>)
    requires
        adapter.outputs@.len() <= u32::MAX,
        forall|j: int|
            0 <= j < adapter.outputs@.len() && adapter.outputs@[j] is Some ==> (
            #[trigger] adapter.outputs@[j])->0.rect.representable(),
    ensures
        displays_view(final(out)@) == displays_view(old(out)@) + output_displays(
            *adapter,
            adapter_index as int,
            adapter.outputs@.len() as int,
        ),
{
    let name = match &adapter.description {
        Some(units) => utf16_prefix(units),
        None => {
            assert(displays_view(out@) + Seq::<Display>::empty() =~= displays_view(out@));
            return;
        },
    };
    let ghost start = displays_view(out@);
    let mut i: usize = 0;
    assert(start + Seq::<Display>::empty() =~= start);
    while i < adapter.outputs.len()
        invariant
            i <= adapter.outputs.len(),
            adapter.outputs@.len() <= u32::MAX,
            adapter.description is Some,
            name@ == adapter_name(*adapter),
            forall|j: int|
                0 <= j < adapter.outputs@.len() && adapter.outputs@[j] is Some ==> (
                #[trigger] adapter.outputs@[j])->0.rect.representable(),
            displays_view(out@) == start + output_displays(
                *adapter,
                adapter_index as int,
                i as int,
            ),
        decreases adapter.outputs.len() - i,
    {
        let ghost before = out@;
        let ghost collected = output_displays(*adapter, adapter_index as int, i as int);
        if let Some(output) = &adapter.outputs[i] {
            if let Some(info) = describe_output(output, adapter_index, i as u32, name.as_str()) {
                let ghost d = info@;
                out.push(info);
                assert(displays_view(out@) =~= displays_view(before).push(d));
                assert((start + collected).push(d) =~= start + collected.push(d));
            }
        }
        i += 1;
    }
}

/// Every attached display, adapter by adapter.
///
/// An adapter that cannot be described is skipped rather than failing the whole
/// enumeration: one broken virtual adapter should not stop a user from sharing
/// their real screen.
pub fn enumerate(adapters: &Vec<AdapterOutputs>) -> (r: Result<Vec<DisplayInfo>, String>)
    requires
        adapter_listing(adapters@),
    ensures
        match r {
            Ok(displays) => displays@.len() > 0 && displays_view(displays@) == adapter_displays(
                adapters@,
                adapters@.len() as int,
            ),
            Err(e) => adapter_displays(adapters@, adapters@.len() as int).len() == 0 && e@
                == "no DXGI output found"@,
        },
{
    let mut displays: Vec<DisplayInfo> = Vec::new();
    let mut i: usize = 0;
    assert(displays_view(displays@) =~= Seq::empty());
    while i < adapters.len()
        invariant
            i <= adapters.len(),
            adapter_listing(adapters@),
            displays_view(displays@) == adapter_displays(adapters@, i as int),
        decreases adapters.len() - i,
    {
        collect_outputs(&adapters[i], i as u32, &mut displays);
        i += 1;
    }
    assert(displays_view(displays@).len() == displays@.len());
    if displays.len() == 0 {
        return Err("no DXGI output found".to_owned());
    }
    Ok(displays)
}

/// The position of the display that a monitor names.
///
/// By its handle where it carries one that is known, because that is stable
/// across enumerations; by the output index otherwise.
pub open spec fn named_display(displays: Seq<Display>, output_index: u32, hmonitor: u64) -> Option<
    int,
> {
    let by_handle = first_where(displays, |d: Display| d.hmonitor == hmonitor);
    if hmonitor != 0 && by_handle is Some {
        by_handle
    } else {
        first_where(displays, |d: Display| d.output_index == output_index)
    }
}

/// Look up one display by the source that names it.
pub fn find(source: CaptureSource, displays: &Vec<DisplayInfo>) -> (r: Result<
    DisplayInfo,
    String,
>)
    ensures
        match source {
            CaptureSource::Window { .. } => r is Err && r->Err_0@ == "not a monitor source"@,
            CaptureSource::Monitor { output_index, hmonitor } => match named_display(
                displays_view(displays@),
                output_index,
                hmonitor,
            ) {
                Some(i) => r is Ok && r->Ok_0 == displays@[i],
                None => r is Err && r->Err_0@ == "no display with output index "@ + decimal_text(
                    output_index as nat,
                ),
            },
        },
{
    match source {
        CaptureSource::Window { .. } => Err("not a monitor source".to_owned()),
        CaptureSource::Monitor { output_index, hmonitor } => {
            let ghost all = displays_view(displays@);
            let ghost by_handle = |d: Display| d.hmonitor == hmonitor;
            let ghost by_index = |d: Display| d.output_index == output_index;
            if hmonitor != 0 {
                let mut i: usize = 0;
                while i < displays.len()
                    invariant
                        i <= displays.len(),
                        hmonitor != 0,
                        all == displays_view(displays@),
                        by_handle == (|d: Display| d.hmonitor == hmonitor),
                        first_where(all, by_handle) == first_from(all, by_handle, i as int),
                        source == (CaptureSource::Monitor { output_index, hmonitor }),
                    decreases displays.len() - i,
                {
                    assert(all[i as int] == displays@[i as int]@);
                    if displays[i].hmonitor == hmonitor {
                        return Ok(displays[i].clone());
                    }
                    i += 1;
                }
                assert(first_where(all, by_handle) is None);
            }
            let mut j: usize = 0;
            while j < displays.len()
                invariant
                    j <= displays.len(),
                    all == displays_view(displays@),
                    by_handle == (|d: Display| d.hmonitor == hmonitor),
                    hmonitor == 0 || first_where(all, by_handle) is None,
                    by_index == (|d: Display| d.output_index == output_index),
                    first_where(all, by_index) == first_from(all, by_index, j as int),
                    source == (CaptureSource::Monitor { output_index, hmonitor }),
                decreases displays.len() - j,
            {
                assert(all[j as int] == displays@[j as int]@);
                if displays[j].output_index == output_index {
                    return Ok(displays[j].clone());
                }
                j += 1;
            }
            let number = decimal(output_index as u64);
            Err(concat2("no display with output index ", number.as_str()))
        },
    }
}

/// A source that names an enumerated display resolves to that display, as long
/// as monitor handles are what they are: not zero, and different for different
/// displays.
pub proof fn a_displays_source_finds_it(displays: Seq<Display>, i: int)
    requires
        0 <= i < displays.len(),
        displays[i].hmonitor != 0,
        forall|j: int|
            0 <= j < displays.len() && (#[trigger] displays[j]).hmonitor == displays[i].hmonitor
                ==> j == i,
    ensures
        named_display(displays, displays[i].output_index, displays[i].hmonitor) == Some(i),
{
    let p = |d: Display| d.hmonitor == displays[i].hmonitor;
    first_where_is_first(displays, p);
    assert(p(displays[i]));
}

/// A display is described by where it lies: its size is the extent of its
/// rectangle, it is primary where that holds the desktop's origin, and it keeps
/// the numbers under which its adapter and its output are known.
pub proof fn a_display_is_described_by_where_it_lies(
    output: OutputFacts,
    adapter_index: u32,
    output_index: u32,
    adapter_name: Seq<char>,
)
    requires
        output.rect.representable(),
    ensures
        ({
            let d = described(output, adapter_index, output_index, adapter_name);
            let r = output.rect;
            &&& d is Some <==> r.left < r.right && r.top < r.bottom
            &&& d is Some ==> {
                &&& d->0.size.width == r.right - r.left
                &&& d->0.size.height == r.bottom - r.top
                &&& d->0.adapter_index == adapter_index
                &&& d->0.output_index == output_index
                &&& d->0.hmonitor == output.monitor
                &&& d->0.is_primary <==> r.left <= 0 && 0 < r.right && r.top <= 0 && 0 < r.bottom
                &&& source_of(d->0) == (CaptureSource::Monitor {
                    output_index,
                    hmonitor: output.monitor,
                })
            }
        }),
{
}

proof fn lemma_outputs_are_listed(adapter: AdapterOutputs, adapter_index: int, n: int, k: int)
    requires
        0 <= k < n <= adapter.outputs@.len(),
        adapter.description is Some,
        adapter.outputs@[k] is Some,
        described(
            adapter.outputs@[k]->0,
            adapter_index as u32,
            k as u32,
            adapter_name(adapter),
        ) is Some,
    ensures
        output_displays(adapter, adapter_index, n).contains(
            described(
                adapter.outputs@[k]->0,
                adapter_index as u32,
                k as u32,
                adapter_name(adapter),
            )->0,
        ),
    decreases n,
{
    let all = output_displays(adapter, adapter_index, n);
    let before = output_displays(adapter, adapter_index, n - 1);
    let d = described(
        adapter.outputs@[k]->0,
        adapter_index as u32,
        k as u32,
        adapter_name(adapter),
    )->0;
    if k == n - 1 {
        assert(all.last() == d);
    } else {
        lemma_outputs_are_listed(adapter, adapter_index, n - 1, k);
        let i = before.index_of(d);
        assert(all[i] == d);
    }
}

proof fn lemma_adapters_are_listed(adapters: Seq<AdapterOutputs>, n: int, a: int, d: Display)
    requires
        0 <= a < n <= adapters.len(),
        output_displays(adapters[a], a, adapters[a].outputs@.len() as int).contains(d),
    ensures
        adapter_displays(adapters, n).contains(d),
    decreases n,
{
    let all = adapter_displays(adapters, n);
    let before = adapter_displays(adapters, n - 1);
    let own = output_displays(adapters[n - 1], n - 1, adapters[n - 1].outputs@.len() as int);
    if a == n - 1 {
        let i = own.index_of(d);
        assert(all[before.len() + i] == d);
    } else {
        lemma_adapters_are_listed(adapters, n - 1, a, d);
        let i = before.index_of(d);
        assert(all[i] == d);
    }
}

/// Every output with an extent, on every adapter that can be described, is
/// listed, under the numbers of that adapter and that output.
pub proof fn every_display_is_listed(adapters: Seq<AdapterOutputs>, a: int, k: int)
    requires
        adapter_listing(adapters),
        0 <= a < adapters.len(),
        adapters[a].description is Some,
        0 <= k < adapters[a].outputs@.len(),
        adapters[a].outputs@[k] is Some,
        adapters[a].outputs@[k]->0.rect.left < adapters[a].outputs@[k]->0.rect.right,
        adapters[a].outputs@[k]->0.rect.top < adapters[a].outputs@[k]->0.rect.bottom,
    ensures
        adapter_displays(adapters, adapters.len() as int).contains(
            described(
                adapters[a].outputs@[k]->0,
                a as u32,
                k as u32,
                adapter_name(adapters[a]),
            )->0,
        ),
{
    let d = described(
        adapters[a].outputs@[k]->0,
        a as u32,
        k as u32,
        adapter_name(adapters[a]),
    )->0;
    lemma_outputs_are_listed(adapters[a], a, adapters[a].outputs@.len() as int, k);
    lemma_adapters_are_listed(adapters, adapters.len() as int, a, d);
}

/// Displays are listed adapter by adapter, and those of an adapter that cannot
/// be described are not listed at all.
pub proof fn displays_are_listed_adapter_by_adapter(
    adapters: Seq<AdapterOutputs>,
    next: AdapterOutputs,
)
    ensures
        adapter_displays(Seq::empty(), 0).len() == 0,
        adapter_displays(adapters.push(next), adapters.len() as int + 1) == adapter_displays(
            adapters.push(next),
            adapters.len() as int,
        ) + output_displays(next, adapters.len() as int, next.outputs@.len() as int),
        next.description is None ==> output_displays(
            next,
            adapters.len() as int,
            next.outputs@.len() as int,
        ).len() == 0,
{
    assert(adapters.push(next)[adapters.len() as int] == next);
}

/// A monitor whose handle is not known is found by its output, the first of
/// that number; and not at all where there is none.
pub proof fn a_monitor_is_found_by_its_output_otherwise(
    displays: Seq<Display>,
    output_index: u32,
    hmonitor: u64,
    k: int,
)
    requires
        hmonitor == 0 || forall|j: int|
            0 <= j < displays.len() ==> (#[trigger] displays[j]).hmonitor != hmonitor,
    ensures
        0 <= k < displays.len() && displays[k].output_index == output_index && (forall|j: int|
            0 <= j < k ==> (#[trigger] displays[j]).output_index != output_index)
            ==> named_display(displays, output_index, hmonitor) == Some(k),
        (forall|j: int|
            0 <= j < displays.len() ==> (#[trigger] displays[j]).output_index != output_index)
            ==> named_display(displays, output_index, hmonitor) is None,
{
    let by_handle = |d: Display| d.hmonitor == hmonitor;
    let by_index = |d: Display| d.output_index == output_index;
    first_where_is_first(displays, by_handle);
    first_where_is_first(displays, by_index);
    let handle = first_where(displays, by_handle);
    let index = first_where(displays, by_index);
    if handle is Some {
        assert(by_handle(displays[handle->0]));
    }
    if index is Some {
        assert(by_index(displays[index->0]));
        if 0 <= k < index->0 {
            assert(!by_index(displays[k]));
        }
    } else if 0 <= k < displays.len() {
        assert(!by_index(displays[k]));
    }
}

/// A display says what it holds.
pub proof fn a_display_says_what_it_holds(d: DisplayInfo, displays: Seq<DisplayInfo>, i: int)
    ensures
        d@.adapter_index == d.adapter_index,
        d@.output_index == d.output_index,
        d@.hmonitor == d.hmonitor,
        d@.device_name == d.device_name@,
        d@.adapter_name == d.adapter_name@,
        d@.size == d.size,
        d@.is_primary == d.is_primary,
        displays_view(displays).len() == displays.len(),
        0 <= i < displays.len() ==> displays_view(displays)[i] == displays[i]@,
{
}

} // verus!
