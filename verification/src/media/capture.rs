//! What to capture, and the filter chain that turns it into encoder input.
//!
//! Both capture backends are filters that emit BGRA frames on a D3D11 device,
//! so a single chain shape serves both: the source filter differs, and
//! everything after it depends only on what the chosen encoder will accept.
//!
//! A chain is a list of [`FilterStep`]s: a filter name, its options, and which
//! hardware device it needs.

use vstd::prelude::*;

use crate::text::{
    decimal, decimal_text, decimal_text_reads_back, ends_with, has_suffix, number_of_text, parse_u64,
    same_text, NumberError,
};

use super::settings::{CaptureBackend, OutputSize};

verus! {

/// What the user picked to share.
#[derive(Debug, Clone, Copy, PartialEq, Eq, Structural)]
pub enum CaptureSource {
    /// A whole display.  Both backends can do this, addressed differently, so
    /// a monitor carries both addresses.
    Monitor {
        /// Index of the output on its adapter, which is what `ddagrab` takes.
        output_index: u32,
        /// The monitor handle of the same display, for `gfxcapture`.
        hmonitor: u64,
    },
    /// A single window, by handle.  `gfxcapture` only.
    Window {
        /// The window's handle.
        ///
        /// Always an explicit handle, never a title or executable pattern,
        /// which would match the first visible window of a process.
        hwnd: u64,
    },
}

/// A handle as a picker sends it: as text, so that every bit survives, or as a
/// number.
#[derive(Debug, Clone, PartialEq, Eq)]
pub enum Handle {
    /// Decimal digits.
    Text(String),
    /// The number itself.
    Number(u64),
}

/// The handle that a picker's value stands for.
pub open spec fn handle_value(handle: Handle) -> Result<nat, NumberError> {
    match handle {
        Handle::Text(value) => number_of_text(value@),
        Handle::Number(value) => Ok(value as nat),
    }
}

/// Read a handle that a picker sent.
pub fn read_handle(handle: &Handle) -> (r: Result<u64, NumberError>)
    ensures
        match handle_value(*handle) {
            Ok(n) => r is Ok && r->Ok_0 == n,
            Err(e) => r is Err && r->Err_0 == e,
        },
{
    match handle {
        Handle::Text(value) => parse_u64(value.as_str()),
        Handle::Number(value) => Ok(*value),
    }
}

/// A handle sent as decimal text keeps all of its bits.
pub proof fn handles_sent_as_text_keep_all_bits(text: String, handle: u64)
    requires
        text@ == decimal_text(handle as nat),
    ensures
        handle_value(Handle::Text(text)) == Ok::<nat, NumberError>(handle as nat),
{
    decimal_text_reads_back(handle);
}

/// Whether a source can be captured with a backend: desktop duplication
/// addresses whole outputs only.
pub open spec fn supported(source: CaptureSource, backend: CaptureBackend) -> bool {
    source is Window ==> backend == CaptureBackend::Gfxcapture
}

impl CaptureSource {
    /// Whether this source can be captured with `backend`.
    pub fn is_supported_by(self, backend: CaptureBackend) -> (r: bool)
        ensures
            r == supported(self, backend),
    {
        match self {
            CaptureSource::Monitor { .. } => true,
            CaptureSource::Window { .. } => backend == CaptureBackend::Gfxcapture,
        }
    }
}

/// The pixel format family an encoder takes frames in.
#[derive(Debug, Clone, Copy, PartialEq, Eq, Structural)]
pub enum EncoderInput {
    /// Takes the capture filter's D3D11 BGRA frames as they are, with no
    /// conversion filter at all.
    HardwareD3d11,
    /// Takes D3D12 hardware frames, which means a round trip through system
    /// memory.
    HardwareD3d12,
    /// Takes system-memory NV12.
    SysMemNv12,
    /// Takes system-memory planar 4:2:0.
    SysMemYuv420p,
}

/// What the named encoder wants, by its vendor suffix.
pub open spec fn input_of_encoder(id: Seq<char>) -> EncoderInput {
    if has_suffix(id, "_nvenc"@) || has_suffix(id, "_amf"@) {
        EncoderInput::HardwareD3d11
    } else if has_suffix(id, "_d3d12va"@) {
        EncoderInput::HardwareD3d12
    } else if id == "libopenh264"@ {
        EncoderInput::SysMemYuv420p
    } else {
        EncoderInput::SysMemNv12
    }
}

/// The pixel format that must be selected before an encoder, or none where the
/// frames stay BGRA.
pub open spec fn format_of_input(input: EncoderInput) -> Option<Seq<char>> {
    match input {
        EncoderInput::HardwareD3d11 => None,
        EncoderInput::HardwareD3d12 => Some("nv12"@),
        EncoderInput::SysMemNv12 => Some("nv12"@),
        EncoderInput::SysMemYuv420p => Some("yuv420p"@),
    }
}

/// The device that frames must end up on, where they must.
pub open spec fn device_of_input(input: EncoderInput) -> Option<DeviceSlot> {
    match input {
        EncoderInput::HardwareD3d11 => Some(DeviceSlot::D3d11),
        EncoderInput::HardwareD3d12 => Some(DeviceSlot::D3d12),
        EncoderInput::SysMemNv12 => None,
        EncoderInput::SysMemYuv420p => None,
    }
}

impl EncoderInput {
    /// What the named encoder wants, keyed on its vendor suffix, so that the
    /// variants of each vendor's encoder are covered by one rule.
    pub fn for_encoder(id: &str) -> (r: Self)
        ensures
            r == input_of_encoder(id@),
    {
        if ends_with(id, "_nvenc") || ends_with(id, "_amf") {
            return EncoderInput::HardwareD3d11;
        }
        if ends_with(id, "_d3d12va") {
            return EncoderInput::HardwareD3d12;
        }
        if same_text(id, "libopenh264") {
            return EncoderInput::SysMemYuv420p;
        }
        EncoderInput::SysMemNv12
    }

    /// The pixel format name a `format` filter should select before the
    /// encoder, or `None` when the frames stay BGRA.
    pub fn target_format(self) -> (r: Option<&'static str>)
        ensures
            r is Some <==> format_of_input(self) is Some,
            r matches Some(name) ==> Some(name@) == format_of_input(self),
    {
        match self {
            EncoderInput::HardwareD3d11 => None,
            EncoderInput::HardwareD3d12 => Some("nv12"),
            EncoderInput::SysMemNv12 => Some("nv12"),
            EncoderInput::SysMemYuv420p => Some("yuv420p"),
        }
    }

    /// Whether frames must end up on a hardware device, and which one.
    pub fn upload_target(self) -> (r: Option<DeviceSlot>)
        ensures
            r == device_of_input(self),
    {
        match self {
            EncoderInput::HardwareD3d11 => Some(DeviceSlot::D3d11),
            EncoderInput::HardwareD3d12 => Some(DeviceSlot::D3d12),
            EncoderInput::SysMemNv12 => None,
            EncoderInput::SysMemYuv420p => None,
        }
    }
}

/// Which hardware device a filter should be given before initialisation.
#[derive(Debug, Clone, Copy, PartialEq, Eq, Structural)]
pub enum DeviceSlot {
    /// The shared device: capture, scaling and the D3D11 encoders.
    D3d11,
    /// A separate device, only for uploading to a D3D12 encoder.
    D3d12,
}

/// One filter in a linear chain.
#[derive(Debug, Clone, PartialEq, Eq)]
pub struct FilterStep {
    /// Filter name, e.g. `ddagrab`.
    pub name: &'static str,
    /// Options, by name.
    ///
    /// Never formatted into one string: option values can contain characters
    /// that a filtergraph parser treats as syntax.
    pub options: Vec<(&'static str, String)>,
    /// Which device to attach, if any.
    pub device: Option<DeviceSlot>,
}

/// What a filter step says: name, options in order, device.
#[verifier::ext_equal]
pub struct Step {
    /// Filter name.
    pub name: Seq<char>,
    /// Options, by name.
    pub options: Seq<(Seq<char>, Seq<char>)>,
    /// Which device to attach, if any.
    pub device: Option<DeviceSlot>,
}

/// Option pairs as text.
pub open spec fn options_view(options: Seq<(&'static str, String)>) -> Seq<
    (Seq<char>, Seq<char>),
> {
    options.map_values(|o: (&'static str, String)| (o.0@, o.1@))
}

impl View for FilterStep {
    type V = Step;

    open spec fn view(&self) -> Step {
        Step { name: self.name@, options: options_view(self.options@), device: self.device }
    }
}

/// The steps of a chain as text.
pub open spec fn steps_view(steps: Seq<FilterStep>) -> Seq<Step> {
    steps.map_values(|s: FilterStep| s@)
}

impl FilterStep {
    /// A step with a D3D11 device attached.
    pub fn d3d11(name: &'static str, options: Vec<(&'static str, String)>) -> (r: Self)
        ensures
            r@ == (Step {
                name: name@,
                options: options_view(options@),
                device: Some(DeviceSlot::D3d11),
            }),
    {
        FilterStep { name, options, device: Some(DeviceSlot::D3d11) }
    }

    /// A step needing no device.
    pub fn plain(name: &'static str, options: Vec<(&'static str, String)>) -> (r: Self)
        ensures
            r@ == (Step { name: name@, options: options_view(options@), device: None }),
    {
        FilterStep { name, options, device: None }
    }
}

/// Everything needed to plan a chain.
#[derive(Debug, Clone, Copy, PartialEq, Eq, Structural)]
pub struct ChainRequest {
    /// What to capture.
    pub source: CaptureSource,
    /// Which capture filter to use.
    pub backend: CaptureBackend,
    /// The source's real size.
    pub source_size: OutputSize,
    /// The size the encoder will be configured for.
    pub target_size: OutputSize,
    /// Capture frame rate.  A ceiling for `gfxcapture`, a pace for `ddagrab`.
    pub fps: u32,
    /// What the chosen encoder accepts.
    pub input: EncoderInput,
    /// Whether to composite the mouse cursor into the frames.
    pub draw_cursor: bool,
}

/// The text of a flag option.
pub open spec fn flag_text(on: bool) -> Seq<char> {
    if on {
        "1"@
    } else {
        "0"@
    }
}

/// The capture filter and its options.
///
/// Only `gfxcapture` scales, to `canvas`; `ddagrab` takes output 0 for a
/// window, which it cannot capture.
pub open spec fn source_filter(
    source: CaptureSource,
    backend: CaptureBackend,
    fps: u32,
    draw_cursor: bool,
    canvas: Option<OutputSize>,
) -> Step {
    let rate = decimal_text(fps as nat);
    let cursor = flag_text(draw_cursor);
    match backend {
        CaptureBackend::Ddagrab => Step {
            name: "ddagrab"@,
            options: seq![
                (
                    "output_idx"@,
                    match source {
                        CaptureSource::Monitor { output_index, .. } => decimal_text(
                            output_index as nat,
                        ),
                        CaptureSource::Window { .. } => decimal_text(0),
                    },
                ),
                ("framerate"@, rate),
                ("draw_mouse"@, cursor),
                ("dup_frames"@, "1"@),
            ],
            device: Some(DeviceSlot::D3d11),
        },
        CaptureBackend::Gfxcapture => Step {
            name: "gfxcapture"@,
            options: seq![
                match source {
                    CaptureSource::Monitor { hmonitor, .. } => (
                        "hmonitor"@,
                        decimal_text(hmonitor as nat),
                    ),
                    CaptureSource::Window { hwnd } => ("hwnd"@, decimal_text(hwnd as nat)),
                },
                ("max_framerate"@, rate),
                ("capture_cursor"@, cursor),
                ("display_border"@, "0"@),
            ] + match canvas {
                None => Seq::<(Seq<char>, Seq<char>)>::empty(),
                Some(size) => seq![
                    ("width"@, decimal_text(size.width as nat)),
                    ("height"@, decimal_text(size.height as nat)),
                    ("resize_mode"@, "scale"@),
                    ("scale_mode"@, "bilinear"@),
                ],
            },
            device: Some(DeviceSlot::D3d11),
        },
    }
}

/// A `format` step.
pub open spec fn format_step(name: Seq<char>) -> Step {
    Step { name: "format"@, options: seq![("pix_fmts"@, name)], device: None }
}

/// A step that takes no options.
pub open spec fn bare_step(name: Seq<char>, device: Option<DeviceSlot>) -> Step {
    Step { name, options: Seq::empty(), device }
}

/// Whether the frames can go to the encoder as they are.
pub open spec fn needs_no_conversion(input: EncoderInput, scale_to: Option<OutputSize>) -> bool {
    scale_to is None && input == EncoderInput::HardwareD3d11
}

/// The steps between capture and the encoder.
///
/// None where the frames go straight on.  Otherwise the frames come down to
/// system memory, are scaled and converted there as far as needed, and go back
/// up only if the encoder needs them to.
pub open spec fn conversion(input: EncoderInput, scale_to: Option<OutputSize>) -> Seq<Step> {
    if needs_no_conversion(input, scale_to) {
        Seq::empty()
    } else {
        seq![bare_step("hwdownload"@, None), format_step("bgra"@)] + (match scale_to {
            None => Seq::<Step>::empty(),
            Some(size) => seq![
                Step {
                    name: "scale"@,
                    options: seq![
                        ("w"@, decimal_text(size.width as nat)),
                        ("h"@, decimal_text(size.height as nat)),
                    ],
                    device: None,
                },
            ],
        }) + (match format_of_input(input) {
            None => Seq::<Step>::empty(),
            Some(name) => seq![format_step(name)],
        }) + (match device_of_input(input) {
            None => Seq::<Step>::empty(),
            Some(device) => seq![bare_step("hwupload"@, Some(device))],
        })
    }
}

/// The size that the CPU has to scale to: only `ddagrab` cannot scale itself.
pub open spec fn cpu_scale(request: ChainRequest) -> Option<OutputSize> {
    if request.target_size != request.source_size && request.backend == CaptureBackend::Ddagrab {
        Some(request.target_size)
    } else {
        None
    }
}

/// The size that the capture filter scales to on the GPU.
pub open spec fn gpu_canvas(request: ChainRequest) -> Option<OutputSize> {
    if request.target_size != request.source_size && request.backend
        == CaptureBackend::Gfxcapture {
        Some(request.target_size)
    } else {
        None
    }
}

/// The full capture-to-encoder chain.
pub open spec fn chain(request: ChainRequest) -> Seq<Step> {
    seq![
        source_filter(
            request.source,
            request.backend,
            request.fps,
            request.draw_cursor,
            gpu_canvas(request),
        ),
    ] + conversion(request.input, cpu_scale(request))
}

/// The source filter alone, at the source's native size.
///
/// Used to find out how big a window actually is: configuring this one-filter
/// graph and reading the sink's dimensions answers that without pulling a
/// frame.
pub fn probe_plan(source: CaptureSource, backend: CaptureBackend, fps: u32) -> (r: Vec<
    FilterStep,
>)
    ensures
        steps_view(r@) == seq![source_filter(source, backend, fps, true, None)],
{
    let step = source_step(source, backend, fps, true, None);
    let r = vec![step];
    assert(steps_view(r@) =~= seq![source_filter(source, backend, fps, true, None)]);
    r
}

/// Plan the full capture-to-encoder chain.
///
/// Returns the steps in order, source first.  The shape depends on three
/// things: which backend, whether scaling is needed at all, and what the
/// encoder accepts.
pub fn plan(request: &ChainRequest) -> (r: Result<Vec<FilterStep>, String>)
    ensures
        match r {
            Ok(steps) => supported(request.source, request.backend) && steps_view(steps@)
                == chain(*request),
            Err(e) => !supported(request.source, request.backend) && e@
                == "capturing a single window needs the gfxcapture backend; ddagrab can only capture a whole display"@,
        },
{
    if !request.source.is_supported_by(request.backend) {
        return Err(
            "capturing a single window needs the gfxcapture backend; ddagrab can only capture a whole display".to_owned(),
        );
    }
    let scaling = request.target_size != request.source_size;
    let (canvas, scale_to): (Option<OutputSize>, Option<OutputSize>) = if !scaling {
        (None, None)
    } else {
        match request.backend {
            CaptureBackend::Gfxcapture => (Some(request.target_size), None),
            CaptureBackend::Ddagrab => (None, Some(request.target_size)),
        }
    };
    let first = source_step(
        request.source,
        request.backend,
        request.fps,
        request.draw_cursor,
        canvas,
    );
    let mut steps = vec![first];
    let mut rest = conversion_steps(request.input, scale_to);
    let ghost tail = rest@;
    steps.append(&mut rest);
    assert(steps_view(steps@) =~= seq![first@] + steps_view(tail));
    Ok(steps)
}

/// Build the capture filter and its options.
///
/// `canvas` asks `gfxcapture` to scale on the GPU; it is ignored for
/// `ddagrab`, which cannot.
pub fn source_step(
    source: CaptureSource,
    backend: CaptureBackend,
    fps: u32,
    draw_cursor: bool,
    canvas: Option<OutputSize>,
) -> (r: FilterStep)
    ensures
        r@ == source_filter(source, backend, fps, draw_cursor, canvas),
{
    let cursor = if draw_cursor { "1" } else { "0" };
    match backend {
        CaptureBackend::Ddagrab => {
            let output_index: u32 = match source {
                CaptureSource::Monitor { output_index, .. } => output_index,
                CaptureSource::Window { .. } => 0,
            };
            let options = vec![
                ("output_idx", decimal(output_index as u64)),
                ("framerate", decimal(fps as u64)),
                ("draw_mouse", cursor.to_owned()),
                // Repeat the last frame while the desktop is idle, which gives
                // this backend a real frame pace of its own.
                ("dup_frames", "1".to_owned()),
            ];
            let r = FilterStep::d3d11("ddagrab", options);
            assert(r@.options =~= source_filter(
                source,
                backend,
                fps,
                draw_cursor,
                canvas,
            ).options);
            r
        },
        CaptureBackend::Gfxcapture => {
            let target = match source {
                CaptureSource::Monitor { hmonitor, .. } => ("hmonitor", decimal(hmonitor)),
                CaptureSource::Window { hwnd } => ("hwnd", decimal(hwnd)),
            };
            let mut options = vec![
                target,
                ("max_framerate", decimal(fps as u64)),
                ("capture_cursor", cursor.to_owned()),
                // Explicitly off, so that no default can put a highlight
                // border into everyone's stream.
                ("display_border", "0".to_owned()),
            ];
            if let Some(size) = canvas {
                options.push(("width", decimal(size.width as u64)));
                options.push(("height", decimal(size.height as u64)));
                // The target already has the source's aspect ratio, so there
                // is nothing to pad.
                options.push(("resize_mode", "scale".to_owned()));
                options.push(("scale_mode", "bilinear".to_owned()));
            }
            let r = FilterStep::d3d11("gfxcapture", options);
            assert(r@.options =~= source_filter(
                source,
                backend,
                fps,
                draw_cursor,
                canvas,
            ).options);
            r
        },
    }
}

fn pixel_format(name: &str) -> (r: FilterStep)
    ensures
        r@ == format_step(name@),
{
    let options = vec![("pix_fmts", name.to_owned())];
    let r = FilterStep::plain("format", options);
    assert(r@.options =~= seq![("pix_fmts"@, name@)]);
    r
}

fn bare(name: &'static str, device: Option<DeviceSlot>) -> (r: FilterStep)
    ensures
        r@ == bare_step(name@, device),
{
    let r = FilterStep { name, options: Vec::new(), device };
    assert(r@.options =~= Seq::empty());
    r
}

/// The steps between capture and the encoder.
pub fn conversion_steps(input: EncoderInput, scale_to: Option<OutputSize>) -> (r: Vec<
    FilterStep,
>)
    ensures
        steps_view(r@) == conversion(input, scale_to),
{
    if scale_to.is_none() && input == EncoderInput::HardwareD3d11 {
        let r: Vec<FilterStep> = Vec::new();
        assert(steps_view(r@) =~= Seq::empty());
        return r;
    }
    // The download emits the frames' software format; naming it explicitly
    // keeps the next filter's input unambiguous.
    let mut steps = vec![bare("hwdownload", None), pixel_format("bgra")];
    let ghost head = seq![bare_step("hwdownload"@, None), format_step("bgra"@)];
    assert(steps_view(steps@) =~= head);
    if let Some(size) = scale_to {
        let options = vec![
            ("w", decimal(size.width as u64)),
            ("h", decimal(size.height as u64)),
        ];
        let step = FilterStep::plain("scale", options);
        assert(step@.options =~= seq![
            ("w"@, decimal_text(size.width as nat)),
            ("h"@, decimal_text(size.height as nat)),
        ]);
        steps.push(step);
    }
    if let Some(format) = input.target_format() {
        steps.push(pixel_format(format));
    }
    if let Some(device) = input.upload_target() {
        steps.push(bare("hwupload", Some(device)));
    }
    assert(steps_view(steps@) =~= conversion(input, scale_to));
    steps
}

/// Every chain begins with the capture filter of its backend, on the shared
/// device, so that frames are never on a device the encoder does not know.
pub proof fn chains_begin_with_the_capture_filter(request: ChainRequest)
    ensures
        chain(request).len() >= 1,
        chain(request)[0].device == Some(DeviceSlot::D3d11),
        chain(request)[0].name == match request.backend {
            CaptureBackend::Ddagrab => "ddagrab"@,
            CaptureBackend::Gfxcapture => "gfxcapture"@,
        },
{
}

/// The hardware path has no conversion at all: a D3D11 encoder takes the
/// captured frames unchanged whenever the CPU does not have to scale them.
pub proof fn the_hardware_path_has_no_conversion(request: ChainRequest)
    requires
        request.input == EncoderInput::HardwareD3d11,
        request.target_size == request.source_size || request.backend
            == CaptureBackend::Gfxcapture,
    ensures
        chain(request).len() == 1,
{
}

/// An encoder that takes system memory never gets an upload step, and one that
/// takes a device after a conversion ends with the upload to its own device.
pub proof fn uploads_go_to_the_encoders_own_device(request: ChainRequest)
    ensures
        device_of_input(request.input) is None ==> forall|i: int|
            0 <= i < chain(request).len() ==> (#[trigger] chain(request)[i]).name != "hwupload"@,
        device_of_input(request.input) is Some && chain(request).len() > 1
            ==> chain(request).last() == bare_step("hwupload"@, device_of_input(request.input)),
{
    reveal_strlit("hwupload");
    reveal_strlit("hwdownload");
    reveal_strlit("format");
    reveal_strlit("scale");
    reveal_strlit("ddagrab");
    reveal_strlit("gfxcapture");
    let c = chain(request);
    if device_of_input(request.input) is None {
        assert forall|i: int| 0 <= i < c.len() implies (#[trigger] c[i]).name != "hwupload"@ by {
            let n = c[i].name;
            assert("hwupload"@.len() == 8);
            assert("hwdownload"@.len() == 10 && "format"@.len() == 6 && "scale"@.len() == 5
                && "ddagrab"@.len() == 7 && "gfxcapture"@.len() == 10);
        }
    }
}

/// Only `ddagrab` ever needs the CPU to scale: with `gfxcapture` no chain
/// holds a `scale` step, and the capture filter itself is told the size.
pub proof fn gfxcapture_scales_inside_the_capture_filter(request: ChainRequest)
    requires
        request.backend == CaptureBackend::Gfxcapture,
    ensures
        forall|i: int|
            0 <= i < chain(request).len() ==> (#[trigger] chain(request)[i]).name != "scale"@,
        request.target_size != request.source_size ==> {
            &&& chain(request)[0].options.contains(
                ("width"@, decimal_text(request.target_size.width as nat)),
            )
            &&& chain(request)[0].options.contains(
                ("height"@, decimal_text(request.target_size.height as nat)),
            )
        },
{
    reveal_strlit("hwupload");
    reveal_strlit("hwdownload");
    reveal_strlit("format");
    reveal_strlit("scale");
    reveal_strlit("gfxcapture");
    let c = chain(request);
    assert forall|i: int| 0 <= i < c.len() implies (#[trigger] c[i]).name != "scale"@ by {
        assert("scale"@.len() == 5);
        assert("hwupload"@.len() == 8 && "hwdownload"@.len() == 10 && "format"@.len() == 6
            && "gfxcapture"@.len() == 10);
    }
    if request.target_size != request.source_size {
        assert(c[0].options[4].0 == "width"@);
        assert(c[0].options[5].0 == "height"@);
    }
}

/// What is captured is what was picked: the chain begins with the filter that
/// names the picked monitor by its output or its handle, or the picked window
/// by its handle, at the frame rate and with the cursor that were asked for.
pub proof fn what_was_picked_is_captured(request: ChainRequest)
    ensures
        ({
            let options = chain(request)[0].options;
            let rate = decimal_text(request.fps as nat);
            let cursor = if request.draw_cursor {
                "1"@
            } else {
                "0"@
            };
            &&& request.backend == CaptureBackend::Ddagrab && request.source is Monitor
                ==> options == seq![
                ("output_idx"@, decimal_text(request.source->output_index as nat)),
                ("framerate"@, rate),
                ("draw_mouse"@, cursor),
                ("dup_frames"@, "1"@),
            ]
            &&& request.backend == CaptureBackend::Gfxcapture ==> {
                &&& options.len() >= 4
                &&& request.source is Monitor ==> options[0] == (
                    "hmonitor"@,
                    decimal_text(request.source->hmonitor as nat),
                )
                &&& request.source is Window ==> options[0] == (
                    "hwnd"@,
                    decimal_text(request.source->hwnd as nat),
                )
                &&& options[1] == ("max_framerate"@, rate)
                &&& options[2] == ("capture_cursor"@, cursor)
                &&& options[3] == ("display_border"@, "0"@)
                &&& request.target_size == request.source_size ==> options.len() == 4
                &&& request.target_size != request.source_size ==> options.subrange(4, 8)
                    == seq![
                    ("width"@, decimal_text(request.target_size.width as nat)),
                    ("height"@, decimal_text(request.target_size.height as nat)),
                    ("resize_mode"@, "scale"@),
                    ("scale_mode"@, "bilinear"@),
                ] && options.len() == 8
            }
        }),
{
    let options = chain(request)[0].options;
    if request.backend == CaptureBackend::Gfxcapture && request.target_size
        != request.source_size {
        assert(options.subrange(4, 8) =~= seq![options[4], options[5], options[6], options[7]]);
    }
}

proof fn lemma_decimal_tells_apart(a: u64, b: u64)
    requires
        a != b,
    ensures
        decimal_text(a as nat) != decimal_text(b as nat),
{
    decimal_text_reads_back(a);
    decimal_text_reads_back(b);
}

/// Two monitors are never captured by the same step, nor are two windows, nor a
/// monitor and a window.
pub proof fn different_sources_are_captured_differently(
    a: CaptureSource,
    b: CaptureSource,
    fps: u32,
    draw_cursor: bool,
    canvas: Option<OutputSize>,
)
    ensures
        a is Monitor && b is Monitor && a->output_index != b->output_index ==> source_filter(
            a,
            CaptureBackend::Ddagrab,
            fps,
            draw_cursor,
            canvas,
        ) != source_filter(b, CaptureBackend::Ddagrab, fps, draw_cursor, canvas),
        a is Monitor && b is Monitor && a->hmonitor != b->hmonitor ==> source_filter(
            a,
            CaptureBackend::Gfxcapture,
            fps,
            draw_cursor,
            canvas,
        ) != source_filter(b, CaptureBackend::Gfxcapture, fps, draw_cursor, canvas),
        a is Window && b is Window && a->hwnd != b->hwnd ==> source_filter(
            a,
            CaptureBackend::Gfxcapture,
            fps,
            draw_cursor,
            canvas,
        ) != source_filter(b, CaptureBackend::Gfxcapture, fps, draw_cursor, canvas),
        a is Monitor && b is Window ==> source_filter(
            a,
            CaptureBackend::Gfxcapture,
            fps,
            draw_cursor,
            canvas,
        ) != source_filter(b, CaptureBackend::Gfxcapture, fps, draw_cursor, canvas),
{
    reveal_strlit("hmonitor");
    reveal_strlit("hwnd");
    assert("hmonitor"@.len() == 8 && "hwnd"@.len() == 4);
    if a is Monitor && b is Monitor {
        let x = source_filter(a, CaptureBackend::Ddagrab, fps, draw_cursor, canvas).options;
        let y = source_filter(b, CaptureBackend::Ddagrab, fps, draw_cursor, canvas).options;
        if a->output_index != b->output_index {
            lemma_decimal_tells_apart(a->output_index as u64, b->output_index as u64);
            assert(x[0].1 != y[0].1);
        }
    }
    let p = source_filter(a, CaptureBackend::Gfxcapture, fps, draw_cursor, canvas).options;
    let q = source_filter(b, CaptureBackend::Gfxcapture, fps, draw_cursor, canvas).options;
    if a is Monitor && b is Monitor && a->hmonitor != b->hmonitor {
        lemma_decimal_tells_apart(a->hmonitor, b->hmonitor);
        assert(p[0].1 != q[0].1);
    }
    if a is Window && b is Window && a->hwnd != b->hwnd {
        lemma_decimal_tells_apart(a->hwnd, b->hwnd);
        assert(p[0].1 != q[0].1);
    }
    if a is Monitor && b is Window {
        assert(p[0].0 != q[0].0);
    }
}

/// Whole monitors can be captured either way, a single window only with
/// `gfxcapture`.
pub proof fn windows_need_gfxcapture(source: CaptureSource)
    ensures
        supported(source, CaptureBackend::Gfxcapture),
        supported(source, CaptureBackend::Ddagrab) <==> source is Monitor,
{
}

/// Between capture and encoder the frames come down to system memory, are
/// scaled there to just the target size where `ddagrab` could not do it, are
/// brought into the encoder's format, and go up again to the encoder's device.
pub proof fn frames_arrive_as_the_encoder_takes_them(request: ChainRequest)
    ensures
        ({
            let c = chain(request);
            let scaled = request.backend == CaptureBackend::Ddagrab && request.target_size
                != request.source_size;
            let direct = request.input == EncoderInput::HardwareD3d11 && !scaled;
            let k: int = if scaled {
                4
            } else {
                3
            };
            let bgra = Step { name: "format"@, options: seq![("pix_fmts"@, "bgra"@)], device: None };
            let nv12 = Step { name: "format"@, options: seq![("pix_fmts"@, "nv12"@)], device: None };
            let planar = Step {
                name: "format"@,
                options: seq![("pix_fmts"@, "yuv420p"@)],
                device: None,
            };
            &&& direct ==> c.len() == 1
            &&& !direct ==> {
                &&& c.len() > 2
                &&& c[1] == (Step { name: "hwdownload"@, options: Seq::empty(), device: None })
                &&& c[2] == bgra
                &&& scaled ==> c[3] == (Step {
                    name: "scale"@,
                    options: seq![
                        ("w"@, decimal_text(request.target_size.width as nat)),
                        ("h"@, decimal_text(request.target_size.height as nat)),
                    ],
                    device: None,
                })
                &&& match request.input {
                    EncoderInput::HardwareD3d11 => c.len() == k + 1 && c[k] == (Step {
                        name: "hwupload"@,
                        options: Seq::empty(),
                        device: Some(DeviceSlot::D3d11),
                    }),
                    EncoderInput::HardwareD3d12 => c.len() == k + 2 && c[k] == nv12 && c[k + 1]
                        == (Step {
                        name: "hwupload"@,
                        options: Seq::empty(),
                        device: Some(DeviceSlot::D3d12),
                    }),
                    EncoderInput::SysMemNv12 => c.len() == k + 1 && c[k] == nv12,
                    EncoderInput::SysMemYuv420p => c.len() == k + 1 && c[k] == planar,
                }
            }
        }),
{
}

/// Each vendor's encoders take frames in that vendor's way, whatever the codec.
pub proof fn a_vendors_encoders_take_frames_alike(codec: Seq<char>)
    ensures
        input_of_encoder(codec + "_nvenc"@) == EncoderInput::HardwareD3d11,
        input_of_encoder(codec + "_amf"@) == EncoderInput::HardwareD3d11,
        input_of_encoder(codec + "_d3d12va"@) == EncoderInput::HardwareD3d12,
        input_of_encoder(codec + "_qsv"@) == EncoderInput::SysMemNv12,
        input_of_encoder(codec + "_mf"@) == EncoderInput::SysMemNv12,
        input_of_encoder("libopenh264"@) == EncoderInput::SysMemYuv420p,
{
    reveal_strlit("_nvenc");
    reveal_strlit("_amf");
    reveal_strlit("_d3d12va");
    reveal_strlit("_qsv");
    reveal_strlit("_mf");
    reveal_strlit("libopenh264");
    let n = codec.len() as int;
    let nvenc = codec + "_nvenc"@;
    let amf = codec + "_amf"@;
    let d3d = codec + "_d3d12va"@;
    let qsv = codec + "_qsv"@;
    let mf = codec + "_mf"@;
    assert(nvenc.subrange(n, n + 6) =~= "_nvenc"@);
    assert(amf.subrange(n, n + 4) =~= "_amf"@);
    assert(d3d.subrange(n, n + 8) =~= "_d3d12va"@);
    assert(d3d.last() == 'a' && qsv.last() == 'v' && mf.last() == 'f');
    assert("_nvenc"@.last() == 'c' && "_amf"@.last() == 'f' && "_d3d12va"@.last() == 'a'
        && "libopenh264"@.last() == '4');
    if has_suffix(d3d, "_nvenc"@) {
        assert(d3d.subrange(n + 2, n + 8).last() == d3d.last());
    }
    if has_suffix(d3d, "_amf"@) {
        assert(d3d.subrange(n + 4, n + 8).last() == d3d.last());
    }
    if has_suffix(qsv, "_nvenc"@) {
        assert(qsv.subrange(n - 2, n + 4).last() == qsv.last());
    }
    if has_suffix(qsv, "_amf"@) {
        assert(qsv.subrange(n, n + 4).last() == qsv.last());
    }
    if has_suffix(qsv, "_d3d12va"@) {
        assert(qsv.subrange(n - 4, n + 4).last() == qsv.last());
    }
    if has_suffix(mf, "_nvenc"@) {
        assert(mf.subrange(n - 3, n + 3).last() == mf.last());
    }
    if has_suffix(mf, "_amf"@) {
        assert(mf.subrange(n - 1, n + 3)[1] == mf[n]);
        assert(mf[n] == '_' && "_amf"@[1] == 'a');
    }
    if has_suffix(mf, "_d3d12va"@) {
        assert(mf.subrange(n - 5, n + 3).last() == mf.last());
    }
    let open = "libopenh264"@;
    if has_suffix(open, "_nvenc"@) {
        assert(open.subrange(5, 11).last() == open.last());
    }
    if has_suffix(open, "_amf"@) {
        assert(open.subrange(7, 11).last() == open.last());
    }
    if has_suffix(open, "_d3d12va"@) {
        assert(open.subrange(3, 11).last() == open.last());
    }
}

/// A handle that was sent as a number is that number.
pub proof fn handles_sent_as_numbers_are_taken_as_they_are(handle: u64)
    ensures
        handle_value(Handle::Number(handle)) == Ok::<nat, NumberError>(handle as nat),
{
}

/// A step says what it holds: its filter, its options in order, its device.
pub proof fn a_step_says_what_it_holds(step: FilterStep, steps: Seq<FilterStep>, i: int)
    ensures
        step@.name == step.name@,
        step@.device == step.device,
        step@.options.len() == step.options@.len(),
        0 <= i < step.options@.len() ==> step@.options[i] == (
            (step.options@[i]).0@,
            (step.options@[i]).1@,
        ),
        steps_view(steps).len() == steps.len(),
        0 <= i < steps.len() ==> steps_view(steps)[i] == steps[i]@,
{
}

} // verus!
