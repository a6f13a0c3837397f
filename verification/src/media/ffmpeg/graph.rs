//! Filter-graph decisions: how a graph is made, names, devices, sizes and error
//! texts.

use vstd::prelude::*;

use crate::media::capture::{steps_view, DeviceSlot, FilterStep, Step};
use crate::media::encoder::text_view;
use crate::media::mailbox::Pulled;
use crate::media::settings::OutputSize;
use crate::text::{
    concat2, concat3, contains_nul, decimal, decimal_text, decimal_text_is_digits,
    decimal_text_reads_back, join, joined, signed_decimal, signed_text, texts,
};

verus! {

/// What a configured graph will hand out.
#[derive(Debug, Clone, Copy, PartialEq, Eq, Structural)]
pub struct SinkFormat {
    /// Frame width the sink produces.
    pub width: i32,
    /// Frame height the sink produces.
    pub height: i32,
    /// Pixel format, as the library numbers them.
    pub pix_fmt: i32,
}

/// A number, or zero where it is negative.
pub open spec fn unsigned_or_zero(n: i32) -> u32 {
    if n < 0 {
        0
    } else {
        n as u32
    }
}

impl SinkFormat {
    /// The size, for comparing against what the settings asked for.
    pub fn size(self) -> (r: OutputSize)
        ensures
            r == (OutputSize {
                width: unsigned_or_zero(self.width),
                height: unsigned_or_zero(self.height),
            }),
            r == sink_size(self),
    {
        OutputSize {
            width: if self.width < 0 { 0 } else { self.width as u32 },
            height: if self.height < 0 { 0 } else { self.height as u32 },
        }
    }
}

/// How a pull from the sink returned.
#[derive(Debug, PartialEq, Eq)]
pub enum PullCode {
    /// A frame is there.
    Success,
    /// The stream is over.
    EndOfFile,
    /// The output's format has changed.
    OutputChanged,
    /// Nothing yet.
    TryAgain,
    /// Anything else, with the library's words for it.
    Failed(String),
}

/// This is what a pull gave.
pub open spec fn pull_gave(code: PullCode, r: Result<Pulled, String>) -> bool {
    match code {
        PullCode::Success => r is Ok && r->Ok_0 is Frame,
        PullCode::EndOfFile | PullCode::OutputChanged => r is Ok && r->Ok_0 is Ended,
        PullCode::TryAgain => r is Ok && r->Ok_0 is Idle,
        PullCode::Failed(text) => r is Err && r->Err_0@ == "capture failed ("@ + text@ + ")"@,
    }
}

/// The size in which frames come, as the settings count it.
pub open spec fn sink_size(format: SinkFormat) -> OutputSize {
    OutputSize {
        width: unsigned_or_zero(format.width),
        height: unsigned_or_zero(format.height),
    }
}

/// The argument with which a device is made.
pub open spec fn made_with(slot: DeviceSlot, adapter_index: u32) -> Option<Seq<char>> {
    match slot {
        DeviceSlot::D3d11 => Some(decimal_text(adapter_index as nat)),
        DeviceSlot::D3d12 => None,
    }
}

/// What a pull gave.  A source that ends and one whose format changes are both
/// gone.
pub fn classify_pull(code: PullCode) -> (r: Result<Pulled, String>)
    ensures
        match code {
            PullCode::Success => r == Ok::<Pulled, String>(Pulled::Frame),
            PullCode::EndOfFile => r == Ok::<Pulled, String>(Pulled::Ended),
            PullCode::OutputChanged => r == Ok::<Pulled, String>(Pulled::Ended),
            PullCode::TryAgain => r == Ok::<Pulled, String>(Pulled::Idle),
            PullCode::Failed(text) => r is Err && r->Err_0@ == "capture failed ("@ + text@ + ")"@,
        },
        pull_gave(code, r),
{
    match code {
        PullCode::Success => Ok(Pulled::Frame),
        PullCode::EndOfFile => Ok(Pulled::Ended),
        PullCode::OutputChanged => Ok(Pulled::Ended),
        PullCode::TryAgain => Ok(Pulled::Idle),
        PullCode::Failed(text) => Err(concat3("capture failed (", text.as_str(), ")")),
    }
}

/// An error code as text: the library's words, or the number where it has
/// none.
pub fn error_text(code: i32, words: &str) -> (r: String)
    ensures
        r@ == if words@.len() == 0 {
            "error "@ + signed_text(code as int)
        } else {
            words@
        },
{
    if words.is_empty() {
        let number = signed_decimal(code as i64);
        concat2("error ", number.as_str())
    } else {
        words.to_owned()
    }
}

/// The reason why something failed, followed by what was logged meanwhile.
pub open spec fn reason_with_log(reason: Seq<char>, logged: Seq<Seq<char>>) -> Seq<char> {
    if logged.len() == 0 {
        reason
    } else {
        reason + ": "@ + joined(logged, "; "@)
    }
}

/// The reason why a graph could not be built, followed by what was logged.
pub fn build_error(reason: &str, logged: &Vec<String>) -> (r: String)
    ensures
        r@ == reason_with_log(reason@, texts(logged@)),
{
    assert(texts(logged@).len() == logged@.len());
    if logged.len() == 0 {
        reason.to_owned()
    } else {
        let lines = join(logged, "; ");
        concat3(reason, ": ", lines.as_str())
    }
}

/// The name of a filter instance, unique within its graph although a chain can
/// use the same filter twice.
pub open spec fn instance_text(index: nat, name: Seq<char>) -> Seq<char> {
    "f"@ + decimal_text(index) + "_"@ + name
}

/// The name of the filter instance at a position of the chain.
pub fn instance_name(index: usize, name: &str) -> (r: String)
    ensures
        r@ == instance_text(index as nat, name@),
{
    let number = decimal(index as u64);
    let head = concat3("f", number.as_str(), "_");
    concat2(head.as_str(), name)
}

/// The device that a filter is given before it initialises.
pub fn device_for(slot: Option<DeviceSlot>, has_d3d12: bool) -> (r: Result<
    Option<DeviceSlot>,
    String,
>)
    ensures
        if slot == Some(DeviceSlot::D3d12) && !has_d3d12 {
            r is Err && r->Err_0@ == "no D3D12 device for this chain"@
        } else {
            r == Ok::<Option<DeviceSlot>, String>(slot)
        },
{
    match slot {
        Some(DeviceSlot::D3d12) => {
            if has_d3d12 {
                Ok(slot)
            } else {
                Err("no D3D12 device for this chain".to_owned())
            }
        },
        _ => Ok(slot),
    }
}

/// Two positions of a chain never give the same instance name, whatever the
/// filters there are called.
pub proof fn instance_names_are_unique(i: u64, a: Seq<char>, j: u64, b: Seq<char>)
    requires
        i != j,
    ensures
        instance_text(i as nat, a) != instance_text(j as nat, b),
{
    let x = instance_text(i as nat, a);
    let y = instance_text(j as nat, b);
    let p = decimal_text(i as nat);
    let q = decimal_text(j as nat);
    reveal_strlit("f");
    reveal_strlit("_");
    decimal_text_is_digits(i as nat);
    decimal_text_is_digits(j as nat);
    decimal_text_reads_back(i);
    decimal_text_reads_back(j);
    assert(x[p.len() as int + 1] == '_');
    assert(y[q.len() as int + 1] == '_');
    if x == y {
        if p.len() < q.len() {
            assert(y[p.len() as int + 1] == q[p.len() as int]);
        } else if q.len() < p.len() {
            assert(x[q.len() as int + 1] == p[q.len() as int]);
        } else {
            assert forall|k: int| 0 <= k < p.len() implies p[k] == q[k] by {
                assert(x[1 + k] == p[k]);
                assert(y[1 + k] == q[k]);
            }
            assert(p =~= q);
        }
    }
}

/// Check that a filter took all of its options.
///
/// An option that is left over means that the filter silently ignored
/// something it was asked for, so it is an error.
pub fn check_leftover(filter: &str, leftover: &Vec<String>) -> (r: Result<(), String>)
    ensures
        if leftover@.len() == 0 {
            r is Ok
        } else {
            r is Err && r->Err_0@ == filter@ + " rejected option(s): "@ + joined(
                texts(leftover@),
                ", "@,
            )
        },
{
    if leftover.len() == 0 {
        Ok(())
    } else {
        let keys = join(leftover, ", ");
        Err(concat3(filter, " rejected option(s): ", keys.as_str()))
    }
}

/// The argument with which a device is created: the capture device on the
/// adapter that drives the display, the other one on the default adapter.
pub fn device_argument(slot: DeviceSlot, adapter_index: u32) -> (r: Option<String>)
    ensures
        text_view(r) == match slot {
            DeviceSlot::D3d11 => Some(decimal_text(adapter_index as nat)),
            DeviceSlot::D3d12 => None,
        },
        text_view(r) == made_with(slot, adapter_index),
{
    match slot {
        DeviceSlot::D3d11 => Some(decimal(adapter_index as u64)),
        DeviceSlot::D3d12 => None,
    }
}

/// Why a device could not be created: the library's words, or that it gave
/// nothing.  `kind` is the library's name for the kind of device.
pub fn device_error(kind: &str, words: &Option<String>) -> (r: String)
    ensures
        r@ == match *words {
            Some(words) => "could not create "@ + kind@ + " device ("@ + words@ + ")"@,
            None => kind@ + " device is null"@,
        },
{
    match words {
        Some(words) => {
            let head = concat3("could not create ", kind, " device (");
            concat3(head.as_str(), words.as_str(), ")")
        },
        None => concat2(kind, " device is null"),
    }
}

/// One step in the making of a graph.
#[derive(Debug, PartialEq, Eq)]
pub enum GraphOp {
    /// Make an empty graph.
    Graph,
    /// Make a filter in it, under this name.
    Create {
        /// The filter.
        name: &'static str,
        /// The name of the instance.
        instance: String,
    },
    /// Give the filter a device.
    Attach {
        /// The device.
        device: DeviceSlot,
    },
    /// Set an option of the filter.
    SetOption {
        /// The option.
        key: &'static str,
        /// Its value.
        value: String,
    },
    /// Initialise the filter with its options.
    Start {
        /// The filter.
        name: &'static str,
    },
    /// Link the filter behind the one before it.
    Link {
        /// The filter.
        name: &'static str,
    },
    /// Make the sink.
    CreateSink,
    /// Initialise the sink.
    StartSink,
    /// Link the sink behind the last filter.
    LinkSink,
    /// Configure the graph.
    Configure,
    /// Give up, for this reason.
    Refuse {
        /// The reason.
        reason: String,
    },
}

/// One step in the making of a graph, as text.
#[verifier::ext_equal]
pub enum GraphAct {
    /// Make an empty graph.
    Graph,
    /// Make a filter in it, under this name.
    Create {
        /// The filter.
        name: Seq<char>,
        /// The name of the instance.
        instance: Seq<char>,
    },
    /// Give the filter a device.
    Attach {
        /// The device.
        device: DeviceSlot,
    },
    /// Set an option of the filter.
    SetOption {
        /// The option.
        key: Seq<char>,
        /// Its value.
        value: Seq<char>,
    },
    /// Initialise the filter with its options.
    Start {
        /// The filter.
        name: Seq<char>,
    },
    /// Link the filter behind the one before it.
    Link {
        /// The filter.
        name: Seq<char>,
    },
    /// Make the sink.
    CreateSink,
    /// Initialise the sink.
    StartSink,
    /// Link the sink behind the last filter.
    LinkSink,
    /// Configure the graph.
    Configure,
    /// Give up, for this reason.
    Refuse {
        /// The reason.
        reason: Seq<char>,
    },
}

impl View for GraphOp {
    type V = GraphAct;

    open spec fn view(&self) -> GraphAct {
        match *self {
            GraphOp::Graph => GraphAct::Graph,
            GraphOp::Create { name, instance } => GraphAct::Create {
                name: name@,
                instance: instance@,
            },
            GraphOp::Attach { device } => GraphAct::Attach { device },
            GraphOp::SetOption { key, value } => GraphAct::SetOption { key: key@, value: value@ },
            GraphOp::Start { name } => GraphAct::Start { name: name@ },
            GraphOp::Link { name } => GraphAct::Link { name: name@ },
            GraphOp::CreateSink => GraphAct::CreateSink,
            GraphOp::StartSink => GraphAct::StartSink,
            GraphOp::LinkSink => GraphAct::LinkSink,
            GraphOp::Configure => GraphAct::Configure,
            GraphOp::Refuse { reason } => GraphAct::Refuse { reason: reason@ },
        }
    }
}

/// Steps as text.
pub open spec fn acts_of(ops: Seq<GraphOp>) -> Seq<GraphAct> {
    ops.map_values(|op: GraphOp| op@)
}

/// The device that a filter is given, where it is given one.
pub open spec fn device_acts(device: Option<DeviceSlot>, has_d3d12: bool) -> Seq<GraphAct> {
    match device {
        None => Seq::empty(),
        Some(device) => if device == DeviceSlot::D3d12 && !has_d3d12 {
            seq![GraphAct::Refuse { reason: "no D3D12 device for this chain"@ }]
        } else {
            seq![GraphAct::Attach { device }]
        },
    }
}

/// The first `n` options of a filter.  One that contains a NUL cannot be set
/// and is left out.
pub open spec fn option_acts(options: Seq<(Seq<char>, Seq<char>)>, n: int) -> Seq<GraphAct>
    decreases n,
{
    if n <= 0 {
        Seq::empty()
    } else {
        let before = option_acts(options, n - 1);
        let (key, value) = options[n - 1];
        if key.contains('\0') || value.contains('\0') {
            before
        } else {
            before.push(GraphAct::SetOption { key, value })
        }
    }
}

/// How the filter at a position of the chain is made: it has its device and its
/// options before it is initialised, and is then linked behind the one before
/// it.
pub open spec fn filter_acts(step: Step, index: nat, has_d3d12: bool) -> Seq<GraphAct> {
    if step.name.contains('\0') {
        seq![GraphAct::Refuse { reason: "filter name contains NUL"@ }]
    } else {
        let made = seq![
            GraphAct::Create { name: step.name, instance: instance_text(index, step.name) },
        ] + device_acts(step.device, has_d3d12) + option_acts(
            step.options,
            step.options.len() as int,
        ) + seq![GraphAct::Start { name: step.name }];
        if index == 0 {
            made
        } else {
            made.push(GraphAct::Link { name: step.name })
        }
    }
}

/// How the first `n` filters of a chain are made.
pub open spec fn chain_acts(steps: Seq<Step>, n: int, has_d3d12: bool) -> Seq<GraphAct>
    decreases n,
{
    if n <= 0 {
        Seq::empty()
    } else {
        chain_acts(steps, n - 1, has_d3d12) + filter_acts(
            steps[n - 1],
            (n - 1) as nat,
            has_d3d12,
        )
    }
}

/// How a graph is made: its filters in order, then its sink.
pub open spec fn graph_acts(steps: Seq<Step>, has_d3d12: bool) -> Seq<GraphAct> {
    if steps.len() == 0 {
        seq![GraphAct::Refuse { reason: "empty filter chain"@ }]
    } else {
        seq![GraphAct::Graph] + chain_acts(steps, steps.len() as int, has_d3d12) + seq![
            GraphAct::CreateSink,
            GraphAct::StartSink,
            GraphAct::LinkSink,
            GraphAct::Configure,
        ]
    }
}

/// A filter that wants a device has it before it is initialised, and before its
/// options are set.
pub proof fn a_device_comes_before_its_filter_starts(
    step: Step,
    index: nat,
    has_d3d12: bool,
    device: DeviceSlot,
)
    requires
        !step.name.contains('\0'),
        step.device == Some(device),
        device == DeviceSlot::D3d12 ==> has_d3d12,
    ensures
        filter_acts(step, index, has_d3d12)[0] is Create,
        filter_acts(step, index, has_d3d12)[1] == (GraphAct::Attach { device }),
        forall|i: int|
            0 <= i < filter_acts(step, index, has_d3d12).len() && (#[trigger] filter_acts(
                step,
                index,
                has_d3d12,
            )[i] is Start) ==> i > 1,
{
}

fn push_op(ops: &mut Vec<GraphOp>, op: GraphOp)
    ensures
        acts_of(final(ops)@) == acts_of(old(ops)@).push(op@),
{
    let ghost before = ops@;
    ops.push(op);
    assert(acts_of(ops@) =~= acts_of(before).push(op@));
}

fn push_options(ops: &mut Vec<GraphOp>, step: &FilterStep)
    ensures
        acts_of(final(ops)@) == acts_of(old(ops)@) + option_acts(
            step@.options,
            step@.options.len() as int,
        ),
{
    let ghost start = acts_of(ops@);
    let mut i: usize = 0;
    assert(start + Seq::<GraphAct>::empty() =~= start);
    while i < step.options.len()
        invariant
            i <= step.options.len(),
            step@.options.len() == step.options@.len(),
            acts_of(ops@) == start + option_acts(step@.options, i as int),
        decreases step.options.len() - i,
    {
        let key = step.options[i].0;
        let value = step.options[i].1.clone();
        let ghost before = option_acts(step@.options, i as int);
        assert(step@.options[i as int] == (key@, value@));
        if !contains_nul(key) && !contains_nul(value.as_str()) {
            let ghost act = GraphAct::SetOption { key: key@, value: value@ };
            push_op(ops, GraphOp::SetOption { key, value });
            assert((start + before).push(act) =~= start + before.push(act));
        }
        i += 1;
    }
}

fn push_filter(ops: &mut Vec<GraphOp>, step: &FilterStep, index: usize, has_d3d12: bool)
    ensures
        acts_of(final(ops)@) == acts_of(old(ops)@) + filter_acts(step@, index as nat, has_d3d12),
{
    let ghost start = acts_of(ops@);
    if contains_nul(step.name) {
        push_op(ops, GraphOp::Refuse { reason: "filter name contains NUL".to_owned() });
        assert(acts_of(ops@) =~= start + filter_acts(step@, index as nat, has_d3d12));
        return;
    }
    let instance = instance_name(index, step.name);
    push_op(ops, GraphOp::Create { name: step.name, instance });
    match device_for(step.device, has_d3d12) {
        Ok(None) => {},
        Ok(Some(device)) => push_op(ops, GraphOp::Attach { device }),
        Err(reason) => push_op(ops, GraphOp::Refuse { reason }),
    }
    assert(acts_of(ops@) =~= start + seq![
        GraphAct::Create { name: step.name@, instance: instance_text(index as nat, step.name@) },
    ] + device_acts(step.device, has_d3d12));
    push_options(ops, step);
    push_op(ops, GraphOp::Start { name: step.name });
    if index > 0 {
        push_op(ops, GraphOp::Link { name: step.name });
    }
    assert(acts_of(ops@) =~= start + filter_acts(step@, index as nat, has_d3d12));
}

/// Plan how a graph is made.
pub fn plan_graph(steps: &Vec<FilterStep>, has_d3d12: bool) -> (r: Vec<GraphOp>)
    ensures
        acts_of(r@) == graph_acts(steps_view(steps@), has_d3d12),
{
    let mut ops: Vec<GraphOp> = Vec::new();
    let ghost all = steps_view(steps@);
    if steps.len() == 0 {
        push_op(&mut ops, GraphOp::Refuse { reason: "empty filter chain".to_owned() });
        assert(acts_of(ops@) =~= graph_acts(all, has_d3d12));
        return ops;
    }
    push_op(&mut ops, GraphOp::Graph);
    assert(acts_of(ops@) =~= seq![GraphAct::Graph] + chain_acts(all, 0, has_d3d12));
    let mut i: usize = 0;
    while i < steps.len()
        invariant
            i <= steps.len(),
            all == steps_view(steps@),
            acts_of(ops@) == seq![GraphAct::Graph] + chain_acts(all, i as int, has_d3d12),
        decreases steps.len() - i,
    {
        assert(all[i as int] == steps@[i as int]@);
        push_filter(&mut ops, &steps[i], i, has_d3d12);
        i += 1;
        assert(acts_of(ops@) =~= seq![GraphAct::Graph] + chain_acts(all, i as int, has_d3d12));
    }
    push_op(&mut ops, GraphOp::CreateSink);
    push_op(&mut ops, GraphOp::StartSink);
    push_op(&mut ops, GraphOp::LinkSink);
    push_op(&mut ops, GraphOp::Configure);
    assert(acts_of(ops@) =~= graph_acts(all, has_d3d12));
    ops
}

/// How the library took a step.
#[derive(Debug, PartialEq, Eq)]
pub enum OpAnswer {
    /// It did it.
    Done,
    /// It has no such filter.
    Missing,
    /// There is no memory for it.
    Memory,
    /// It refused, in these words.
    Refused(String),
    /// It did it, but these options were not taken.
    Leftover(Vec<String>),
}

/// The library's words, where it has any.
pub open spec fn words_of(answer: OpAnswer) -> Seq<char> {
    match answer {
        OpAnswer::Refused(words) => words@,
        _ => Seq::empty(),
    }
}

/// Why a graph could not be made, where the answer to this step says so.
pub open spec fn act_error(act: GraphAct, answer: OpAnswer) -> Option<Seq<char>> {
    match act {
        GraphAct::Refuse { reason } => Some(reason),
        _ if answer is Done => None,
        GraphAct::Graph => Some("could not allocate filter graph"@),
        GraphAct::Create { name, instance } => if answer is Missing {
            Some("filter "@ + name + " is not in this FFmpeg build"@)
        } else {
            Some("could not allocate filter "@ + name)
        },
        GraphAct::Attach { device } => Some("could not reference hardware device"@),
        GraphAct::SetOption { key, value } => Some(
            "could not set "@ + key + "="@ + value + " ("@ + words_of(answer) + ")"@,
        ),
        GraphAct::Start { name } => match answer {
            OpAnswer::Leftover(keys) => if keys@.len() == 0 {
                None
            } else {
                Some(name + " rejected option(s): "@ + joined(texts(keys@), ", "@))
            },
            _ => Some("could not initialise "@ + name + " ("@ + words_of(answer) + ")"@),
        },
        GraphAct::Link { name } => Some(
            "could not link into "@ + name + " ("@ + words_of(answer) + ")"@,
        ),
        GraphAct::CreateSink => if answer is Missing {
            Some("buffersink is not in this FFmpeg build"@)
        } else {
            Some("could not allocate buffersink"@)
        },
        GraphAct::StartSink => Some(
            "could not initialise buffersink ("@ + words_of(answer) + ")"@,
        ),
        GraphAct::LinkSink => Some("could not link into buffersink ("@ + words_of(answer) + ")"@),
        GraphAct::Configure => Some(
            "could not configure filter graph ("@ + words_of(answer) + ")"@,
        ),
    }
}

fn words(answer: &OpAnswer) -> (r: String)
    ensures
        r@ == words_of(*answer),
{
    match answer {
        OpAnswer::Refused(words) => words.clone(),
        _ => String::new(),
    }
}

fn with_words(what: &str, name: &str, answer: &OpAnswer) -> (r: String)
    ensures
        r@ == what@ + name@ + " ("@ + words_of(*answer) + ")"@,
{
    let head = concat3(what, name, " (");
    concat3(head.as_str(), words(answer).as_str(), ")")
}

fn bracketed(what: &str, answer: &OpAnswer) -> (r: String)
    ensures
        r@ == what@ + words_of(*answer) + ")"@,
{
    concat3(what, words(answer).as_str(), ")")
}

/// Whether a graph can still be made, after the answer to a step.
pub fn op_outcome(op: &GraphOp, answer: &OpAnswer) -> (r: Result<(), String>)
    ensures
        match act_error(op@, *answer) {
            None => r is Ok,
            Some(e) => r is Err && r->Err_0@ == e,
        },
{
    if let GraphOp::Refuse { reason } = op {
        return Err(reason.clone());
    }
    if let OpAnswer::Done = answer {
        return Ok(());
    }
    let missing = match answer {
        OpAnswer::Missing => true,
        _ => false,
    };
    match op {
        GraphOp::Graph => Err("could not allocate filter graph".to_owned()),
        GraphOp::Create { name, .. } => if missing {
            Err(concat3("filter ", *name, " is not in this FFmpeg build"))
        } else {
            Err(concat2("could not allocate filter ", *name))
        },
        GraphOp::Attach { .. } => Err("could not reference hardware device".to_owned()),
        GraphOp::SetOption { key, value } => {
            let pair = concat3("could not set ", *key, "=");
            Err(with_words(pair.as_str(), value.as_str(), answer))
        },
        GraphOp::Start { name } => match answer {
            OpAnswer::Leftover(keys) => check_leftover(*name, keys),
            _ => Err(with_words("could not initialise ", *name, answer)),
        },
        GraphOp::Link { name } => Err(with_words("could not link into ", *name, answer)),
        GraphOp::CreateSink => if missing {
            Err("buffersink is not in this FFmpeg build".to_owned())
        } else {
            Err("could not allocate buffersink".to_owned())
        },
        GraphOp::StartSink => Err(bracketed("could not initialise buffersink (", answer)),
        GraphOp::LinkSink => Err(bracketed("could not link into buffersink (", answer)),
        GraphOp::Configure => Err(bracketed("could not configure filter graph (", answer)),
        GraphOp::Refuse { reason } => Err(reason.clone()),
    }
}

/// The making of a graph, step by step.
#[derive(Debug)]
pub struct GraphBuild {
    /// The steps.
    pub ops: Vec<GraphOp>,
    /// How many were taken.
    pub taken: usize,
}

impl GraphBuild {
    /// No more steps were taken than there are.
    pub open spec fn wf(self) -> bool {
        self.taken <= self.ops@.len()
    }

    /// Nothing was done yet.
    pub fn new(steps: &Vec<FilterStep>, has_d3d12: bool) -> (r: Self)
        ensures
            r.wf(),
            acts_of(r.ops@) == graph_acts(steps_view(steps@), has_d3d12),
            r.taken == 0,
    {
        GraphBuild { ops: plan_graph(steps, has_d3d12), taken: 0 }
    }

    /// The step to take next; none once the graph is made.
    pub fn next(&self) -> (r: Option<&GraphOp>)
        requires
            self.wf(),
        ensures
            match r {
                Some(op) => self.taken < self.ops@.len() && *op == self.ops@[self.taken as int],
                None => self.taken == self.ops@.len(),
            },
    {
        if self.taken < self.ops.len() {
            Some(&self.ops[self.taken])
        } else {
            None
        }
    }

    /// Note how the library took that step.
    pub fn answered(&mut self, answer: &OpAnswer) -> (r: Result<(), String>)
        requires
            old(self).wf(),
            old(self).taken < old(self).ops@.len(),
        ensures
            final(self).wf(),
            final(self).ops == old(self).ops,
            match act_error(old(self).ops@[old(self).taken as int]@, *answer) {
                None => r is Ok && final(self).taken == old(self).taken + 1,
                Some(e) => r is Err && r->Err_0@ == e && final(self).taken == old(self).taken,
            },
    {
        let total: usize = self.ops.len();
        match op_outcome(&self.ops[self.taken], answer) {
            Ok(()) => {
                assert(self.taken < total);
                self.taken = self.taken + 1;
                Ok(())
            },
            Err(e) => Err(e),
        }
    }
}

/// A frame is a frame, nothing yet is nothing yet, a source that ends or changes
/// is gone, and anything else is a failure in the library's words.
pub proof fn pulls_are_read_as_what_they_are(text: String, r: Result<Pulled, String>)
    ensures
        pull_gave(PullCode::Success, r) ==> r == Ok::<Pulled, String>(Pulled::Frame),
        pull_gave(PullCode::TryAgain, r) ==> r == Ok::<Pulled, String>(Pulled::Idle),
        pull_gave(PullCode::EndOfFile, r) ==> r == Ok::<Pulled, String>(Pulled::Ended),
        pull_gave(PullCode::OutputChanged, r) ==> r == Ok::<Pulled, String>(Pulled::Ended),
        pull_gave(PullCode::Failed(text), r) ==> r is Err && r->Err_0@ == "capture failed ("@
            + text@ + ")"@,
{
}

/// Frames are counted in the size in which they come, and the capture device is
/// made on the adapter that was asked for.
pub proof fn sizes_and_devices_are_as_given(format: SinkFormat, adapter_index: u32)
    ensures
        format.width >= 0 ==> sink_size(format).width == format.width,
        format.height >= 0 ==> sink_size(format).height == format.height,
        format.width < 0 ==> sink_size(format).width == 0,
        format.height < 0 ==> sink_size(format).height == 0,
        made_with(DeviceSlot::D3d11, adapter_index) == Some(decimal_text(adapter_index as nat)),
        made_with(DeviceSlot::D3d12, adapter_index) is None,
{
}

/// A filter is made under its own name, gets each of its options that can be
/// set, in order, is then started, and is linked unless it is the first.
pub proof fn a_filter_is_made_with_its_options(
    step: Step,
    index: nat,
    has_d3d12: bool,
    options: Seq<(Seq<char>, Seq<char>)>,
    key: Seq<char>,
    value: Seq<char>,
)
    requires
        !step.name.contains('\0'),
    ensures
        filter_acts(step, index, has_d3d12)[0] == (GraphAct::Create {
            name: step.name,
            instance: "f"@ + decimal_text(index) + "_"@ + step.name,
        }),
        index == 0 ==> filter_acts(step, index, has_d3d12).last() == (GraphAct::Start {
            name: step.name,
        }),
        index > 0 ==> {
            &&& filter_acts(step, index, has_d3d12).last() == (GraphAct::Link { name: step.name })
            &&& filter_acts(step, index, has_d3d12).drop_last().last() == (GraphAct::Start {
                name: step.name,
            })
        },
        option_acts(options, 0).len() == 0,
        !key.contains('\0') && !value.contains('\0') ==> option_acts(
            options.push((key, value)),
            options.len() as int + 1,
        ) == option_acts(options, options.len() as int).push(GraphAct::SetOption { key, value }),
        key.contains('\0') || value.contains('\0') ==> option_acts(
            options.push((key, value)),
            options.len() as int + 1,
        ) == option_acts(options, options.len() as int),
{
    lemma_more_options(options, (key, value), options.len() as int);
}

proof fn lemma_more_options(
    options: Seq<(Seq<char>, Seq<char>)>,
    option: (Seq<char>, Seq<char>),
    n: int,
)
    requires
        0 <= n <= options.len(),
    ensures
        option_acts(options.push(option), n) == option_acts(options, n),
    decreases n,
{
    if n > 0 {
        lemma_more_options(options, option, n - 1);
        assert(options.push(option)[n - 1] == options[n - 1]);
    }
}

/// A graph is made first of all, then its filters in order, then its sink, and
/// is configured last; a chain of nothing is refused.
pub proof fn a_graph_is_made_in_order(steps: Seq<Step>, has_d3d12: bool)
    ensures
        steps.len() == 0 ==> graph_acts(steps, has_d3d12) == seq![
            GraphAct::Refuse { reason: "empty filter chain"@ },
        ],
        steps.len() > 0 ==> ({
            let all = graph_acts(steps, has_d3d12);
            let n = all.len() as int;
            &&& n >= 5
            &&& all[0] == GraphAct::Graph
            &&& all[n - 4] == GraphAct::CreateSink
            &&& all[n - 3] == GraphAct::StartSink
            &&& all[n - 2] == GraphAct::LinkSink
            &&& all[n - 1] == GraphAct::Configure
            &&& all.subrange(1, n - 4) == chain_acts(steps, steps.len() as int, has_d3d12)
            &&& chain_acts(steps, steps.len() as int, has_d3d12) == chain_acts(
                steps,
                steps.len() - 1,
                has_d3d12,
            ) + filter_acts(steps.last(), (steps.len() - 1) as nat, has_d3d12)
        }),
{
    if steps.len() > 0 {
        let all = graph_acts(steps, has_d3d12);
        assert(all.subrange(1, all.len() - 4) =~= chain_acts(
            steps,
            steps.len() as int,
            has_d3d12,
        ));
    }
}

/// A step that was done fails nothing, one that gives up always does, and one
/// that was not done is told as what it is.
pub proof fn steps_that_fail_are_told(
    act: GraphAct,
    answer: OpAnswer,
    name: Seq<char>,
    instance: Seq<char>,
    key: Seq<char>,
    value: Seq<char>,
    words: String,
    keys: Vec<String>,
)
    ensures
        !(act is Refuse) ==> act_error(act, OpAnswer::Done) is None,
        act_error(GraphAct::Refuse { reason: name }, answer) == Some(name),
        act_error(GraphAct::Graph, OpAnswer::Memory) == Some("could not allocate filter graph"@),
        act_error(GraphAct::Create { name, instance }, OpAnswer::Missing) == Some(
            "filter "@ + name + " is not in this FFmpeg build"@,
        ),
        act_error(GraphAct::Create { name, instance }, OpAnswer::Memory) == Some(
            "could not allocate filter "@ + name,
        ),
        act_error(GraphAct::SetOption { key, value }, OpAnswer::Refused(words)) == Some(
            "could not set "@ + key + "="@ + value + " ("@ + words@ + ")"@,
        ),
        act_error(GraphAct::Start { name }, OpAnswer::Refused(words)) == Some(
            "could not initialise "@ + name + " ("@ + words@ + ")"@,
        ),
        keys@.len() > 0 ==> act_error(GraphAct::Start { name }, OpAnswer::Leftover(keys)) == Some(
            name + " rejected option(s): "@ + joined(texts(keys@), ", "@),
        ),
        act_error(GraphAct::Link { name }, OpAnswer::Refused(words)) == Some(
            "could not link into "@ + name + " ("@ + words@ + ")"@,
        ),
        act_error(GraphAct::CreateSink, OpAnswer::Missing) == Some(
            "buffersink is not in this FFmpeg build"@,
        ),
        act_error(GraphAct::CreateSink, OpAnswer::Memory) == Some(
            "could not allocate buffersink"@,
        ),
        act_error(GraphAct::StartSink, OpAnswer::Refused(words)) == Some(
            "could not initialise buffersink ("@ + words@ + ")"@,
        ),
        act_error(GraphAct::LinkSink, OpAnswer::Refused(words)) == Some(
            "could not link into buffersink ("@ + words@ + ")"@,
        ),
        act_error(GraphAct::Configure, OpAnswer::Refused(words)) == Some(
            "could not configure filter graph ("@ + words@ + ")"@,
        ),
{
}

/// What was logged while a graph was being made follows the reason why it could
/// not be.
pub proof fn what_was_logged_follows_the_reason(reason: Seq<char>, logged: Seq<Seq<char>>)
    ensures
        logged.len() == 0 ==> reason_with_log(reason, logged) == reason,
        logged.len() > 0 ==> reason_with_log(reason, logged) == reason + ": "@ + joined(
            logged,
            "; "@,
        ),
{
}

/// A step of the making of a graph says what it holds.
pub proof fn a_graph_step_says_what_it_holds(
    name: &'static str,
    instance: String,
    device: DeviceSlot,
    value: String,
    ops: Seq<GraphOp>,
    i: int,
)
    ensures
        (GraphOp::Create { name, instance })@ == (GraphAct::Create {
            name: name@,
            instance: instance@,
        }),
        (GraphOp::Attach { device })@ == (GraphAct::Attach { device }),
        (GraphOp::SetOption { key: name, value })@ == (GraphAct::SetOption {
            key: name@,
            value: value@,
        }),
        (GraphOp::Start { name })@ == (GraphAct::Start { name: name@ }),
        (GraphOp::Link { name })@ == (GraphAct::Link { name: name@ }),
        (GraphOp::Refuse { reason: value })@ == (GraphAct::Refuse { reason: value@ }),
        GraphOp::Graph@ == GraphAct::Graph && GraphOp::CreateSink@ == GraphAct::CreateSink,
        GraphOp::StartSink@ == GraphAct::StartSink && GraphOp::LinkSink@ == GraphAct::LinkSink,
        GraphOp::Configure@ == GraphAct::Configure,
        acts_of(ops).len() == ops.len(),
        0 <= i < ops.len() ==> acts_of(ops)[i] == ops[i]@,
{
}

} // verus!
