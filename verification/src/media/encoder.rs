//! Video encoder catalogue, probe results and automatic selection.
//!
//! Whether an encoder is built in says nothing about whether it works on a
//! machine.  So each candidate is probed, in a subprocess that a broken driver
//! may hang or crash, and only those that produce a key frame are kept.
//! Results are cached under a signature of the machine's graphics hardware.

use vstd::prelude::*;

use crate::collections::{first_from, first_where, first_where_is_first};
use crate::text::{concat2, has_suffix, same_text};

use super::capture::{input_of_encoder, EncoderInput};
use super::gpu::UNKNOWN;
use super::settings::EncoderChoice;

verus! {

/// Hidden command-line flag that puts the process into probe mode.
pub const PROBE_FLAG: &'static str = "--probe-video-encoders";

/// How long the parent waits for the probe subprocess, in seconds.
pub const PROBE_TIMEOUT_SECS: u64 = 30;

/// The codec automatic selection is allowed to choose.
///
/// Deliberately narrow: the server forwards whatever it negotiates, but a
/// mismatch is a silent frame drop, so defaulting to anything else would risk
/// a black stream with no error anywhere.
pub const AUTO_CODEC: &'static str = "h264";

/// One encoder candidate in the catalogue.
#[derive(Debug, Clone, Copy)]
pub struct Candidate {
    /// Encoder name, e.g. `h264_nvenc`.
    pub id: &'static str,
    /// Human-readable vendor label.
    pub display_name: &'static str,
    /// Codec produced: `h264`, `hevc` or `av1`.
    pub codec: &'static str,
    /// Whether this is a true hardware encoder.  Automatic selection prefers
    /// these; the others are fallbacks.
    pub is_hardware: bool,
}

/// What a catalogue entry says.
#[verifier::ext_equal]
pub struct Listed {
    /// Encoder name.
    pub id: Seq<char>,
    /// Human-readable vendor label.
    pub display_name: Seq<char>,
    /// Codec produced.
    pub codec: Seq<char>,
    /// Whether this is a true hardware encoder.
    pub is_hardware: bool,
}

impl View for Candidate {
    type V = Listed;

    open spec fn view(&self) -> Listed {
        Listed {
            id: self.id@,
            display_name: self.display_name@,
            codec: self.codec@,
            is_hardware: self.is_hardware,
        }
    }
}

/// One entry of the catalogue.
pub open spec fn listed(
    id: Seq<char>,
    display_name: Seq<char>,
    codec: Seq<char>,
    is_hardware: bool,
) -> Listed {
    Listed { id, display_name, codec, is_hardware }
}

/// Every encoder we know how to probe, grouped by codec.
///
/// Within each codec the order is the priority that automatic selection walks:
/// the three vendor encoders first, then the generic D3D12 encoder, then Media
/// Foundation, which may resolve to software, and for H.264 a software encoder
/// as a guaranteed fallback.  HEVC and AV1 are listed so that a user can pick
/// one deliberately.
pub open spec fn catalogue() -> Seq<Listed> {
    seq![
        listed("h264_nvenc"@, "H.264 - NVIDIA NVENC"@, "h264"@, true),
        listed("h264_amf"@, "H.264 - AMD AMF"@, "h264"@, true),
        listed("h264_qsv"@, "H.264 - Intel Quick Sync"@, "h264"@, true),
        listed("h264_d3d12va"@, "H.264 - Direct3D 12 Video Encode"@, "h264"@, true),
        listed("h264_mf"@, "H.264 - Media Foundation"@, "h264"@, false),
        listed("libopenh264"@, "H.264 - OpenH264 (software)"@, "h264"@, false),
        listed("hevc_nvenc"@, "HEVC - NVIDIA NVENC"@, "hevc"@, true),
        listed("hevc_amf"@, "HEVC - AMD AMF"@, "hevc"@, true),
        listed("hevc_qsv"@, "HEVC - Intel Quick Sync"@, "hevc"@, true),
        listed("hevc_d3d12va"@, "HEVC - Direct3D 12 Video Encode"@, "hevc"@, true),
        listed("hevc_mf"@, "HEVC - Media Foundation"@, "hevc"@, false),
        listed("av1_nvenc"@, "AV1 - NVIDIA NVENC"@, "av1"@, true),
        listed("av1_amf"@, "AV1 - AMD AMF"@, "av1"@, true),
        listed("av1_qsv"@, "AV1 - Intel Quick Sync"@, "av1"@, true),
        listed("av1_d3d12va"@, "AV1 - Direct3D 12 Video Encode"@, "av1"@, true),
        listed("av1_mf"@, "AV1 - Media Foundation"@, "av1"@, false),
    ]
}

fn candidate(
    id: &'static str,
    display_name: &'static str,
    codec: &'static str,
    is_hardware: bool,
) -> (r: Candidate)
    ensures
        r@ == listed(id@, display_name@, codec@, is_hardware),
{
    Candidate { id, display_name, codec, is_hardware }
}

/// The catalogue, in priority order.
pub fn candidates() -> (r: Vec<Candidate>)
    ensures
        r@.map_values(|c: Candidate| c@) == catalogue(),
{
    let r = vec![
        candidate("h264_nvenc", "H.264 - NVIDIA NVENC", "h264", true),
        candidate("h264_amf", "H.264 - AMD AMF", "h264", true),
        candidate("h264_qsv", "H.264 - Intel Quick Sync", "h264", true),
        candidate("h264_d3d12va", "H.264 - Direct3D 12 Video Encode", "h264", true),
        candidate("h264_mf", "H.264 - Media Foundation", "h264", false),
        candidate("libopenh264", "H.264 - OpenH264 (software)", "h264", false),
        candidate("hevc_nvenc", "HEVC - NVIDIA NVENC", "hevc", true),
        candidate("hevc_amf", "HEVC - AMD AMF", "hevc", true),
        candidate("hevc_qsv", "HEVC - Intel Quick Sync", "hevc", true),
        candidate("hevc_d3d12va", "HEVC - Direct3D 12 Video Encode", "hevc", true),
        candidate("hevc_mf", "HEVC - Media Foundation", "hevc", false),
        candidate("av1_nvenc", "AV1 - NVIDIA NVENC", "av1", true),
        candidate("av1_amf", "AV1 - AMD AMF", "av1", true),
        candidate("av1_qsv", "AV1 - Intel Quick Sync", "av1", true),
        candidate("av1_d3d12va", "AV1 - Direct3D 12 Video Encode", "av1", true),
        candidate("av1_mf", "AV1 - Media Foundation", "av1", false),
    ];
    assert(r@.map_values(|c: Candidate| c@) =~= catalogue());
    r
}

/// One catalogue entry plus what probing found out about it.
#[derive(Debug, PartialEq, Eq)]
pub struct EncoderInfo {
    /// Encoder name, used as the settings value.
    pub id: String,
    /// Human-readable label.
    pub display_name: String,
    /// Codec produced.
    pub codec: String,
    /// Whether this is a true hardware encoder.
    pub is_hardware: bool,
    /// Whether it opened and produced a key frame on this machine.
    pub available: bool,
    /// Why it is unavailable.  `None` when available.
    pub detail: Option<String>,
    /// The input path on which it worked, where that is known.
    pub input: Option<EncoderInput>,
}

impl Clone for EncoderInfo {
    fn clone(&self) -> (r: Self)
        ensures
            r == *self,
    {
        EncoderInfo {
            id: self.id.clone(),
            display_name: self.display_name.clone(),
            codec: self.codec.clone(),
            is_hardware: self.is_hardware,
            available: self.available,
            detail: self.detail.clone(),
            input: self.input,
        }
    }
}

/// What an encoder's entry says.
#[verifier::ext_equal]
pub struct Encoder {
    /// The catalogue entry.
    pub listed: Listed,
    /// Whether it works on this machine.
    pub available: bool,
    /// Why not, where it does not.
    pub detail: Option<Seq<char>>,
    /// The input path on which it worked, where that is known.
    pub input: Option<EncoderInput>,
}

/// Optional text.
pub open spec fn text_view(text: Option<String>) -> Option<Seq<char>> {
    match text {
        None => None,
        Some(t) => Some(t@),
    }
}

impl View for EncoderInfo {
    type V = Encoder;

    open spec fn view(&self) -> Encoder {
        Encoder {
            listed: Listed {
                id: self.id@,
                display_name: self.display_name@,
                codec: self.codec@,
                is_hardware: self.is_hardware,
            },
            available: self.available,
            detail: text_view(self.detail),
            input: self.input,
        }
    }
}

/// The entries of a report.
pub open spec fn encoders_view(encoders: Seq<EncoderInfo>) -> Seq<Encoder> {
    encoders.map_values(|e: EncoderInfo| e@)
}

/// An entry marked unavailable for the stated reason.
pub open spec fn unavailable_entry(listed: Listed, reason: Seq<char>) -> Encoder {
    Encoder { listed, available: false, detail: Some(reason), input: None }
}

impl EncoderInfo {
    /// Build an entry marked unavailable for the stated reason.
    pub fn unavailable(candidate: &Candidate, reason: String) -> (r: Self)
        ensures
            r@ == unavailable_entry(candidate@, reason@),
    {
        EncoderInfo {
            id: candidate.id.to_owned(),
            display_name: candidate.display_name.to_owned(),
            codec: candidate.codec.to_owned(),
            is_hardware: candidate.is_hardware,
            available: false,
            detail: Some(reason),
            input: None,
        }
    }
}

/// One candidate's probe outcome, as reported by the subprocess.
#[derive(Debug, PartialEq, Eq)]
pub struct ProbeResult {
    /// Encoder name.
    pub id: String,
    /// Whether it opened and produced a key frame.
    pub available: bool,
    /// The error text when it did not.
    pub detail: Option<String>,
    /// How long the attempt took.
    pub elapsed_ms: u64,
    /// The input path on which it worked.
    pub input: Option<EncoderInput>,
}

/// Merge one candidate with the first result that names it.
///
/// Without one it counts as not probed, so a truncated or partial probe can
/// never make an encoder look usable.
pub open spec fn merged_entry(listed: Listed, results: Seq<ProbeResult>) -> Encoder {
    match first_where(results, |r: ProbeResult| r.id@ == listed.id) {
        None => unavailable_entry(listed, "not probed"@),
        Some(i) => if results[i].available {
            Encoder { listed, available: true, detail: None, input: results[i].input }
        } else {
            unavailable_entry(
                listed,
                match results[i].detail {
                    Some(text) => text@,
                    None => "unavailable"@,
                },
            )
        },
    }
}

/// Merge probe results onto the catalogue.
pub open spec fn merged(results: Seq<ProbeResult>) -> Seq<Encoder> {
    catalogue().map_values(|l: Listed| merged_entry(l, results))
}

/// The catalogue with every entry unavailable for one reason.
pub open spec fn all_unavailable(reason: Seq<char>) -> Seq<Encoder> {
    catalogue().map_values(|l: Listed| unavailable_entry(l, reason))
}

fn merge_one(candidate: &Candidate, results: &Vec<ProbeResult>) -> (r: EncoderInfo)
    ensures
        r@ == merged_entry(candidate@, results@),
{
    let ghost named = |r: ProbeResult| r.id@ == candidate@.id;
    let mut i: usize = 0;
    while i < results.len()
        invariant
            i <= results.len(),
            named == (|r: ProbeResult| r.id@ == candidate@.id),
            first_where(results@, named) == first_from(results@, named, i as int),
        decreases results.len() - i,
    {
        let found = &results[i];
        if same_text(found.id.as_str(), candidate.id) {
            assert(first_where(results@, named) == Some(i as int));
            if found.available {
                return EncoderInfo {
                    id: candidate.id.to_owned(),
                    display_name: candidate.display_name.to_owned(),
                    codec: candidate.codec.to_owned(),
                    is_hardware: candidate.is_hardware,
                    available: true,
                    detail: None,
                    input: found.input,
                };
            }
            let reason = match &found.detail {
                Some(text) => text.clone(),
                None => "unavailable".to_owned(),
            };
            return EncoderInfo::unavailable(candidate, reason);
        }
        i += 1;
    }
    EncoderInfo::unavailable(candidate, "not probed".to_owned())
}

/// Merge probe results onto the catalogue, preserving catalogue order.
pub fn merge(results: &Vec<ProbeResult>) -> (r: Vec<EncoderInfo>)
    ensures
        encoders_view(r@) == merged(results@),
{
    let all = candidates();
    let ghost listed_all = all@.map_values(|c: Candidate| c@);
    let mut out: Vec<EncoderInfo> = Vec::new();
    let mut i: usize = 0;
    while i < all.len()
        invariant
            i <= all.len(),
            i == out.len(),
            listed_all == catalogue(),
            listed_all == all@.map_values(|c: Candidate| c@),
            forall|j: int|
                0 <= j < i ==> (#[trigger] out@[j])@ == merged_entry(catalogue()[j], results@),
        decreases all.len() - i,
    {
        assert(listed_all[i as int] == all@[i as int]@);
        let entry = merge_one(&all[i], results);
        out.push(entry);
        i += 1;
    }
    assert(listed_all.len() == all@.len());
    assert(encoders_view(out@) =~= merged(results@));
    out
}

/// The catalogue with every entry unavailable for one reason.
pub fn none_available(reason: &str) -> (r: Vec<EncoderInfo>)
    ensures
        encoders_view(r@) == all_unavailable(reason@),
{
    let all = candidates();
    let ghost listed_all = all@.map_values(|c: Candidate| c@);
    let mut out: Vec<EncoderInfo> = Vec::new();
    let mut i: usize = 0;
    while i < all.len()
        invariant
            i <= all.len(),
            i == out.len(),
            listed_all == catalogue(),
            listed_all == all@.map_values(|c: Candidate| c@),
            forall|j: int|
                0 <= j < i ==> (#[trigger] out@[j])@ == unavailable_entry(
                    catalogue()[j],
                    reason@,
                ),
        decreases all.len() - i,
    {
        assert(listed_all[i as int] == all@[i as int]@);
        let entry = EncoderInfo::unavailable(&all[i], reason.to_owned());
        out.push(entry);
        i += 1;
    }
    assert(listed_all.len() == all@.len());
    assert(encoders_view(out@) =~= all_unavailable(reason@));
    out
}

/// The encoders that automatic selection may use.
pub open spec fn usable(e: Encoder) -> bool {
    e.available && e.listed.codec == AUTO_CODEC@
}

/// What automatic selection picks: the first usable hardware encoder, else the
/// first usable encoder of any kind.
pub open spec fn auto_choice(encoders: Seq<Encoder>) -> Option<Seq<char>> {
    match first_where(encoders, |e: Encoder| usable(e) && e.listed.is_hardware) {
        Some(i) => Some(encoders[i].listed.id),
        None => match first_where(encoders, |e: Encoder| usable(e)) {
            Some(i) => Some(encoders[i].listed.id),
            None => None,
        },
    }
}

/// The payload the encoder picker is rendered from.
#[derive(Debug, PartialEq, Eq)]
pub struct EncoderReport {
    /// Whether this build can encode natively at all.
    pub supported: bool,
    /// Every catalogue entry, in priority order, available or not.
    pub encoders: Vec<EncoderInfo>,
    /// Which encoder automatic selection resolves to right now, if any.
    pub auto_selected: Option<String>,
    /// Graphics signature these results belong to; the cache key.
    pub gpu_signature: String,
    /// When the probe ran, as a Unix timestamp in seconds.
    pub probed_at: i64,
}

/// What a report says.
#[verifier::ext_equal]
pub struct Report {
    /// Whether this build can encode natively at all.
    pub supported: bool,
    /// Every catalogue entry, in priority order.
    pub encoders: Seq<Encoder>,
    /// Which encoder automatic selection resolves to.
    pub auto_selected: Option<Seq<char>>,
    /// Graphics signature these results belong to.
    pub gpu_signature: Seq<char>,
    /// When the probe ran.
    pub probed_at: int,
}

impl View for EncoderReport {
    type V = Report;

    open spec fn view(&self) -> Report {
        Report {
            supported: self.supported,
            encoders: encoders_view(self.encoders@),
            auto_selected: text_view(self.auto_selected),
            gpu_signature: self.gpu_signature@,
            probed_at: self.probed_at as int,
        }
    }
}

/// The outcome of resolving a choice against a report.
#[derive(Debug, PartialEq, Eq)]
pub struct Selection {
    /// The encoder the pipeline will open.
    pub id: String,
    /// `true` when the user's explicit choice was unavailable and automatic
    /// selection stepped in.
    pub fell_back: bool,
    /// The input path on which the encoder worked.
    pub input: EncoderInput,
}

/// Whether an encoder of this name works on this machine.
pub open spec fn has_available(encoders: Seq<Encoder>, id: Seq<char>) -> bool {
    exists|i: int|
        0 <= i < encoders.len() && (#[trigger] encoders[i]).listed.id == id
            && encoders[i].available
}

/// Whether this entry is a working encoder of this name.
pub open spec fn works_as(e: Encoder, id: Seq<char>) -> bool {
    e.available && e.listed.id == id
}

/// The input path of an encoder: the one on which it worked, else the one that
/// encoders of its kind are known to take.
pub open spec fn path_of(encoders: Seq<Encoder>, id: Seq<char>) -> EncoderInput {
    match first_where(encoders, |e: Encoder| works_as(e, id)) {
        Some(i) => match encoders[i].input {
            Some(input) => input,
            None => input_of_encoder(id),
        },
        None => input_of_encoder(id),
    }
}

/// The encoder that a choice comes to, and whether that is a fallback; none
/// where nothing works.
pub open spec fn resolved_choice(report: Report, choice: Option<Seq<char>>) -> Option<
    (Seq<char>, bool),
> {
    if choice is Some && has_available(report.encoders, choice->0) {
        Some((choice->0, false))
    } else {
        match report.auto_selected {
            Some(id) => Some((id, choice is Some)),
            None => None,
        }
    }
}

/// The report of a build without native encoding.
pub open spec fn unsupported_report(reason: Seq<char>) -> Report {
    Report {
        supported: false,
        encoders: all_unavailable(reason),
        auto_selected: None,
        gpu_signature: Seq::empty(),
        probed_at: 0,
    }
}

/// The entries that a probe comes to: its results merged onto the catalogue,
/// or everything unavailable for the reason it failed.
pub open spec fn probed_encoders(outcome: Result<Vec<ProbeResult>, String>) -> Seq<Encoder> {
    match outcome {
        Ok(results) => merged(results@),
        Err(e) => all_unavailable(e@),
    }
}

/// The report that a probe comes to.
pub open spec fn probed_report(
    outcome: Result<Vec<ProbeResult>, String>,
    signature: Seq<char>,
    probed_at: int,
) -> Report {
    Report {
        supported: true,
        encoders: probed_encoders(outcome),
        auto_selected: auto_choice(probed_encoders(outcome)),
        gpu_signature: signature,
        probed_at,
    }
}

/// Whether a cached report still stands on a machine of this signature.
pub open spec fn still_stands(report: Report, refresh: bool, signature: Seq<char>) -> bool {
    &&& !refresh
    &&& report.supported
    &&& signature != UNKNOWN@
    &&& report.gpu_signature == signature
}

/// On a machine whose graphics hardware cannot be identified no cached report
/// ever stands, so the encoders are always probed again.
pub proof fn an_unknown_machine_is_always_probed(report: Report, refresh: bool)
    ensures
        !still_stands(report, refresh, UNKNOWN@),
{
}

/// The current Unix time in seconds, from `chrono::Utc::now` and
/// `DateTime::timestamp`.  Nothing is claimed of it: it is the machine's clock.
#[verifier::external_body]
fn unix_now() -> (r: i64) {
    chrono::Utc::now().timestamp()
}

impl EncoderReport {
    /// A report for builds and platforms without native encoding.
    pub fn unsupported(reason: &str) -> (r: Self)
        ensures
            r@ == unsupported_report(reason@),
    {
        EncoderReport {
            supported: false,
            encoders: none_available(reason),
            auto_selected: None,
            gpu_signature: String::new(),
            probed_at: 0,
        }
    }

    /// The encoder that automatic selection picks: the first available
    /// hardware encoder of the automatic codec in catalogue order, else the
    /// first available encoder of that codec.
    pub fn auto_pick(encoders: &Vec<EncoderInfo>) -> (r: Option<String>)
        ensures
            text_view(r) == auto_choice(encoders_view(encoders@)),
    {
        let ghost all = encoders_view(encoders@);
        let ghost hardware = |e: Encoder| usable(e) && e.listed.is_hardware;
        let ghost any = |e: Encoder| usable(e);
        let mut i: usize = 0;
        while i < encoders.len()
            invariant
                i <= encoders.len(),
                all == encoders_view(encoders@),
                hardware == (|e: Encoder| usable(e) && e.listed.is_hardware),
                first_where(all, hardware) == first_from(all, hardware, i as int),
            decreases encoders.len() - i,
        {
            let e = &encoders[i];
            assert(all[i as int] == e@);
            if e.available && same_text(e.codec.as_str(), AUTO_CODEC) && e.is_hardware {
                assert(first_where(all, hardware) == Some(i as int));
                return Some(e.id.clone());
            }
            i += 1;
        }
        assert(first_where(all, hardware) is None);
        let mut j: usize = 0;
        while j < encoders.len()
            invariant
                j <= encoders.len(),
                all == encoders_view(encoders@),
                hardware == (|e: Encoder| usable(e) && e.listed.is_hardware),
                any == (|e: Encoder| usable(e)),
                first_where(all, hardware) is None,
                first_where(all, any) == first_from(all, any, j as int),
            decreases encoders.len() - j,
        {
            let e = &encoders[j];
            assert(all[j as int] == e@);
            if e.available && same_text(e.codec.as_str(), AUTO_CODEC) {
                assert(first_where(all, any) == Some(j as int));
                return Some(e.id.clone());
            }
            j += 1;
        }
        None
    }

    /// The input path of an encoder.
    fn input_path(&self, id: &str) -> (r: EncoderInput)
        ensures
            r == path_of(self@.encoders, id@),
    {
        let ghost works = |e: Encoder| works_as(e, id@);
        let mut i: usize = 0;
        while i < self.encoders.len()
            invariant
                i <= self.encoders.len(),
                works == (|e: Encoder| works_as(e, id@)),
                first_where(self@.encoders, works) == first_from(
                    self@.encoders,
                    works,
                    i as int,
                ),
            decreases self.encoders.len() - i,
        {
            let e = &self.encoders[i];
            assert(self@.encoders[i as int] == e@);
            if e.available && same_text(e.id.as_str(), id) {
                assert(works(self@.encoders[i as int]));
                assert(first_where(self@.encoders, works) == Some(i as int));
                return match e.input {
                    Some(input) => input,
                    None => EncoderInput::for_encoder(id),
                };
            }
            assert(!works(self@.encoders[i as int]));
            i += 1;
        }
        EncoderInput::for_encoder(id)
    }

    /// Turn a user's choice into a concrete encoder name.
    ///
    /// A choice that is no longer available falls back to automatic selection
    /// and reports that, so the user can be told once.
    pub fn resolve_choice(&self, choice: &EncoderChoice) -> (r: Result<Selection, String>)
        ensures
            match resolved_choice(self@, choice@) {
                Some((id, fell_back)) => {
                    &&& r is Ok
                    &&& r->Ok_0.id@ == id
                    &&& r->Ok_0.fell_back == fell_back
                    &&& r->Ok_0.input == path_of(self@.encoders, id)
                },
                None => r is Err && r->Err_0@
                    == "no working h264 encoder found on this machine"@,
            },
    {
        let requested = choice.id();
        if let Some(id) = requested {
            let mut i: usize = 0;
            while i < self.encoders.len()
                invariant
                    i <= self.encoders.len(),
                    Some(id@) == choice@,
                    forall|j: int|
                        0 <= j < i ==> !((#[trigger] self@.encoders[j]).listed.id == id@
                            && self@.encoders[j].available),
                decreases self.encoders.len() - i,
            {
                let e = &self.encoders[i];
                assert(self@.encoders[i as int] == e@);
                if e.available && same_text(e.id.as_str(), id) {
                    let input = self.input_path(id);
                    return Ok(Selection { id: id.to_owned(), fell_back: false, input });
                }
                i += 1;
            }
        }
        match &self.auto_selected {
            Some(picked) => {
                let input = self.input_path(picked.as_str());
                Ok(Selection { id: picked.clone(), fell_back: requested.is_some(), input })
            },
            None => Err("no working h264 encoder found on this machine".to_owned()),
        }
    }

    /// The report of a probe that ran at the given time.
    pub fn probed(
        outcome: Result<Vec<ProbeResult>, String>,
        signature: String,
        probed_at: i64,
    ) -> (r: Self)
        ensures
            r@ == probed_report(outcome, signature@, probed_at as int),
    {
        let encoders = match &outcome {
            Ok(results) => merge(results),
            Err(e) => none_available(e.as_str()),
        };
        EncoderReport {
            supported: true,
            auto_selected: EncoderReport::auto_pick(&encoders),
            encoders,
            gpu_signature: signature,
            probed_at,
        }
    }

    /// The report of a probe that has just run.
    pub fn probed_now(outcome: Result<Vec<ProbeResult>, String>, signature: String) -> (r: Self)
        ensures
            r@ == probed_report(outcome, signature@, r.probed_at as int),
    {
        let now: i64 = unix_now();
        EncoderReport::probed(outcome, signature, now)
    }

    /// Whether this cached report still stands: a refresh was not asked for,
    /// it comes from a build that can encode, and the graphics hardware is
    /// known and has not changed since.
    pub fn is_current(&self, refresh: bool, signature: &str) -> (r: bool)
        ensures
            r == still_stands(self@, refresh, signature@),
    {
        !refresh && self.supported && !same_text(signature, UNKNOWN) && same_text(
            self.gpu_signature.as_str(),
            signature,
        )
    }
}

/// What to do while waiting for the probe subprocess.
#[derive(Debug, PartialEq, Eq)]
pub enum ProbeWait {
    /// It has exited; read its output.
    Exited,
    /// It is still running; look again shortly.
    Poll,
    /// Its state cannot be read; give up with this reason.
    Failed(String),
    /// It has outlived its time; kill it and give up with this reason.
    Kill(String),
}

/// Decide what to do from the subprocess's state and the clock.
///
/// A driver that deadlocks inside its own library never returns, which is why
/// the wait is bounded.
pub fn probe_wait(exited: Result<bool, String>, past_deadline: bool) -> (r: ProbeWait)
    ensures
        match exited {
            Ok(true) => r == ProbeWait::Exited,
            Ok(false) => if past_deadline {
                r matches ProbeWait::Kill(reason) && reason@ == "probe timed out after 30 s"@
            } else {
                r == ProbeWait::Poll
            },
            Err(e) => r matches ProbeWait::Failed(reason) && reason@ == "try_wait: "@ + e@,
        },
{
    match exited {
        Ok(true) => ProbeWait::Exited,
        Ok(false) => {
            if past_deadline {
                ProbeWait::Kill("probe timed out after 30 s".to_owned())
            } else {
                ProbeWait::Poll
            }
        },
        Err(e) => ProbeWait::Failed(concat2("try_wait: ", e.as_str())),
    }
}

/// Whether a text is among the arguments.
pub open spec fn has_argument(args: Seq<String>, flag: Seq<char>) -> bool {
    exists|i: int| 0 <= i < args.len() && (#[trigger] args[i])@ == flag
}

/// Whether a text is among the arguments.
pub(crate) fn contains_argument(args: &Vec<String>, flag: &str) -> (r: bool)
    ensures
        r == has_argument(args@, flag@),
{
    let mut i: usize = 0;
    while i < args.len()
        invariant
            i <= args.len(),
            forall|j: int| 0 <= j < i ==> (#[trigger] args@[j])@ != flag@,
        decreases args.len() - i,
    {
        if same_text(args[i].as_str(), flag) {
            return true;
        }
        i += 1;
    }
    false
}

/// Whether these arguments put the process into probe mode.
pub fn wants_probe(args: &Vec<String>) -> (r: bool)
    ensures
        r == has_argument(args@, PROBE_FLAG@),
{
    contains_argument(args, PROBE_FLAG)
}

/// Merging keeps the catalogue's order and size, whatever was reported.
pub proof fn merge_keeps_the_catalogue(results: Seq<ProbeResult>)
    ensures
        merged(results).len() == catalogue().len(),
        forall|i: int|
            0 <= i < catalogue().len() ==> (#[trigger] merged(results)[i]).listed
                == catalogue()[i],
{
}

/// An encoder that no result reports as available never looks usable.
pub proof fn unreported_encoders_stay_unavailable(results: Seq<ProbeResult>, i: int)
    requires
        0 <= i < catalogue().len(),
        forall|j: int|
            0 <= j < results.len() && (#[trigger] results[j]).id@ == catalogue()[i].id
                ==> !results[j].available,
    ensures
        !merged(results)[i].available,
        merged(results)[i].detail is Some,
{
    let named = |r: ProbeResult| r.id@ == catalogue()[i].id;
    first_where_is_first(results, named);
}

/// Automatic selection only ever picks an available encoder of the automatic
/// codec, and never a software one where a hardware one would do.
pub proof fn auto_choice_is_sound(encoders: Seq<Encoder>)
    ensures
        match auto_choice(encoders) {
            Some(id) => exists|i: int|
                0 <= i < encoders.len() && (#[trigger] encoders[i]).listed.id == id && usable(
                    encoders[i],
                ) && ((exists|j: int|
                    0 <= j < encoders.len() && usable(#[trigger] encoders[j])
                        && encoders[j].listed.is_hardware) ==> encoders[i].listed.is_hardware),
            None => forall|i: int| 0 <= i < encoders.len() ==> !usable(#[trigger] encoders[i]),
        },
{
    let hardware = |e: Encoder| usable(e) && e.listed.is_hardware;
    let any = |e: Encoder| usable(e);
    first_where_is_first(encoders, hardware);
    first_where_is_first(encoders, any);
    match first_where(encoders, hardware) {
        Some(i) => {
            assert(hardware(encoders[i]));
            assert(encoders[i].listed.id == auto_choice(encoders)->0);
        },
        None => {
            assert forall|j: int| 0 <= j < encoders.len() implies !(usable(
                #[trigger] encoders[j],
            ) && encoders[j].listed.is_hardware) by {
                assert(!hardware(encoders[j]));
            }
            match first_where(encoders, any) {
                Some(i) => {
                    assert(any(encoders[i]));
                    assert(encoders[i].listed.id == auto_choice(encoders)->0);
                },
                None => {
                    assert forall|i: int| 0 <= i < encoders.len() implies !usable(
                        #[trigger] encoders[i],
                    ) by {
                        assert(!any(encoders[i]));
                    }
                },
            }
        },
    }
}

/// An available explicit choice is honoured, whatever its codec, and an
/// unavailable one falls back to the automatic choice and says so.
pub proof fn explicit_choices_are_honoured_or_reported(report: Report, id: Seq<char>)
    ensures
        has_available(report.encoders, id) ==> resolved_choice(report, Some(id)) == Some(
            (id, false),
        ),
        !has_available(report.encoders, id) && report.auto_selected is Some ==> resolved_choice(
            report,
            Some(id),
        ) == Some((report.auto_selected->0, true)),
        report.auto_selected is Some ==> resolved_choice(report, None) == Some(
            (report.auto_selected->0, false),
        ),
{
}

/// Whatever a choice resolves to in a probed report is an encoder that works
/// on this machine.
pub proof fn resolved_choices_are_available(
    outcome: Result<Vec<ProbeResult>, String>,
    signature: Seq<char>,
    probed_at: int,
    choice: Option<Seq<char>>,
)
    ensures
        resolved_choice(probed_report(outcome, signature, probed_at), choice) matches Some((id, _))
            ==> has_available(probed_encoders(outcome), id),
{
    auto_choice_is_sound(probed_encoders(outcome));
}

/// Whatever a choice resolves to in a probed report is opened on the input path
/// on which its probe worked.
pub proof fn the_probed_path_is_used(
    results: Vec<ProbeResult>,
    signature: Seq<char>,
    probed_at: int,
    choice: Option<Seq<char>>,
    id: Seq<char>,
    fell_back: bool,
    k: int,
    input: EncoderInput,
)
    requires
        resolved_choice(probed_report(Ok(results), signature, probed_at), choice) == Some(
            (id, fell_back),
        ),
        first_where(results@, |r: ProbeResult| r.id@ == id) == Some(k),
        results@[k].input == Some(input),
    ensures
        path_of(probed_report(Ok(results), signature, probed_at).encoders, id) == input,
{
    let entries = merged(results@);
    resolved_choices_are_available(Ok(results), signature, probed_at, choice);
    let works = |e: Encoder| works_as(e, id);
    first_where_is_first(entries, works);
    let i = choose|i: int|
        0 <= i < entries.len() && (#[trigger] entries[i]).listed.id == id
            && entries[i].available;
    assert(works(entries[i]));
    let j = first_where(entries, works)->0;
    assert(works(entries[j]));
    assert(entries[j] == merged_entry(catalogue()[j], results@));
    assert(catalogue()[j].id == id);
}

/// Automatic selection follows the order of the entries: of those it may use,
/// it picks the first hardware encoder, and only without one the first of any
/// kind.
pub proof fn auto_choice_follows_the_priority_order(encoders: Seq<Encoder>)
    ensures
        match auto_choice(encoders) {
            Some(id) => exists|i: int|
                {
                    &&& 0 <= i < encoders.len()
                    &&& (#[trigger] encoders[i]).listed.id == id
                    &&& encoders[i].available
                    &&& encoders[i].listed.codec == "h264"@
                    &&& encoders[i].listed.is_hardware ==> forall|j: int|
                        0 <= j < i ==> !((#[trigger] encoders[j]).available
                            && encoders[j].listed.codec == "h264"@
                            && encoders[j].listed.is_hardware)
                    &&& !encoders[i].listed.is_hardware ==> {
                        &&& forall|j: int|
                            0 <= j < i ==> !((#[trigger] encoders[j]).available
                                && encoders[j].listed.codec == "h264"@)
                        &&& forall|j: int|
                            0 <= j < encoders.len() ==> !((#[trigger] encoders[j]).available
                                && encoders[j].listed.codec == "h264"@
                                && encoders[j].listed.is_hardware)
                    }
                },
            None => forall|i: int|
                0 <= i < encoders.len() ==> !((#[trigger] encoders[i]).available
                    && encoders[i].listed.codec == "h264"@),
        },
{
    let hardware = |e: Encoder| usable(e) && e.listed.is_hardware;
    let any = |e: Encoder| usable(e);
    first_where_is_first(encoders, hardware);
    first_where_is_first(encoders, any);
    match first_where(encoders, hardware) {
        Some(i) => {
            assert(hardware(encoders[i]));
            assert forall|j: int| 0 <= j < i implies !((#[trigger] encoders[j]).available
                && encoders[j].listed.codec == "h264"@ && encoders[j].listed.is_hardware) by {
                assert(!hardware(encoders[j]));
            }
            assert(encoders[i].listed.id == auto_choice(encoders)->0);
        },
        None => {
            assert forall|j: int| 0 <= j < encoders.len() implies !((
            #[trigger] encoders[j]).available && encoders[j].listed.codec == "h264"@
                && encoders[j].listed.is_hardware) by {
                assert(!hardware(encoders[j]));
            }
            match first_where(encoders, any) {
                Some(i) => {
                    assert(any(encoders[i]));
                    assert forall|j: int| 0 <= j < i implies !((
                    #[trigger] encoders[j]).available && encoders[j].listed.codec
                        == "h264"@) by {
                        assert(!any(encoders[j]));
                    }
                    assert(encoders[i].listed.id == auto_choice(encoders)->0);
                },
                None => {
                    assert forall|j: int| 0 <= j < encoders.len() implies !((
                    #[trigger] encoders[j]).available && encoders[j].listed.codec
                        == "h264"@) by {
                        assert(!any(encoders[j]));
                    }
                },
            }
        },
    }
}

/// Within each codec the catalogue lists the vendors' own encoders first, then
/// the generic hardware encoder, then Media Foundation; for H.264 software
/// comes last.  Entries of each codec produce that codec, and Media Foundation
/// and the software encoder do not count as hardware.
pub proof fn the_catalogue_is_in_priority_order(first: int, codec: Seq<char>)
    requires
        ({
            ||| first == 0 && codec == "h264"@
            ||| first == 6 && codec == "hevc"@
            ||| first == 11 && codec == "av1"@
        }),
    ensures
        catalogue().len() == 16,
        catalogue()[first].id == codec + "_nvenc"@,
        catalogue()[first + 1].id == codec + "_amf"@,
        catalogue()[first + 2].id == codec + "_qsv"@,
        catalogue()[first + 3].id == codec + "_d3d12va"@,
        catalogue()[first + 4].id == codec + "_mf"@,
        catalogue()[5].id == "libopenh264"@,
        catalogue()[5].codec == "h264"@,
        !catalogue()[5].is_hardware,
        forall|i: int|
            first <= i < first + 5 ==> (#[trigger] catalogue()[i]).codec == codec
                && catalogue()[i].is_hardware == (i < first + 4),
{
    reveal_strlit("h264");
    reveal_strlit("hevc");
    reveal_strlit("av1");
    reveal_strlit("_nvenc");
    reveal_strlit("_amf");
    reveal_strlit("_qsv");
    reveal_strlit("_d3d12va");
    reveal_strlit("_mf");
    reveal_strlit("h264_nvenc");
    reveal_strlit("h264_amf");
    reveal_strlit("h264_qsv");
    reveal_strlit("h264_d3d12va");
    reveal_strlit("h264_mf");
    reveal_strlit("hevc_nvenc");
    reveal_strlit("hevc_amf");
    reveal_strlit("hevc_qsv");
    reveal_strlit("hevc_d3d12va");
    reveal_strlit("hevc_mf");
    reveal_strlit("av1_nvenc");
    reveal_strlit("av1_amf");
    reveal_strlit("av1_qsv");
    reveal_strlit("av1_d3d12va");
    reveal_strlit("av1_mf");
    assert(catalogue()[first].id =~= codec + "_nvenc"@);
    assert(catalogue()[first + 1].id =~= codec + "_amf"@);
    assert(catalogue()[first + 2].id =~= codec + "_qsv"@);
    assert(catalogue()[first + 3].id =~= codec + "_d3d12va"@);
    assert(catalogue()[first + 4].id =~= codec + "_mf"@);
}

/// An encoder is shown as its own probe found it, with the first result that
/// names it: available on the path that worked, or unavailable for the reason
/// that was given.
pub proof fn an_encoder_is_shown_as_its_probe_found_it(
    results: Seq<ProbeResult>,
    i: int,
    k: int,
)
    requires
        0 <= i < catalogue().len(),
        0 <= k < results.len(),
        results[k].id@ == catalogue()[i].id,
        forall|j: int| 0 <= j < k ==> (#[trigger] results[j]).id@ != catalogue()[i].id,
    ensures
        merged(results)[i].listed == catalogue()[i],
        merged(results)[i].available == results[k].available,
        results[k].available ==> merged(results)[i].detail is None && merged(results)[i].input
            == results[k].input,
        !results[k].available && results[k].detail is Some ==> merged(results)[i].detail == Some(
            results[k].detail->0@,
        ),
        !results[k].available && results[k].detail is None ==> merged(results)[i].detail == Some(
            "unavailable"@,
        ),
        !results[k].available ==> merged(results)[i].input is None,
{
    let named = |r: ProbeResult| r.id@ == catalogue()[i].id;
    first_where_is_first(results, named);
    let found = first_where(results, named);
    assert(named(results[k]));
    if found is None {
        assert(!named(results[k]));
    } else if found->0 < k {
        assert(named(results[found->0]));
    } else if found->0 > k {
        assert(!named(results[k]));
    }
}

/// What was not probed is shown as such, and after a probe that failed
/// everything is shown with the reason.
pub proof fn what_was_not_probed_is_shown_as_such(
    results: Seq<ProbeResult>,
    reason: Seq<char>,
    i: int,
)
    requires
        0 <= i < catalogue().len(),
        forall|j: int| 0 <= j < results.len() ==> (#[trigger] results[j]).id@ != catalogue()[i].id,
    ensures
        !merged(results)[i].available,
        merged(results)[i].detail == Some("not probed"@),
        all_unavailable(reason).len() == 16,
        all_unavailable(reason)[i].listed == catalogue()[i],
        !all_unavailable(reason)[i].available,
        all_unavailable(reason)[i].detail == Some(reason),
{
    let named = |r: ProbeResult| r.id@ == catalogue()[i].id;
    first_where_is_first(results, named);
    if first_where(results, named) is Some {
        assert(named(results[first_where(results, named)->0]));
    }
}

/// A choice comes to the encoder that was chosen where one of that name works;
/// else to the automatic one, and that counts as falling back only where there
/// was something to fall back from.  Without either nothing is opened.
pub proof fn a_choice_comes_to_a_working_encoder(
    report: Report,
    choice: Option<Seq<char>>,
    k: int,
)
    requires
        0 <= k < report.encoders.len(),
    ensures
        choice is Some && report.encoders[k].listed.id == choice->0
            && report.encoders[k].available ==> resolved_choice(report, choice) == Some(
            (choice->0, false),
        ),
        (forall|j: int|
            0 <= j < report.encoders.len() ==> !(choice is Some && (
            #[trigger] report.encoders[j]).listed.id == choice->0 && report.encoders[j].available))
            ==> {
            &&& report.auto_selected is Some ==> resolved_choice(report, choice) == Some(
                (report.auto_selected->0, choice is Some),
            )
            &&& report.auto_selected is None ==> resolved_choice(report, choice) is None
        },
{
    if choice is Some && has_available(report.encoders, choice->0) {
        let j = choose|j: int|
            0 <= j < report.encoders.len() && (#[trigger] report.encoders[j]).listed.id
                == choice->0 && report.encoders[j].available;
        assert(report.encoders[j].available);
    }
}

/// An encoder is opened on the path on which it worked, and without a known one
/// on the path that its kind takes: the vendors' own on the capture device, the
/// D3D12 ones on theirs, OpenH264 in planar system memory, the rest in NV12.
pub proof fn an_encoder_is_opened_on_a_path_it_takes(
    encoders: Seq<Encoder>,
    id: Seq<char>,
    k: int,
)
    requires
        0 <= k < encoders.len(),
        encoders[k].available,
        encoders[k].listed.id == id,
        forall|j: int|
            0 <= j < k ==> !((#[trigger] encoders[j]).available && encoders[j].listed.id == id),
    ensures
        encoders[k].input is Some ==> path_of(encoders, id) == encoders[k].input->0,
        encoders[k].input is None && has_suffix(id, "_nvenc"@) ==> path_of(encoders, id)
            == EncoderInput::HardwareD3d11,
        encoders[k].input is None && has_suffix(id, "_amf"@) ==> path_of(encoders, id)
            == EncoderInput::HardwareD3d11,
        encoders[k].input is None && id == "libopenh264"@ ==> path_of(encoders, id)
            == EncoderInput::SysMemYuv420p,
{
    let works = |e: Encoder| works_as(e, id);
    first_where_is_first(encoders, works);
    assert(works(encoders[k]));
    let found = first_where(encoders, works);
    if found is None {
        assert(!works(encoders[k]));
    } else {
        assert(works(encoders[found->0]));
        if found->0 > k {
            assert(!works(encoders[k]));
        }
    }
    reveal_strlit("libopenh264");
    reveal_strlit("_nvenc");
    reveal_strlit("_amf");
    reveal_strlit("_d3d12va");
    if id == "libopenh264"@ {
        assert(id.len() == 11 && id[10] == '4');
        if has_suffix(id, "_nvenc"@) {
            assert(id.subrange(5, 11)[5] == 'c');
        }
        if has_suffix(id, "_amf"@) {
            assert(id.subrange(7, 11)[3] == 'f');
        }
        if has_suffix(id, "_d3d12va"@) {
            assert(id.subrange(3, 11)[7] == 'a');
        }
    }
}

/// A kept report is used exactly where nobody asks for a fresh one and it is of
/// the machine as it is now.
pub proof fn a_kept_report_is_of_the_machine_as_it_is(
    report: Report,
    refresh: bool,
    signature: Seq<char>,
)
    ensures
        refresh ==> !still_stands(report, refresh, signature),
        !report.supported ==> !still_stands(report, refresh, signature),
        report.gpu_signature != signature ==> !still_stands(report, refresh, signature),
        !refresh && report.supported && report.gpu_signature == signature && signature
            != "gpu-unknown"@ ==> still_stands(report, refresh, signature),
{
}

/// A probed report says that this build can encode, holds what the probe found
/// under the signature and the time it was made, and picks from just that.
pub proof fn a_probed_report_holds_what_was_found(
    outcome: Result<Vec<ProbeResult>, String>,
    signature: Seq<char>,
    probed_at: int,
)
    ensures
        ({
            let report = probed_report(outcome, signature, probed_at);
            &&& report.supported
            &&& report.gpu_signature == signature
            &&& report.probed_at == probed_at
            &&& report.auto_selected == auto_choice(report.encoders)
            &&& outcome is Ok ==> report.encoders == merged(outcome->Ok_0@)
            &&& outcome is Err ==> report.encoders == all_unavailable(outcome->Err_0@)
        }),
        ({
            let report = unsupported_report(signature);
            &&& !report.supported
            &&& report.auto_selected is None
            &&& report.encoders == all_unavailable(signature)
        }),
{
}

/// An entry says what it holds, and a report holds its entries in order.
pub proof fn an_entry_says_what_it_holds(e: EncoderInfo, report: EncoderReport, i: int)
    ensures
        e@.listed.id == e.id@,
        e@.listed.display_name == e.display_name@,
        e@.listed.codec == e.codec@,
        e@.listed.is_hardware == e.is_hardware,
        e@.available == e.available,
        e@.input == e.input,
        e@.detail == text_view(e.detail),
        report@.supported == report.supported,
        report@.auto_selected == text_view(report.auto_selected),
        report@.gpu_signature == report.gpu_signature@,
        report@.probed_at == report.probed_at,
        report@.encoders.len() == report.encoders@.len(),
        0 <= i < report.encoders@.len() ==> report@.encoders[i] == report.encoders@[i]@,
{
}

/// A text that may be absent is shown as it is.
pub proof fn an_optional_text_is_shown_as_it_is(text: String)
    ensures
        text_view(Some(text)) == Some(text@),
        text_view(None) is None,
{
}

/// A build without native encoding says so: nothing in it is available, nothing
/// is picked, and nothing was probed on any machine.
pub proof fn an_unsupported_build_says_so(reason: Seq<char>, i: int)
    ensures
        !unsupported_report(reason).supported,
        unsupported_report(reason).auto_selected is None,
        unsupported_report(reason).gpu_signature.len() == 0,
        unsupported_report(reason).probed_at == 0,
        unsupported_report(reason).encoders.len() == catalogue().len(),
        0 <= i < catalogue().len() ==> {
            &&& unsupported_report(reason).encoders[i].listed == catalogue()[i]
            &&& !unsupported_report(reason).encoders[i].available
            &&& unsupported_report(reason).encoders[i].detail == Some(reason)
            &&& unsupported_report(reason).encoders[i].input is None
        },
{
}

} // verus!
