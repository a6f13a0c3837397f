//! What two ends of a connection tell each other: candidates and answers.

use rtc::peer_connection::sdp::RTCSessionDescription;
use rtc::peer_connection::transport::RTCIceCandidateInit;
use vstd::prelude::*;

use crate::media::encoder::text_view;
use crate::media::settings::outcome_is;
use crate::text::concat2;

verus! {

/// A way to reach one end.
#[derive(Debug, PartialEq, Eq)]
pub struct Candidate {
    /// The address, as an SDP attribute.
    pub candidate: String,
    /// The media section, by name.
    pub sdp_mid: Option<String>,
    /// The media section, by number.
    pub sdp_mline_index: Option<u16>,
    /// The user name's fragment.
    pub username_fragment: Option<String>,
    /// The server by which it was found.
    pub url: Option<String>,
}

/// What a candidate says.
#[verifier::ext_equal]
pub struct Address {
    /// The address.
    pub candidate: Seq<char>,
    /// The media section, by name.
    pub sdp_mid: Option<Seq<char>>,
    /// The media section, by number.
    pub sdp_mline_index: Option<u16>,
    /// The user name's fragment.
    pub username_fragment: Option<Seq<char>>,
    /// The server by which it was found.
    pub url: Option<Seq<char>>,
}

impl View for Candidate {
    type V = Address;

    open spec fn view(&self) -> Address {
        Address {
            candidate: self.candidate@,
            sdp_mid: text_view(self.sdp_mid),
            sdp_mline_index: self.sdp_mline_index,
            username_fragment: text_view(self.username_fragment),
            url: text_view(self.url),
        }
    }
}

/// The candidate that a JSON text stands for, or why it stands for none.
pub uninterp spec fn candidate_reading(text: Seq<char>) -> Result<Address, Seq<char>>;

/// `serde_json::from_str` into an `RTCIceCandidateInit`: the candidate that a
/// JSON text stands for.
#[verifier::external_body]
fn parse_candidate(text: &str) -> (r: Result<Candidate, String>)
    ensures
        match r {
            Ok(c) => candidate_reading(text@) == Ok::<Address, Seq<char>>(c@),
            Err(e) => candidate_reading(text@) == Err::<Address, Seq<char>>(e@),
        },
{
    let c: RTCIceCandidateInit = serde_json::from_str(text).map_err(|e| e.to_string())?;
    Ok(
        Candidate {
            candidate: c.candidate,
            sdp_mid: c.sdp_mid,
            sdp_mline_index: c.sdp_mline_index,
            username_fragment: c.username_fragment,
            url: c.url,
        },
    )
}

/// The JSON text that stands for a candidate, where there is one.
pub uninterp spec fn candidate_json(c: Address) -> Option<Seq<char>>;

/// `serde_json::to_string` of an `RTCIceCandidateInit`: the JSON text that
/// stands for a candidate.
#[verifier::external_body]
fn write_candidate(c: Candidate) -> (r: Option<String>)
    ensures
        text_view(r) == candidate_json(c@),
{
    let init = RTCIceCandidateInit {
        candidate: c.candidate,
        sdp_mid: c.sdp_mid,
        sdp_mline_index: c.sdp_mline_index,
        username_fragment: c.username_fragment,
        url: c.url,
    };
    serde_json::to_string(&init).ok()
}

/// Why a text is no answer, where it is none.
pub uninterp spec fn answer_error(sdp: Seq<char>) -> Option<Seq<char>>;

/// `RTCSessionDescription::answer`: whether the text can be read as an answer.
#[verifier::external_body]
fn parse_answer(sdp: &str) -> (r: Option<String>)
    ensures
        text_view(r) == answer_error(sdp@),
{
    RTCSessionDescription::answer(sdp.to_owned()).err().map(|e| e.to_string())
}

/// Read the far end's candidate.
pub fn read_candidate(text: &str) -> (r: Result<Candidate, String>)
    ensures
        match candidate_reading(text@) {
            Ok(c) => r is Ok && r->Ok_0@ == c,
            Err(e) => r is Err && r->Err_0@ == "malformed ICE candidate: "@ + e,
        },
{
    match parse_candidate(text) {
        Ok(c) => Ok(c),
        Err(e) => Err(concat2("malformed ICE candidate: ", e.as_str())),
    }
}

/// The candidate as the far end needs it.
pub open spec fn for_the_far_end(c: Address) -> Address {
    Address { sdp_mid: None, ..c }
}

/// The candidate as the far end needs it: its media section is named by number
/// only, because the empty name that it is found with stands for no section.
pub fn without_mid(c: Candidate) -> (r: Candidate)
    ensures
        r@ == for_the_far_end(c@),
{
    let mut c = c;
    c.sdp_mid = None;
    c
}

/// The text that tells the far end of a candidate of ours, where it can be
/// written.
pub fn outgoing_candidate(c: Candidate) -> (r: Option<String>)
    ensures
        text_view(r) == candidate_json(for_the_far_end(c@)),
{
    write_candidate(without_mid(c))
}

/// The error for an answer that cannot be read.
pub open spec fn malformed_answer(e: Option<Seq<char>>) -> Option<Seq<char>> {
    match e {
        Some(e) => Some("malformed answer: "@ + e),
        None => None,
    }
}

/// The outcome of reading an answer that came with this error, if any.
pub fn answer_outcome(e: Option<String>) -> (r: Result<(), String>)
    ensures
        outcome_is(r, malformed_answer(text_view(e))),
{
    match e {
        Some(e) => Err(concat2("malformed answer: ", e.as_str())),
        None => Ok(()),
    }
}

/// Whether the far end's answer can be read.
pub fn check_answer(sdp: &str) -> (r: Result<(), String>)
    ensures
        outcome_is(r, malformed_answer(answer_error(sdp@))),
{
    answer_outcome(parse_answer(sdp))
}

/// The far end gets a candidate as it was found but for the name of its media
/// section, which is left out.
pub proof fn a_candidate_goes_out_without_its_name(c: Address)
    ensures
        for_the_far_end(c).sdp_mid is None,
        for_the_far_end(c).candidate == c.candidate,
        for_the_far_end(c).sdp_mline_index == c.sdp_mline_index,
        for_the_far_end(c).username_fragment == c.username_fragment,
        for_the_far_end(c).url == c.url,
{
}

/// An answer is refused exactly where it cannot be read, with the reason.
pub proof fn an_unreadable_answer_is_refused(e: Seq<char>)
    ensures
        malformed_answer(Some(e)) == Some("malformed answer: "@ + e),
        malformed_answer(None) is None,
{
}

/// A candidate says what it holds.
pub proof fn a_candidate_says_what_it_holds(c: Candidate)
    ensures
        c@.candidate == c.candidate@,
        c@.sdp_mid == text_view(c.sdp_mid),
        c@.sdp_mline_index == c.sdp_mline_index,
        c@.username_fragment == text_view(c.username_fragment),
        c@.url == text_view(c.url),
{
}

} // verus!
