//! Graphics signature used as the encoder-cache key.
//!
//! Probe results are only valid for the hardware and drivers they were
//! measured on.  The adapters give a cheap fingerprint covering both: swapping
//! a card changes its identifiers, and a driver update changes the driver's
//! version.
//!
//! Failure is not an error: where the adapters cannot be enumerated the
//! signature is a marker that never matches a cached one, so the encoders are
//! probed again instead of trusting stale results.

use sha2::{Digest, Sha256};
use vstd::prelude::*;

use crate::text::{
    before_zero, concat2, contains, has_part, hex, hex_bytes, hex_of_bytes, hex_of_bytes_length,
    hex_padded, hex_text, join, joined, signed_decimal, signed_text, texts, trim, trimmed,
    units_before_zero, utf16_lossy, utf16_text, zero_padded,
};

verus! {

/// The signature where the adapters cannot be enumerated, or there is none.
pub const UNKNOWN: &'static str = "gpu-unknown";

/// What is known of one adapter.
#[derive(Debug, Clone)]
pub struct AdapterFacts {
    /// Its description, as a zero-padded UTF-16 field.
    pub description: Vec<u16>,
    /// The vendor's identifier.
    pub vendor_id: u32,
    /// The device's identifier.
    pub device_id: u32,
    /// The high part of its locally unique identifier.
    pub luid_high: i32,
    /// The low part of its locally unique identifier.
    pub luid_low: u32,
    /// The user-mode driver's version, or 0 where it cannot be determined.
    pub driver_version: i64,
}

/// The bits of a signed number, read as an unsigned one.
pub open spec fn unsigned_bits(n: i32) -> nat {
    if n < 0 {
        (n + 0x1_0000_0000) as nat
    } else {
        n as nat
    }
}

/// The description of one adapter, or none for the software renderer, which
/// has no video encoder and must not perturb the signature of real adapters.
pub open spec fn adapter_text(a: AdapterFacts) -> Option<Seq<char>> {
    let name = utf16_text(before_zero(a.description@));
    if has_part(name, "Basic Render Driver"@) {
        None
    } else {
        Some(
            trimmed(name) + "|"@ + zero_padded(hex_text(a.vendor_id as nat), 4) + ":"@
                + zero_padded(hex_text(a.device_id as nat), 4) + "|"@ + hex_text(
                unsigned_bits(a.luid_high),
            ) + ":"@ + hex_text(a.luid_low as nat) + "|drv="@ + signed_text(
                a.driver_version as int,
            ),
        )
    }
}

/// The descriptions of the adapters that have one, in order.
pub open spec fn adapter_texts(adapters: Seq<AdapterFacts>) -> Seq<Seq<char>>
    decreases adapters.len(),
{
    if adapters.len() == 0 {
        Seq::empty()
    } else {
        match adapter_text(adapters.last()) {
            Some(text) => adapter_texts(adapters.drop_last()).push(text),
            None => adapter_texts(adapters.drop_last()),
        }
    }
}

/// Describe one adapter, or `None` for the software renderer.
pub fn describe_adapter(a: &AdapterFacts) -> (r: Option<String>)
    ensures
        match adapter_text(*a) {
            Some(text) => r is Some && r->0@ == text,
            None => r is None,
        },
{
    let units = units_before_zero(&a.description);
    let name = utf16_lossy(&units);
    if contains(name.as_str(), "Basic Render Driver") {
        return None;
    }
    let mut out = trim(name.as_str());
    out.append("|");
    out.append(hex_padded(a.vendor_id as u64, 4).as_str());
    out.append(":");
    out.append(hex_padded(a.device_id as u64, 4).as_str());
    out.append("|");
    let high: u64 = if a.luid_high < 0 {
        (a.luid_high as i64 + 0x1_0000_0000) as u64
    } else {
        a.luid_high as u64
    };
    out.append(hex(high).as_str());
    out.append(":");
    out.append(hex(a.luid_low as u64).as_str());
    out.append("|drv=");
    out.append(signed_decimal(a.driver_version).as_str());
    Some(out)
}

/// Build the raw descriptor text for every hardware adapter.
pub fn describe_adapters(adapters: &Vec<AdapterFacts>) -> (r: String)
    ensures
        r@ == joined(adapter_texts(adapters@), ";"@),
{
    let mut parts: Vec<String> = Vec::new();
    let mut i: usize = 0;
    assert(texts(parts@) =~= Seq::empty());
    while i < adapters.len()
        invariant
            i <= adapters.len(),
            texts(parts@) == adapter_texts(adapters@.subrange(0, i as int)),
        decreases adapters.len() - i,
    {
        let ghost upto = adapters@.subrange(0, i + 1);
        assert(upto.drop_last() =~= adapters@.subrange(0, i as int));
        assert(upto.last() == adapters@[i as int]);
        let ghost before = parts@;
        if let Some(text) = describe_adapter(&adapters[i]) {
            let ghost t = text@;
            parts.push(text);
            assert(texts(parts@) =~= texts(before).push(t));
        }
        i += 1;
    }
    assert(adapters@.subrange(0, adapters@.len() as int) =~= adapters@);
    join(&parts, ";")
}

/// The SHA-256 digest of some bytes.
pub uninterp spec fn sha256_digest(data: Seq<u8>) -> Seq<u8>;

/// `Sha256::digest` of the `sha2` crate: the digest of the bytes, which is
/// 32 bytes long.
#[verifier::external_body]
fn sha256(data: &[u8]) -> (r: Vec<u8>)
    ensures
        r@ == sha256_digest(data@),
        r@.len() == 32,
{
    Sha256::digest(data).to_vec()
}

/// The signature of a machine whose adapters are described by this text, with
/// the digest of the text's bytes.
pub open spec fn signature_text(described: Option<Seq<char>>, digest: Seq<u8>) -> Seq<char> {
    if described is Some && described->0.len() > 0 {
        "gpu-"@ + hex_of_bytes(digest)
    } else {
        UNKNOWN@
    }
}

/// The signature from the digest of a description.
pub fn signature_of_digest(described: bool, digest: &Vec<u8>) -> (r: String)
    ensures
        r@ == if described {
            "gpu-"@ + hex_of_bytes(digest@)
        } else {
            UNKNOWN@
        },
{
    if described {
        let digits = hex_bytes(digest);
        concat2("gpu-", digits.as_str())
    } else {
        UNKNOWN.to_owned()
    }
}

/// A short, stable fingerprint of this machine's graphics configuration.
///
/// `described` is the descriptor text of the adapters, or `None` where they
/// could not be enumerated.  Hashed rather than stored verbatim: the raw text
/// runs to a few hundred bytes and lands in a file the user may read.
pub fn signature(described: &Option<String>) -> (r: String)
    ensures
        r@ == match described {
            None => UNKNOWN@,
            Some(text) => signature_text(
                Some(text@),
                sha256_digest(vstd::utf8::encode_utf8(text@)),
            ),
        },
{
    match described {
        Some(text) => {
            if text.as_str().is_empty() {
                let none: Vec<u8> = Vec::new();
                signature_of_digest(false, &none)
            } else {
                let digest = sha256(text.as_str().as_bytes());
                signature_of_digest(true, &digest)
            }
        },
        None => {
            let none: Vec<u8> = Vec::new();
            signature_of_digest(false, &none)
        },
    }
}

/// A signature that is a digest is never the marker of an unknown machine.
pub proof fn a_digest_is_never_the_unknown_marker(digest: Seq<u8>)
    requires
        digest.len() == 32,
    ensures
        "gpu-"@ + hex_of_bytes(digest) != UNKNOWN@,
{
    reveal_strlit("gpu-");
    reveal_strlit("gpu-unknown");
    hex_of_bytes_length(digest);
    assert(("gpu-"@ + hex_of_bytes(digest)).len() == 68);
    assert(UNKNOWN@.len() == 11);
}

/// The description of an adapter names it, its vendor and device, where it sits
/// and its driver, in that order; the software renderer has none.
pub proof fn an_adapter_is_described_by_its_parts(a: AdapterFacts)
    ensures
        ({
            let name = utf16_text(before_zero(a.description@));
            &&& has_part(name, "Basic Render Driver"@) ==> adapter_text(a) is None
            &&& !has_part(name, "Basic Render Driver"@) && a.luid_high >= 0 ==> adapter_text(a)
                == Some(
                trimmed(name) + "|"@ + zero_padded(hex_text(a.vendor_id as nat), 4) + ":"@
                    + zero_padded(hex_text(a.device_id as nat), 4) + "|"@ + hex_text(
                    a.luid_high as nat,
                ) + ":"@ + hex_text(a.luid_low as nat) + "|drv="@ + signed_text(
                    a.driver_version as int,
                ),
            )
            &&& !has_part(name, "Basic Render Driver"@) && a.luid_high < 0 ==> adapter_text(a)
                == Some(
                trimmed(name) + "|"@ + zero_padded(hex_text(a.vendor_id as nat), 4) + ":"@
                    + zero_padded(hex_text(a.device_id as nat), 4) + "|"@ + hex_text(
                    (0x1_0000_0000 + a.luid_high) as nat,
                ) + ":"@ + hex_text(a.luid_low as nat) + "|drv="@ + signed_text(
                    a.driver_version as int,
                ),
            )
        }),
{
}

/// Adapters are described in order, and the software renderer changes nothing.
pub proof fn adapters_are_described_in_order(adapters: Seq<AdapterFacts>, next: AdapterFacts)
    ensures
        adapter_texts(Seq::empty()).len() == 0,
        adapter_text(next) is Some ==> adapter_texts(adapters.push(next)) == adapter_texts(
            adapters,
        ).push(adapter_text(next)->0),
        adapter_text(next) is None ==> adapter_texts(adapters.push(next)) == adapter_texts(adapters),
{
    assert(adapters.push(next).drop_last() =~= adapters);
}

/// A machine that was described is known by the digest of its description; one
/// that was not, or has nothing to describe, by the marker that matches nothing.
pub proof fn a_machine_is_known_by_its_digest(text: Seq<char>, digest: Seq<u8>)
    ensures
        text.len() > 0 ==> signature_text(Some(text), digest) == "gpu-"@ + hex_of_bytes(digest),
        text.len() == 0 ==> signature_text(Some(text), digest) == "gpu-unknown"@,
        signature_text(None, digest) == "gpu-unknown"@,
{
}

} // verus!
