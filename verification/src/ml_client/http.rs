//! The two ends of a request to the verifier: the address and the body that
//! go out, and the verdict or the error that what came back stands for.
//! Sending is the caller's part.

use crate::text;
use crate::text::{hex_encode, trim_end_char, trim_start_char};
use crate::types::{Aid, EvidenceHash, EvidenceRef, EvidenceRefView, Hash256, WmProfile};
use crate::validation::ml::{MlError, MlErrorView, MlVerdict};
use vstd::prelude::*;
use vstd::string::StringExecFns;

verus! {

/// The address of `path` under `base_url`: the two joined by one slash,
/// whatever slashes end the one and start the other.
pub open spec fn endpoint_of(base_url: Seq<char>, path: Seq<char>) -> Seq<char> {
    text::without_trailing(base_url, '/') + seq!['/'] + text::without_leading(path, '/')
}

/// The address of `path` under `base_url`.
pub fn endpoint(base_url: &str, path: &str) -> (url: String)
    ensures
        url@ == endpoint_of(base_url@, path@),
{
    proof {
        reveal_strlit("/");
    }
    let url = String::from_str(trim_end_char(base_url, '/')).concat("/").concat(
        trim_start_char(path, '/'),
    );
    assert("/"@ =~= seq!['/']);
    url
}

/// A digest in lower-case hexadecimal, without prefix.
pub fn hash256_to_hex(h: &Hash256) -> (s: String)
    ensures
        s@ == text::hex_of(h@),
        s@.len() == 64,
{
    hex_encode(h.as_bytes().as_slice())
}

/// An artefact identifier in lower-case hexadecimal.
pub fn aid_to_hex(aid: &Aid) -> (s: String)
    ensures
        s@ == text::hex_of(aid.0@),
        s@.len() == 64,
{
    hash256_to_hex(aid.as_hash())
}

/// An evidence hash in lower-case hexadecimal.
pub fn evidence_hash_to_hex(eh: &EvidenceHash) -> (s: String)
    ensures
        s@ == text::hex_of(eh.0@),
        s@.len() == 64,
{
    hash256_to_hex(eh.as_hash())
}

/// What a [`VerifyRequest`] holds, as plain values.
pub ghost struct VerifyRequestView {
    pub aid: Seq<char>,
    pub scheme_id: Seq<char>,
    pub evidence_hash: Seq<char>,
    pub wm_profile: WmProfile,
}

/// The body of a request to the verifier.
#[derive(Debug)]
pub struct VerifyRequest {
    /// The artefact identifier, in hexadecimal.
    pub aid: String,
    /// The tag of the watermarking scheme.
    pub scheme_id: String,
    /// The evidence hash, in hexadecimal.
    pub evidence_hash: String,
    /// The profile of the scheme.
    pub wm_profile: WmProfile,
}

impl View for VerifyRequest {
    type V = VerifyRequestView;

    open spec fn view(&self) -> VerifyRequestView {
        VerifyRequestView {
            aid: self.aid@,
            scheme_id: self.scheme_id@,
            evidence_hash: self.evidence_hash@,
            wm_profile: self.wm_profile,
        }
    }
}

/// The body that asks for the verdict on `aid` under `evidence`.
pub open spec fn request_of(aid: Aid, evidence: EvidenceRefView) -> VerifyRequestView {
    VerifyRequestView {
        aid: text::hex_of(aid.0@),
        scheme_id: evidence.scheme_id,
        evidence_hash: text::hex_of(evidence.evidence_hash.0@),
        wm_profile: evidence.wm_profile,
    }
}

/// Builds the body that asks for the verdict on `aid` under `evidence`.
pub fn verify_request(aid: &Aid, evidence: &EvidenceRef) -> (req: VerifyRequest)
    ensures
        req@ == request_of(*aid, evidence@),
{
    VerifyRequest {
        aid: aid_to_hex(aid),
        scheme_id: evidence.scheme_id.clone(),
        evidence_hash: evidence_hash_to_hex(&evidence.evidence_hash),
        wm_profile: evidence.wm_profile,
    }
}

/// The body of the verifier's answer. The measurements are bit patterns of
/// 32-bit floats.
#[derive(Clone, Copy, Debug)]
pub struct VerifyResponse {
    pub ok: bool,
    pub trigger_acc: Option<u32>,
    pub feat_dist: Option<u32>,
    pub logit_stat: Option<u32>,
    pub latency_ms: Option<u64>,
}

/// What came back from sending a request.
#[derive(Debug)]
pub enum Reply {
    /// Nothing came back; why.
    Failed(String),
    /// An answer came back: its status code, the status as the answer words
    /// it, and the body, or why the body could not be read.
    Answered { status: u16, status_text: String, body: Result<VerifyResponse, String> },
}

/// What a [`Reply`] holds, as plain values.
pub ghost enum ReplyView {
    Failed(Seq<char>),
    Answered { status: u16, status_text: Seq<char>, body: Result<VerifyResponse, Seq<char>> },
}

impl View for Reply {
    type V = ReplyView;

    open spec fn view(&self) -> ReplyView {
        match *self {
            Reply::Failed(m) => ReplyView::Failed(m@),
            Reply::Answered { status, status_text, body } => ReplyView::Answered {
                status,
                status_text: status_text@,
                body: match body {
                    Ok(b) => Ok(b),
                    Err(m) => Err(m@),
                },
            },
        }
    }
}

/// What a reply from `url` means: no reply is a transport error, a status
/// of 400 or above a refusal of the service, an unreadable body a protocol
/// error, and a body its verdict.
pub open spec fn verdict_of(url: Seq<char>, reply: ReplyView) -> Result<MlVerdict, MlErrorView> {
    match reply {
        ReplyView::Failed(m) => Err(
            MlErrorView::Transport("HTTP POST "@ + url + " failed: "@ + m),
        ),
        ReplyView::Answered { status, status_text, body } => if status >= 400 {
            Err(MlErrorView::Service("ML service returned HTTP status "@ + status_text))
        } else {
            match body {
                Err(m) => Err(MlErrorView::Protocol("failed to parse JSON response: "@ + m)),
                Ok(b) => Ok(
                    MlVerdict {
                        ok: b.ok,
                        trigger_acc: b.trigger_acc,
                        feat_dist: b.feat_dist,
                        logit_stat: b.logit_stat,
                        latency_ms: b.latency_ms,
                    },
                ),
            }
        },
    }
}

/// Says what a reply from `url` means.
pub fn interpret_reply(url: &str, reply: Reply) -> (r: Result<MlVerdict, MlError>)
    ensures
        crate::validation::ml::answer_of(r) == verdict_of(url@, reply@),
{
    match reply {
        Reply::Failed(m) => Err(
            MlError::Transport(
                String::from_str("HTTP POST ").concat(url).concat(" failed: ").concat(m.as_str()),
            ),
        ),
        Reply::Answered { status, status_text, body } => {
            if status >= 400 {
                Err(
                    MlError::Service(
                        String::from_str("ML service returned HTTP status ").concat(
                            status_text.as_str(),
                        ),
                    ),
                )
            } else {
                match body {
                    Err(m) => Err(
                        MlError::Protocol(
                            String::from_str("failed to parse JSON response: ").concat(m.as_str()),
                        ),
                    ),
                    Ok(b) => Ok(
                        MlVerdict {
                            ok: b.ok,
                            trigger_acc: b.trigger_acc,
                            feat_dist: b.feat_dist,
                            logit_stat: b.logit_stat,
                            latency_ms: b.latency_ms,
                        },
                    ),
                }
            }
        },
    }
}

} // verus!
