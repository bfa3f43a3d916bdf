//! The result store: the single slot that keeps the last saved transcript.
//!
//! The driver reads and writes the file; this module lays the record out in
//! bytes, reads it back, and says what a read or a write came to.

use crate::state::JobId;
use vstd::bytes::*;
use vstd::prelude::*;
use vstd::slice::*;
use vstd::string::*;
use vstd::utf8::*;

verus! {

/// The saved artifact of one completed job.
#[derive(Clone, Debug, PartialEq, Eq)]
pub struct PersistedTranscript {
    pub job_id: JobId,
    pub text: String,
    pub created_at: u64,
}

pub struct PersistedTranscriptView {
    pub job_id: JobId,
    pub text: Seq<char>,
    pub created_at: u64,
}

impl View for PersistedTranscript {
    type V = PersistedTranscriptView;

    open spec fn view(&self) -> PersistedTranscriptView {
        PersistedTranscriptView {
            job_id: self.job_id,
            text: self.text@,
            created_at: self.created_at,
        }
    }
}

/// Why the store could not serve.
#[derive(Clone, Debug, PartialEq, Eq)]
pub enum StoreError {
    /// The artifact is there but could not be read.
    ReadFailed { reason: String },
    /// The artifact was read and is no record.
    Corrupt,
    /// The artifact could not be written or moved into place.
    WriteFailed { reason: String },
}

pub enum StoreErrorView {
    ReadFailed { reason: Seq<char> },
    Corrupt,
    WriteFailed { reason: Seq<char> },
}

impl View for StoreError {
    type V = StoreErrorView;

    open spec fn view(&self) -> StoreErrorView {
        match *self {
            StoreError::ReadFailed { reason } => StoreErrorView::ReadFailed { reason: reason@ },
            StoreError::Corrupt => StoreErrorView::Corrupt,
            StoreError::WriteFailed { reason } => StoreErrorView::WriteFailed { reason: reason@ },
        }
    }
}

impl StoreErrorView {
    /// The error in words: the reason that came with it, where one did.
    pub open spec fn describe(self) -> Seq<char> {
        match self {
            StoreErrorView::ReadFailed { reason } => reason,
            StoreErrorView::Corrupt => "corrupt artifact"@,
            StoreErrorView::WriteFailed { reason } => reason,
        }
    }
}

impl StoreError {
    pub fn describe(&self) -> (text: String)
        ensures
            text@ == self@.describe(),
    {
        match self {
            StoreError::ReadFailed { reason } => reason.clone(),
            StoreError::Corrupt => "corrupt artifact".to_owned(),
            StoreError::WriteFailed { reason } => reason.clone(),
        }
    }
}

/// What the driver found at the artifact's location.
#[derive(Clone, Debug, PartialEq, Eq)]
pub enum ReadOutcome {
    /// Nothing was ever saved there.
    Absent,
    /// Something is there and reading it failed.
    Failed { reason: String },
    /// The artifact's bytes.
    Found { bytes: Vec<u8> },
}

pub enum ReadOutcomeView {
    Absent,
    Failed { reason: Seq<char> },
    Found { bytes: Seq<u8> },
}

impl View for ReadOutcome {
    type V = ReadOutcomeView;

    open spec fn view(&self) -> ReadOutcomeView {
        match *self {
            ReadOutcome::Absent => ReadOutcomeView::Absent,
            ReadOutcome::Failed { reason } => ReadOutcomeView::Failed { reason: reason@ },
            ReadOutcome::Found { bytes } => ReadOutcomeView::Found { bytes: bytes@ },
        }
    }
}

/// How the driver is to write a record so that no reader ever sees a part
/// of it: all of `bytes` to `scratch_path`, then that file moved over
/// `final_path`.
#[derive(Clone, Debug, PartialEq, Eq)]
pub struct SavePlan {
    pub scratch_path: String,
    pub final_path: String,
    pub bytes: Vec<u8>,
}

pub struct SavePlanView {
    pub scratch_path: Seq<char>,
    pub final_path: Seq<char>,
    pub bytes: Seq<u8>,
}

impl View for SavePlan {
    type V = SavePlanView;

    open spec fn view(&self) -> SavePlanView {
        SavePlanView {
            scratch_path: self.scratch_path@,
            final_path: self.final_path@,
            bytes: self.bytes@,
        }
    }
}

/// Where the artifact lives.
pub open spec fn artifact_path_spec() -> Seq<char> {
    "output.json"@
}

/// Where a new artifact is written before it takes the old one's place.
pub open spec fn scratch_path_spec() -> Seq<char> {
    "output.json.tmp"@
}

/// The plan for saving a record: its layout, by way of the scratch file,
/// into the one slot.
pub open spec fn plan_spec(record: PersistedTranscriptView) -> SavePlanView {
    SavePlanView {
        scratch_path: scratch_path_spec(),
        final_path: artifact_path_spec(),
        bytes: encode_spec(record),
    }
}

/// The length of the fixed part of a record: two little-endian `u64`.
pub open spec fn header_len() -> int {
    16
}

/// The layout of a record: the job's id, the creation time, each as eight
/// little-endian bytes, then the text in UTF-8 to the end.
pub open spec fn encode_spec(record: PersistedTranscriptView) -> Seq<u8> {
    spec_u64_to_le_bytes(record.job_id.0) + spec_u64_to_le_bytes(record.created_at) + encode_utf8(
        record.text,
    )
}

/// The record that bytes hold, if they hold one: a full header followed by
/// well-formed UTF-8.
pub open spec fn decode_spec(bytes: Seq<u8>) -> Option<PersistedTranscriptView> {
    if bytes.len() >= header_len() && valid_utf8(bytes.subrange(header_len(), bytes.len() as int)) {
        Some(
            PersistedTranscriptView {
                job_id: JobId(spec_u64_from_le_bytes(bytes.subrange(0, 8))),
                text: decode_utf8(bytes.subrange(header_len(), bytes.len() as int)),
                created_at: spec_u64_from_le_bytes(bytes.subrange(8, header_len())),
            },
        )
    } else {
        None
    }
}

pub open spec fn record_view(r: Option<PersistedTranscript>) -> Option<PersistedTranscriptView> {
    match r {
        Some(record) => Some(record@),
        None => None,
    }
}

/// What a read comes to: nothing saved is no error, an unreadable artifact
/// and one that holds no record are.
pub open spec fn load_spec(read: ReadOutcomeView) -> Result<
    Option<PersistedTranscriptView>,
    StoreErrorView,
> {
    match read {
        ReadOutcomeView::Absent => Ok(None),
        ReadOutcomeView::Failed { reason } => Err(StoreErrorView::ReadFailed { reason }),
        ReadOutcomeView::Found { bytes } => match decode_spec(bytes) {
            Some(record) => Ok(Some(record)),
            None => Err(StoreErrorView::Corrupt),
        },
    }
}

pub open spec fn loaded_view(r: Result<Option<PersistedTranscript>, StoreError>) -> Result<
    Option<PersistedTranscriptView>,
    StoreErrorView,
> {
    match r {
        Ok(found) => Ok(record_view(found)),
        Err(e) => Err(e@),
    }
}

/// Calls `String::from_utf8`. Believed of it: it succeeds exactly on
/// well-formed UTF-8, and the string then holds the characters that the
/// bytes encode.
#[verifier::external_body]
fn text_from_utf8(bytes: Vec<u8>) -> (text: Option<String>)
    ensures
        text is Some <==> valid_utf8(bytes@),
        text matches Some(s) ==> s@ == decode_utf8(bytes@),
{
    String::from_utf8(bytes).ok()
}

/// Reading back what was laid out gives the record again.
pub proof fn lemma_decode_encode(record: PersistedTranscriptView)
    ensures
        decode_spec(encode_spec(record)) == Some(record),
{
    lemma_auto_spec_u64_to_from_le_bytes();
    let id = spec_u64_to_le_bytes(record.job_id.0);
    let at = spec_u64_to_le_bytes(record.created_at);
    let text = encode_utf8(record.text);
    let bytes = encode_spec(record);
    assert(bytes.subrange(0, 8) =~= id);
    assert(bytes.subrange(8, 16) =~= at);
    assert(bytes.subrange(16, bytes.len() as int) =~= text);
    encode_utf8_valid_utf8(record.text);
    encode_utf8_decode_utf8(record.text);
}

/// Bytes that hold a record are exactly that record's layout: no two byte
/// strings hold the same record.
pub proof fn lemma_encode_decode(bytes: Seq<u8>)
    requires
        decode_spec(bytes) is Some,
    ensures
        encode_spec(decode_spec(bytes)->0) == bytes,
{
    lemma_auto_spec_u64_to_from_le_bytes();
    let body = bytes.subrange(16, bytes.len() as int);
    decode_utf8_encode_utf8(body);
    let id = bytes.subrange(0, 8);
    let at = bytes.subrange(8, 16);
    assert(spec_u64_to_le_bytes(spec_u64_from_le_bytes(id)) == id);
    assert(spec_u64_to_le_bytes(spec_u64_from_le_bytes(at)) == at);
    assert(id + at + body =~= bytes);
}

impl PersistedTranscript {
    /// Lays the record out in bytes.
    pub fn encode(&self) -> (bytes: Vec<u8>)
        ensures
            bytes@ == encode_spec(self@),
            decode_spec(bytes@) == Some(self@),
    {
        let mut bytes = u64_to_le_bytes(self.job_id.0);
        let mut stamp = u64_to_le_bytes(self.created_at);
        let mut text = self.text.as_str().as_bytes_vec();
        bytes.append(&mut stamp);
        bytes.append(&mut text);
        proof {
            lemma_decode_encode(self@);
        }
        bytes
    }

    /// Reads a record back from bytes; `None` exactly where they hold none.
    pub fn decode(bytes: &Vec<u8>) -> (record: Option<PersistedTranscript>)
        ensures
            record_view(record) == decode_spec(bytes@),
    {
        if bytes.len() < 16 {
            return None;
        }
        let all = bytes.as_slice();
        let job_id = u64_from_le_bytes(slice_subrange(all, 0, 8));
        let created_at = u64_from_le_bytes(slice_subrange(all, 8, 16));
        let body = slice_to_vec(slice_subrange(all, 16, all.len()));
        match text_from_utf8(body) {
            Some(text) => Some(PersistedTranscript { job_id: JobId(job_id), text, created_at }),
            None => None,
        }
    }
}

pub fn artifact_path() -> (path: String)
    ensures
        path@ == artifact_path_spec(),
{
    "output.json".to_owned()
}

/// Plans the save of a record.
pub fn plan_save(record: &PersistedTranscript) -> (plan: SavePlan)
    ensures
        plan@ == plan_spec(record@),
        decode_spec(plan.bytes@) == Some(record@),
{
    SavePlan {
        scratch_path: "output.json.tmp".to_owned(),
        final_path: artifact_path(),
        bytes: record.encode(),
    }
}

/// Says what a read of the artifact came to.
pub fn load(read: ReadOutcome) -> (loaded: Result<Option<PersistedTranscript>, StoreError>)
    ensures
        loaded_view(loaded) == load_spec(read@),
{
    match read {
        ReadOutcome::Absent => Ok(None),
        ReadOutcome::Failed { reason } => Err(StoreError::ReadFailed { reason }),
        ReadOutcome::Found { bytes } => match PersistedTranscript::decode(&bytes) {
            Some(record) => Ok(Some(record)),
            None => Err(StoreError::Corrupt),
        },
    }
}

} // verus!
