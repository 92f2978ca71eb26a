//! The route orchestrator: one state machine per uploaded part.
//!
//! The machine moves Receiving -> Uploading -> Done. Network-bound work
//! (reading a chunk, the store write) happens outside; each outside outcome
//! comes back as an [`Event`], and [`Orchestrator::step`] answers with the
//! next [`Action`]. The CPU-bound decode/resize/encode sequence runs to
//! completion inside the `BodyEnd` step.

use vstd::prelude::*;
use vstd::string::StringExecFns;

use crate::codec::{codec_for_alpha, extension_for, extension_spec, Codec, ResampleAlg};
use crate::configuration::Config;
use crate::imageio::decode_meta;
use crate::ingest::IngestBuffer;
use crate::processor::{transcode_accepts, transcode_ok, ImageProcessor};
use crate::uploader::{s3_url, s3_url_spec};

verus! {

/// The one failure a request maps to: every pipeline error surfaces as the
/// same fixed status and opaque message, while full detail goes to the
/// server-side log.
#[derive(Clone, Copy, PartialEq, Eq, Structural, Debug)]
pub enum HttpError {
    InternalError,
}

impl HttpError {
    /// The HTTP status this error maps to.
    pub fn status_code(&self) -> (r: u16)
        ensures
            r == 500,
    {
        match *self {
            HttpError::InternalError => 500,
        }
    }

    /// The opaque message sent to the client.
    pub fn message(&self) -> (r: &'static str)
        ensures
            r@ == "An internal error occurred. Please try again later."@,
    {
        match *self {
            HttpError::InternalError => "An internal error occurred. Please try again later.",
        }
    }
}

/// The success payload: the stored object's public URL.
pub struct UploadResponse {
    pub s3_url: String,
}

/// What a finished request answers with.
pub enum ResponseBody {
    Success(UploadResponse),
    Failure(String),
}

/// An HTTP response: status code and body.
pub struct Response {
    pub status: u16,
    pub body: ResponseBody,
}

/// The fixed failure response: status 500 with the opaque message.
pub open spec fn is_failure_response(resp: Response) -> bool {
    &&& resp.status == 500
    &&& resp.body matches ResponseBody::Failure(m) && m@
        == "An internal error occurred. Please try again later."@
}

/// The success response carrying `url`: status 200.
pub open spec fn is_success_response(resp: Response, url: Seq<char>) -> bool {
    &&& resp.status == 200
    &&& resp.body matches ResponseBody::Success(u) && u.s3_url@ == url
}

/// The storage key for a part: the declared file name when one was present,
/// else a generated name whose extension matches the codec path.
pub open spec fn upload_key_spec(declared: Option<String>, codec: Codec) -> Seq<char> {
    match declared {
        Some(name) => name@,
        None => "test."@ + extension_spec(codec),
    }
}

/// Builds the storage key for a part.
pub fn storage_key(declared: &Option<String>, codec: Codec) -> (r: String)
    ensures
        r@ == upload_key_spec(*declared, codec),
{
    match declared {
        Some(name) => name.clone(),
        None => {
            let mut name = String::from_str("test.");
            name.append(extension_for(codec));
            name
        },
    }
}

/// Where a part stands in its pipeline.
#[derive(Clone, Copy, PartialEq, Eq, Structural, Debug)]
pub enum Stage {
    /// Body chunks are still arriving.
    Receiving,
    /// The artifact was handed out for the store write.
    Uploading,
    /// A terminal state was reached: responded or abandoned.
    Done,
}

/// An outside outcome handed to the machine.
pub enum Event {
    /// One body chunk arrived.
    Chunk(Vec<u8>),
    /// The part's body ended.
    BodyEnd,
    /// The client disconnected mid-stream.
    Aborted,
    /// The store write succeeded, with the store's optional entity tag.
    UploadOk(Option<String>),
    /// The store write failed.
    UploadFailed,
}

/// What the caller must do next.
pub enum Action {
    /// Keep streaming: request the next chunk.
    NextChunk,
    /// Write these bytes to the store under this key, then report back.
    StartUpload(Vec<u8>, String),
    /// Send this response; the part is finished.
    Respond(Response),
    /// The client is gone: stop without a response.
    Abandon,
    /// The event does not belong to the current stage; nothing changed.
    Ignore,
}

/// The per-part state machine composing ingest, transcode and upload.
pub struct Orchestrator {
    pub config: Config,
    pub alg: ResampleAlg,
    pub declared_name: Option<String>,
    pub stage: Stage,
    pub buffer: IngestBuffer,
    pub pending_key: Option<String>,
}

/// The fixed failure response.
fn failure_response() -> (r: Response)
    ensures
        is_failure_response(r),
{
    let e = HttpError::InternalError;
    Response { status: e.status_code(), body: ResponseBody::Failure(e.message().to_owned()) }
}

impl Orchestrator {
    /// A fresh machine for one part: receiving, with an empty buffer bounded
    /// by the configured maximum payload size.
    pub fn new(config: Config, alg: ResampleAlg, declared_name: Option<String>) -> (r: Self)
        ensures
            r.stage is Receiving,
            r.buffer.bytes@ == Seq::<u8>::empty(),
            r.buffer.max_bytes == config.max_payload_bytes,
            r.pending_key is None,
            r.config == config,
            r.alg == alg,
            r.declared_name == declared_name,
    {
        let max_bytes = config.max_payload_bytes;
        Orchestrator {
            config,
            alg,
            declared_name,
            stage: Stage::Receiving,
            buffer: IngestBuffer::new(max_bytes),
            pending_key: None,
        }
    }

    /// Feeds one outside outcome to the machine and returns the next action.
    ///
    /// While receiving, a chunk is appended (or the part fails with the
    /// fixed response when it would exceed the payload bound); the body's
    /// end runs the transcoder and either hands the artifact out for upload
    /// under the part's storage key or fails with the fixed response; a
    /// disconnect abandons the part. While uploading, the write's outcome
    /// becomes the success response carrying the derived URL, or the fixed
    /// failure response. Events that do not belong to the current stage are
    /// ignored.
    pub fn step(&mut self, event: Event) -> (r: Action)
        ensures
            final(self).config == old(self).config,
            final(self).alg == old(self).alg,
            final(self).declared_name == old(self).declared_name,
            old(self).stage is Receiving ==> (event matches Event::Chunk(c)
                ==> (if old(self).buffer.bytes@.len() + c@.len() <= old(self).buffer.max_bytes {
                &&& final(self).stage is Receiving
                &&& final(self).buffer.bytes@ == old(self).buffer.bytes@ + c@
                &&& final(self).buffer.max_bytes == old(self).buffer.max_bytes
                &&& r is NextChunk
            } else {
                &&& final(self).stage is Done
                &&& (r matches Action::Respond(resp) && is_failure_response(resp))
            })),
            (old(self).stage is Receiving && event is BodyEnd) ==> ({
                &&& ((r is StartUpload) <==> transcode_accepts(old(self).buffer.bytes@))
                &&& (r matches Action::StartUpload(bytes, key) ==> ({
                    let input = old(self).buffer.bytes@;
                    &&& transcode_ok(
                        input,
                        bytes@,
                        codec_for_alpha(decode_meta(input).unwrap().alpha),
                    )
                    &&& key@ == upload_key_spec(
                        old(self).declared_name,
                        codec_for_alpha(decode_meta(input).unwrap().alpha),
                    )
                    &&& final(self).stage is Uploading
                    &&& (final(self).pending_key matches Some(k) && k@ == key@)
                }))
                &&& (!transcode_accepts(old(self).buffer.bytes@) ==> (final(self).stage is Done
                    && (r matches Action::Respond(resp) && is_failure_response(resp))))
            }),
            ((old(self).stage is Receiving || old(self).stage is Uploading) && event is Aborted)
                ==> (final(self).stage is Done && r is Abandon),
            (old(self).stage is Uploading && event is UploadOk) ==> ({
                &&& final(self).stage is Done
                &&& (old(self).pending_key matches Some(k) ==> (r matches Action::Respond(resp)
                    && is_success_response(
                    resp,
                    s3_url_spec(old(self).config.bucket_name@, old(self).config.region@, k@),
                )))
                &&& (old(self).pending_key is None ==> (r matches Action::Respond(resp)
                    && is_failure_response(resp)))
            }),
            (old(self).stage is Uploading && event is UploadFailed) ==> (final(self).stage
                is Done && (r matches Action::Respond(resp) && is_failure_response(resp))),
            (old(self).stage is Receiving && (event is UploadOk || event is UploadFailed)) ==> (
            *final(self) == *old(self) && r is Ignore),
            (old(self).stage is Uploading && (event is Chunk || event is BodyEnd)) ==> (
            *final(self) == *old(self) && r is Ignore),
            (old(self).stage is Done) ==> (*final(self) == *old(self) && r is Ignore),
    {
        let stage = self.stage;
        match (stage, event) {
            (Stage::Receiving, Event::Chunk(c)) => {
                match self.buffer.push_chunk(&c) {
                    Ok(()) => Action::NextChunk,
                    Err(_) => {
                        self.stage = Stage::Done;
                        Action::Respond(failure_response())
                    },
                }
            },
            (Stage::Receiving, Event::BodyEnd) => {
                let mut taken = IngestBuffer::new(0);
                core::mem::swap(&mut self.buffer, &mut taken);
                let processor = ImageProcessor::new(taken.into_bytes());
                match processor.resize_with(self.alg) {
                    Ok(artifact) => {
                        let key = storage_key(&self.declared_name, artifact.codec);
                        self.pending_key = Some(key.clone());
                        self.stage = Stage::Uploading;
                        Action::StartUpload(artifact.bytes, key)
                    },
                    Err(_) => {
                        self.stage = Stage::Done;
                        Action::Respond(failure_response())
                    },
                }
            },
            (Stage::Receiving, Event::Aborted) => {
                self.stage = Stage::Done;
                Action::Abandon
            },
            (Stage::Uploading, Event::UploadOk(_etag)) => {
                self.stage = Stage::Done;
                match &self.pending_key {
                    Some(key) => {
                        let url = s3_url(
                            self.config.bucket_name.as_str(),
                            self.config.region.as_str(),
                            key.as_str(),
                        );
                        Action::Respond(
                            Response {
                                status: 200,
                                body: ResponseBody::Success(UploadResponse { s3_url: url }),
                            },
                        )
                    },
                    None => Action::Respond(failure_response()),
                }
            },
            (Stage::Uploading, Event::UploadFailed) => {
                self.stage = Stage::Done;
                Action::Respond(failure_response())
            },
            (Stage::Uploading, Event::Aborted) => {
                self.stage = Stage::Done;
                Action::Abandon
            },
            (_, _) => Action::Ignore,
        }
    }
}

} // verus!
