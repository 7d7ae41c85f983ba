//! The gRPC surface: how a streaming inference request becomes a task, and
//! how failures and audio chunks are reported back.

use vstd::prelude::*;
use std::sync::Arc;
use crate::engine::{
    InferenceTask, TaskView, TaskPlan, WorkerPool, plan_for, BackendBodyView, backend_request_spec,
    synthesis_spec,
};
use crate::http::{
    FieldEvent, MultipartEndpoint, collected_task, empty_collector, receive_all,
};

verus! {

/// The payload of an inference request of the `CosyVoice` gRPC service.
pub enum GrpcPayload {
    SftRequest { tts_text: String, spk_id: String },
    ZeroShotRequest { tts_text: String, prompt_text: String, prompt_audio: Vec<u8> },
    CrossLingualRequest { tts_text: String, prompt_audio: Vec<u8> },
    InstructRequest { tts_text: String, spk_id: String, instruct_text: String },
}

/// The gRPC status codes the service answers with.
#[derive(Clone, Copy, Debug, PartialEq, Eq, Structural)]
pub enum GrpcCode {
    InvalidArgument,
    Internal,
}

/// A gRPC error status.
pub struct GrpcStatus {
    pub code: GrpcCode,
    pub message: String,
}

/// One message of the response stream: a chunk of synthesized audio.
pub struct AudioResponse {
    pub tts_audio: Vec<u8>,
}

/// The task a payload asks for.
pub open spec fn payload_task(p: GrpcPayload) -> TaskView {
    match p {
        GrpcPayload::SftRequest { tts_text, spk_id } => TaskView::Sft {
            tts_text: tts_text@,
            spk_id: spk_id@,
        },
        GrpcPayload::ZeroShotRequest { tts_text, prompt_text, prompt_audio } => TaskView::ZeroShot {
            tts_text: tts_text@,
            prompt_text: prompt_text@,
            prompt_audio: prompt_audio@,
        },
        GrpcPayload::CrossLingualRequest { tts_text, prompt_audio } => TaskView::CrossLingual {
            tts_text: tts_text@,
            prompt_audio: prompt_audio@,
        },
        GrpcPayload::InstructRequest { tts_text, spk_id, instruct_text } => TaskView::Instruct {
            tts_text: tts_text@,
            spk_id: spk_id@,
            instruct_text: instruct_text@,
        },
    }
}

/// Every field of a payload reaches the task under its own name: the text to
/// speak is what the native engine speaks and what the backend receives as
/// `tts_text`, and each other field (speaker, prompt transcript, instruction,
/// prompt audio) is what the engine is given and the backend receives under
/// that field's name.
pub proof fn lemma_payload_fields_keep_their_names(backend: Seq<char>, p: GrpcPayload)
    ensures
        ({
            let t = payload_task(p);
            let inputs = synthesis_spec(t);
            let body = backend_request_spec(backend, t).body;
            match p {
                GrpcPayload::SftRequest { tts_text, spk_id } => {
                    &&& inputs.text == tts_text@
                    &&& inputs.speaker == Some(spk_id@)
                    &&& body == BackendBodyView::Form(seq![("tts_text"@, tts_text@), ("spk_id"@, spk_id@)])
                },
                GrpcPayload::ZeroShotRequest { tts_text, prompt_text, prompt_audio } => {
                    &&& inputs.text == tts_text@
                    &&& inputs.reference_text == Some(prompt_text@)
                    &&& inputs.reference_audio == Some(prompt_audio@)
                    &&& body matches BackendBodyView::Multipart { texts, bytes, .. }
                    &&& texts == seq![("tts_text"@, tts_text@), ("prompt_text"@, prompt_text@)]
                    &&& bytes == prompt_audio@
                },
                GrpcPayload::CrossLingualRequest { tts_text, prompt_audio } => {
                    &&& inputs.text == tts_text@
                    &&& inputs.reference_audio == Some(prompt_audio@)
                    &&& body matches BackendBodyView::Multipart { texts, bytes, .. }
                    &&& texts == seq![("tts_text"@, tts_text@)]
                    &&& bytes == prompt_audio@
                },
                GrpcPayload::InstructRequest { tts_text, spk_id, instruct_text } => {
                    &&& inputs.text == tts_text@
                    &&& inputs.speaker == Some(spk_id@)
                    &&& inputs.instruction == Some(instruct_text@)
                    &&& body == BackendBodyView::Form(
                        seq![("tts_text"@, tts_text@), ("spk_id"@, spk_id@), ("instruct_text"@, instruct_text@)],
                    )
                },
            }
        }),
{
}

/// gRPC and HTTP agree: a zero-shot or cross-lingual payload gives the same
/// task as an HTTP multipart request with the same-named fields, the audio
/// sent under either of its names.
pub proof fn lemma_payload_matches_http_form(p: GrpcPayload, audio_name: Seq<char>)
    requires
        audio_name == "prompt_wav"@ || audio_name == "prompt_speech"@,
    ensures
        match p {
            GrpcPayload::ZeroShotRequest { tts_text, prompt_text, prompt_audio } => collected_task(
                receive_all(
                    empty_collector(MultipartEndpoint::ZeroShot),
                    seq![
                        FieldEvent::Text { name: "tts_text"@, text: tts_text@ },
                        FieldEvent::Text { name: "prompt_text"@, text: prompt_text@ },
                        FieldEvent::Audio { name: audio_name, bytes: prompt_audio@ },
                    ],
                ),
            ) == payload_task(p),
            GrpcPayload::CrossLingualRequest { tts_text, prompt_audio } => collected_task(
                receive_all(
                    empty_collector(MultipartEndpoint::CrossLingual),
                    seq![
                        FieldEvent::Text { name: "tts_text"@, text: tts_text@ },
                        FieldEvent::Audio { name: audio_name, bytes: prompt_audio@ },
                    ],
                ),
            ) == payload_task(p),
            _ => true,
        },
{
    reveal_strlit("tts_text");
    reveal_strlit("prompt_text");
    reveal_strlit("prompt_wav");
    reveal_strlit("prompt_speech");
    assert("tts_text"@.len() == 8);
    assert("prompt_text"@.len() == 11);
    assert("prompt_wav"@.len() == 10);
    assert("prompt_speech"@.len() == 13);
    match p {
        GrpcPayload::ZeroShotRequest { tts_text, prompt_text, prompt_audio } => {
            let events = seq![
                FieldEvent::Text { name: "tts_text"@, text: tts_text@ },
                FieldEvent::Text { name: "prompt_text"@, text: prompt_text@ },
                FieldEvent::Audio { name: audio_name, bytes: prompt_audio@ },
            ];
            let e = empty_collector(MultipartEndpoint::ZeroShot);
            assert(events.drop_last().drop_last().drop_last() =~= Seq::<FieldEvent>::empty());
            assert(events.drop_last().drop_last() =~= seq![events[0]]);
            assert(events.drop_last() =~= seq![events[0], events[1]]);
            assert(receive_all(e, events.drop_last().drop_last().drop_last()) == e);
            let s1 = receive_all(e, events.drop_last().drop_last());
            assert(s1.primary == tts_text@ && s1.audio == e.audio && s1.secondary == e.secondary);
            let s2 = receive_all(e, events.drop_last());
            assert(s2.primary == tts_text@ && s2.secondary == prompt_text@ && s2.audio == e.audio);
            let s3 = receive_all(e, events);
            assert(s3.primary == tts_text@ && s3.secondary == prompt_text@ && s3.audio == prompt_audio@);
        },
        GrpcPayload::CrossLingualRequest { tts_text, prompt_audio } => {
            let events = seq![
                FieldEvent::Text { name: "tts_text"@, text: tts_text@ },
                FieldEvent::Audio { name: audio_name, bytes: prompt_audio@ },
            ];
            let e = empty_collector(MultipartEndpoint::CrossLingual);
            assert(events.drop_last().drop_last() =~= Seq::<FieldEvent>::empty());
            assert(events.drop_last() =~= seq![events[0]]);
            assert(receive_all(e, events.drop_last().drop_last()) == e);
            let s1 = receive_all(e, events.drop_last());
            assert(s1.primary == tts_text@ && s1.audio == e.audio);
            let s2 = receive_all(e, events);
            assert(s2.primary == tts_text@ && s2.audio == prompt_audio@);
        },
        _ => {},
    }
}

/// The task of a request; a request without payload is an invalid argument.
pub fn task_from_payload(payload: Option<GrpcPayload>) -> (r: Result<InferenceTask, GrpcStatus>)
    ensures
        match payload {
            None => r matches Err(st) && st.code == GrpcCode::InvalidArgument
                && st.message@ == "Missing request payload"@,
            Some(p) => r matches Ok(task) && task@ == payload_task(p),
        },
{
    match payload {
        None => Err(GrpcStatus {
            code: GrpcCode::InvalidArgument,
            message: "Missing request payload".to_owned(),
        }),
        Some(GrpcPayload::SftRequest { tts_text, spk_id }) => Ok(InferenceTask::Sft { tts_text, spk_id }),
        Some(GrpcPayload::ZeroShotRequest { tts_text, prompt_text, prompt_audio }) => Ok(
            InferenceTask::ZeroShot { tts_text, prompt_text, prompt_audio },
        ),
        Some(GrpcPayload::CrossLingualRequest { tts_text, prompt_audio }) => Ok(
            InferenceTask::CrossLingual { tts_text, prompt_audio },
        ),
        Some(GrpcPayload::InstructRequest { tts_text, spk_id, instruct_text }) => Ok(
            InferenceTask::Instruct { tts_text, spk_id, instruct_text },
        ),
    }
}

/// The status for a task that could not be processed: an internal error
/// carrying the message.
pub fn processing_failure(message: String) -> (st: GrpcStatus)
    ensures
        st.code == GrpcCode::Internal,
        st.message@ == message@,
{
    GrpcStatus { code: GrpcCode::Internal, message }
}

/// One item of the response stream for one item of the audio stream: a chunk
/// becomes an audio message, a stream error an internal error.
pub fn chunk_response(chunk: Result<Vec<u8>, String>) -> (r: Result<AudioResponse, GrpcStatus>)
    ensures
        match chunk {
            Ok(bytes) => r matches Ok(resp) && resp.tts_audio@ == bytes@,
            Err(e) => r matches Err(st) && st.code == GrpcCode::Internal && st.message@ == e@,
        },
{
    match chunk {
        Ok(bytes) => Ok(AudioResponse { tts_audio: bytes }),
        Err(e) => Err(processing_failure(e)),
    }
}

/// The `CosyVoice` gRPC service, sharing its worker pool with the HTTP server.
pub struct CosyVoiceGrpcService {
    worker_pool: Arc<WorkerPool>,
}

impl CosyVoiceGrpcService {
    pub closed spec fn pool(&self) -> WorkerPool {
        *self.worker_pool
    }

    pub fn new(worker_pool: Arc<WorkerPool>) -> (s: Self)
        ensures
            s.pool() == *worker_pool,
    {
        CosyVoiceGrpcService { worker_pool }
    }

    /// Decides how an inference request is served: a missing payload is
    /// refused, any other is handed to the worker pool as its task.
    pub fn inference(&self, payload: Option<GrpcPayload>) -> (r: Result<TaskPlan, GrpcStatus>)
        ensures
            match payload {
                None => r matches Err(st) && st.code == GrpcCode::InvalidArgument
                    && st.message@ == "Missing request payload"@,
                Some(p) => r matches Ok(plan) && plan_for(self.pool(), payload_task(p), plan),
            },
    {
        match task_from_payload(payload) {
            Ok(task) => Ok(self.worker_pool.process_task(task)),
            Err(st) => Err(st),
        }
    }
}

} // verus!
