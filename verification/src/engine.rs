//! Inference tasks and the worker pool that routes them.

use vstd::prelude::*;
use crate::onnx::{ModelInventory, ModelKind};
use crate::http::{
    Endpoint, endpoint_path, endpoint_multipart, FieldEvent, FieldRole, CollectorView, collected_task,
    empty_collector, field_role_spec, receive_all, MultipartEndpoint,
};

verus! {

/// One synthesis or editing request, as decoded from HTTP or gRPC.
#[derive(Debug, Clone)]
pub enum InferenceTask {
    Sft { tts_text: String, spk_id: String },
    ZeroShot { tts_text: String, prompt_text: String, prompt_audio: Vec<u8> },
    CrossLingual { tts_text: String, prompt_audio: Vec<u8> },
    Instruct { tts_text: String, spk_id: String, instruct_text: String },
    Instruct2 { tts_text: String, instruct_text: String, prompt_audio: Vec<u8> },
    Edit { target_text: String, original_text: String, original_speech: Vec<u8> },
}

/// The mathematical content of an [`InferenceTask`].
#[verifier::ext_equal]
pub enum TaskView {
    Sft { tts_text: Seq<char>, spk_id: Seq<char> },
    ZeroShot { tts_text: Seq<char>, prompt_text: Seq<char>, prompt_audio: Seq<u8> },
    CrossLingual { tts_text: Seq<char>, prompt_audio: Seq<u8> },
    Instruct { tts_text: Seq<char>, spk_id: Seq<char>, instruct_text: Seq<char> },
    Instruct2 { tts_text: Seq<char>, instruct_text: Seq<char>, prompt_audio: Seq<u8> },
    Edit { target_text: Seq<char>, original_text: Seq<char>, original_speech: Seq<u8> },
}

impl View for InferenceTask {
    type V = TaskView;

    open spec fn view(&self) -> TaskView {
        match self {
            InferenceTask::Sft { tts_text, spk_id } => TaskView::Sft {
                tts_text: tts_text@,
                spk_id: spk_id@,
            },
            InferenceTask::ZeroShot { tts_text, prompt_text, prompt_audio } => TaskView::ZeroShot {
                tts_text: tts_text@,
                prompt_text: prompt_text@,
                prompt_audio: prompt_audio@,
            },
            InferenceTask::CrossLingual { tts_text, prompt_audio } => TaskView::CrossLingual {
                tts_text: tts_text@,
                prompt_audio: prompt_audio@,
            },
            InferenceTask::Instruct { tts_text, spk_id, instruct_text } => TaskView::Instruct {
                tts_text: tts_text@,
                spk_id: spk_id@,
                instruct_text: instruct_text@,
            },
            InferenceTask::Instruct2 { tts_text, instruct_text, prompt_audio } => TaskView::Instruct2 {
                tts_text: tts_text@,
                instruct_text: instruct_text@,
                prompt_audio: prompt_audio@,
            },
            InferenceTask::Edit { target_text, original_text, original_speech } => TaskView::Edit {
                target_text: target_text@,
                original_text: original_text@,
                original_speech: original_speech@,
            },
        }
    }
}

pub open spec fn task_endpoint(t: TaskView) -> Endpoint {
    match t {
        TaskView::Sft { .. } => Endpoint::Sft,
        TaskView::ZeroShot { .. } => Endpoint::ZeroShot,
        TaskView::CrossLingual { .. } => Endpoint::CrossLingual,
        TaskView::Instruct { .. } => Endpoint::Instruct,
        TaskView::Instruct2 { .. } => Endpoint::Instruct2,
        TaskView::Edit { .. } => Endpoint::Edit,
    }
}

impl InferenceTask {
    /// The endpoint that serves this kind of task.
    pub fn endpoint(&self) -> (e: Endpoint)
        ensures
            e == task_endpoint(self@),
    {
        match self {
            InferenceTask::Sft { .. } => Endpoint::Sft,
            InferenceTask::ZeroShot { .. } => Endpoint::ZeroShot,
            InferenceTask::CrossLingual { .. } => Endpoint::CrossLingual,
            InferenceTask::Instruct { .. } => Endpoint::Instruct,
            InferenceTask::Instruct2 { .. } => Endpoint::Instruct2,
            InferenceTask::Edit { .. } => Endpoint::Edit,
        }
    }
}

/// A named text field of a request to the backend.
pub struct FormField {
    pub name: String,
    pub value: String,
}

impl View for FormField {
    type V = (Seq<char>, Seq<char>);

    open spec fn view(&self) -> (Seq<char>, Seq<char>) {
        (self.name@, self.value@)
    }
}

/// The audio file part of a multipart request to the backend.
pub struct FilePart {
    pub field: String,
    pub file_name: String,
    pub bytes: Vec<u8>,
}

/// How a request to the backend carries the task.
pub enum BackendBody {
    /// An urlencoded form with these fields, in order.
    Form(Vec<FormField>),
    /// A multipart form: these text fields, in order, then the file part.
    Multipart { texts: Vec<FormField>, file: FilePart },
}

/// A POST request to the upstream backend.
pub struct BackendRequest {
    pub url: String,
    pub body: BackendBody,
}

pub enum BackendBodyView {
    Form(Seq<(Seq<char>, Seq<char>)>),
    Multipart {
        texts: Seq<(Seq<char>, Seq<char>)>,
        field: Seq<char>,
        file_name: Seq<char>,
        bytes: Seq<u8>,
    },
}

pub struct BackendRequestView {
    pub url: Seq<char>,
    pub body: BackendBodyView,
}

pub open spec fn fields_view(v: Vec<FormField>) -> Seq<(Seq<char>, Seq<char>)> {
    v@.map_values(|f: FormField| f@)
}

impl View for BackendRequest {
    type V = BackendRequestView;

    open spec fn view(&self) -> BackendRequestView {
        BackendRequestView {
            url: self.url@,
            body: match self.body {
                BackendBody::Form(fields) => BackendBodyView::Form(fields_view(fields)),
                BackendBody::Multipart { texts, file } => BackendBodyView::Multipart {
                    texts: fields_view(texts),
                    field: file.field@,
                    file_name: file.file_name@,
                    bytes: file.bytes@,
                },
            },
        }
    }
}

/// The request that forwards task `t` to the backend at `backend`: it goes to
/// the endpoint of the same path on the backend, with the task's texts as
/// fields named as this runtime names them, and its audio as a `.wav` file.
pub open spec fn backend_request_spec(backend: Seq<char>, t: TaskView) -> BackendRequestView {
    BackendRequestView {
        url: backend + endpoint_path(task_endpoint(t)),
        body: match t {
            TaskView::Sft { tts_text, spk_id } => BackendBodyView::Form(
                seq![("tts_text"@, tts_text), ("spk_id"@, spk_id)],
            ),
            TaskView::ZeroShot { tts_text, prompt_text, prompt_audio } => BackendBodyView::Multipart {
                texts: seq![("tts_text"@, tts_text), ("prompt_text"@, prompt_text)],
                field: "prompt_wav"@,
                file_name: "prompt.wav"@,
                bytes: prompt_audio,
            },
            TaskView::CrossLingual { tts_text, prompt_audio } => BackendBodyView::Multipart {
                texts: seq![("tts_text"@, tts_text)],
                field: "prompt_wav"@,
                file_name: "prompt.wav"@,
                bytes: prompt_audio,
            },
            TaskView::Instruct { tts_text, spk_id, instruct_text } => BackendBodyView::Form(
                seq![("tts_text"@, tts_text), ("spk_id"@, spk_id), ("instruct_text"@, instruct_text)],
            ),
            TaskView::Instruct2 { tts_text, instruct_text, prompt_audio } => BackendBodyView::Multipart {
                texts: seq![("tts_text"@, tts_text), ("instruct_text"@, instruct_text)],
                field: "prompt_wav"@,
                file_name: "prompt.wav"@,
                bytes: prompt_audio,
            },
            TaskView::Edit { target_text, original_text, original_speech } => BackendBodyView::Multipart {
                texts: seq![("target_text"@, target_text), ("original_text"@, original_text)],
                field: "original_speech"@,
                file_name: "original.wav"@,
                bytes: original_speech,
            },
        },
    }
}

fn field(name: &str, value: String) -> (f: FormField)
    ensures
        f@ == (name@, value@),
{
    FormField { name: name.to_owned(), value }
}

fn fields1(a: FormField) -> (v: Vec<FormField>)
    ensures
        fields_view(v) == seq![a@],
{
    let mut v: Vec<FormField> = Vec::new();
    v.push(a);
    assert(fields_view(v) =~= seq![a@]);
    v
}

fn fields2(a: FormField, b: FormField) -> (v: Vec<FormField>)
    ensures
        fields_view(v) == seq![a@, b@],
{
    let mut v: Vec<FormField> = Vec::new();
    v.push(a);
    v.push(b);
    assert(fields_view(v) =~= seq![a@, b@]);
    v
}

fn fields3(a: FormField, b: FormField, c: FormField) -> (v: Vec<FormField>)
    ensures
        fields_view(v) == seq![a@, b@, c@],
{
    let mut v: Vec<FormField> = Vec::new();
    v.push(a);
    v.push(b);
    v.push(c);
    assert(fields_view(v) =~= seq![a@, b@, c@]);
    v
}

fn audio_file(field: &str, file_name: &str, bytes: Vec<u8>) -> (f: FilePart)
    ensures
        f.field@ == field@,
        f.file_name@ == file_name@,
        f.bytes@ == bytes@,
{
    FilePart { field: field.to_owned(), file_name: file_name.to_owned(), bytes }
}

/// Builds the request that forwards `task` to the backend whose base URL is `backend`.
pub fn backend_request(backend: &str, task: InferenceTask) -> (r: BackendRequest)
    ensures
        r@ == backend_request_spec(backend@, task@),
{
    let url = backend.to_owned().concat(task.endpoint().path());
    let body = match task {
        InferenceTask::Sft { tts_text, spk_id } => BackendBody::Form(
            fields2(field("tts_text", tts_text), field("spk_id", spk_id)),
        ),
        InferenceTask::ZeroShot { tts_text, prompt_text, prompt_audio } => BackendBody::Multipart {
            texts: fields2(field("tts_text", tts_text), field("prompt_text", prompt_text)),
            file: audio_file("prompt_wav", "prompt.wav", prompt_audio),
        },
        InferenceTask::CrossLingual { tts_text, prompt_audio } => BackendBody::Multipart {
            texts: fields1(field("tts_text", tts_text)),
            file: audio_file("prompt_wav", "prompt.wav", prompt_audio),
        },
        InferenceTask::Instruct { tts_text, spk_id, instruct_text } => BackendBody::Form(
            fields3(
                field("tts_text", tts_text),
                field("spk_id", spk_id),
                field("instruct_text", instruct_text),
            ),
        ),
        InferenceTask::Instruct2 { tts_text, instruct_text, prompt_audio } => BackendBody::Multipart {
            texts: fields2(field("tts_text", tts_text), field("instruct_text", instruct_text)),
            file: audio_file("prompt_wav", "prompt.wav", prompt_audio),
        },
        InferenceTask::Edit { target_text, original_text, original_speech } => BackendBody::Multipart {
            texts: fields2(field("target_text", target_text), field("original_text", original_text)),
            file: audio_file("original_speech", "original.wav", original_speech),
        },
    };
    BackendRequest { url, body }
}

/// The fields of a multipart body in the order they are sent, as a server
/// reads them.
pub open spec fn multipart_events(body: BackendBodyView) -> Seq<FieldEvent> {
    match body {
        BackendBodyView::Multipart { texts, field, file_name, bytes } => texts.map_values(
            |f: (Seq<char>, Seq<char>)| FieldEvent::Text { name: f.0, text: f.1 },
        ) + seq![FieldEvent::Audio { name: field, bytes }],
        BackendBodyView::Form(_) => Seq::empty(),
    }
}

/// Forwarding is faithful: a task whose endpoint takes a multipart form is
/// forwarded as a multipart form to the same path, and a server that gathers
/// its fields as this runtime does gets the same task back.
pub proof fn lemma_forwarded_fields_rebuild_task(backend: Seq<char>, t: TaskView)
    requires
        endpoint_multipart(task_endpoint(t)) is Some,
    ensures
        backend_request_spec(backend, t).url == backend + endpoint_path(task_endpoint(t)),
        backend_request_spec(backend, t).body is Multipart,
        collected_task(
            receive_all(
                empty_collector(endpoint_multipart(task_endpoint(t))->0),
                multipart_events(backend_request_spec(backend, t).body),
            ),
        ) == t,
{
    reveal_strlit("tts_text");
    reveal_strlit("prompt_text");
    reveal_strlit("instruct_text");
    reveal_strlit("target_text");
    reveal_strlit("original_text");
    reveal_strlit("prompt_wav");
    reveal_strlit("original_speech");
    assert("tts_text"@.len() == 8);
    assert("prompt_text"@.len() == 11);
    assert("instruct_text"@.len() == 13);
    assert("target_text"@.len() == 11);
    assert("original_text"@.len() == 13);
    assert("prompt_wav"@.len() == 10);
    assert("original_speech"@.len() == 15);
    match t {
        TaskView::ZeroShot { tts_text, prompt_text, prompt_audio } => {
            lemma_three_fields_rebuilt(
                backend,
                t,
                MultipartEndpoint::ZeroShot,
                tts_text,
                prompt_text,
                prompt_audio,
            );
        },
        TaskView::CrossLingual { tts_text, prompt_audio } => {
            lemma_two_fields_rebuilt(backend, t, tts_text, prompt_audio);
        },
        TaskView::Instruct2 { tts_text, instruct_text, prompt_audio } => {
            lemma_three_fields_rebuilt(
                backend,
                t,
                MultipartEndpoint::Instruct2,
                tts_text,
                instruct_text,
                prompt_audio,
            );
        },
        TaskView::Edit { target_text, original_text, original_speech } => {
            lemma_three_fields_rebuilt(
                backend,
                t,
                MultipartEndpoint::Edit,
                target_text,
                original_text,
                original_speech,
            );
        },
        _ => {},
    }
}

/// Gathering the forwarded fields of a task with two texts: the first text,
/// the second, then the audio.
proof fn lemma_three_fields_rebuilt(
    backend: Seq<char>,
    t: TaskView,
    ep: crate::http::MultipartEndpoint,
    first: Seq<char>,
    second: Seq<char>,
    audio: Seq<u8>,
)
    requires
        ep != MultipartEndpoint::CrossLingual,
        endpoint_multipart(task_endpoint(t)) == Some(ep),
        collected_task(CollectorView { endpoint: ep, primary: first, secondary: second, audio }) == t,
        backend_request_spec(backend, t).body matches BackendBodyView::Multipart { texts, field, file_name, bytes }
            && texts.len() == 2 && texts[0].1 == first && texts[1].1 == second && bytes == audio
            && field_role_spec(ep, texts[0].0) == FieldRole::PrimaryText
            && field_role_spec(ep, texts[1].0) == FieldRole::SecondaryText
            && field_role_spec(ep, field) == FieldRole::Audio,
    ensures
        collected_task(
            receive_all(empty_collector(ep), multipart_events(backend_request_spec(backend, t).body)),
        ) == t,
{
    let events = multipart_events(backend_request_spec(backend, t).body);
    assert(events.len() == 3);
    assert(events.drop_last().drop_last().drop_last() =~= Seq::<FieldEvent>::empty());
    assert(events.drop_last().drop_last().last() == events[0]);
    assert(events.drop_last().last() == events[1]);
    let e = empty_collector(ep);
    assert(receive_all(e, events.drop_last().drop_last().drop_last()) == e);
    let s1 = receive_all(e, events.drop_last().drop_last());
    assert(s1 == CollectorView { primary: first, ..e });
    let s2 = receive_all(e, events.drop_last());
    assert(s2 == CollectorView { secondary: second, ..s1 });
    let s3 = receive_all(e, events);
    assert(s3 == CollectorView { audio, ..s2 });
}

/// Gathering the forwarded fields of a cross-lingual task: one text, then the audio.
proof fn lemma_two_fields_rebuilt(backend: Seq<char>, t: TaskView, first: Seq<char>, audio: Seq<u8>)
    requires
        t == (TaskView::CrossLingual { tts_text: first, prompt_audio: audio }),
        backend_request_spec(backend, t).body matches BackendBodyView::Multipart { texts, field, file_name, bytes }
            && texts.len() == 1 && texts[0].1 == first && bytes == audio
            && field_role_spec(MultipartEndpoint::CrossLingual, texts[0].0) == FieldRole::PrimaryText
            && field_role_spec(MultipartEndpoint::CrossLingual, field) == FieldRole::Audio,
    ensures
        collected_task(
            receive_all(
                empty_collector(MultipartEndpoint::CrossLingual),
                multipart_events(backend_request_spec(backend, t).body),
            ),
        ) == t,
{
    let events = multipart_events(backend_request_spec(backend, t).body);
    assert(events.len() == 2);
    assert(events.drop_last().drop_last() =~= Seq::<FieldEvent>::empty());
    assert(events.drop_last().last() == events[0]);
    let e = empty_collector(MultipartEndpoint::CrossLingual);
    assert(receive_all(e, events.drop_last().drop_last()) == e);
    let s1 = receive_all(e, events.drop_last());
    assert(s1 == CollectorView { primary: first, ..e });
    let s2 = receive_all(e, events);
    assert(s2 == CollectorView { audio, ..s1 });
}

/// Every task is forwarded to the backend's endpoint of the same path, and a
/// task of a form endpoint as a form that carries exactly its fields.
pub proof fn lemma_forwarded_to_same_endpoint(backend: Seq<char>, t: TaskView)
    ensures
        backend_request_spec(backend, t).url == backend + endpoint_path(task_endpoint(t)),
        endpoint_multipart(task_endpoint(t)) is None <==> backend_request_spec(backend, t).body is Form,
{
}

/// The text that the `http` crate's `Display` for `StatusCode` writes for
/// `code`: the number and its canonical reason phrase.
pub uninterp spec fn status_line(code: u16) -> Seq<char>;

/// Calls `StatusCode::from_u16` and `StatusCode::is_success` (crate `http`, as
/// re-exported by `reqwest`). The contract claims that a code in 100..=999 is
/// a valid status and that it is a success exactly when it lies in 200..=299,
/// as `is_success` is written in the source.
#[verifier::external_body]
fn status_is_success(code: u16) -> (b: bool)
    requires
        100 <= code <= 999,
    ensures
        b == (200 <= code && code < 300),
{
    match reqwest::StatusCode::from_u16(code) {
        Ok(status) => status.is_success(),
        Err(_) => false,
    }
}

/// Calls `StatusCode::from_u16` and formats the status with `Display`
/// (crate `http`, as re-exported by `reqwest`). The contract claims only that
/// the text is `status_line(code)`, a function of the code alone; what the
/// text holds is not stated here.
#[verifier::external_body]
fn status_text(code: u16) -> (s: String)
    requires
        100 <= code <= 999,
    ensures
        s@ == status_line(code),
{
    match reqwest::StatusCode::from_u16(code) {
        Ok(status) => status.to_string(),
        Err(_) => String::new(),
    }
}

/// Judges the status code of the backend's reply: a 2xx reply is streamed
/// back, any other is an error that names the status.
pub fn check_backend_status(code: u16) -> (r: Result<(), String>)
    requires
        100 <= code <= 999,
    ensures
        r is Ok <==> (200 <= code && code < 300),
        r matches Err(m) ==> m@ == "Backend error status: "@ + status_line(code),
{
    if status_is_success(code) {
        Ok(())
    } else {
        let text = status_text(code);
        Err("Backend error status: ".to_owned().concat(text.as_str()))
    }
}

/// The error for a request to the backend that could not be completed.
pub fn backend_request_failed(detail: &str) -> (m: String)
    ensures
        m@ == "Backend request failed: "@ + detail@,
{
    "Backend request failed: ".to_owned().concat(detail)
}

/// The error for a failure while reading the backend's audio stream.
pub fn stream_error(detail: &str) -> (m: String)
    ensures
        m@ == "Stream error: "@ + detail@,
{
    "Stream error: ".to_owned().concat(detail)
}

/// Number of audio chunks the simulated synthesis emits.
pub const SIMULATED_CHUNKS: u32 = 5;

/// Size in bytes of each simulated chunk.
pub const SIMULATED_CHUNK_BYTES: usize = 1600;

/// Pause after each simulated chunk, in milliseconds.
pub const SIMULATED_PAUSE_MILLIS: u64 = 50;

/// What the simulated synthesis asks its driver to do next.
pub enum SimulationAction {
    /// Send this chunk to the listener.
    Send(Vec<u8>),
    /// Wait this many milliseconds.
    Pause(u64),
    /// Stop; the stream is complete.
    Finish,
}

pub enum SimulationActionView {
    Send(Seq<u8>),
    Pause(nat),
    Finish,
}

impl View for SimulationAction {
    type V = SimulationActionView;

    open spec fn view(&self) -> SimulationActionView {
        match self {
            SimulationAction::Send(chunk) => SimulationActionView::Send(chunk@),
            SimulationAction::Pause(ms) => SimulationActionView::Pause(*ms as nat),
            SimulationAction::Finish => SimulationActionView::Finish,
        }
    }
}

/// Progress of the simulated synthesis.
pub struct SimulationState {
    /// Chunks handed out so far.
    pub sent: nat,
    /// A pause is owed after the last chunk.
    pub pause_due: bool,
    /// The listener went away.
    pub stopped: bool,
}

pub open spec fn fresh_simulation() -> SimulationState {
    SimulationState { sent: 0, pause_due: false, stopped: false }
}

/// A chunk of silence: `n` zero bytes.
pub open spec fn silence(n: nat) -> Seq<u8> {
    Seq::new(n, |i: int| 0u8)
}

/// One step: chunks of silence alternate with pauses until
/// `SIMULATED_CHUNKS` chunks have gone out or the listener went away.
pub open spec fn simulation_step(s: SimulationState) -> (SimulationState, SimulationActionView) {
    if s.stopped {
        (s, SimulationActionView::Finish)
    } else if s.pause_due {
        (SimulationState { pause_due: false, ..s }, SimulationActionView::Pause(SIMULATED_PAUSE_MILLIS as nat))
    } else if s.sent < SIMULATED_CHUNKS {
        (
            SimulationState { sent: s.sent + 1, pause_due: true, ..s },
            SimulationActionView::Send(silence(SIMULATED_CHUNK_BYTES as nat)),
        )
    } else {
        (s, SimulationActionView::Finish)
    }
}

/// The actions of `n` steps from `s` when every chunk is delivered.
pub open spec fn simulation_run(s: SimulationState, n: nat) -> Seq<SimulationActionView>
    decreases n,
{
    if n == 0 {
        Seq::empty()
    } else {
        let (next, a) = simulation_step(s);
        seq![a] + simulation_run(next, (n - 1) as nat)
    }
}

/// The actions of a delivered simulated stream: each chunk of silence is
/// followed by a pause.
pub open spec fn delivered_stream() -> Seq<SimulationActionView> {
    let send = SimulationActionView::Send(silence(SIMULATED_CHUNK_BYTES as nat));
    let pause = SimulationActionView::Pause(SIMULATED_PAUSE_MILLIS as nat);
    seq![send, pause, send, pause, send, pause, send, pause, send, pause]
}

pub open spec fn finishing(n: nat) -> Seq<SimulationActionView> {
    Seq::new(n, |i: int| SimulationActionView::Finish)
}

/// The state of an undisturbed stream after its first `c` actions.
pub open spec fn state_after(c: nat) -> SimulationState {
    SimulationState { sent: ((c + 1) / 2) as nat, pause_due: c % 2 == 1, stopped: false }
}

/// Once stopped, or once every chunk and its pause have gone out, the stream
/// only finishes.
pub proof fn lemma_simulation_stays_finished(s: SimulationState, n: nat)
    requires
        s.stopped || (!s.pause_due && s.sent >= SIMULATED_CHUNKS),
    ensures
        simulation_run(s, n) == finishing(n),
    decreases n,
{
    if n > 0 {
        lemma_simulation_stays_finished(s, (n - 1) as nat);
        assert(simulation_run(s, n) =~= finishing(n));
    }
}

proof fn lemma_simulation_from(c: nat, n: nat)
    requires
        c <= 10,
        n >= 10 - c,
    ensures
        simulation_run(state_after(c), n) == delivered_stream().subrange(c as int, 10)
            + finishing((n - (10 - c)) as nat),
    decreases 10 - c,
{
    if c == 10 {
        lemma_simulation_stays_finished(state_after(c), n);
        assert(delivered_stream().subrange(10, 10) =~= Seq::<SimulationActionView>::empty());
        assert(simulation_run(state_after(c), n) =~= delivered_stream().subrange(c as int, 10)
            + finishing((n - (10 - c)) as nat));
    } else {
        let (next, a) = simulation_step(state_after(c));
        assert(next == state_after(c + 1));
        assert(a == delivered_stream()[c as int]);
        lemma_simulation_from(c + 1, (n - 1) as nat);
        assert(simulation_run(state_after(c), n) =~= delivered_stream().subrange(c as int, 10)
            + finishing((n - (10 - c)) as nat));
    }
}

/// An undisturbed simulated stream sends five chunks of 1600 zero bytes, each
/// followed by a pause of 50 ms, and then only finishes.
pub proof fn lemma_simulated_stream(n: nat)
    requires
        n >= 10,
    ensures
        simulation_run(fresh_simulation(), n) == delivered_stream() + finishing((n - 10) as nat),
{
    assert(fresh_simulation() == state_after(0));
    lemma_simulation_from(0, n);
    assert(delivered_stream().subrange(0, 10) =~= delivered_stream());
}

/// The audio stream of the local mode, which stands in for model inference:
/// a fixed number of chunks of silence, paced by pauses, ending early when the
/// listener is gone.
pub struct SimulatedSynthesis {
    sent: u32,
    pause_due: bool,
    stopped: bool,
}

impl View for SimulatedSynthesis {
    type V = SimulationState;

    closed spec fn view(&self) -> SimulationState {
        SimulationState { sent: self.sent as nat, pause_due: self.pause_due, stopped: self.stopped }
    }
}

fn silent_chunk() -> (v: Vec<u8>)
    ensures
        v@ == silence(SIMULATED_CHUNK_BYTES as nat),
{
    let mut v: Vec<u8> = Vec::new();
    let mut i: usize = 0;
    while i < SIMULATED_CHUNK_BYTES
        invariant
            i <= SIMULATED_CHUNK_BYTES,
            v@ =~= silence(i as nat),
        decreases SIMULATED_CHUNK_BYTES - i,
    {
        v.push(0u8);
        i = i + 1;
    }
    v
}

impl SimulatedSynthesis {
    pub fn new() -> (s: Self)
        ensures
            s@ == fresh_simulation(),
    {
        SimulatedSynthesis { sent: 0, pause_due: false, stopped: false }
    }

    /// The next thing to do, and the state after it.
    pub fn next_action(&mut self) -> (a: SimulationAction)
        ensures
            (final(self)@, a@) == simulation_step(old(self)@),
    {
        if self.stopped {
            SimulationAction::Finish
        } else if self.pause_due {
            self.pause_due = false;
            SimulationAction::Pause(SIMULATED_PAUSE_MILLIS)
        } else if self.sent < SIMULATED_CHUNKS {
            self.sent = self.sent + 1;
            self.pause_due = true;
            SimulationAction::Send(silent_chunk())
        } else {
            SimulationAction::Finish
        }
    }

    /// Records that the last chunk could not be delivered: the listener is gone.
    pub fn send_failed(&mut self)
        ensures
            final(self)@ == (SimulationState { stopped: true, ..old(self)@ }),
    {
        self.stopped = true;
    }
}

/// A task for the native ONNX engine, with the directory its models were
/// loaded from.
pub struct NativeJob {
    pub task: InferenceTask,
    pub model_dir: String,
}

/// What the native engine is given for a task.
pub struct SynthesisInputs {
    /// The text to speak (for editing, the target text).
    pub text: String,
    /// The pretrained speaker to speak with.
    pub speaker: Option<String>,
    /// The instruction that guides the style.
    pub instruction: Option<String>,
    /// The transcript of the reference audio.
    pub reference_text: Option<String>,
    /// The reference audio: the prompt, or the speech to edit.
    pub reference_audio: Option<Vec<u8>>,
}

pub struct SynthesisView {
    pub text: Seq<char>,
    pub speaker: Option<Seq<char>>,
    pub instruction: Option<Seq<char>>,
    pub reference_text: Option<Seq<char>>,
    pub reference_audio: Option<Seq<u8>>,
}

pub open spec fn opt_text(o: Option<String>) -> Option<Seq<char>> {
    match o {
        Some(s) => Some(s@),
        None => None,
    }
}

impl View for SynthesisInputs {
    type V = SynthesisView;

    open spec fn view(&self) -> SynthesisView {
        SynthesisView {
            text: self.text@,
            speaker: opt_text(self.speaker),
            instruction: opt_text(self.instruction),
            reference_text: opt_text(self.reference_text),
            reference_audio: match self.reference_audio {
                Some(a) => Some(a@),
                None => None,
            },
        }
    }
}

/// The engine inputs of each kind of task: every text and audio of the task
/// in its place.
pub open spec fn synthesis_spec(t: TaskView) -> SynthesisView {
    match t {
        TaskView::Sft { tts_text, spk_id } => SynthesisView {
            text: tts_text,
            speaker: Some(spk_id),
            instruction: None,
            reference_text: None,
            reference_audio: None,
        },
        TaskView::ZeroShot { tts_text, prompt_text, prompt_audio } => SynthesisView {
            text: tts_text,
            speaker: None,
            instruction: None,
            reference_text: Some(prompt_text),
            reference_audio: Some(prompt_audio),
        },
        TaskView::CrossLingual { tts_text, prompt_audio } => SynthesisView {
            text: tts_text,
            speaker: None,
            instruction: None,
            reference_text: None,
            reference_audio: Some(prompt_audio),
        },
        TaskView::Instruct { tts_text, spk_id, instruct_text } => SynthesisView {
            text: tts_text,
            speaker: Some(spk_id),
            instruction: Some(instruct_text),
            reference_text: None,
            reference_audio: None,
        },
        TaskView::Instruct2 { tts_text, instruct_text, prompt_audio } => SynthesisView {
            text: tts_text,
            speaker: None,
            instruction: Some(instruct_text),
            reference_text: None,
            reference_audio: Some(prompt_audio),
        },
        TaskView::Edit { target_text, original_text, original_speech } => SynthesisView {
            text: target_text,
            speaker: None,
            instruction: None,
            reference_text: Some(original_text),
            reference_audio: Some(original_speech),
        },
    }
}

/// The texts a body sends to the backend, in order.
pub open spec fn body_texts(body: BackendBodyView) -> Seq<(Seq<char>, Seq<char>)> {
    match body {
        BackendBodyView::Form(fields) => fields,
        BackendBodyView::Multipart { texts, .. } => texts,
    }
}

/// The native engine and the backend are told the same thing: for every task,
/// the engine speaks the value of the first field forwarded to the backend,
/// which is the `tts_text` (for editing the `target_text`); an instruction
/// forwarded as `instruct_text` is the engine's instruction, a speaker
/// forwarded as `spk_id` its speaker, a transcript forwarded as `prompt_text`
/// or `original_text` its reference text, and forwarded audio its reference
/// audio.
pub proof fn lemma_engine_speaks_the_forwarded_text(backend: Seq<char>, t: TaskView)
    ensures
        ({
            let inputs = synthesis_spec(t);
            let body = backend_request_spec(backend, t).body;
            let texts = body_texts(body);
            &&& texts.len() >= 1
            &&& inputs.text == texts[0].1
            &&& (texts[0].0 == "tts_text"@ || texts[0].0 == "target_text"@)
            &&& forall|i: int| 0 <= i < texts.len() && #[trigger] texts[i].0 == "instruct_text"@
                ==> inputs.instruction == Some(texts[i].1)
            &&& forall|i: int| 0 <= i < texts.len() && #[trigger] texts[i].0 == "spk_id"@
                ==> inputs.speaker == Some(texts[i].1)
            &&& forall|i: int| 0 <= i < texts.len() && (#[trigger] texts[i].0 == "prompt_text"@
                || texts[i].0 == "original_text"@) ==> inputs.reference_text == Some(texts[i].1)
            &&& (body matches BackendBodyView::Multipart { bytes, .. } ==> inputs.reference_audio == Some(bytes))
        }),
{
    reveal_strlit("tts_text");
    reveal_strlit("spk_id");
    reveal_strlit("prompt_text");
    reveal_strlit("instruct_text");
    reveal_strlit("target_text");
    reveal_strlit("original_text");
    assert("tts_text"@.len() == 8);
    assert("spk_id"@.len() == 6);
    assert("prompt_text"@.len() == 11);
    assert("instruct_text"@.len() == 13);
    assert("target_text"@.len() == 11);
    assert("original_text"@.len() == 13);
    assert("original_text"@[0] != "instruct_text"@[0]);
    assert("prompt_text"@[0] != "target_text"@[0]);
}

/// What a multipart request asks the native engine: it speaks the text sent as
/// `tts_text` (for editing `target_text`), with the uploaded audio as its
/// reference, the second text as the instruction (instruct2) or as the
/// transcript of the reference (zero-shot, editing).
pub proof fn lemma_engine_speaks_the_primary_text(s: CollectorView)
    ensures
        synthesis_spec(collected_task(s)).text == s.primary,
        synthesis_spec(collected_task(s)).reference_audio == Some(s.audio),
        s.endpoint == MultipartEndpoint::Instruct2 ==> synthesis_spec(collected_task(s)).instruction
            == Some(s.secondary),
        s.endpoint == MultipartEndpoint::ZeroShot || s.endpoint == MultipartEndpoint::Edit
            ==> synthesis_spec(collected_task(s)).reference_text == Some(s.secondary),
{
}

/// Takes a task apart into what the native engine is given.
pub fn synthesis_inputs(task: InferenceTask) -> (inputs: SynthesisInputs)
    ensures
        inputs@ == synthesis_spec(task@),
{
    match task {
        InferenceTask::Sft { tts_text, spk_id } => SynthesisInputs {
            text: tts_text,
            speaker: Some(spk_id),
            instruction: None,
            reference_text: None,
            reference_audio: None,
        },
        InferenceTask::ZeroShot { tts_text, prompt_text, prompt_audio } => SynthesisInputs {
            text: tts_text,
            speaker: None,
            instruction: None,
            reference_text: Some(prompt_text),
            reference_audio: Some(prompt_audio),
        },
        InferenceTask::CrossLingual { tts_text, prompt_audio } => SynthesisInputs {
            text: tts_text,
            speaker: None,
            instruction: None,
            reference_text: None,
            reference_audio: Some(prompt_audio),
        },
        InferenceTask::Instruct { tts_text, spk_id, instruct_text } => SynthesisInputs {
            text: tts_text,
            speaker: Some(spk_id),
            instruction: Some(instruct_text),
            reference_text: None,
            reference_audio: None,
        },
        InferenceTask::Instruct2 { tts_text, instruct_text, prompt_audio } => SynthesisInputs {
            text: tts_text,
            speaker: None,
            instruction: Some(instruct_text),
            reference_text: None,
            reference_audio: Some(prompt_audio),
        },
        InferenceTask::Edit { target_text, original_text, original_speech } => SynthesisInputs {
            text: target_text,
            speaker: None,
            instruction: None,
            reference_text: Some(original_text),
            reference_audio: Some(original_speech),
        },
    }
}

/// What the pool does with a task.
pub enum TaskPlan {
    /// Send this request to the backend and relay its audio.
    Forward(BackendRequest),
    /// Run the task on the loaded ONNX models.
    Native(NativeJob),
    /// Stream the simulated synthesis.
    Simulate(SimulatedSynthesis),
}

/// The plan the pool makes for a task: with a backend configured the task is
/// forwarded there; otherwise, when a model directory was given and models
/// from it are loaded, the task goes to the native engine; otherwise the
/// simulated synthesis answers it.
pub open spec fn plan_for(pool: WorkerPool, task: TaskView, plan: TaskPlan) -> bool {
    match pool.spec_backend_url() {
        Some(backend) => plan matches TaskPlan::Forward(req) && req@ == backend_request_spec(backend, task),
        None => if pool.spec_model_dir() is Some && exists|k: ModelKind| pool.spec_models().contains(k) {
            plan matches TaskPlan::Native(job) && job.task@ == task
                && job.model_dir@ == pool.spec_model_dir()->0
        } else {
            plan matches TaskPlan::Simulate(sim) && sim@ == fresh_simulation()
        },
    }
}

/// Routes tasks to an upstream backend, to the native ONNX engine, or to the
/// local simulated stream.
#[derive(Clone)]
pub struct WorkerPool {
    backend_url: Option<String>,
    model_dir: Option<String>,
    models: ModelInventory,
}

impl WorkerPool {
    pub closed spec fn spec_backend_url(&self) -> Option<Seq<char>> {
        match self.backend_url {
            Some(u) => Some(u@),
            None => None,
        }
    }

    pub closed spec fn spec_model_dir(&self) -> Option<Seq<char>> {
        match self.model_dir {
            Some(d) => Some(d@),
            None => None,
        }
    }

    /// The models loaded from the model directory.
    pub closed spec fn spec_models(&self) -> Set<ModelKind> {
        self.models@
    }

    /// A pool that forwards to `backend_url` when one is given; `model_dir`
    /// names the directory of ONNX models for the local mode. No model is
    /// loaded yet.
    pub fn new(backend_url: Option<String>, model_dir: Option<&str>) -> (pool: Self)
        ensures
            pool.spec_backend_url() == (match backend_url {
                Some(u) => Some(u@),
                None => None::<Seq<char>>,
            }),
            pool.spec_model_dir() == (match model_dir {
                Some(d) => Some(d@),
                None => None::<Seq<char>>,
            }),
            pool.spec_models() == Set::<ModelKind>::empty(),
    {
        let model_dir = match model_dir {
            Some(d) => Some(d.to_owned()),
            None => None,
        };
        WorkerPool { backend_url, model_dir, models: ModelInventory::new() }
    }

    /// Records which models were loaded from the model directory.
    pub fn attach_models(&mut self, models: ModelInventory)
        ensures
            final(self).spec_backend_url() == old(self).spec_backend_url(),
            final(self).spec_model_dir() == old(self).spec_model_dir(),
            final(self).spec_models() == models@,
    {
        self.models = models;
    }

    /// The directory of ONNX models the pool was created with.
    pub fn model_dir(&self) -> (d: Option<&str>)
        ensures
            match d {
                Some(s) => self.spec_model_dir() == Some(s@),
                None => self.spec_model_dir() is None,
            },
    {
        match &self.model_dir {
            Some(dir) => Some(dir.as_str()),
            None => None,
        }
    }

    /// Decides how `task` is processed (see [`plan_for`]).
    pub fn process_task(&self, task: InferenceTask) -> (plan: TaskPlan)
        ensures
            plan_for(*self, task@, plan),
    {
        match &self.backend_url {
            Some(backend) => TaskPlan::Forward(backend_request(backend.as_str(), task)),
            None => match &self.model_dir {
                Some(dir) => {
                    if self.models.is_loaded() {
                        let model_dir = dir.clone();
                        let ghost k = choose|k: ModelKind| self.models@.contains(k);
                        assert(self.spec_models().contains(k));
                        TaskPlan::Native(NativeJob { task, model_dir })
                    } else {
                        TaskPlan::Simulate(SimulatedSynthesis::new())
                    }
                },
                None => TaskPlan::Simulate(SimulatedSynthesis::new()),
            },
        }
    }
}

} // verus!
