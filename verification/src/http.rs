//! The HTTP surface: which endpoints exist, how their request bodies become
//! tasks, and what the reply to a processed task looks like.

use vstd::prelude::*;
use crate::engine::{InferenceTask, TaskView};

verus! {

/// The form fields of `/inference_sft`.
pub struct SftForm {
    pub tts_text: String,
    pub spk_id: String,
}

/// The form fields of `/inference_instruct`.
pub struct InstructForm {
    pub tts_text: String,
    pub spk_id: String,
    pub instruct_text: String,
}

impl SftForm {
    /// The task that an SFT form asks for.
    pub fn into_task(self) -> (task: InferenceTask)
        ensures
            task@ == (TaskView::Sft { tts_text: self.tts_text@, spk_id: self.spk_id@ }),
    {
        InferenceTask::Sft { tts_text: self.tts_text, spk_id: self.spk_id }
    }
}

impl InstructForm {
    /// The task that an instruct form asks for.
    pub fn into_task(self) -> (task: InferenceTask)
        ensures
            task@ == (TaskView::Instruct {
                tts_text: self.tts_text@,
                spk_id: self.spk_id@,
                instruct_text: self.instruct_text@,
            }),
    {
        InferenceTask::Instruct {
            tts_text: self.tts_text,
            spk_id: self.spk_id,
            instruct_text: self.instruct_text,
        }
    }
}

/// The largest request body the HTTP server accepts: 50 MiB.
pub const MAX_REQUEST_BODY_BYTES: usize = 52428800;

/// The synthesis endpoints that the runtime serves.
#[derive(Clone, Copy, Debug, PartialEq, Eq, Structural)]
pub enum Endpoint {
    Sft,
    ZeroShot,
    CrossLingual,
    Instruct,
    Instruct2,
    Edit,
}

/// How an endpoint's request carries its fields.
#[derive(Clone, Copy, Debug, PartialEq, Eq, Structural)]
pub enum RequestBody {
    /// `application/x-www-form-urlencoded`
    Form,
    /// `multipart/form-data`
    Multipart,
}

/// The endpoints whose request is a multipart form with an audio part.
#[derive(Clone, Copy, Debug, PartialEq, Eq, Structural)]
pub enum MultipartEndpoint {
    ZeroShot,
    CrossLingual,
    Instruct2,
    Edit,
}

pub open spec fn endpoint_path(e: Endpoint) -> Seq<char> {
    match e {
        Endpoint::Sft => "/inference_sft"@,
        Endpoint::ZeroShot => "/inference_zero_shot"@,
        Endpoint::CrossLingual => "/inference_cross_lingual"@,
        Endpoint::Instruct => "/inference_instruct"@,
        Endpoint::Instruct2 => "/inference_instruct2"@,
        Endpoint::Edit => "/inference_edit"@,
    }
}

pub open spec fn endpoint_body(e: Endpoint) -> RequestBody {
    match e {
        Endpoint::Sft | Endpoint::Instruct => RequestBody::Form,
        _ => RequestBody::Multipart,
    }
}

pub open spec fn endpoint_multipart(e: Endpoint) -> Option<MultipartEndpoint> {
    match e {
        Endpoint::ZeroShot => Some(MultipartEndpoint::ZeroShot),
        Endpoint::CrossLingual => Some(MultipartEndpoint::CrossLingual),
        Endpoint::Instruct2 => Some(MultipartEndpoint::Instruct2),
        Endpoint::Edit => Some(MultipartEndpoint::Edit),
        _ => None,
    }
}

pub open spec fn all_endpoints() -> Seq<Endpoint> {
    seq![
        Endpoint::Sft,
        Endpoint::ZeroShot,
        Endpoint::CrossLingual,
        Endpoint::Instruct,
        Endpoint::Instruct2,
        Endpoint::Edit,
    ]
}

impl Endpoint {
    /// Every endpoint, each once, in the order the router registers them.
    pub fn all() -> (v: Vec<Endpoint>)
        ensures
            v@ == all_endpoints(),
    {
        let mut v: Vec<Endpoint> = Vec::new();
        v.push(Endpoint::Sft);
        v.push(Endpoint::ZeroShot);
        v.push(Endpoint::CrossLingual);
        v.push(Endpoint::Instruct);
        v.push(Endpoint::Instruct2);
        v.push(Endpoint::Edit);
        v
    }

    /// The URL path the endpoint is served on.
    pub fn path(&self) -> (p: &'static str)
        ensures
            p@ == endpoint_path(*self),
    {
        match self {
            Endpoint::Sft => "/inference_sft",
            Endpoint::ZeroShot => "/inference_zero_shot",
            Endpoint::CrossLingual => "/inference_cross_lingual",
            Endpoint::Instruct => "/inference_instruct",
            Endpoint::Instruct2 => "/inference_instruct2",
            Endpoint::Edit => "/inference_edit",
        }
    }

    /// How a POST to the endpoint carries its fields.
    pub fn body(&self) -> (b: RequestBody)
        ensures
            b == endpoint_body(*self),
    {
        match self {
            Endpoint::Sft | Endpoint::Instruct => RequestBody::Form,
            _ => RequestBody::Multipart,
        }
    }

    /// Whether the endpoint also answers GET, with its fields in the query string.
    pub fn accepts_query(&self) -> (b: bool)
        ensures
            b == (*self == Endpoint::Sft),
    {
        match self {
            Endpoint::Sft => true,
            _ => false,
        }
    }

    /// The multipart endpoint this is, if its body is multipart.
    pub fn multipart(&self) -> (m: Option<MultipartEndpoint>)
        ensures
            m == endpoint_multipart(*self),
            m is Some <==> endpoint_body(*self) == RequestBody::Multipart,
    {
        match self {
            Endpoint::ZeroShot => Some(MultipartEndpoint::ZeroShot),
            Endpoint::CrossLingual => Some(MultipartEndpoint::CrossLingual),
            Endpoint::Instruct2 => Some(MultipartEndpoint::Instruct2),
            Endpoint::Edit => Some(MultipartEndpoint::Edit),
            _ => None,
        }
    }
}


/// What a multipart field of a given name contributes to the task.
#[derive(Clone, Copy, Debug, PartialEq, Eq, Structural)]
pub enum FieldRole {
    /// The first text of the task (`tts_text`, or `target_text` for editing).
    PrimaryText,
    /// The second text (`prompt_text`, `instruct_text` or `original_text`).
    SecondaryText,
    /// The audio part.
    Audio,
    /// A field the endpoint does not read.
    Ignored,
}

pub open spec fn field_role_spec(ep: MultipartEndpoint, name: Seq<char>) -> FieldRole {
    match ep {
        MultipartEndpoint::ZeroShot => {
            if name == "tts_text"@ {
                FieldRole::PrimaryText
            } else if name == "prompt_text"@ {
                FieldRole::SecondaryText
            } else if name == "prompt_wav"@ || name == "prompt_speech"@ {
                FieldRole::Audio
            } else {
                FieldRole::Ignored
            }
        },
        MultipartEndpoint::CrossLingual => {
            if name == "tts_text"@ {
                FieldRole::PrimaryText
            } else if name == "prompt_wav"@ || name == "prompt_speech"@ {
                FieldRole::Audio
            } else {
                FieldRole::Ignored
            }
        },
        MultipartEndpoint::Instruct2 => {
            if name == "tts_text"@ {
                FieldRole::PrimaryText
            } else if name == "instruct_text"@ {
                FieldRole::SecondaryText
            } else if name == "prompt_wav"@ || name == "prompt_speech"@ {
                FieldRole::Audio
            } else {
                FieldRole::Ignored
            }
        },
        MultipartEndpoint::Edit => {
            if name == "target_text"@ {
                FieldRole::PrimaryText
            } else if name == "original_text"@ {
                FieldRole::SecondaryText
            } else if name == "original_speech"@ || name == "prompt_wav"@ {
                FieldRole::Audio
            } else {
                FieldRole::Ignored
            }
        },
    }
}

fn is_named(name: &String, expected: &str) -> (b: bool)
    ensures
        b == (name@ == expected@),
{
    let expected = expected.to_owned();
    *name == expected
}

/// The role that a field named `name` plays on endpoint `ep`; text roles are
/// read as text, the audio role as bytes, and ignored fields are not read.
pub fn field_role(ep: MultipartEndpoint, name: &str) -> (r: FieldRole)
    ensures
        r == field_role_spec(ep, name@),
{
    let n = name.to_owned();
    match ep {
        MultipartEndpoint::ZeroShot => {
            if is_named(&n, "tts_text") {
                FieldRole::PrimaryText
            } else if is_named(&n, "prompt_text") {
                FieldRole::SecondaryText
            } else if is_named(&n, "prompt_wav") || is_named(&n, "prompt_speech") {
                FieldRole::Audio
            } else {
                FieldRole::Ignored
            }
        },
        MultipartEndpoint::CrossLingual => {
            if is_named(&n, "tts_text") {
                FieldRole::PrimaryText
            } else if is_named(&n, "prompt_wav") || is_named(&n, "prompt_speech") {
                FieldRole::Audio
            } else {
                FieldRole::Ignored
            }
        },
        MultipartEndpoint::Instruct2 => {
            if is_named(&n, "tts_text") {
                FieldRole::PrimaryText
            } else if is_named(&n, "instruct_text") {
                FieldRole::SecondaryText
            } else if is_named(&n, "prompt_wav") || is_named(&n, "prompt_speech") {
                FieldRole::Audio
            } else {
                FieldRole::Ignored
            }
        },
        MultipartEndpoint::Edit => {
            if is_named(&n, "target_text") {
                FieldRole::PrimaryText
            } else if is_named(&n, "original_text") {
                FieldRole::SecondaryText
            } else if is_named(&n, "original_speech") || is_named(&n, "prompt_wav") {
                FieldRole::Audio
            } else {
                FieldRole::Ignored
            }
        },
    }
}

/// The fields gathered so far from a multipart request.
pub struct CollectorView {
    pub endpoint: MultipartEndpoint,
    pub primary: Seq<char>,
    pub secondary: Seq<char>,
    pub audio: Seq<u8>,
}

pub open spec fn empty_collector(ep: MultipartEndpoint) -> CollectorView {
    CollectorView {
        endpoint: ep,
        primary: Seq::empty(),
        secondary: Seq::empty(),
        audio: Seq::empty(),
    }
}

pub open spec fn receive_text_spec(s: CollectorView, name: Seq<char>, text: Seq<char>) -> CollectorView {
    match field_role_spec(s.endpoint, name) {
        FieldRole::PrimaryText => CollectorView { primary: text, ..s },
        FieldRole::SecondaryText => CollectorView { secondary: text, ..s },
        _ => s,
    }
}

pub open spec fn receive_audio_spec(s: CollectorView, name: Seq<char>, bytes: Seq<u8>) -> CollectorView {
    if field_role_spec(s.endpoint, name) == FieldRole::Audio {
        CollectorView { audio: bytes, ..s }
    } else {
        s
    }
}

pub open spec fn collected_task(s: CollectorView) -> TaskView {
    match s.endpoint {
        MultipartEndpoint::ZeroShot => TaskView::ZeroShot {
            tts_text: s.primary,
            prompt_text: s.secondary,
            prompt_audio: s.audio,
        },
        MultipartEndpoint::CrossLingual => TaskView::CrossLingual {
            tts_text: s.primary,
            prompt_audio: s.audio,
        },
        MultipartEndpoint::Instruct2 => TaskView::Instruct2 {
            tts_text: s.primary,
            instruct_text: s.secondary,
            prompt_audio: s.audio,
        },
        MultipartEndpoint::Edit => TaskView::Edit {
            target_text: s.primary,
            original_text: s.secondary,
            original_speech: s.audio,
        },
    }
}

/// Gathers the fields of a multipart request, field by field, into a task.
/// A field that is absent leaves its text or audio empty.
pub struct MultipartCollector {
    endpoint: MultipartEndpoint,
    primary: String,
    secondary: String,
    audio: Vec<u8>,
}

impl View for MultipartCollector {
    type V = CollectorView;

    closed spec fn view(&self) -> CollectorView {
        CollectorView {
            endpoint: self.endpoint,
            primary: self.primary@,
            secondary: self.secondary@,
            audio: self.audio@,
        }
    }
}

impl MultipartCollector {
    pub fn new(endpoint: MultipartEndpoint) -> (c: Self)
        ensures
            c@ == empty_collector(endpoint),
    {
        MultipartCollector {
            endpoint,
            primary: String::new(),
            secondary: String::new(),
            audio: Vec::new(),
        }
    }

    pub fn endpoint(&self) -> (ep: MultipartEndpoint)
        ensures
            ep == self@.endpoint,
    {
        self.endpoint
    }

    /// Takes in a text field that was read in full; a later field with the
    /// same role replaces an earlier one.
    pub fn receive_text(&mut self, name: &str, text: String)
        ensures
            final(self)@ == receive_text_spec(old(self)@, name@, text@),
    {
        match field_role(self.endpoint, name) {
            FieldRole::PrimaryText => {
                self.primary = text;
            },
            FieldRole::SecondaryText => {
                self.secondary = text;
            },
            _ => {},
        }
    }

    /// Takes in a file field that was read in full; a later audio field
    /// replaces an earlier one.
    pub fn receive_audio(&mut self, name: &str, bytes: Vec<u8>)
        ensures
            final(self)@ == receive_audio_spec(old(self)@, name@, bytes@),
    {
        if field_role(self.endpoint, name) == FieldRole::Audio {
            self.audio = bytes;
        }
    }

    /// The task that the gathered fields describe.
    pub fn into_task(self) -> (task: InferenceTask)
        ensures
            task@ == collected_task(self@),
    {
        match self.endpoint {
            MultipartEndpoint::ZeroShot => InferenceTask::ZeroShot {
                tts_text: self.primary,
                prompt_text: self.secondary,
                prompt_audio: self.audio,
            },
            MultipartEndpoint::CrossLingual => InferenceTask::CrossLingual {
                tts_text: self.primary,
                prompt_audio: self.audio,
            },
            MultipartEndpoint::Instruct2 => InferenceTask::Instruct2 {
                tts_text: self.primary,
                instruct_text: self.secondary,
                prompt_audio: self.audio,
            },
            MultipartEndpoint::Edit => InferenceTask::Edit {
                target_text: self.primary,
                original_text: self.secondary,
                original_speech: self.audio,
            },
        }
    }
}


/// A field of a multipart request as the server read it: a text field read as
/// text, or a file field read as bytes. A field that could not be read in full
/// gives no event.
pub enum FieldEvent {
    Text { name: Seq<char>, text: Seq<char> },
    Audio { name: Seq<char>, bytes: Seq<u8> },
}

pub open spec fn receive_event(s: CollectorView, e: FieldEvent) -> CollectorView {
    match e {
        FieldEvent::Text { name, text } => receive_text_spec(s, name, text),
        FieldEvent::Audio { name, bytes } => receive_audio_spec(s, name, bytes),
    }
}

/// The collector after it has taken in `events` in order.
pub open spec fn receive_all(s: CollectorView, events: Seq<FieldEvent>) -> CollectorView
    decreases events.len(),
{
    if events.len() == 0 {
        s
    } else {
        receive_event(receive_all(s, events.drop_last()), events.last())
    }
}

/// The text of the last text field in `events` whose name has `role` on `ep`.
pub open spec fn last_text(ep: MultipartEndpoint, events: Seq<FieldEvent>, role: FieldRole) -> Option<Seq<char>>
    decreases events.len(),
{
    if events.len() == 0 {
        None
    } else {
        let e = events.last();
        if e is Text && field_role_spec(ep, e->Text_name) == role {
            Some(e->Text_text)
        } else {
            last_text(ep, events.drop_last(), role)
        }
    }
}

/// The bytes of the last file field in `events` whose name is an audio field of `ep`.
pub open spec fn last_audio(ep: MultipartEndpoint, events: Seq<FieldEvent>) -> Option<Seq<u8>>
    decreases events.len(),
{
    if events.len() == 0 {
        None
    } else {
        let e = events.last();
        if e is Audio && field_role_spec(ep, e->Audio_name) == FieldRole::Audio {
            Some(e->Audio_bytes)
        } else {
            last_audio(ep, events.drop_last())
        }
    }
}

/// The last field wins: after any sequence of fields, each text of the task is
/// the last text read under one of its names (aliases alike), the audio is the
/// last audio part read, and what no field supplied keeps its earlier value;
/// fields the endpoint does not read change nothing.
pub proof fn lemma_last_field_wins(s: CollectorView, events: Seq<FieldEvent>)
    ensures
        receive_all(s, events).endpoint == s.endpoint,
        receive_all(s, events).primary == (match last_text(s.endpoint, events, FieldRole::PrimaryText) {
            Some(t) => t,
            None => s.primary,
        }),
        receive_all(s, events).secondary == (match last_text(s.endpoint, events, FieldRole::SecondaryText) {
            Some(t) => t,
            None => s.secondary,
        }),
        receive_all(s, events).audio == (match last_audio(s.endpoint, events) {
            Some(b) => b,
            None => s.audio,
        }),
    decreases events.len(),
{
    if events.len() > 0 {
        lemma_last_field_wins(s, events.drop_last());
    }
}

/// Each field name of a multipart endpoint fills its own part of the task,
/// over every state and value: the text to speak comes from `tts_text`
/// (`target_text` for editing), the second text from `prompt_text`,
/// `instruct_text` or `original_text`, and the audio from either of its two
/// names, `prompt_wav` and `prompt_speech` (for editing `original_speech` and
/// `prompt_wav`), which are interchangeable.
pub proof fn lemma_field_names_fill_their_parts(s: CollectorView, text: Seq<char>, bytes: Seq<u8>)
    ensures
        s.endpoint != MultipartEndpoint::Edit ==> {
            &&& receive_text_spec(s, "tts_text"@, text) == (CollectorView { primary: text, ..s })
            &&& receive_audio_spec(s, "prompt_wav"@, bytes) == (CollectorView { audio: bytes, ..s })
            &&& receive_audio_spec(s, "prompt_speech"@, bytes) == (CollectorView { audio: bytes, ..s })
        },
        s.endpoint == MultipartEndpoint::ZeroShot ==> receive_text_spec(s, "prompt_text"@, text)
            == (CollectorView { secondary: text, ..s }),
        s.endpoint == MultipartEndpoint::Instruct2 ==> receive_text_spec(s, "instruct_text"@, text)
            == (CollectorView { secondary: text, ..s }),
        s.endpoint == MultipartEndpoint::Edit ==> {
            &&& receive_text_spec(s, "target_text"@, text) == (CollectorView { primary: text, ..s })
            &&& receive_text_spec(s, "original_text"@, text) == (CollectorView { secondary: text, ..s })
            &&& receive_audio_spec(s, "original_speech"@, bytes) == (CollectorView { audio: bytes, ..s })
            &&& receive_audio_spec(s, "prompt_wav"@, bytes) == (CollectorView { audio: bytes, ..s })
        },
{
    reveal_strlit("tts_text");
    reveal_strlit("prompt_text");
    reveal_strlit("instruct_text");
    reveal_strlit("target_text");
    reveal_strlit("original_text");
    reveal_strlit("prompt_wav");
    reveal_strlit("prompt_speech");
    reveal_strlit("original_speech");
    assert("tts_text"@.len() == 8);
    assert("prompt_text"@.len() == 11);
    assert("instruct_text"@.len() == 13);
    assert("target_text"@.len() == 11);
    assert("original_text"@.len() == 13);
    assert("prompt_wav"@.len() == 10);
    assert("prompt_speech"@.len() == 13);
    assert("original_speech"@.len() == 15);
    assert("prompt_speech"@[0] != "instruct_text"@[0]);
    assert("prompt_text"@[0] != "target_text"@[0]);
}

/// The HTTP reply to a task: the audio stream, or an error message.
pub enum Reply<T> {
    Stream { content_type: String, body: T },
    Failure { status: u16, message: String },
}

/// The HTTP status of a reply: 200 for an audio stream, the failure's own
/// status otherwise.
pub open spec fn reply_status<T>(r: Reply<T>) -> u16 {
    match r {
        Reply::Stream { .. } => 200u16,
        Reply::Failure { status, .. } => status,
    }
}

impl<T> Reply<T> {
    /// The HTTP status to answer with.
    pub fn status(&self) -> (s: u16)
        ensures
            s == reply_status(*self),
    {
        match self {
            Reply::Stream { .. } => 200,
            Reply::Failure { status, .. } => *status,
        }
    }
}

/// The reply for the outcome of processing a task: a successful outcome is
/// streamed as `audio/x-wav`; a failed one answers 500 with its message.
pub fn reply_for<T>(outcome: Result<T, String>) -> (r: Reply<T>)
    ensures
        match outcome {
            Ok(b) => r matches Reply::Stream { content_type, body } && content_type@ == "audio/x-wav"@
                && body == b,
            Err(e) => r matches Reply::Failure { status, message } && status == 500
                && message@ == "Error processing request: "@ + e@,
        },
        reply_status(r) == (if outcome is Ok { 200u16 } else { 500u16 }),
{
    match outcome {
        Ok(body) => Reply::Stream { content_type: "audio/x-wav".to_owned(), body },
        Err(e) => {
            let message = "Error processing request: ".to_owned().concat(e.as_str());
            Reply::Failure { status: 500, message }
        },
    }
}

} // verus!
