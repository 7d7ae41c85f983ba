use cosyedit_runtime::engine::InferenceTask;
use cosyedit_runtime::http::{
    field_role, reply_for, Endpoint, FieldRole, InstructForm, MultipartCollector, MultipartEndpoint,
    Reply, RequestBody,
};

#[test]
fn endpoint_table() {
    let all = Endpoint::all();
    let paths: Vec<&str> = all.iter().map(|e| e.path()).collect();
    assert_eq!(
        paths,
        vec![
            "/inference_sft",
            "/inference_zero_shot",
            "/inference_cross_lingual",
            "/inference_instruct",
            "/inference_instruct2",
            "/inference_edit",
        ]
    );
    assert_eq!(Endpoint::Sft.body(), RequestBody::Form);
    assert_eq!(Endpoint::Instruct.body(), RequestBody::Form);
    assert_eq!(Endpoint::Edit.body(), RequestBody::Multipart);
    assert!(Endpoint::Sft.accepts_query());
    assert!(!Endpoint::Instruct.accepts_query());
    assert_eq!(Endpoint::ZeroShot.multipart(), Some(MultipartEndpoint::ZeroShot));
    assert_eq!(Endpoint::Instruct.multipart(), None);
}

#[test]
fn field_roles_and_aliases() {
    assert_eq!(field_role(MultipartEndpoint::ZeroShot, "tts_text"), FieldRole::PrimaryText);
    assert_eq!(field_role(MultipartEndpoint::ZeroShot, "prompt_text"), FieldRole::SecondaryText);
    assert_eq!(field_role(MultipartEndpoint::ZeroShot, "prompt_wav"), FieldRole::Audio);
    assert_eq!(field_role(MultipartEndpoint::ZeroShot, "prompt_speech"), FieldRole::Audio);
    assert_eq!(field_role(MultipartEndpoint::ZeroShot, "original_speech"), FieldRole::Ignored);
    assert_eq!(field_role(MultipartEndpoint::CrossLingual, "prompt_text"), FieldRole::Ignored);
    assert_eq!(field_role(MultipartEndpoint::Instruct2, "instruct_text"), FieldRole::SecondaryText);
    assert_eq!(field_role(MultipartEndpoint::Edit, "target_text"), FieldRole::PrimaryText);
    assert_eq!(field_role(MultipartEndpoint::Edit, "original_text"), FieldRole::SecondaryText);
    assert_eq!(field_role(MultipartEndpoint::Edit, "prompt_wav"), FieldRole::Audio);
    assert_eq!(field_role(MultipartEndpoint::Edit, "prompt_speech"), FieldRole::Ignored);
    assert_eq!(field_role(MultipartEndpoint::Edit, "tts_text"), FieldRole::Ignored);
    assert_eq!(field_role(MultipartEndpoint::Edit, ""), FieldRole::Ignored);
}

#[test]
fn last_field_wins_and_unknown_fields_are_ignored() {
    let mut c = MultipartCollector::new(MultipartEndpoint::ZeroShot);
    c.receive_text("tts_text", "first".to_string());
    c.receive_audio("prompt_wav", vec![1]);
    c.receive_text("unknown", "x".to_string());
    c.receive_text("tts_text", "second".to_string());
    c.receive_audio("prompt_speech", vec![2, 2]);
    c.receive_audio("tts_text", vec![7]);
    match c.into_task() {
        InferenceTask::ZeroShot { tts_text, prompt_text, prompt_audio } => {
            assert_eq!(tts_text, "second");
            assert_eq!(prompt_text, "");
            assert_eq!(prompt_audio, vec![2, 2]);
        }
        _ => panic!("expected a zero-shot task"),
    }
}

#[test]
fn missing_multipart_fields_are_empty() {
    let c = MultipartCollector::new(MultipartEndpoint::CrossLingual);
    assert_eq!(c.endpoint(), MultipartEndpoint::CrossLingual);
    match c.into_task() {
        InferenceTask::CrossLingual { tts_text, prompt_audio } => {
            assert!(tts_text.is_empty());
            assert!(prompt_audio.is_empty());
        }
        _ => panic!("expected a cross-lingual task"),
    }
}

#[test]
fn instruct2_fields() {
    let mut c = MultipartCollector::new(MultipartEndpoint::Instruct2);
    c.receive_text("instruct_text", "happy".to_string());
    c.receive_text("tts_text", "hi".to_string());
    c.receive_audio("prompt_speech", vec![5]);
    match c.into_task() {
        InferenceTask::Instruct2 { tts_text, instruct_text, prompt_audio } => {
            assert_eq!((tts_text.as_str(), instruct_text.as_str()), ("hi", "happy"));
            assert_eq!(prompt_audio, vec![5]);
        }
        _ => panic!("expected an instruct2 task"),
    }
}

#[test]
fn instruct_form_task() {
    let form = InstructForm {
        tts_text: "a".to_string(),
        spk_id: "b".to_string(),
        instruct_text: "c".to_string(),
    };
    match form.into_task() {
        InferenceTask::Instruct { tts_text, spk_id, instruct_text } => {
            assert_eq!((tts_text.as_str(), spk_id.as_str(), instruct_text.as_str()), ("a", "b", "c"));
        }
        _ => panic!("expected an instruct task"),
    }
}

#[test]
fn failed_task_reply() {
    let reply = reply_for::<()>(Err("Backend error status: 404 Not Found".to_string()));
    assert_eq!(reply.status(), 500);
    match reply {
        Reply::Failure { status, message } => {
            assert_eq!(status, 500);
            assert_eq!(message, "Error processing request: Backend error status: 404 Not Found");
        }
        Reply::Stream { .. } => panic!("expected a failure"),
    }
}
