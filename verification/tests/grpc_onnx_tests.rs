use std::sync::Arc;

use cosyedit_runtime::engine::{InferenceTask, TaskPlan, WorkerPool};
use cosyedit_runtime::grpc::{
    chunk_response, processing_failure, task_from_payload, CosyVoiceGrpcService, GrpcCode, GrpcPayload,
};
use cosyedit_runtime::onnx::{
    choose_candidate, inventory_after_loading, model_setup, LoadOutcome, ModelInventory, ModelKind, ModelSetup,
};

#[test]
fn missing_payload_is_invalid_argument() {
    match task_from_payload(None) {
        Err(st) => {
            assert_eq!(st.code, GrpcCode::InvalidArgument);
            assert_eq!(st.message, "Missing request payload");
        }
        Ok(_) => panic!("expected an error"),
    }
}

#[test]
fn payloads_become_tasks() {
    let task = task_from_payload(Some(GrpcPayload::InstructRequest {
        tts_text: "t".to_string(),
        spk_id: "s".to_string(),
        instruct_text: "i".to_string(),
    }));
    match task {
        Ok(InferenceTask::Instruct { tts_text, spk_id, instruct_text }) => {
            assert_eq!((tts_text.as_str(), spk_id.as_str(), instruct_text.as_str()), ("t", "s", "i"))
        }
        _ => panic!("expected an instruct task"),
    }
    let task = task_from_payload(Some(GrpcPayload::ZeroShotRequest {
        tts_text: "t".to_string(),
        prompt_text: "p".to_string(),
        prompt_audio: vec![4, 5],
    }));
    assert!(matches!(task, Ok(InferenceTask::ZeroShot { .. })));
}

#[test]
fn grpc_service_routes_through_pool() {
    let service = CosyVoiceGrpcService::new(Arc::new(WorkerPool::new(Some("http://up".to_string()), None)));
    let plan = service.inference(Some(GrpcPayload::CrossLingualRequest {
        tts_text: "t".to_string(),
        prompt_audio: vec![1],
    }));
    match plan {
        Ok(TaskPlan::Forward(req)) => assert_eq!(req.url, "http://up/inference_cross_lingual"),
        _ => panic!("expected forwarding"),
    }
    let local = CosyVoiceGrpcService::new(Arc::new(WorkerPool::new(None, None)));
    let plan = local.inference(Some(GrpcPayload::SftRequest {
        tts_text: "t".to_string(),
        spk_id: "s".to_string(),
    }));
    assert!(matches!(plan, Ok(TaskPlan::Simulate(_))));
    assert!(local.inference(None).is_err());
}

#[test]
fn chunks_and_failures() {
    match chunk_response(Ok(vec![1, 2])) {
        Ok(resp) => assert_eq!(resp.tts_audio, vec![1, 2]),
        Err(_) => panic!("expected audio"),
    }
    match chunk_response(Err("Stream error: reset".to_string())) {
        Err(st) => {
            assert_eq!(st.code, GrpcCode::Internal);
            assert_eq!(st.message, "Stream error: reset");
        }
        Ok(_) => panic!("expected an error"),
    }
    let st = processing_failure("boom".to_string());
    assert_eq!((st.code, st.message.as_str()), (GrpcCode::Internal, "boom"));
}

#[test]
fn model_files_and_choice() {
    assert_eq!(
        ModelKind::SpeechTokenizer.candidate_files(),
        vec!["speech_tokenizer_v2.onnx".to_string(), "speech_tokenizer_v3.onnx".to_string()]
    );
    assert_eq!(
        ModelKind::FlowDecoder.candidate_files(),
        vec!["flow.decoder.estimator.fp32.onnx".to_string()]
    );
    assert_eq!(choose_candidate(&vec![true, true]), Some(0));
    assert_eq!(choose_candidate(&vec![false, true]), Some(1));
    assert_eq!(choose_candidate(&vec![false, false]), None);
    assert_eq!(choose_candidate(&vec![]), None);
    assert_eq!(ModelKind::all().len(), 3);
}

#[test]
fn inventory_records_loaded_models() {
    let mut inv = ModelInventory::new();
    inv.record_loaded(ModelKind::FlowDecoder);
    assert!(inv.is_loaded());
    assert!(inv.has(ModelKind::FlowDecoder));
    assert!(!inv.has(ModelKind::SpeechTokenizer));
}

#[test]
fn startup_model_setup() {
    assert_eq!(model_setup(false, true), ModelSetup::Download);
    assert_eq!(model_setup(true, true), ModelSetup::Download);
    assert_eq!(model_setup(false, false), ModelSetup::ReportMissing);
    assert_eq!(model_setup(true, false), ModelSetup::UseExisting);
}

#[test]
fn loading_pass_keeps_only_loaded_models() {
    let outcomes = vec![
        (ModelKind::SpeakerEmbedding, LoadOutcome::Failed),
        (ModelKind::SpeechTokenizer, LoadOutcome::Loaded),
        (ModelKind::FlowDecoder, LoadOutcome::Missing),
    ];
    let inv = inventory_after_loading(&outcomes);
    assert!(inv.is_loaded());
    assert!(!inv.has(ModelKind::SpeakerEmbedding));
    assert!(inv.has(ModelKind::SpeechTokenizer));
    assert!(!inv.has(ModelKind::FlowDecoder));
    let none = inventory_after_loading(&vec![(ModelKind::FlowDecoder, LoadOutcome::Failed)]);
    assert!(!none.is_loaded());
    assert!(!inventory_after_loading(&vec![]).is_loaded());
}
