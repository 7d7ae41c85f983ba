use cosyedit_runtime::engine::{
    backend_request, backend_request_failed, check_backend_status, stream_error, synthesis_inputs,
    BackendBody, InferenceTask, SimulatedSynthesis, SimulationAction, TaskPlan, WorkerPool,
};
use cosyedit_runtime::onnx::{ModelInventory, ModelKind};
use cosyedit_runtime::http::Endpoint;

fn texts(fields: &[cosyedit_runtime::engine::FormField]) -> Vec<(String, String)> {
    fields.iter().map(|f| (f.name.clone(), f.value.clone())).collect()
}

fn pair(a: &str, b: &str) -> (String, String) {
    (a.to_string(), b.to_string())
}

#[test]
fn pool_without_backend_simulates() {
    let pool = WorkerPool::new(None, Some("pretrained_models/CosyEdit"));
    assert_eq!(pool.model_dir(), Some("pretrained_models/CosyEdit"));
    let task = InferenceTask::Sft { tts_text: "hi".to_string(), spk_id: "a".to_string() };
    assert!(matches!(pool.process_task(task), TaskPlan::Simulate(_)));
}

#[test]
fn pool_with_loaded_models_runs_native() {
    let mut pool = WorkerPool::new(None, Some("models"));
    let mut models = ModelInventory::new();
    models.record_loaded(ModelKind::SpeakerEmbedding);
    pool.attach_models(models);
    let task = InferenceTask::Sft { tts_text: "hello".to_string(), spk_id: "spk01".to_string() };
    match pool.process_task(task) {
        TaskPlan::Native(job) => {
            assert_eq!(job.model_dir, "models");
            match job.task {
                InferenceTask::Sft { tts_text, spk_id } => assert_eq!((tts_text.as_str(), spk_id.as_str()), ("hello", "spk01")),
                _ => panic!("expected the same task"),
            }
        }
        _ => panic!("expected the native engine"),
    }
}

#[test]
fn pool_without_models_or_directory_simulates() {
    let pool = WorkerPool::new(None, Some("models"));
    let task = InferenceTask::Sft { tts_text: "hi".to_string(), spk_id: "a".to_string() };
    assert!(matches!(pool.process_task(task), TaskPlan::Simulate(_)));
    let mut pool = WorkerPool::new(None, None);
    let mut models = ModelInventory::new();
    models.record_loaded(ModelKind::FlowDecoder);
    pool.attach_models(models);
    let task = InferenceTask::Sft { tts_text: "hi".to_string(), spk_id: "a".to_string() };
    assert!(matches!(pool.process_task(task), TaskPlan::Simulate(_)));
}

#[test]
fn backend_wins_over_loaded_models() {
    let mut pool = WorkerPool::new(Some("http://b".to_string()), Some("models"));
    let mut models = ModelInventory::new();
    models.record_loaded(ModelKind::SpeechTokenizer);
    pool.attach_models(models);
    let task = InferenceTask::Sft { tts_text: "hi".to_string(), spk_id: "a".to_string() };
    assert!(matches!(pool.process_task(task), TaskPlan::Forward(_)));
}

#[test]
fn synthesis_inputs_of_each_task() {
    let i = synthesis_inputs(InferenceTask::Instruct {
        tts_text: "t".to_string(),
        spk_id: "s".to_string(),
        instruct_text: "i".to_string(),
    });
    assert_eq!(i.text, "t");
    assert_eq!(i.speaker.as_deref(), Some("s"));
    assert_eq!(i.instruction.as_deref(), Some("i"));
    assert!(i.reference_text.is_none() && i.reference_audio.is_none());

    let i = synthesis_inputs(InferenceTask::ZeroShot {
        tts_text: "t".to_string(),
        prompt_text: "p".to_string(),
        prompt_audio: vec![1],
    });
    assert_eq!((i.text.as_str(), i.reference_text.as_deref()), ("t", Some("p")));
    assert_eq!(i.reference_audio, Some(vec![1]));
    assert!(i.speaker.is_none() && i.instruction.is_none());

    let i = synthesis_inputs(InferenceTask::Edit {
        target_text: "new".to_string(),
        original_text: "old".to_string(),
        original_speech: vec![2, 3],
    });
    assert_eq!((i.text.as_str(), i.reference_text.as_deref()), ("new", Some("old")));
    assert_eq!(i.reference_audio, Some(vec![2, 3]));

    let i = synthesis_inputs(InferenceTask::Instruct2 {
        tts_text: "t".to_string(),
        instruct_text: "calm".to_string(),
        prompt_audio: vec![4],
    });
    assert_eq!((i.instruction.as_deref(), i.reference_audio), (Some("calm"), Some(vec![4])));

    let i = synthesis_inputs(InferenceTask::CrossLingual { tts_text: "t".to_string(), prompt_audio: vec![5] });
    assert_eq!((i.text.as_str(), i.reference_audio), ("t", Some(vec![5])));
    assert!(i.reference_text.is_none());

    let i = synthesis_inputs(InferenceTask::Sft { tts_text: "t".to_string(), spk_id: "s".to_string() });
    assert_eq!((i.text.as_str(), i.speaker.as_deref()), ("t", Some("s")));
}

#[test]
fn pool_with_backend_forwards() {
    let pool = WorkerPool::new(Some("http://127.0.0.1:8000".to_string()), None);
    assert_eq!(pool.model_dir(), None);
    let task = InferenceTask::Instruct {
        tts_text: "hi".to_string(),
        spk_id: "a".to_string(),
        instruct_text: "slowly".to_string(),
    };
    match pool.process_task(task) {
        TaskPlan::Forward(req) => {
            assert_eq!(req.url, "http://127.0.0.1:8000/inference_instruct");
            match req.body {
                BackendBody::Form(fields) => assert_eq!(
                    texts(&fields),
                    vec![pair("tts_text", "hi"), pair("spk_id", "a"), pair("instruct_text", "slowly")]
                ),
                _ => panic!("expected a form"),
            }
        }
        _ => panic!("expected forwarding"),
    }
}

#[test]
fn forwards_sft_as_form() {
    let req = backend_request(
        "http://b",
        InferenceTask::Sft { tts_text: "Hello world".to_string(), spk_id: "spk01".to_string() },
    );
    assert_eq!(req.url, "http://b/inference_sft");
    match req.body {
        BackendBody::Form(fields) => {
            assert_eq!(texts(&fields), vec![pair("tts_text", "Hello world"), pair("spk_id", "spk01")])
        }
        _ => panic!("expected a form"),
    }
}

#[test]
fn forwards_zero_shot_as_multipart() {
    let req = backend_request(
        "http://b",
        InferenceTask::ZeroShot {
            tts_text: "t".to_string(),
            prompt_text: "p".to_string(),
            prompt_audio: vec![1, 2, 3],
        },
    );
    assert_eq!(req.url, "http://b/inference_zero_shot");
    match req.body {
        BackendBody::Multipart { texts: t, file } => {
            assert_eq!(texts(&t), vec![pair("tts_text", "t"), pair("prompt_text", "p")]);
            assert_eq!(file.field, "prompt_wav");
            assert_eq!(file.file_name, "prompt.wav");
            assert_eq!(file.bytes, vec![1, 2, 3]);
        }
        _ => panic!("expected multipart"),
    }
}

#[test]
fn forwards_cross_lingual_and_instruct2() {
    let req = backend_request(
        "http://b",
        InferenceTask::CrossLingual { tts_text: "t".to_string(), prompt_audio: vec![9] },
    );
    assert_eq!(req.url, "http://b/inference_cross_lingual");
    match req.body {
        BackendBody::Multipart { texts: t, file } => {
            assert_eq!(texts(&t), vec![pair("tts_text", "t")]);
            assert_eq!((file.field.as_str(), file.file_name.as_str()), ("prompt_wav", "prompt.wav"));
            assert_eq!(file.bytes, vec![9]);
        }
        _ => panic!("expected multipart"),
    }
    let req = backend_request(
        "http://b",
        InferenceTask::Instruct2 {
            tts_text: "t".to_string(),
            instruct_text: "i".to_string(),
            prompt_audio: vec![],
        },
    );
    assert_eq!(req.url, "http://b/inference_instruct2");
    match req.body {
        BackendBody::Multipart { texts: t, file } => {
            assert_eq!(texts(&t), vec![pair("tts_text", "t"), pair("instruct_text", "i")]);
            assert_eq!(file.field, "prompt_wav");
        }
        _ => panic!("expected multipart"),
    }
}

#[test]
fn forwards_edit_with_original_speech() {
    let req = backend_request(
        "http://b",
        InferenceTask::Edit {
            target_text: "new".to_string(),
            original_text: "old".to_string(),
            original_speech: b"wav".to_vec(),
        },
    );
    assert_eq!(req.url, "http://b/inference_edit");
    match req.body {
        BackendBody::Multipart { texts: t, file } => {
            assert_eq!(texts(&t), vec![pair("target_text", "new"), pair("original_text", "old")]);
            assert_eq!(file.field, "original_speech");
            assert_eq!(file.file_name, "original.wav");
            assert_eq!(file.bytes, b"wav".to_vec());
        }
        _ => panic!("expected multipart"),
    }
}

#[test]
fn task_endpoints_match_paths() {
    let task = InferenceTask::CrossLingual { tts_text: String::new(), prompt_audio: vec![] };
    assert_eq!(task.endpoint(), Endpoint::CrossLingual);
    assert_eq!(task.endpoint().path(), "/inference_cross_lingual");
}

#[test]
fn backend_status_success_range() {
    assert!(check_backend_status(200).is_ok());
    assert!(check_backend_status(204).is_ok());
    assert!(check_backend_status(299).is_ok());
    assert_eq!(check_backend_status(199), Err("Backend error status: 199 <unknown status code>".to_string()));
    assert_eq!(check_backend_status(300), Err("Backend error status: 300 Multiple Choices".to_string()));
    assert_eq!(check_backend_status(404), Err("Backend error status: 404 Not Found".to_string()));
    assert_eq!(
        check_backend_status(500),
        Err("Backend error status: 500 Internal Server Error".to_string())
    );
}

#[test]
fn backend_error_messages() {
    assert_eq!(backend_request_failed("connection refused"), "Backend request failed: connection refused");
    assert_eq!(stream_error("reset"), "Stream error: reset");
}

#[test]
fn simulated_stream_sends_five_chunks_of_silence() {
    let mut sim = SimulatedSynthesis::new();
    let mut chunks = 0;
    let mut pauses = 0;
    let mut total = 0;
    for step in 0..10 {
        match sim.next_action() {
            SimulationAction::Send(chunk) => {
                assert_eq!(step % 2, 0);
                assert_eq!(chunk.len(), 1600);
                assert!(chunk.iter().all(|b| *b == 0));
                chunks += 1;
                total += chunk.len();
            }
            SimulationAction::Pause(ms) => {
                assert_eq!(step % 2, 1);
                assert_eq!(ms, 50);
                pauses += 1;
            }
            SimulationAction::Finish => panic!("finished early"),
        }
    }
    assert_eq!((chunks, pauses, total), (5, 5, 8000));
    for _ in 0..3 {
        assert!(matches!(sim.next_action(), SimulationAction::Finish));
    }
}

#[test]
fn simulated_stream_stops_when_listener_leaves() {
    let mut sim = SimulatedSynthesis::new();
    assert!(matches!(sim.next_action(), SimulationAction::Send(_)));
    sim.send_failed();
    for _ in 0..4 {
        assert!(matches!(sim.next_action(), SimulationAction::Finish));
    }
}
