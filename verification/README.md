# cosyedit_runtime

A speech synthesis and speech editing runtime server. The verified library
(`src/`) holds the request logic:

- `engine`: inference tasks, the worker pool that forwards a task to an
  upstream backend, hands it to the native ONNX engine when models are loaded,
  or answers it with a simulated audio stream, the inputs of the native
  engine, the backend
  request for each task, the judgement of the backend's status, and the
  simulated stream as a step machine.
- `http`: the endpoint table, form and multipart decoding into tasks (the last
  field of a name wins; aliases are interchangeable), and the reply to a task.
- `grpc`: the gRPC payloads, their tasks and the error statuses.
- `onnx`: which ONNX model files to load, and which models a loading pass
  leaves loaded.

`app/` is the server around it: argument parsing, the axum and tonic servers,
the reqwest client, the tokio tasks, and the `ort` model engine, which loads
the sessions and computes on floating-point audio. Native tasks are answered
by the engine's synthesis (`run_sft_inference`); the embedding, tokenizer and
flow-decoder methods are there for the model pipeline but no request calls
them yet.
