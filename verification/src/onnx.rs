//! Selection of the ONNX model files of the local inference mode, and the
//! record of which models are loaded.

use vstd::prelude::*;

verus! {

/// The ONNX models the local mode uses.
#[derive(Clone, Copy, Debug, PartialEq, Eq, Structural)]
pub enum ModelKind {
    /// The CAM++ speaker embedding model.
    SpeakerEmbedding,
    /// The speech tokenizer.
    SpeechTokenizer,
    /// The flow decoder estimator.
    FlowDecoder,
}

/// The file names under which a model may be found in the model directory,
/// most preferred first.
pub open spec fn candidate_files_spec(kind: ModelKind) -> Seq<Seq<char>> {
    match kind {
        ModelKind::SpeakerEmbedding => seq!["campplus.onnx"@],
        ModelKind::SpeechTokenizer => seq!["speech_tokenizer_v2.onnx"@, "speech_tokenizer_v3.onnx"@],
        ModelKind::FlowDecoder => seq!["flow.decoder.estimator.fp32.onnx"@],
    }
}

impl ModelKind {
    /// Every model kind, in the order they are loaded.
    pub fn all() -> (v: Vec<ModelKind>)
        ensures
            v@ == seq![ModelKind::SpeakerEmbedding, ModelKind::SpeechTokenizer, ModelKind::FlowDecoder],
    {
        let mut v: Vec<ModelKind> = Vec::new();
        v.push(ModelKind::SpeakerEmbedding);
        v.push(ModelKind::SpeechTokenizer);
        v.push(ModelKind::FlowDecoder);
        v
    }

    /// The file names to look for, most preferred first.
    pub fn candidate_files(&self) -> (v: Vec<String>)
        ensures
            v@.map_values(|s: String| s@) == candidate_files_spec(*self),
    {
        let mut v: Vec<String> = Vec::new();
        match self {
            ModelKind::SpeakerEmbedding => {
                v.push("campplus.onnx".to_owned());
            },
            ModelKind::SpeechTokenizer => {
                v.push("speech_tokenizer_v2.onnx".to_owned());
                v.push("speech_tokenizer_v3.onnx".to_owned());
            },
            ModelKind::FlowDecoder => {
                v.push("flow.decoder.estimator.fp32.onnx".to_owned());
            },
        }
        assert(v@.map_values(|s: String| s@) =~= candidate_files_spec(*self));
        v
    }
}

/// The file to load among candidates of which `exists[i]` tells whether the
/// i-th is present: the first present one, or none when none is.
pub fn choose_candidate(exists: &Vec<bool>) -> (r: Option<usize>)
    ensures
        match r {
            Some(i) => i < exists@.len() && exists@[i as int]
                && forall|j: int| 0 <= j < i ==> !exists@[j],
            None => forall|j: int| 0 <= j < exists@.len() ==> !exists@[j],
        },
{
    let mut i: usize = 0;
    while i < exists.len()
        invariant
            i <= exists@.len(),
            forall|j: int| 0 <= j < i ==> !exists@[j],
        decreases exists@.len() - i,
    {
        if exists[i] {
            return Some(i);
        }
        i = i + 1;
    }
    None
}

/// What the server does about the model directory at startup.
#[derive(Clone, Copy, Debug, PartialEq, Eq, Structural)]
pub enum ModelSetup {
    /// Fetch the requested model files into the directory.
    Download,
    /// The directory is missing: tell how to fetch the models.
    ReportMissing,
    /// Use the directory as it is.
    UseExisting,
}

/// The startup decision: with downloading requested the models are fetched,
/// whether or not the directory exists; otherwise a missing directory is
/// reported.
pub fn model_setup(dir_exists: bool, download_models: bool) -> (s: ModelSetup)
    ensures
        s == (if download_models {
            ModelSetup::Download
        } else if !dir_exists {
            ModelSetup::ReportMissing
        } else {
            ModelSetup::UseExisting
        }),
{
    if (!dir_exists || download_models) && download_models {
        ModelSetup::Download
    } else if !dir_exists {
        ModelSetup::ReportMissing
    } else {
        ModelSetup::UseExisting
    }
}

/// Which models have been loaded.
#[derive(Clone, Copy, Debug)]
pub struct ModelInventory {
    speaker_embedding: bool,
    speech_tokenizer: bool,
    flow_decoder: bool,
}

impl View for ModelInventory {
    type V = Set<ModelKind>;

    closed spec fn view(&self) -> Set<ModelKind> {
        Set::new(
            |k: ModelKind| match k {
                ModelKind::SpeakerEmbedding => self.speaker_embedding,
                ModelKind::SpeechTokenizer => self.speech_tokenizer,
                ModelKind::FlowDecoder => self.flow_decoder,
            },
        )
    }
}

impl ModelInventory {
    /// No model loaded.
    pub fn new() -> (m: Self)
        ensures
            m@ == Set::<ModelKind>::empty(),
    {
        let m = ModelInventory { speaker_embedding: false, speech_tokenizer: false, flow_decoder: false };
        assert(m@ =~= Set::<ModelKind>::empty());
        m
    }

    /// Records that the model `kind` was loaded.
    pub fn record_loaded(&mut self, kind: ModelKind)
        ensures
            final(self)@ == old(self)@.insert(kind),
    {
        match kind {
            ModelKind::SpeakerEmbedding => self.speaker_embedding = true,
            ModelKind::SpeechTokenizer => self.speech_tokenizer = true,
            ModelKind::FlowDecoder => self.flow_decoder = true,
        }
        assert(final(self)@ =~= old(self)@.insert(kind));
    }

    /// Whether the model `kind` is loaded.
    pub fn has(&self, kind: ModelKind) -> (b: bool)
        ensures
            b == self@.contains(kind),
    {
        match kind {
            ModelKind::SpeakerEmbedding => self.speaker_embedding,
            ModelKind::SpeechTokenizer => self.speech_tokenizer,
            ModelKind::FlowDecoder => self.flow_decoder,
        }
    }

    /// Whether any model is loaded.
    pub fn is_loaded(&self) -> (b: bool)
        ensures
            b == exists|k: ModelKind| self@.contains(k),
    {
        let b = self.speaker_embedding || self.speech_tokenizer || self.flow_decoder;
        assert(self@.contains(ModelKind::SpeakerEmbedding) == self.speaker_embedding);
        assert(self@.contains(ModelKind::SpeechTokenizer) == self.speech_tokenizer);
        assert(self@.contains(ModelKind::FlowDecoder) == self.flow_decoder);
        b
    }
}

/// What happened when the server tried to load one model.
#[derive(Clone, Copy, Debug, PartialEq, Eq, Structural)]
pub enum LoadOutcome {
    /// None of its candidate files is in the model directory.
    Missing,
    /// The chosen file was loaded.
    Loaded,
    /// The chosen file could not be loaded; the other models are still tried.
    Failed,
}

/// The models that a loading pass leaves loaded: exactly those with a
/// `Loaded` outcome.
pub open spec fn loaded_by(outcomes: Seq<(ModelKind, LoadOutcome)>) -> Set<ModelKind> {
    Set::new(|k: ModelKind| exists|i: int| 0 <= i < outcomes.len() && #[trigger] outcomes[i] == (k, LoadOutcome::Loaded))
}

/// The inventory after a loading pass over the model directory, from the
/// outcome of each model: a model is loaded exactly when its chosen file
/// loaded, and a missing or failed model leaves the others as they are.
pub fn inventory_after_loading(outcomes: &Vec<(ModelKind, LoadOutcome)>) -> (m: ModelInventory)
    ensures
        m@ == loaded_by(outcomes@),
{
    let mut m = ModelInventory::new();
    let mut i: usize = 0;
    while i < outcomes.len()
        invariant
            i <= outcomes@.len(),
            m@ == loaded_by(outcomes@.take(i as int)),
        decreases outcomes@.len() - i,
    {
        let (kind, outcome) = outcomes[i];
        if outcome == LoadOutcome::Loaded {
            m.record_loaded(kind);
        }
        proof {
            let prev = outcomes@.take(i as int);
            let next = outcomes@.take(i + 1);
            assert forall|k: ModelKind| #![auto] loaded_by(next).contains(k) == m@.contains(k) by {
                if loaded_by(next).contains(k) {
                    let j = choose|j: int| 0 <= j < next.len() && #[trigger] next[j] == (k, LoadOutcome::Loaded);
                    if j < i {
                        assert(prev[j] == next[j]);
                    }
                }
                if loaded_by(prev).contains(k) {
                    let j = choose|j: int| 0 <= j < prev.len() && #[trigger] prev[j] == (k, LoadOutcome::Loaded);
                    assert(next[j] == prev[j]);
                }
                if m@.contains(k) && !loaded_by(prev).contains(k) {
                    assert(next[i as int] == (k, LoadOutcome::Loaded));
                }
            }
            assert(m@ =~= loaded_by(next));
        }
        i = i + 1;
    }
    assert(outcomes@.take(outcomes@.len() as int) =~= outcomes@);
    m
}

/// A model that is missing or fails to load changes nothing: the models
/// loaded by the rest of the pass stay exactly as they are.
pub proof fn lemma_failed_load_changes_nothing(
    outcomes: Seq<(ModelKind, LoadOutcome)>,
    kind: ModelKind,
    outcome: LoadOutcome,
)
    requires
        outcome != LoadOutcome::Loaded,
    ensures
        loaded_by(outcomes.push((kind, outcome))) == loaded_by(outcomes),
{
    let next = outcomes.push((kind, outcome));
    assert forall|k: ModelKind| #![auto] loaded_by(next).contains(k) == loaded_by(outcomes).contains(k) by {
        if loaded_by(next).contains(k) {
            let j = choose|j: int| 0 <= j < next.len() && #[trigger] next[j] == (k, LoadOutcome::Loaded);
            assert(outcomes[j] == next[j]);
        }
        if loaded_by(outcomes).contains(k) {
            let j = choose|j: int| 0 <= j < outcomes.len() && #[trigger] outcomes[j] == (k, LoadOutcome::Loaded);
            assert(next[j] == outcomes[j]);
        }
    }
    assert(loaded_by(next) =~= loaded_by(outcomes));
}

/// Loading only adds: once a model is recorded as loaded the inventory reports
/// that some model is loaded, and every model loaded before stays loaded.
pub proof fn lemma_record_keeps_loaded(before: Set<ModelKind>, kind: ModelKind)
    ensures
        exists|k: ModelKind| before.insert(kind).contains(k),
        before.subset_of(before.insert(kind)),
{
    assert(before.insert(kind).contains(kind));
}

} // verus!
