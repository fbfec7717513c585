//! The classifier: from a picture, through the model, to a tagged detection.
//!
//! The model itself is not part of this library. It enters as a function from
//! the input tensor to the per-class scores, and everything before and after
//! that call is decided here.

use crate::bitmap::Image;
use crate::labels::{label_table, label_views, load_labels};
use crate::preprocess::{fits_memory, is_preprocessed, preprocess_imagenet_224, MODEL_SIDE};
use crate::score::{
    has_number, is_top_class, top_class, top_class_exists, top_class_is_unique, Score,
};
use crate::tagger::{is_chicken, is_chicken_label, is_predator, is_predator_label};
use crate::tensor::Tensor;
use crate::text::{decimal, push_decimal};
use vstd::prelude::*;

verus! {

/// What the classifier says of one picture.
#[derive(Clone, Debug)]
pub struct VisionResult {
    /// The name of the winning class.
    pub label: String,
    /// The winning score, as the model gave it.
    pub confidence: Score,
    pub chicken_detected: bool,
    pub predator_detected: bool,
}

/// Why a picture could not be classified.
#[derive(Clone, Debug)]
pub enum InferenceError {
    /// The picture could not be turned into a tensor; the cause is given.
    Preprocess(String),
    /// The model failed; the cause is given as the model reported it.
    Engine(String),
    /// The model gave no score that is a number.
    EmptyOutput,
}

impl InferenceError {
    /// The error in words.
    pub open spec fn spec_message(&self) -> Seq<char> {
        match self {
            InferenceError::Preprocess(cause) => cause@,
            InferenceError::Engine(cause) => cause@,
            InferenceError::EmptyOutput => "model returned empty output"@,
        }
    }

    /// The error in words.
    pub fn message(&self) -> (r: String)
        ensures
            r@ == self.spec_message(),
    {
        match self {
            InferenceError::Preprocess(cause) => cause.clone(),
            InferenceError::Engine(cause) => cause.clone(),
            InferenceError::EmptyOutput => "model returned empty output".to_owned(),
        }
    }
}

/// The name of class `idx`: its entry in the label table, or, beyond the
/// table, `class_` followed by the index in decimal.
pub open spec fn label_for(table: Seq<Seq<char>>, idx: int) -> Seq<char> {
    if 0 <= idx < table.len() {
        table[idx]
    } else {
        "class_"@ + decimal(idx as nat)
    }
}

/// The winning class of `scores`, where there is one.
pub open spec fn winner(scores: Seq<Score>) -> int {
    choose|idx: int| is_top_class(scores, idx)
}

/// Whether `result` is the detection for `scores` under the label table
/// `table`: the winner's name and score, tagged by the name.
pub open spec fn describes(result: &VisionResult, table: Seq<Seq<char>>, scores: Seq<Score>) -> bool {
    &&& result.label@ == label_for(table, winner(scores))
    &&& result.confidence == scores[winner(scores)]
    &&& result.chicken_detected == is_chicken(result.label@)
    &&& result.predator_detected == is_predator(result.label@)
}

/// Whether `result` is what classification returns for the scores `scores`.
pub open spec fn follows_from_scores(
    table: Seq<Seq<char>>,
    scores: Seq<Score>,
    result: &Result<VisionResult, InferenceError>,
) -> bool {
    match result {
        Ok(detection) => has_number(scores) && describes(detection, table, scores),
        Err(error) => !has_number(scores) && error is EmptyOutput,
    }
}

/// Whether `result` is what classification returns when the model answered
/// `output`: a failure of the model is handed on with its cause, scores are
/// classified.
pub open spec fn follows_from_output(
    table: Seq<Seq<char>>,
    output: &Result<Vec<Score>, String>,
    result: &Result<VisionResult, InferenceError>,
) -> bool {
    match output {
        Ok(scores) => follows_from_scores(table, scores@, result),
        Err(cause) => result matches Err(InferenceError::Engine(reported)) && reported@ == cause@,
    }
}

/// Whether `tensor` can be given to the model: it has the model's shape,
/// and every entry is a finite number.
pub open spec fn accepts_model_input(tensor: &Tensor) -> bool {
    &&& tensor.size == MODEL_SIDE
    &&& tensor.wf()
    &&& forall|i: int|
        0 <= i < tensor.data@.len() ==> (Score { bits: #[trigger] tensor.data@[i] }).is_finite()
}

/// Without scores there is no detection: classification of an empty score
/// vector fails, saying that the output was empty.
pub proof fn empty_scores_fail(
    table: Seq<Seq<char>>,
    scores: Seq<Score>,
    result: &Result<VisionResult, InferenceError>,
)
    requires
        scores.len() == 0,
        follows_from_scores(table, scores, result),
    ensures
        result matches Err(InferenceError::EmptyOutput),
{
}

/// A detection names a class that the scores hold: the winner is an index
/// into the scores, whatever the size of the label table.
pub proof fn detection_names_a_scored_class(
    table: Seq<Seq<char>>,
    scores: Seq<Score>,
    result: &Result<VisionResult, InferenceError>,
)
    requires
        follows_from_scores(table, scores, result),
        result is Ok,
    ensures
        0 <= winner(scores) < scores.len(),
        is_top_class(scores, winner(scores)),
{
    top_class_exists(scores);
}

/// Classification is a function of the label table and the scores: two
/// results for the same table and scores are both failures, or detections
/// with the same label, confidence and tags.
pub proof fn classification_is_unique(
    table: Seq<Seq<char>>,
    scores: Seq<Score>,
    first: &Result<VisionResult, InferenceError>,
    second: &Result<VisionResult, InferenceError>,
)
    requires
        follows_from_scores(table, scores, first),
        follows_from_scores(table, scores, second),
    ensures
        match (first, second) {
            (Ok(a), Ok(b)) => a.label@ == b.label@ && a.confidence == b.confidence
                && a.chicken_detected == b.chicken_detected && a.predator_detected
                == b.predator_detected,
            (Err(a), Err(b)) => a is EmptyOutput && b is EmptyOutput,
            _ => false,
        },
{
}

/// The index that wins is the one that `winner` names.
pub proof fn winner_is(scores: Seq<Score>, idx: int)
    requires
        is_top_class(scores, idx),
    ensures
        winner(scores) == idx,
{
    top_class_is_unique(scores, idx, winner(scores));
}

/// The name of class `idx` under the label table `labels`.
pub fn resolve_label(labels: &Vec<String>, idx: usize) -> (label: String)
    ensures
        label@ == label_for(label_views(labels@), idx as int),
{
    if idx < labels.len() {
        labels[idx].clone()
    } else {
        let mut label = "class_".to_owned();
        push_decimal(&mut label, idx as u128);
        label
    }
}

/// Classifies a score vector under a label table: the first maximum wins,
/// its class is named and the name is tagged.
pub fn classify_scores(labels: &Vec<String>, scores: &[Score]) -> (r: Result<
    VisionResult,
    InferenceError,
>)
    ensures
        follows_from_scores(label_views(labels@), scores@, &r),
{
    match top_class(scores) {
        Some((idx, confidence)) => {
            proof {
                winner_is(scores@, idx as int);
            }
            let label = resolve_label(labels, idx);
            let chicken_detected = is_chicken_label(label.as_str());
            let predator_detected = is_predator_label(label.as_str());
            Ok(VisionResult { label, confidence, chicken_detected, predator_detected })
        },
        None => Err(InferenceError::EmptyOutput),
    }
}

/// A classifier: where its model came from, the key it was loaded with, and
/// its label table.
pub struct AiVision {
    pub model_path: String,
    pub api_key: String,
    /// The label table: entry `i` names class `i` of the model.
    pub labels: Vec<String>,
}

impl AiVision {
    /// The label table, as texts.
    pub open spec fn table(&self) -> Seq<Seq<char>> {
        label_views(self.labels@)
    }

    /// Sets up the classifier for the model at `path`, with the label table
    /// read from `label_source`, the content of the label resource where
    /// there is one.
    pub fn load_model(path: &str, key: &str, label_source: Option<&str>) -> (vision: AiVision)
        ensures
            vision.model_path@ == path@,
            vision.api_key@ == key@,
            vision.table() == match label_source {
                Some(text) => label_table(text@),
                None => Seq::<Seq<char>>::empty(),
            },
    {
        AiVision {
            model_path: path.to_owned(),
            api_key: key.to_owned(),
            labels: load_labels(label_source),
        }
    }

    /// What the classifier returns once the model has answered `output`.
    pub fn classify_output(&self, output: &Result<Vec<Score>, String>) -> (r: Result<
        VisionResult,
        InferenceError,
    >)
        ensures
            follows_from_output(self.table(), output, &r),
    {
        match output {
            Ok(scores) => classify_scores(&self.labels, scores.as_slice()),
            Err(cause) => Err(InferenceError::Engine(cause.clone())),
        }
    }

    /// Classifies a picture: it is preprocessed, the tensor is given to
    /// `engine`, the model, once, and its answer is classified.
    pub fn classify_dynamic_image<F: Fn(&Tensor) -> Result<Vec<Score>, String>>(
        &self,
        image: &Image,
        engine: F,
    ) -> (r: Result<VisionResult, InferenceError>)
        requires
            forall|tensor: &Tensor| accepts_model_input(tensor) ==> call_requires(engine, (tensor,)),
        ensures
            !fits_memory(image.spec_width(), MODEL_SIDE) ==> r matches Err(
                InferenceError::Preprocess(_),
            ),
            fits_memory(image.spec_width(), MODEL_SIDE) ==> exists|
                tensor: &Tensor,
                output: Result<Vec<Score>, String>,
            |
                {
                    &&& is_preprocessed(image, MODEL_SIDE, tensor)
                    &&& accepts_model_input(tensor)
                    &&& call_ensures(engine, (tensor,), output)
                    &&& follows_from_output(self.table(), &output, &r)
                },
    {
        match preprocess_imagenet_224(image) {
            Ok(tensor) => {
                assert(accepts_model_input(&tensor));
                let output = engine(&tensor);
                self.classify_output(&output)
            },
            Err(cause) => Err(InferenceError::Preprocess(cause)),
        }
    }
}

/// An engine for a build without a model: it fails on every tensor, saying
/// that vision is disabled.
pub fn disabled_engine(tensor: &Tensor) -> (output: Result<Vec<Score>, String>)
    ensures
        output matches Err(cause) && cause@ == "local vision is disabled"@,
{
    Err("local vision is disabled".to_owned())
}

} // verus!
