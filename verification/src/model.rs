//! The trained detection model: the shape that an artifact must have, and the
//! features it weighs.
use vstd::prelude::*;
use crate::detection;
use crate::detection::{ExtractedFeatures, FeaturesView};
use crate::text;

verus! {

/// The features that a model weighs, in order.
pub open spec fn feature_names() -> Seq<Seq<char>> {
    seq![
        "ua_is_known_bad"@,
        "ua_is_empty"@,
        "ua_library_is_bot"@,
        "path_disallowed"@,
        "path_is_wp"@,
        "referer_is_empty"@,
        "ua_is_known_benign_crawler"@,
        "request_frequency"@,
        "rapid_repeat"@,
        "fingerprint_reuse_count"@,
    ]
}

/// How many features a model weighs.
pub const MODEL_FEATURE_COUNT: usize = 10;

/// The features that a model weighs, in order.
pub fn model_feature_names() -> (r: Vec<String>)
    ensures
        text::views(r@) == feature_names(),
{
    let names = [
        "ua_is_known_bad",
        "ua_is_empty",
        "ua_library_is_bot",
        "path_disallowed",
        "path_is_wp",
        "referer_is_empty",
        "ua_is_known_benign_crawler",
        "request_frequency",
        "rapid_repeat",
        "fingerprint_reuse_count",
    ];
    let mut out: Vec<String> = Vec::new();
    let mut i: usize = 0;
    while i < 10
        invariant
            i <= 10,
            names@.len() == 10,
            out@.len() == i,
            forall|j: int| 0 <= j < i ==> (#[trigger] out@[j])@ == names@[j]@,
        decreases 10 - i,
    {
        out.push(names[i].to_string());
        i += 1;
    }
    assert(text::views(out@) =~= feature_names());
    out
}

/// What is checked of a model artifact before it is used. Whether the bias and
/// the weights are finite numbers is measured by the reader of the artifact.
#[derive(Debug)]
pub struct TrainedLinearModel {
    pub schema_version: u32,
    pub algorithm: String,
    pub feature_names: Vec<String>,
    pub weight_count: usize,
    pub all_finite: bool,
}

impl TrainedLinearModel {
    /// The artifact has the one supported shape.
    pub open spec fn is_supported(&self) -> bool {
        &&& self.schema_version == 1
        &&& self.algorithm@ == "logistic_regression"@
        &&& text::views(self.feature_names@) == feature_names()
        &&& self.weight_count == MODEL_FEATURE_COUNT
        &&& self.all_finite
    }

    /// Accepts the one supported shape.
    pub fn validate(&self) -> (r: Result<(), String>)
        ensures
            match r {
                Ok(_) => self.is_supported(),
                Err(message) => !self.is_supported() && message@
                    == "unsupported or malformed detection model artifact"@,
            },
    {
        let expected = model_feature_names();
        let same_names = same_texts(&self.feature_names, &expected);
        if self.schema_version != 1 || !text::text_eq(
            self.algorithm.as_str(),
            "logistic_regression",
        ) || !same_names || self.weight_count != MODEL_FEATURE_COUNT || !self.all_finite {
            return Err("unsupported or malformed detection model artifact".to_string());
        }
        Ok(())
    }
}

/// Whether two lists hold the same texts in the same order.
pub fn same_texts(a: &Vec<String>, b: &Vec<String>) -> (r: bool)
    ensures
        r == (text::views(a@) == text::views(b@)),
{
    assert(text::views(a@).len() == a@.len() && text::views(b@).len() == b@.len());
    if a.len() != b.len() {
        return false;
    }
    let mut i: usize = 0;
    while i < a.len()
        invariant
            i <= a@.len() == b@.len(),
            forall|j: int| 0 <= j < i ==> (#[trigger] a@[j])@ == b@[j]@,
        decreases a@.len() - i,
    {
        if !text::text_eq(a[i].as_str(), b[i].as_str()) {
            assert(text::views(a@)[i as int] != text::views(b@)[i as int]);
            return false;
        }
        i += 1;
    }
    assert(text::views(a@) =~= text::views(b@));
    true
}

/// The features as fractions: the numerators, over the scales.
pub open spec fn weighed_features(features: FeaturesView) -> Seq<int> {
    seq![
        features.ua_is_known_bad as int,
        features.ua_is_empty as int,
        features.ua_library_is_bot as int,
        features.path_disallowed as int,
        features.path_is_wp as int,
        features.referer_is_empty as int,
        features.ua_is_known_benign_crawler as int,
        detection::smaller(features.request_frequency as int, 100),
        detection::bit(detection::is_rapid(features.time_since_last)) as int,
        detection::smaller(features.fingerprint_reuse_count as int, 10),
    ]
}

/// What the features are fractions of.
pub open spec fn feature_scales() -> Seq<int> {
    seq![1, 1, 1, 1, 1, 1, 1, 100, 1, 10]
}

/// The features that a model weighs, each as a numerator and a denominator.
pub fn model_feature_vector(features: &ExtractedFeatures) -> (r: Vec<(u64, u64)>)
    ensures
        r@.len() == MODEL_FEATURE_COUNT,
        forall|i: int|
            0 <= i < r@.len() ==> (#[trigger] r@[i]).0 == weighed_features(features@)[i] && r@[i].1
                == feature_scales()[i],
{
    let frequency: u64 = if features.request_frequency <= 100 {
        features.request_frequency
    } else {
        100
    };
    let reuse: u64 = if features.fingerprint_reuse_count <= 10 {
        features.fingerprint_reuse_count
    } else {
        10
    };
    let rapid: u64 = match features.time_since_last {
        Some(nanoseconds) => if 0 <= nanoseconds && nanoseconds < 250_000_000 {
            1
        } else {
            0
        },
        None => 0,
    };
    let mut out: Vec<(u64, u64)> = Vec::new();
    out.push((features.ua_is_known_bad as u64, 1));
    out.push((features.ua_is_empty as u64, 1));
    out.push((features.ua_library_is_bot as u64, 1));
    out.push((features.path_disallowed as u64, 1));
    out.push((features.path_is_wp as u64, 1));
    out.push((features.referer_is_empty as u64, 1));
    out.push((features.ua_is_known_benign_crawler as u64, 1));
    out.push((frequency, 100));
    out.push((rapid, 1));
    out.push((reuse, 10));
    out
}

/// Every feature that a model weighs lies between zero and one.
pub proof fn law_weighed_features_are_fractions(features: FeaturesView, i: int)
    requires
        detection::are_bits(features),
        0 <= i < 10,
    ensures
        0 <= weighed_features(features)[i] <= feature_scales()[i],
{
}

} // verus!
