//! Device features as explicit values, and the check that a set of them is
//! available.

use vstd::prelude::*;

verus! {

/// An optional capability of a device.
#[derive(Clone, Copy, Debug, PartialEq, Eq, Hash, Structural)]
pub enum Feature {
    /// Arrays of textures in shaders.
    TextureBindingArray,
    /// Arrays of buffers in shaders.
    BufferBindingArray,
    /// Push constants.
    PushConstants,
    /// Indexing arrays of sampled textures and storage buffers with values
    /// that are not uniform.
    SampledTextureAndStorageBufferArrayNonUniformIndexing,
    /// Arrays of storage buffers or storage textures in shaders.
    StorageResourceBindingArray,
}

/// A required feature that is not available.
#[derive(Clone, Copy, Debug, PartialEq, Eq, Hash, Structural)]
pub struct UnsupportedFeatureError {
    /// The missing feature.
    pub feature: Feature,
}

/// The features the device is asked for, in the order in which they are
/// checked.
pub open spec fn requested_features_spec() -> Seq<Feature> {
    seq![
        Feature::TextureBindingArray,
        Feature::BufferBindingArray,
        Feature::PushConstants,
        Feature::SampledTextureAndStorageBufferArrayNonUniformIndexing,
        Feature::StorageResourceBindingArray,
    ]
}

/// Whether `required[index]` is the first feature of `required` that
/// `available` lacks.
pub open spec fn is_first_missing(
    required: Seq<Feature>,
    available: Seq<Feature>,
    index: int,
) -> bool {
    &&& 0 <= index < required.len()
    &&& !available.contains(required[index])
    &&& forall|j: int| 0 <= j < index ==> available.contains(#[trigger] required[j])
}

/// Whether `feature` is the first feature of `required` that `available`
/// lacks.
pub open spec fn is_first_missing_feature(
    required: Seq<Feature>,
    available: Seq<Feature>,
    feature: Feature,
) -> bool {
    exists|i: int| #[trigger] is_first_missing(required, available, i) && feature == required[i]
}

/// Whether `available` holds every feature of `required`.
pub open spec fn all_available(required: Seq<Feature>, available: Seq<Feature>) -> bool {
    forall|i: int| 0 <= i < required.len() ==> available.contains(#[trigger] required[i])
}

/// Lists the features the device is asked for.
pub fn requested_features() -> (features: Vec<Feature>)
    ensures
        features@ == requested_features_spec(),
{
    let mut features: Vec<Feature> = Vec::new();
    features.push(Feature::TextureBindingArray);
    features.push(Feature::BufferBindingArray);
    features.push(Feature::PushConstants);
    features.push(Feature::SampledTextureAndStorageBufferArrayNonUniformIndexing);
    features.push(Feature::StorageResourceBindingArray);
    features
}

/// Says whether `feature` is among `available`.
pub fn has_feature(available: &Vec<Feature>, feature: Feature) -> (found: bool)
    ensures
        found == available@.contains(feature),
{
    let mut i: usize = 0;
    while i < available.len()
        invariant
            i <= available.len(),
            forall|j: int| 0 <= j < i ==> available@[j] != feature,
        decreases available.len() - i,
    {
        if available[i] == feature {
            return true;
        }
        i += 1;
    }
    false
}

/// Checks that every feature of `required` is among `available`. Fails with
/// the first feature of `required` that is not.
pub fn check_features(required: &Vec<Feature>, available: &Vec<Feature>) -> (result: Result<
    (),
    UnsupportedFeatureError,
>)
    ensures
        result is Ok <==> all_available(required@, available@),
        result matches Err(error) ==> is_first_missing_feature(
            required@,
            available@,
            error.feature,
        ),
{
    let mut i: usize = 0;
    while i < required.len()
        invariant
            i <= required.len(),
            forall|j: int| 0 <= j < i ==> available@.contains(#[trigger] required@[j]),
        decreases required.len() - i,
    {
        if !has_feature(available, required[i]) {
            assert(is_first_missing(required@, available@, i as int));
            return Err(UnsupportedFeatureError { feature: required[i] });
        }
        i += 1;
    }
    Ok(())
}

/// At most one feature is the first missing one, and none is when every
/// required feature is available. So the result of [`check_features`] is
/// determined by its arguments.
pub proof fn lemma_first_missing_is_unique(
    required: Seq<Feature>,
    available: Seq<Feature>,
    first: Feature,
    second: Feature,
)
    requires
        is_first_missing_feature(required, available, first),
        is_first_missing_feature(required, available, second),
    ensures
        first == second,
        !all_available(required, available),
{
    let i = choose|i: int| #[trigger]
        is_first_missing(required, available, i) && first == required[i];
    let j = choose|j: int| #[trigger]
        is_first_missing(required, available, j) && second == required[j];
    if i < j {
        assert(available.contains(required[i]));
    }
    if j < i {
        assert(available.contains(required[j]));
    }
}

} // verus!
