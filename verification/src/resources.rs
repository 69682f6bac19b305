//! The material buffer and the bind group that exposes it to the fragment
//! stage.

use crate::features::{
    all_available, check_features, is_first_missing_feature, Feature, UnsupportedFeatureError,
};
use crate::material::{
    is_memory_of, table_words, valid_table_len, Material, MaterialTable, MATERIAL_SIZE,
};
use vstd::prelude::*;

verus! {

/// What a buffer may be used for.
#[derive(Clone, Copy, Debug, PartialEq, Eq, Hash, Structural)]
pub enum BufferUsage {
    MapRead,
    MapWrite,
    CopySrc,
    CopyDst,
    Index,
    Vertex,
    Uniform,
    Storage,
    Indirect,
}

/// A shader stage.
#[derive(Clone, Copy, Debug, PartialEq, Eq, Hash, Structural)]
pub enum ShaderStage {
    Vertex,
    Fragment,
    Compute,
}

/// How a shader sees a bound buffer.
#[derive(Clone, Copy, Debug, PartialEq, Eq, Hash, Structural)]
pub enum BufferBindingType {
    Uniform,
    Storage { read_only: bool },
}

/// A buffer to create.
#[derive(Clone, Copy, Debug, PartialEq, Eq, Hash, Structural)]
pub struct BufferDesc {
    /// Its length in bytes.
    pub size: u64,
    pub usage: BufferUsage,
}

/// One binding declared by a bind group layout.
#[derive(Clone, Copy, Debug, PartialEq, Eq, Hash, Structural)]
pub struct BindGroupLayoutEntry {
    /// The binding index within the group.
    pub binding: u32,
    /// The stage that can see the binding.
    pub visibility: ShaderStage,
    pub ty: BufferBindingType,
    pub has_dynamic_offset: bool,
    pub min_binding_size: Option<u64>,
    /// The declared number of elements, when the binding is an array.
    pub count: Option<u32>,
}

impl BindGroupLayoutEntry {
    /// The binding of the material table: binding 0, visible to the
    /// fragment stage, a read-only storage buffer declared as an array of
    /// `count` elements.
    pub open spec fn materials_spec(count: u32) -> BindGroupLayoutEntry {
        BindGroupLayoutEntry {
            binding: 0,
            visibility: ShaderStage::Fragment,
            ty: BufferBindingType::Storage { read_only: true },
            has_dynamic_offset: false,
            min_binding_size: None,
            count: Some(count),
        }
    }

    /// The features a device must have been asked for before it can create a
    /// layout with this binding: none unless the binding is an array; for an
    /// array of buffers, buffer binding arrays; for an array of storage
    /// buffers, storage resource binding arrays as well.
    pub open spec fn required_features_spec(self) -> Seq<Feature> {
        if self.count is None {
            Seq::empty()
        } else {
            match self.ty {
                BufferBindingType::Uniform => seq![Feature::BufferBindingArray],
                BufferBindingType::Storage { .. } => seq![
                    Feature::BufferBindingArray,
                    Feature::StorageResourceBindingArray,
                ],
            }
        }
    }

    /// Builds the binding of a material table of `count` materials.
    pub fn materials(count: u32) -> (entry: BindGroupLayoutEntry)
        ensures
            entry == Self::materials_spec(count),
    {
        BindGroupLayoutEntry {
            binding: 0,
            visibility: ShaderStage::Fragment,
            ty: BufferBindingType::Storage { read_only: true },
            has_dynamic_offset: false,
            min_binding_size: None,
            count: Some(count),
        }
    }

    /// Lists the features this binding needs.
    pub fn required_features(&self) -> (features: Vec<Feature>)
        ensures
            features@ == self.required_features_spec(),
    {
        let mut features: Vec<Feature> = Vec::new();
        if self.count.is_some() {
            features.push(Feature::BufferBindingArray);
            match self.ty {
                BufferBindingType::Uniform => {},
                BufferBindingType::Storage { .. } => {
                    features.push(Feature::StorageResourceBindingArray);
                },
            }
        }
        features
    }
}

/// The features the binding of a material table needs, whatever the number
/// of materials.
pub open spec fn material_features() -> Seq<Feature> {
    seq![Feature::BufferBindingArray, Feature::StorageResourceBindingArray]
}

/// A range of the material buffer bound at a binding index.
#[derive(Clone, Copy, Debug, PartialEq, Eq, Hash, Structural)]
pub struct BufferBinding {
    pub binding: u32,
    /// The first bound byte.
    pub offset: u64,
    /// The number of bound bytes.
    pub size: u64,
}

/// Everything needed to create the material buffer, the bind group layout
/// and the bind group.
#[derive(Debug, PartialEq, Eq)]
pub struct ResourcePlan {
    /// The bytes the buffer is created with.
    pub contents: Vec<u8>,
    pub buffer: BufferDesc,
    /// The single binding of the bind group layout.
    pub layout: BindGroupLayoutEntry,
    /// The group index at which the bind group is bound.
    pub group: u32,
    /// The single entry of the bind group.
    pub binding: BufferBinding,
}

impl ResourcePlan {
    /// Whether this plan exposes a buffer holding exactly `contents` as a
    /// table of `count` materials: a storage buffer as long as `contents`,
    /// declared by the material binding with `count` elements, and bound
    /// whole at binding 0 of group 0.
    pub open spec fn exposes(self, count: u32, contents: Seq<u8>) -> bool {
        &&& self.contents@ == contents
        &&& self.buffer == BufferDesc { size: contents.len() as u64, usage: BufferUsage::Storage }
        &&& self.layout == BindGroupLayoutEntry::materials_spec(count)
        &&& self.group == 0
        &&& self.binding == BufferBinding { binding: 0, offset: 0, size: contents.len() as u64 }
    }
}

/// Plans the resources for a table of `count` materials whose bytes are
/// `contents`, on a device that was asked for `features`.
///
/// Fails exactly when `features` lacks a feature the material binding needs,
/// with the first such feature.
pub fn plan_resources(count: u32, contents: Vec<u8>, features: &Vec<Feature>) -> (result: Result<
    ResourcePlan,
    UnsupportedFeatureError,
>)
    ensures
        result is Ok <==> all_available(material_features(), features@),
        match result {
            Ok(plan) => plan.exposes(count, contents@),
            Err(error) => is_first_missing_feature(material_features(), features@, error.feature),
        },
{
    let layout = BindGroupLayoutEntry::materials(count);
    let required = layout.required_features();
    assert(required@ == material_features());
    match check_features(&required, features) {
        Err(error) => Err(error),
        Ok(_) => {
            let size = contents.len() as u64;
            Ok(
                ResourcePlan {
                    contents,
                    buffer: BufferDesc { size, usage: BufferUsage::Storage },
                    layout,
                    group: 0,
                    binding: BufferBinding { binding: 0, offset: 0, size },
                },
            )
        },
    }
}

/// Plans the upload of `table` and its exposure to the fragment stage, on a
/// device that was asked for `features`.
///
/// On success the buffer holds the table's bytes, the binding declares as
/// many elements as the table has materials, and the bound range is the
/// whole buffer: sixteen bytes per material.
pub fn build_resources(table: &MaterialTable, features: &Vec<Feature>) -> (result: Result<
    ResourcePlan,
    UnsupportedFeatureError,
>)
    ensures
        result is Ok <==> all_available(material_features(), features@),
        match result {
            Ok(plan) => {
                &&& plan.exposes(table@.len() as u32, plan.contents@)
                &&& is_memory_of(plan.contents@, table_words(table@))
                &&& plan.layout.count == Some(table@.len() as u32)
                &&& plan.buffer.size == table@.len() * MATERIAL_SIZE
                &&& plan.binding.size == table@.len() * MATERIAL_SIZE
            },
            Err(error) => is_first_missing_feature(material_features(), features@, error.feature),
        },
{
    let count = table.len() as u32;
    let contents = table.to_bytes();
    let result = plan_resources(count, contents, features);
    proof {
        if result is Ok {
            lemma_bound_length(result->Ok_0, table@);
        }
    }
    result
}

/// When a plan exposes the bytes of a table, the bound range is the whole
/// buffer, and its length in bytes is the declared number of elements times
/// the size of one material, which is sixteen.
pub proof fn lemma_bound_length(plan: ResourcePlan, table: Seq<Material>)
    requires
        valid_table_len(table.len()),
        plan.exposes(table.len() as u32, plan.contents@),
        is_memory_of(plan.contents@, table_words(table)),
    ensures
        MATERIAL_SIZE == 16,
        plan.layout.count == Some(table.len() as u32),
        plan.buffer.size == table.len() * MATERIAL_SIZE,
        plan.binding.offset == 0,
        plan.binding.size == plan.buffer.size,
{
}

} // verus!
