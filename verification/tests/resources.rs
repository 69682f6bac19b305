use material_triangle::features::{Feature, UnsupportedFeatureError};
use material_triangle::material::{Material, MaterialTable};
use material_triangle::resources::{
    build_resources, plan_resources, BindGroupLayoutEntry, BufferBinding, BufferBindingType,
    BufferDesc, BufferUsage, ShaderStage,
};

fn table(len: usize) -> MaterialTable {
    MaterialTable::new(vec![Material { colour: [1.0f32.to_bits(); 4] }; len]).unwrap()
}

fn array_features() -> Vec<Feature> {
    vec![Feature::BufferBindingArray, Feature::StorageResourceBindingArray]
}

#[test]
fn material_binding_is_a_read_only_storage_array_for_fragments() {
    let entry = BindGroupLayoutEntry::materials(3);
    assert_eq!(
        entry,
        BindGroupLayoutEntry {
            binding: 0,
            visibility: ShaderStage::Fragment,
            ty: BufferBindingType::Storage { read_only: true },
            has_dynamic_offset: false,
            min_binding_size: None,
            count: Some(3),
        }
    );
}

#[test]
fn storage_array_needs_both_array_features() {
    assert_eq!(BindGroupLayoutEntry::materials(3).required_features(), array_features());
}

#[test]
fn uniform_array_needs_buffer_arrays_only() {
    let entry = BindGroupLayoutEntry {
        ty: BufferBindingType::Uniform,
        ..BindGroupLayoutEntry::materials(2)
    };
    assert_eq!(entry.required_features(), vec![Feature::BufferBindingArray]);
}

#[test]
fn single_binding_needs_no_feature() {
    let entry = BindGroupLayoutEntry { count: None, ..BindGroupLayoutEntry::materials(1) };
    assert_eq!(entry.required_features(), Vec::<Feature>::new());
}

#[test]
fn bound_buffer_length_is_count_times_sixteen() {
    for len in [1usize, 2, 3, 10, 257] {
        let plan = build_resources(&table(len), &array_features()).unwrap();
        let bytes = (len * 16) as u64;
        assert_eq!(plan.contents.len() as u64, bytes);
        assert_eq!(plan.buffer, BufferDesc { size: bytes, usage: BufferUsage::Storage });
        assert_eq!(plan.binding, BufferBinding { binding: 0, offset: 0, size: bytes });
        assert_eq!(plan.layout, BindGroupLayoutEntry::materials(len as u32));
        assert_eq!(plan.layout.count, Some(len as u32));
        assert_eq!(plan.group, 0);
    }
}

#[test]
fn scene_table_is_uploaded_as_forty_eight_bytes() {
    let plan = build_resources(&MaterialTable::scene(), &array_features()).unwrap();
    assert_eq!(plan.buffer.size, 48);
    assert_eq!(plan.binding.size, 48);
    assert_eq!(plan.layout.count, Some(3));
    assert_eq!(plan.contents, MaterialTable::scene().to_bytes());
    let mut expected = Vec::new();
    for value in [1.0f32, 1.0, 0.0, 1.0, 0.3, 0.3, 0.3, 0.3, 1.0, 1.0, 1.0, 1.0] {
        expected.extend_from_slice(&value.to_ne_bytes());
    }
    assert_eq!(plan.contents, expected);
}

#[test]
fn missing_buffer_arrays_is_reported_first() {
    let none: Vec<Feature> = Vec::new();
    assert_eq!(
        build_resources(&table(3), &none),
        Err(UnsupportedFeatureError { feature: Feature::BufferBindingArray })
    );
    assert_eq!(
        build_resources(&table(3), &vec![Feature::StorageResourceBindingArray]),
        Err(UnsupportedFeatureError { feature: Feature::BufferBindingArray })
    );
}

#[test]
fn missing_storage_arrays_is_reported() {
    assert_eq!(
        build_resources(
            &table(3),
            &vec![Feature::PushConstants, Feature::BufferBindingArray, Feature::TextureBindingArray]
        ),
        Err(UnsupportedFeatureError { feature: Feature::StorageResourceBindingArray })
    );
}

#[test]
fn extra_features_do_not_matter() {
    let features = vec![
        Feature::PushConstants,
        Feature::StorageResourceBindingArray,
        Feature::StorageResourceBindingArray,
        Feature::TextureBindingArray,
        Feature::BufferBindingArray,
    ];
    assert!(build_resources(&table(3), &features).is_ok());
}

#[test]
fn plan_takes_the_buffer_length_from_the_contents() {
    let plan = plan_resources(2, vec![7u8; 32], &array_features()).unwrap();
    assert_eq!(plan.contents, vec![7u8; 32]);
    assert_eq!(plan.buffer.size, 32);
    assert_eq!(plan.binding.size, 32);
    assert_eq!(plan.layout.count, Some(2));
    let empty = plan_resources(1, Vec::new(), &array_features()).unwrap();
    assert_eq!(empty.buffer.size, 0);
    assert_eq!(empty.binding.size, 0);
}

#[test]
fn plan_fails_without_the_features() {
    assert_eq!(
        plan_resources(2, vec![0u8; 32], &vec![Feature::BufferBindingArray]),
        Err(UnsupportedFeatureError { feature: Feature::StorageResourceBindingArray })
    );
}
