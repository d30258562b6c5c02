use legion_systems::uniforms::FieldBindType;
use legion_systems::uniforms::InputStepMode;
use legion_systems::uniforms::LocalToWorld;
use legion_systems::uniforms::VertexFormat;

fn identity() -> [u8; 64] {
    let mut bytes = [0u8; 64];
    for (entry, chunk) in [
        1.0f32, 0.0, 0.0, 0.0, 0.0, 1.0, 0.0, 0.0, 0.0, 0.0, 1.0, 0.0, 0.0, 0.0, 0.0, 1.0,
    ]
    .iter()
    .zip(bytes.chunks_exact_mut(4))
    {
        chunk.copy_from_slice(&entry.to_ne_bytes());
    }
    bytes
}

#[test]
fn the_transform_has_the_one_field_object() {
    let infos = LocalToWorld::get_field_infos();
    assert_eq!(infos.len(), 1);
    assert_eq!(infos[0].name, "object");
    assert_eq!(infos[0].uniform_name, "Object");
    assert_eq!(infos[0].texture_name, "");
    assert_eq!(infos[0].sampler_name, "");
    assert!(infos[0].is_instanceable);
}

#[test]
fn only_the_uniform_object_has_bytes() {
    let transform = LocalToWorld::new(identity());
    assert_eq!(transform.get_uniform_bytes("Object"), Some(identity().to_vec()));
    assert_eq!(transform.get_uniform_bytes("object"), None);
    assert_eq!(transform.get_uniform_bytes(""), None);
    assert_eq!(transform.get_uniform_bytes("Objects"), None);
    assert_eq!(transform.get_uniform_bytes_ref("Object"), Some(&identity()[..]));
    assert_eq!(transform.get_uniform_bytes_ref("object"), None);
    let bytes = transform.get_uniform_bytes("Object").unwrap();
    assert_eq!(bytes.len(), 64);
    assert_eq!(&bytes[0..4], &1.0f32.to_ne_bytes()[..]);
    assert_eq!(&bytes[4..8], &0.0f32.to_ne_bytes()[..]);
    assert_eq!(&bytes[20..24], &1.0f32.to_ne_bytes()[..]);
}

#[test]
fn only_the_field_object_is_bound_and_as_a_uniform_of_64_bytes() {
    let transform = LocalToWorld::new([7u8; 64]);
    assert_eq!(transform.get_field_bind_type("object"), Some(FieldBindType::Uniform { size: 64 }));
    assert_eq!(transform.get_field_bind_type("Object"), None);
    assert_eq!(transform.get_field_bind_type("other"), None);
}

#[test]
fn the_transform_has_no_shader_defs_and_no_texture() {
    let transform = LocalToWorld::new([0u8; 64]);
    assert_eq!(transform.get_shader_defs(), None);
    assert_eq!(transform.get_uniform_texture("object"), None);
    assert_eq!(transform.get_uniform_texture("Object"), None);
}

#[test]
fn the_vertex_buffer_carries_one_attribute_per_matrix_column() {
    let descriptor = LocalToWorld::get_vertex_buffer_descriptor();
    assert_eq!(descriptor.name, "Object");
    assert_eq!(descriptor.stride, 64);
    assert_eq!(descriptor.step_mode, InputStepMode::Instance);
    assert_eq!(descriptor.attributes.len(), 4);
    let names = ["I_Object_Model_0", "I_Object_Model_1", "I_Object_Model_2", "I_Object_Model_3"];
    let offsets = [0u64, 16, 32, 48];
    for (column, attribute) in descriptor.attributes.iter().enumerate() {
        assert_eq!(attribute.name, names[column]);
        assert_eq!(attribute.offset, offsets[column]);
        assert_eq!(attribute.shader_location, column as u32);
        assert_eq!(attribute.format, VertexFormat::Float4);
    }
}
