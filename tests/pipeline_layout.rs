use chthonic_archive::pipeline::{
    needs_pipeline_rebuild, pipeline_desc, vertex_buffer_bytes, push_constant_range, spirv_words,
    vertex_attribute_descriptions, vertex_binding_description, ShaderCodeError, VertexAttribute,
    BLEND_FACTOR_ONE, BLEND_FACTOR_ONE_MINUS_SRC_ALPHA, BLEND_FACTOR_SRC_ALPHA, BLEND_FACTOR_ZERO,
    BLEND_OP_ADD, COLOR_COMPONENTS_RGBA, CULL_MODE_NONE, FORMAT_R32G32B32_SFLOAT,
    FRONT_FACE_CLOCKWISE, POLYGON_MODE_FILL, PUSH_CONSTANT_SIZE, SHADER_STAGE_VERTEX,
    TOPOLOGY_TRIANGLE_LIST, VERTEX_STRIDE,
};
use chthonic_archive::surface::FORMAT_B8G8R8A8_SRGB;
use ash::vk;

#[test]
fn pipeline_codes_match_the_vulkan_bindings() {
    assert_eq!(FORMAT_R32G32B32_SFLOAT, vk::Format::R32G32B32_SFLOAT.as_raw());
    assert_eq!(TOPOLOGY_TRIANGLE_LIST, vk::PrimitiveTopology::TRIANGLE_LIST.as_raw());
    assert_eq!(CULL_MODE_NONE, vk::CullModeFlags::NONE.as_raw());
    assert_eq!(FRONT_FACE_CLOCKWISE, vk::FrontFace::CLOCKWISE.as_raw());
    assert_eq!(POLYGON_MODE_FILL, vk::PolygonMode::FILL.as_raw());
    assert_eq!(BLEND_FACTOR_ZERO, vk::BlendFactor::ZERO.as_raw());
    assert_eq!(BLEND_FACTOR_ONE, vk::BlendFactor::ONE.as_raw());
    assert_eq!(BLEND_FACTOR_SRC_ALPHA, vk::BlendFactor::SRC_ALPHA.as_raw());
    assert_eq!(BLEND_FACTOR_ONE_MINUS_SRC_ALPHA, vk::BlendFactor::ONE_MINUS_SRC_ALPHA.as_raw());
    assert_eq!(BLEND_OP_ADD, vk::BlendOp::ADD.as_raw());
    assert_eq!(COLOR_COMPONENTS_RGBA, vk::ColorComponentFlags::RGBA.as_raw());
    assert_eq!(SHADER_STAGE_VERTEX, vk::ShaderStageFlags::VERTEX.as_raw());
}

#[test]
fn vertex_layout_is_interleaved_position_and_color() {
    let b = vertex_binding_description();
    assert_eq!(b.binding, 0);
    assert_eq!(b.stride, 24);
    assert_eq!(VERTEX_STRIDE as usize, 6 * std::mem::size_of::<f32>());
    assert!(!b.per_instance);
    let a = vertex_attribute_descriptions();
    assert_eq!(
        a,
        vec![
            VertexAttribute { location: 0, binding: 0, format: FORMAT_R32G32B32_SFLOAT, offset: 0 },
            VertexAttribute { location: 1, binding: 0, format: FORMAT_R32G32B32_SFLOAT, offset: 12 },
        ]
    );
}

#[test]
fn push_constants_hold_three_matrices() {
    let r = push_constant_range();
    assert_eq!(r.size, 192);
    assert_eq!(PUSH_CONSTANT_SIZE as usize, 3 * 16 * std::mem::size_of::<f32>());
    assert_eq!(r.offset, 0);
    assert_eq!(r.stages, SHADER_STAGE_VERTEX);
}

#[test]
fn fixed_function_state() {
    let d = pipeline_desc(FORMAT_B8G8R8A8_SRGB);
    assert_eq!(d.color_format, FORMAT_B8G8R8A8_SRGB);
    assert_eq!(d.topology, TOPOLOGY_TRIANGLE_LIST);
    assert_eq!(d.cull_mode, CULL_MODE_NONE);
    assert!(d.dynamic_viewport_scissor);
    assert!(d.blend.enable);
    assert_eq!(d.blend.src_color, BLEND_FACTOR_SRC_ALPHA);
    assert_eq!(d.blend.dst_color, BLEND_FACTOR_ONE_MINUS_SRC_ALPHA);
    assert_eq!(d.push_constants, push_constant_range());
}

#[test]
fn pipeline_rebuilt_only_on_format_change() {
    assert!(!needs_pipeline_rebuild(FORMAT_B8G8R8A8_SRGB, FORMAT_B8G8R8A8_SRGB));
    assert!(needs_pipeline_rebuild(FORMAT_B8G8R8A8_SRGB, 44));
}

#[test]
fn spirv_words_are_little_endian() {
    let code = vec![0x03, 0x02, 0x23, 0x07, 0x00, 0x00, 0x01, 0x00, 0xff, 0xff, 0xff, 0xff];
    assert_eq!(spirv_words(&code), Ok(vec![0x0723_0203, 0x0001_0000, 0xffff_ffff]));
    assert_eq!(spirv_words(&vec![]), Ok(vec![]));
}

#[test]
fn spirv_words_refuse_misaligned_code() {
    assert_eq!(spirv_words(&vec![1, 2, 3, 4, 5]), Err(ShaderCodeError::Misaligned { len: 5 }));
    assert_eq!(spirv_words(&vec![1, 2, 3]), Err(ShaderCodeError::Misaligned { len: 3 }));
}

#[test]
fn vertex_buffer_size_is_stride_times_count() {
    assert_eq!(vertex_buffer_bytes(3), 72);
    assert_eq!(vertex_buffer_bytes(0), 0);
    assert_eq!(vertex_buffer_bytes(u32::MAX), u32::MAX as u64 * 24);
}
