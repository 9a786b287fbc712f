//! Description of the one graphics pipeline: vertex layout, push-constant
//! block, fixed-function state, and the shader bytecode it is built from.

use vstd::prelude::*;

verus! {

/// Bytes in one 32-bit float.
pub const FLOAT_BYTES: u32 = 4;

/// Float components of a vertex position.
pub const POSITION_COMPONENTS: u32 = 3;

/// Float components of a vertex color.
pub const COLOR_COMPONENTS: u32 = 3;

/// Bytes between consecutive interleaved vertices.
pub const VERTEX_STRIDE: u32 = 24;

/// Raw code of `VK_FORMAT_R32G32B32_SFLOAT`.
pub const FORMAT_R32G32B32_SFLOAT: i32 = 106;

/// Bytes of one 4×4 matrix of 32-bit floats.
pub const MATRIX_BYTES: u32 = 64;

/// Matrices in the push-constant block: model, view, projection.
pub const PUSH_CONSTANT_MATRICES: u32 = 3;

/// Bytes of the push-constant block.
pub const PUSH_CONSTANT_SIZE: u32 = 192;

/// `VK_SHADER_STAGE_VERTEX_BIT`.
pub const SHADER_STAGE_VERTEX: u32 = 1;

/// Raw code of `VK_PRIMITIVE_TOPOLOGY_TRIANGLE_LIST`.
pub const TOPOLOGY_TRIANGLE_LIST: i32 = 3;

/// Raw value of `VK_CULL_MODE_NONE`.
pub const CULL_MODE_NONE: u32 = 0;

/// Raw code of `VK_FRONT_FACE_CLOCKWISE`.
pub const FRONT_FACE_CLOCKWISE: i32 = 1;

/// Raw code of `VK_POLYGON_MODE_FILL`.
pub const POLYGON_MODE_FILL: i32 = 0;

/// Raw codes of the blend factors and operation used.
pub const BLEND_FACTOR_ZERO: i32 = 0;

pub const BLEND_FACTOR_ONE: i32 = 1;

pub const BLEND_FACTOR_SRC_ALPHA: i32 = 6;

pub const BLEND_FACTOR_ONE_MINUS_SRC_ALPHA: i32 = 7;

pub const BLEND_OP_ADD: i32 = 0;

/// All four color channels written.
pub const COLOR_COMPONENTS_RGBA: u32 = 15;

/// The one vertex buffer binding.
#[derive(Clone, Copy, Debug, PartialEq, Eq, Structural)]
pub struct VertexBinding {
    pub binding: u32,
    pub stride: u32,
    /// Advance per instance rather than per vertex.
    pub per_instance: bool,
}

/// One vertex attribute.
#[derive(Clone, Copy, Debug, PartialEq, Eq, Structural)]
pub struct VertexAttribute {
    pub location: u32,
    pub binding: u32,
    /// Raw `VkFormat`.
    pub format: i32,
    pub offset: u32,
}

/// Binding 0, advanced per vertex, one interleaved vertex every
/// `VERTEX_STRIDE` bytes: a position followed by a color, three floats each.
pub fn vertex_binding_description() -> (r: VertexBinding)
    ensures
        r == (VertexBinding { binding: 0, stride: VERTEX_STRIDE, per_instance: false }),
        r.stride == (POSITION_COMPONENTS + COLOR_COMPONENTS) * FLOAT_BYTES,
{
    VertexBinding {
        binding: 0,
        stride: (POSITION_COMPONENTS + COLOR_COMPONENTS) * FLOAT_BYTES,
        per_instance: false,
    }
}

/// The position at location 0, offset 0, and the color at location 1, right
/// after the position; both three 32-bit floats.
pub fn vertex_attribute_descriptions() -> (r: Vec<VertexAttribute>)
    ensures
        r@ == seq![
            VertexAttribute { location: 0, binding: 0, format: FORMAT_R32G32B32_SFLOAT, offset: 0 },
            VertexAttribute { location: 1, binding: 0, format: FORMAT_R32G32B32_SFLOAT, offset: 12 },
        ],
        r@[1].offset == POSITION_COMPONENTS * FLOAT_BYTES,
        r@[1].offset + COLOR_COMPONENTS * FLOAT_BYTES == VERTEX_STRIDE,
{
    let mut r: Vec<VertexAttribute> = Vec::new();
    r.push(VertexAttribute { location: 0, binding: 0, format: FORMAT_R32G32B32_SFLOAT, offset: 0 });
    r.push(
        VertexAttribute {
            location: 1,
            binding: 0,
            format: FORMAT_R32G32B32_SFLOAT,
            offset: POSITION_COMPONENTS * FLOAT_BYTES,
        },
    );
    r
}

/// The push-constant range of the pipeline layout.
#[derive(Clone, Copy, Debug, PartialEq, Eq, Structural)]
pub struct PushConstantRange {
    /// Raw `VkShaderStageFlags`.
    pub stages: u32,
    pub offset: u32,
    pub size: u32,
}

/// One block of three 4×4 float matrices, visible to the vertex stage.
pub fn push_constant_range() -> (r: PushConstantRange)
    ensures
        r == (PushConstantRange { stages: SHADER_STAGE_VERTEX, offset: 0, size: PUSH_CONSTANT_SIZE }),
        r.size == PUSH_CONSTANT_MATRICES * MATRIX_BYTES,
{
    PushConstantRange { stages: SHADER_STAGE_VERTEX, offset: 0, size: PUSH_CONSTANT_MATRICES * MATRIX_BYTES }
}

/// Color blending of the one color attachment.
#[derive(Clone, Copy, Debug, PartialEq, Eq, Structural)]
pub struct BlendState {
    pub enable: bool,
    pub src_color: i32,
    pub dst_color: i32,
    pub color_op: i32,
    pub src_alpha: i32,
    pub dst_alpha: i32,
    pub alpha_op: i32,
    /// Raw `VkColorComponentFlags`.
    pub write_mask: u32,
}

/// The fixed state of the pipeline, targeting one color attachment format.
#[derive(Clone, Copy, Debug, PartialEq, Eq, Structural)]
pub struct PipelineDesc {
    /// Raw `VkFormat` of the color attachment, declared directly rather than
    /// through a render pass.
    pub color_format: i32,
    pub topology: i32,
    pub primitive_restart: bool,
    pub polygon_mode: i32,
    /// Raw `VkCullModeFlags`.
    pub cull_mode: u32,
    pub front_face: i32,
    /// Viewport and scissor are set per frame, so resizing needs no rebuild.
    pub dynamic_viewport_scissor: bool,
    pub blend: BlendState,
    pub push_constants: PushConstantRange,
}

/// The source-over blend: color by source alpha, alpha kept from the source.
pub open spec fn source_over() -> BlendState {
    BlendState {
        enable: true,
        src_color: BLEND_FACTOR_SRC_ALPHA,
        dst_color: BLEND_FACTOR_ONE_MINUS_SRC_ALPHA,
        color_op: BLEND_OP_ADD,
        src_alpha: BLEND_FACTOR_ONE,
        dst_alpha: BLEND_FACTOR_ZERO,
        alpha_op: BLEND_OP_ADD,
        write_mask: COLOR_COMPONENTS_RGBA,
    }
}

/// The pipeline's fixed state for a color attachment of `color_format`:
/// triangle lists, filled polygons, no face culling (the vertical-axis flip of
/// the projection inverts the winding order), dynamic viewport and scissor,
/// source-over blending and the three-matrix push-constant block.
pub fn pipeline_desc(color_format: i32) -> (r: PipelineDesc)
    ensures
        r == (PipelineDesc {
            color_format,
            topology: TOPOLOGY_TRIANGLE_LIST,
            primitive_restart: false,
            polygon_mode: POLYGON_MODE_FILL,
            cull_mode: CULL_MODE_NONE,
            front_face: FRONT_FACE_CLOCKWISE,
            dynamic_viewport_scissor: true,
            blend: source_over(),
            push_constants: PushConstantRange {
                stages: SHADER_STAGE_VERTEX,
                offset: 0,
                size: PUSH_CONSTANT_SIZE,
            },
        }),
{
    PipelineDesc {
        color_format,
        topology: TOPOLOGY_TRIANGLE_LIST,
        primitive_restart: false,
        polygon_mode: POLYGON_MODE_FILL,
        cull_mode: CULL_MODE_NONE,
        front_face: FRONT_FACE_CLOCKWISE,
        dynamic_viewport_scissor: true,
        blend: BlendState {
            enable: true,
            src_color: BLEND_FACTOR_SRC_ALPHA,
            dst_color: BLEND_FACTOR_ONE_MINUS_SRC_ALPHA,
            color_op: BLEND_OP_ADD,
            src_alpha: BLEND_FACTOR_ONE,
            dst_alpha: BLEND_FACTOR_ZERO,
            alpha_op: BLEND_OP_ADD,
            write_mask: COLOR_COMPONENTS_RGBA,
        },
        push_constants: push_constant_range(),
    }
}

/// Whether a recreated swapchain needs the pipeline rebuilt: only when the
/// color format changed.
pub fn needs_pipeline_rebuild(built_for: i32, new_format: i32) -> (r: bool)
    ensures
        r == (built_for != new_format),
{
    built_for != new_format
}

/// Bytes of a vertex buffer holding `vertex_count` interleaved vertices.
pub fn vertex_buffer_bytes(vertex_count: u32) -> (r: u64)
    ensures
        r == vertex_count * VERTEX_STRIDE,
{
    let count = vertex_count as u64;
    proof {
        assert(count * 24 <= 0xFFFF_FFFF * 24) by (nonlinear_arith)
            requires
                count <= 0xFFFF_FFFF,
        ;
    }
    count * (VERTEX_STRIDE as u64)
}

/// Why shader bytecode was refused.
#[derive(Clone, Copy, Debug, PartialEq, Eq, Structural)]
pub enum ShaderCodeError {
    /// The byte length is not a multiple of four.
    Misaligned { len: usize },
}

/// The little-endian 32-bit word made of four bytes.
pub open spec fn le_word(b0: u8, b1: u8, b2: u8, b3: u8) -> int {
    b0 + b1 * 0x100 + b2 * 0x1_0000 + b3 * 0x100_0000
}

/// Word `i` of little-endian bytecode.
pub open spec fn word_at(code: Seq<u8>, i: int) -> int {
    le_word(code[4 * i], code[4 * i + 1], code[4 * i + 2], code[4 * i + 3])
}

/// Reads shader bytecode as its sequence of little-endian 32-bit words. Fails
/// exactly when the byte length is not a multiple of four.
pub fn spirv_words(code: &Vec<u8>) -> (r: Result<Vec<u32>, ShaderCodeError>)
    ensures
        r is Err <==> code@.len() % 4 != 0,
        r matches Err(e) ==> e == (ShaderCodeError::Misaligned { len: code@.len() as usize }),
        r matches Ok(words) ==> {
            &&& 4 * words@.len() == code@.len()
            &&& forall|i: int| 0 <= i < words@.len() ==> #[trigger] words@[i] == word_at(code@, i)
        },
{
    let len = code.len();
    if len % 4 != 0 {
        return Err(ShaderCodeError::Misaligned { len });
    }
    let n = len / 4;
    let mut words: Vec<u32> = Vec::with_capacity(n);
    let mut i: usize = 0;
    while i < n
        invariant
            n * 4 == code@.len(),
            n * 4 <= usize::MAX,
            i <= n,
            words@.len() == i,
            forall|k: int| 0 <= k < i ==> #[trigger] words@[k] == word_at(code@, k),
        decreases n - i,
    {
        let b0 = code[4 * i] as u32;
        let b1 = code[4 * i + 1] as u32;
        let b2 = code[4 * i + 2] as u32;
        let b3 = code[4 * i + 3] as u32;
        let w = b0 + b1 * 0x100 + b2 * 0x1_0000 + b3 * 0x100_0000;
        words.push(w);
        i = i + 1;
    }
    Ok(words)
}

} // verus!
