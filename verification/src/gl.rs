use vstd::prelude::*;

verus! {

/// The WebGL `VERTEX_SHADER` shader kind (`0x8B31`), read from
/// `web_sys::WebGl2RenderingContext::VERTEX_SHADER`; the contract states the value
/// that the bindings define.
#[verifier::external_body]
fn gl_vertex_shader() -> (r: u32)
    ensures
        r == 0x8B31,
{
    web_sys::WebGl2RenderingContext::VERTEX_SHADER
}

/// The WebGL `FRAGMENT_SHADER` shader kind (`0x8B30`), read from
/// `web_sys::WebGl2RenderingContext::FRAGMENT_SHADER`; the contract states the value
/// that the bindings define.
#[verifier::external_body]
fn gl_fragment_shader() -> (r: u32)
    ensures
        r == 0x8B30,
{
    web_sys::WebGl2RenderingContext::FRAGMENT_SHADER
}

/// The WebGL `LINEAR` texture filter (`0x2601`), read from
/// `web_sys::WebGl2RenderingContext::LINEAR`; the contract states the value that the
/// bindings define.
#[verifier::external_body]
fn gl_linear() -> (r: u32)
    ensures
        r == 0x2601,
{
    web_sys::WebGl2RenderingContext::LINEAR
}

/// The WebGL `NEAREST` texture filter (`0x2600`), read from
/// `web_sys::WebGl2RenderingContext::NEAREST`; the contract states the value that the
/// bindings define.
#[verifier::external_body]
fn gl_nearest() -> (r: u32)
    ensures
        r == 0x2600,
{
    web_sys::WebGl2RenderingContext::NEAREST
}

/// Shader type.
#[derive(Clone, Copy, Debug, PartialEq, Eq, Structural)]
pub enum ShaderType {
    /// Vertex shader.
    Vertex,
    /// Fragment shader.
    Fragment,
}

impl ShaderType {
    /// Returns the GL shader type.
    pub fn as_gl_shader_type(&self) -> (r: u32)
        ensures
            *self == ShaderType::Vertex ==> r == 0x8B31,
            *self == ShaderType::Fragment ==> r == 0x8B30,
    {
        match self {
            ShaderType::Vertex => gl_vertex_shader(),
            ShaderType::Fragment => gl_fragment_shader(),
        }
    }
}

/// The minification and magnification filter for a texture: linear when smoothing,
/// nearest-neighbour otherwise.
pub fn texture_filter(smoothing: bool) -> (r: i32)
    ensures
        r == (if smoothing {
            0x2601i32
        } else {
            0x2600i32
        }),
{
    let filter = if smoothing {
        gl_linear()
    } else {
        gl_nearest()
    };
    filter as i32
}

/// Options for a post-processing shader program: the sources of its two stages.
pub struct PostProcessingShaderOptions {
    /// vertex shader source.
    vertex_shader_source: String,
    /// fragment shader source.
    fragment_shader_source: String,
}

impl PostProcessingShaderOptions {
    pub closed spec fn spec_vertex_shader_source(&self) -> Seq<char> {
        self.vertex_shader_source@
    }

    pub closed spec fn spec_fragment_shader_source(&self) -> Seq<char> {
        self.fragment_shader_source@
    }

    /// Constructs the options of a post-processing shader.
    pub fn new(vertex_shader_source: String, fragment_shader_source: String) -> (r: Self)
        ensures
            r.spec_vertex_shader_source() == vertex_shader_source@,
            r.spec_fragment_shader_source() == fragment_shader_source@,
    {
        PostProcessingShaderOptions { vertex_shader_source, fragment_shader_source }
    }

    /// The vertex shader source.
    pub fn vertex_shader_source(&self) -> (r: &String)
        ensures
            r@ == self.spec_vertex_shader_source(),
    {
        &self.vertex_shader_source
    }

    /// The fragment shader source.
    pub fn fragment_shader_source(&self) -> (r: &String)
        ensures
            r@ == self.spec_fragment_shader_source(),
    {
        &self.fragment_shader_source
    }
}

} // verus!
