use vstd::prelude::*;

verus! {

/// The vertex shader shared by the panel's flat widgets: transforms a unit
/// square and passes its texture coordinates on.
pub const UV_VERTEX_SHADER: &'static str = "
precision mediump float;
uniform mat4 matrix;

attribute vec3 position;
attribute vec2 uv;

varying vec2 tex_coord;

void main() {
    gl_Position = matrix * vec4(position, 1.0) ;
    tex_coord = uv;
}
";

/// The vertex shader of the panel's flat widgets.
pub fn vertex_shader() -> (r: &'static str)
    ensures
        r@ == UV_VERTEX_SHADER@,
{
    UV_VERTEX_SHADER
}

} // verus!
