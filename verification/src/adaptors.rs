//! Adapts a Shadertoy-style fragment shader to this renderer's
//! uniform and entry-point convention by wrapping it between a fixed
//! prelude and a fixed epilogue.

use vstd::prelude::*;

verus! {

/// Text placed before the foreign shader body: version and precision
/// directives, the uniforms this renderer supplies, and the
/// Shadertoy-style globals the foreign convention reads.
pub open spec fn shader_toy_prelude() -> Seq<char> {
    "
        #version 300 es
        precision highp float;

        // uniforms
        uniform float u_time;
        uniform vec2 u_resolution;
        uniform vec2 u_mouse;

        // input: vertex position
        in vec2 v_position;

        // output: pixel color
        out vec4 fragColor;

        // Shadertoy style uniforms definition
        float iTime;
        vec3 iResolution;
        vec2 iMouse;

        // Shadertoy main function
        "@
}

/// Text placed after the foreign shader body: a `main` that fills the
/// Shadertoy-style globals from this renderer's uniforms and calls the
/// foreign entry point `mainImage`.
pub open spec fn shader_toy_epilogue() -> Seq<char> {
    "

        // GLSL main function
        void main() {
            iResolution=vec3(u_resolution,u_resolution.x/u_resolution.y);
            iTime=u_time;
            iMouse=u_mouse;
            vec2 w=(v_position * 0.5 + 0.5) * u_resolution.xy;
            mainImage(fragColor,w);
        }
        "@
}

/// Wraps a Shadertoy-style fragment shader so that it compiles under
/// this renderer's convention: the result is exactly the fixed prelude,
/// then the given body, then the fixed epilogue.
pub fn shader_toy_adaptor(fragment_shader: String) -> (r: String)
    ensures
        r@ == shader_toy_prelude() + fragment_shader@ + shader_toy_epilogue(),
{
    let mut out = String::from_str(
        "
        #version 300 es
        precision highp float;

        // uniforms
        uniform float u_time;
        uniform vec2 u_resolution;
        uniform vec2 u_mouse;

        // input: vertex position
        in vec2 v_position;

        // output: pixel color
        out vec4 fragColor;

        // Shadertoy style uniforms definition
        float iTime;
        vec3 iResolution;
        vec2 iMouse;

        // Shadertoy main function
        ",
    );
    out.append(fragment_shader.as_str());
    out.append(
        "

        // GLSL main function
        void main() {
            iResolution=vec3(u_resolution,u_resolution.x/u_resolution.y);
            iTime=u_time;
            iMouse=u_mouse;
            vec2 w=(v_position * 0.5 + 0.5) * u_resolution.xy;
            mainImage(fragColor,w);
        }
        ",
    );
    out
}

} // verus!
