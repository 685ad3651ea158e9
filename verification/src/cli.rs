//! Command-line surface of the program, as plain data: which shader
//! convention to run and whether cursor polling is enabled, plus the
//! verified selection of the vertex/fragment source pair. Option
//! parsing itself happens in the binary, which hands over these types.

use crate::adaptors::{shader_toy_adaptor, shader_toy_epilogue, shader_toy_prelude};
use vstd::prelude::*;

verus! {

/// Which compositor's privileged cursor query to poll, if any.
#[derive(Clone, Copy, Debug, PartialEq, Eq, Structural)]
pub enum CursorSupportKind {
    Hyprland,
    Disabled,
}

/// The shader convention the user chose, with the source text (or the
/// name of a built-in) it carries.
#[derive(Debug)]
pub enum Command {
    /// A Shadertoy-style fragment shader, to be adapted.
    ShaderToy { fragment_shader: String },
    /// A Book-of-Shaders-style pair, used as given; the vertex shader
    /// falls back to the default when absent.
    TheBookOfShaders { fragment_shader: String, vertex_shader: Option<String> },
    /// A built-in fragment shader, looked up by name and then adapted
    /// like a Shadertoy one.
    Default { name: String },
}

/// The parsed command line.
#[derive(Debug)]
pub struct Cli {
    pub command: Command,
    pub cursor_support: CursorSupportKind,
}

/// The two shader sources handed to the render engine, immutable once
/// selected.
#[derive(Debug)]
pub struct ShaderSource {
    pub vertex_text: String,
    pub fragment_text: String,
}

/// The requested built-in shader name is not in the catalog. Fatal:
/// the binary reports the name and exits.
#[derive(Debug)]
pub struct UnknownShaderName {
    pub name: String,
}

/// First entry of the catalog whose name matches, if any.
pub open spec fn spec_lookup(catalog: Seq<(String, String)>, name: Seq<char>) -> Option<Seq<char>>
    decreases catalog.len(),
{
    if catalog.len() == 0 {
        None
    } else if catalog[0].0@ == name {
        Some(catalog[0].1@)
    } else {
        spec_lookup(catalog.drop_first(), name)
    }
}

/// Looks a built-in shader up by name: returns the first catalog entry
/// with that name, or nothing when no entry has it.
pub fn lookup_shader(catalog: &Vec<(String, String)>, name: &String) -> (r: Option<String>)
    ensures
        match r {
            Some(text) => spec_lookup(catalog@, name@) == Some(text@),
            None => spec_lookup(catalog@, name@) is None,
        },
{
    proof {
        assert(catalog@.skip(0) =~= catalog@);
    }
    let mut i: usize = 0;
    while i < catalog.len()
        invariant
            i <= catalog.len(),
            spec_lookup(catalog@.skip(i as int), name@) == spec_lookup(catalog@, name@),
        decreases catalog.len() - i,
    {
        proof {
            assert(catalog@.skip(i as int)[0] == catalog@[i as int]);
        }
        if catalog[i].0 == *name {
            return Some(catalog[i].1.clone());
        }
        proof {
            assert(catalog@.skip(i as int).drop_first() =~= catalog@.skip(i as int + 1));
        }
        i = i + 1;
    }
    None
}

/// Selects the vertex/fragment pair for the chosen command: a
/// Shadertoy shader is wrapped by the adaptor, a Book-of-Shaders pair
/// is used as given (vertex falling back to the default), and a
/// built-in is looked up by name and then wrapped; an unknown built-in
/// name is the one selection error.
pub fn select_shaders(
    command: Command,
    default_vertex: String,
    catalog: &Vec<(String, String)>,
) -> (r: Result<ShaderSource, UnknownShaderName>)
    ensures
        match command {
            Command::ShaderToy { fragment_shader } => r matches Ok(s) && s.vertex_text@
                == default_vertex@ && s.fragment_text@ == shader_toy_prelude() + fragment_shader@
                + shader_toy_epilogue(),
            Command::TheBookOfShaders { fragment_shader, vertex_shader } => r matches Ok(s)
                && s.fragment_text@ == fragment_shader@ && s.vertex_text@ == (match vertex_shader {
                Some(v) => v@,
                None => default_vertex@,
            }),
            Command::Default { name } => match spec_lookup(catalog@, name@) {
                Some(body) => r matches Ok(s) && s.vertex_text@ == default_vertex@
                    && s.fragment_text@ == shader_toy_prelude() + body + shader_toy_epilogue(),
                None => r matches Err(e) && e.name@ == name@,
            },
        },
{
    match command {
        Command::ShaderToy { fragment_shader } => Ok(
            ShaderSource {
                vertex_text: default_vertex,
                fragment_text: shader_toy_adaptor(fragment_shader),
            },
        ),
        Command::TheBookOfShaders { fragment_shader, vertex_shader } => {
            let vertex_text = match vertex_shader {
                Some(v) => v,
                None => default_vertex,
            };
            Ok(ShaderSource { vertex_text, fragment_text: fragment_shader })
        },
        Command::Default { name } => match lookup_shader(catalog, &name) {
            Some(body) => Ok(
                ShaderSource {
                    vertex_text: default_vertex,
                    fragment_text: shader_toy_adaptor(body),
                },
            ),
            None => Err(UnknownShaderName { name }),
        },
    }
}

} // verus!
