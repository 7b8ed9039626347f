//! Shader programs, kept as the source text they are compiled from.

use crate::handle::Handle;
use crate::label::{borrowed_label, label_view, text_view};
use vstd::prelude::*;

verus! {

pub type ShaderHandle = Handle<Shader>;

/// A registered shader: its label and its source text.
pub struct Shader {
    name: Option<String>,
    source: String,
}

/// What a [`Shader`] is, as plain values.
pub struct ShaderView {
    pub name: Option<Seq<char>>,
    pub source: Seq<char>,
}

impl View for Shader {
    type V = ShaderView;

    closed spec fn view(&self) -> ShaderView {
        ShaderView {
            name: label_view(self.name),
            source: self.source@,
        }
    }
}

impl Shader {
    pub(crate) fn new(label: Option<String>, source: String) -> (shader: Shader)
        ensures
            shader@ == (ShaderView {
                name: label_view(label),
                source: source@,
            }),
    {
        Shader { name: label, source }
    }

    pub fn name(&self) -> (name: Option<&str>)
        ensures
            text_view(name) == self@.name,
    {
        borrowed_label(&self.name)
    }

    /// The text the shader is compiled from.
    pub fn source(&self) -> (source: &str)
        ensures
            source@ == self@.source,
    {
        self.source.as_str()
    }
}

/// What each of `shaders` is, as plain values.
pub open spec fn shader_views(shaders: Seq<Shader>) -> Seq<ShaderView> {
    Seq::new(shaders.len(), |i: int| shaders[i]@)
}

} // verus!
