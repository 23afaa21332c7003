//! The linked shader program, as far as the pipeline depends on it: the
//! names of its active uniforms, and the names the pipeline expects to find
//! among them.

use crate::error::RenderError;
use crate::names::is_first_occurrence;
use crate::names::names_of;
use vstd::prelude::*;
use vstd::string::StringExecFns;

verus! {

/// A uniform that the pipeline sets. The program has to declare each of them
/// under the name given by [`UniformName::name`].
#[derive(Clone, Copy, Debug, PartialEq, Eq, Structural)]
pub enum UniformName {
    Time,
    Proj,
    View,
    Albedo,
    Metaghness,
    Normal,
    Occlusion,
}

impl UniformName {
    /// The identifier of the uniform in the shading language.
    pub open spec fn name(self) -> Seq<char> {
        match self {
            UniformName::Time => "time"@,
            UniformName::Proj => "proj"@,
            UniformName::View => "view"@,
            UniformName::Albedo => "albedo"@,
            UniformName::Metaghness => "metaghness"@,
            UniformName::Normal => "normal"@,
            UniformName::Occlusion => "occlusion"@,
        }
    }

    /// The identifier of the uniform in the shading language.
    pub fn as_str(&self) -> (s: &'static str)
        ensures
            s@ == self.name(),
    {
        match self {
            UniformName::Time => "time",
            UniformName::Proj => "proj",
            UniformName::View => "view",
            UniformName::Albedo => "albedo",
            UniformName::Metaghness => "metaghness",
            UniformName::Normal => "normal",
            UniformName::Occlusion => "occlusion",
        }
    }

    /// Whether the uniform is one of the four material samplers.
    pub open spec fn is_sampler(self) -> bool {
        self is Albedo || self is Metaghness || self is Normal || self is Occlusion
    }
}

/// The texture unit that a material sampler reads from. Samplers have units
/// zero to three, in the order albedo, metaghness, normal, occlusion; the
/// other uniforms have none.
pub open spec fn sampler_unit(uniform: UniformName) -> Option<u32> {
    match uniform {
        UniformName::Albedo => Some(0u32),
        UniformName::Metaghness => Some(1u32),
        UniformName::Normal => Some(2u32),
        UniformName::Occlusion => Some(3u32),
        _ => None,
    }
}

/// The material sampler that reads from a texture unit, if any does.
pub open spec fn sampler_at(unit: u32) -> Option<UniformName> {
    if unit == 0 {
        Some(UniformName::Albedo)
    } else if unit == 1 {
        Some(UniformName::Metaghness)
    } else if unit == 2 {
        Some(UniformName::Normal)
    } else if unit == 3 {
        Some(UniformName::Occlusion)
    } else {
        None
    }
}

/// Computes [`sampler_at`].
pub fn sampler_for_unit(unit: u32) -> (r: Option<UniformName>)
    ensures
        r == sampler_at(unit),
{
    if unit == 0 {
        Some(UniformName::Albedo)
    } else if unit == 1 {
        Some(UniformName::Metaghness)
    } else if unit == 2 {
        Some(UniformName::Normal)
    } else if unit == 3 {
        Some(UniformName::Occlusion)
    } else {
        None
    }
}

/// Position of a uniform in the table of a [`ShaderProgram`].
#[derive(Clone, Copy, Debug, PartialEq, Eq, Structural)]
pub struct Uniform {
    pub index: usize,
}

/// What the pipeline knows of a linked program: the names of its active
/// uniforms, as the graphics API reported them after linking.
#[derive(Clone, Debug)]
pub struct ShaderProgram {
    uniforms: Vec<String>,
}

impl View for ShaderProgram {
    type V = Seq<Seq<char>>;

    /// The uniform names, in table order.
    closed spec fn view(&self) -> Seq<Seq<char>> {
        names_of(self.uniforms@)
    }
}

/// Whether a table of uniform names holds every uniform the pipeline sets.
pub open spec fn declares_all(names: Seq<Seq<char>>) -> bool {
    forall|u: UniformName| names.contains(#[trigger] u.name())
}

/// The first uniform, in declaration order of [`UniformName`], that a table
/// lacks; `None` when it has them all.
pub open spec fn first_missing(names: Seq<Seq<char>>) -> Option<UniformName> {
    if !names.contains(UniformName::Time.name()) {
        Some(UniformName::Time)
    } else if !names.contains(UniformName::Proj.name()) {
        Some(UniformName::Proj)
    } else if !names.contains(UniformName::View.name()) {
        Some(UniformName::View)
    } else if !names.contains(UniformName::Albedo.name()) {
        Some(UniformName::Albedo)
    } else if !names.contains(UniformName::Metaghness.name()) {
        Some(UniformName::Metaghness)
    } else if !names.contains(UniformName::Normal.name()) {
        Some(UniformName::Normal)
    } else if !names.contains(UniformName::Occlusion.name()) {
        Some(UniformName::Occlusion)
    } else {
        None
    }
}

impl ShaderProgram {
    /// Records the active uniforms of a linked program.
    pub fn new(uniforms: Vec<String>) -> (program: ShaderProgram)
        ensures
            program@ == names_of(uniforms@),
    {
        ShaderProgram { uniforms }
    }

    /// The number of active uniforms.
    pub fn uniform_count(&self) -> (n: usize)
        ensures
            n == self@.len(),
    {
        self.uniforms.len()
    }

    /// Where in the table a name stands: the first position that holds it.
    pub fn find(&self, name: &str) -> (r: Option<usize>)
        ensures
            match r {
                Some(i) => is_first_occurrence(self@, name@, i as int),
                None => !self@.contains(name@),
            },
    {
        let key = String::from_str(name);
        let mut i: usize = 0;
        while i < self.uniforms.len()
            invariant
                i <= self.uniforms.len(),
                key@ == name@,
                forall|j: int| 0 <= j < i ==> self@[j] != name@,
            decreases self.uniforms.len() - i,
        {
            if self.uniforms[i] == key {
                return Some(i);
            }
            i += 1;
        }
        None
    }

    /// Whether the program has an active uniform of this name.
    pub fn has_uniform(&self, name: &str) -> (r: bool)
        ensures
            r == self@.contains(name@),
    {
        self.find(name).is_some()
    }

    /// Looks a uniform up by name. Fails with
    /// [`RenderError::ShaderUniform`] exactly when the program has no active
    /// uniform of that name.
    pub fn get_uniform(&self, name: &str) -> (r: Result<Uniform, RenderError>)
        ensures
            match r {
                Ok(u) => is_first_occurrence(self@, name@, u.index as int),
                Err(e) => e == RenderError::ShaderUniform && !self@.contains(name@),
            },
    {
        match self.find(name) {
            Some(index) => Ok(Uniform { index }),
            None => Err(RenderError::ShaderUniform),
        }
    }

    /// Whether the program declares every uniform the pipeline sets.
    pub open spec fn satisfies_contract(&self) -> bool {
        declares_all(self@)
    }

    /// The first uniform of the pipeline that the program lacks.
    pub fn missing_uniform(&self) -> (r: Option<UniformName>)
        ensures
            r == first_missing(self@),
            r is None <==> self.satisfies_contract(),
    {
        proof {
            lemma_first_missing(self@);
        }
        if !self.has_uniform(UniformName::Time.as_str()) {
            Some(UniformName::Time)
        } else if !self.has_uniform(UniformName::Proj.as_str()) {
            Some(UniformName::Proj)
        } else if !self.has_uniform(UniformName::View.as_str()) {
            Some(UniformName::View)
        } else if !self.has_uniform(UniformName::Albedo.as_str()) {
            Some(UniformName::Albedo)
        } else if !self.has_uniform(UniformName::Metaghness.as_str()) {
            Some(UniformName::Metaghness)
        } else if !self.has_uniform(UniformName::Normal.as_str()) {
            Some(UniformName::Normal)
        } else if !self.has_uniform(UniformName::Occlusion.as_str()) {
            Some(UniformName::Occlusion)
        } else {
            None
        }
    }
}

/// A table lacks none of the pipeline's uniforms exactly when it declares
/// them all, and a uniform reported missing is not in the table.
pub proof fn lemma_first_missing(names: Seq<Seq<char>>)
    ensures
        first_missing(names) is None <==> declares_all(names),
        first_missing(names) matches Some(u) ==> !names.contains(u.name()),
{
    if first_missing(names) is None {
        assert forall|u: UniformName| names.contains(#[trigger] u.name()) by {
            match u {
                UniformName::Time => {},
                UniformName::Proj => {},
                UniformName::View => {},
                UniformName::Albedo => {},
                UniformName::Metaghness => {},
                UniformName::Normal => {},
                UniformName::Occlusion => {},
            }
        }
    }
}

} // verus!
