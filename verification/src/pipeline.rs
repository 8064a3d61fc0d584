//! The pipeline registry: the closed set of two pipeline variants, compiled
//! once at startup against one shared pipeline layout, and the binding-set
//! layout compatibility check that makes the variants interchangeable.

use vstd::prelude::*;

use crate::bindings::{BindingLayoutEntry, BindingSetLayout};
use crate::toggle::ToggleState;

verus! {

/// What a shader program expects of its surroundings: whether its vertex
/// stage consumes the external vertex buffer, and the binding-set layouts it
/// declares, in slot order.
#[derive(Debug)]
pub struct ShaderInterface {
    pub uses_vertex_buffer: bool,
    pub expected_sets: Vec<BindingSetLayout>,
}

/// One compiled pipeline variant, reduced to what draw time reads: which
/// toggle state selects it and whether it consumes the external vertex
/// buffer. Variants are created once and never mutated.
#[derive(Clone, Copy, Debug, PartialEq, Eq, Structural)]
pub struct PipelineVariant {
    pub id: ToggleState,
    pub uses_vertex_buffer: bool,
}

/// The fixed set of pipeline variants, keyed by the toggle state. Both share
/// one pipeline layout, so either can be selected at draw time without
/// rebinding resources.
#[derive(Clone, Copy, Debug, PartialEq, Eq, Structural)]
pub struct PipelineRegistry {
    pub textured: PipelineVariant,
    pub procedural: PipelineVariant,
}

/// Why compiling the pipeline variants failed.
#[derive(Clone, Copy, Debug, PartialEq, Eq, Structural)]
pub enum PipelineError {
    /// A binding-set layout a shader declares does not match the one
    /// supplied in the shared pipeline layout.
    LayoutMismatch,
}

/// The slot contracts of a list of binding-set layouts, in slot order.
pub open spec fn spec_sets(v: Seq<BindingSetLayout>) -> Seq<Seq<BindingLayoutEntry>> {
    v.map_values(|s: BindingSetLayout| s@)
}

/// Whether a shader's expected binding-set layouts are compatible with the
/// supplied pipeline layout: every set the shader declares must be present
/// at the same slot with exactly the declared entries.
pub open spec fn spec_compatible(
    expected: Seq<Seq<BindingLayoutEntry>>,
    provided: Seq<Seq<BindingLayoutEntry>>,
) -> bool {
    expected.len() <= provided.len() && (forall|i: int|
        0 <= i < expected.len() ==> expected[i] =~= provided[i])
}

/// Check a shader's declared binding-set layouts against the supplied ones.
pub fn sets_compatible(expected: &Vec<BindingSetLayout>, provided: &Vec<BindingSetLayout>) -> (r:
    bool)
    ensures
        r == spec_compatible(spec_sets(expected@), spec_sets(provided@)),
{
    if expected.len() > provided.len() {
        return false;
    }
    let mut i: usize = 0;
    while i < expected.len()
        invariant
            i <= expected@.len(),
            expected@.len() <= provided@.len(),
            forall|j: int| 0 <= j < i ==> spec_sets(expected@)[j] =~= spec_sets(provided@)[j],
        decreases expected@.len() - i,
    {
        if !crate::bindings::layouts_match(&expected[i], &provided[i]) {
            assert(!(spec_sets(expected@)[i as int] =~= spec_sets(provided@)[i as int]));
            return false;
        }
        i = i + 1;
    }
    true
}

impl PipelineRegistry {
    /// Compile the two pipeline variants against the shared pipeline layout.
    ///
    /// Succeeds exactly when both shaders' declared binding-set layouts
    /// match the supplied ones; a mismatch is a fatal startup error, caught
    /// here at pipeline-creation time, never at draw time.
    pub fn new(
        textured: &ShaderInterface,
        procedural: &ShaderInterface,
        provided: &Vec<BindingSetLayout>,
    ) -> (r: Result<PipelineRegistry, PipelineError>)
        ensures
            r is Ok <==> spec_compatible(spec_sets(textured.expected_sets@), spec_sets(provided@))
                && spec_compatible(spec_sets(procedural.expected_sets@), spec_sets(provided@)),
            r matches Ok(reg) ==> reg == (PipelineRegistry {
                textured: PipelineVariant {
                    id: ToggleState::VariantA,
                    uses_vertex_buffer: textured.uses_vertex_buffer,
                },
                procedural: PipelineVariant {
                    id: ToggleState::VariantB,
                    uses_vertex_buffer: procedural.uses_vertex_buffer,
                },
            }),
            r is Err ==> r == Result::<PipelineRegistry, PipelineError>::Err(
                PipelineError::LayoutMismatch,
            ),
    {
        let textured_ok = sets_compatible(&textured.expected_sets, provided);
        let procedural_ok = sets_compatible(&procedural.expected_sets, provided);
        if textured_ok && procedural_ok {
            Ok(
                PipelineRegistry {
                    textured: PipelineVariant {
                        id: ToggleState::VariantA,
                        uses_vertex_buffer: textured.uses_vertex_buffer,
                    },
                    procedural: PipelineVariant {
                        id: ToggleState::VariantB,
                        uses_vertex_buffer: procedural.uses_vertex_buffer,
                    },
                },
            )
        } else {
            Err(PipelineError::LayoutMismatch)
        }
    }

    /// The variant the given toggle state selects at draw time.
    pub fn variant_for(&self, state: ToggleState) -> (r: PipelineVariant)
        ensures
            state is VariantA ==> r == self.textured,
            state is VariantB ==> r == self.procedural,
    {
        match state {
            ToggleState::VariantA => self.textured,
            ToggleState::VariantB => self.procedural,
        }
    }
}

} // verus!
