//! Programs and pipeline construction. A program binary is accepted
//! into the typed `Program` wrapper only when it carries the SPIR-V
//! magic word, making the trust placed in the external compiler an
//! explicit boundary; building a pipeline validates the programs'
//! stages and the binding layout against the fragment program's
//! declared resource interface.

use vstd::prelude::*;
use crate::errors::{BuildError, CompileError};
use crate::resources::{BindingKind, BindingLayout, ShaderStage, TextureFormat};

verus! {

/// First word of every SPIR-V binary.
pub const SPIRV_MAGIC: u32 = 0x0723_0203;

/// The resource interface a program declares: which binding indices it
/// references, with their kinds, and whether it performs a combined
/// texture + sampler query (such as a level-of-detail query).
#[derive(Clone, Debug)]
pub struct ProgramInterface {
    pub bindings: Vec<(u32, BindingKind)>,
    pub combined_query: bool,
}

/// A compiled program accepted for a stage. Values exist only through
/// `Program::from_compiled`, so holding one certifies that the binary
/// begins with the SPIR-V magic word.
#[derive(Clone, Debug)]
pub struct Program {
    pub stage: ShaderStage,
    pub code: Vec<u32>,
    pub interface: ProgramInterface,
}

impl Program {
    /// The one shape check the library can make without decoding the
    /// binary: it is non-empty and starts with the magic word.
    pub open spec fn binary_plausible(code: Seq<u32>) -> bool {
        code.len() > 0 && code[0] == SPIRV_MAGIC
    }

    /// Wraps a compiled binary for `stage`. The compiler's output is
    /// trusted beyond the magic-word check; a binary without it is
    /// rejected as `InvalidBinary`.
    pub fn from_compiled(stage: ShaderStage, code: Vec<u32>, interface: ProgramInterface) -> (r:
        Result<Program, CompileError>)
        ensures
            Self::binary_plausible(code@) ==> (r matches Ok(p) && p.stage == stage && p.code@
                == code@ && p.interface.bindings@ == interface.bindings@
                && p.interface.combined_query == interface.combined_query),
            !Self::binary_plausible(code@) ==> r == Err::<Program, CompileError>(
                CompileError::InvalidBinary,
            ),
    {
        if code.len() == 0 || code[0] != SPIRV_MAGIC {
            return Err(CompileError::InvalidBinary);
        }
        Ok(Program { stage, code, interface })
    }
}

/// An executable graphics pipeline: the two programs, the layout they
/// were validated against, and the color-target format. Immutable once
/// built; this design has no vertex input buffers, since positions are
/// a constant-array lookup by vertex index inside the program.
#[derive(Clone, Debug)]
pub struct Pipeline {
    pub vertex: Program,
    pub fragment: Program,
    pub layout: BindingLayout,
    pub target_format: TextureFormat,
}

/// Every binding the interface references is present in the layout
/// with the same kind.
pub open spec fn interface_covered(interface: ProgramInterface, layout: BindingLayout) -> bool {
    forall|i: int|
        0 <= i < interface.bindings@.len() ==> layout.has_binding(
            #[trigger] interface.bindings@[i].0,
            interface.bindings@[i].1,
        )
}

/// The design's one fixed convention: a combined texture + sampler
/// query takes its texture from binding 0 and its sampler from
/// binding 1.
pub open spec fn follows_query_convention(layout: BindingLayout) -> bool {
    layout.has_binding(0, BindingKind::SampledTexture) && layout.has_binding(
        1,
        BindingKind::Sampler,
    )
}

/// The first fault `build_pipeline` finds, in the order it checks:
/// stages, duplicate bindings, interface coverage, query convention.
pub open spec fn pipeline_fault(
    vertex: Program,
    fragment: Program,
    layout: BindingLayout,
) -> Option<BuildError> {
    if vertex.stage != ShaderStage::Vertex {
        Some(BuildError::WrongStage)
    } else if fragment.stage != ShaderStage::Fragment {
        Some(BuildError::WrongStage)
    } else if !layout.bindings_unique() {
        Some(BuildError::DuplicateBinding)
    } else if !interface_covered(fragment.interface, layout) {
        Some(BuildError::MissingBinding)
    } else if fragment.interface.combined_query && !follows_query_convention(layout) {
        Some(BuildError::ConventionViolation)
    } else {
        None
    }
}

/// Whether the layout's binding indices are pairwise distinct.
fn check_bindings_unique(layout: &BindingLayout) -> (r: bool)
    ensures
        r == layout.bindings_unique(),
{
    let n = layout.entries.len();
    let mut i: usize = 0;
    while i < n
        invariant
            n == layout.entries@.len(),
            i <= n,
            forall|a: int, b: int|
                0 <= a < b < n && a < i ==> layout.entries@[a].binding != layout.entries@[
                    b
                ].binding,
        decreases n - i,
    {
        let mut j: usize = i + 1;
        while j < n
            invariant
                n == layout.entries@.len(),
                i < j <= n,
                i < n,
                forall|b: int| i < b < j ==> layout.entries@[i as int].binding != layout.entries@[
                    b
                ].binding,
            decreases n - j,
        {
            if layout.entries[i].binding == layout.entries[j].binding {
                return false;
            }
            j = j + 1;
        }
        i = i + 1;
    }
    true
}

/// Whether every binding the interface references is in the layout
/// with the same kind.
fn check_interface_covered(interface: &ProgramInterface, layout: &BindingLayout) -> (r: bool)
    ensures
        r == interface_covered(*interface, *layout),
{
    let n = interface.bindings.len();
    let mut i: usize = 0;
    while i < n
        invariant
            n == interface.bindings@.len(),
            i <= n,
            forall|a: int|
                0 <= a < i ==> layout.has_binding(
                    #[trigger] interface.bindings@[a].0,
                    interface.bindings@[a].1,
                ),
        decreases n - i,
    {
        let (binding, kind) = interface.bindings[i];
        if !layout.find_binding(binding, kind) {
            return false;
        }
        i = i + 1;
    }
    true
}

/// Combines compiled programs and a binding layout into a pipeline,
/// or reports the first incompatibility found. Succeeds exactly when
/// `pipeline_fault` finds none.
pub fn build_pipeline(
    vertex: Program,
    fragment: Program,
    layout: BindingLayout,
    target_format: TextureFormat,
) -> (r: Result<Pipeline, BuildError>)
    ensures
        (match pipeline_fault(vertex, fragment, layout) {
            Some(e) => r == Err::<Pipeline, BuildError>(e),
            None => r matches Ok(p) && p.vertex == vertex && p.fragment == fragment && p.layout
                == layout && p.target_format == target_format,
        }),
        r is Ok ==> layout.bindings_unique() && interface_covered(fragment.interface, layout),
{
    if !matches!(vertex.stage, ShaderStage::Vertex) {
        return Err(BuildError::WrongStage);
    }
    if !matches!(fragment.stage, ShaderStage::Fragment) {
        return Err(BuildError::WrongStage);
    }
    if !check_bindings_unique(&layout) {
        return Err(BuildError::DuplicateBinding);
    }
    if !check_interface_covered(&fragment.interface, &layout) {
        return Err(BuildError::MissingBinding);
    }
    if fragment.interface.combined_query {
        let texture_ok = layout.find_binding(0, BindingKind::SampledTexture);
        let sampler_ok = layout.find_binding(1, BindingKind::Sampler);
        if !texture_ok || !sampler_ok {
            return Err(BuildError::ConventionViolation);
        }
    }
    Ok(Pipeline { vertex, fragment, layout, target_format })
}

} // verus!
