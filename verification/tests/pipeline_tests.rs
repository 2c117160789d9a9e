use lod_readback::errors::{BuildError, CompileError};
use lod_readback::pipeline::{build_pipeline, Program, ProgramInterface, SPIRV_MAGIC};
use lod_readback::resources::{
    lod_query_binding_layout, BindingKind, BindingLayout, BindingLayoutEntry, ShaderStage,
    TextureFormat,
};

fn empty_interface() -> ProgramInterface {
    ProgramInterface { bindings: Vec::new(), combined_query: false }
}

fn query_interface() -> ProgramInterface {
    ProgramInterface {
        bindings: vec![(0, BindingKind::SampledTexture), (1, BindingKind::Sampler)],
        combined_query: true,
    }
}

fn vertex_program() -> Program {
    Program::from_compiled(ShaderStage::Vertex, vec![SPIRV_MAGIC, 0, 5], empty_interface())
        .unwrap()
}

fn fragment_program() -> Program {
    Program::from_compiled(ShaderStage::Fragment, vec![SPIRV_MAGIC, 0, 5], query_interface())
        .unwrap()
}

#[test]
fn binary_without_magic_is_rejected() {
    let r = Program::from_compiled(ShaderStage::Vertex, vec![0xDEAD_BEEF], empty_interface());
    assert_eq!(r.unwrap_err(), CompileError::InvalidBinary);
}

#[test]
fn empty_binary_is_rejected() {
    let r = Program::from_compiled(ShaderStage::Fragment, Vec::new(), empty_interface());
    assert_eq!(r.unwrap_err(), CompileError::InvalidBinary);
}

#[test]
fn magic_binary_is_accepted_with_its_stage() {
    let p = vertex_program();
    assert_eq!(p.stage, ShaderStage::Vertex);
    assert_eq!(p.code[0], SPIRV_MAGIC);
}

#[test]
fn compatible_programs_and_layout_build() {
    let p = build_pipeline(
        vertex_program(),
        fragment_program(),
        lod_query_binding_layout(),
        TextureFormat::Rgba32Float,
    )
    .unwrap();
    assert_eq!(p.target_format, TextureFormat::Rgba32Float);
    assert_eq!(p.layout.entries.len(), 2);
}

#[test]
fn swapped_stages_fail_with_wrong_stage() {
    let r = build_pipeline(
        fragment_program(),
        vertex_program(),
        lod_query_binding_layout(),
        TextureFormat::Rgba32Float,
    );
    assert_eq!(r.unwrap_err(), BuildError::WrongStage);
}

#[test]
fn duplicate_binding_indices_fail() {
    let layout = BindingLayout {
        entries: vec![
            BindingLayoutEntry {
                binding: 0,
                visibility: ShaderStage::Fragment,
                kind: BindingKind::SampledTexture,
            },
            BindingLayoutEntry {
                binding: 0,
                visibility: ShaderStage::Fragment,
                kind: BindingKind::Sampler,
            },
        ],
    };
    let r = build_pipeline(
        vertex_program(),
        fragment_program(),
        layout,
        TextureFormat::Rgba32Float,
    );
    assert_eq!(r.unwrap_err(), BuildError::DuplicateBinding);
}

#[test]
fn undeclared_binding_fails_as_missing() {
    let layout = BindingLayout {
        entries: vec![BindingLayoutEntry {
            binding: 0,
            visibility: ShaderStage::Fragment,
            kind: BindingKind::SampledTexture,
        }],
    };
    let r = build_pipeline(
        vertex_program(),
        fragment_program(),
        layout,
        TextureFormat::Rgba32Float,
    );
    assert_eq!(r.unwrap_err(), BuildError::MissingBinding);
}

#[test]
fn binding_with_wrong_kind_fails_as_missing() {
    let layout = BindingLayout {
        entries: vec![
            BindingLayoutEntry {
                binding: 0,
                visibility: ShaderStage::Fragment,
                kind: BindingKind::Sampler,
            },
            BindingLayoutEntry {
                binding: 1,
                visibility: ShaderStage::Fragment,
                kind: BindingKind::SampledTexture,
            },
        ],
    };
    let r = build_pipeline(
        vertex_program(),
        fragment_program(),
        layout,
        TextureFormat::Rgba32Float,
    );
    assert_eq!(r.unwrap_err(), BuildError::MissingBinding);
}

#[test]
fn covered_query_off_convention_fails() {
    let layout = BindingLayout {
        entries: vec![
            BindingLayoutEntry {
                binding: 2,
                visibility: ShaderStage::Fragment,
                kind: BindingKind::SampledTexture,
            },
            BindingLayoutEntry {
                binding: 3,
                visibility: ShaderStage::Fragment,
                kind: BindingKind::Sampler,
            },
        ],
    };
    let fragment = Program::from_compiled(
        ShaderStage::Fragment,
        vec![SPIRV_MAGIC],
        ProgramInterface {
            bindings: vec![(2, BindingKind::SampledTexture), (3, BindingKind::Sampler)],
            combined_query: true,
        },
    )
    .unwrap();
    let r = build_pipeline(vertex_program(), fragment, layout, TextureFormat::Rgba32Float);
    assert_eq!(r.unwrap_err(), BuildError::ConventionViolation);
}

#[test]
fn fragment_without_query_needs_no_convention() {
    let layout = BindingLayout { entries: Vec::new() };
    let fragment = Program::from_compiled(
        ShaderStage::Fragment,
        vec![SPIRV_MAGIC],
        empty_interface(),
    )
    .unwrap();
    let r = build_pipeline(vertex_program(), fragment, layout, TextureFormat::Rgba32Float);
    assert!(r.is_ok());
}
