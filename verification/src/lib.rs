//! Annotation-driven generation of dependency-injection boilerplate.
//!
//! The pipeline takes one annotated declaration at a time, strips the
//! internal marker annotations, classifies the declaration's shape, and
//! emits registration fragments for the provider protocol — or a diagnostic
//! when the annotation does not support the declaration. Each declaration is
//! processed in full isolation; failures are local to it and deterministic.
use vstd::prelude::*;

pub mod attr_parser;
pub mod classify;
pub mod component;
pub mod model;
pub mod provider;
pub mod render;
pub mod strip;

verus! {

use crate::attr_parser::{lemma_parse_bare_interface, parse_provides_attr, parse_provides_spec,
    type_ok};
use crate::classify::{classify, diag_shape};
use crate::component::{generate_component_for_impl, generate_component_for_struct};
use crate::model::{
    AnnotationKind, Declaration, DeclarationShape, DeclarationView, Diagnostic, DiagnosticKind,
    DiagnosticView, FieldList, FieldListView, Fragment, FragmentView, Output, OutputView,
    ProviderSourceView, ProvidesMetadataView, Scope, TypeDefinition, TypeDefinitionView,
};
use crate::provider::{
    generate_component_provider_impl_fn, generate_component_provider_impl_struct,
    generate_interface_provider_impl,
};
use crate::strip::{impl_item_strip_fn, lemma_strip_preserves_other_names, named_marker,
    prop_marker, provides_marker, strip_declaration, strip_declaration_spec};

/// What `component` (and its alias `module`) returns for a declaration: for
/// a type definition, the definition with the `prop` and `provides` markers
/// stripped plus its component registration and self-provider fragments; for
/// an implementation block, the block with only the `prop` markers stripped
/// — `provides` markers on its items are kept for downstream parsing — plus
/// its component registration; anything else is an unsupported shape.
pub open spec fn component_spec(d: DeclarationView) -> Result<OutputView, DiagnosticView> {
    match d {
        DeclarationView::TypeDefinition(td) => Ok(
            OutputView {
                declaration: strip_declaration_spec(
                    strip_declaration_spec(d, prop_marker()),
                    provides_marker(),
                ),
                fragments: seq![
                    FragmentView::ComponentRegistration { target: td.name },
                    FragmentView::SelfProvider { target: td.name },
                ],
            },
        ),
        DeclarationView::ImplementationBlock(ib) => Ok(
            OutputView {
                declaration: strip_declaration_spec(d, prop_marker()),
                fragments: seq![FragmentView::ComponentRegistration { target: ib.target }],
            },
        ),
        _ => Err(diag_shape(AnnotationKind::Component)),
    }
}

/// What `provides` returns for an annotation argument text and a
/// declaration: the metadata parse's diagnostic if the arguments are
/// malformed; otherwise, for an implementation block or a standalone
/// function, the declaration with `prop` markers stripped plus one
/// interface-provider fragment — direct construction for a block, factory
/// invocation for a function; anything else is an unsupported shape.
pub open spec fn provides_spec(attr: Seq<char>, d: DeclarationView) -> Result<
    OutputView,
    DiagnosticView,
> {
    match parse_provides_spec(attr) {
        Err(dg) => Err(dg),
        Ok(m) => match d {
            DeclarationView::ImplementationBlock(ib) => Ok(
                OutputView {
                    declaration: strip_declaration_spec(d, prop_marker()),
                    fragments: seq![
                        FragmentView::InterfaceProvider {
                            meta: m,
                            source: ProviderSourceView::Implementation { target: ib.target },
                        },
                    ],
                },
            ),
            DeclarationView::StandaloneFunction(f) => Ok(
                OutputView {
                    declaration: strip_declaration_spec(d, prop_marker()),
                    fragments: seq![
                        FragmentView::InterfaceProvider {
                            meta: m,
                            source: ProviderSourceView::Factory { function: f.name },
                        },
                    ],
                },
            ),
            _ => Err(diag_shape(AnnotationKind::Provides)),
        },
    }
}

pub open spec fn diag_wrong_field_count() -> DiagnosticView {
    DiagnosticView {
        kind: DiagnosticKind::WrongFieldShape,
        message: "a wrapper type definition holds exactly one field"@,
    }
}

pub open spec fn diag_not_tuple() -> DiagnosticView {
    DiagnosticView {
        kind: DiagnosticKind::WrongFieldShape,
        message: "only a tuple-like type definition can be a wrapper"@,
    }
}

/// What the wrapper emitter yields for a type definition: a delegation
/// fragment exposing the single unnamed field's type through the wrapper,
/// or a wrong-field-shape diagnostic for zero, several, or named fields.
pub open spec fn emit_wrapper_spec(td: TypeDefinitionView) -> Result<FragmentView, DiagnosticView> {
    match td.fields {
        FieldListView::Unnamed(fs) => if fs.len() == 1 {
            Ok(FragmentView::Delegation { wrapper_name: td.name, inner: fs[0].ty })
        } else {
            Err(diag_wrong_field_count())
        },
        _ => Err(diag_not_tuple()),
    }
}

/// What `wrapper` returns for a declaration: the declaration unchanged plus
/// its delegation fragment, the wrapper emitter's diagnostic for a type
/// definition of the wrong field shape, or an unsupported-shape diagnostic
/// for anything that is no type definition at all.
pub open spec fn wrapper_spec(d: DeclarationView) -> Result<OutputView, DiagnosticView> {
    match d {
        DeclarationView::TypeDefinition(td) => match emit_wrapper_spec(td) {
            Ok(f) => Ok(OutputView { declaration: d, fragments: seq![f] }),
            Err(dg) => Err(dg),
        },
        _ => Err(diag_shape(AnnotationKind::Wrapper)),
    }
}

/// A type definition under `component` yields its definition with both the
/// `prop` and `provides` markers stripped, exactly one component
/// registration and one self-provider fragment for the type, and no
/// provider-as-interface fragment.
pub proof fn lemma_component_on_type_definition(d: DeclarationView)
    requires
        d is TypeDefinition,
    ensures
        component_spec(d) is Ok,
        ({
            let o = component_spec(d)->Ok_0;
            &&& o.declaration == strip_declaration_spec(
                strip_declaration_spec(d, prop_marker()),
                provides_marker(),
            )
            &&& o.fragments.len() == 2
            &&& o.fragments[0] == (FragmentView::ComponentRegistration {
                target: d->TypeDefinition_0.name,
            })
            &&& o.fragments[1] == (FragmentView::SelfProvider { target: d->TypeDefinition_0.name })
            &&& forall|i: int|
                0 <= i < o.fragments.len() ==> !(#[trigger] o.fragments[i] is InterfaceProvider)
        }),
{
}

/// An implementation block under `component` yields the block plus exactly
/// one component-registration fragment for its target type, and the
/// `provides` markers nested on its items are preserved for downstream
/// parsing, not stripped.
pub proof fn lemma_component_on_impl_block(d: DeclarationView)
    requires
        d is ImplementationBlock,
    ensures
        component_spec(d) is Ok,
        ({
            let o = component_spec(d)->Ok_0;
            let orig_items = d->ImplementationBlock_0.items;
            let kept_items = o.declaration->ImplementationBlock_0.items;
            &&& o.declaration == strip_declaration_spec(d, prop_marker())
            &&& o.fragments == seq![
                FragmentView::ComponentRegistration { target: d->ImplementationBlock_0.target },
            ]
            &&& kept_items.len() == orig_items.len()
            &&& forall|j: int|
                0 <= j < orig_items.len() ==> (#[trigger] kept_items[j].annotations).filter(
                    named_marker(provides_marker()),
                ) == orig_items[j].annotations.filter(named_marker(provides_marker()))
        }),
{
    reveal_strlit("prop");
    reveal_strlit("provides");
    assert("prop"@.len() == 4);
    assert("provides"@.len() == 8);
    assert(provides_marker() != prop_marker());
    let o = component_spec(d)->Ok_0;
    let orig_items = d->ImplementationBlock_0.items;
    let kept_items = o.declaration->ImplementationBlock_0.items;
    assert(kept_items == orig_items.map_values(impl_item_strip_fn(prop_marker())));
    assert forall|j: int| 0 <= j < orig_items.len() implies (#[trigger] kept_items[j].annotations)
        .filter(named_marker(provides_marker())) == orig_items[j].annotations.filter(
        named_marker(provides_marker()),
    ) by {
        assert(kept_items[j] == impl_item_strip_fn(prop_marker())(orig_items[j]));
        lemma_strip_preserves_other_names(
            orig_items[j].annotations,
            prop_marker(),
            provides_marker(),
        );
    }
}

/// A well-formed bare `provides(Interface)` on a standalone function parses
/// to that interface with no qualifier and singleton scope, and emits the
/// function with `prop` markers stripped plus exactly one factory-style
/// provider fragment binding the interface to an invocation of the
/// function.
pub proof fn lemma_provides_on_function(attr: Seq<char>, d: DeclarationView)
    requires
        d is StandaloneFunction,
        attr.len() > 0,
        forall|j: int| 0 <= j < attr.len() ==> attr[j] != ',' && attr[j] != ' ',
        type_ok(attr),
    ensures
        provides_spec(attr, d) == Ok::<OutputView, DiagnosticView>(
            OutputView {
                declaration: strip_declaration_spec(d, prop_marker()),
                fragments: seq![
                    FragmentView::InterfaceProvider {
                        meta: ProvidesMetadataView {
                            interface: attr,
                            qualifier: None,
                            scope: Scope::Singleton,
                        },
                        source: ProviderSourceView::Factory {
                            function: d->StandaloneFunction_0.name,
                        },
                    },
                ],
            },
        ),
{
    lemma_parse_bare_interface(attr);
}

/// The wrapper entry, shape by shape: a type definition with exactly one
/// unnamed field comes back unchanged with one delegation fragment exposing
/// the field's type; unnamed fields in any other number are a
/// wrong-field-count diagnostic; named fields or no field list at all are a
/// not-tuple diagnostic — in both failures, no fragment at all.
pub proof fn lemma_wrapper_shapes(d: DeclarationView)
    requires
        d is TypeDefinition,
    ensures
        ({
            let td = d->TypeDefinition_0;
            &&& (td.fields matches FieldListView::Unnamed(fs) ==> (if fs.len() == 1 {
                wrapper_spec(d) == Ok::<OutputView, DiagnosticView>(
                    OutputView {
                        declaration: d,
                        fragments: seq![
                            FragmentView::Delegation { wrapper_name: td.name, inner: fs[0].ty },
                        ],
                    },
                )
            } else {
                wrapper_spec(d) == Err::<OutputView, DiagnosticView>(diag_wrong_field_count())
            }))
            &&& (td.fields is Named ==> wrapper_spec(d) == Err::<OutputView, DiagnosticView>(
                diag_not_tuple(),
            ))
            &&& (td.fields is Unit ==> wrapper_spec(d) == Err::<OutputView, DiagnosticView>(
                diag_not_tuple(),
            ))
        }),
{
}

/// Emits the transparent-delegation fragment for a wrapper type definition,
/// which must hold exactly one unnamed field.
pub fn emit_wrapper(td: &TypeDefinition) -> (res: Result<Fragment, Diagnostic>)
    ensures
        match res {
            Ok(f) => emit_wrapper_spec(td@) == Ok::<FragmentView, DiagnosticView>(f@),
            Err(d) => emit_wrapper_spec(td@) == Err::<FragmentView, DiagnosticView>(d@),
        },
{
    match &td.fields {
        FieldList::Unnamed(fs) => {
            if fs.len() == 1 {
                Ok(
                    Fragment::Delegation {
                        wrapper_name: td.name.clone(),
                        inner: fs[0].ty.clone(),
                    },
                )
            } else {
                Err(
                    Diagnostic {
                        kind: DiagnosticKind::WrongFieldShape,
                        message: String::from_str(
                            "a wrapper type definition holds exactly one field",
                        ),
                    },
                )
            }
        },
        _ => Err(
            Diagnostic {
                kind: DiagnosticKind::WrongFieldShape,
                message: String::from_str("only a tuple-like type definition can be a wrapper"),
            },
        ),
    }
}

/// Entry point for the `component` annotation: strip markers, classify,
/// emit the original plus its component-role fragments.
pub fn component(item: Declaration) -> (res: Result<Output, Diagnostic>)
    ensures
        match res {
            Ok(o) => component_spec(item@) == Ok::<OutputView, DiagnosticView>(o@),
            Err(d) => component_spec(item@) == Err::<OutputView, DiagnosticView>(d@),
        },
{
    let shape = match classify(&item, AnnotationKind::Component) {
        Ok(s) => s,
        Err(d) => {
            return Err(d);
        },
    };
    match shape {
        DeclarationShape::TypeDefinition => {
            let stripped = strip_declaration(
                strip_declaration(item, &String::from_str("prop")),
                &String::from_str("provides"),
            );
            let mut fragments: Vec<Fragment> = Vec::new();
            match &stripped {
                Declaration::TypeDefinition(td) => {
                    fragments.push(generate_component_for_struct(td));
                    fragments.push(generate_component_provider_impl_struct(td));
                },
                _ => {
                    proof {
                        assert(false);
                    }
                },
            }
            let out = Output { declaration: stripped, fragments };
            proof {
                assert(out@.fragments =~= component_spec(item@)->Ok_0.fragments);
            }
            Ok(out)
        },
        DeclarationShape::ImplementationBlock => {
            let stripped = strip_declaration(item, &String::from_str("prop"));
            let mut fragments: Vec<Fragment> = Vec::new();
            match &stripped {
                Declaration::ImplementationBlock(ib) => {
                    fragments.push(generate_component_for_impl(ib));
                },
                _ => {
                    proof {
                        assert(false);
                    }
                },
            }
            let out = Output { declaration: stripped, fragments };
            proof {
                assert(out@.fragments =~= component_spec(item@)->Ok_0.fragments);
            }
            Ok(out)
        },
        DeclarationShape::StandaloneFunction => {
            proof {
                assert(false);
            }
            vstd::pervasive::unreached()
        },
    }
}

/// Entry point for the `module` annotation, an alias of `component`.
pub fn module(item: Declaration) -> (res: Result<Output, Diagnostic>)
    ensures
        match res {
            Ok(o) => component_spec(item@) == Ok::<OutputView, DiagnosticView>(o@),
            Err(d) => component_spec(item@) == Err::<OutputView, DiagnosticView>(d@),
        },
{
    component(item)
}

/// Entry point for the `provides` annotation: parse the annotation
/// arguments, strip markers, classify, emit the original plus its
/// interface-provider fragment.
pub fn provides(attr: &str, item: Declaration) -> (res: Result<Output, Diagnostic>)
    ensures
        match res {
            Ok(o) => provides_spec(attr@, item@) == Ok::<OutputView, DiagnosticView>(o@),
            Err(d) => provides_spec(attr@, item@) == Err::<OutputView, DiagnosticView>(d@),
        },
{
    let meta = match parse_provides_attr(attr) {
        Ok(m) => m,
        Err(d) => {
            return Err(d);
        },
    };
    let shape = match classify(&item, AnnotationKind::Provides) {
        Ok(s) => s,
        Err(d) => {
            return Err(d);
        },
    };
    match shape {
        DeclarationShape::ImplementationBlock => {
            let stripped = strip_declaration(item, &String::from_str("prop"));
            let mut fragments: Vec<Fragment> = Vec::new();
            match &stripped {
                Declaration::ImplementationBlock(ib) => {
                    fragments.push(generate_interface_provider_impl(meta, ib));
                },
                _ => {
                    proof {
                        assert(false);
                    }
                },
            }
            let out = Output { declaration: stripped, fragments };
            proof {
                assert(out@.fragments =~= provides_spec(attr@, item@)->Ok_0.fragments);
            }
            Ok(out)
        },
        DeclarationShape::StandaloneFunction => {
            let stripped = strip_declaration(item, &String::from_str("prop"));
            let mut fragments: Vec<Fragment> = Vec::new();
            match &stripped {
                Declaration::StandaloneFunction(f) => {
                    fragments.push(generate_component_provider_impl_fn(meta, f));
                },
                _ => {
                    proof {
                        assert(false);
                    }
                },
            }
            let out = Output { declaration: stripped, fragments };
            proof {
                assert(out@.fragments =~= provides_spec(attr@, item@)->Ok_0.fragments);
            }
            Ok(out)
        },
        DeclarationShape::TypeDefinition => {
            proof {
                assert(false);
            }
            vstd::pervasive::unreached()
        },
    }
}

/// Entry point for the `wrapper` annotation: a type definition with exactly
/// one unnamed field comes back unchanged together with its delegation
/// fragment; no marker is stripped here.
pub fn wrapper(item: Declaration) -> (res: Result<Output, Diagnostic>)
    ensures
        match res {
            Ok(o) => wrapper_spec(item@) == Ok::<OutputView, DiagnosticView>(o@),
            Err(d) => wrapper_spec(item@) == Err::<OutputView, DiagnosticView>(d@),
        },
{
    match classify(&item, AnnotationKind::Wrapper) {
        Ok(_) => {},
        Err(d) => {
            return Err(d);
        },
    }
    let frag = match &item {
        Declaration::TypeDefinition(td) => {
            match emit_wrapper(td) {
                Ok(f) => f,
                Err(d) => {
                    return Err(d);
                },
            }
        },
        _ => {
            proof {
                assert(false);
            }
            vstd::pervasive::unreached()
        },
    };
    let mut fragments: Vec<Fragment> = Vec::new();
    fragments.push(frag);
    let out = Output { declaration: item, fragments };
    proof {
        assert(out@.fragments =~= wrapper_spec(item@)->Ok_0.fragments);
    }
    Ok(out)
}

} // verus!
