use waiter_codegen::model::{
    Annotation, Declaration, DiagnosticKind, FieldList, Fragment, ImplItem, ImplementationBlock,
    NamedField, ProviderSource, Scope, StandaloneFunction, TypeDefinition, UnnamedField,
};
use waiter_codegen::render::render_declaration;
use waiter_codegen::strip::strip_declaration;
use waiter_codegen::{component, module, provides, wrapper};

fn marker(name: &str) -> Annotation {
    Annotation { name: String::from(name), args: None }
}

fn svc_struct() -> Declaration {
    Declaration::TypeDefinition(TypeDefinition {
        annotations: vec![],
        name: String::from("Svc"),
        fields: FieldList::Named(vec![NamedField {
            annotations: vec![marker("prop")],
            name: String::from("field"),
            ty: String::from("i32"),
        }]),
    })
}

fn make_fn() -> Declaration {
    Declaration::StandaloneFunction(StandaloneFunction {
        annotations: vec![],
        name: String::from("make"),
        tail: String::from("() -> Impl { Impl {} }"),
    })
}

fn svc_impl() -> Declaration {
    Declaration::ImplementationBlock(ImplementationBlock {
        annotations: vec![],
        target: String::from("Svc"),
        items: vec![ImplItem {
            annotations: vec![marker("provides"), marker("prop")],
            text: String::from("fn dep(&self) -> Dep { Dep {} }"),
        }],
    })
}

#[test]
fn component_on_struct_strips_prop_and_registers() {
    let out = component(svc_struct()).unwrap();
    assert_eq!(render_declaration(&out.declaration), "struct Svc { field: i32 }");
    assert_eq!(
        out.fragments,
        vec![
            Fragment::ComponentRegistration { target: String::from("Svc") },
            Fragment::SelfProvider { target: String::from("Svc") },
        ]
    );
}

#[test]
fn component_on_struct_strips_provides_marker_too() {
    let decl = Declaration::TypeDefinition(TypeDefinition {
        annotations: vec![marker("provides")],
        name: String::from("Svc"),
        fields: FieldList::Unit,
    });
    let out = component(decl).unwrap();
    assert_eq!(render_declaration(&out.declaration), "struct Svc;");
}

#[test]
fn component_keeps_annotations_sharing_a_prefix_with_a_marker() {
    let decl = Declaration::TypeDefinition(TypeDefinition {
        annotations: vec![],
        name: String::from("Svc"),
        fields: FieldList::Named(vec![NamedField {
            annotations: vec![marker("property")],
            name: String::from("field"),
            ty: String::from("i32"),
        }]),
    });
    let out = component(decl).unwrap();
    assert_eq!(render_declaration(&out.declaration), "struct Svc { #[property] field: i32 }");
}

#[test]
fn component_on_impl_registers_and_keeps_provides() {
    let out = component(svc_impl()).unwrap();
    assert_eq!(
        out.fragments,
        vec![Fragment::ComponentRegistration { target: String::from("Svc") }]
    );
    assert_eq!(
        render_declaration(&out.declaration),
        "impl Svc { #[provides] fn dep(&self) -> Dep { Dep {} } }"
    );
}

#[test]
fn component_on_function_is_unsupported_shape() {
    let diag = component(make_fn()).unwrap_err();
    assert_eq!(diag.kind, DiagnosticKind::UnsupportedShape);
}

#[test]
fn component_on_other_item_is_unsupported_shape() {
    let diag = component(Declaration::Other(String::from("enum Color { Red }"))).unwrap_err();
    assert_eq!(diag.kind, DiagnosticKind::UnsupportedShape);
}

#[test]
fn module_is_an_alias_of_component() {
    let a = module(svc_struct()).unwrap();
    let b = component(svc_struct()).unwrap();
    assert_eq!(a.declaration, b.declaration);
    assert_eq!(a.fragments, b.fragments);
}

#[test]
fn provides_on_function_emits_factory_fragment() {
    let out = provides("Greeter", make_fn()).unwrap();
    assert_eq!(render_declaration(&out.declaration), "fn make() -> Impl { Impl {} }");
    assert_eq!(out.fragments.len(), 1);
    match &out.fragments[0] {
        Fragment::InterfaceProvider { meta, source } => {
            assert_eq!(meta.interface, "Greeter");
            assert_eq!(meta.qualifier, None);
            assert_eq!(meta.scope, Scope::Singleton);
            assert_eq!(
                source,
                &ProviderSource::Factory { function: String::from("make") }
            );
        },
        other => panic!("expected an interface provider, got {:?}", other),
    }
}

#[test]
fn provides_on_impl_emits_implementation_fragment() {
    let out = provides("Greeter, scope: prototype", svc_impl()).unwrap();
    assert_eq!(out.fragments.len(), 1);
    match &out.fragments[0] {
        Fragment::InterfaceProvider { meta, source } => {
            assert_eq!(meta.interface, "Greeter");
            assert_eq!(meta.scope, Scope::Prototype);
            assert_eq!(
                source,
                &ProviderSource::Implementation { target: String::from("Svc") }
            );
        },
        other => panic!("expected an interface provider, got {:?}", other),
    }
}

#[test]
fn provides_strips_prop_but_keeps_provides_markers() {
    let out = provides("Greeter", svc_impl()).unwrap();
    assert_eq!(
        render_declaration(&out.declaration),
        "impl Svc { #[provides] fn dep(&self) -> Dep { Dep {} } }"
    );
}

#[test]
fn provides_on_struct_is_unsupported_shape() {
    let diag = provides("Greeter", svc_struct()).unwrap_err();
    assert_eq!(diag.kind, DiagnosticKind::UnsupportedShape);
}

#[test]
fn provides_malformed_arguments_win_over_shape() {
    let diag = provides("bogus: 1", svc_struct()).unwrap_err();
    assert_eq!(diag.kind, DiagnosticKind::MalformedAnnotation);
}

#[test]
fn wrapper_on_single_field_tuple_delegates() {
    let decl = Declaration::TypeDefinition(TypeDefinition {
        annotations: vec![],
        name: String::from("Wrapping"),
        fields: FieldList::Unnamed(vec![UnnamedField {
            annotations: vec![],
            ty: String::from("Inner"),
        }]),
    });
    let out = wrapper(decl.clone()).unwrap();
    assert_eq!(out.declaration, decl);
    assert_eq!(render_declaration(&out.declaration), "struct Wrapping(Inner);");
    assert_eq!(
        out.fragments,
        vec![Fragment::Delegation {
            wrapper_name: String::from("Wrapping"),
            inner: String::from("Inner"),
        }]
    );
}

#[test]
fn wrapper_on_zero_field_tuple_is_wrong_field_shape() {
    let decl = Declaration::TypeDefinition(TypeDefinition {
        annotations: vec![],
        name: String::from("Wrapping"),
        fields: FieldList::Unnamed(vec![]),
    });
    let diag = wrapper(decl).unwrap_err();
    assert_eq!(diag.kind, DiagnosticKind::WrongFieldShape);
}

#[test]
fn wrapper_on_two_field_tuple_is_wrong_field_shape() {
    let decl = Declaration::TypeDefinition(TypeDefinition {
        annotations: vec![],
        name: String::from("Wrapping"),
        fields: FieldList::Unnamed(vec![
            UnnamedField { annotations: vec![], ty: String::from("Inner") },
            UnnamedField { annotations: vec![], ty: String::from("Other") },
        ]),
    });
    let diag = wrapper(decl).unwrap_err();
    assert_eq!(diag.kind, DiagnosticKind::WrongFieldShape);
}

#[test]
fn wrapper_on_named_fields_is_wrong_field_shape() {
    let decl = Declaration::TypeDefinition(TypeDefinition {
        annotations: vec![],
        name: String::from("Wrapping"),
        fields: FieldList::Named(vec![NamedField {
            annotations: vec![],
            name: String::from("inner"),
            ty: String::from("Inner"),
        }]),
    });
    let diag = wrapper(decl).unwrap_err();
    assert_eq!(diag.kind, DiagnosticKind::WrongFieldShape);
}

#[test]
fn wrapper_on_function_is_unsupported_shape() {
    let diag = wrapper(make_fn()).unwrap_err();
    assert_eq!(diag.kind, DiagnosticKind::UnsupportedShape);
}

#[test]
fn stripping_is_idempotent_on_a_marked_struct() {
    let marker_name = String::from("prop");
    let once = strip_declaration(svc_struct(), &marker_name);
    let twice = strip_declaration(once.clone(), &marker_name);
    assert_eq!(twice, once);
}

#[test]
fn stripping_an_unmarked_declaration_changes_nothing() {
    let marker_name = String::from("prop");
    let decl = make_fn();
    let stripped = strip_declaration(decl.clone(), &marker_name);
    assert_eq!(stripped, decl);
}

#[test]
fn render_unit_and_tuple_structs() {
    let unit = Declaration::TypeDefinition(TypeDefinition {
        annotations: vec![marker("other")],
        name: String::from("Nothing"),
        fields: FieldList::Unit,
    });
    assert_eq!(render_declaration(&unit), "#[other] struct Nothing;");
    let pair = Declaration::TypeDefinition(TypeDefinition {
        annotations: vec![],
        name: String::from("Pair"),
        fields: FieldList::Unnamed(vec![
            UnnamedField { annotations: vec![], ty: String::from("A") },
            UnnamedField { annotations: vec![], ty: String::from("B") },
        ]),
    });
    assert_eq!(render_declaration(&pair), "struct Pair(A, B);");
}

#[test]
fn render_annotation_with_arguments() {
    let decl = Declaration::StandaloneFunction(StandaloneFunction {
        annotations: vec![Annotation {
            name: String::from("inline"),
            args: Some(String::from("always")),
        }],
        name: String::from("make"),
        tail: String::from("() {}"),
    });
    assert_eq!(render_declaration(&decl), "#[inline(always)] fn make() {}");
}
