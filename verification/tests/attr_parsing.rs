use waiter_codegen::attr_parser::parse_provides_attr;
use waiter_codegen::model::{DiagnosticKind, Scope};

#[test]
fn parse_bare_interface_defaults() {
    let meta = parse_provides_attr("Greeter").unwrap();
    assert_eq!(meta.interface, "Greeter");
    assert_eq!(meta.qualifier, None);
    assert_eq!(meta.scope, Scope::Singleton);
}

#[test]
fn parse_trims_spaces_around_interface() {
    let meta = parse_provides_attr("  Greeter  ").unwrap();
    assert_eq!(meta.interface, "Greeter");
    assert_eq!(meta.scope, Scope::Singleton);
}

#[test]
fn parse_generic_interface_reference() {
    let meta = parse_provides_attr("Repository<User>").unwrap();
    assert_eq!(meta.interface, "Repository<User>");
}

#[test]
fn parse_scope_prototype() {
    let meta = parse_provides_attr("Greeter, scope: prototype").unwrap();
    assert_eq!(meta.interface, "Greeter");
    assert_eq!(meta.qualifier, None);
    assert_eq!(meta.scope, Scope::Prototype);
}

#[test]
fn parse_scope_singleton_explicit() {
    let meta = parse_provides_attr("Greeter, scope: singleton").unwrap();
    assert_eq!(meta.scope, Scope::Singleton);
}

#[test]
fn parse_name_option_sets_qualifier() {
    let meta = parse_provides_attr("Greeter, name: polite").unwrap();
    assert_eq!(meta.interface, "Greeter");
    assert_eq!(meta.qualifier, Some(String::from("polite")));
    assert_eq!(meta.scope, Scope::Singleton);
}

#[test]
fn parse_name_and_scope_together() {
    let meta = parse_provides_attr("Greeter, name: polite, scope: prototype").unwrap();
    assert_eq!(meta.qualifier, Some(String::from("polite")));
    assert_eq!(meta.scope, Scope::Prototype);
}

#[test]
fn parse_later_option_overrides_earlier() {
    let meta = parse_provides_attr("Greeter, scope: prototype, scope: singleton").unwrap();
    assert_eq!(meta.scope, Scope::Singleton);
}

#[test]
fn parse_unrecognized_option_is_malformed() {
    let diag = parse_provides_attr("Greeter, bogus: 1").unwrap_err();
    assert_eq!(diag.kind, DiagnosticKind::MalformedAnnotation);
}

#[test]
fn parse_piece_without_colon_is_malformed() {
    let diag = parse_provides_attr("Greeter, prototype").unwrap_err();
    assert_eq!(diag.kind, DiagnosticKind::MalformedAnnotation);
}

#[test]
fn parse_bad_scope_value_is_malformed() {
    let diag = parse_provides_attr("Greeter, scope: whatever").unwrap_err();
    assert_eq!(diag.kind, DiagnosticKind::MalformedAnnotation);
}

#[test]
fn parse_empty_name_value_is_malformed() {
    let diag = parse_provides_attr("Greeter, name:  ").unwrap_err();
    assert_eq!(diag.kind, DiagnosticKind::MalformedAnnotation);
}

#[test]
fn parse_empty_arguments_is_malformed() {
    let diag = parse_provides_attr("").unwrap_err();
    assert_eq!(diag.kind, DiagnosticKind::MalformedAnnotation);
}

#[test]
fn parse_named_option_in_first_position_is_malformed() {
    let diag = parse_provides_attr("name: polite").unwrap_err();
    assert_eq!(diag.kind, DiagnosticKind::MalformedAnnotation);
}

#[test]
fn parse_non_type_interface_is_malformed() {
    let diag = parse_provides_attr("???").unwrap_err();
    assert_eq!(diag.kind, DiagnosticKind::MalformedAnnotation);
}

#[test]
fn parse_keeps_interface_with_path_segments() {
    let meta = parse_provides_attr("crate::api::Greeter").unwrap();
    assert_eq!(meta.interface, "crate::api::Greeter");
}
