//! Data model for annotated declarations, provider metadata, diagnostics and
//! generated fragments.
//!
//! A declaration is held structurally: annotations are a list attached to each
//! node, never a textual pattern, so marker removal can filter by exact name.
use vstd::prelude::*;

verus! {

/// An annotation attached to a declaration, a field or an item of an
/// implementation block: a name plus the raw argument text, `None` when the
/// annotation has no argument list at all.
#[derive(PartialEq, Eq, Debug, Clone)]
pub struct Annotation {
    pub name: String,
    pub args: Option<String>,
}

pub struct AnnotationView {
    pub name: Seq<char>,
    pub args: Option<Seq<char>>,
}

impl View for Annotation {
    type V = AnnotationView;

    open spec fn view(&self) -> AnnotationView {
        AnnotationView { name: self.name@, args: self.args.deep_view() }
    }
}

impl DeepView for Annotation {
    type V = AnnotationView;

    open spec fn deep_view(&self) -> AnnotationView {
        self.view()
    }
}

/// A field of a type definition with named fields.
#[derive(PartialEq, Eq, Debug, Clone)]
pub struct NamedField {
    pub annotations: Vec<Annotation>,
    pub name: String,
    pub ty: String,
}

pub struct NamedFieldView {
    pub annotations: Seq<AnnotationView>,
    pub name: Seq<char>,
    pub ty: Seq<char>,
}

impl View for NamedField {
    type V = NamedFieldView;

    open spec fn view(&self) -> NamedFieldView {
        NamedFieldView {
            annotations: self.annotations.deep_view(),
            name: self.name@,
            ty: self.ty@,
        }
    }
}

impl DeepView for NamedField {
    type V = NamedFieldView;

    open spec fn deep_view(&self) -> NamedFieldView {
        self.view()
    }
}

/// A field of a tuple-like type definition: a type, no name.
#[derive(PartialEq, Eq, Debug, Clone)]
pub struct UnnamedField {
    pub annotations: Vec<Annotation>,
    pub ty: String,
}

pub struct UnnamedFieldView {
    pub annotations: Seq<AnnotationView>,
    pub ty: Seq<char>,
}

impl View for UnnamedField {
    type V = UnnamedFieldView;

    open spec fn view(&self) -> UnnamedFieldView {
        UnnamedFieldView { annotations: self.annotations.deep_view(), ty: self.ty@ }
    }
}

impl DeepView for UnnamedField {
    type V = UnnamedFieldView;

    open spec fn deep_view(&self) -> UnnamedFieldView {
        self.view()
    }
}

/// The field list of a type definition: named fields, unnamed (tuple-like)
/// fields, or no field list at all.
#[derive(PartialEq, Eq, Debug, Clone)]
pub enum FieldList {
    Named(Vec<NamedField>),
    Unnamed(Vec<UnnamedField>),
    Unit,
}

pub enum FieldListView {
    Named(Seq<NamedFieldView>),
    Unnamed(Seq<UnnamedFieldView>),
    Unit,
}

impl View for FieldList {
    type V = FieldListView;

    open spec fn view(&self) -> FieldListView {
        match self {
            FieldList::Named(fs) => FieldListView::Named(fs.deep_view()),
            FieldList::Unnamed(fs) => FieldListView::Unnamed(fs.deep_view()),
            FieldList::Unit => FieldListView::Unit,
        }
    }
}

/// A type definition: `struct Name { .. }`, `struct Name(..);` or
/// `struct Name;`.
#[derive(PartialEq, Eq, Debug, Clone)]
pub struct TypeDefinition {
    pub annotations: Vec<Annotation>,
    pub name: String,
    pub fields: FieldList,
}

pub struct TypeDefinitionView {
    pub annotations: Seq<AnnotationView>,
    pub name: Seq<char>,
    pub fields: FieldListView,
}

impl View for TypeDefinition {
    type V = TypeDefinitionView;

    open spec fn view(&self) -> TypeDefinitionView {
        TypeDefinitionView {
            annotations: self.annotations.deep_view(),
            name: self.name@,
            fields: self.fields@,
        }
    }
}

/// An item inside an implementation block: its own annotations plus its
/// serialized body, which the pipeline never inspects.
#[derive(PartialEq, Eq, Debug, Clone)]
pub struct ImplItem {
    pub annotations: Vec<Annotation>,
    pub text: String,
}

pub struct ImplItemView {
    pub annotations: Seq<AnnotationView>,
    pub text: Seq<char>,
}

impl View for ImplItem {
    type V = ImplItemView;

    open spec fn view(&self) -> ImplItemView {
        ImplItemView { annotations: self.annotations.deep_view(), text: self.text@ }
    }
}

impl DeepView for ImplItem {
    type V = ImplItemView;

    open spec fn deep_view(&self) -> ImplItemView {
        self.view()
    }
}

/// An implementation block: `impl Target { .. }`.
#[derive(PartialEq, Eq, Debug, Clone)]
pub struct ImplementationBlock {
    pub annotations: Vec<Annotation>,
    pub target: String,
    pub items: Vec<ImplItem>,
}

pub struct ImplementationBlockView {
    pub annotations: Seq<AnnotationView>,
    pub target: Seq<char>,
    pub items: Seq<ImplItemView>,
}

impl View for ImplementationBlock {
    type V = ImplementationBlockView;

    open spec fn view(&self) -> ImplementationBlockView {
        ImplementationBlockView {
            annotations: self.annotations.deep_view(),
            target: self.target@,
            items: self.items.deep_view(),
        }
    }
}

/// A standalone function: `fn name` followed by its serialized signature tail
/// and body, which the pipeline never inspects.
#[derive(PartialEq, Eq, Debug, Clone)]
pub struct StandaloneFunction {
    pub annotations: Vec<Annotation>,
    pub name: String,
    pub tail: String,
}

pub struct StandaloneFunctionView {
    pub annotations: Seq<AnnotationView>,
    pub name: Seq<char>,
    pub tail: Seq<char>,
}

impl View for StandaloneFunction {
    type V = StandaloneFunctionView;

    open spec fn view(&self) -> StandaloneFunctionView {
        StandaloneFunctionView {
            annotations: self.annotations.deep_view(),
            name: self.name@,
            tail: self.tail@,
        }
    }
}

/// A raw annotated declaration as delivered by the host's parser: one of the
/// three supported shapes, or some other item kind kept only as text.
#[derive(PartialEq, Eq, Debug, Clone)]
pub enum Declaration {
    TypeDefinition(TypeDefinition),
    ImplementationBlock(ImplementationBlock),
    StandaloneFunction(StandaloneFunction),
    Other(String),
}

pub enum DeclarationView {
    TypeDefinition(TypeDefinitionView),
    ImplementationBlock(ImplementationBlockView),
    StandaloneFunction(StandaloneFunctionView),
    Other(Seq<char>),
}

impl View for Declaration {
    type V = DeclarationView;

    open spec fn view(&self) -> DeclarationView {
        match self {
            Declaration::TypeDefinition(td) => DeclarationView::TypeDefinition(td@),
            Declaration::ImplementationBlock(ib) => DeclarationView::ImplementationBlock(ib@),
            Declaration::StandaloneFunction(f) => DeclarationView::StandaloneFunction(f@),
            Declaration::Other(t) => DeclarationView::Other(t@),
        }
    }
}

/// The shape a classified declaration falls under; each shape selects a
/// different generation strategy.
#[derive(PartialEq, Eq, Structural, Clone, Copy, Debug)]
pub enum DeclarationShape {
    TypeDefinition,
    ImplementationBlock,
    StandaloneFunction,
}

/// Which annotation triggered the run; the valid shapes, and the wording of
/// the shape diagnostics, differ per annotation.
#[derive(PartialEq, Eq, Structural, Clone, Copy, Debug)]
pub enum AnnotationKind {
    Component,
    Provides,
    Wrapper,
}

/// The instance-sharing policy of a provided component.
#[derive(PartialEq, Eq, Structural, Clone, Copy, Debug)]
pub enum Scope {
    Singleton,
    Prototype,
}

/// The validated metadata of a `provides` annotation: the interface to
/// provide, an optional qualifier, and the scope (default singleton).
#[derive(PartialEq, Eq, Debug, Clone)]
pub struct ProvidesMetadata {
    pub interface: String,
    pub qualifier: Option<String>,
    pub scope: Scope,
}

pub struct ProvidesMetadataView {
    pub interface: Seq<char>,
    pub qualifier: Option<Seq<char>>,
    pub scope: Scope,
}

impl View for ProvidesMetadata {
    type V = ProvidesMetadataView;

    open spec fn view(&self) -> ProvidesMetadataView {
        ProvidesMetadataView {
            interface: self.interface@,
            qualifier: self.qualifier.deep_view(),
            scope: self.scope,
        }
    }
}

#[derive(PartialEq, Eq, Structural, Clone, Copy, Debug)]
pub enum DiagnosticKind {
    MalformedAnnotation,
    UnsupportedShape,
    WrongFieldShape,
}

/// An error local to the declaration being processed. The host anchors it at
/// the offending declaration's source location when rendering it as a
/// compile-time error.
#[derive(PartialEq, Eq, Debug, Clone)]
pub struct Diagnostic {
    pub kind: DiagnosticKind,
    pub message: String,
}

pub struct DiagnosticView {
    pub kind: DiagnosticKind,
    pub message: Seq<char>,
}

impl View for Diagnostic {
    type V = DiagnosticView;

    open spec fn view(&self) -> DiagnosticView {
        DiagnosticView { kind: self.kind, message: self.message@ }
    }
}

/// What an interface provider is built from: direct construction through an
/// implementation block's target, or invocation of a factory function.
#[derive(PartialEq, Eq, Debug, Clone)]
pub enum ProviderSource {
    Implementation { target: String },
    Factory { function: String },
}

pub enum ProviderSourceView {
    Implementation { target: Seq<char> },
    Factory { function: Seq<char> },
}

impl View for ProviderSource {
    type V = ProviderSourceView;

    open spec fn view(&self) -> ProviderSourceView {
        match self {
            ProviderSource::Implementation { target } => ProviderSourceView::Implementation {
                target: target@,
            },
            ProviderSource::Factory { function } => ProviderSourceView::Factory {
                function: function@,
            },
        }
    }
}

/// A self-contained unit of generated code, appended after the original
/// declaration. The concrete registration statements are the emitting
/// backend's concern; the fragment pins down exactly what is registered.
#[derive(PartialEq, Eq, Debug, Clone)]
pub enum Fragment {
    /// Registers a type as an injectable component.
    ComponentRegistration { target: String },
    /// Registers a component type as the provider of itself.
    SelfProvider { target: String },
    /// Registers a declaration as the provider of a named interface.
    InterfaceProvider { meta: ProvidesMetadata, source: ProviderSource },
    /// Exposes the wrapped type's capabilities through a wrapper type.
    Delegation { wrapper_name: String, inner: String },
}

pub enum FragmentView {
    ComponentRegistration { target: Seq<char> },
    SelfProvider { target: Seq<char> },
    InterfaceProvider { meta: ProvidesMetadataView, source: ProviderSourceView },
    Delegation { wrapper_name: Seq<char>, inner: Seq<char> },
}

impl View for Fragment {
    type V = FragmentView;

    open spec fn view(&self) -> FragmentView {
        match self {
            Fragment::ComponentRegistration { target } => FragmentView::ComponentRegistration {
                target: target@,
            },
            Fragment::SelfProvider { target } => FragmentView::SelfProvider { target: target@ },
            Fragment::InterfaceProvider { meta, source } => FragmentView::InterfaceProvider {
                meta: meta@,
                source: source@,
            },
            Fragment::Delegation { wrapper_name, inner } => FragmentView::Delegation {
                wrapper_name: wrapper_name@,
                inner: inner@,
            },
        }
    }
}

impl DeepView for Fragment {
    type V = FragmentView;

    open spec fn deep_view(&self) -> FragmentView {
        self.view()
    }
}

/// The successful result for one declaration: the original declaration with
/// markers removed, plus the generated fragments to append after it.
#[derive(PartialEq, Eq, Debug, Clone)]
pub struct Output {
    pub declaration: Declaration,
    pub fragments: Vec<Fragment>,
}

pub struct OutputView {
    pub declaration: DeclarationView,
    pub fragments: Seq<FragmentView>,
}

impl View for Output {
    type V = OutputView;

    open spec fn view(&self) -> OutputView {
        OutputView { declaration: self.declaration@, fragments: self.fragments.deep_view() }
    }
}

} // verus!
