//! Declaration classification: which of the three supported shapes an
//! annotated declaration has, per the annotation that triggered the run.
//!
//! Shapes are tried in a fixed priority order — type definition, then
//! implementation block, then standalone function — and the first structural
//! match wins; a declaration matching none of the shapes valid for the
//! triggering annotation gets a diagnostic worded for that annotation.
use vstd::prelude::*;

verus! {

use crate::model::{
    AnnotationKind, Declaration, DeclarationShape, DeclarationView, Diagnostic, DiagnosticKind,
    DiagnosticView,
};

/// The diagnostic for an annotation applied to a declaration kind outside
/// its valid-shape set.
pub open spec fn diag_shape(ann: AnnotationKind) -> DiagnosticView {
    match ann {
        AnnotationKind::Component => DiagnosticView {
            kind: DiagnosticKind::UnsupportedShape,
            message: "component and module go only on a type definition or an implementation block"@,
        },
        AnnotationKind::Provides => DiagnosticView {
            kind: DiagnosticKind::UnsupportedShape,
            message: "provides goes only on an implementation block or a factory function"@,
        },
        AnnotationKind::Wrapper => DiagnosticView {
            kind: DiagnosticKind::UnsupportedShape,
            message: "wrapper goes only on a type definition"@,
        },
    }
}

/// Classification is total: every declaration either falls under exactly one
/// shape valid for the triggering annotation, or gets that annotation's
/// shape diagnostic.
pub open spec fn classify_spec(d: DeclarationView, ann: AnnotationKind) -> Result<
    DeclarationShape,
    DiagnosticView,
> {
    match d {
        DeclarationView::TypeDefinition(_) => if ann == AnnotationKind::Component || ann
            == AnnotationKind::Wrapper {
            Ok(DeclarationShape::TypeDefinition)
        } else {
            Err(diag_shape(ann))
        },
        DeclarationView::ImplementationBlock(_) => if ann == AnnotationKind::Component || ann
            == AnnotationKind::Provides {
            Ok(DeclarationShape::ImplementationBlock)
        } else {
            Err(diag_shape(ann))
        },
        DeclarationView::StandaloneFunction(_) => if ann == AnnotationKind::Provides {
            Ok(DeclarationShape::StandaloneFunction)
        } else {
            Err(diag_shape(ann))
        },
        DeclarationView::Other(_) => Err(diag_shape(ann)),
    }
}

fn make_shape_diag(message: &str) -> (d: Diagnostic)
    ensures
        d@ == (DiagnosticView { kind: DiagnosticKind::UnsupportedShape, message: message@ }),
{
    Diagnostic { kind: DiagnosticKind::UnsupportedShape, message: String::from_str(message) }
}

fn shape_diag_for(ann: AnnotationKind) -> (d: Diagnostic)
    ensures
        d@ == diag_shape(ann),
{
    match ann {
        AnnotationKind::Component => make_shape_diag(
            "component and module go only on a type definition or an implementation block",
        ),
        AnnotationKind::Provides => make_shape_diag(
            "provides goes only on an implementation block or a factory function",
        ),
        AnnotationKind::Wrapper => make_shape_diag("wrapper goes only on a type definition"),
    }
}

/// Determines the declaration's shape, or the diagnostic naming the
/// unsupported combination of annotation and declaration kind.
pub fn classify(decl: &Declaration, ann: AnnotationKind) -> (res: Result<
    DeclarationShape,
    Diagnostic,
>)
    ensures
        match res {
            Ok(s) => classify_spec(decl@, ann) == Ok::<DeclarationShape, DiagnosticView>(s),
            Err(d) => classify_spec(decl@, ann) == Err::<DeclarationShape, DiagnosticView>(d@),
        },
{
    match decl {
        Declaration::TypeDefinition(_) => {
            if ann == AnnotationKind::Component || ann == AnnotationKind::Wrapper {
                Ok(DeclarationShape::TypeDefinition)
            } else {
                Err(shape_diag_for(ann))
            }
        },
        Declaration::ImplementationBlock(_) => {
            if ann == AnnotationKind::Component || ann == AnnotationKind::Provides {
                Ok(DeclarationShape::ImplementationBlock)
            } else {
                Err(shape_diag_for(ann))
            }
        },
        Declaration::StandaloneFunction(_) => {
            if ann == AnnotationKind::Provides {
                Ok(DeclarationShape::StandaloneFunction)
            } else {
                Err(shape_diag_for(ann))
            }
        },
        Declaration::Other(_) => Err(shape_diag_for(ann)),
    }
}

} // verus!
