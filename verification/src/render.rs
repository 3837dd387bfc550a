//! Rendering of a declaration's structural form back to source text, for
//! handing the (marker-stripped) original back to the host.
use vstd::prelude::*;

verus! {

use crate::model::{
    Annotation, AnnotationView, Declaration, DeclarationView, FieldList, FieldListView, ImplItem,
    ImplItemView, NamedField, NamedFieldView, UnnamedField, UnnamedFieldView,
};

/// `#[name]` or `#[name(args)]`, with a trailing space.
pub open spec fn render_annotation_spec(a: AnnotationView) -> Seq<char> {
    match a.args {
        Some(args) => "#["@ + a.name + "("@ + args + ")"@ + "] "@,
        None => "#["@ + a.name + "] "@,
    }
}

pub open spec fn render_annotations_spec(anns: Seq<AnnotationView>) -> Seq<char>
    decreases anns.len(),
{
    if anns.len() == 0 {
        Seq::empty()
    } else {
        render_annotations_spec(anns.drop_last()) + render_annotation_spec(anns.last())
    }
}

pub open spec fn render_named_field_spec(f: NamedFieldView) -> Seq<char> {
    render_annotations_spec(f.annotations) + f.name + ": "@ + f.ty
}

pub open spec fn render_named_fields_spec(fs: Seq<NamedFieldView>) -> Seq<char>
    decreases fs.len(),
{
    if fs.len() == 0 {
        Seq::empty()
    } else if fs.len() == 1 {
        render_named_field_spec(fs[0])
    } else {
        render_named_fields_spec(fs.drop_last()) + ", "@ + render_named_field_spec(fs.last())
    }
}

pub open spec fn render_unnamed_field_spec(f: UnnamedFieldView) -> Seq<char> {
    render_annotations_spec(f.annotations) + f.ty
}

pub open spec fn render_unnamed_fields_spec(fs: Seq<UnnamedFieldView>) -> Seq<char>
    decreases fs.len(),
{
    if fs.len() == 0 {
        Seq::empty()
    } else if fs.len() == 1 {
        render_unnamed_field_spec(fs[0])
    } else {
        render_unnamed_fields_spec(fs.drop_last()) + ", "@ + render_unnamed_field_spec(fs.last())
    }
}

pub open spec fn render_impl_item_spec(it: ImplItemView) -> Seq<char> {
    render_annotations_spec(it.annotations) + it.text
}

pub open spec fn render_impl_items_spec(its: Seq<ImplItemView>) -> Seq<char>
    decreases its.len(),
{
    if its.len() == 0 {
        Seq::empty()
    } else if its.len() == 1 {
        render_impl_item_spec(its[0])
    } else {
        render_impl_items_spec(its.drop_last()) + " "@ + render_impl_item_spec(its.last())
    }
}

/// The serialized form of a declaration: its annotations, then its own
/// syntax; an unsupported item renders as the text it was delivered as.
pub open spec fn render_declaration_spec(d: DeclarationView) -> Seq<char> {
    match d {
        DeclarationView::TypeDefinition(td) => render_annotations_spec(td.annotations) + "struct "@
            + td.name + match td.fields {
            FieldListView::Named(fs) => " { "@ + render_named_fields_spec(fs) + " }"@,
            FieldListView::Unnamed(fs) => "("@ + render_unnamed_fields_spec(fs) + ");"@,
            FieldListView::Unit => ";"@,
        },
        DeclarationView::ImplementationBlock(ib) => render_annotations_spec(ib.annotations)
            + "impl "@ + ib.target + " { "@ + render_impl_items_spec(ib.items) + " }"@,
        DeclarationView::StandaloneFunction(f) => render_annotations_spec(f.annotations) + "fn "@
            + f.name + f.tail,
        DeclarationView::Other(t) => t,
    }
}

fn push_annotation(out: &mut String, a: &Annotation)
    ensures
        final(out)@ == old(out)@ + render_annotation_spec(a@),
{
    out.append("#[");
    out.append(a.name.as_str());
    match &a.args {
        Some(args) => {
            out.append("(");
            out.append(args.as_str());
            out.append(")");
            out.append("] ");
        },
        None => {
            out.append("] ");
        },
    }
    proof {
        assert(out@ =~= old(out)@ + render_annotation_spec(a@));
    }
}

fn push_annotations(out: &mut String, anns: &Vec<Annotation>)
    ensures
        final(out)@ == old(out)@ + render_annotations_spec(anns.deep_view()),
{
    let ghost all: Seq<AnnotationView> = anns.deep_view();
    proof {
        assert(all.subrange(0, 0) =~= Seq::<AnnotationView>::empty());
        assert(out@ =~= old(out)@ + render_annotations_spec(all.subrange(0, 0)));
    }
    let mut i: usize = 0;
    while i < anns.len()
        invariant
            anns.deep_view() == all,
            0 <= i <= anns.len(),
            out@ == old(out)@ + render_annotations_spec(all.subrange(0, i as int)),
        decreases anns.len() - i,
    {
        push_annotation(out, &anns[i]);
        proof {
            let pre = all.subrange(0, i as int);
            let cur = all.subrange(0, i as int + 1);
            assert(cur.drop_last() =~= pre);
            assert(cur.last() == all[i as int]);
            assert(out@ =~= old(out)@ + render_annotations_spec(cur));
        }
        i = i + 1;
    }
    proof {
        assert(all.subrange(0, anns.len() as int) =~= all);
    }
}

fn push_named_fields(out: &mut String, fs: &Vec<NamedField>)
    ensures
        final(out)@ == old(out)@ + render_named_fields_spec(fs.deep_view()),
{
    let ghost all: Seq<NamedFieldView> = fs.deep_view();
    proof {
        assert(all.subrange(0, 0) =~= Seq::<NamedFieldView>::empty());
        assert(out@ =~= old(out)@ + render_named_fields_spec(all.subrange(0, 0)));
    }
    let mut i: usize = 0;
    while i < fs.len()
        invariant
            fs.deep_view() == all,
            0 <= i <= fs.len(),
            out@ == old(out)@ + render_named_fields_spec(all.subrange(0, i as int)),
        decreases fs.len() - i,
    {
        if i > 0 {
            out.append(", ");
        }
        let f = &fs[i];
        push_annotations(out, &f.annotations);
        out.append(f.name.as_str());
        out.append(": ");
        out.append(f.ty.as_str());
        proof {
            let pre = all.subrange(0, i as int);
            let cur = all.subrange(0, i as int + 1);
            assert(cur.drop_last() =~= pre);
            assert(cur.last() == all[i as int]);
            assert(out@ =~= old(out)@ + render_named_fields_spec(cur));
        }
        i = i + 1;
    }
    proof {
        assert(all.subrange(0, fs.len() as int) =~= all);
    }
}

fn push_unnamed_fields(out: &mut String, fs: &Vec<UnnamedField>)
    ensures
        final(out)@ == old(out)@ + render_unnamed_fields_spec(fs.deep_view()),
{
    let ghost all: Seq<UnnamedFieldView> = fs.deep_view();
    proof {
        assert(all.subrange(0, 0) =~= Seq::<UnnamedFieldView>::empty());
        assert(out@ =~= old(out)@ + render_unnamed_fields_spec(all.subrange(0, 0)));
    }
    let mut i: usize = 0;
    while i < fs.len()
        invariant
            fs.deep_view() == all,
            0 <= i <= fs.len(),
            out@ == old(out)@ + render_unnamed_fields_spec(all.subrange(0, i as int)),
        decreases fs.len() - i,
    {
        if i > 0 {
            out.append(", ");
        }
        let f = &fs[i];
        push_annotations(out, &f.annotations);
        out.append(f.ty.as_str());
        proof {
            let pre = all.subrange(0, i as int);
            let cur = all.subrange(0, i as int + 1);
            assert(cur.drop_last() =~= pre);
            assert(cur.last() == all[i as int]);
            assert(out@ =~= old(out)@ + render_unnamed_fields_spec(cur));
        }
        i = i + 1;
    }
    proof {
        assert(all.subrange(0, fs.len() as int) =~= all);
    }
}

fn push_impl_items(out: &mut String, its: &Vec<ImplItem>)
    ensures
        final(out)@ == old(out)@ + render_impl_items_spec(its.deep_view()),
{
    let ghost all: Seq<ImplItemView> = its.deep_view();
    proof {
        assert(all.subrange(0, 0) =~= Seq::<ImplItemView>::empty());
        assert(out@ =~= old(out)@ + render_impl_items_spec(all.subrange(0, 0)));
    }
    let mut i: usize = 0;
    while i < its.len()
        invariant
            its.deep_view() == all,
            0 <= i <= its.len(),
            out@ == old(out)@ + render_impl_items_spec(all.subrange(0, i as int)),
        decreases its.len() - i,
    {
        if i > 0 {
            out.append(" ");
        }
        let it = &its[i];
        push_annotations(out, &it.annotations);
        out.append(it.text.as_str());
        proof {
            let pre = all.subrange(0, i as int);
            let cur = all.subrange(0, i as int + 1);
            assert(cur.drop_last() =~= pre);
            assert(cur.last() == all[i as int]);
            assert(out@ =~= old(out)@ + render_impl_items_spec(cur));
        }
        i = i + 1;
    }
    proof {
        assert(all.subrange(0, its.len() as int) =~= all);
    }
}

/// Serializes a declaration back to source text.
pub fn render_declaration(decl: &Declaration) -> (r: String)
    ensures
        r@ == render_declaration_spec(decl@),
{
    let mut out = String::new();
    match decl {
        Declaration::TypeDefinition(td) => {
            push_annotations(&mut out, &td.annotations);
            out.append("struct ");
            out.append(td.name.as_str());
            match &td.fields {
                FieldList::Named(fs) => {
                    out.append(" { ");
                    push_named_fields(&mut out, fs);
                    out.append(" }");
                },
                FieldList::Unnamed(fs) => {
                    out.append("(");
                    push_unnamed_fields(&mut out, fs);
                    out.append(");");
                },
                FieldList::Unit => {
                    out.append(";");
                },
            }
            proof {
                assert(out@ =~= render_declaration_spec(decl@));
            }
        },
        Declaration::ImplementationBlock(ib) => {
            push_annotations(&mut out, &ib.annotations);
            out.append("impl ");
            out.append(ib.target.as_str());
            out.append(" { ");
            push_impl_items(&mut out, &ib.items);
            out.append(" }");
            proof {
                assert(out@ =~= render_declaration_spec(decl@));
            }
        },
        Declaration::StandaloneFunction(f) => {
            push_annotations(&mut out, &f.annotations);
            out.append("fn ");
            out.append(f.name.as_str());
            out.append(f.tail.as_str());
            proof {
                assert(out@ =~= render_declaration_spec(decl@));
            }
        },
        Declaration::Other(t) => {
            out.append(t.as_str());
            proof {
                assert(out@ =~= render_declaration_spec(decl@));
            }
        },
    }
    out
}

} // verus!
