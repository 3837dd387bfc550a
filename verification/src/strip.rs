//! Marker stripping: removal of internal marker annotations from a
//! declaration before it is re-emitted.
//!
//! Markers are matched by their exact name, never by a name prefix or a
//! textual pattern, so an annotation that merely shares a prefix with a
//! marker is left alone. Stripping is idempotent and never fails.
use vstd::prelude::*;

verus! {

use crate::model::{
    Annotation, AnnotationView, Declaration, DeclarationView, FieldList, FieldListView, ImplItem,
    ImplItemView, ImplementationBlock, ImplementationBlockView, NamedField, NamedFieldView,
    StandaloneFunction, StandaloneFunctionView, TypeDefinition, TypeDefinitionView, UnnamedField,
    UnnamedFieldView,
};

/// The field-level property marker removed while processing `component`.
pub open spec fn prop_marker() -> Seq<char> {
    "prop"@
}

/// The provider marker, removed only where the surrounding declaration is a
/// type definition.
pub open spec fn provides_marker() -> Seq<char> {
    "provides"@
}

/// Keeps exactly the annotations whose name is not the marker's.
pub open spec fn keeps_marker(marker: Seq<char>) -> spec_fn(AnnotationView) -> bool {
    |a: AnnotationView| a.name != marker
}

/// Picks exactly the annotations with the given exact name.
pub open spec fn named_marker(marker: Seq<char>) -> spec_fn(AnnotationView) -> bool {
    |a: AnnotationView| a.name == marker
}

pub open spec fn strip_annotations_spec(anns: Seq<AnnotationView>, marker: Seq<char>) -> Seq<
    AnnotationView,
> {
    anns.filter(keeps_marker(marker))
}

pub open spec fn strip_named_field_spec(f: NamedFieldView, marker: Seq<char>) -> NamedFieldView {
    NamedFieldView {
        annotations: strip_annotations_spec(f.annotations, marker),
        name: f.name,
        ty: f.ty,
    }
}

pub open spec fn named_field_strip_fn(marker: Seq<char>) -> spec_fn(NamedFieldView) -> NamedFieldView {
    |f: NamedFieldView| strip_named_field_spec(f, marker)
}

pub open spec fn strip_unnamed_field_spec(f: UnnamedFieldView, marker: Seq<char>) -> UnnamedFieldView {
    UnnamedFieldView { annotations: strip_annotations_spec(f.annotations, marker), ty: f.ty }
}

pub open spec fn unnamed_field_strip_fn(marker: Seq<char>) -> spec_fn(UnnamedFieldView) -> UnnamedFieldView {
    |f: UnnamedFieldView| strip_unnamed_field_spec(f, marker)
}

pub open spec fn strip_impl_item_spec(it: ImplItemView, marker: Seq<char>) -> ImplItemView {
    ImplItemView { annotations: strip_annotations_spec(it.annotations, marker), text: it.text }
}

pub open spec fn impl_item_strip_fn(marker: Seq<char>) -> spec_fn(ImplItemView) -> ImplItemView {
    |it: ImplItemView| strip_impl_item_spec(it, marker)
}

pub open spec fn strip_field_list_spec(fl: FieldListView, marker: Seq<char>) -> FieldListView {
    match fl {
        FieldListView::Named(fs) => FieldListView::Named(
            fs.map_values(named_field_strip_fn(marker)),
        ),
        FieldListView::Unnamed(fs) => FieldListView::Unnamed(
            fs.map_values(unnamed_field_strip_fn(marker)),
        ),
        FieldListView::Unit => FieldListView::Unit,
    }
}

/// Removal of every annotation named `marker` from every node of a
/// declaration; everything else is untouched.
pub open spec fn strip_declaration_spec(d: DeclarationView, marker: Seq<char>) -> DeclarationView {
    match d {
        DeclarationView::TypeDefinition(td) => DeclarationView::TypeDefinition(
            TypeDefinitionView {
                annotations: strip_annotations_spec(td.annotations, marker),
                name: td.name,
                fields: strip_field_list_spec(td.fields, marker),
            },
        ),
        DeclarationView::ImplementationBlock(ib) => DeclarationView::ImplementationBlock(
            ImplementationBlockView {
                annotations: strip_annotations_spec(ib.annotations, marker),
                target: ib.target,
                items: ib.items.map_values(impl_item_strip_fn(marker)),
            },
        ),
        DeclarationView::StandaloneFunction(f) => DeclarationView::StandaloneFunction(
            StandaloneFunctionView {
                annotations: strip_annotations_spec(f.annotations, marker),
                name: f.name,
                tail: f.tail,
            },
        ),
        DeclarationView::Other(t) => DeclarationView::Other(t),
    }
}

proof fn lemma_filter_singleton<A>(x: A, p: spec_fn(A) -> bool)
    ensures
        seq![x].filter(p) == if p(x) {
            seq![x]
        } else {
            Seq::<A>::empty()
        },
{
    reveal_with_fuel(Seq::filter, 2);
    assert(seq![x].drop_last() =~= Seq::<A>::empty());
    assert(seq![x].last() == x);
    if p(x) {
        assert(Seq::<A>::empty().push(x) =~= seq![x]);
    }
}

proof fn lemma_filter_distributes<A>(a: Seq<A>, b: Seq<A>, p: spec_fn(A) -> bool)
    ensures
        (a + b).filter(p) == a.filter(p) + b.filter(p),
{
    Seq::<A>::filter_distributes_over_add(a, b, p);
}

/// Filtering a sequence a second time with the same predicate changes
/// nothing.
pub proof fn lemma_filter_idempotent<A>(s: Seq<A>, p: spec_fn(A) -> bool)
    ensures
        s.filter(p).filter(p) == s.filter(p),
    decreases s.len(),
{
    reveal(Seq::filter);
    if s.len() == 0 {
    } else {
        lemma_filter_idempotent(s.drop_last(), p);
        let f = s.drop_last().filter(p);
        if p(s.last()) {
            assert(s.filter(p) == f.push(s.last()));
            assert((f.push(s.last())).drop_last() =~= f);
            assert((f.push(s.last())).last() == s.last());
            assert((f.push(s.last())).filter(p) == f.filter(p).push(s.last()));
        }
    }
}

/// Filtering with `q` after filtering with a weaker `p` is the same as
/// filtering with `q` alone.
pub proof fn lemma_filter_absorbs_weaker<A>(s: Seq<A>, p: spec_fn(A) -> bool, q: spec_fn(A) -> bool)
    requires
        forall|x: A| #[trigger] q(x) ==> p(x),
    ensures
        s.filter(p).filter(q) == s.filter(q),
    decreases s.len(),
{
    reveal(Seq::filter);
    if s.len() == 0 {
    } else {
        lemma_filter_absorbs_weaker(s.drop_last(), p, q);
        let f = s.drop_last().filter(p);
        if p(s.last()) {
            assert((f.push(s.last())).drop_last() =~= f);
            assert((f.push(s.last())).last() == s.last());
            assert((f.push(s.last())).filter(q) == if q(s.last()) {
                f.filter(q).push(s.last())
            } else {
                f.filter(q)
            });
        }
    }
}

/// Marker stripping is idempotent on an annotation list.
pub proof fn lemma_strip_annotations_idempotent(anns: Seq<AnnotationView>, marker: Seq<char>)
    ensures
        strip_annotations_spec(strip_annotations_spec(anns, marker), marker)
            == strip_annotations_spec(anns, marker),
{
    lemma_filter_idempotent(anns, keeps_marker(marker));
}

/// Marker stripping is idempotent: stripping a declaration that was already
/// stripped of the same marker is a no-op.
pub proof fn lemma_strip_declaration_idempotent(d: DeclarationView, marker: Seq<char>)
    ensures
        strip_declaration_spec(strip_declaration_spec(d, marker), marker)
            == strip_declaration_spec(d, marker),
{
    match d {
        DeclarationView::TypeDefinition(td) => {
            lemma_strip_annotations_idempotent(td.annotations, marker);
            match td.fields {
                FieldListView::Named(fs) => {
                    let g = named_field_strip_fn(marker);
                    assert forall|i: int| 0 <= i < fs.len() implies g(fs.map_values(g)[i])
                        == fs.map_values(g)[i] by {
                        lemma_strip_annotations_idempotent(fs[i].annotations, marker);
                    }
                    assert(fs.map_values(g).map_values(g) =~= fs.map_values(g));
                },
                FieldListView::Unnamed(fs) => {
                    let g = unnamed_field_strip_fn(marker);
                    assert forall|i: int| 0 <= i < fs.len() implies g(fs.map_values(g)[i])
                        == fs.map_values(g)[i] by {
                        lemma_strip_annotations_idempotent(fs[i].annotations, marker);
                    }
                    assert(fs.map_values(g).map_values(g) =~= fs.map_values(g));
                },
                FieldListView::Unit => {},
            }
        },
        DeclarationView::ImplementationBlock(ib) => {
            lemma_strip_annotations_idempotent(ib.annotations, marker);
            let g = impl_item_strip_fn(marker);
            let its = ib.items;
            assert forall|i: int| 0 <= i < its.len() implies g(its.map_values(g)[i])
                == its.map_values(g)[i] by {
                lemma_strip_annotations_idempotent(its[i].annotations, marker);
            }
            assert(its.map_values(g).map_values(g) =~= its.map_values(g));
        },
        DeclarationView::StandaloneFunction(f) => {
            lemma_strip_annotations_idempotent(f.annotations, marker);
        },
        DeclarationView::Other(_) => {},
    }
}

/// After stripping, no annotation with the marker's name remains in the
/// list.
pub proof fn lemma_stripped_has_no_marker(anns: Seq<AnnotationView>, marker: Seq<char>)
    ensures
        forall|i: int|
            0 <= i < strip_annotations_spec(anns, marker).len() ==> (#[trigger] strip_annotations_spec(
                anns,
                marker,
            )[i]).name != marker,
{
    let out = strip_annotations_spec(anns, marker);
    assert forall|i: int| 0 <= i < out.len() implies (#[trigger] out[i]).name != marker by {
        anns.lemma_filter_pred(keeps_marker(marker), i);
    }
}

/// Stripping one marker never touches annotations of another name: filtering
/// the result for any other exact name finds the same annotations as before.
pub proof fn lemma_strip_preserves_other_names(
    anns: Seq<AnnotationView>,
    marker: Seq<char>,
    other: Seq<char>,
)
    requires
        other != marker,
    ensures
        strip_annotations_spec(anns, marker).filter(named_marker(other)) == anns.filter(
            named_marker(other),
        ),
{
    let q = named_marker(other);
    assert forall|a: AnnotationView| #[trigger] q(a) implies keeps_marker(marker)(a) by {}
    lemma_filter_absorbs_weaker(anns, keeps_marker(marker), q);
}

/// Removes every annotation named `marker` from the list, keeping the others
/// in order.
pub fn strip_annotations(anns: Vec<Annotation>, marker: &String) -> (r: Vec<Annotation>)
    ensures
        r.deep_view() == strip_annotations_spec(anns.deep_view(), marker@),
{
    let ghost orig: Seq<AnnotationView> = anns.deep_view();
    let mut rest = anns;
    let mut kept: Vec<Annotation> = Vec::new();
    proof {
        assert(strip_annotations_spec(orig, marker@) =~= strip_annotations_spec(
            rest.deep_view(),
            marker@,
        ) + kept.deep_view());
    }
    while rest.len() > 0
        invariant
            strip_annotations_spec(orig, marker@) == strip_annotations_spec(
                rest.deep_view(),
                marker@,
            ) + kept.deep_view(),
        decreases rest.len(),
    {
        let ghost prev: Seq<AnnotationView> = rest.deep_view();
        let a = rest.pop().unwrap();
        let ghost av = a@;
        proof {
            assert(rest.deep_view() =~= prev.drop_last());
            assert(av == prev.last());
            assert(prev =~= rest.deep_view() + seq![av]);
            lemma_filter_distributes(rest.deep_view(), seq![av], keeps_marker(marker@));
            lemma_filter_singleton(av, keeps_marker(marker@));
        }
        let keep = !a.name.eq(marker);
        if keep {
            let ghost kv = kept.deep_view();
            kept.insert(0, a);
            proof {
                assert(kept.deep_view() =~= seq![av] + kv);
                assert(strip_annotations_spec(rest.deep_view(), marker@) + kept.deep_view()
                    =~= (strip_annotations_spec(rest.deep_view(), marker@) + seq![av]) + kv);
            }
        } else {
            proof {
                assert(strip_annotations_spec(rest.deep_view(), marker@) + kept.deep_view()
                    =~= (strip_annotations_spec(rest.deep_view(), marker@)
                    + Seq::<AnnotationView>::empty()) + kept.deep_view());
            }
        }
    }
    proof {
        assert(rest.deep_view() =~= Seq::<AnnotationView>::empty());
        reveal_with_fuel(Seq::filter, 1);
        assert(strip_annotations_spec(rest.deep_view(), marker@) + kept.deep_view()
            =~= kept.deep_view());
    }
    kept
}

/// Strips a marker from every field of a named field list.
fn strip_named_fields(fields: Vec<NamedField>, marker: &String) -> (r: Vec<NamedField>)
    ensures
        r.deep_view() == fields.deep_view().map_values(named_field_strip_fn(marker@)),
{
    let ghost orig: Seq<NamedFieldView> = fields.deep_view();
    let ghost g = named_field_strip_fn(marker@);
    let mut rest = fields;
    let mut out: Vec<NamedField> = Vec::new();
    proof {
        assert(orig.map_values(g) =~= rest.deep_view().map_values(g) + out.deep_view());
    }
    while rest.len() > 0
        invariant
            orig.map_values(named_field_strip_fn(marker@)) == rest.deep_view().map_values(
                named_field_strip_fn(marker@),
            ) + out.deep_view(),
        decreases rest.len(),
    {
        let ghost prev: Seq<NamedFieldView> = rest.deep_view();
        let f = rest.pop().unwrap();
        let ghost fv = f@;
        let stripped = NamedField {
            annotations: strip_annotations(f.annotations, marker),
            name: f.name,
            ty: f.ty,
        };
        let ghost ov = out.deep_view();
        out.insert(0, stripped);
        proof {
            assert(rest.deep_view() =~= prev.drop_last());
            assert(fv == prev.last());
            assert(stripped@ == strip_named_field_spec(fv, marker@));
            assert(out.deep_view() =~= seq![strip_named_field_spec(fv, marker@)] + ov);
            assert(prev.map_values(named_field_strip_fn(marker@)) =~= rest.deep_view().map_values(
                named_field_strip_fn(marker@),
            ) + seq![strip_named_field_spec(fv, marker@)]);
            assert(rest.deep_view().map_values(named_field_strip_fn(marker@)) + out.deep_view()
                =~= prev.map_values(named_field_strip_fn(marker@)) + ov);
        }
    }
    proof {
        assert(rest.deep_view().map_values(named_field_strip_fn(marker@)) =~= Seq::<
            NamedFieldView,
        >::empty());
        assert(Seq::<NamedFieldView>::empty() + out.deep_view() =~= out.deep_view());
    }
    out
}

/// Strips a marker from every field of an unnamed field list.
fn strip_unnamed_fields(fields: Vec<UnnamedField>, marker: &String) -> (r: Vec<UnnamedField>)
    ensures
        r.deep_view() == fields.deep_view().map_values(unnamed_field_strip_fn(marker@)),
{
    let ghost orig: Seq<UnnamedFieldView> = fields.deep_view();
    let mut rest = fields;
    let mut out: Vec<UnnamedField> = Vec::new();
    proof {
        assert(orig.map_values(unnamed_field_strip_fn(marker@)) =~= rest.deep_view().map_values(
            unnamed_field_strip_fn(marker@),
        ) + out.deep_view());
    }
    while rest.len() > 0
        invariant
            orig.map_values(unnamed_field_strip_fn(marker@)) == rest.deep_view().map_values(
                unnamed_field_strip_fn(marker@),
            ) + out.deep_view(),
        decreases rest.len(),
    {
        let ghost prev: Seq<UnnamedFieldView> = rest.deep_view();
        let f = rest.pop().unwrap();
        let ghost fv = f@;
        let stripped = UnnamedField {
            annotations: strip_annotations(f.annotations, marker),
            ty: f.ty,
        };
        let ghost ov = out.deep_view();
        out.insert(0, stripped);
        proof {
            assert(rest.deep_view() =~= prev.drop_last());
            assert(fv == prev.last());
            assert(stripped@ == strip_unnamed_field_spec(fv, marker@));
            assert(out.deep_view() =~= seq![strip_unnamed_field_spec(fv, marker@)] + ov);
            assert(prev.map_values(unnamed_field_strip_fn(marker@))
                =~= rest.deep_view().map_values(unnamed_field_strip_fn(marker@))
                + seq![strip_unnamed_field_spec(fv, marker@)]);
            assert(rest.deep_view().map_values(unnamed_field_strip_fn(marker@)) + out.deep_view()
                =~= prev.map_values(unnamed_field_strip_fn(marker@)) + ov);
        }
    }
    proof {
        assert(rest.deep_view().map_values(unnamed_field_strip_fn(marker@)) =~= Seq::<
            UnnamedFieldView,
        >::empty());
        assert(Seq::<UnnamedFieldView>::empty() + out.deep_view() =~= out.deep_view());
    }
    out
}

/// Strips a marker from every item of an implementation block.
fn strip_impl_items(items: Vec<ImplItem>, marker: &String) -> (r: Vec<ImplItem>)
    ensures
        r.deep_view() == items.deep_view().map_values(impl_item_strip_fn(marker@)),
{
    let ghost orig: Seq<ImplItemView> = items.deep_view();
    let mut rest = items;
    let mut out: Vec<ImplItem> = Vec::new();
    proof {
        assert(orig.map_values(impl_item_strip_fn(marker@)) =~= rest.deep_view().map_values(
            impl_item_strip_fn(marker@),
        ) + out.deep_view());
    }
    while rest.len() > 0
        invariant
            orig.map_values(impl_item_strip_fn(marker@)) == rest.deep_view().map_values(
                impl_item_strip_fn(marker@),
            ) + out.deep_view(),
        decreases rest.len(),
    {
        let ghost prev: Seq<ImplItemView> = rest.deep_view();
        let it = rest.pop().unwrap();
        let ghost iv = it@;
        let stripped = ImplItem {
            annotations: strip_annotations(it.annotations, marker),
            text: it.text,
        };
        let ghost ov = out.deep_view();
        out.insert(0, stripped);
        proof {
            assert(rest.deep_view() =~= prev.drop_last());
            assert(iv == prev.last());
            assert(stripped@ == strip_impl_item_spec(iv, marker@));
            assert(out.deep_view() =~= seq![strip_impl_item_spec(iv, marker@)] + ov);
            assert(prev.map_values(impl_item_strip_fn(marker@)) =~= rest.deep_view().map_values(
                impl_item_strip_fn(marker@),
            ) + seq![strip_impl_item_spec(iv, marker@)]);
            assert(rest.deep_view().map_values(impl_item_strip_fn(marker@)) + out.deep_view()
                =~= prev.map_values(impl_item_strip_fn(marker@)) + ov);
        }
    }
    proof {
        assert(rest.deep_view().map_values(impl_item_strip_fn(marker@)) =~= Seq::<
            ImplItemView,
        >::empty());
        assert(Seq::<ImplItemView>::empty() + out.deep_view() =~= out.deep_view());
    }
    out
}

/// Removes every annotation with the marker's exact name from every node of
/// the declaration. Never fails; a declaration without the marker comes back
/// unchanged.
pub fn strip_declaration(decl: Declaration, marker: &String) -> (r: Declaration)
    ensures
        r@ == strip_declaration_spec(decl@, marker@),
{
    match decl {
        Declaration::TypeDefinition(td) => {
            let fields = match td.fields {
                FieldList::Named(fs) => FieldList::Named(strip_named_fields(fs, marker)),
                FieldList::Unnamed(fs) => FieldList::Unnamed(strip_unnamed_fields(fs, marker)),
                FieldList::Unit => FieldList::Unit,
            };
            Declaration::TypeDefinition(
                TypeDefinition {
                    annotations: strip_annotations(td.annotations, marker),
                    name: td.name,
                    fields,
                },
            )
        },
        Declaration::ImplementationBlock(ib) => Declaration::ImplementationBlock(
            ImplementationBlock {
                annotations: strip_annotations(ib.annotations, marker),
                target: ib.target,
                items: strip_impl_items(ib.items, marker),
            },
        ),
        Declaration::StandaloneFunction(f) => Declaration::StandaloneFunction(
            StandaloneFunction {
                annotations: strip_annotations(f.annotations, marker),
                name: f.name,
                tail: f.tail,
            },
        ),
        Declaration::Other(t) => Declaration::Other(t),
    }
}

} // verus!
