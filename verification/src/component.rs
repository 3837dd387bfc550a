//! Component emission: the fragments that register a classified type
//! definition or implementation block as an injectable component.
use vstd::prelude::*;

verus! {

use crate::model::{Fragment, FragmentView, ImplementationBlock, TypeDefinition};

/// Emits the fragment registering the type itself as an injectable
/// component. Never fails: the shape was settled by classification.
pub fn generate_component_for_struct(td: &TypeDefinition) -> (f: Fragment)
    ensures
        f@ == (FragmentView::ComponentRegistration { target: td.name@ }),
{
    Fragment::ComponentRegistration { target: td.name.clone() }
}

/// Emits the fragment associating an implementation block's target type with
/// the component role, without re-declaring the type. Never fails.
pub fn generate_component_for_impl(ib: &ImplementationBlock) -> (f: Fragment)
    ensures
        f@ == (FragmentView::ComponentRegistration { target: ib.target@ }),
{
    Fragment::ComponentRegistration { target: ib.target.clone() }
}

} // verus!
