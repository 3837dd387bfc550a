//! Provider emission: the fragments that register a declaration as the
//! provider of an interface, or of itself.
use vstd::prelude::*;

verus! {

use crate::model::{
    Fragment, FragmentView, ImplementationBlock, ProviderSource, ProviderSourceView,
    ProvidesMetadata, StandaloneFunction, TypeDefinition,
};

/// Emits the fragment registering a component type definition as the
/// provider of itself. Never fails.
pub fn generate_component_provider_impl_struct(td: &TypeDefinition) -> (f: Fragment)
    ensures
        f@ == (FragmentView::SelfProvider { target: td.name@ }),
{
    Fragment::SelfProvider { target: td.name.clone() }
}

/// Emits the fragment registering an implementation block as the provider of
/// the interface named by the metadata, with direct-construction semantics.
/// Fails only by a diagnostic produced upstream; this stage validates
/// nothing itself.
pub fn generate_interface_provider_impl(meta: ProvidesMetadata, ib: &ImplementationBlock) -> (f:
    Fragment)
    ensures
        f@ == (FragmentView::InterfaceProvider {
            meta: meta@,
            source: ProviderSourceView::Implementation { target: ib.target@ },
        }),
{
    Fragment::InterfaceProvider {
        meta,
        source: ProviderSource::Implementation { target: ib.target.clone() },
    }
}

/// Emits the fragment registering a standalone function as the provider of
/// the interface named by the metadata, with factory semantics: the function
/// is invoked to produce the instance.
pub fn generate_component_provider_impl_fn(meta: ProvidesMetadata, func: &StandaloneFunction) -> (f:
    Fragment)
    ensures
        f@ == (FragmentView::InterfaceProvider {
            meta: meta@,
            source: ProviderSourceView::Factory { function: func.name@ },
        }),
{
    Fragment::InterfaceProvider {
        meta,
        source: ProviderSource::Factory { function: func.name.clone() },
    }
}

} // verus!
