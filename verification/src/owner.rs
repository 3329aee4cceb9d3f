use leptos::prelude::Owner;
use vstd::prelude::*;

verus! {

/// The reactive owner of Leptos (a node of the reactive graph).
#[verifier::external_type_specification]
#[verifier::external_body]
pub struct ExOwner(Owner);

/// A receipt that `Owner::cleanup` ran on an owner. Its field is private to this module,
/// where only `clean_up_owner` makes one, right after the call.
#[derive(Clone, Debug)]
pub struct Retired {
    owner: Option<Owner>,
}

impl Retired {
    /// The owner that was cleaned up.
    pub closed spec fn owner(self) -> Option<Owner> {
        self.owner
    }
}

/// Calls `Owner::with`, which makes `owner` the current owner, runs `f` once and hands back
/// what `f` returned (then restores the previous owner). The contract claims that the result
/// is one that `f` can return; what `f` does to the reactive graph is not stated.
#[verifier::external_body]
pub(crate) fn run_in_owner<R, F: FnOnce() -> R>(owner: &Owner, f: F) -> (r: R)
    requires
        f.requires(()),
    ensures
        f.ensures((), r),
{
    owner.with(f)
}

/// Calls `Owner::cleanup`, which disposes of the owner's reactive nodes and runs the
/// cleanups registered on it, and hands back the receipt for that owner. The contract claims
/// only that the receipt names the owner that was given; what the cleanup does to the
/// reactive graph is not stated.
#[verifier::external_body]
pub(crate) fn clean_up_owner(owner: Owner) -> (r: Retired)
    ensures
        r.owner() == Some(owner),
{
    owner.cleanup();
    Retired { owner: Some(owner) }
}

} // verus!
