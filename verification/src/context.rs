use leptos::prelude::Owner;
use vstd::prelude::*;

use crate::owner::{clean_up_owner, run_in_owner, Retired};

verus! {

/// The step that unmounting takes: `unmounted` tells whether a mount was there, and
/// afterwards none is.
pub open spec fn unmount_step<H>(before: Option<H>, after: Option<H>, unmounted: bool) -> bool {
    &&& unmounted == (before is Some)
    &&& after is None
}

/// What a mount handle holds: the mounted view's handle, until it is unmounted.
#[derive(Debug)]
pub struct MountState<H> {
    mount: Option<H>,
}

impl<H> View for MountState<H> {
    type V = Option<H>;

    closed spec fn view(&self) -> Option<H> {
        self.mount
    }
}

impl<H> MountState<H> {
    /// The state of a view that was just mounted.
    pub fn new(handle: H) -> (s: Self)
        ensures
            s@ == Some(handle),
    {
        MountState { mount: Some(handle) }
    }

    pub fn is_mounted(&self) -> (r: bool)
        ensures
            r == (self@ is Some),
    {
        self.mount.is_some()
    }

    /// Unmounts the view, by dropping its handle, if it is still mounted. Tells whether it was.
    pub fn unmount(&mut self) -> (unmounted: bool)
        ensures
            unmount_step(old(self)@, final(self)@, unmounted),
    {
        match self.mount.take() {
            // the handle is dropped at the end of this arm, which unmounts the view
            Some(_handle) => true,
            None => false,
        }
    }
}

/// The step that cleaning up takes: `cleaned` tells whether an owner was there, and
/// afterwards none is.
pub open spec fn cleanup_step(before: Option<Owner>, after: Option<Owner>, cleaned: bool) -> bool {
    &&& cleaned == (before is Some)
    &&& after is None
}

/// What a context holds: its reactive owner, until the context is cleaned up, and then the
/// receipt of that cleanup.
#[derive(Clone, Debug)]
pub struct ContextState {
    owner: Option<Owner>,
    retired: Option<Retired>,
}

/// What cleaning up does: the step that `cleanup_step` tells, and where the context had an
/// owner, `Owner::cleanup` ran on that very owner; where it had none, no cleanup ran.
pub open spec fn cleans_up(before: ContextState, after: ContextState, cleaned: bool) -> bool {
    &&& cleanup_step(before@, after@, cleaned)
    &&& (before@ matches Some(o) ==> after.retired_owner() == Some(o))
    &&& (before@ is None ==> after.retired_owner() == before.retired_owner())
}

impl View for ContextState {
    type V = Option<Owner>;

    closed spec fn view(&self) -> Option<Owner> {
        self.owner
    }
}

impl ContextState {
    /// The owner on which this context ran `Owner::cleanup`, if it did.
    pub closed spec fn retired_owner(self) -> Option<Owner> {
        match self.retired {
            Some(r) => r.owner(),
            None => None,
        }
    }

    /// The context of a reactive owner.
    pub fn new(owner: Owner) -> (s: Self)
        ensures
            s@ == Some(owner),
            s.retired_owner() is None,
    {
        ContextState { owner: Some(owner), retired: None }
    }

    /// Whether the context still has its owner.
    pub fn is_live(&self) -> (r: bool)
        ensures
            r == (self@ is Some),
    {
        self.owner.is_some()
    }

    /// Runs `f` with the context's owner as the current owner, or on its own where the
    /// context was cleaned up; either way hands back what `f` returned.
    pub fn with<R, F: FnOnce() -> R>(&self, f: F) -> (r: R)
        requires
            f.requires(()),
        ensures
            f.ensures((), r),
    {
        match &self.owner {
            Some(owner) => run_in_owner(owner, f),
            None => f(),
        }
    }

    /// Cleans up the owner, if the context still has it, and lets go of it. Tells whether
    /// there was one.
    pub fn cleanup(&mut self) -> (cleaned: bool)
        ensures
            cleanup_step(old(self)@, final(self)@, cleaned),
            cleans_up(*old(self), *final(self), cleaned),
    {
        match self.owner.take() {
            Some(owner) => {
                self.retired = Some(clean_up_owner(owner));
                true
            },
            None => false,
        }
    }
}

/// Unmounting twice is unmounting once: the second unmount finds nothing to unmount and
/// leaves the handle as the first one left it.
pub proof fn lemma_unmount_idempotent<H>(
    s0: Option<H>,
    s1: Option<H>,
    s2: Option<H>,
    first: bool,
    second: bool,
)
    requires
        unmount_step(s0, s1, first),
        unmount_step(s1, s2, second),
    ensures
        !second,
        s2 == s1,
        first == (s0 is Some),
{
}

/// Cleaning up twice is cleaning up once: the second cleanup finds no owner and leaves the
/// context as the first one left it, and from then on the context runs callbacks on their own.
pub proof fn lemma_cleanup_idempotent(
    s0: Option<Owner>,
    s1: Option<Owner>,
    s2: Option<Owner>,
    first: bool,
    second: bool,
)
    requires
        cleanup_step(s0, s1, first),
        cleanup_step(s1, s2, second),
    ensures
        !second,
        s2 == s1,
        s2 is None,
        first == (s0 is Some),
{
}

/// Cleaning up a live context runs `Owner::cleanup` on its very owner and says so; cleaning
/// it up again runs it on no owner, says so, and keeps the receipt of the first cleanup.
pub proof fn lemma_cleanup_cleans_its_owner(
    s0: ContextState,
    s1: ContextState,
    s2: ContextState,
    first: bool,
    second: bool,
    o: Owner,
)
    requires
        s0@ == Some(o),
        cleans_up(s0, s1, first),
        cleans_up(s1, s2, second),
    ensures
        first,
        s1.retired_owner() == Some(o),
        !second,
        s2@ is None,
        s2.retired_owner() == Some(o),
{
}

} // verus!
