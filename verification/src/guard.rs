//! The guard: a pushed layer that remembers where it belongs.

use vstd::prelude::*;

use crate::stack::{Stack, StackLayerToken, StackView, TokenView};

verus! {

/// Stands for one pushed layer until that layer is popped.
///
/// Entering a stack pushes a layer and yields a guard; releasing the guard
/// takes that layer off again. A guard remembers the stack and the depth it
/// was made at, and is only released on that stack at that depth: guards on
/// one stack are released last in, first out.
pub struct ScopeGuard(Option<StackLayerToken>);

impl View for ScopeGuard {
    type V = Option<TokenView>;

    closed spec fn view(&self) -> Option<TokenView> {
        match self.0 {
            Some(token) => Some(token@),
            None => None,
        }
    }
}

impl Default for ScopeGuard {
    /// A guard for no layer: it fits every stack, and releasing it does
    /// nothing.
    fn default() -> (r: ScopeGuard)
        ensures
            r@ is None,
    {
        ScopeGuard(None)
    }
}

impl ScopeGuard {
    /// A guard is made right after a push, so the depth it remembers is that
    /// of a stack with a layer to take off.
    #[verifier::type_invariant]
    spec fn made_after_push(self) -> bool {
        self.0 matches Some(token) ==> token.depth >= 2
    }

    /// Whether this guard may be released on `stack`: it is for no layer, or
    /// `stack` is the stack it was made on and has the depth it had then.
    pub open spec fn fits_view(self, stack: StackView) -> bool {
        self@ matches Some(token) ==> token == stack.token()
    }

    /// Pushes a layer on `stack` and returns the guard for it.
    pub fn enter(stack: &mut Stack) -> (guard: ScopeGuard)
        requires
            old(stack).wf(),
        ensures
            final(stack).wf(),
            final(stack)@ == old(stack)@.pushed(),
            guard@ == Some(final(stack)@.token()),
    {
        stack.push();
        ScopeGuard(Some(stack.token()))
    }

    /// Whether this guard may be released on `stack`.
    pub fn fits(&self, stack: &Stack) -> (r: bool)
        ensures
            r == self.fits_view(stack@),
    {
        match self.0 {
            Some(token) => token == stack.token(),
            None => true,
        }
    }

    /// Releases the guard on the stack it fits: the layer it was made for is
    /// taken off. A guard for no layer leaves the stack as it is.
    pub fn release(self, stack: &mut Stack)
        requires
            old(stack).wf(),
            self.fits_view(old(stack)@),
        ensures
            final(stack).wf(),
            self@ is Some ==> final(stack)@ == old(stack)@.popped(),
            self@ is None ==> final(stack)@ == old(stack)@,
    {
        proof {
            use_type_invariant(&self);
        }
        match self.0 {
            Some(_) => stack.pop(),
            None => {},
        }
    }

    /// Releases the guard on `stack` if it fits, and says whether it did. A
    /// stack that the guard does not fit is left as it is.
    pub fn try_release(self, stack: &mut Stack) -> (released: bool)
        requires
            old(stack).wf(),
        ensures
            final(stack).wf(),
            released == self.fits_view(old(stack)@),
            released && self@ is Some ==> final(stack)@ == old(stack)@.popped(),
            !released || self@ is None ==> final(stack)@ == old(stack)@,
    {
        if self.fits(stack) {
            self.release(stack);
            true
        } else {
            false
        }
    }
}

} // verus!
