//! What holds of stacks and guards whatever is done with them.
//!
//! The laws speak of stacks as mathematics, in the terms in which `push`,
//! `pop`, `bind_client`, `scope_mut` and the guard state what they do. A
//! course of calls is a sequence of [`StackOp`]; [`run`] says what stack it
//! leaves behind.

use vstd::prelude::*;

use crate::guard::ScopeGuard;
use crate::payload::Client;
use crate::registry::{Context, RegistryView};
use crate::scope::ScopeView;
use crate::stack::{LayerView, StackView};

verus! {

/// One thing done to a stack.
pub enum StackOp {
    /// A layer is pushed.
    Push,
    /// The current layer is popped.
    Pop,
    /// The current layer is changed into the given one: a client is bound, a
    /// tag set, the scope cleared, or anything of the kind.
    Change(LayerView),
}

/// The stack after `op`.
pub open spec fn step(stack: StackView, op: StackOp) -> StackView {
    match op {
        StackOp::Push => stack.pushed(),
        StackOp::Pop => stack.popped(),
        StackOp::Change(layer) => stack.with_current(layer),
    }
}

/// The stack after `ops`, one after the other.
pub open spec fn run(stack: StackView, ops: Seq<StackOp>) -> StackView
    decreases ops.len(),
{
    if ops.len() == 0 {
        stack
    } else {
        run(step(stack, ops[0]), ops.drop_first())
    }
}

/// Whether `ops` keeps to the layers that were pushed after some moment,
/// given that `height` of them are on the stack when `ops` begins: it pops
/// none but these, and changes none but these.
pub open spec fn nested(ops: Seq<StackOp>, height: nat) -> bool
    decreases ops.len(),
{
    if ops.len() == 0 {
        true
    } else {
        match ops[0] {
            StackOp::Push => nested(ops.drop_first(), height + 1),
            StackOp::Pop => height > 0 && nested(ops.drop_first(), (height - 1) as nat),
            StackOp::Change(_) => height > 0 && nested(ops.drop_first(), height),
        }
    }
}

/// How many of those layers are on the stack when `ops` ends.
pub open spec fn height_after(ops: Seq<StackOp>, height: int) -> int
    decreases ops.len(),
{
    if ops.len() == 0 {
        height
    } else {
        match ops[0] {
            StackOp::Push => height_after(ops.drop_first(), height + 1),
            StackOp::Pop => height_after(ops.drop_first(), height - 1),
            StackOp::Change(_) => height_after(ops.drop_first(), height),
        }
    }
}

/// Whatever is done to the layers pushed after some moment, the layers that
/// were there at that moment stay as they were, and it is still the same
/// stack.
pub proof fn lemma_nested_leaves_base(stack: StackView, ops: Seq<StackOp>, height: nat)
    requires
        stack.wf(),
        height < stack.depth(),
        nested(ops, height),
    ensures
        run(stack, ops).wf(),
        run(stack, ops).ty == stack.ty,
        run(stack, ops).id == stack.id,
        height_after(ops, height as int) >= 0,
        run(stack, ops).depth() == stack.depth() - height + height_after(ops, height as int),
        run(stack, ops).layers.take(stack.depth() - height) == stack.layers.take(
            stack.depth() - height,
        ),
    decreases ops.len(),
{
    if ops.len() > 0 {
        let base = stack.depth() - height;
        let next = step(stack, ops[0]);
        let rest = ops.drop_first();
        let next_height: nat = match ops[0] {
            StackOp::Push => height + 1,
            StackOp::Pop => (height - 1) as nat,
            StackOp::Change(_) => height,
        };
        assert(next.layers.take(base) =~= stack.layers.take(base));
        lemma_nested_leaves_base(next, rest, next_height);
    } else {
        assert(run(stack, ops) == stack);
    }
}

/// A course of pushes and pops that takes off every layer it put on, and no
/// other, leaves the stack as it found it: the same depth, and on every layer
/// the same client and the same scope. The layers it put on may have been
/// changed at will in between.
pub proof fn lemma_balanced_restores(stack: StackView, ops: Seq<StackOp>)
    requires
        stack.wf(),
        nested(ops, 0),
        height_after(ops, 0) == 0,
    ensures
        run(stack, ops) == stack,
{
    lemma_nested_leaves_base(stack, ops, 0);
    let after = run(stack, ops);
    assert(after.layers.take(stack.depth() as int) =~= after.layers);
    assert(stack.layers.take(stack.depth() as int) =~= stack.layers);
}

/// A pushed layer starts out with what the layer below it has: the same
/// client, and a scope with the same contents. The layers below stay.
pub proof fn lemma_push_inherits(stack: StackView)
    requires
        stack.wf(),
    ensures
        stack.pushed().current() == stack.current(),
        stack.pushed().depth() == stack.depth() + 1,
        stack.pushed().popped() == stack,
{
    assert(stack.pushed().popped().layers =~= stack.layers);
}

/// What is changed on a layer after a push does not show on the layer that
/// was the current one before: not a tag, not extra data, not the user, not a
/// breadcrumb, not the client. Popping brings that layer back as it was.
pub proof fn lemma_push_isolates(stack: StackView, layer: LayerView)
    requires
        stack.wf(),
    ensures
        stack.pushed().with_current(layer).layers.take(stack.depth() as int) == stack.layers,
        stack.pushed().with_current(layer).layers[stack.depth() - 1] == stack.current(),
        stack.pushed().with_current(layer).popped() == stack,
{
    let changed = stack.pushed().with_current(layer);
    assert(changed.layers.take(stack.depth() as int) =~= stack.layers);
    assert(changed.popped().layers =~= stack.layers);
}

/// The same, said of what `scope_mut` and `bind_client` do to the new layer.
pub proof fn lemma_push_isolates_scope_and_client(
    stack: StackView,
    scope: ScopeView,
    client: Option<Client>,
)
    requires
        stack.wf(),
    ensures
        stack.pushed().with_scope(scope).popped() == stack,
        stack.pushed().with_scope(scope).layers[stack.depth() - 1].scope == stack.current().scope,
        stack.pushed().with_client(client).popped() == stack,
        stack.pushed().with_client(client).layers[stack.depth() - 1].client
            == stack.current().client,
{
    let pushed = stack.pushed();
    lemma_push_isolates(stack, LayerView { client: pushed.current().client, scope });
    lemma_push_isolates(stack, LayerView { client, scope: pushed.current().scope });
}

/// Clearing the scope of a pushed layer empties that scope, whatever the
/// layer below holds, and leaves the layer below as it is.
pub proof fn lemma_clear_is_local(stack: StackView)
    requires
        stack.wf(),
    ensures
        stack.pushed().with_scope(ScopeView::empty()).current().scope == ScopeView::empty(),
        stack.pushed().with_scope(ScopeView::empty()).layers[stack.depth() - 1]
            == stack.current(),
        stack.pushed().with_scope(ScopeView::empty()).popped() == stack,
{
    lemma_push_isolates_scope_and_client(stack, ScopeView::empty(), None);
}

/// Popping never leaves a stack without a layer: what `pop` accepts has two
/// layers or more, and what it leaves has one or more.
pub proof fn lemma_pop_keeps_a_layer(stack: StackView)
    requires
        stack.wf(),
        stack.depth() > 1,
    ensures
        stack.popped().wf(),
        stack.popped().depth() == stack.depth() - 1,
{
}

/// Two stacks have the same token exactly when they are the same stack at
/// the same depth.
pub proof fn lemma_token_names_stack_and_depth(a: StackView, b: StackView)
    ensures
        a.token() == b.token() <==> a.ty == b.ty && a.id == b.id && a.depth() == b.depth(),
{
}

/// A guard whose layer is the current one when it is released fits, and its
/// release leaves the stack as it was before the push that made the guard.
/// That is the case whenever every layer pushed in between has been popped
/// again, which is what releasing guards last in, first out comes to.
pub proof fn lemma_guard_release_restores(stack: StackView, guard: ScopeGuard, ops: Seq<StackOp>)
    requires
        stack.wf(),
        guard@ == Some(stack.pushed().token()),
        nested(ops, 1),
        height_after(ops, 1) == 1,
    ensures
        run(stack.pushed(), ops).wf(),
        guard.fits_view(run(stack.pushed(), ops)),
        run(stack.pushed(), ops).depth() > 1,
        run(stack.pushed(), ops).popped() == stack,
{
    lemma_nested_leaves_base(stack.pushed(), ops, 1);
}

/// A guard does not fit while the stack is deeper or shallower than it was
/// when the guard was made: with a layer pushed later still on it, or with
/// the guard's own layer popped already.
pub proof fn lemma_guard_rejects_other_depth(
    stack: StackView,
    guard: ScopeGuard,
    ops: Seq<StackOp>,
)
    requires
        stack.wf(),
        guard@ == Some(stack.pushed().token()),
        nested(ops, 1),
        height_after(ops, 1) != 1,
    ensures
        !guard.fits_view(run(stack.pushed(), ops)),
{
    lemma_nested_leaves_base(stack.pushed(), ops, 1);
}

/// A guard made on the stack of one context fits the stack of no other
/// context, at any depth and at any time.
pub proof fn lemma_guard_rejects_other_context(
    then: RegistryView,
    made_in: Context,
    guard: ScopeGuard,
    now: RegistryView,
    released_in: Context,
)
    requires
        then.wf(),
        now.wf(),
        guard@ == Some(then.routed(made_in).pushed().token()),
        made_in != released_in,
    ensures
        !guard.fits_view(now.routed(released_in)),
{
}

/// What one context does to its stack shows on the stack of no other context
/// that has a stack already, nor on the stack of the process.
pub proof fn lemma_contexts_are_isolated(
    stacks: RegistryView,
    changed: Context,
    stack: StackView,
    other: Context,
)
    requires
        changed != other,
        other matches Context::Local(id) ==> stacks.locals.contains_key(id),
    ensures
        stacks.with_routed(changed, stack).routed(changed) == stack,
        stacks.with_routed(changed, stack).routed(other) == stacks.routed(other),
{
}

} // verus!
