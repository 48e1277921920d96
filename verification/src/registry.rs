//! Which stack a call works on: the one of the process or the caller's own.

use std::sync::Arc;
use vstd::prelude::*;

use crate::guard::ScopeGuard;
use crate::payload::Client;
use crate::scope::{Scope, ScopeView};
use crate::stack::{LayerView, Stack, StackType, StackView};

verus! {

/// The execution context that a call is made from.
#[derive(Debug, Clone, Copy, PartialEq, Eq, Hash, Structural)]
pub enum Context {
    /// The main context. It works on the stack of the process.
    Main,
    /// Any other context, by its number. It works on a stack of its own.
    Local(u64),
}

/// All the stacks there are, as mathematics: the one of the process, and one
/// for each other context that has made a call so far.
#[verifier::ext_equal]
pub struct RegistryView {
    /// The stack of the process.
    pub process: StackView,
    /// The stacks of the other contexts, by the number of the context.
    pub locals: Map<u64, StackView>,
}

impl RegistryView {
    /// The stacks before any call: the one of the process, with its one bare
    /// layer.
    pub open spec fn fresh() -> RegistryView {
        RegistryView {
            process: StackView::single(LayerView::bare(), StackType::Process, 0),
            locals: Map::empty(),
        }
    }

    /// These stacks without the one of context `id`.
    pub open spec fn without(self, id: u64) -> RegistryView {
        RegistryView { locals: self.locals.remove(id), ..self }
    }

    /// Every stack has a layer, and is told from every other by its kind and
    /// number: a context's stack carries the context's number.
    pub open spec fn wf(self) -> bool {
        &&& self.process.wf()
        &&& self.process.ty == StackType::Process
        &&& self.process.id == 0
        &&& forall|id: u64| #[trigger]
            self.locals.contains_key(id) ==> {
                &&& self.locals[id].wf()
                &&& self.locals[id].ty == StackType::Thread
                &&& self.locals[id].id == id
            }
    }

    /// The stack that context `id` starts out with: one layer, which is the
    /// current layer of the process stack as it is now.
    pub open spec fn seeded(self, id: u64) -> StackView {
        StackView::single(self.process.current(), StackType::Thread, id)
    }

    /// The stack that a call from `context` works on.
    pub open spec fn routed(self, context: Context) -> StackView {
        match context {
            Context::Main => self.process,
            Context::Local(id) => if self.locals.contains_key(id) {
                self.locals[id]
            } else {
                self.seeded(id)
            },
        }
    }

    /// The layer that a call from `context` works on: the current layer of
    /// its stack.
    pub open spec fn current(self, context: Context) -> LayerView {
        self.routed(context).current()
    }

    /// These stacks once `context` has made a call: if it had no stack of
    /// its own before, it has one now.
    pub open spec fn settled(self, context: Context) -> RegistryView {
        self.with_routed(context, self.routed(context))
    }

    /// These stacks, with `scope` as the scope that a call from `context`
    /// works on.
    pub open spec fn with_scope(self, context: Context, scope: ScopeView) -> RegistryView {
        self.with_routed(context, self.routed(context).with_scope(scope))
    }

    /// These stacks, with `stack` as the one that calls from `context` work
    /// on.
    pub open spec fn with_routed(self, context: Context, stack: StackView) -> RegistryView {
        match context {
            Context::Main => RegistryView { process: stack, ..self },
            Context::Local(id) => RegistryView { locals: self.locals.insert(id, stack), ..self },
        }
    }
}

/// The stack of the process and the stacks of the other contexts.
///
/// The main context works on the stack of the process. Every other context
/// gets a stack of its own the first time it makes a call, and from then on
/// works on that one alone.
#[derive(Debug)]
pub struct Registry {
    process: Stack,
    locals: Vec<Stack>,
}

/// Whether the stack of context `id` is kept at place `i`.
spec fn is_at(stacks: Seq<Stack>, i: int, id: u64) -> bool {
    0 <= i < stacks.len() && stacks[i]@.id == id
}

/// Whether a stack of context `id` is kept at all.
spec fn present(stacks: Seq<Stack>, id: u64) -> bool {
    exists|i: int| is_at(stacks, i, id)
}

/// A place where the stack of context `id` is kept, if it is kept.
spec fn index_of(stacks: Seq<Stack>, id: u64) -> int {
    choose|i: int| is_at(stacks, i, id)
}

/// No two of `stacks` carry the same number.
spec fn distinct(stacks: Seq<Stack>) -> bool {
    forall|i: int, j: int| 0 <= i < j < stacks.len() ==> stacks[i]@.id != stacks[j]@.id
}

/// The stacks by the number of their context.
spec fn locals_view(stacks: Seq<Stack>) -> Map<u64, StackView> {
    Map::new(|id: u64| present(stacks, id), |id: u64| stacks[index_of(stacks, id)]@)
}

/// Among stacks with numbers of their own, a number leads to one place.
proof fn lemma_locate(stacks: Seq<Stack>, i: int)
    requires
        distinct(stacks),
        0 <= i < stacks.len(),
    ensures
        present(stacks, stacks[i]@.id),
        index_of(stacks, stacks[i]@.id) == i,
{
    assert(is_at(stacks, i, stacks[i]@.id));
}

/// Putting a stack in the place of the one with its number changes that
/// entry of the view and no other.
proof fn lemma_update(stacks: Seq<Stack>, i: int, stack: Stack)
    requires
        distinct(stacks),
        0 <= i < stacks.len(),
        stack@.id == stacks[i]@.id,
    ensures
        distinct(stacks.update(i, stack)),
        locals_view(stacks.update(i, stack)) =~= locals_view(stacks).insert(stack@.id, stack@),
{
    let after = stacks.update(i, stack);
    assert forall|id: u64| present(after, id) == present(stacks, id) by {
        if present(after, id) {
            assert(is_at(stacks, index_of(after, id), id));
        }
        if present(stacks, id) {
            assert(is_at(after, index_of(stacks, id), id));
        }
    }
    assert forall|id: u64| present(after, id) implies #[trigger] locals_view(after)[id]
        == locals_view(stacks).insert(stack@.id, stack@)[id] by {
        let j = index_of(after, id);
        lemma_locate(after, j);
        lemma_locate(stacks, j);
    }
    lemma_locate(stacks, i);
}

/// Adding a stack with a new number adds its entry to the view.
proof fn lemma_push(stacks: Seq<Stack>, stack: Stack)
    requires
        distinct(stacks),
        !present(stacks, stack@.id),
    ensures
        distinct(stacks.push(stack)),
        locals_view(stacks.push(stack)) =~= locals_view(stacks).insert(stack@.id, stack@),
{
    let after = stacks.push(stack);
    let last = stacks.len() as int;
    assert forall|a: int, b: int| 0 <= a < b < after.len() implies after[a]@.id != after[b]@.id by {
        if b == last {
            assert(!is_at(stacks, a, stack@.id));
        }
    }
    assert(is_at(after, last, stack@.id));
    assert forall|id: u64| present(after, id) == (present(stacks, id) || id == stack@.id) by {
        if present(after, id) {
            let j = index_of(after, id);
            if j != last {
                assert(is_at(stacks, j, id));
            }
        }
        if present(stacks, id) {
            assert(is_at(after, index_of(stacks, id), id));
        }
    }
    assert forall|id: u64| present(after, id) implies #[trigger] locals_view(after)[id]
        == locals_view(stacks).insert(stack@.id, stack@)[id] by {
        let j = index_of(after, id);
        lemma_locate(after, j);
        if j != last {
            lemma_locate(stacks, j);
        }
    }
}

/// Taking a stack out takes its entry out of the view.
proof fn lemma_remove(stacks: Seq<Stack>, i: int)
    requires
        distinct(stacks),
        0 <= i < stacks.len(),
    ensures
        distinct(stacks.remove(i)),
        locals_view(stacks.remove(i)) =~= locals_view(stacks).remove(stacks[i]@.id),
{
    let after = stacks.remove(i);
    let gone = stacks[i]@.id;
    assert forall|a: int, b: int| 0 <= a < b < after.len() implies after[a]@.id != after[b]@.id by {
        let a0 = if a < i { a } else { a + 1 };
        let b0 = if b < i { b } else { b + 1 };
        assert(after[a] == stacks[a0] && after[b] == stacks[b0]);
    }
    assert forall|id: u64| present(after, id) == (present(stacks, id) && id != gone) by {
        if present(after, id) {
            let j = index_of(after, id);
            let j0 = if j < i { j } else { j + 1 };
            assert(is_at(stacks, j0, id));
            lemma_locate(stacks, j0);
        }
        if present(stacks, id) && id != gone {
            let j0 = index_of(stacks, id);
            let j = if j0 < i { j0 } else { j0 - 1 };
            assert(is_at(after, j, id));
        }
    }
    assert forall|id: u64| present(after, id) implies #[trigger] locals_view(after)[id]
        == locals_view(stacks)[id] by {
        let j = index_of(after, id);
        let j0 = if j < i { j } else { j + 1 };
        assert(is_at(stacks, j0, id));
        lemma_locate(stacks, j0);
    }
}

impl View for Registry {
    type V = RegistryView;

    closed spec fn view(&self) -> RegistryView {
        RegistryView { process: self.process@, locals: locals_view(self.locals@) }
    }
}

impl Registry {
    /// No two of the stacks kept here are for the same context.
    pub closed spec fn one_stack_each(&self) -> bool {
        distinct(self.locals@)
    }

    /// What holds of every registry that this module hands out.
    pub open spec fn wf(&self) -> bool {
        self.one_stack_each() && self@.wf()
    }

    /// The registry before any call: the stack of the process with its one
    /// layer, and no other stack yet.
    pub fn new() -> (r: Registry)
        ensures
            r.wf(),
            r@ == RegistryView::fresh(),
    {
        let r = Registry { process: Stack::for_process(), locals: Vec::new() };
        assert(r@.locals =~= Map::<u64, StackView>::empty());
        r
    }

    /// Where the stack of context `id` is kept, if the context has one yet.
    fn find(&self, id: u64) -> (r: Option<usize>)
        ensures
            r matches Some(i) ==> is_at(self.locals@, i as int, id),
            r is None ==> !present(self.locals@, id),
    {
        let mut i: usize = 0;
        while i < self.locals.len()
            invariant
                i <= self.locals@.len(),
                forall|j: int| 0 <= j < i ==> !is_at(self.locals@, j, id),
            decreases self.locals@.len() - i,
        {
            if self.locals[i].id() == id {
                return Some(i);
            }
            i += 1;
        }
        None
    }

    /// Drops the stack of context `id`, as is due when the context ends. A
    /// context without a stack, and every other stack, is left alone.
    pub fn end_context(&mut self, id: u64)
        requires
            old(self).wf(),
        ensures
            final(self).wf(),
            final(self)@ == old(self)@.without(id),
    {
        match self.find(id) {
            Some(i) => {
                proof {
                    lemma_remove(self.locals@, i as int);
                }
                let _ = self.locals.remove(i);
            },
            None => {},
        }
    }

    /// The stack that a call from `context` works on. A context other than
    /// the main one gets its stack here, the first time it asks.
    fn stack_mut(&mut self, context: Context) -> (r: &mut Stack)
        requires
            old(self).wf(),
        ensures
            r.wf(),
            r@ == old(self)@.routed(context),
            final(r).wf() && final(r)@.ty == r@.ty && final(r)@.id == r@.id ==> final(self).wf()
                && final(self)@ == old(self)@.with_routed(context, final(r)@),
    {
        match context {
            Context::Main => &mut self.process,
            Context::Local(id) => {
                let found = self.find(id);
                let at = match found {
                    Some(i) => i,
                    None => {
                        let stack = Stack::for_thread(&self.process, id);
                        proof {
                            lemma_push(self.locals@, stack);
                        }
                        self.locals.push(stack);
                        self.locals.len() - 1
                    },
                };
                proof {
                    lemma_locate(self.locals@, at as int);
                    assert forall|stack: Stack| stack@.id == id implies locals_view(
                        #[trigger] self.locals@.update(at as int, stack),
                    ) =~= locals_view(self.locals@).insert(id, stack@) && distinct(
                        self.locals@.update(at as int, stack),
                    ) by {
                        lemma_update(self.locals@, at as int, stack);
                    }
                }
                &mut self.locals[at]
            },
        }
    }
}

/// Runs `f` on the stack that a call from `context` works on, and returns
/// what `f` returns. The stack is looked up anew at every call.
///
/// `f` may do to the stack whatever a stack allows. Which stack it is does
/// not lie in `f`'s hands: whatever `f` leaves behind is the stack of
/// `context` from then on.
pub fn with_stack<F, R>(registry: &mut Registry, context: Context, f: F) -> (r: R) where
    F: FnOnce(&mut Stack) -> R,

    requires
        old(registry).wf(),
        forall|s: &mut Stack|
            s.wf() && s@ == old(registry)@.routed(context) ==> #[trigger] f.requires((s,)),
        (forall|s: &mut Stack, r: R|
            s.wf() && s@ == old(registry)@.routed(context) && #[trigger] f.ensures((s,), r)
                ==> final(s).wf()),
    ensures
        final(registry).wf(),
        (exists|s: &mut Stack|
            s@ == old(registry)@.routed(context)
                && #[trigger] f.ensures((s,), r)
                && final(registry)@
                    == old(registry)@.with_routed(context, final(s)@.named(s@.ty, s@.id))),
{
    let stack = registry.stack_mut(context);
    let ty = stack.stack_type();
    let id = stack.id();
    let r = f(stack);
    stack.rename(ty, id);
    proof {
        assert(exists|s: &mut Stack|
            s@ == old(registry)@.routed(context)
                && #[trigger] f.ensures((s,), r)
                && final(registry)@
                    == old(registry)@.with_routed(context, final(s)@.named(s@.ty, s@.id)));
    }
    r
}

/// Runs `f` on the client and the scope of the current layer of the stack
/// that a call from `context` works on, and returns what `f` returns. Where
/// no client is bound on that layer, `f` is not run, and the result is the
/// default value of its type.
pub fn with_client_and_scope<F, R>(registry: &mut Registry, context: Context, f: F) -> (r: R) where
    F: FnOnce(Arc<Client>, &mut Scope) -> R,
    R: Default,

    requires
        old(registry).wf(),
        (forall|client: Arc<Client>, scope: &mut Scope|
            Some(*client) == old(registry)@.current(context).client
                && scope@ == old(registry)@.current(context).scope
                ==> #[trigger] f.requires((client, scope))),
    ensures
        final(registry).wf(),
        old(registry)@.current(context).client is None ==> R::default.ensures((), r)
            && final(registry)@ == old(registry)@.settled(context),
        old(registry)@.current(context).client is Some ==> (exists|
            client: Arc<Client>,
            scope: &mut Scope,
        |
            Some(*client) == old(registry)@.current(context).client
                && scope@ == old(registry)@.current(context).scope
                && #[trigger] f.ensures((client, scope), r)
                && final(registry)@ == old(registry)@.with_scope(context, final(scope)@)),
{
    let stack = registry.stack_mut(context);
    match stack.client() {
        Some(client) => {
            let scope = stack.scope_mut();
            let r = f(client, scope);
            proof {
                assert(exists|client: Arc<Client>, scope: &mut Scope|
                    Some(*client) == old(registry)@.current(context).client
                        && scope@ == old(registry)@.current(context).scope
                        && #[trigger] f.ensures((client, scope), r)
                        && final(registry)@ == old(registry)@.with_scope(context, final(scope)@));
            }
            r
        },
        None => R::default(),
    }
}

/// Puts a new layer on the stack that a call from `context` works on.
///
/// The new layer starts out as a copy of the current one: the same client,
/// the same data. What is changed on it stays on it. The guard that comes
/// back takes the layer off again when it is released.
pub fn push_scope(registry: &mut Registry, context: Context) -> (guard: ScopeGuard)
    requires
        old(registry).wf(),
    ensures
        final(registry).wf(),
        final(registry)@ == old(registry)@.with_routed(
            context,
            old(registry)@.routed(context).pushed(),
        ),
        guard@ == Some(old(registry)@.routed(context).pushed().token()),
{
    let stack = registry.stack_mut(context);
    ScopeGuard::enter(stack)
}

/// Releases `guard` on the stack that a call from `context` works on, if it
/// fits that stack, and says whether it did. The layer that the guard was
/// made for is taken off; a guard for no layer takes nothing off. Where the
/// guard does not fit, because it was made in another context or because it
/// is not the turn of its layer, no layer is touched.
pub fn release_scope(registry: &mut Registry, context: Context, guard: ScopeGuard) -> (released:
    bool)
    requires
        old(registry).wf(),
    ensures
        final(registry).wf(),
        released == guard.fits_view(old(registry)@.routed(context)),
        released && guard@ is Some ==> final(registry)@ == old(registry)@.with_routed(
            context,
            old(registry)@.routed(context).popped(),
        ),
        !released || guard@ is None ==> final(registry)@ == old(registry)@.settled(context),
{
    let stack = registry.stack_mut(context);
    guard.try_release(stack)
}

} // verus!
