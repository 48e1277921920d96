//! The stack of layers: push, pop and what the current layer holds.

use std::sync::Arc;
use vstd::prelude::*;

use crate::payload::Client;
use crate::persistent::share;
use crate::scope::{Scope, ScopeView};

verus! {

/// Which of the two kinds of stack a stack is.
#[derive(Debug, Clone, Copy, PartialEq, Eq, Hash, Structural)]
pub enum StackType {
    /// The single stack that the main execution context works on.
    Process,
    /// A stack private to one other execution context.
    Thread,
}

/// Names one stack at one depth. Two tokens are equal exactly when they were
/// taken from the same stack while it had the same number of layers.
#[derive(Debug, Clone, Copy, PartialEq, Eq, Hash, Structural)]
pub struct StackLayerToken {
    /// The kind of the stack.
    pub ty: StackType,
    /// The number that tells the stack from the others of its kind.
    pub id: u64,
    /// How many layers the stack had.
    pub depth: usize,
}

/// A token as mathematics: the kind and number of a stack, and a depth.
pub struct TokenView {
    /// The kind of the stack.
    pub ty: StackType,
    /// The number of the stack among those of its kind.
    pub id: u64,
    /// How many layers the stack had.
    pub depth: nat,
}

impl View for StackLayerToken {
    type V = TokenView;

    open spec fn view(&self) -> TokenView {
        TokenView { ty: self.ty, id: self.id, depth: self.depth as nat }
    }
}

/// What one layer holds, as mathematics.
pub struct LayerView {
    /// The client bound on this layer, if any.
    pub client: Option<Client>,
    /// The scope of this layer.
    pub scope: ScopeView,
}

impl LayerView {
    /// The layer that holds nothing: no client, an empty scope.
    pub open spec fn bare() -> LayerView {
        LayerView { client: None, scope: ScopeView::empty() }
    }
}

/// A stack as mathematics: its layers from the oldest to the current one, and
/// what tells it from other stacks.
#[verifier::ext_equal]
pub struct StackView {
    /// The layers, the current one last.
    pub layers: Seq<LayerView>,
    /// The kind of the stack.
    pub ty: StackType,
    /// The number of the stack among those of its kind.
    pub id: u64,
}

impl StackView {
    /// The stack of kind `ty` and number `id` that has `layer` and no other.
    pub open spec fn single(layer: LayerView, ty: StackType, id: u64) -> StackView {
        StackView { layers: seq![layer], ty, id }
    }

    /// A stack always has a layer to work on.
    pub open spec fn wf(self) -> bool {
        self.layers.len() >= 1
    }

    /// The number of layers.
    pub open spec fn depth(self) -> nat {
        self.layers.len()
    }

    /// The layer that every operation works on: the last one.
    pub open spec fn current(self) -> LayerView {
        self.layers.last()
    }

    /// This stack with a copy of its current layer on top.
    pub open spec fn pushed(self) -> StackView {
        StackView { layers: self.layers.push(self.layers.last()), ..self }
    }

    /// This stack without its current layer.
    pub open spec fn popped(self) -> StackView {
        StackView { layers: self.layers.drop_last(), ..self }
    }

    /// This stack with `layer` in place of its current layer.
    pub open spec fn with_current(self, layer: LayerView) -> StackView {
        StackView { layers: self.layers.update(self.layers.len() - 1, layer), ..self }
    }

    /// This stack with `client` bound on its current layer.
    pub open spec fn with_client(self, client: Option<Client>) -> StackView {
        self.with_current(LayerView { client, scope: self.current().scope })
    }

    /// This stack with `scope` as the scope of its current layer.
    pub open spec fn with_scope(self, scope: ScopeView) -> StackView {
        self.with_current(LayerView { client: self.current().client, scope })
    }

    /// These layers, as the stack of kind `ty` and number `id`.
    pub open spec fn named(self, ty: StackType, id: u64) -> StackView {
        StackView { ty, id, ..self }
    }

    /// The token that names this stack at its present depth.
    pub open spec fn token(self) -> TokenView {
        TokenView { ty: self.ty, id: self.id, depth: self.layers.len() }
    }
}

/// One layer: the client bound on it, if any, and its scope.
#[derive(Debug)]
struct StackLayer {
    client: Option<Arc<Client>>,
    scope: Scope,
}

impl View for StackLayer {
    type V = LayerView;

    closed spec fn view(&self) -> LayerView {
        LayerView {
            client: match self.client {
                Some(client) => Some(*client),
                None => None,
            },
            scope: self.scope@,
        }
    }
}

impl Clone for StackLayer {
    fn clone(&self) -> (r: StackLayer)
        ensures
            r@ == self@,
    {
        StackLayer {
            client: match &self.client {
                Some(client) => Some(share(client)),
                None => None,
            },
            scope: self.scope.clone(),
        }
    }
}

/// A stack of layers. The last layer is the current one; there is always at
/// least one.
#[derive(Debug)]
pub struct Stack {
    layers: Vec<StackLayer>,
    ty: StackType,
    id: u64,
}

impl View for Stack {
    type V = StackView;

    closed spec fn view(&self) -> StackView {
        StackView {
            layers: Seq::new(self.layers@.len(), |i: int| self.layers@[i]@),
            ty: self.ty,
            id: self.id,
        }
    }
}

impl Stack {
    /// What holds of every stack that this module hands out.
    pub open spec fn wf(&self) -> bool {
        self@.wf()
    }

    /// The stack of the process: one layer, no client, an empty scope.
    pub fn for_process() -> (r: Stack)
        ensures
            r.wf(),
            r@ == StackView::single(LayerView::bare(), StackType::Process, 0),
    {
        let mut layers: Vec<StackLayer> = Vec::new();
        layers.push(StackLayer { client: None, scope: Scope::default() });
        Stack { layers, ty: StackType::Process, id: 0 }
    }

    /// The stack of one other execution context, numbered `id`. It starts
    /// with one layer: the client and a copy of the scope that `process` has
    /// on its current layer at this moment. Nothing done to either stack
    /// afterwards shows in the other.
    pub fn for_thread(process: &Stack, id: u64) -> (r: Stack)
        requires
            process.wf(),
        ensures
            r.wf(),
            r@ == StackView::single(process@.current(), StackType::Thread, id),
    {
        let depth = process.layers.len() - 1;
        let mut layers: Vec<StackLayer> = Vec::new();
        layers.push(process.layers[depth].clone());
        Stack { layers, ty: StackType::Thread, id }
    }

    /// Puts a copy of the current layer on top: the same client, and a scope
    /// of its own with the same contents.
    pub fn push(&mut self)
        requires
            old(self).wf(),
        ensures
            final(self).wf(),
            final(self)@ == old(self)@.pushed(),
    {
        let layer = self.layers[self.layers.len() - 1].clone();
        self.layers.push(layer);
    }

    /// Takes the current layer off. The layer below becomes the current one,
    /// as it was left.
    pub fn pop(&mut self)
        requires
            old(self).wf(),
            old(self)@.depth() > 1,
        ensures
            final(self).wf(),
            final(self)@ == old(self)@.popped(),
    {
        self.layers.pop();
    }

    /// Takes the current layer off if it is not the only one, and says
    /// whether it did. A stack with one layer is left as it is.
    pub fn try_pop(&mut self) -> (popped: bool)
        requires
            old(self).wf(),
        ensures
            final(self).wf(),
            popped == (old(self)@.depth() > 1),
            popped ==> final(self)@ == old(self)@.popped(),
            !popped ==> final(self)@ == old(self)@,
    {
        if self.layers.len() > 1 {
            self.pop();
            true
        } else {
            false
        }
    }

    /// Binds `client` on the current layer, and on no other.
    pub fn bind_client(&mut self, client: Arc<Client>)
        requires
            old(self).wf(),
        ensures
            final(self).wf(),
            final(self)@ == old(self)@.with_client(Some(*client)),
    {
        let depth = self.layers.len() - 1;
        self.layers[depth].client = Some(client);
    }

    /// The client bound on the current layer, if any.
    pub fn client(&self) -> (r: Option<Arc<Client>>)
        requires
            self.wf(),
        ensures
            r.is_some() == self@.current().client.is_some(),
            r matches Some(client) ==> *client == self@.current().client.unwrap(),
    {
        match &self.layers[self.layers.len() - 1].client {
            Some(client) => Some(share(client)),
            None => None,
        }
    }

    /// The scope of the current layer, to change in place. What is done
    /// through the handle shows on the current layer and on no other.
    pub fn scope_mut(&mut self) -> (r: &mut Scope)
        requires
            old(self).wf(),
        ensures
            r@ == old(self)@.current().scope,
            final(self)@ =~= old(self)@.with_scope(final(r)@),
    {
        let depth = self.layers.len() - 1;
        &mut self.layers[depth].scope
    }

    /// The token that names this stack at its present depth.
    pub fn token(&self) -> (r: StackLayerToken)
        ensures
            r@ == self@.token(),
    {
        StackLayerToken { ty: self.ty, id: self.id, depth: self.layers.len() }
    }

    /// The number of layers.
    pub fn depth(&self) -> (r: usize)
        ensures
            r == self@.depth(),
    {
        self.layers.len()
    }

    /// Makes this the stack of kind `ty` and number `id`, with the layers it
    /// has.
    pub(crate) fn rename(&mut self, ty: StackType, id: u64)
        ensures
            final(self)@ == old(self)@.named(ty, id),
    {
        self.ty = ty;
        self.id = id;
    }

    /// The number that tells this stack from the others of its kind.
    pub fn id(&self) -> (r: u64)
        ensures
            r == self@.id,
    {
        self.id
    }

    /// Which kind of stack this is.
    pub fn stack_type(&self) -> (r: StackType)
        ensures
            r == self@.ty,
    {
        self.ty
    }
}

} // verus!
