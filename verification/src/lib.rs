//! Layered scopes for an event-reporting client.
//!
//! A [`Scope`] holds what is known about the moment an event happens: tags,
//! extra data, the user, a trail of breadcrumbs. Scopes are kept in layers on
//! a [`Stack`]: pushing a layer copies the current one, and whatever is
//! changed on the new layer is gone again once it is popped. A
//! [`ScopeGuard`] stands for a pushed layer and pops it, provided it is that
//! layer's turn. The [`Registry`] keeps one stack for the main execution
//! context and one for every other context, and finds the stack that a call
//! works on.
//!
//! Every function states what it does over a mathematical view of the data;
//! [`laws`] holds what follows for whole courses of calls.

pub mod guard;
pub mod laws;
pub mod payload;
pub mod persistent;
pub mod registry;
pub mod scope;
pub mod stack;

pub use guard::ScopeGuard;
pub use payload::{Breadcrumb, Client, User, Value};
pub use registry::{
    push_scope, release_scope, with_client_and_scope, with_stack, Context, Registry,
    RegistryView,
};
pub use scope::{Scope, ScopeView};
pub use stack::{LayerView, Stack, StackLayerToken, StackType, StackView, TokenView};
