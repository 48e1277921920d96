use std::sync::Arc;

use scope_stack::{Client, ScopeGuard, Stack, Value};

fn top_tag(stack: &mut Stack, key: &str) -> Option<String> {
    stack.scope_mut().tag(key).map(|value| (*value).clone())
}

#[test]
fn guard_pushes_and_release_pops() {
    let mut stack = Stack::for_process();
    let guard = ScopeGuard::enter(&mut stack);
    assert_eq!(stack.depth(), 2);
    assert!(guard.fits(&stack));
    guard.release(&mut stack);
    assert_eq!(stack.depth(), 1);
}

#[test]
fn guard_release_restores_what_was_there_before() {
    let mut stack = Stack::for_process();
    stack.bind_client(Arc::new(Client { id: 1 }));
    stack.scope_mut().set_tag("env", "prod");
    let guard = ScopeGuard::enter(&mut stack);
    stack.scope_mut().set_tag("env", "test");
    stack.scope_mut().set_extra("build", Value::Number(42));
    stack.bind_client(Arc::new(Client { id: 2 }));
    assert!(guard.fits(&stack));
    guard.release(&mut stack);
    assert_eq!(top_tag(&mut stack, "env"), Some("prod".to_string()));
    assert!(stack.scope_mut().extra("build").is_none());
    assert_eq!(stack.client().map(|client| client.id), Some(1));
}

#[test]
fn nested_guards_are_released_last_in_first_out() {
    let mut stack = Stack::for_process();
    let outer = ScopeGuard::enter(&mut stack);
    let middle = ScopeGuard::enter(&mut stack);
    let inner = ScopeGuard::enter(&mut stack);
    assert_eq!(stack.depth(), 4);
    assert!(inner.fits(&stack));
    inner.release(&mut stack);
    assert!(middle.fits(&stack));
    middle.release(&mut stack);
    assert!(outer.fits(&stack));
    outer.release(&mut stack);
    assert_eq!(stack.depth(), 1);
}

#[test]
fn outer_guard_does_not_fit_before_the_inner_one_is_released() {
    let mut stack = Stack::for_process();
    let first = ScopeGuard::enter(&mut stack);
    let second = ScopeGuard::enter(&mut stack);
    stack.scope_mut().set_tag("inner", "yes");
    assert!(!first.fits(&stack));
    assert!(second.fits(&stack));
    assert_eq!(stack.depth(), 3);
    second.release(&mut stack);
    assert_eq!(top_tag(&mut stack, "inner"), None);
    assert!(first.fits(&stack));
    first.release(&mut stack);
    assert_eq!(stack.depth(), 1);
}

#[test]
fn guard_does_not_fit_after_its_layer_was_popped() {
    let mut stack = Stack::for_process();
    let guard = ScopeGuard::enter(&mut stack);
    stack.pop();
    assert!(!guard.fits(&stack));
    assert_eq!(stack.depth(), 1);
}

#[test]
fn guard_does_not_fit_another_stack() {
    let mut process = Stack::for_process();
    let mut thread = Stack::for_thread(&process, 1);
    let mut other = Stack::for_thread(&process, 2);
    let guard = ScopeGuard::enter(&mut thread);
    process.push();
    other.push();
    assert_eq!(process.depth(), thread.depth());
    assert_eq!(other.depth(), thread.depth());
    assert!(!guard.fits(&process));
    assert!(!guard.fits(&other));
    assert!(guard.fits(&thread));
}

#[test]
fn default_guard_is_for_no_layer() {
    let mut stack = Stack::for_process();
    stack.push();
    let guard = ScopeGuard::default();
    assert!(guard.fits(&stack));
    guard.release(&mut stack);
    assert_eq!(stack.depth(), 2);
    let again = ScopeGuard::default();
    stack.pop();
    assert!(again.fits(&stack));
    again.release(&mut stack);
    assert_eq!(stack.depth(), 1);
}

#[test]
fn try_release_pops_where_the_guard_fits() {
    let mut stack = Stack::for_process();
    let guard = ScopeGuard::enter(&mut stack);
    stack.scope_mut().set_tag("inner", "yes");
    assert!(guard.try_release(&mut stack));
    assert_eq!(stack.depth(), 1);
    assert_eq!(top_tag(&mut stack, "inner"), None);
}

#[test]
fn try_release_leaves_a_stack_that_the_guard_does_not_fit() {
    let mut stack = Stack::for_process();
    let first = ScopeGuard::enter(&mut stack);
    let second = ScopeGuard::enter(&mut stack);
    stack.scope_mut().set_tag("inner", "yes");
    assert!(!first.try_release(&mut stack));
    assert_eq!(stack.depth(), 3);
    assert_eq!(top_tag(&mut stack, "inner"), Some("yes".to_string()));
    assert!(second.try_release(&mut stack));
    assert_eq!(stack.depth(), 2);
}

#[test]
fn try_release_after_an_unrelated_pop_pops_nothing() {
    let mut stack = Stack::for_process();
    stack.scope_mut().set_tag("base", "yes");
    stack.push();
    let guard = ScopeGuard::enter(&mut stack);
    stack.pop();
    assert!(!guard.try_release(&mut stack));
    assert_eq!(stack.depth(), 2);
    stack.pop();
    assert_eq!(top_tag(&mut stack, "base"), Some("yes".to_string()));
}

#[test]
fn try_release_on_another_stack_pops_nothing() {
    let process = Stack::for_process();
    let mut one = Stack::for_thread(&process, 1);
    let mut two = Stack::for_thread(&process, 2);
    let guard = ScopeGuard::enter(&mut one);
    two.push();
    assert!(!guard.try_release(&mut two));
    assert_eq!(two.depth(), 2);
    assert_eq!(one.depth(), 2);
}

#[test]
fn try_release_of_a_default_guard_pops_nothing() {
    let mut stack = Stack::for_process();
    stack.push();
    assert!(ScopeGuard::default().try_release(&mut stack));
    assert_eq!(stack.depth(), 2);
}
