use std::sync::Arc;

use scope_stack::{Breadcrumb, Client, Scope, Stack, StackLayerToken, StackType, User, Value};

fn layer_tag(stack: &mut Stack, key: &str) -> Option<String> {
    stack.scope_mut().tag(key).map(|value| (*value).clone())
}

fn layer_extra(stack: &mut Stack, key: &str) -> Option<Value> {
    stack.scope_mut().extra(key).map(|value| (*value).clone())
}

fn bound_client(stack: &Stack) -> Option<u64> {
    stack.client().map(|client| client.id)
}

#[test]
fn process_stack_starts_with_one_bare_layer() {
    let mut stack = Stack::for_process();
    assert_eq!(stack.depth(), 1);
    assert_eq!(stack.stack_type(), StackType::Process);
    assert_eq!(stack.id(), 0);
    assert!(stack.client().is_none());
    assert!(stack.scope_mut().is_empty());
}

#[test]
fn push_copies_the_current_layer() {
    let mut stack = Stack::for_process();
    stack.bind_client(Arc::new(Client { id: 7 }));
    stack.scope_mut().set_tag("env", "prod");
    stack.scope_mut().set_extra("build", Value::Number(42));
    stack.push();
    assert_eq!(stack.depth(), 2);
    assert_eq!(bound_client(&stack), Some(7));
    assert_eq!(layer_tag(&mut stack, "env"), Some("prod".to_string()));
    assert_eq!(layer_extra(&mut stack, "build"), Some(Value::Number(42)));
}

#[test]
fn push_shares_the_client_and_does_not_copy_it() {
    let mut stack = Stack::for_process();
    let client = Arc::new(Client { id: 7 });
    stack.bind_client(client.clone());
    stack.push();
    let bound = stack.client().unwrap();
    assert!(Arc::ptr_eq(&bound, &client));
}

#[test]
fn balanced_pushes_and_pops_restore_the_stack() {
    let mut stack = Stack::for_process();
    stack.bind_client(Arc::new(Client { id: 1 }));
    stack.scope_mut().set_tag("env", "prod");
    let before = stack.token();
    stack.push();
    stack.push();
    stack.pop();
    stack.push();
    stack.push();
    stack.pop();
    stack.pop();
    stack.pop();
    assert_eq!(stack.depth(), 1);
    assert_eq!(stack.token(), before);
    assert_eq!(bound_client(&stack), Some(1));
    assert_eq!(layer_tag(&mut stack, "env"), Some("prod".to_string()));
    assert_eq!(layer_tag(&mut stack, "other"), None);
}

#[test]
fn change_after_push_does_not_show_below() {
    let mut stack = Stack::for_process();
    stack.scope_mut().set_tag("env", "prod");
    stack.scope_mut().set_extra("build", Value::Number(1));
    stack.scope_mut().add_breadcrumb(Breadcrumb {
        category: "http".to_string(),
        message: "GET /".to_string(),
    });
    stack.push();
    stack.scope_mut().set_tag("env", "test");
    stack.scope_mut().set_tag("inner", "yes");
    stack.scope_mut().remove_extra("build");
    stack.scope_mut().set_user(Some(User {
        id: "1".to_string(),
        username: "ann".to_string(),
        email: "ann@example.org".to_string(),
    }));
    stack.scope_mut().add_breadcrumb(Breadcrumb {
        category: "db".to_string(),
        message: "select".to_string(),
    });
    assert_eq!(layer_tag(&mut stack, "env"), Some("test".to_string()));
    assert_eq!(stack.scope_mut().breadcrumbs().len(), 2);
    stack.pop();
    assert_eq!(layer_tag(&mut stack, "env"), Some("prod".to_string()));
    assert_eq!(layer_tag(&mut stack, "inner"), None);
    assert_eq!(layer_extra(&mut stack, "build"), Some(Value::Number(1)));
    assert!(stack.scope_mut().user().is_none());
    assert_eq!(stack.scope_mut().breadcrumbs().len(), 1);
}

#[test]
fn clear_after_push_does_not_clear_below() {
    let mut stack = Stack::for_process();
    stack.scope_mut().set_tag("env", "prod");
    stack.push();
    stack.scope_mut().clear();
    assert!(stack.scope_mut().is_empty());
    stack.pop();
    assert_eq!(layer_tag(&mut stack, "env"), Some("prod".to_string()));
}

#[test]
fn client_is_bound_on_the_current_layer_only() {
    let mut stack = Stack::for_process();
    stack.bind_client(Arc::new(Client { id: 1 }));
    stack.push();
    stack.bind_client(Arc::new(Client { id: 2 }));
    assert_eq!(bound_client(&stack), Some(2));
    stack.push();
    assert_eq!(bound_client(&stack), Some(2));
    stack.pop();
    stack.pop();
    assert_eq!(bound_client(&stack), Some(1));
}

#[test]
fn unbound_stack_has_no_client_at_any_depth() {
    let mut stack = Stack::for_process();
    stack.push();
    stack.push();
    assert!(stack.client().is_none());
}

#[test]
fn depth_counts_the_layers() {
    let mut stack = Stack::for_process();
    for expected in 1..50usize {
        assert_eq!(stack.depth(), expected);
        stack.push();
    }
    for expected in (1..50usize).rev() {
        stack.pop();
        assert_eq!(stack.depth(), expected);
    }
    assert_eq!(stack.depth(), 1);
}

#[test]
fn token_names_stack_and_depth() {
    let mut stack = Stack::for_process();
    assert_eq!(stack.token(), StackLayerToken { ty: StackType::Process, id: 0, depth: 1 });
    stack.push();
    assert_eq!(stack.token(), StackLayerToken { ty: StackType::Process, id: 0, depth: 2 });
    let other = Stack::for_thread(&stack, 5);
    assert_eq!(other.token(), StackLayerToken { ty: StackType::Thread, id: 5, depth: 1 });
    assert_ne!(other.token(), Stack::for_thread(&stack, 6).token());
}

#[test]
fn thread_stack_starts_from_the_current_layer_of_the_process() {
    let mut process = Stack::for_process();
    process.bind_client(Arc::new(Client { id: 1 }));
    process.scope_mut().set_tag("env", "prod");
    process.push();
    process.bind_client(Arc::new(Client { id: 2 }));
    process.scope_mut().set_tag("env", "test");
    process.scope_mut().set_extra("build", Value::Number(42));
    let mut thread = Stack::for_thread(&process, 3);
    assert_eq!(thread.depth(), 1);
    assert_eq!(thread.stack_type(), StackType::Thread);
    assert_eq!(thread.id(), 3);
    assert_eq!(bound_client(&thread), Some(2));
    assert_eq!(layer_tag(&mut thread, "env"), Some("test".to_string()));
    assert_eq!(layer_extra(&mut thread, "build"), Some(Value::Number(42)));
}

#[test]
fn thread_stack_and_process_stack_go_their_own_ways() {
    let mut process = Stack::for_process();
    process.scope_mut().set_tag("env", "prod");
    let mut thread = Stack::for_thread(&process, 1);
    thread.scope_mut().set_tag("env", "thread");
    thread.bind_client(Arc::new(Client { id: 9 }));
    process.scope_mut().set_tag("late", "yes");
    assert_eq!(layer_tag(&mut process, "env"), Some("prod".to_string()));
    assert!(process.client().is_none());
    assert_eq!(layer_tag(&mut thread, "env"), Some("thread".to_string()));
    assert_eq!(layer_tag(&mut thread, "late"), None);
}

#[test]
fn scope_handle_changes_the_current_layer() {
    let mut stack = Stack::for_process();
    {
        let scope: &mut Scope = stack.scope_mut();
        scope.set_tag("a", "1");
        scope.set_tag("b", "2");
    }
    assert_eq!(layer_tag(&mut stack, "a"), Some("1".to_string()));
    assert_eq!(layer_tag(&mut stack, "b"), Some("2".to_string()));
}

#[test]
fn last_layer_is_never_popped() {
    let mut stack = Stack::for_process();
    stack.scope_mut().set_tag("env", "prod");
    assert!(!stack.try_pop());
    assert_eq!(stack.depth(), 1);
    assert_eq!(layer_tag(&mut stack, "env"), Some("prod".to_string()));
    stack.push();
    assert!(stack.try_pop());
    assert!(!stack.try_pop());
    assert!(!stack.try_pop());
    assert_eq!(stack.depth(), 1);
    assert_eq!(layer_tag(&mut stack, "env"), Some("prod".to_string()));
}

#[test]
fn try_pop_takes_one_layer_at_a_time() {
    let mut stack = Stack::for_thread(&Stack::for_process(), 1);
    stack.push();
    stack.scope_mut().set_tag("depth", "2");
    stack.push();
    stack.scope_mut().set_tag("depth", "3");
    assert!(stack.try_pop());
    assert_eq!(stack.depth(), 2);
    assert_eq!(layer_tag(&mut stack, "depth"), Some("2".to_string()));
    assert!(stack.try_pop());
    assert_eq!(stack.depth(), 1);
    assert_eq!(layer_tag(&mut stack, "depth"), None);
}

#[test]
fn deep_stack_unwinds_layer_by_layer() {
    let mut stack = Stack::for_process();
    for depth in 1..=500usize {
        stack.scope_mut().set_tag("depth", &format!("{}", depth));
        stack.push();
    }
    assert_eq!(stack.depth(), 501);
    assert_eq!(layer_tag(&mut stack, "depth"), Some("500".to_string()));
    for depth in (1..=500usize).rev() {
        stack.pop();
        assert_eq!(stack.depth(), depth);
        assert_eq!(layer_tag(&mut stack, "depth"), Some(format!("{}", depth)));
    }
    assert_eq!(stack.depth(), 1);
}

#[test]
fn client_clone_is_the_same_client() {
    let client = Client { id: 11 };
    assert_eq!(client.clone(), client);
}
