//! The values that scopes and layers carry.
//!
//! A layer never looks inside any of these: it stores them, shares them and
//! hands them back.

use vstd::prelude::*;

verus! {

/// A reporting client. Layers hold on to a client and hand it back; what the
/// client does with an event is its own business.
#[derive(Debug, PartialEq, Eq, Hash)]
pub struct Client {
    /// Tells one client from another.
    pub id: u64,
}

impl Clone for Client {
    fn clone(&self) -> (r: Client)
        ensures
            r == *self,
    {
        Client { id: self.id }
    }
}

/// The person an event is about.
#[derive(Debug, PartialEq, Eq, Hash)]
pub struct User {
    /// What the application knows the user by.
    pub id: String,
    /// The name the user goes by.
    pub username: String,
    /// Where the user can be written to.
    pub email: String,
}

impl Clone for User {
    fn clone(&self) -> (r: User)
        ensures
            r == *self,
    {
        User { id: self.id.clone(), username: self.username.clone(), email: self.email.clone() }
    }
}

/// One step on the trail that led up to an event.
#[derive(Debug, PartialEq, Eq, Hash)]
pub struct Breadcrumb {
    /// The part of the program that left the breadcrumb.
    pub category: String,
    /// What happened.
    pub message: String,
}

impl Clone for Breadcrumb {
    fn clone(&self) -> (r: Breadcrumb)
        ensures
            r == *self,
    {
        Breadcrumb { category: self.category.clone(), message: self.message.clone() }
    }
}

/// A piece of extra data. Unlike a tag it keeps its type: a number stays a
/// number.
#[derive(Debug, PartialEq, Eq, Hash)]
pub enum Value {
    /// No value.
    Null,
    /// A truth value.
    Bool(bool),
    /// A whole number.
    Number(i64),
    /// A piece of text.
    Text(String),
}

impl Clone for Value {
    fn clone(&self) -> (r: Value)
        ensures
            r == *self,
    {
        match self {
            Value::Null => Value::Null,
            Value::Bool(b) => Value::Bool(*b),
            Value::Number(n) => Value::Number(*n),
            Value::Text(s) => Value::Text(s.clone()),
        }
    }
}

} // verus!
