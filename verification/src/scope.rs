//! The scope: what is known about the moment an event happens.

use std::sync::Arc;
use vstd::prelude::*;

use crate::payload::{Breadcrumb, User, Value};
use crate::persistent::{
    breadcrumb_items, breadcrumbs_clone, breadcrumbs_get, breadcrumbs_len, breadcrumbs_new,
    breadcrumbs_push_back, extra_clone, extra_entries, extra_get, extra_insert, extra_new,
    extra_is_empty, extra_remove, share, tag_entries, tags_clone, tags_get, tags_insert,
    tags_is_empty, tags_new, tags_remove,
};

verus! {

/// What a scope holds, as mathematics.
#[verifier::ext_equal]
pub struct ScopeView {
    /// The trail of breadcrumbs, oldest first.
    pub breadcrumbs: Seq<Breadcrumb>,
    /// The user, if one is set.
    pub user: Option<User>,
    /// Extra data by key.
    pub extra: Map<Seq<char>, Value>,
    /// Tags by key.
    pub tags: Map<Seq<char>, Seq<char>>,
}

impl ScopeView {
    /// The scope that holds nothing.
    pub open spec fn empty() -> ScopeView {
        ScopeView {
            breadcrumbs: Seq::empty(),
            user: None,
            extra: Map::empty(),
            tags: Map::empty(),
        }
    }

    /// This scope with `user` in place of its user.
    pub open spec fn with_user(self, user: Option<User>) -> ScopeView {
        ScopeView { user, ..self }
    }

    /// This scope with the tag `key` set to `value`.
    pub open spec fn with_tag(self, key: Seq<char>, value: Seq<char>) -> ScopeView {
        ScopeView { tags: self.tags.insert(key, value), ..self }
    }

    /// This scope without the tag `key`.
    pub open spec fn without_tag(self, key: Seq<char>) -> ScopeView {
        ScopeView { tags: self.tags.remove(key), ..self }
    }

    /// This scope with the extra data `key` set to `value`.
    pub open spec fn with_extra(self, key: Seq<char>, value: Value) -> ScopeView {
        ScopeView { extra: self.extra.insert(key, value), ..self }
    }

    /// This scope without the extra data `key`.
    pub open spec fn without_extra(self, key: Seq<char>) -> ScopeView {
        ScopeView { extra: self.extra.remove(key), ..self }
    }

    /// This scope with `breadcrumb` at the end of its trail.
    pub open spec fn with_breadcrumb(self, breadcrumb: Breadcrumb) -> ScopeView {
        ScopeView { breadcrumbs: self.breadcrumbs.push(breadcrumb), ..self }
    }
}

/// What is known about the moment an event happens: tags, extra data, the
/// user, and the breadcrumbs that led up to it.
///
/// A scope is cheap to clone: its tags, extra data and breadcrumbs live in
/// persistent containers, so two clones share them until one of the two is
/// changed, and a change to one never shows in the other.
#[derive(Debug)]
pub struct Scope {
    breadcrumbs: im::Vector<Breadcrumb>,
    user: Option<Arc<User>>,
    extra: im::HashMap<String, Value>,
    tags: im::HashMap<String, String>,
}

impl View for Scope {
    type V = ScopeView;

    closed spec fn view(&self) -> ScopeView {
        ScopeView {
            breadcrumbs: breadcrumb_items(self.breadcrumbs),
            user: match self.user {
                Some(user) => Some(*user),
                None => None,
            },
            extra: extra_entries(self.extra),
            tags: tag_entries(self.tags),
        }
    }
}

impl Default for Scope {
    /// A scope that holds nothing.
    fn default() -> (r: Scope)
        ensures
            r@ == ScopeView::empty(),
    {
        Scope {
            breadcrumbs: breadcrumbs_new(),
            user: None,
            extra: extra_new(),
            tags: tags_new(),
        }
    }
}

impl Clone for Scope {
    /// A scope of its own with the same contents.
    fn clone(&self) -> (r: Scope)
        ensures
            r@ == self@,
    {
        Scope {
            breadcrumbs: breadcrumbs_clone(&self.breadcrumbs),
            user: match &self.user {
                Some(user) => Some(share(user)),
                None => None,
            },
            extra: extra_clone(&self.extra),
            tags: tags_clone(&self.tags),
        }
    }
}

impl Scope {
    /// Empties the scope.
    ///
    /// A scope on a new layer starts out with everything the layer below
    /// has. This wipes all of it, on this scope and on no other.
    pub fn clear(&mut self)
        ensures
            final(self)@ == ScopeView::empty(),
    {
        *self = Scope::default();
    }

    /// Puts `user` in place of the user the scope had, if it had one.
    pub fn set_user(&mut self, user: Option<User>)
        ensures
            final(self)@ == old(self)@.with_user(user),
    {
        self.user = match user {
            Some(user) => Some(Arc::new(user)),
            None => None,
        };
    }

    /// Gives the tag `key` the value `value`, in place of the one it had.
    pub fn set_tag(&mut self, key: &str, value: &str)
        ensures
            final(self)@ == old(self)@.with_tag(key@, value@),
    {
        self.tags = tags_insert(&self.tags, key.to_owned(), value.to_owned());
    }

    /// Takes the tag `key` away, if it is set.
    pub fn remove_tag(&mut self, key: &str)
        ensures
            final(self)@ == old(self)@.without_tag(key@),
    {
        self.tags = tags_remove(&self.tags, key);
    }

    /// Puts `value` under `key` in the extra data, in place of what was
    /// there. The value is kept as it is.
    pub fn set_extra(&mut self, key: &str, value: Value)
        ensures
            final(self)@ == old(self)@.with_extra(key@, value),
    {
        self.extra = extra_insert(&self.extra, key.to_owned(), value);
    }

    /// Takes the extra data under `key` away, if there is any.
    pub fn remove_extra(&mut self, key: &str)
        ensures
            final(self)@ == old(self)@.without_extra(key@),
    {
        self.extra = extra_remove(&self.extra, key);
    }

    /// Adds a breadcrumb at the end of the trail.
    pub fn add_breadcrumb(&mut self, breadcrumb: Breadcrumb)
        ensures
            final(self)@ == old(self)@.with_breadcrumb(breadcrumb),
    {
        self.breadcrumbs = breadcrumbs_push_back(&self.breadcrumbs, breadcrumb);
    }

    /// Whether the scope holds nothing: no breadcrumb, no user, no extra
    /// data, no tag.
    pub fn is_empty(&self) -> (r: bool)
        ensures
            r == (self@ == ScopeView::empty()),
    {
        let r = breadcrumbs_len(&self.breadcrumbs) == 0 && self.user.is_none() && extra_is_empty(
            &self.extra,
        ) && tags_is_empty(&self.tags);
        proof {
            if r {
                assert(self@ =~= ScopeView::empty());
            }
        }
        r
    }

    /// The value of the tag `key`, if it is set.
    pub fn tag(&self, key: &str) -> (r: Option<Arc<String>>)
        ensures
            r.is_some() == self@.tags.contains_key(key@),
            r matches Some(value) ==> value@ == self@.tags[key@],
    {
        tags_get(&self.tags, key)
    }

    /// The extra data under `key`, if there is any.
    pub fn extra(&self, key: &str) -> (r: Option<Arc<Value>>)
        ensures
            r.is_some() == self@.extra.contains_key(key@),
            r matches Some(value) ==> *value == self@.extra[key@],
    {
        extra_get(&self.extra, key)
    }

    /// The user, if one is set.
    pub fn user(&self) -> (r: Option<Arc<User>>)
        ensures
            r.is_some() == self@.user.is_some(),
            r matches Some(user) ==> *user == self@.user.unwrap(),
    {
        match &self.user {
            Some(user) => Some(share(user)),
            None => None,
        }
    }

    /// The trail of breadcrumbs, oldest first.
    pub fn breadcrumbs(&self) -> (r: Vec<Arc<Breadcrumb>>)
        ensures
            r@.len() == self@.breadcrumbs.len(),
            forall|i: int| 0 <= i < r@.len() ==> *r@[i] == self@.breadcrumbs[i],
    {
        let n = breadcrumbs_len(&self.breadcrumbs);
        let mut out: Vec<Arc<Breadcrumb>> = Vec::new();
        let mut i: usize = 0;
        while i < n
            invariant
                n == self@.breadcrumbs.len(),
                i <= n,
                out@.len() == i,
                forall|j: int| 0 <= j < i ==> *out@[j] == self@.breadcrumbs[j],
            decreases n - i,
        {
            match breadcrumbs_get(&self.breadcrumbs, i) {
                Some(item) => out.push(item),
                None => {},
            }
            i += 1;
        }
        out
    }
}

} // verus!
