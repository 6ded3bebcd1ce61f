//! The allow/deny decision returned by the authorization gate.

use vstd::prelude::*;

use crate::table::Table;

verus! {

/// An authorization decision: whether the request is allowed, plus a
/// diagnostic context of string variables.
pub struct SimpleAuthorizerResponse {
    is_authorized: bool,
    context: Table<String>,
}

impl View for SimpleAuthorizerResponse {
    type V = (bool, Map<Seq<char>, Seq<char>>);

    closed spec fn view(&self) -> (bool, Map<Seq<char>, Seq<char>>) {
        (self.is_authorized, self.context@)
    }
}

impl SimpleAuthorizerResponse {
    /// Well-formed: the context table is.
    pub closed spec fn wf(&self) -> bool {
        self.context.wf()
    }

    /// A decision with the given outcome and context.
    pub fn new(is_authorized: bool, context: Table<String>) -> (r: SimpleAuthorizerResponse)
        requires
            context.wf(),
        ensures
            r.wf(),
            r@ == (is_authorized, context@),
    {
        SimpleAuthorizerResponse { is_authorized, context }
    }

    /// Whether the request is allowed.
    pub fn is_authorized(&self) -> (r: bool)
        ensures
            r == self@.0,
    {
        self.is_authorized
    }

    /// The diagnostic context.
    pub fn context<'a>(&'a self) -> (r: &'a Table<String>)
        requires
            self.wf(),
        ensures
            r.wf(),
            r@ == self@.1,
    {
        &self.context
    }

    /// Replace the outcome, keeping the context.
    pub fn set_is_authorized(&mut self, is_authorized: bool)
        requires
            old(self).wf(),
        ensures
            final(self).wf(),
            final(self)@ == (is_authorized, old(self)@.1),
    {
        self.is_authorized = is_authorized;
    }

    /// Replace the context, keeping the outcome.
    pub fn set_context(&mut self, context: Table<String>)
        requires
            context.wf(),
        ensures
            final(self).wf(),
            final(self)@ == (old(self)@.0, context@),
    {
        self.context = context;
    }

    /// Add one variable to the context, overwriting any previous value
    /// under the same name.
    pub fn insert_context_var(&mut self, key: String, value: String)
        requires
            old(self).wf(),
        ensures
            final(self).wf(),
            final(self)@ == (old(self)@.0, old(self)@.1.insert(key@, value@)),
    {
        self.context.insert(key, value);
    }
}

} // verus!
