//! Sample data aggregates, each opted into field synchronization under one of
//! the three module naming schemes.

use vstd::prelude::*;

use crate::event::{AggregateDecl, AggregateField};

verus! {

/// An aggregate whose field tags live in a module named by attribute.
pub struct TestState {
    pub foo: String,
    pub bar: bool,
}

/// An aggregate whose field tags live in a module named like an enum.
pub struct NamingTestEnum {
    pub foo: String,
    pub bar: bool,
}

/// An aggregate whose field tags live in a module of the default name.
pub struct NamingTestDefault {
    pub foo: String,
    pub bar: bool,
}

/// The fields are `foo` and `bar`, in that order.
pub open spec fn is_foo_bar(fields: Option<Vec<AggregateField>>) -> bool {
    &&& fields matches Some(f)
    &&& f@.len() == 2
    &&& f@[0].ident matches Some(a)
    &&& a@ == "foo"@
    &&& f@[1].ident matches Some(b)
    &&& b@ == "bar"@
}

/// The two named fields `foo` and `bar`.
fn foo_bar_fields() -> (r: Vec<AggregateField>)
    ensures
        r@.len() == 2,
        r@[0].ident matches Some(f) && f@ == "foo"@,
        r@[1].ident matches Some(b) && b@ == "bar"@,
{
    vec![
        AggregateField { ident: Some(String::from_str("foo")) },
        AggregateField { ident: Some(String::from_str("bar")) },
    ]
}

impl TestState {
    /// The declaration of this aggregate, with `mod_name(test_mod)`.
    pub fn declaration() -> (r: AggregateDecl)
        ensures
            r.name@ == "TestState"@,
            is_foo_bar(r.fields),
            r.auto_naming is None,
            r.mod_name matches Some(m) && m@ == "test_mod"@,
    {
        AggregateDecl {
            name: String::from_str("TestState"),
            fields: Some(foo_bar_fields()),
            auto_naming: None,
            mod_name: Some(String::from_str("test_mod")),
        }
    }
}

impl NamingTestEnum {
    /// The declaration of this aggregate, with `auto_naming(EnumLike)`.
    pub fn declaration() -> (r: AggregateDecl)
        ensures
            r.name@ == "NamingTestEnum"@,
            is_foo_bar(r.fields),
            r.auto_naming matches Some(n) && n@ == "EnumLike"@,
            r.mod_name is None,
    {
        AggregateDecl {
            name: String::from_str("NamingTestEnum"),
            fields: Some(foo_bar_fields()),
            auto_naming: Some(String::from_str("EnumLike")),
            mod_name: None,
        }
    }
}

impl NamingTestDefault {
    /// The declaration of this aggregate, without naming attributes.
    pub fn declaration() -> (r: AggregateDecl)
        ensures
            r.name@ == "NamingTestDefault"@,
            is_foo_bar(r.fields),
            r.auto_naming is None,
            r.mod_name is None,
    {
        AggregateDecl {
            name: String::from_str("NamingTestDefault"),
            fields: Some(foo_bar_fields()),
            auto_naming: None,
            mod_name: None,
        }
    }
}

} // verus!
