//! The field descriptor system: one descriptor per field of a data aggregate,
//! each carrying the field's canonical event name `<Parent>::<Field>`.

use vstd::prelude::*;

use crate::naming::{pascal_of, snake_of, to_pascal_case, to_snake_case};
use crate::text::{qualify, separator};

verus! {

/// One field of an aggregate declaration; `ident` is `None` for a tuple field.
pub struct AggregateField {
    pub ident: Option<String>,
}

/// A data aggregate declaration: its name, its fields (`None` where it is not a
/// struct), and its naming attributes.
pub struct AggregateDecl {
    pub name: String,
    pub fields: Option<Vec<AggregateField>>,
    /// The `auto_naming` attribute's argument, if given.
    pub auto_naming: Option<String>,
    /// The `mod_name` attribute's argument, if given.
    pub mod_name: Option<String>,
}

/// Why an aggregate cannot be opted into synchronization.
#[derive(Debug)]
pub enum DeriveError {
    /// The declaration is not a struct.
    NotAStruct,
    /// The struct has no fields.
    NoFields,
    /// The struct has unnamed fields.
    TupleStruct,
    /// The `auto_naming` attribute names no known scheme.
    UnknownNaming(String),
}

/// The descriptor of one field.
pub struct EventField {
    /// The field's tag name: the field's identifier in Pascal case.
    pub field_name: String,
    /// The field's identifier in the aggregate.
    pub parent_field_name: String,
    /// The canonical event name, `<Parent>::<Field>`.
    pub event_name: String,
}

/// The descriptors of an aggregate: its name, the module that holds the field
/// tags, and one descriptor per field in declaration order.
pub struct EventStruct {
    pub name: String,
    pub mod_name: String,
    pub fields: Vec<EventField>,
}

/// The naming scheme that names the module of field tags like an enum.
pub open spec fn enum_like() -> Seq<char> {
    seq!['E', 'n', 'u', 'm', 'L', 'i', 'k', 'e']
}

/// The canonical event name of field `field` of aggregate `parent`.
pub open spec fn event_name_of(parent: Seq<char>, field: Seq<char>) -> Seq<char> {
    qualify(parent, field)
}

/// The module name of an aggregate's field tags: the `mod_name` attribute where
/// given; else, with enum-like naming, `<Name>Field` in Pascal case, and
/// otherwise the name in snake case.
pub open spec fn mod_name_of(
    name: Seq<char>,
    auto_naming: Option<Seq<char>>,
    mod_name: Option<Seq<char>>,
) -> Seq<char> {
    match mod_name {
        Some(m) => m,
        None => match auto_naming {
            Some(_) => pascal_of(name + seq!['F', 'i', 'e', 'l', 'd']),
            None => snake_of(name),
        },
    }
}

/// Whether every field of a list has a name.
pub open spec fn all_named(fields: Seq<AggregateField>) -> bool {
    forall|i: int| 0 <= i < fields.len() ==> (#[trigger] fields[i]).ident is Some
}

/// The text of an optional name.
pub open spec fn opt_view(o: Option<String>) -> Option<Seq<char>> {
    match o {
        Some(s) => Some(s@),
        None => None,
    }
}

/// The error that an aggregate declaration gives, if any, in the order the
/// checks are made.
pub open spec fn derive_error_of(decl: AggregateDecl) -> Option<DeriveError> {
    match decl.fields {
        None => Some(DeriveError::NotAStruct),
        Some(fields) => if fields@.len() == 0 {
            Some(DeriveError::NoFields)
        } else if !all_named(fields@) {
            Some(DeriveError::TupleStruct)
        } else {
            match decl.auto_naming {
                Some(n) => if n@ == enum_like() {
                    None
                } else {
                    Some(DeriveError::UnknownNaming(n))
                },
                None => None,
            }
        },
    }
}

/// The descriptor of field `f` of aggregate `parent` is right.
pub open spec fn describes_field(parent: Seq<char>, f: AggregateField, e: EventField) -> bool {
    &&& f.ident matches Some(ident) && e.parent_field_name@ == ident@ && e.field_name@ == pascal_of(
        ident@,
    )
    &&& e.event_name@ == event_name_of(parent, e.field_name@)
}

/// The descriptors `s` are right for the aggregate `decl`.
pub open spec fn describes_aggregate(decl: AggregateDecl, s: EventStruct) -> bool {
    &&& s.name@ == decl.name@
    &&& s.mod_name@ == mod_name_of(decl.name@, opt_view(decl.auto_naming), opt_view(decl.mod_name))
    &&& decl.fields matches Some(fields)
    &&& s.fields@.len() == fields@.len()
    &&& forall|i: int|
        0 <= i < s.fields@.len() ==> describes_field(decl.name@, fields@[i], #[trigger] s.fields@[i])
}

/// The canonical event name of field tag `field_name` of aggregate `parent`.
pub fn prepare_field(parent: &str, field_name: &str) -> (r: String)
    ensures
        r@ == event_name_of(parent@, field_name@),
{
    proof {
        reveal_strlit("::");
        assert("::"@ =~= separator());
    }
    String::from_str(parent).concat("::").concat(field_name)
}

/// Builds the descriptors of an aggregate, or the reason it cannot have them.
pub fn prepare_event(decl: &AggregateDecl) -> (r: Result<EventStruct, DeriveError>)
    ensures
        derive_error_of(*decl) is None <==> r is Ok,
        r matches Err(e) ==> derive_error_of(*decl) == Some(e),
        r matches Ok(s) ==> describes_aggregate(*decl, s),
{
    let fields = match &decl.fields {
        None => {
            return Err(DeriveError::NotAStruct);
        },
        Some(f) => f,
    };
    if fields.len() == 0 {
        return Err(DeriveError::NoFields);
    }
    let mut k: usize = 0;
    while k < fields.len()
        invariant
            0 <= k <= fields@.len(),
            fields@.len() > 0,
            decl.fields == Some(*fields),
            forall|j: int| 0 <= j < k ==> (#[trigger] fields@[j]).ident is Some,
        decreases fields.len() - k,
    {
        if fields[k].ident.is_none() {
            assert(!all_named(fields@));
            return Err(DeriveError::TupleStruct);
        }
        k = k + 1;
    }
    proof {
        reveal_strlit("EnumLike");
        reveal_strlit("Field");
        assert("EnumLike"@ =~= enum_like());
        assert("Field"@ =~= seq!['F', 'i', 'e', 'l', 'd']);
    }
    let enum_naming = match &decl.auto_naming {
        Some(n) => {
            if *n == String::from_str("EnumLike") {
                true
            } else {
                return Err(DeriveError::UnknownNaming(n.clone()));
            }
        },
        None => false,
    };
    let mod_name = match &decl.mod_name {
        Some(m) => m.clone(),
        None => {
            if enum_naming {
                to_pascal_case(String::from_str(decl.name.as_str()).concat("Field").as_str())
            } else {
                to_snake_case(decl.name.as_str())
            }
        },
    };
    let mut out: Vec<EventField> = Vec::new();
    let mut i: usize = 0;
    while i < fields.len()
        invariant
            0 <= i <= fields@.len(),
            decl.fields == Some(*fields),
            all_named(fields@),
            out@.len() == i,
            forall|j: int| 0 <= j < i ==> describes_field(decl.name@, fields@[j], #[trigger] out@[j]),
        decreases fields.len() - i,
    {
        match &fields[i].ident {
            Some(ident) => {
                let field_name = to_pascal_case(ident.as_str());
                let event_name = prepare_field(decl.name.as_str(), field_name.as_str());
                out.push(EventField { field_name, parent_field_name: ident.clone(), event_name });
            },
            None => {
                assert(fields@[i as int].ident is Some);
            },
        }
        i = i + 1;
    }
    Ok(EventStruct { name: decl.name.clone(), mod_name, fields: out })
}

} // verus!
