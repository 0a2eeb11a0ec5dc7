//! The command transform: from one declaration, the descriptor that both the
//! host handler and the remote stub are generated from.

use vstd::prelude::*;

use crate::invoke::{category_of, determine_invoke, Invoke, ReturnShape, ShapeError};
use crate::naming::{lower_of, pascal_of, snake_of, to_lower_case, to_pascal_case, to_snake_case};
use crate::text::{contains_text, occurs_at};

verus! {

/// The type of a parameter, as far as the transform reads it.
pub enum ParamType {
    /// A named type, given by the segments of its path.
    Path(Vec<String>),
    /// A reference to some type.
    Reference,
    /// Any other type.
    Other,
}

/// One parameter of a declaration.
pub enum FnParam {
    /// The `self` receiver.
    Receiver,
    /// A typed parameter; `name` is `None` where its pattern is not a plain identifier.
    Typed { name: Option<String>, ty: ParamType },
}

/// A command declaration: its name, parameters, return type and asynchrony.
pub struct Declaration {
    pub name: String,
    pub params: Vec<FnParam>,
    pub return_shape: ReturnShape,
    pub is_async: bool,
}

/// A field of the argument aggregate: its canonical name, the position of the
/// parameter it comes from, and whether that parameter is a reference.
pub struct FieldArg {
    pub ident: String,
    pub position: usize,
    pub requires_lifetime: bool,
}

/// The argument aggregate of a command: its type name and its fields in order.
pub struct InvokeArgument {
    pub argument_name: String,
    pub fields: Vec<FieldArg>,
}

/// The command descriptor: what the host handler and the remote stub are made from.
pub struct InvokeCommand {
    pub name: String,
    /// Whether the stub needs the shared lifetime parameter of its reference fields.
    pub needs_lifetime: bool,
    pub invoke: Invoke,
    pub invoke_argument: InvokeArgument,
}

/// The marker of a host-injected parameter type, in lower case.
pub open spec fn host_marker() -> Seq<char> {
    seq!['t', 'a', 'u', 'r', 'i']
}

/// Whether a lower-cased segment holds the host marker.
pub open spec fn holds_marker(lowered: Seq<char>) -> bool {
    exists|k: int| occurs_at(lowered, k, host_marker())
}

/// Whether a type path names a host-injected type: one of its segments holds
/// the host marker in any case.
pub open spec fn is_host_path(segments: Seq<String>) -> bool {
    exists|i: int| 0 <= i < segments.len() && holds_marker(#[trigger] lower_of(segments[i]@))
}

/// The field that a parameter gives the argument aggregate: its canonical name
/// and whether it is a reference; `None` for the receiver, host-injected
/// parameters and patterns that are not plain identifiers.
pub open spec fn param_field(p: FnParam) -> Option<(Seq<char>, bool)> {
    match p {
        FnParam::Receiver => None,
        FnParam::Typed { name, ty } => {
            if ty matches ParamType::Path(segments) && is_host_path(segments@) {
                None
            } else {
                match name {
                    Some(n) => Some((snake_of(n@), ty is Reference)),
                    None => None,
                }
            }
        },
    }
}

/// The fields of the argument aggregate of a parameter list, in order: each
/// field's canonical name, the position of its parameter, and whether it is a
/// reference.
pub open spec fn kept_fields(params: Seq<FnParam>) -> Seq<(Seq<char>, int, bool)>
    decreases params.len(),
{
    if params.len() == 0 {
        Seq::empty()
    } else {
        let prev = kept_fields(params.drop_last());
        match param_field(params.last()) {
            Some((ident, lt)) => prev.push((ident, params.len() - 1, lt)),
            None => prev,
        }
    }
}

/// The view of a list of fields.
pub open spec fn fields_view(fields: Seq<FieldArg>) -> Seq<(Seq<char>, int, bool)> {
    fields.map_values(|f: FieldArg| (f.ident@, f.position as int, f.requires_lifetime))
}

/// The type name of a command's argument aggregate.
pub open spec fn argument_name_of(name: Seq<char>) -> Seq<char> {
    pascal_of(name) + seq!['A', 'r', 'g', 's']
}

/// Whether a lower-cased text holds the host marker.
pub fn mentions_tauri(lowered: &str) -> (r: bool)
    ensures
        r == holds_marker(lowered@),
{
    proof {
        reveal_strlit("tauri");
        assert("tauri"@ =~= host_marker());
    }
    contains_text(lowered, "tauri")
}

/// Whether a type path names a host-injected type.
pub fn any_tauri(segments: &Vec<String>) -> (r: bool)
    ensures
        r == is_host_path(segments@),
{
    let mut i: usize = 0;
    while i < segments.len()
        invariant
            0 <= i <= segments@.len(),
            forall|j: int| 0 <= j < i ==> !holds_marker(#[trigger] lower_of(segments@[j]@)),
        decreases segments.len() - i,
    {
        let lowered = to_lower_case(segments[i].as_str());
        if mentions_tauri(lowered.as_str()) {
            return true;
        }
        i = i + 1;
    }
    false
}

/// Builds the descriptor of a declaration: host-injected parameters, the
/// receiver and non-identifier patterns are dropped, the remaining parameters
/// become the argument aggregate's fields in order under their snake-case
/// names, a reference field asks for the shared lifetime parameter, and the
/// call shape comes from the classifier. An unsupported return type fails.
pub fn prepare(decl: &Declaration) -> (r: Result<InvokeCommand, ShapeError>)
    ensures
        category_of(decl.return_shape, decl.is_async) is None <==> r is Err,
        r matches Ok(c) ==> {
            &&& Some(c.invoke) == category_of(decl.return_shape, decl.is_async)
            &&& c.name@ == decl.name@
            &&& c.invoke_argument.argument_name@ == argument_name_of(decl.name@)
            &&& fields_view(c.invoke_argument.fields@) == kept_fields(decl.params@)
            &&& c.needs_lifetime == exists|i: int|
                0 <= i < kept_fields(decl.params@).len() && (#[trigger] kept_fields(
                    decl.params@,
                )[i]).2
        },
{
    let invoke = match determine_invoke(&decl.return_shape, decl.is_async) {
        Ok(c) => c,
        Err(e) => {
            return Err(e);
        },
    };
    let mut fields: Vec<FieldArg> = Vec::new();
    let mut needs_lifetime = false;
    let mut i: usize = 0;
    while i < decl.params.len()
        invariant
            0 <= i <= decl.params@.len(),
            fields_view(fields@) == kept_fields(decl.params@.subrange(0, i as int)),
            needs_lifetime == exists|j: int|
                0 <= j < fields@.len() && (#[trigger] fields_view(fields@)[j]).2,
        decreases decl.params.len() - i,
    {
        let ghost before = fields@;
        proof {
            assert(decl.params@.subrange(0, i + 1).drop_last() =~= decl.params@.subrange(
                0,
                i as int,
            ));
        }
        match &decl.params[i] {
            FnParam::Receiver => {},
            FnParam::Typed { name, ty } => {
                let injected = match ty {
                    ParamType::Path(segments) => any_tauri(segments),
                    _ => false,
                };
                if !injected {
                    match name {
                        Some(n) => {
                            let lt = match ty {
                                ParamType::Reference => true,
                                _ => false,
                            };
                            let ident = to_snake_case(n.as_str());
                            fields.push(FieldArg { ident, position: i, requires_lifetime: lt });
                            proof {
                                assert(fields_view(fields@) =~= fields_view(before).push(
                                    (snake_of(n@), i as int, lt),
                                ));
                                if lt {
                                    assert(fields_view(fields@)[before.len() as int].2);
                                }
                            }
                            let ghost had = needs_lifetime;
                            needs_lifetime = needs_lifetime || lt;
                            proof {
                                let nv = fields_view(fields@);
                                let ov = fields_view(before);
                                if had {
                                    let j = choose|j: int| 0 <= j < ov.len() && (#[trigger] ov[j]).2;
                                    assert(nv[j] == ov[j]);
                                }
                                if exists|j: int| 0 <= j < nv.len() && (#[trigger] nv[j]).2 {
                                    let j = choose|j: int| 0 <= j < nv.len() && (#[trigger] nv[j]).2;
                                    if j < ov.len() {
                                        assert(nv[j] == ov[j]);
                                    }
                                }
                            }
                        },
                        None => {},
                    }
                }
            },
        }
        i = i + 1;
    }
    assert(decl.params@.subrange(0, decl.params@.len() as int) =~= decl.params@);
    let argument_name = to_pascal_case(decl.name.as_str()).concat("Args");
    proof {
        reveal_strlit("Args");
        assert("Args"@ =~= seq!['A', 'r', 'g', 's']);
    }
    Ok(
        InvokeCommand {
            name: decl.name.clone(),
            needs_lifetime,
            invoke,
            invoke_argument: InvokeArgument { argument_name, fields },
        },
    )
}

} // verus!
