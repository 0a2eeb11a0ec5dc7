//! The bootstrap fetch: a read command per host-managed field, and the
//! remote binding that reads the current value before it subscribes.

use vstd::prelude::*;

verus! {

/// Why the host cannot answer a read of a field's current value.
#[derive(Debug)]
pub enum EventError {
    /// The aggregate, named here, was never attached to the host context.
    StateIsNotRegistered(String),
}

/// The name of the read command of field tag `field_name` of aggregate `parent`.
pub open spec fn get_command_name_of(parent: Seq<char>, field_name: Seq<char>) -> Seq<char> {
    seq!['g', 'e', 't', '_'] + parent + seq!['_'] + field_name
}

/// The name of the read command of field tag `field_name` of aggregate `parent`:
/// `get_<Parent>_<Field>`.
pub fn get_command_name(parent: &str, field_name: &str) -> (r: String)
    ensures
        r@ == get_command_name_of(parent@, field_name@),
{
    proof {
        reveal_strlit("get_");
        reveal_strlit("_");
        assert("get_"@ =~= seq!['g', 'e', 't', '_']);
        assert("_"@ =~= seq!['_']);
    }
    String::from_str("get_").concat(parent).concat("_").concat(field_name)
}

/// The host's answer to a read command: the field's current value, read from
/// the aggregate where the host context holds one, or an error naming the
/// aggregate.
pub fn read_field<T>(value: Option<T>, parent: &str) -> (r: Result<T, EventError>)
    ensures
        value matches Some(v) ==> r == Ok::<T, EventError>(v),
        value is None ==> (r matches Err(EventError::StateIsNotRegistered(p)) && p@ == parent@),
{
    match value {
        Some(v) => Ok(v),
        None => Err(EventError::StateIsNotRegistered(String::from_str(parent))),
    }
}

/// How a reactive binding starts: the value it shows first, and whether it
/// reads the host's current value before it subscribes.
pub struct BootstrapPlan<T> {
    pub shown: T,
    pub fetch_first: bool,
}

/// Starts a binding: an explicit initial value is shown and nothing is read;
/// without one the fallback is shown until the read returns.
pub fn bootstrap_start<T>(initial: Option<T>, fallback: T) -> (r: BootstrapPlan<T>)
    ensures
        initial matches Some(v) ==> r.shown == v && !r.fetch_first,
        initial is None ==> r.shown == fallback && r.fetch_first,
{
    match initial {
        Some(v) => BootstrapPlan { shown: v, fetch_first: false },
        None => BootstrapPlan { shown: fallback, fetch_first: true },
    }
}

/// The value a binding shows once the read returned: the value read, or what
/// it showed before where the read failed.
pub fn bootstrap_fetched<T>(shown: T, reply: Result<T, EventError>) -> (r: T)
    ensures
        reply matches Ok(v) ==> r == v,
        reply is Err ==> r == shown,
{
    match reply {
        Ok(v) => v,
        Err(_) => shown,
    }
}

} // verus!
