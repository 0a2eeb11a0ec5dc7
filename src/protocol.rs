//! The emit/listen protocol over the field descriptors: what the host pushes,
//! in which order, and what a remote subscription hands to its callback.

use vstd::prelude::*;

use crate::event::EventStruct;

verus! {

/// One push to the transport: a field's canonical event name and its value.
pub struct Emission<'a, V> {
    pub event: &'a String,
    pub payload: &'a V,
}

/// What the host does next while emitting: push one field, or stop with a result.
#[derive(Debug)]
pub enum EmitStep<E> {
    /// Push the field at this position.
    Push(usize),
    /// Emitting is over, with this result.
    Finished(Result<(), E>),
}

/// The push of field `field` of an aggregate holding `values` (one per field,
/// in declaration order): the field's event name and its current value.
pub fn emit<'a, V>(desc: &'a EventStruct, values: &'a Vec<V>, field: usize) -> (r: Emission<'a, V>)
    requires
        field < desc.fields@.len(),
        values@.len() == desc.fields@.len(),
    ensures
        r.event@ == desc.fields@[field as int].event_name@,
        *r.payload == values@[field as int],
{
    Emission { event: &desc.fields[field].event_name, payload: &values[field] }
}

/// Starts emitting every field: the first push, or the end where there are no fields.
pub fn emit_all_start<E>(desc: &EventStruct) -> (r: EmitStep<E>)
    ensures
        desc.fields@.len() > 0 ==> r matches EmitStep::Push(0),
        desc.fields@.len() == 0 ==> r matches EmitStep::Finished(Ok(())),
{
    if desc.fields.len() > 0 {
        EmitStep::Push(0)
    } else {
        EmitStep::Finished(Ok(()))
    }
}

/// The step after the push of field `pushed` came back with `outcome`: the
/// first failure ends emitting with that failure; otherwise the next field in
/// declaration order, or success after the last.
pub fn emit_all_next<E>(desc: &EventStruct, pushed: usize, outcome: Result<(), E>) -> (r: EmitStep<E>)
    requires
        pushed < desc.fields@.len(),
    ensures
        outcome matches Err(e) ==> r == EmitStep::Finished(Err::<(), E>(e)),
        outcome is Ok && pushed + 1 < desc.fields@.len() ==> r == EmitStep::<E>::Push(
            (pushed + 1) as usize,
        ),
        outcome is Ok && pushed + 1 == desc.fields@.len() ==> r == EmitStep::Finished(
            Ok::<(), E>(()),
        ),
{
    match outcome {
        Err(e) => EmitStep::Finished(Err(e)),
        Ok(()) => {
            if pushed < desc.fields.len() - 1 {
                EmitStep::Push(pushed + 1)
            } else {
                EmitStep::Finished(Ok(()))
            }
        },
    }
}

/// Assigns `value` to field `field`, then asks for that field's push. The
/// assignment stands whatever the push brings: there is no rollback.
pub fn update<V, E>(desc: &EventStruct, values: &mut Vec<V>, field: usize, value: V) -> (r: EmitStep<E>)
    requires
        field < desc.fields@.len(),
        old(values)@.len() == desc.fields@.len(),
    ensures
        final(values)@ == old(values)@.update(field as int, value),
        r == EmitStep::<E>::Push(field),
{
    values.set(field, value);
    EmitStep::Push(field)
}

/// The envelope of an event as the transport delivers it.
#[derive(Debug)]
pub struct Payload<T> {
    pub payload: T,
    pub event: String,
}

/// Why registering a subscription failed.
#[derive(Debug)]
pub enum ListenError<D> {
    /// The transport rejected the registration.
    PromiseFailed(D),
    /// The transport's answer was not a callable detach capability.
    NotAFunction(D),
}

/// The state of a subscription: its event name and whether it is attached.
pub struct ListenView {
    pub event: Seq<char>,
    pub attached: bool,
}

/// A subscription to one event: its event name, the transport's detach
/// capability, and whether it is still attached.
pub struct ListenHandle<D> {
    event: String,
    detach_fn: D,
    attached: bool,
}

/// What a subscription hands to its callback for one delivered envelope: nothing
/// once detached; else the payload, or the fallback where it did not decode.
pub open spec fn delivered<T>(h: ListenView, decoded: Result<Payload<T>, String>, fallback: T) -> Option<T> {
    if !h.attached {
        None
    } else {
        match decoded {
            Ok(p) => Some(p.payload),
            Err(_) => Some(fallback),
        }
    }
}

impl<D> View for ListenHandle<D> {
    type V = ListenView;

    closed spec fn view(&self) -> ListenView {
        ListenView { event: self.event@, attached: self.attached }
    }
}

impl<D> ListenHandle<D> {
    /// The transport's detach capability.
    pub closed spec fn spec_detach_fn(&self) -> D {
        self.detach_fn
    }

    /// Turns the transport's answer to a registration into a subscription: a
    /// rejection, or an answer that is not callable, is an error.
    pub fn register(event: &str, reply: Result<D, D>, callable: bool) -> (r: Result<Self, ListenError<D>>)
        ensures
            reply matches Err(v) ==> (r matches Err(ListenError::PromiseFailed(w)) && w == v),
            !callable ==> (reply matches Ok(v) ==> (r matches Err(ListenError::NotAFunction(w))
                && w == v)),
            callable ==> (reply matches Ok(v) ==> (r matches Ok(h) && h@ == (ListenView {
                event: event@,
                attached: true,
            }) && h.spec_detach_fn() == v)),
    {
        match reply {
            Err(v) => Err(ListenError::PromiseFailed(v)),
            Ok(v) => {
                if callable {
                    Ok(ListenHandle { event: String::from_str(event), detach_fn: v, attached: true })
                } else {
                    Err(ListenError::NotAFunction(v))
                }
            },
        }
    }

    /// The transport's detach capability.
    pub fn detach_fn(&self) -> (r: &D)
        ensures
            *r == self.spec_detach_fn(),
    {
        &self.detach_fn
    }

    /// The event name of the subscription.
    pub fn event(&self) -> (r: &String)
        ensures
            r@ == self@.event,
    {
        &self.event
    }

    /// What the callback receives for one delivered envelope, if anything.
    pub fn deliver<T>(&self, decoded: Result<Payload<T>, String>, fallback: T) -> (r: Option<T>)
        ensures
            r == delivered(self@, decoded, fallback),
    {
        if !self.attached {
            None
        } else {
            match decoded {
                Ok(p) => Some(p.payload),
                Err(_) => Some(fallback),
            }
        }
    }

    /// Detaches the subscription: true exactly on the first call, when the
    /// caller must invoke the detach capability; later calls do nothing.
    pub fn detach_listen(&mut self) -> (r: bool)
        ensures
            r == old(self)@.attached,
            final(self)@ == (ListenView { attached: false, ..old(self)@ }),
            final(self).spec_detach_fn() == old(self).spec_detach_fn(),
    {
        let was = self.attached;
        self.attached = false;
        was
    }
}

/// An attached subscription hands each decoded envelope's payload to its
/// callback exactly once; once detached, it hands nothing on, whatever arrives.
pub proof fn lemma_detach_stops_delivery<T>(
    h: ListenView,
    decoded: Result<Payload<T>, String>,
    fallback: T,
)
    ensures
        h.attached && decoded is Ok ==> delivered(h, decoded, fallback) == Some(decoded->Ok_0.payload),
        delivered(ListenView { attached: false, ..h }, decoded, fallback) is None,
{
}

} // verus!
