//! The invocation classifier: which of four call shapes a declaration takes, and
//! what the remote stub of each shape does with the transport.

use vstd::prelude::*;

use crate::text::{contains_text, holds_text};

verus! {

/// The four call shapes of a command.
#[derive(Clone, Copy, Debug, PartialEq, Eq, Structural)]
pub enum Invoke {
    /// No return value, not asynchronous: send and do not wait.
    Empty,
    /// No return value, asynchronous: send, wait for completion, drop the reply.
    AsyncEmpty,
    /// A named return type that is not result-shaped: send, wait, decode the value.
    Async,
    /// A result-shaped return type: send, wait, decode the success or the failure branch.
    AsyncResult,
}

/// The declared return type of a command, as far as the classifier reads it.
pub enum ReturnShape {
    /// No return type.
    Unit,
    /// A named type, given by the segments of its path (`std::result::Result`).
    Path(Vec<String>),
    /// Any other type (a tuple, a reference, an `impl` type), with its source text.
    Other(String),
}

/// A declaration whose shape cannot be carried over the transport.
#[derive(Debug)]
pub enum ShapeError {
    /// The return type is neither absent nor a named type.
    UnsupportedReturn(String),
}

/// The segment name that marks a result-shaped return type.
pub open spec fn result_marker() -> Seq<char> {
    seq!['R', 'e', 's', 'u', 'l', 't']
}

/// A path is result-shaped when one of its segments holds the result marker
/// (`Result`, `MyResult`, `io::Result`).
pub open spec fn is_result_path(segments: Seq<Seq<char>>) -> bool {
    exists|i: int| 0 <= i < segments.len() && holds_text(#[trigger] segments[i], result_marker())
}

/// The view of a path: the text of each segment.
pub open spec fn segments_view(segments: Seq<String>) -> Seq<Seq<char>> {
    segments.map_values(|s: String| s@)
}

/// The call shape of a declaration, or `None` where the return type is unsupported.
pub open spec fn category_of(ret: ReturnShape, is_async: bool) -> Option<Invoke> {
    match ret {
        ReturnShape::Unit => Some(if is_async { Invoke::AsyncEmpty } else { Invoke::Empty }),
        ReturnShape::Path(segments) => Some(
            if is_result_path(segments_view(segments@)) {
                Invoke::AsyncResult
            } else {
                Invoke::Async
            },
        ),
        ReturnShape::Other(_) => None,
    }
}

/// Whether one of the segments of a type path holds the result marker.
pub fn is_result(segments: &Vec<String>) -> (r: bool)
    ensures
        r == is_result_path(segments_view(segments@)),
{
    proof {
        reveal_strlit("Result");
        assert("Result"@ =~= result_marker());
    }
    let mut i: usize = 0;
    while i < segments.len()
        invariant
            0 <= i <= segments.len(),
            "Result"@ == result_marker(),
            forall|j: int| 0 <= j < i ==> !holds_text(segments@[j]@, result_marker()),
        decreases segments.len() - i,
    {
        if contains_text(segments[i].as_str(), "Result") {
            assert(holds_text(segments_view(segments@)[i as int], result_marker()));
            return true;
        }
        i = i + 1;
    }
    assert forall|j: int| 0 <= j < segments.len() implies !holds_text(
        segments_view(segments@)[j],
        result_marker(),
    ) by {}
    false
}

/// Classifies a declaration by its return type and its asynchrony.
pub fn determine_invoke(ret: &ReturnShape, is_async: bool) -> (r: Result<Invoke, ShapeError>)
    ensures
        category_of(*ret, is_async) matches Some(c) ==> r == Ok::<Invoke, ShapeError>(c),
        category_of(*ret, is_async) is None <==> r is Err,
{
    match ret {
        ReturnShape::Unit => {
            if is_async {
                Ok(Invoke::AsyncEmpty)
            } else {
                Ok(Invoke::Empty)
            }
        },
        ReturnShape::Path(segments) => {
            if is_result(segments) {
                Ok(Invoke::AsyncResult)
            } else {
                Ok(Invoke::Async)
            }
        },
        ReturnShape::Other(text) => Err(ShapeError::UnsupportedReturn(text.clone())),
    }
}

/// The transport primitive that a remote stub calls.
#[derive(Clone, Copy, Debug, PartialEq, Eq, Structural)]
pub enum Binding {
    /// Hands the call to the scheduler and returns at once.
    FireAndForget,
    /// Waits for the call to complete and drops the reply.
    Wait,
    /// Waits for the reply and decodes it as a value.
    Return,
    /// Waits for the reply and decodes the success or the failure branch.
    Catch,
}

/// One step that a remote stub takes, in order.
#[derive(Clone, Copy, Debug, PartialEq, Eq, Structural)]
pub enum StubStep {
    /// One call of the transport.
    Send,
    /// One suspension until the transport replies.
    Await,
    /// Decoding the reply as a value.
    DecodeValue,
    /// Decoding the reply as a success or a failure.
    DecodeBranches,
}

/// The call expression at the heart of a remote stub.
pub struct StubCall {
    pub binding: Binding,
    pub command: String,
    pub awaited: bool,
}

/// How many steps of a stub are `step`.
pub open spec fn count_steps(steps: Seq<StubStep>, step: StubStep) -> nat
    decreases steps.len(),
{
    if steps.len() == 0 {
        0
    } else {
        count_steps(steps.drop_last(), step) + if steps.last() == step {
            1nat
        } else {
            0nat
        }
    }
}

impl Invoke {
    /// Whether the stub of this shape waits for the transport's reply.
    pub open spec fn awaits(self) -> bool {
        self != Invoke::Empty
    }

    pub open spec fn spec_binding(self) -> Binding {
        match self {
            Invoke::Empty => Binding::FireAndForget,
            Invoke::AsyncEmpty => Binding::Wait,
            Invoke::Async => Binding::Return,
            Invoke::AsyncResult => Binding::Catch,
        }
    }

    /// The steps of the stub of this shape.
    pub open spec fn spec_steps(self) -> Seq<StubStep> {
        match self {
            Invoke::Empty => seq![StubStep::Send],
            Invoke::AsyncEmpty => seq![StubStep::Send, StubStep::Await],
            Invoke::Async => seq![StubStep::Send, StubStep::Await, StubStep::DecodeValue],
            Invoke::AsyncResult => seq![StubStep::Send, StubStep::Await, StubStep::DecodeBranches],
        }
    }

    /// Whether the generated stub is asynchronous.
    pub fn as_async(&self) -> (r: bool)
        ensures
            r == self.awaits(),
    {
        match self {
            Invoke::Empty => false,
            _ => true,
        }
    }

    /// The transport primitive that the stub of this shape calls.
    pub fn binding(&self) -> (r: Binding)
        ensures
            r == self.spec_binding(),
    {
        match self {
            Invoke::Empty => Binding::FireAndForget,
            Invoke::AsyncEmpty => Binding::Wait,
            Invoke::Async => Binding::Return,
            Invoke::AsyncResult => Binding::Catch,
        }
    }

    /// The call expression of the stub for command `cmd_name`.
    pub fn as_expr(&self, cmd_name: String) -> (r: StubCall)
        ensures
            r.binding == self.spec_binding(),
            r.command@ == cmd_name@,
            r.awaited == self.awaits(),
            count_steps(self.spec_steps(), StubStep::Send) == 1,
            r.awaited <==> count_steps(self.spec_steps(), StubStep::Await) == 1,
            !r.awaited <==> count_steps(self.spec_steps(), StubStep::Await) == 0,
    {
        proof {
            lemma_stub_calls_once(*self);
        }
        StubCall { binding: self.binding(), command: cmd_name, awaited: self.as_async() }
    }

    /// The steps of the stub of this shape.
    pub fn steps(&self) -> (r: Vec<StubStep>)
        ensures
            r@ == self.spec_steps(),
    {
        match self {
            Invoke::Empty => vec![StubStep::Send],
            Invoke::AsyncEmpty => vec![StubStep::Send, StubStep::Await],
            Invoke::Async => vec![StubStep::Send, StubStep::Await, StubStep::DecodeValue],
            Invoke::AsyncResult => vec![StubStep::Send, StubStep::Await, StubStep::DecodeBranches],
        }
    }
}

/// Every call shape's stub calls the transport exactly once, and suspends for
/// the reply exactly when the shape awaits: the fire-and-forget stub never does.
pub proof fn lemma_stub_calls_once(c: Invoke)
    ensures
        count_steps(c.spec_steps(), StubStep::Send) == 1,
        count_steps(c.spec_steps(), StubStep::Await) == if c.awaits() {
            1nat
        } else {
            0nat
        },
{
    reveal_with_fuel(count_steps, 4);
    let s = c.spec_steps();
    match c {
        Invoke::Empty => {
            assert(s.drop_last() =~= Seq::<StubStep>::empty());
        },
        Invoke::AsyncEmpty => {
            assert(s.drop_last() =~= seq![StubStep::Send]);
            assert(s.drop_last().drop_last() =~= Seq::<StubStep>::empty());
        },
        _ => {
            assert(s.drop_last().drop_last() =~= seq![StubStep::Send]);
            assert(s.drop_last().drop_last().drop_last() =~= Seq::<StubStep>::empty());
        },
    }
}

} // verus!
