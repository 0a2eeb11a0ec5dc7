//! A sample set of host-side command handlers, one of each call shape.

use vstd::prelude::*;

use crate::model::TestState;

verus! {

/// A unit-only state value passed to a command.
#[derive(Clone, Copy, Debug, PartialEq, Eq, Structural)]
pub enum State {
    OwO,
}

/// The greeting for `name`.
pub open spec fn greeting(name: Seq<char>) -> Seq<char> {
    "Hello, "@ + name + "! You've been greeted from Rust!"@
}

/// The items of `items` joined by `,`.
pub open spec fn joined(items: Seq<Seq<char>>) -> Seq<char>
    decreases items.len(),
{
    if items.len() == 0 {
        Seq::empty()
    } else if items.len() == 1 {
        items[0]
    } else {
        joined(items.drop_last()) + seq![','] + items.last()
    }
}

/// A command without arguments or result.
pub fn empty_invoke() {
}

/// A command with one argument and no result.
pub fn underscore_invoke(_invoke: u8) {
}

/// Greets `name_to_greet`.
pub fn greet(name_to_greet: &str) -> (r: String)
    ensures
        r@ == greeting(name_to_greet@),
{
    String::from_str("Hello, ").concat(name_to_greet).concat("! You've been greeted from Rust!")
}

/// The labels of the open windows, joined by `,`.
pub fn invoke_with_return(labels: &Vec<String>) -> (r: String)
    ensures
        r@ == joined(labels@.map_values(|s: String| s@)),
{
    let ghost t = labels@.map_values(|s: String| s@);
    let mut out = String::new();
    let mut i: usize = 0;
    while i < labels.len()
        invariant
            0 <= i <= labels@.len(),
            t == labels@.map_values(|s: String| s@),
            out@ == joined(t.subrange(0, i as int)),
        decreases labels.len() - i,
    {
        proof {
            reveal_strlit(",");
            assert(t.subrange(0, i + 1).drop_last() =~= t.subrange(0, i as int));
            if i == 0 {
                assert(t.subrange(0, 1) =~= seq![t[0]]);
            }
        }
        if i > 0 {
            out.append(",");
        }
        out.append(labels[i].as_str());
        i = i + 1;
    }
    assert(t.subrange(0, t.len() as int) =~= t);
    out
}

/// A command returning a list.
pub fn invoke_with_return_vec() -> (r: Vec<i32>)
    ensures
        r@ == seq![69i32, 420i32],
{
    vec![69, 420]
}

/// A command whose host-injected window argument is not part of its arguments.
pub fn invoke_with_window_as_argument() -> (r: i32)
    ensures
        r == 420,
{
    420
}

/// A fallible command: `Ok(69)` when switched on, else an error text.
pub fn result_test(switch_on: bool) -> (r: Result<i32, String>)
    ensures
        switch_on ==> r == Ok::<i32, String>(69),
        !switch_on ==> (r matches Err(e) && e@ == "oh nyo"@),
{
    if switch_on {
        Ok(69)
    } else {
        Err(String::from_str("oh nyo"))
    }
}

/// A fallible command over a state value that always succeeds.
pub fn invoke_result_tauri(_state: State) -> (r: Result<(), ()>)
    ensures
        r == Ok::<(), ()>(()),
{
    Ok(())
}

/// Flips `bar` and sets `foo` to `"bar"` where `bar` was set, else to `"foo"`;
/// returns the positions of the fields to push, in order: `foo`, then `bar`
/// (the order of `TestState::declaration`).
pub fn emit(state: &mut TestState) -> (r: Vec<usize>)
    ensures
        r@ == seq![0usize, 1usize],
        final(state).bar == !old(state).bar,
        final(state).foo@ == if old(state).bar {
            "bar"@
        } else {
            "foo"@
        },
{
    let was = state.bar;
    state.foo = if was {
        String::from_str("bar")
    } else {
        String::from_str("foo")
    };
    state.bar = !was;
    vec![0, 1]
}

} // verus!
