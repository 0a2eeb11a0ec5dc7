//! What a remote stub makes of the transport's reply: the tri-state invoke
//! outcome, and the value that each call shape hands to its caller.

use vstd::prelude::*;

use crate::text::{occurs_at, starts_at};

verus! {

/// The reply to one call, classified.
#[derive(Debug)]
pub enum InvokeOutcome<V, F> {
    /// The host handled the call and replied with a value.
    Success(V),
    /// The host handled the call and replied on its failure channel.
    ApplicationError(F),
    /// The host has no handler of that name.
    NotRegistered,
}

/// The text before the command name in the bridge's not-registered diagnostic.
pub open spec fn diagnostic_head() -> Seq<char> {
    seq!['c', 'o', 'm', 'm', 'a', 'n', 'd', ' ']
}

/// The text after the command name in the bridge's not-registered diagnostic.
pub open spec fn diagnostic_tail() -> Seq<char> {
    seq![' ', 'n', 'o', 't', ' ', 'f', 'o', 'u', 'n', 'd']
}

/// A character of a command name in the diagnostic: an ASCII letter, digit or `_`.
pub open spec fn is_word_char(c: char) -> bool {
    ('a' <= c && c <= 'z') || ('A' <= c && c <= 'Z') || ('0' <= c && c <= '9') || c == '_'
}

/// The diagnostic `command <name> not found` stands in `s` from `i`, with the
/// name ending at `j`.
pub open spec fn diagnostic_at(s: Seq<char>, i: int, j: int) -> bool {
    &&& occurs_at(s, i, diagnostic_head())
    &&& i + diagnostic_head().len() < j
    &&& forall|k: int| i + diagnostic_head().len() <= k < j ==> #[trigger] is_word_char(s[k])
    &&& occurs_at(s, j, diagnostic_tail())
}

/// Whether a rejection text holds the bridge's not-registered diagnostic anywhere.
pub open spec fn reports_not_registered(s: Seq<char>) -> bool {
    exists|i: int, j: int| diagnostic_at(s, i, j)
}

fn word_char(c: char) -> (r: bool)
    ensures
        r == is_word_char(c),
{
    ('a' <= c && c <= 'z') || ('A' <= c && c <= 'Z') || ('0' <= c && c <= '9') || c == '_'
}

/// Whether a rejection text holds the not-registered diagnostic
/// `command <name> not found`, where the name is one or more word characters.
pub fn is_not_registered(s: &str) -> (r: bool)
    ensures
        r == reports_not_registered(s@),
{
    proof {
        reveal_strlit("command ");
        reveal_strlit(" not found");
        assert("command "@ =~= diagnostic_head());
        assert(" not found"@ =~= diagnostic_tail());
    }
    let n = s.unicode_len();
    let mut i: usize = 0;
    while i < n
        invariant
            n == s@.len(),
            0 <= i <= n,
            "command "@ == diagnostic_head(),
            " not found"@ == diagnostic_tail(),
            forall|a: int, b: int| 0 <= a < i ==> !diagnostic_at(s@, a, b),
        decreases n - i,
    {
        if starts_at(s, n, i, "command ") {
            let start: usize = i + 8;
            let mut w: usize = start;
            while w < n && word_char(s.get_char(w))
                invariant
                    n == s@.len(),
                    start == i + 8,
                    start <= w <= n,
                    "command "@ == diagnostic_head(),
                    " not found"@ == diagnostic_tail(),
                    forall|k: int| start <= k < w ==> #[trigger] is_word_char(s@[k]),
                decreases n - w,
            {
                w = w + 1;
            }
            if w > start && starts_at(s, n, w, " not found") {
                assert(diagnostic_at(s@, i as int, w as int));
                return true;
            }
            assert forall|b: int| !diagnostic_at(s@, i as int, b) by {
                if diagnostic_at(s@, i as int, b) {
                    if b < w {
                        assert(s@.subrange(b, b + 10)[0] == ' ');
                        assert(is_word_char(s@[b]));
                    } else if b > w {
                        assert(w < n);
                        assert(is_word_char(s@[w as int]));
                    } else {
                        assert(w > start);
                    }
                }
            }
        }
        i = i + 1;
    }
    false
}

/// Classifies the transport's reply to one call: a rejection whose text holds the
/// not-registered diagnostic means that the host has no such handler; any other
/// rejection is the handler's own failure.
pub fn classify_reply<V>(reply: Result<V, V>, rejection_text: Option<&str>) -> (r: InvokeOutcome<
    V,
    V,
>)
    ensures
        reply matches Ok(v) ==> r == InvokeOutcome::<V, V>::Success(v),
        reply matches Err(e) ==> r == if rejection_text matches Some(t) && reports_not_registered(
            t@,
        ) {
            InvokeOutcome::<V, V>::NotRegistered
        } else {
            InvokeOutcome::<V, V>::ApplicationError(e)
        },
{
    match reply {
        Ok(v) => InvokeOutcome::Success(v),
        Err(e) => {
            match rejection_text {
                Some(t) => {
                    if is_not_registered(t) {
                        InvokeOutcome::NotRegistered
                    } else {
                        InvokeOutcome::ApplicationError(e)
                    }
                },
                None => InvokeOutcome::ApplicationError(e),
            }
        },
    }
}

/// What a value-returning stub makes of the outcome: the decoded reply; the
/// caller's fallback where the handler failed or no handler is registered; and
/// the codec's message where the reply did not decode, which fails the call.
pub fn settle_value<T, F>(outcome: InvokeOutcome<Result<T, String>, F>, fallback: T) -> (r: Result<
    T,
    String,
>)
    ensures
        r == match outcome {
            InvokeOutcome::Success(Ok(t)) => Ok(t),
            InvokeOutcome::Success(Err(why)) => Err(why),
            _ => Ok::<T, String>(fallback),
        },
{
    match outcome {
        InvokeOutcome::Success(Ok(t)) => Ok(t),
        InvokeOutcome::Success(Err(why)) => Err(why),
        _ => Ok(fallback),
    }
}

/// What a fallible stub makes of the outcome: the decoded success or failure;
/// `Ok(fallback)` where no handler is registered; and the codec's message where
/// either reply did not decode, which fails the call.
pub fn settle_fallible<T, E>(
    outcome: InvokeOutcome<Result<T, String>, Result<E, String>>,
    fallback: T,
) -> (r: Result<Result<T, E>, String>)
    ensures
        r == match outcome {
            InvokeOutcome::Success(Ok(t)) => Ok(Ok::<T, E>(t)),
            InvokeOutcome::Success(Err(why)) => Err(why),
            InvokeOutcome::ApplicationError(Ok(e)) => Ok(Err(e)),
            InvokeOutcome::ApplicationError(Err(why)) => Err(why),
            InvokeOutcome::NotRegistered => Ok::<Result<T, E>, String>(Ok(fallback)),
        },
{
    match outcome {
        InvokeOutcome::Success(Ok(t)) => Ok(Ok(t)),
        InvokeOutcome::Success(Err(why)) => Err(why),
        InvokeOutcome::ApplicationError(Ok(e)) => Ok(Err(e)),
        InvokeOutcome::ApplicationError(Err(why)) => Err(why),
        InvokeOutcome::NotRegistered => Ok(Ok(fallback)),
    }
}

} // verus!
