//! Character-level helpers over the text of names and diagnostics.

use vstd::prelude::*;

verus! {

/// Whether `pat` stands in `s` at position `i`.
pub open spec fn occurs_at(s: Seq<char>, i: int, pat: Seq<char>) -> bool {
    0 <= i && i + pat.len() <= s.len() && s.subrange(i, i + pat.len()) == pat
}

/// Whether `pat` stands in `s` at position `i`; `n` is the length of `s`.
pub fn starts_at(s: &str, n: usize, i: usize, pat: &str) -> (r: bool)
    requires
        n == s@.len(),
    ensures
        r == occurs_at(s@, i as int, pat@),
{
    let m = pat.unicode_len();
    if i > n || m > n - i {
        return false;
    }
    let mut k: usize = 0;
    while k < m
        invariant
            m == pat@.len(),
            n == s@.len(),
            i + m <= n,
            0 <= k <= m,
            forall|j: int| 0 <= j < k ==> s@[i + j] == pat@[j],
        decreases m - k,
    {
        if s.get_char(i + k) != pat.get_char(k) {
            assert(s@.subrange(i as int, i + m)[k as int] != pat@[k as int]);
            return false;
        }
        k = k + 1;
    }
    assert(s@.subrange(i as int, i + m) =~= pat@);
    true
}

/// Whether `pat` stands somewhere in `s`.
pub open spec fn holds_text(s: Seq<char>, pat: Seq<char>) -> bool {
    exists|k: int| occurs_at(s, k, pat)
}

/// Whether `pat` stands somewhere in `s`.
pub fn contains_text(s: &str, pat: &str) -> (r: bool)
    ensures
        r == holds_text(s@, pat@),
{
    let n = s.unicode_len();
    let mut k: usize = 0;
    while k < n
        invariant
            n == s@.len(),
            forall|j: int| 0 <= j < k ==> !occurs_at(s@, j, pat@),
        decreases n - k,
    {
        if starts_at(s, n, k, pat) {
            return true;
        }
        k = k + 1;
    }
    if starts_at(s, n, n, pat) {
        return true;
    }
    assert forall|j: int| !occurs_at(s@, j, pat@) by {
        if j > n {
            assert(j + pat@.len() > s@.len());
        }
    }
    false
}

/// `a` and `b` agree on their first `k` characters.
pub open spec fn agree_upto(a: Seq<char>, b: Seq<char>, k: int) -> bool {
    0 <= k <= a.len() && k <= b.len() && forall|i: int| 0 <= i < k ==> a[i] == b[i]
}

/// `k` is where `a` first falls before `b` in lexicographic order.
pub open spec fn lt_at(a: Seq<char>, b: Seq<char>, k: int) -> bool {
    &&& agree_upto(a, b, k)
    &&& k < b.len()
    &&& (k == a.len() || a[k] < b[k])
}

/// Lexicographic order on texts, by character: `a` is a proper prefix of `b`,
/// or has the smaller character where they first differ.
pub open spec fn text_lt(a: Seq<char>, b: Seq<char>) -> bool {
    exists|k: int| lt_at(a, b, k)
}

/// No text precedes itself.
pub proof fn lemma_text_lt_irreflexive(a: Seq<char>)
    ensures
        !text_lt(a, a),
{
}

/// Lexicographic order is transitive.
pub proof fn lemma_text_lt_transitive(a: Seq<char>, b: Seq<char>, c: Seq<char>)
    requires
        text_lt(a, b),
        text_lt(b, c),
    ensures
        text_lt(a, c),
{
    let k1 = choose|k: int| lt_at(a, b, k);
    let k2 = choose|k: int| lt_at(b, c, k);
    if k1 <= k2 {
        assert(lt_at(a, c, k1));
    } else {
        assert(lt_at(a, c, k2));
    }
}

/// Compares two texts in lexicographic order: negative where `a` comes first,
/// zero where they are equal, positive where `b` comes first.
pub fn compare_text(a: &str, b: &str) -> (r: i8)
    ensures
        r < 0 <==> text_lt(a@, b@),
        r > 0 <==> text_lt(b@, a@),
        r == 0 <==> a@ == b@,
{
    let n = a.unicode_len();
    let m = b.unicode_len();
    let mut k: usize = 0;
    while k < n && k < m && a.get_char(k) == b.get_char(k)
        invariant
            n == a@.len(),
            m == b@.len(),
            agree_upto(a@, b@, k as int),
        decreases n - k,
    {
        k = k + 1;
    }
    if k < n && k < m {
        let x = a.get_char(k);
        let y = b.get_char(k);
        if x < y {
            assert(lt_at(a@, b@, k as int));
            assert forall|j: int| !lt_at(b@, a@, j) by {
                if lt_at(b@, a@, j) && j < k {
                    assert(b@[j] == a@[j]);
                }
            }
            -1
        } else {
            assert(lt_at(b@, a@, k as int));
            assert forall|j: int| !lt_at(a@, b@, j) by {
                if lt_at(a@, b@, j) && j < k {
                    assert(b@[j] == a@[j]);
                }
            }
            proof {
                if a@ == b@ {
                    lemma_text_lt_irreflexive(a@);
                }
            }
            1
        }
    } else if k < m {
        assert(lt_at(a@, b@, k as int));
        assert forall|j: int| !lt_at(b@, a@, j) by {
            if lt_at(b@, a@, j) && j < k {
                assert(b@[j] == a@[j]);
            }
        }
        -1
    } else if k < n {
        assert(lt_at(b@, a@, k as int));
        assert forall|j: int| !lt_at(a@, b@, j) by {
            if lt_at(a@, b@, j) && j < k {
                assert(b@[j] == a@[j]);
            }
        }
        1
    } else {
        assert(a@ =~= b@);
        proof {
            lemma_text_lt_irreflexive(a@);
        }
        0
    }
}

/// The separator between a namespace and a command name.
pub open spec fn separator() -> Seq<char> {
    seq![':', ':']
}

/// The first position at or after `i` where the separator stands in `s`.
pub open spec fn find_sep(s: Seq<char>, i: int) -> Option<int>
    decreases s.len() - i,
{
    if i < 0 || i + 2 > s.len() {
        None
    } else if occurs_at(s, i, separator()) {
        Some(i)
    } else {
        find_sep(s, i + 1)
    }
}

/// Where `find_sep` finds a separator, it stands there, at or after `i`.
pub proof fn lemma_find_sep_found(s: Seq<char>, i: int)
    requires
        find_sep(s, i) is Some,
    ensures
        i <= find_sep(s, i)->0,
        occurs_at(s, find_sep(s, i)->0, separator()),
    decreases s.len() - i,
{
    if !occurs_at(s, i, separator()) {
        lemma_find_sep_found(s, i + 1);
    }
}

/// `ns` followed by the separator and `name`.
pub open spec fn qualify(ns: Seq<char>, name: Seq<char>) -> Seq<char> {
    ns + separator() + name
}

/// A text with no `:` in it, such as an identifier.
pub open spec fn no_colon(s: Seq<char>) -> bool {
    forall|i: int| 0 <= i < s.len() ==> s[i] != ':'
}

/// The first separator of a qualified name is the one after its namespace.
pub proof fn lemma_find_sep_qualified(ns: Seq<char>, name: Seq<char>, i: int)
    requires
        no_colon(ns),
        0 <= i <= ns.len(),
    ensures
        find_sep(qualify(ns, name), i) == Some(ns.len() as int),
    decreases ns.len() - i,
{
    let s = qualify(ns, name);
    if i == ns.len() {
        assert(s.subrange(i, i + 2) =~= separator());
    } else {
        assert(s.subrange(i, i + 2)[0] == ns[i]);
        lemma_find_sep_qualified(ns, name, i + 1);
    }
}

/// The position of the first separator in `s` at or after `from`; `n` is the
/// length of `s`.
pub fn find_separator(s: &str, n: usize, from: usize) -> (r: Option<usize>)
    requires
        n == s@.len(),
    ensures
        r matches Some(p) ==> find_sep(s@, from as int) == Some(p as int),
        r is None ==> find_sep(s@, from as int) is None,
{
    proof {
        reveal_strlit("::");
        assert("::"@ =~= separator());
    }
    let mut i: usize = from;
    while i < n
        invariant
            n == s@.len(),
            from <= i,
            "::"@ == separator(),
            find_sep(s@, from as int) == find_sep(s@, i as int),
        decreases n - i,
    {
        if starts_at(s, n, i, "::") {
            return Some(i);
        }
        i = i + 1;
    }
    None
}

/// The namespace and the command name of a qualified name: the text before its
/// first separator, and the text between that and the next separator (or the end).
pub open spec fn split_command(s: Seq<char>) -> Option<(Seq<char>, Seq<char>)> {
    match find_sep(s, 0) {
        None => None,
        Some(p) => {
            let rest = s.subrange(p + 2, s.len() as int);
            Some(
                (
                    s.subrange(0, p),
                    match find_sep(rest, 0) {
                        Some(q) => rest.subrange(0, q),
                        None => rest,
                    },
                ),
            )
        },
    }
}

/// The namespace of a qualified name, if it has one.
pub open spec fn namespace_of(s: Seq<char>) -> Option<Seq<char>> {
    match split_command(s) {
        Some((m, _)) => Some(m),
        None => None,
    }
}

/// Splits a qualified name `ns::cmd` at its first separator into the namespace
/// and the command name; `None` where it holds no separator.
pub fn get_separated_command(input: &str) -> (r: Option<(String, String)>)
    ensures
        r matches Some((m, c)) ==> split_command(input@) == Some((m@, c@)),
        r is None ==> split_command(input@) is None,
{
    let n = input.unicode_len();
    match find_separator(input, n, 0) {
        None => None,
        Some(p) => {
            proof {
                lemma_find_sep_found(input@, 0);
            }
            let m = input.substring_char(0, p);
            let rest = input.substring_char(p + 2, n);
            let rn: usize = n - p - 2;
            let c = match find_separator(rest, rn, 0) {
                Some(q) => {
                    proof {
                        lemma_find_sep_found(rest@, 0);
                    }
                    rest.substring_char(0, q)
                },
                None => rest,
            };
            Some((String::from_str(m), String::from_str(c)))
        },
    }
}

} // verus!
