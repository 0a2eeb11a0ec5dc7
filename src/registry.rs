//! The handler registry: the names of the registered commands, collected per
//! namespace into dispatch tables, and combined over several namespaces.

use vstd::prelude::*;

use crate::text::{
    compare_text, get_separated_command, lemma_find_sep_qualified, lemma_text_lt_transitive,
    namespace_of, no_colon, qualify, separator, text_lt,
};

verus! {

/// The text of each name in a list.
pub open spec fn texts(v: Seq<String>) -> Seq<Seq<char>> {
    v.map_values(|s: String| s@)
}

/// Names in strictly increasing lexicographic order, hence without repeats.
pub open spec fn sorted_names(s: Seq<Seq<char>>) -> bool {
    forall|i: int, j: int| 0 <= i < j < s.len() ==> text_lt(#[trigger] s[i], #[trigger] s[j])
}

/// Adds `x` to a sorted list of names, keeping it sorted; a name already there
/// is not added twice.
pub fn insert_name(v: &mut Vec<String>, x: String)
    requires
        sorted_names(texts(old(v)@)),
    ensures
        sorted_names(texts(final(v)@)),
        texts(final(v)@).to_set() == texts(old(v)@).to_set().insert(x@),
{
    let ghost t0 = texts(v@);
    let mut p: usize = 0;
    while p < v.len() && compare_text(v[p].as_str(), x.as_str()) < 0
        invariant
            t0 == texts(v@),
            sorted_names(t0),
            0 <= p <= v.len(),
            forall|i: int| 0 <= i < p ==> text_lt(#[trigger] t0[i], x@),
        decreases v.len() - p,
    {
        p = p + 1;
    }
    if p < v.len() && compare_text(v[p].as_str(), x.as_str()) == 0 {
        assert(t0[p as int] == x@);
        assert(t0.to_set().insert(x@) =~= t0.to_set());
        return;
    }
    v.insert(p, x);
    proof {
        let t1 = texts(v@);
        assert(t1 =~= t0.insert(p as int, x@));
        assert forall|i: int, j: int| 0 <= i < j < t1.len() implies text_lt(
            #[trigger] t1[i],
            #[trigger] t1[j],
        ) by {
            if j < p {
            } else if j == p {
            } else if i == p {
                if j - 1 > p {
                    lemma_text_lt_transitive(x@, t0[p as int], t0[j - 1]);
                }
            } else if i < p {
                assert(t1[j] == t0[j - 1]);
            } else {
                assert(t1[i] == t0[i - 1]);
            }
        }
        assert forall|e: Seq<char>| #[trigger] t1.to_set().contains(e) <==> t0.to_set().insert(
            x@,
        ).contains(e) by {
            if t1.to_set().contains(e) {
                let i = choose|i: int| 0 <= i < t1.len() && t1[i] == e;
                if i < p {
                    assert(t0.contains(e));
                } else if i > p {
                    assert(t0[i - 1] == e);
                    assert(t0.contains(e));
                }
            }
            if t0.to_set().insert(x@).contains(e) {
                if e == x@ {
                    assert(t1[p as int] == e);
                } else {
                    let i = choose|i: int| 0 <= i < t0.len() && t0[i] == e;
                    if i < p {
                        assert(t1[i] == e);
                    } else {
                        assert(t1[i + 1] == e);
                    }
                }
            }
        }
        assert(t1.to_set() =~= t0.to_set().insert(x@));
    }
}

/// Each name of `names` qualified by the namespace `ns`.
pub open spec fn qualify_all(names: Set<Seq<char>>, ns: Seq<char>) -> Set<Seq<char>> {
    names.map(|n: Seq<char>| qualify(ns, n))
}

/// The registry's state as sets of names.
pub struct RegistryView {
    /// Names registered since the last collection.
    pub pending: Set<Seq<char>>,
    /// The namespace that the next collection qualifies names by, if any.
    pub namespace: Option<Seq<char>>,
    /// Every name collected so far, qualified where a namespace was set.
    pub collected: Set<Seq<char>>,
}

impl RegistryView {
    /// The names that a collection adds to the collected set.
    pub open spec fn drained(self) -> Set<Seq<char>> {
        match self.namespace {
            Some(ns) => qualify_all(self.pending, ns),
            None => self.pending,
        }
    }

    /// The state after a collection: the pending names move, qualified, into the
    /// collected set, and the pending set and the namespace are cleared.
    pub open spec fn after_collect(self) -> RegistryView {
        RegistryView {
            pending: Set::empty(),
            namespace: None,
            collected: self.collected.union(self.drained()),
        }
    }
}

/// A generated dispatch table: the name of the function that registers the
/// handlers, the handlers' names, and the namespace paths it brings into scope.
pub struct DispatchTable {
    pub fn_name: String,
    pub commands: Vec<String>,
    pub include_mods: Vec<Vec<String>>,
}

/// The text of each segment of each namespace path.
pub open spec fn paths_view(mods: Seq<Vec<String>>) -> Seq<Seq<Seq<char>>> {
    mods.map_values(|p: Vec<String>| texts(p@))
}

/// Whether `m` is a segment of one of the paths.
pub open spec fn names_segment(paths: Seq<Seq<Seq<char>>>, m: Seq<char>) -> bool {
    exists|i: int, j: int| 0 <= i < paths.len() && 0 <= j < paths[i].len() && paths[i][j] == m
}

/// Whether a qualified name's namespace is a segment of one of the paths; a name
/// without a namespace is in none.
pub open spec fn in_namespaces(c: Seq<char>, paths: Seq<Seq<Seq<char>>>) -> bool {
    match namespace_of(c) {
        Some(m) => names_segment(paths, m),
        None => false,
    }
}

/// The names that a combination over `paths` keeps.
pub open spec fn selected(names: Set<Seq<char>>, paths: Seq<Seq<Seq<char>>>) -> Set<Seq<char>> {
    names.filter(|c: Seq<char>| in_namespaces(c, paths))
}

/// Why a combination of namespaces produces no dispatch table.
#[derive(Debug)]
pub enum CombineError {
    /// Names were registered and never collected; `no_commands` tells whether,
    /// besides, no collected name falls in the requested namespaces.
    Dangling { names: Vec<String>, no_commands: bool },
    /// No collected name falls in the requested namespaces.
    NoCommands,
}

/// The result of a combination: the dispatch table, and the collected names
/// that it leaves out, which deserve a warning.
pub struct Combined {
    pub table: DispatchTable,
    pub omitted: Vec<String>,
}

/// A copy of a list of names.
fn copy_names(v: &Vec<String>) -> (r: Vec<String>)
    ensures
        texts(r@) == texts(v@),
{
    let mut r: Vec<String> = Vec::new();
    let mut k: usize = 0;
    while k < v.len()
        invariant
            0 <= k <= v@.len(),
            r@.len() == k,
            forall|j: int| 0 <= j < k ==> #[trigger] r@[j]@ == v@[j]@,
        decreases v.len() - k,
    {
        r.push(v[k].clone());
        k = k + 1;
    }
    assert(texts(r@) =~= texts(v@));
    r
}

/// Whether `m` is a segment of one of the paths.
fn mentions_segment(mods: &Vec<Vec<String>>, m: &String) -> (r: bool)
    ensures
        r == names_segment(paths_view(mods@), m@),
{
    let ghost paths = paths_view(mods@);
    let mut i: usize = 0;
    while i < mods.len()
        invariant
            0 <= i <= mods@.len(),
            paths == paths_view(mods@),
            forall|a: int, b: int| 0 <= a < i && 0 <= b < paths[a].len() ==> paths[a][b] != m@,
        decreases mods.len() - i,
    {
        let path = &mods[i];
        let mut j: usize = 0;
        while j < path.len()
            invariant
                0 <= i < mods@.len(),
                path == mods@[i as int],
                0 <= j <= path@.len(),
                paths == paths_view(mods@),
                forall|b: int| 0 <= b < j ==> paths[i as int][b] != m@,
            decreases path.len() - j,
        {
            if path[j] == *m {
                assert(paths[i as int][j as int] == m@);
                return true;
            }
            j = j + 1;
        }
        i = i + 1;
    }
    false
}

/// Whether a qualified name's namespace is a segment of one of the paths.
fn command_in_namespaces(command: &String, mods: &Vec<Vec<String>>) -> (r: bool)
    ensures
        r == in_namespaces(command@, paths_view(mods@)),
{
    match get_separated_command(command.as_str()) {
        Some((m, _)) => mentions_segment(mods, &m),
        None => false,
    }
}

/// Splits names into those whose namespace is a segment of one of the paths and
/// the rest, each in the order of the input.
fn partition_commands(commands: &Vec<String>, mods: &Vec<Vec<String>>) -> (r: (
    Vec<String>,
    Vec<String>,
))
    ensures
        texts(r.0@).to_set() == selected(texts(commands@).to_set(), paths_view(mods@)),
        texts(r.1@).to_set() == texts(commands@).to_set().difference(
            selected(texts(commands@).to_set(), paths_view(mods@)),
        ),
        sorted_names(texts(commands@)) ==> sorted_names(texts(r.0@)) && sorted_names(
            texts(r.1@),
        ),
{
    let ghost paths = paths_view(mods@);
    let ghost t = texts(commands@);
    let ghost pred = |c: Seq<char>| in_namespaces(c, paths);
    let mut kept: Vec<String> = Vec::new();
    let mut omitted: Vec<String> = Vec::new();
    let mut i: usize = 0;
    while i < commands.len()
        invariant
            0 <= i <= commands@.len(),
            paths == paths_view(mods@),
            t == texts(commands@),
            pred == (|c: Seq<char>| in_namespaces(c, paths)),
            texts(kept@).to_set() == t.subrange(0, i as int).to_set().filter(pred),
            texts(omitted@).to_set() == t.subrange(0, i as int).to_set().filter(
                |c: Seq<char>| !pred(c),
            ),
            sorted_names(t) ==> sorted_names(texts(kept@)) && sorted_names(texts(omitted@)),
            sorted_names(t) ==> forall|a: int, j: int|
                0 <= a < kept@.len() && i <= j < t.len() ==> text_lt(texts(kept@)[a], t[j]),
            sorted_names(t) ==> forall|a: int, j: int|
                0 <= a < omitted@.len() && i <= j < t.len() ==> text_lt(texts(omitted@)[a], t[j]),
        decreases commands.len() - i,
    {
        let ghost before = t.subrange(0, i as int);
        let ghost x = t[i as int];
        proof {
            assert(t.subrange(0, i + 1) =~= before.push(x));
            before.lemma_push_to_set_commute(x);
        }
        let keep = command_in_namespaces(&commands[i], mods);
        assert(commands@[i as int]@ == x);
        assert(keep == pred(x));
        if keep {
            let ghost k0 = texts(kept@);
            kept.push(commands[i].clone());
            proof {
                assert(texts(kept@) =~= k0.push(x));
                k0.lemma_push_to_set_commute(x);
                assert(texts(kept@).to_set() =~= t.subrange(0, i + 1).to_set().filter(pred));
                assert(texts(omitted@).to_set() =~= t.subrange(0, i + 1).to_set().filter(
                    |c: Seq<char>| !pred(c),
                ));
            }
        } else {
            let ghost o0 = texts(omitted@);
            omitted.push(commands[i].clone());
            proof {
                assert(texts(omitted@) =~= o0.push(x));
                o0.lemma_push_to_set_commute(x);
                assert(texts(kept@).to_set() =~= t.subrange(0, i + 1).to_set().filter(pred));
                assert(texts(omitted@).to_set() =~= t.subrange(0, i + 1).to_set().filter(
                    |c: Seq<char>| !pred(c),
                ));
            }
        }
        i = i + 1;
    }
    assert(t.subrange(0, t.len() as int) =~= t);
    assert(t.to_set().filter(|c: Seq<char>| !pred(c)) =~= t.to_set().difference(
        selected(t.to_set(), paths),
    ));
    (kept, omitted)
}

/// The names whose namespace is a segment of one of the namespace paths, in the
/// order of the input.
pub fn get_filtered_commands(commands: &Vec<String>, mods: &Vec<Vec<String>>) -> (r: Vec<String>)
    ensures
        texts(r@).to_set() == selected(texts(commands@).to_set(), paths_view(mods@)),
        sorted_names(texts(commands@)) ==> sorted_names(texts(r@)),
{
    partition_commands(commands, mods).0
}

/// The registry of command handlers, threaded through generation.
pub struct Registry {
    pending: Vec<String>,
    namespace: Option<String>,
    collected: Vec<String>,
}

/// The text of an optional name.
pub open spec fn opt_text(o: Option<String>) -> Option<Seq<char>> {
    match o {
        Some(s) => Some(s@),
        None => None,
    }
}

impl View for Registry {
    type V = RegistryView;

    closed spec fn view(&self) -> RegistryView {
        RegistryView {
            pending: texts(self.pending@).to_set(),
            namespace: opt_text(self.namespace),
            collected: texts(self.collected@).to_set(),
        }
    }
}

/// Each name of `commands` qualified by the namespace `mod_name`, in order.
pub fn commands_with_mod_name(mod_name: &str, commands: &Vec<String>) -> (r: Vec<String>)
    ensures
        r@.len() == commands@.len(),
        forall|i: int| 0 <= i < r@.len() ==> #[trigger] r@[i]@ == qualify(mod_name@, commands@[i]@),
{
    proof {
        reveal_strlit("::");
        assert("::"@ =~= separator());
    }
    let mut r: Vec<String> = Vec::new();
    let mut i: usize = 0;
    while i < commands.len()
        invariant
            0 <= i <= commands@.len(),
            r@.len() == i,
            "::"@ == separator(),
            forall|k: int| 0 <= k < i ==> #[trigger] r@[k]@ == qualify(mod_name@, commands@[k]@),
        decreases commands.len() - i,
    {
        let q = String::from_str(mod_name).concat("::").concat(commands[i].as_str());
        r.push(q);
        i = i + 1;
    }
    r
}

impl Registry {
    /// The registry's invariant: both lists of names are sorted.
    pub closed spec fn wf(&self) -> bool {
        sorted_names(texts(self.pending@)) && sorted_names(texts(self.collected@))
    }

    /// An empty registry.
    pub fn new() -> (r: Registry)
        ensures
            r.wf(),
            r@.pending == Set::<Seq<char>>::empty(),
            r@.namespace is None,
            r@.collected == Set::<Seq<char>>::empty(),
    {
        let r = Registry { pending: Vec::new(), namespace: None, collected: Vec::new() };
        assert(texts(r.pending@).to_set() =~= Set::<Seq<char>>::empty());
        assert(texts(r.collected@).to_set() =~= Set::<Seq<char>>::empty());
        r
    }

    /// Registers a command under the current namespace; registering a name twice
    /// has no further effect.
    pub fn command(&mut self, name: &str)
        requires
            old(self).wf(),
        ensures
            final(self).wf(),
            final(self)@ == (RegistryView {
                pending: old(self)@.pending.insert(name@),
                ..old(self)@
            }),
    {
        insert_name(&mut self.pending, String::from_str(name));
    }

    /// Sets the namespace that the next collection qualifies names by.
    pub fn commands(&mut self, mod_name: &str)
        requires
            old(self).wf(),
        ensures
            final(self).wf(),
            final(self)@ == (RegistryView { namespace: Some(mod_name@), ..old(self)@ }),
    {
        self.namespace = Some(String::from_str(mod_name));
    }

    /// Drains the pending names into a dispatch table named `get_handlers`, and
    /// merges them into the collected set, qualified by the namespace if one is
    /// set; then clears the pending names and the namespace.
    pub fn collect_commands(&mut self) -> (r: DispatchTable)
        requires
            old(self).wf(),
        ensures
            final(self).wf(),
            final(self)@ == old(self)@.after_collect(),
            r.fn_name@ == "get_handlers"@,
            texts(r.commands@).to_set() == old(self)@.pending,
            sorted_names(texts(r.commands@)),
            r.include_mods@.len() == 0,
    {
        let ghost v0 = self@;
        let mut names: Vec<String> = Vec::new();
        std::mem::swap(&mut names, &mut self.pending);
        let qualified = match &self.namespace {
            Some(ns) => commands_with_mod_name(ns.as_str(), &names),
            None => copy_names(&names),
        };
        proof {
            let tq = texts(qualified@);
            let tn = texts(names@);
            assert(tn.to_set() == v0.pending);
            match v0.namespace {
                Some(ns) => {
                    let f = |n: Seq<char>| qualify(ns, n);
                    assert(tq =~= tn.map_values(f));
                    tn.lemma_to_set_map_commutes(f);
                },
                None => {
                    assert(tq =~= tn);
                },
            }
            assert(tq.to_set() == v0.drained());
        }
        let mut i: usize = 0;
        while i < qualified.len()
            invariant
                0 <= i <= qualified@.len(),
                self.pending@.len() == 0,
                sorted_names(texts(self.collected@)),
                texts(self.collected@).to_set() == v0.collected.union(
                    texts(qualified@.subrange(0, i as int)).to_set(),
                ),
            decreases qualified.len() - i,
        {
            proof {
                let a = texts(qualified@.subrange(0, i as int));
                assert(texts(qualified@.subrange(0, i + 1)) =~= a.push(qualified@[i as int]@));
                a.lemma_push_to_set_commute(qualified@[i as int]@);
            }
            insert_name(&mut self.collected, qualified[i].clone());
            i = i + 1;
            proof {
                assert(texts(self.collected@).to_set() =~= v0.collected.union(
                    texts(qualified@.subrange(0, i as int)).to_set(),
                ));
            }
        }
        assert(qualified@.subrange(0, qualified@.len() as int) =~= qualified@);
        self.namespace = None;
        assert(texts(self.pending@).to_set() =~= Set::<Seq<char>>::empty());
        assert(self@.collected =~= v0.after_collect().collected);
        DispatchTable { fn_name: String::from_str("get_handlers"), commands: names, include_mods: Vec::new() }
    }

    /// Combines the collected names of the namespaces named by `mods` into one
    /// dispatch table named `get_all_handlers`. Fails while any registered name is
    /// still uncollected, and where no collected name falls in those namespaces,
    /// reporting both where both hold; otherwise also reports the collected names
    /// that the table leaves out.
    pub fn combine_handlers(&self, mods: Vec<Vec<String>>) -> (r: Result<Combined, CombineError>)
        requires
            self.wf(),
        ensures
            !self@.pending.is_empty() ==> (r matches Err(
                CombineError::Dangling { names, no_commands },
            ) && texts(names@).to_set() == self@.pending && no_commands == selected(
                self@.collected,
                paths_view(mods@),
            ).is_empty()),
            self@.pending.is_empty() && selected(self@.collected, paths_view(mods@)).is_empty()
                ==> r matches Err(CombineError::NoCommands),
            self@.pending.is_empty() && !selected(self@.collected, paths_view(mods@)).is_empty()
                ==> (r matches Ok(c) && c.table.fn_name@ == "get_all_handlers"@ && texts(
                c.table.commands@,
            ).to_set() == selected(self@.collected, paths_view(mods@)) && sorted_names(
                texts(c.table.commands@),
            ) && c.table.include_mods@ == mods@ && texts(c.omitted@).to_set()
                == self@.collected.difference(selected(self@.collected, paths_view(mods@)))
                && sorted_names(texts(c.omitted@))),
    {
        let (kept, omitted) = partition_commands(&self.collected, &mods);
        let no_commands = kept.len() == 0;
        proof {
            if no_commands {
                assert(texts(kept@).to_set() =~= Set::<Seq<char>>::empty());
            } else {
                assert(texts(kept@).to_set().contains(texts(kept@)[0]));
            }
        }
        if self.pending.len() > 0 {
            assert(texts(self.pending@).to_set().contains(texts(self.pending@)[0]));
            return Err(CombineError::Dangling { names: copy_names(&self.pending), no_commands });
        }
        assert(texts(self.pending@).to_set() =~= Set::<Seq<char>>::empty());
        if no_commands {
            return Err(CombineError::NoCommands);
        }
        Ok(
            Combined {
                table: DispatchTable {
                    fn_name: String::from_str("get_all_handlers"),
                    commands: kept,
                    include_mods: mods,
                },
                omitted,
            },
        )
    }
}

/// Collecting the pending names of a namespace and then combining over paths
/// that name every namespace in use gives back exactly the collected names:
/// the new ones qualified by their namespace, and all that came before.
pub proof fn lemma_collect_combine_round_trip(
    r: RegistryView,
    ns: Seq<char>,
    paths: Seq<Seq<Seq<char>>>,
)
    requires
        r.namespace == Some(ns),
        no_colon(ns),
        names_segment(paths, ns),
        forall|c: Seq<char>| #[trigger] r.collected.contains(c) ==> in_namespaces(c, paths),
    ensures
        r.after_collect().pending.is_empty(),
        r.after_collect().collected == r.collected.union(qualify_all(r.pending, ns)),
        selected(r.after_collect().collected, paths) == r.after_collect().collected,
        !r.pending.is_empty() ==> !selected(r.after_collect().collected, paths).is_empty(),
{
    let after = r.after_collect();
    assert forall|c: Seq<char>| #[trigger] after.collected.contains(c) implies in_namespaces(
        c,
        paths,
    ) by {
        if !r.collected.contains(c) {
            let n = choose|n: Seq<char>| r.pending.contains(n) && c == qualify(ns, n);
            lemma_find_sep_qualified(ns, n, 0);
            assert(namespace_of(c) == Some(ns)) by {
                assert(c.subrange(0, ns.len() as int) =~= ns);
            }
        }
    }
    assert(selected(after.collected, paths) =~= after.collected);
    assert(after.pending =~= Set::<Seq<char>>::empty());
    if !r.pending.is_empty() {
        let n = r.pending.choose();
        assert(r.pending.contains(n));
        assert(qualify_all(r.pending, ns).contains(qualify(ns, n)));
        assert(after.collected.contains(qualify(ns, n)));
    }
}

} // verus!
