use vstd::prelude::*;

verus! {

/// What an optional borrowed string holds, as an optional character sequence.
pub open spec fn opt_view(o: Option<&String>) -> Option<Seq<char>> {
    match o {
        Some(s) => Some(s@),
        None => None,
    }
}

/// What `key` is bound to in `m`, if anything.
pub open spec fn lookup(m: Map<Seq<char>, Seq<char>>, key: Seq<char>) -> Option<Seq<char>> {
    if m.contains_key(key) {
        Some(m[key])
    } else {
        None
    }
}

/// The bindings left by registering each `(key, value)` pair of `regs` in turn,
/// starting from nothing; a later pair for the same key replaces an earlier one.
pub open spec fn bindings_after(regs: Seq<(Seq<char>, Seq<char>)>) -> Map<Seq<char>, Seq<char>>
    decreases regs.len(),
{
    if regs.len() == 0 {
        Map::empty()
    } else {
        bindings_after(regs.drop_last()).insert(regs.last().0, regs.last().1)
    }
}

/// One more registration extends the replayed bindings by that pair.
pub proof fn lemma_bindings_after_push(regs: Seq<(Seq<char>, Seq<char>)>, pair: (Seq<char>, Seq<char>))
    ensures
        bindings_after(regs.push(pair)) == bindings_after(regs).insert(pair.0, pair.1),
{
    assert(regs.push(pair).drop_last() =~= regs);
}

/// A key that no pair of `regs` names is left unbound.
pub proof fn lemma_unnamed_key_unbound(regs: Seq<(Seq<char>, Seq<char>)>, key: Seq<char>)
    requires
        forall|j: int| 0 <= j < regs.len() ==> (#[trigger] regs[j]).0 != key,
    ensures
        !bindings_after(regs).contains_key(key),
    decreases regs.len(),
{
    if regs.len() > 0 {
        let rest = regs.drop_last();
        assert forall|j: int| 0 <= j < rest.len() implies (#[trigger] rest[j]).0 != key by {
            assert(rest[j] == regs[j]);
        }
        lemma_unnamed_key_unbound(rest, key);
        assert(regs.last() == regs[regs.len() - 1]);
    }
}

/// A table from string keys to string values in which each key appears at most once.
/// Registering a key that is already present replaces its value.
pub struct BindingTable {
    entries: Vec<(String, String)>,
    bindings: Ghost<Map<Seq<char>, Seq<char>>>,
}

impl View for BindingTable {
    type V = Map<Seq<char>, Seq<char>>;

    closed spec fn view(&self) -> Map<Seq<char>, Seq<char>> {
        self.bindings@
    }
}

/// Each key of `entries` appears once, each entry agrees with `bindings`, and each
/// key bound in `bindings` has an entry.
spec fn entries_match(entries: Seq<(String, String)>, bindings: Map<Seq<char>, Seq<char>>) -> bool {
    &&& forall|i: int, j: int|
        0 <= i < j < entries.len() ==> (#[trigger] entries[i]).0@ != (#[trigger] entries[j]).0@
    &&& forall|i: int|
        0 <= i < entries.len() ==> bindings.contains_key((#[trigger] entries[i]).0@)
            && bindings[entries[i].0@] == entries[i].1@
    &&& forall|k: Seq<char>| #[trigger]
        bindings.contains_key(k) ==> exists|i: int|
            0 <= i < entries.len() && (#[trigger] entries[i]).0@ == k
}

/// Index of the entry whose key is `key`, if there is one.
fn position(entries: &Vec<(String, String)>, key: &String) -> (r: Option<usize>)
    ensures
        match r {
            Some(i) => i < entries@.len() && entries@[i as int].0@ == key@,
            None => forall|j: int| 0 <= j < entries@.len() ==> (#[trigger] entries@[j]).0@ != key@,
        },
{
    let mut i: usize = 0;
    while i < entries.len()
        invariant
            i <= entries@.len(),
            forall|j: int| 0 <= j < i ==> (#[trigger] entries@[j]).0@ != key@,
        decreases entries@.len() - i,
    {
        if entries[i].0 == *key {
            return Some(i);
        }
        i += 1;
    }
    None
}

impl BindingTable {
    #[verifier::type_invariant]
    spec fn consistent(self) -> bool {
        entries_match(self.entries@, self.bindings@)
    }

    /// What `key` is bound to, if anything.
    pub open spec fn resolved(&self, key: Seq<char>) -> Option<Seq<char>> {
        lookup(self@, key)
    }

    /// An empty table.
    pub fn new() -> (r: Self)
        ensures
            r@ == Map::<Seq<char>, Seq<char>>::empty(),
    {
        BindingTable { entries: Vec::new(), bindings: Ghost(Map::empty()) }
    }

    /// Binds `key` to `value`, replacing any earlier value of `key`.
    pub fn insert(&mut self, key: String, value: String)
        ensures
            final(self)@ == old(self)@.insert(key@, value@),
    {
        let mut taken = BindingTable::new();
        std::mem::swap(self, &mut taken);
        proof {
            use_type_invariant(&taken);
        }
        let BindingTable { mut entries, bindings } = taken;
        let ghost old_entries = entries@;
        let ghost new_bindings = bindings@.insert(key@, value@);
        match position(&entries, &key) {
            Some(i) => {
                entries.set(i, (key, value));
                proof {
                    assert forall|j: int| 0 <= j < entries@.len() implies (#[trigger] entries@[j]).0@
                        == old_entries[j].0@ && (j != i ==> entries@[j] == old_entries[j]) by {}
                    assert forall|j: int|
                        0 <= j < entries@.len() implies new_bindings.contains_key(
                        (#[trigger] entries@[j]).0@,
                    ) && new_bindings[entries@[j].0@] == entries@[j].1@ by {
                        if j != i {
                            assert(old_entries[j].0@ != old_entries[i as int].0@);
                        }
                    }
                    assert forall|k: Seq<char>| #[trigger]
                        new_bindings.contains_key(k) implies exists|j: int|
                        0 <= j < entries@.len() && (#[trigger] entries@[j]).0@ == k by {
                        if k != old_entries[i as int].0@ {
                            let j = choose|j: int|
                                0 <= j < old_entries.len() && (#[trigger] old_entries[j]).0@ == k;
                            assert(entries@[j] == old_entries[j]);
                        } else {
                            assert(entries@[i as int].0@ == k);
                        }
                    }
                }
            },
            None => {
                let ghost new_key = key@;
                entries.push((key, value));
                proof {
                    let n = old_entries.len() as int;
                    assert(entries@[n].0@ == new_key);
                    assert forall|j: int| 0 <= j < n implies #[trigger] entries@[j] == old_entries[j] by {}
                    assert forall|j: int|
                        0 <= j < entries@.len() implies new_bindings.contains_key(
                        (#[trigger] entries@[j]).0@,
                    ) && new_bindings[entries@[j].0@] == entries@[j].1@ by {
                        if j < n {
                            assert(entries@[j] == old_entries[j]);
                        }
                    }
                    assert forall|k: Seq<char>| #[trigger]
                        new_bindings.contains_key(k) implies exists|j: int|
                        0 <= j < entries@.len() && (#[trigger] entries@[j]).0@ == k by {
                        if k != new_key {
                            let j = choose|j: int|
                                0 <= j < old_entries.len() && (#[trigger] old_entries[j]).0@ == k;
                            assert(entries@[j] == old_entries[j]);
                        } else {
                            assert(entries@[n].0@ == k);
                        }
                    }
                }
            },
        }
        assert(entries_match(entries@, new_bindings));
        let updated = BindingTable { entries, bindings: Ghost(new_bindings) };
        *self = updated;
    }

    /// The value bound to `key`, or `None` when `key` is not bound.
    pub fn get(&self, key: &str) -> (r: Option<&String>)
        ensures
            opt_view(r) == self.resolved(key@),
    {
        proof {
            use_type_invariant(self);
        }
        let wanted = key.to_owned();
        match position(&self.entries, &wanted) {
            Some(i) => Some(&self.entries[i].1),
            None => None,
        }
    }
}

impl Clone for BindingTable {
    fn clone(&self) -> (r: Self)
        ensures
            r@ == self@,
    {
        proof {
            use_type_invariant(self);
        }
        let mut entries: Vec<(String, String)> = Vec::new();
        let mut i: usize = 0;
        while i < self.entries.len()
            invariant
                i <= self.entries@.len(),
                entries@ == self.entries@.subrange(0, i as int),
            decreases self.entries@.len() - i,
        {
            let pair = (self.entries[i].0.clone(), self.entries[i].1.clone());
            entries.push(pair);
            i += 1;
            assert(entries@ =~= self.entries@.subrange(0, i as int));
        }
        assert(entries@ =~= self.entries@);
        BindingTable { entries, bindings: Ghost(self.bindings@) }
    }
}

} // verus!
