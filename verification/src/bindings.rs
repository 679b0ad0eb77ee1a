//! Keyboard shortcut bindings, keyed by binding id.

use vstd::prelude::*;

verus! {

broadcast use vstd::string::group_string_axioms;

/// One keyboard shortcut: what it is for and which keys trigger it.
pub struct ShortcutBinding {
    pub id: String,
    pub name: String,
    pub description: String,
    pub default_binding: String,
    pub current_binding: String,
}

/// A `ShortcutBinding` as text values.
pub struct ShortcutBindingView {
    pub id: Seq<char>,
    pub name: Seq<char>,
    pub description: Seq<char>,
    pub default_binding: Seq<char>,
    pub current_binding: Seq<char>,
}

impl View for ShortcutBinding {
    type V = ShortcutBindingView;

    open spec fn view(&self) -> ShortcutBindingView {
        ShortcutBindingView {
            id: self.id@,
            name: self.name@,
            description: self.description@,
            default_binding: self.default_binding@,
            current_binding: self.current_binding@,
        }
    }
}

impl Clone for ShortcutBinding {
    fn clone(&self) -> (r: Self)
        ensures
            r == *self,
    {
        ShortcutBinding {
            id: self.id.clone(),
            name: self.name.clone(),
            description: self.description.clone(),
            default_binding: self.default_binding.clone(),
            current_binding: self.current_binding.clone(),
        }
    }
}

/// The map that a list of `(key, binding)` entries stands for.
pub open spec fn entries_map(s: Seq<(String, ShortcutBinding)>) -> Map<Seq<char>, ShortcutBindingView>
    decreases s.len(),
{
    if s.len() == 0 {
        Map::empty()
    } else {
        entries_map(s.drop_last()).insert(s.last().0@, s.last().1@)
    }
}

/// No key occurs twice.
pub open spec fn keys_distinct(s: Seq<(String, ShortcutBinding)>) -> bool {
    forall|i: int, j: int| 0 <= i < j < s.len() ==> (#[trigger] s[i]).0@ != (#[trigger] s[j]).0@
}

proof fn lemma_entries_contains(s: Seq<(String, ShortcutBinding)>, k: Seq<char>)
    ensures
        entries_map(s).contains_key(k) <==> exists|i: int| 0 <= i < s.len() && (#[trigger] s[i]).0@ == k,
    decreases s.len(),
{
    if s.len() > 0 {
        lemma_entries_contains(s.drop_last(), k);
        if entries_map(s.drop_last()).contains_key(k) {
            let i = choose|i: int| 0 <= i < s.drop_last().len() && (#[trigger] s.drop_last()[i]).0@ == k;
            assert(s[i] == s.drop_last()[i]);
        }
        if exists|i: int| 0 <= i < s.len() && (#[trigger] s[i]).0@ == k {
            let i = choose|i: int| 0 <= i < s.len() && (#[trigger] s[i]).0@ == k;
            if i < s.len() - 1 {
                assert(s.drop_last()[i] == s[i]);
            }
        }
    }
}

proof fn lemma_entries_value(s: Seq<(String, ShortcutBinding)>, i: int)
    requires
        keys_distinct(s),
        0 <= i < s.len(),
    ensures
        entries_map(s).contains_key(s[i].0@),
        entries_map(s)[s[i].0@] == s[i].1@,
    decreases s.len(),
{
    if i < s.len() - 1 {
        let t = s.drop_last();
        assert(t[i] == s[i]);
        assert(keys_distinct(t)) by {
            assert forall|a: int, b: int| 0 <= a < b < t.len() implies (#[trigger] t[a]).0@ != (#[trigger] t[b]).0@ by {
                assert(t[a] == s[a] && t[b] == s[b]);
            }
        }
        lemma_entries_value(t, i);
        assert(s[i].0@ != s.last().0@);
    }
}

proof fn lemma_entries_update(s: Seq<(String, ShortcutBinding)>, i: int, b: ShortcutBinding)
    requires
        keys_distinct(s),
        0 <= i < s.len(),
    ensures
        entries_map(s.update(i, (s[i].0, b))) == entries_map(s).insert(s[i].0@, b@),
    decreases s.len(),
{
    let u = s.update(i, (s[i].0, b));
    if i == s.len() - 1 {
        assert(u.drop_last() =~= s.drop_last());
        assert(entries_map(u) =~= entries_map(s).insert(s[i].0@, b@)) by {
            if !entries_map(s.drop_last()).contains_key(s[i].0@) {
            }
        }
    } else {
        let t = s.drop_last();
        assert(keys_distinct(t)) by {
            assert forall|a: int, c: int| 0 <= a < c < t.len() implies (#[trigger] t[a]).0@ != (#[trigger] t[c]).0@ by {
                assert(t[a] == s[a] && t[c] == s[c]);
            }
        }
        assert(t[i] == s[i]);
        lemma_entries_update(t, i, b);
        assert(u.drop_last() =~= t.update(i, (t[i].0, b)));
        assert(u.last() == s.last());
        assert(s[i].0@ != s.last().0@);
        assert(entries_map(u) =~= entries_map(s).insert(s[i].0@, b@));
    }
}

/// Shortcut bindings keyed by binding id; each key occurs once.
pub struct Bindings {
    entries: Vec<(String, ShortcutBinding)>,
}

impl View for Bindings {
    type V = Map<Seq<char>, ShortcutBindingView>;

    closed spec fn view(&self) -> Map<Seq<char>, ShortcutBindingView> {
        entries_map(self.entries@)
    }
}

impl Bindings {
    #[verifier::type_invariant]
    spec fn unique_keys(self) -> bool {
        keys_distinct(self.entries@)
    }

    /// No bindings.
    pub fn new() -> (b: Self)
        ensures
            b@ == Map::<Seq<char>, ShortcutBindingView>::empty(),
    {
        Bindings { entries: Vec::new() }
    }

    /// Number of bindings.
    pub fn len(&self) -> (n: usize)
        ensures
            n == self@.len(),
    {
        proof {
            use_type_invariant(self);
            self.lemma_len();
        }
        self.entries.len()
    }

    proof fn lemma_len(&self)
        requires
            keys_distinct(self.entries@),
        ensures
            self@.len() == self.entries@.len(),
            self@.dom().finite(),
    {
        lemma_entries_len(self.entries@);
    }

    /// Position of `key` among the entries, if present.
    fn find(&self, key: &str) -> (r: Option<usize>)
        ensures
            match r {
                Some(i) => i < self.entries@.len() && self.entries@[i as int].0@ == key@,
                None => forall|i: int| 0 <= i < self.entries@.len() ==> (#[trigger] self.entries@[i]).0@ != key@,
            },
    {
        let k = key.to_string();
        let mut i: usize = 0;
        while i < self.entries.len()
            invariant
                0 <= i <= self.entries@.len(),
                k@ == key@,
                forall|j: int| 0 <= j < i ==> (#[trigger] self.entries@[j]).0@ != key@,
            decreases self.entries@.len() - i,
        {
            if self.entries[i].0 == k {
                return Some(i);
            }
            i += 1;
        }
        None
    }

    /// Whether a binding is stored under `key`.
    pub fn contains_key(&self, key: &str) -> (r: bool)
        ensures
            r == self@.contains_key(key@),
    {
        proof {
            lemma_entries_contains(self.entries@, key@);
        }
        self.find(key).is_some()
    }

    /// The binding stored under `key`, if any.
    pub fn get(&self, key: &str) -> (r: Option<ShortcutBinding>)
        ensures
            r is Some <==> self@.contains_key(key@),
            r matches Some(b) ==> b@ == self@[key@],
    {
        proof {
            use_type_invariant(self);
            lemma_entries_contains(self.entries@, key@);
        }
        match self.find(key) {
            Some(i) => {
                proof {
                    lemma_entries_value(self.entries@, i as int);
                }
                Some(self.entries[i].1.clone())
            },
            None => None,
        }
    }

    /// Stores `binding` under `key`, replacing what was there.
    pub fn insert(&mut self, key: String, binding: ShortcutBinding)
        ensures
            final(self)@ == old(self)@.insert(key@, binding@),
    {
        proof {
            use_type_invariant(&*self);
            lemma_entries_contains(self.entries@, key@);
        }
        match self.find(key.as_str()) {
            Some(i) => {
                proof {
                    lemma_entries_update(self.entries@, i as int, binding);
                }
                let ghost s = self.entries@;
                let mut entries: Vec<(String, ShortcutBinding)> = Vec::new();
                std::mem::swap(&mut entries, &mut self.entries);
                let k = entries[i].0.clone();
                entries.set(i, (k, binding));
                assert(entries@ =~= s.update(i as int, (s[i as int].0, binding)));
                self.entries = entries;
            },
            None => {
                let ghost s = self.entries@;
                let mut entries: Vec<(String, ShortcutBinding)> = Vec::new();
                std::mem::swap(&mut entries, &mut self.entries);
                entries.push((key, binding));
                assert(entries@.drop_last() =~= s);
                assert(keys_distinct(entries@)) by {
                    assert forall|a: int, c: int| 0 <= a < c < entries@.len() implies (#[trigger] entries@[a]).0@ != (#[trigger] entries@[c]).0@ by {
                        if c == entries@.len() - 1 {
                            assert(entries@[a] == s[a]);
                        } else {
                            assert(entries@[a] == s[a] && entries@[c] == s[c]);
                        }
                    }
                }
                self.entries = entries;
            },
        }
    }
}

/// `binding` with the keys currently assigned under `key` in `stored`, if any.
pub open spec fn adopt_current(
    binding: ShortcutBindingView,
    stored: Map<Seq<char>, ShortcutBindingView>,
    key: Seq<char>,
) -> ShortcutBindingView {
    if stored.contains_key(key) {
        ShortcutBindingView { current_binding: stored[key].current_binding, ..binding }
    } else {
        binding
    }
}

/// The bindings of `defaults`, each with the keys currently assigned to it in
/// `stored` when `stored` has it: no binding is added or dropped.
pub open spec fn keep_current_bindings(
    defaults: Map<Seq<char>, ShortcutBindingView>,
    stored: Map<Seq<char>, ShortcutBindingView>,
) -> Map<Seq<char>, ShortcutBindingView> {
    Map::new(
        |k: Seq<char>| defaults.contains_key(k),
        |k: Seq<char>| adopt_current(defaults[k], stored, k),
    )
}

impl Bindings {
    /// For each binding here, takes the currently assigned keys of the binding
    /// stored under the same id in `stored`, when there is one.
    pub fn adopt_current_bindings(&mut self, stored: &Bindings)
        ensures
            final(self)@ == keep_current_bindings(old(self)@, stored@),
    {
        proof {
            use_type_invariant(&*self);
        }
        let ghost orig = self.entries@;
        let mut entries: Vec<(String, ShortcutBinding)> = Vec::new();
        std::mem::swap(&mut entries, &mut self.entries);
        let mut i: usize = 0;
        while i < entries.len()
            invariant
                entries@.len() == orig.len(),
                0 <= i <= orig.len(),
                keys_distinct(orig),
                forall|j: int| 0 <= j < orig.len() ==> (#[trigger] entries@[j]).0 == orig[j].0,
                forall|j: int|
                    0 <= j < i ==> (#[trigger] entries@[j]).1@ == adopt_current(
                        orig[j].1@,
                        stored@,
                        orig[j].0@,
                    ),
                forall|j: int| i <= j < orig.len() ==> (#[trigger] entries@[j]) == orig[j],
            decreases orig.len() - i,
        {
            match stored.get(entries[i].0.as_str()) {
                Some(found) => {
                    let key = entries[i].0.clone();
                    let mut b = entries[i].1.clone();
                    b.current_binding = found.current_binding;
                    entries.set(i, (key, b));
                },
                None => {},
            }
            i += 1;
        }
        assert(keys_distinct(entries@)) by {
            assert forall|a: int, c: int| 0 <= a < c < entries@.len() implies (#[trigger] entries@[a]).0@ != (#[trigger] entries@[c]).0@ by {
                assert(entries@[a].0 == orig[a].0 && entries@[c].0 == orig[c].0);
            }
        }
        assert(entries_map(entries@) =~= keep_current_bindings(entries_map(orig), stored@)) by {
            assert forall|k: Seq<char>| #[trigger] entries_map(entries@).contains_key(k)
                <==> entries_map(orig).contains_key(k) by {
                lemma_entries_contains(entries@, k);
                lemma_entries_contains(orig, k);
                if exists|i: int| 0 <= i < entries@.len() && (#[trigger] entries@[i]).0@ == k {
                    let i = choose|i: int| 0 <= i < entries@.len() && (#[trigger] entries@[i]).0@ == k;
                    assert(orig[i].0@ == k);
                }
                if exists|i: int| 0 <= i < orig.len() && (#[trigger] orig[i]).0@ == k {
                    let i = choose|i: int| 0 <= i < orig.len() && (#[trigger] orig[i]).0@ == k;
                    assert(entries@[i].0@ == k);
                }
            }
            assert forall|k: Seq<char>| #[trigger] entries_map(entries@).contains_key(k)
                implies entries_map(entries@)[k] == adopt_current(entries_map(orig)[k], stored@, k) by {
                lemma_entries_contains(entries@, k);
                let i = choose|i: int| 0 <= i < entries@.len() && (#[trigger] entries@[i]).0@ == k;
                lemma_entries_value(entries@, i);
                lemma_entries_value(orig, i);
            }
        }
        self.entries = entries;
    }

    /// Every `(key, binding)` pair stored, each key once, in no particular order.
    pub fn to_entries(&self) -> (v: Vec<(String, ShortcutBinding)>)
        ensures
            v@.len() == self@.len(),
            forall|i: int| 0 <= i < v@.len() ==> self@.contains_key((#[trigger] v@[i]).0@)
                && self@[v@[i].0@] == v@[i].1@,
            forall|k: Seq<char>| #[trigger] self@.contains_key(k) ==> exists|i: int|
                0 <= i < v@.len() && (#[trigger] v@[i]).0@ == k,
    {
        proof {
            use_type_invariant(self);
            lemma_entries_len(self.entries@);
        }
        let mut v: Vec<(String, ShortcutBinding)> = Vec::new();
        let mut i: usize = 0;
        while i < self.entries.len()
            invariant
                0 <= i <= self.entries@.len(),
                keys_distinct(self.entries@),
                v@.len() == i,
                forall|j: int| 0 <= j < i ==> (#[trigger] v@[j]).0@ == self.entries@[j].0@
                    && v@[j].1@ == self.entries@[j].1@,
            decreases self.entries@.len() - i,
        {
            let k = self.entries[i].0.clone();
            let b = self.entries[i].1.clone();
            v.push((k, b));
            i += 1;
        }
        proof {
            assert forall|j: int| 0 <= j < v@.len() implies self@.contains_key((#[trigger] v@[j]).0@)
                && self@[v@[j].0@] == v@[j].1@ by {
                lemma_entries_value(self.entries@, j);
            }
            assert forall|k: Seq<char>| #[trigger] self@.contains_key(k) implies exists|i: int|
                0 <= i < v@.len() && (#[trigger] v@[i]).0@ == k by {
                lemma_entries_contains(self.entries@, k);
                let i = choose|i: int| 0 <= i < self.entries@.len() && (#[trigger] self.entries@[i]).0@ == k;
                assert(v@[i].0@ == k);
            }
        }
        v
    }
}

impl Clone for Bindings {
    fn clone(&self) -> (r: Self)
        ensures
            r@ == self@,
    {
        proof {
            use_type_invariant(self);
        }
        let mut v: Vec<(String, ShortcutBinding)> = Vec::new();
        let mut i: usize = 0;
        while i < self.entries.len()
            invariant
                0 <= i <= self.entries@.len(),
                v@ == self.entries@.subrange(0, i as int),
            decreases self.entries@.len() - i,
        {
            let k = self.entries[i].0.clone();
            let b = self.entries[i].1.clone();
            v.push((k, b));
            assert(v@ =~= self.entries@.subrange(0, i + 1));
            i += 1;
        }
        assert(v@ =~= self.entries@);
        Bindings { entries: v }
    }
}

proof fn lemma_entries_len(s: Seq<(String, ShortcutBinding)>)
    requires
        keys_distinct(s),
    ensures
        entries_map(s).len() == s.len(),
        entries_map(s).dom().finite(),
    decreases s.len(),
{
    if s.len() > 0 {
        let t = s.drop_last();
        assert(keys_distinct(t)) by {
            assert forall|a: int, c: int| 0 <= a < c < t.len() implies (#[trigger] t[a]).0@ != (#[trigger] t[c]).0@ by {
                assert(t[a] == s[a] && t[c] == s[c]);
            }
        }
        lemma_entries_len(t);
        lemma_entries_contains(t, s.last().0@);
        if entries_map(t).contains_key(s.last().0@) {
            let i = choose|i: int| 0 <= i < t.len() && (#[trigger] t[i]).0@ == s.last().0@;
            assert(t[i] == s[i]);
        }
    }
}

} // verus!
