//! The registry of tools, addressed by name.
use vstd::prelude::*;

verus! {

/// A registry of the available tools, each addressed by its name.
///
/// `H` is whatever the application uses to hold a tool. Viewed as a map from
/// names to tools, a registry behaves as a map: registering a tool under a
/// name that is already taken replaces the tool held there.
pub struct ToolRegistry<H> {
    entries: Vec<(String, H)>,
    model: Ghost<Map<Seq<char>, H>>,
}

impl<H> View for ToolRegistry<H> {
    type V = Map<Seq<char>, H>;

    closed spec fn view(&self) -> Map<Seq<char>, H> {
        self.model@
    }
}

impl<H> ToolRegistry<H> {
    /// The names of the entries, in the order in which they are stored.
    closed spec fn stored_names(&self) -> Seq<Seq<char>> {
        self.entries@.map_values(|e: (String, H)| e.0@)
    }

    /// Each name is stored once, and the entries are exactly the map.
    #[verifier::type_invariant]
    closed spec fn well_formed(&self) -> bool {
        &&& self.stored_names().no_duplicates()
        &&& self.model@.dom() == self.stored_names().to_set()
        &&& forall|i: int|
            0 <= i < self.entries@.len() ==> self.model@[#[trigger] self.entries@[i].0@]
                == self.entries@[i].1
    }

    /// Creates an empty registry.
    pub fn new() -> (r: Self)
        ensures
            r@ == Map::<Seq<char>, H>::empty(),
    {
        let entries: Vec<(String, H)> = Vec::new();
        assert(entries@.map_values(|e: (String, H)| e.0@).to_set() =~= Set::empty());
        ToolRegistry { entries, model: Ghost(Map::empty()) }
    }

    /// The number of registered tools.
    pub fn len(&self) -> (n: usize)
        ensures
            n == self@.len(),
    {
        proof {
            use_type_invariant(self);
            self.stored_names().unique_seq_to_set();
        }
        self.entries.len()
    }

    /// Whether no tool is registered.
    pub fn is_empty(&self) -> (b: bool)
        ensures
            b == (self@.len() == 0),
    {
        self.len() == 0
    }

    /// The position of the entry stored under `name`, if any.
    fn position(&self, name: &String) -> (pos: Option<usize>)
        ensures
            match pos {
                Some(i) => i < self.entries@.len() && self.entries@[i as int].0@ == name@,
                None => !self.stored_names().contains(name@),
            },
    {
        let n = self.entries.len();
        let mut i: usize = 0;
        while i < n
            invariant
                n == self.entries@.len(),
                0 <= i <= n,
                forall|j: int| 0 <= j < i ==> self.entries@[j].0@ != name@,
            decreases n - i,
        {
            if self.entries[i].0 == *name {
                return Some(i);
            }
            i = i + 1;
        }
        assert forall|j: int| 0 <= j < self.stored_names().len() implies self.stored_names()[j] != name@ by {
            assert(self.stored_names()[j] == self.entries@[j].0@);
        }
        None
    }

    /// Whether a tool is registered under `name`.
    pub fn contains_key(&self, name: &str) -> (b: bool)
        ensures
            b == self@.contains_key(name@),
    {
        proof {
            use_type_invariant(self);
        }
        let key = String::from_str(name);
        match self.position(&key) {
            Some(i) => {
                assert(self.stored_names()[i as int] == key@);
                true
            },
            None => false,
        }
    }

    /// The tool registered under `name`, if any.
    pub fn get(&self, name: &str) -> (r: Option<&H>)
        ensures
            r is Some == self@.contains_key(name@),
            r matches Some(h) ==> *h == self@[name@],
    {
        proof {
            use_type_invariant(self);
        }
        let key = String::from_str(name);
        match self.position(&key) {
            Some(i) => {
                assert(self.stored_names()[i as int] == key@);
                Some(&self.entries[i].1)
            },
            None => None,
        }
    }

    /// The names under which tools are registered, each once.
    pub fn names(&self) -> (v: Vec<String>)
        ensures
            v@.map_values(|s: String| s@).no_duplicates(),
            v@.map_values(|s: String| s@).to_set() == self@.dom(),
    {
        proof {
            use_type_invariant(self);
        }
        let n = self.entries.len();
        let mut v: Vec<String> = Vec::new();
        let mut i: usize = 0;
        while i < n
            invariant
                n == self.entries@.len(),
                0 <= i <= n,
                v@.len() == i,
                forall|j: int| 0 <= j < i ==> #[trigger] v@[j] == self.entries@[j].0,
            decreases n - i,
        {
            v.push(self.entries[i].0.clone());
            i = i + 1;
        }
        assert(v@.map_values(|s: String| s@) =~= self.stored_names());
        v
    }

    /// The registered tools with their names, each name once.
    pub fn entries(&self) -> (v: Vec<(&String, &H)>)
        ensures
            v@.len() == self@.len(),
            v@.map_values(|p: (&String, &H)| p.0@).no_duplicates(),
            v@.map_values(|p: (&String, &H)| p.0@).to_set() == self@.dom(),
            forall|i: int| 0 <= i < v@.len() ==> *(#[trigger] v@[i]).1 == self@[v@[i].0@],
    {
        proof {
            use_type_invariant(self);
            self.stored_names().unique_seq_to_set();
        }
        let n = self.entries.len();
        let mut v: Vec<(&String, &H)> = Vec::new();
        let mut i: usize = 0;
        while i < n
            invariant
                n == self.entries@.len(),
                0 <= i <= n,
                v@.len() == i,
                forall|j: int| 0 <= j < i ==> #[trigger] v@[j].0 == self.entries@[j].0 && v@[j].1
                    == self.entries@[j].1,
            decreases n - i,
        {
            let entry = &self.entries[i];
            v.push((&entry.0, &entry.1));
            i = i + 1;
        }
        assert(v@.map_values(|p: (&String, &H)| p.0@) =~= self.stored_names());
        assert forall|i: int| 0 <= i < v@.len() implies *(#[trigger] v@[i]).1 == self@[v@[i].0@] by {
            assert(self@[self.entries@[i].0@] == self.entries@[i].1);
        }
        v
    }

    /// Registers `tool` under `name`. A tool already registered under that
    /// name is replaced and handed back.
    pub fn insert(&mut self, name: String, tool: H) -> (previous: Option<H>)
        ensures
            final(self)@ == old(self)@.insert(name@, tool),
            previous is Some == old(self)@.contains_key(name@),
            previous matches Some(h) ==> h == old(self)@[name@],
    {
        proof {
            use_type_invariant(&*self);
        }
        let pos = self.position(&name);
        let ghost key = name@;
        let mut taken = ToolRegistry::new();
        std::mem::swap(&mut taken, self);
        proof {
            use_type_invariant(&taken);
        }
        let ToolRegistry { mut entries, model } = taken;
        let ghost old_entries = entries@;
        let ghost old_names = old_entries.map_values(|e: (String, H)| e.0@);
        let ghost new_model = model@.insert(key, tool);
        match pos {
            Some(i) => {
                entries.push((name, tool));
                let (_, previous) = entries.swap_remove(i);
                let ghost new_names = entries@.map_values(|e: (String, H)| e.0@);
                assert(entries@ =~= old_entries.update(i as int, (entries@[i as int].0, tool)));
                assert(new_names =~= old_names);
                assert(old_names[i as int] == key);
                assert(new_model.dom() =~= model@.dom());
                assert forall|j: int| 0 <= j < entries@.len() implies new_model[#[trigger] entries@[j].0@]
                    == entries@[j].1 by {
                    if j != i {
                        assert(old_names[j] == entries@[j].0@);
                        assert(old_names[j] != old_names[i as int]);
                    }
                }
                *self = ToolRegistry { entries, model: Ghost(new_model) };
                Some(previous)
            },
            None => {
                entries.push((name, tool));
                let ghost new_names = entries@.map_values(|e: (String, H)| e.0@);
                assert(new_names =~= old_names.push(key));
                proof {
                    old_names.lemma_push_to_set_commute(key);
                }
                assert(new_model.dom() =~= new_names.to_set());
                assert forall|a: int, b: int|
                    0 <= a < new_names.len() && 0 <= b < new_names.len() && a != b implies new_names[a]
                    != new_names[b] by {
                    if a < old_names.len() && b < old_names.len() {
                    } else if a < old_names.len() {
                        assert(old_names.contains(old_names[a]));
                    } else {
                        assert(old_names.contains(old_names[b]));
                    }
                }
                assert forall|j: int| 0 <= j < entries@.len() implies new_model[#[trigger] entries@[j].0@]
                    == entries@[j].1 by {
                    if j < old_entries.len() {
                        assert(old_names.contains(old_names[j]));
                        assert(old_names[j] == entries@[j].0@);
                    }
                }
                *self = ToolRegistry { entries, model: Ghost(new_model) };
                None
            },
        }
    }
}

} // verus!
