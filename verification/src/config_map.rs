use vstd::prelude::*;

verus! {

/// A value of a section's configuration, as far as a section constructor
/// reads it: a string, or a value of any other type.
#[derive(Clone, Debug)]
pub enum ConfigValue {
    Str(String),
    Other,
}

/// The mathematical value of a [`ConfigValue`].
pub enum ConfigValueView {
    Str(Seq<char>),
    Other,
}

impl View for ConfigValue {
    type V = ConfigValueView;

    open spec fn view(&self) -> ConfigValueView {
        match self {
            ConfigValue::Str(s) => ConfigValueView::Str(s@),
            ConfigValue::Other => ConfigValueView::Other,
        }
    }
}

impl ConfigValue {
    /// The string this value holds, if it is one.
    pub fn as_str(&self) -> (s: Option<&str>)
        ensures
            match self@ {
                ConfigValueView::Str(text) => s is Some && s->0@ == text,
                ConfigValueView::Other => s is None,
            },
    {
        match self {
            ConfigValue::Str(text) => Some(text.as_str()),
            ConfigValue::Other => None,
        }
    }
}

/// The map that a list of entries denotes: each entry binds its key, a later
/// entry overriding an earlier one.
pub open spec fn entries_map(entries: Seq<(String, ConfigValue)>) -> Map<Seq<char>, ConfigValueView>
    decreases entries.len(),
{
    if entries.len() == 0 {
        Map::empty()
    } else {
        entries_map(entries.drop_last()).insert(entries.last().0@, entries.last().1@)
    }
}

/// No two entries have the same key.
pub open spec fn keys_distinct(entries: Seq<(String, ConfigValue)>) -> bool {
    forall|i: int, j: int|
        0 <= i < entries.len() && 0 <= j < entries.len() && i != j ==> #[trigger] entries[i].0@
            != #[trigger] entries[j].0@
}

proof fn lemma_entries_map_absent(entries: Seq<(String, ConfigValue)>, key: Seq<char>)
    requires
        forall|i: int| 0 <= i < entries.len() ==> #[trigger] entries[i].0@ != key,
    ensures
        !entries_map(entries).contains_key(key),
    decreases entries.len(),
{
    if entries.len() > 0 {
        let rest = entries.drop_last();
        assert forall|i: int| 0 <= i < rest.len() implies #[trigger] rest[i].0@ != key by {
            assert(rest[i] == entries[i]);
        }
        lemma_entries_map_absent(rest, key);
        assert(entries.last() == entries[entries.len() - 1]);
    }
}

proof fn lemma_entries_map_at(entries: Seq<(String, ConfigValue)>, i: int)
    requires
        keys_distinct(entries),
        0 <= i < entries.len(),
    ensures
        entries_map(entries).contains_key(entries[i].0@),
        entries_map(entries)[entries[i].0@] == entries[i].1@,
    decreases entries.len(),
{
    let last = entries.len() - 1;
    assert(entries.last() == entries[last]);
    if i != last {
        let rest = entries.drop_last();
        assert(rest[i] == entries[i]);
        assert forall|a: int, b: int|
            0 <= a < rest.len() && 0 <= b < rest.len() && a != b implies #[trigger] rest[a].0@
                != #[trigger] rest[b].0@ by {
            assert(rest[a] == entries[a]);
            assert(rest[b] == entries[b]);
        }
        lemma_entries_map_at(rest, i);
        assert(entries[i].0@ != entries[last].0@);
    }
}

proof fn lemma_entries_map_update(entries: Seq<(String, ConfigValue)>, i: int, entry: (String, ConfigValue))
    requires
        keys_distinct(entries),
        0 <= i < entries.len(),
        entry.0@ == entries[i].0@,
    ensures
        entries_map(entries.update(i, entry)) == entries_map(entries).insert(entry.0@, entry.1@),
    decreases entries.len(),
{
    let updated = entries.update(i, entry);
    let last = entries.len() - 1;
    assert(updated.last() == updated[last]);
    assert(entries.last() == entries[last]);
    if i == last {
        assert(updated.drop_last() =~= entries.drop_last());
        assert(entries_map(entries.drop_last()).insert(entry.0@, entries[last].1@).insert(entry.0@, entry.1@)
            =~= entries_map(entries.drop_last()).insert(entry.0@, entry.1@));
    } else {
        let rest = entries.drop_last();
        assert(updated.drop_last() =~= rest.update(i, entry));
        assert forall|a: int, b: int|
            0 <= a < rest.len() && 0 <= b < rest.len() && a != b implies #[trigger] rest[a].0@
                != #[trigger] rest[b].0@ by {
            assert(rest[a] == entries[a]);
            assert(rest[b] == entries[b]);
        }
        assert(rest[i] == entries[i]);
        lemma_entries_map_update(rest, i, entry);
        assert(entry.0@ != entries[last].0@);
        assert(entries_map(updated) =~= entries_map(entries).insert(entry.0@, entry.1@));
    }
}

/// The configuration of a section: values under string keys.
pub struct ConfigMap {
    entries: Vec<(String, ConfigValue)>,
}

impl View for ConfigMap {
    type V = Map<Seq<char>, ConfigValueView>;

    closed spec fn view(&self) -> Map<Seq<char>, ConfigValueView> {
        entries_map(self.entries@)
    }
}

impl ConfigMap {
    #[verifier::type_invariant]
    closed spec fn well_formed(self) -> bool {
        keys_distinct(self.entries@)
    }

    /// An empty configuration.
    pub fn new() -> (map: Self)
        ensures
            map@ == Map::<Seq<char>, ConfigValueView>::empty(),
    {
        Self { entries: Vec::new() }
    }

    fn position(&self, key: &String) -> (pos: Option<usize>)
        ensures
            match pos {
                Some(i) => i < self.entries@.len() && self.entries@[i as int].0@ == key@,
                None => forall|j: int| 0 <= j < self.entries@.len() ==> #[trigger] self.entries@[j].0@ != key@,
            },
    {
        let mut i: usize = 0;
        while i < self.entries.len()
            invariant
                i <= self.entries@.len(),
                forall|j: int| 0 <= j < i ==> #[trigger] self.entries@[j].0@ != key@,
            decreases self.entries@.len() - i,
        {
            if self.entries[i].0 == *key {
                return Some(i);
            }
            i = i + 1;
        }
        None
    }

    /// The value under `key`, if there is one.
    pub fn get(&self, key: &str) -> (value: Option<&ConfigValue>)
        ensures
            match value {
                Some(v) => self@.contains_key(key@) && self@[key@] == v@,
                None => !self@.contains_key(key@),
            },
    {
        proof {
            use_type_invariant(self);
        }
        let owned = key.to_owned();
        match self.position(&owned) {
            Some(i) => {
                proof {
                    lemma_entries_map_at(self.entries@, i as int);
                }
                Some(&self.entries[i].1)
            },
            None => {
                proof {
                    lemma_entries_map_absent(self.entries@, key@);
                }
                None
            },
        }
    }

    /// Puts `value` under `key`, in place of any value that was there.
    pub fn insert(&mut self, key: String, value: ConfigValue)
        ensures
            final(self)@ == old(self)@.insert(key@, value@),
    {
        proof {
            use_type_invariant(&*self);
        }
        match self.position(&key) {
            Some(i) => {
                proof {
                    lemma_entries_map_update(self.entries@, i as int, (key, value));
                }
                let mut entries: Vec<(String, ConfigValue)> = Vec::new();
                std::mem::swap(&mut entries, &mut self.entries);
                entries.set(i, (key, value));
                self.entries = entries;
            },
            None => {
                let ghost entry = (key, value);
                let ghost before = self.entries@;
                let mut entries: Vec<(String, ConfigValue)> = Vec::new();
                std::mem::swap(&mut entries, &mut self.entries);
                entries.push((key, value));
                proof {
                    assert(entries@.drop_last() =~= before);
                    assert(entries@.last() == entry);
                }
                self.entries = entries;
            },
        }
    }
}

/// A value put under a key is what a lookup of that key then finds, and the
/// other keys keep their values.
pub proof fn lemma_get_after_insert(
    m: Map<Seq<char>, ConfigValueView>,
    key: Seq<char>,
    value: ConfigValueView,
    other: Seq<char>,
)
    ensures
        m.insert(key, value).contains_key(key),
        m.insert(key, value)[key] == value,
        other != key ==> m.insert(key, value).contains_key(other) == m.contains_key(other),
        other != key && m.contains_key(other) ==> m.insert(key, value)[other] == m[other],
{
}

} // verus!
