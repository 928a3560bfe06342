//! The persisted store: a mapping from string keys to string values that is
//! kept in memory and written out only when it has changed.

use vstd::prelude::*;

verus! {

/// The name of the file that holds the store, below the directory that the
/// platform gives the application for its data.
pub const STORE_FILE_NAME: &'static str = "app.ron";

/// The mapping that a list of entries stands for: the entries are entered
/// one after the other, so that of two entries with one key the later counts.
pub open spec fn entry_map(entries: Seq<(String, String)>) -> Map<Seq<char>, Seq<char>>
    decreases entries.len(),
{
    if entries.len() == 0 {
        Map::empty()
    } else {
        entry_map(entries.drop_last()).insert(entries.last().0@, entries.last().1@)
    }
}

/// Whether no key occurs twice among the entries.
pub open spec fn distinct_keys(entries: Seq<(String, String)>) -> bool {
    forall|i: int, j: int| 0 <= i < j < entries.len() ==> entries[i].0@ != entries[j].0@
}

/// Whether an entry has the key `key`.
pub open spec fn has_key(entries: Seq<(String, String)>, key: Seq<char>) -> bool {
    exists|i: int| 0 <= i < entries.len() && #[trigger] entries[i].0@ == key
}

/// A key is in the mapping exactly if an entry has it.
proof fn lemma_entry_keys(entries: Seq<(String, String)>, key: Seq<char>)
    ensures
        entry_map(entries).dom().contains(key) <==> has_key(entries, key),
    decreases entries.len(),
{
    if entries.len() > 0 {
        let front = entries.drop_last();
        let last = entries.len() - 1;
        lemma_entry_keys(front, key);
        if entries[last].0@ == key {
            assert(has_key(entries, key));
        } else {
            if has_key(front, key) {
                let i = choose|i: int| 0 <= i < front.len() && #[trigger] front[i].0@ == key;
                assert(entries[i].0@ == key);
            }
            if has_key(entries, key) {
                let i = choose|i: int| 0 <= i < entries.len() && #[trigger] entries[i].0@ == key;
                assert(front[i].0@ == key);
            }
        }
    }
}

/// Where no key occurs twice, each entry's value is what the mapping gives
/// for its key.
proof fn lemma_entry_value(entries: Seq<(String, String)>, at: int)
    requires
        distinct_keys(entries),
        0 <= at < entries.len(),
    ensures
        entry_map(entries).dom().contains(entries[at].0@),
        entry_map(entries)[entries[at].0@] == entries[at].1@,
    decreases entries.len(),
{
    let front = entries.drop_last();
    let last = entries.len() - 1;
    if at < last {
        assert(distinct_keys(front)) by {
            assert forall|i: int, j: int| 0 <= i < j < front.len() implies front[i].0@
                != front[j].0@ by {
                assert(entries[i].0@ != entries[j].0@);
            }
        }
        lemma_entry_value(front, at);
        assert(front[at] == entries[at]);
        assert(entries[at].0@ != entries[last].0@);
    }
}

/// Where no key occurs twice, the mapping has as many keys as there are
/// entries.
proof fn lemma_entry_count(entries: Seq<(String, String)>)
    requires
        distinct_keys(entries),
    ensures
        entry_map(entries).dom().finite(),
        entry_map(entries).dom().len() == entries.len(),
    decreases entries.len(),
{
    if entries.len() > 0 {
        let front = entries.drop_last();
        let last = entries.len() - 1;
        assert(distinct_keys(front)) by {
            assert forall|i: int, j: int| 0 <= i < j < front.len() implies front[i].0@
                != front[j].0@ by {
                assert(entries[i].0@ != entries[j].0@);
            }
        }
        lemma_entry_count(front);
        lemma_entry_keys(front, entries[last].0@);
        if has_key(front, entries[last].0@) {
            let i = choose|i: int| 0 <= i < front.len() && #[trigger] front[i].0@ == entries[last].0@;
            assert(entries[i].0@ != entries[last].0@);
        }
        assert(entry_map(entries).dom() =~= entry_map(front).dom().insert(entries[last].0@));
    }
}

/// Replacing the value of an entry, where no key occurs twice, enters the
/// new value under that key and keeps the keys distinct.
proof fn lemma_entry_replaced(entries: Seq<(String, String)>, at: int, entry: (String, String))
    requires
        distinct_keys(entries),
        0 <= at < entries.len(),
        entry.0@ == entries[at].0@,
    ensures
        distinct_keys(entries.update(at, entry)),
        entry_map(entries.update(at, entry)) == entry_map(entries).insert(entry.0@, entry.1@),
    decreases entries.len(),
{
    let after = entries.update(at, entry);
    assert(distinct_keys(after)) by {
        assert forall|i: int, j: int| 0 <= i < j < after.len() implies after[i].0@
            != after[j].0@ by {
            assert(entries[i].0@ != entries[j].0@);
        }
    }
    let front = entries.drop_last();
    if at == entries.len() - 1 {
        assert(after.drop_last() =~= front);
        assert(entry_map(after) =~= entry_map(entries).insert(entry.0@, entry.1@));
    } else {
        assert(distinct_keys(front)) by {
            assert forall|i: int, j: int| 0 <= i < j < front.len() implies front[i].0@
                != front[j].0@ by {
                assert(entries[i].0@ != entries[j].0@);
            }
        }
        lemma_entry_replaced(front, at, entry);
        assert(after.drop_last() =~= front.update(at, entry));
        assert(entries[at].0@ != entries[entries.len() - 1].0@);
        assert(entry_map(after) =~= entry_map(entries).insert(entry.0@, entry.1@));
    }
}

/// Adding an entry with a key that no entry has keeps the keys distinct.
proof fn lemma_entry_added(entries: Seq<(String, String)>, entry: (String, String))
    requires
        distinct_keys(entries),
        forall|i: int| 0 <= i < entries.len() ==> entries[i].0@ != entry.0@,
    ensures
        distinct_keys(entries.push(entry)),
        entry_map(entries.push(entry)) == entry_map(entries).insert(entry.0@, entry.1@),
{
    assert(entries.push(entry).drop_last() =~= entries);
}

/// The mapping that `ron::de::from_str` reads from a text, or `None` for a
/// text that it cannot read as a mapping from strings to strings. Reading
/// goes by the text alone: the same text gives the same mapping in every
/// process.
pub uninterp spec fn ron_mapping(text: Seq<char>) -> Option<Map<Seq<char>, Seq<char>>>;

/// Parses the text of a store with `ron::de::from_str`, as a mapping from
/// strings to strings, and hands out its entries in no fixed order. What
/// is claimed: the entries stand for the mapping that was read, which
/// depends on the text alone, and `None` stands for a text that is no
/// such mapping.
#[verifier::external_body]
fn decode_entries(text: &str) -> (entries: Option<Vec<(String, String)>>)
    ensures
        match entries {
            Some(read) => ron_mapping(text@) == Some(entry_map(read@)),
            None => ron_mapping(text@) is None,
        },
{
    match ron::de::from_str::<std::collections::HashMap<String, String>>(text) {
        Ok(kv) => Some(kv.into_iter().collect()),
        Err(_) => None,
    }
}

/// A mapping from string keys to string values, with a mark that says
/// whether it has changed since it was last written out.
///
/// The entries are kept in a vector in which no key occurs twice, and a
/// lookup walks it: a store holds a handful of settings. A hash map with
/// string keys would serve as well at run time, but vstd gives `String` no
/// key model, so nothing could be proved of what such a map holds.
pub struct KVStroage {
    entries: Vec<(String, String)>,
    dirty: bool,
}

impl KVStroage {
    /// No key is held twice.
    #[verifier::type_invariant]
    spec fn wf(self) -> bool {
        distinct_keys(self.entries@)
    }

    /// The mapping that the store holds.
    pub closed spec fn view(&self) -> Map<Seq<char>, Seq<char>> {
        entry_map(self.entries@)
    }

    /// Whether the store has changed since it was last written out.
    pub closed spec fn is_dirty(&self) -> bool {
        self.dirty
    }

    /// The store that holds `entries`, entered one after the other, and
    /// that has not changed yet.
    pub fn from_entries(entries: Vec<(String, String)>) -> (store: KVStroage)
        ensures
            store@ == entry_map(entries@),
            !store.is_dirty(),
    {
        let mut store = KVStroage { entries: Vec::new(), dirty: false };
        let mut i: usize = 0;
        while i < entries.len()
            invariant
                i <= entries@.len(),
                store@ == entry_map(entries@.subrange(0, i as int)),
            decreases entries@.len() - i,
        {
            store.set_string(entries[i].0.as_str(), entries[i].1.clone());
            proof {
                assert(entries@.subrange(0, i + 1).drop_last() =~= entries@.subrange(0, i as int));
            }
            i = i + 1;
        }
        proof {
            assert(entries@.subrange(0, i as int) =~= entries@);
            use_type_invariant(&store);
        }
        store.dirty = false;
        store
    }

    /// The store as it was last written out. `stored` is the text that was
    /// found, or `None` where none was. Without a text the store is empty,
    /// and so it is where the text cannot be read as a mapping.
    pub fn new(stored: Option<&str>) -> (store: KVStroage)
        ensures
            !store.is_dirty(),
            store@ == match stored {
                Some(text) => loaded_mapping(text@),
                None => Map::<Seq<char>, Seq<char>>::empty(),
            },
    {
        KVStroage::load(stored).0
    }

    /// The store as it was last written out, as `new` gives it, together
    /// with whether a text was found that cannot be read as a mapping. The
    /// store is empty then, and the caller may want to tell the user.
    pub fn load(stored: Option<&str>) -> (loaded: (KVStroage, bool))
        ensures
            !loaded.0.is_dirty(),
            loaded.0@ == match stored {
                Some(text) => loaded_mapping(text@),
                None => Map::<Seq<char>, Seq<char>>::empty(),
            },
            loaded.1 == (stored matches Some(text) && ron_mapping(text@) is None),
    {
        match stored {
            None => (KVStroage::from_decoded(None), false),
            Some(text) => {
                let decoded = decode_entries(text);
                let unreadable = decoded.is_none();
                (KVStroage::from_decoded(decoded), unreadable)
            },
        }
    }

    /// The store for what reading the stored text gave: its entries, or
    /// `None` where there was no text or none that could be read.
    pub fn from_decoded(decoded: Option<Vec<(String, String)>>) -> (store: KVStroage)
        ensures
            !store.is_dirty(),
            store@ == match decoded {
                Some(entries) => entry_map(entries@),
                None => Map::<Seq<char>, Seq<char>>::empty(),
            },
    {
        match decoded {
            Some(entries) => KVStroage::from_entries(entries),
            None => KVStroage::from_entries(Vec::new()),
        }
    }

    /// Whether the store has changed since it was last written out.
    pub fn needs_flush(&self) -> (dirty: bool)
        ensures
            dirty == self.is_dirty(),
    {
        self.dirty
    }

    /// How many keys the store holds.
    pub fn len(&self) -> (n: usize)
        ensures
            self@.dom().finite(),
            n == self@.dom().len(),
    {
        proof {
            use_type_invariant(self);
            lemma_entry_count(self.entries@);
        }
        self.entries.len()
    }

    /// Where in the entries `key` is held.
    fn position(&self, key: &String) -> (at: Option<usize>)
        ensures
            match at {
                Some(i) => i < self.entries@.len() && self.entries@[i as int].0@ == key@,
                None => forall|i: int|
                    0 <= i < self.entries@.len() ==> self.entries@[i].0@ != key@,
            },
    {
        let mut i: usize = 0;
        while i < self.entries.len()
            invariant
                i <= self.entries@.len(),
                forall|k: int| 0 <= k < i ==> self.entries@[k].0@ != key@,
            decreases self.entries@.len() - i,
        {
            if self.entries[i].0 == *key {
                return Some(i);
            }
            i = i + 1;
        }
        None
    }

    /// The value that is held under `key`, if there is one.
    pub fn get_string(&self, key: &str) -> (value: Option<String>)
        ensures
            match value {
                Some(v) => self@.dom().contains(key@) && self@[key@] == v@,
                None => !self@.dom().contains(key@),
            },
    {
        let owned = key.to_owned();
        proof {
            use_type_invariant(self);
        }
        match self.position(&owned) {
            Some(i) => {
                proof {
                    lemma_entry_value(self.entries@, i as int);
                }
                Some(self.entries[i].1.clone())
            },
            None => {
                proof {
                    lemma_entry_keys(self.entries@, key@);
                }
                None
            },
        }
    }

    /// Puts `value` under `key`, in place of what was held there, and marks
    /// the store as changed.
    pub fn set_string(&mut self, key: &str, value: String)
        ensures
            final(self)@ == old(self)@.insert(key@, value@),
            final(self).is_dirty(),
    {
        let owned = key.to_owned();
        proof {
            use_type_invariant(&*self);
        }
        let found = self.position(&owned);
        let mut entries: Vec<(String, String)> = Vec::new();
        std::mem::swap(&mut entries, &mut self.entries);
        match found {
            Some(i) => {
                proof {
                    lemma_entry_replaced(entries@, i as int, (owned, value));
                }
                entries.set(i, (owned, value));
            },
            None => {
                proof {
                    lemma_entry_added(entries@, (owned, value));
                }
                entries.push((owned, value));
            },
        }
        self.entries = entries;
        self.dirty = true;
    }

    /// Says what is to be written out, if anything: a store that has
    /// changed hands out its text, which reads back as the mapping that the
    /// store holds, and counts as unchanged from then on. A store that has
    /// not changed hands out nothing.
    pub fn flush(&mut self) -> (text: Option<String>)
        ensures
            final(self)@ == old(self)@,
            !final(self).is_dirty(),
            text is Some <==> old(self).is_dirty(),
            text matches Some(written) ==> ron_mapping(written@) == Some(old(self)@),
    {
        proof {
            use_type_invariant(&*self);
        }
        if self.dirty {
            self.dirty = false;
            encode_entries(&self.entries)
        } else {
            None
        }
    }
}

/// The mapping that a store starts with when `text` was found stored: what
/// the text reads as, and nothing where it cannot be read.
pub open spec fn loaded_mapping(text: Seq<char>) -> Map<Seq<char>, Seq<char>> {
    match ron_mapping(text) {
        Some(held) => held,
        None => Map::empty(),
    }
}

/// Writes the entries as a mapping from strings to strings, in the readable
/// layout of `ron::ser::to_string_pretty` with its default configuration.
/// No key may occur twice, so that each entry becomes one entry of the
/// mapping. The order of the entries in the text is not fixed.
///
/// What is claimed, whatever the order: there is a text, and
/// `ron::de::from_str` reads it back as the mapping that the entries stand
/// for. The serializer fails only on a layout string that is no white
/// space, which the default configuration does not have, on a writer that
/// fails, which a `String` never does, and beyond 128 levels of nesting,
/// where a mapping of strings has two. That the text reads back is what ron
/// promises of a round trip through its text.
#[verifier::external_body]
fn encode_entries(entries: &Vec<(String, String)>) -> (text: Option<String>)
    requires
        distinct_keys(entries@),
    ensures
        text is Some,
        text matches Some(written) ==> ron_mapping(written@) == Some(entry_map(entries@)),
{
    let kv: std::collections::HashMap<String, String> = entries.iter().cloned().collect();
    ron::ser::to_string_pretty(&kv, ron::ser::PrettyConfig::default()).ok()
}

/// A store that is written out and loaded again holds what it held: the
/// text that a flush hands out is read back as the mapping of the store,
/// and is not taken for unreadable.
pub proof fn lemma_flush_then_load(held: Map<Seq<char>, Seq<char>>, written: Seq<char>)
    requires
        ron_mapping(written) == Some(held),
    ensures
        loaded_mapping(written) == held,
        ron_mapping(written) is Some,
{
}

/// What was put under a key is what is held under it afterwards, and the
/// other keys hold what they held.
pub proof fn lemma_set_then_get(
    held: Map<Seq<char>, Seq<char>>,
    key: Seq<char>,
    value: Seq<char>,
    other: Seq<char>,
)
    ensures
        held.insert(key, value).dom().contains(key),
        held.insert(key, value)[key] == value,
        other != key ==> held.insert(key, value).dom().contains(other) == held.dom().contains(
            other,
        ),
        other != key && held.dom().contains(other) ==> held.insert(key, value)[other]
            == held[other],
{
}

} // verus!
