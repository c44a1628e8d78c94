use vstd::prelude::*;

verus! {

/// A leaf of a configuration document: the value held under a key of a record.
#[derive(Clone, Debug, PartialEq, Eq)]
pub enum Scalar {
    Text(String),
    Number(u64),
}

/// A value held under a top-level key of a configuration document.
#[derive(Clone, Debug, PartialEq, Eq)]
pub enum Value {
    Text(String),
    Number(u64),
    Record(Vec<(String, Scalar)>),
}

/// A configuration document: keys and values in the order in which they were written.
#[derive(Clone, Debug, PartialEq, Eq)]
pub struct Document {
    pub entries: Vec<(String, Value)>,
}

/// What a `Scalar` holds, as a mathematical value.
pub enum ScalarModel {
    Text(Seq<char>),
    Number(u64),
}

/// What a `Value` holds, as a mathematical value.
pub enum ValueModel {
    Text(Seq<char>),
    Number(u64),
    Record(Seq<(Seq<char>, ScalarModel)>),
}

impl View for Scalar {
    type V = ScalarModel;

    open spec fn view(&self) -> ScalarModel {
        match self {
            Scalar::Text(t) => ScalarModel::Text(t@),
            Scalar::Number(n) => ScalarModel::Number(*n),
        }
    }
}

/// The entries of a record or a document, keys and values taken by their views.
pub open spec fn entries_view<V: View>(s: Seq<(String, V)>) -> Seq<(Seq<char>, V::V)> {
    s.map_values(|e: (String, V)| (e.0@, e.1@))
}

impl View for Value {
    type V = ValueModel;

    open spec fn view(&self) -> ValueModel {
        match self {
            Value::Text(t) => ValueModel::Text(t@),
            Value::Number(n) => ValueModel::Number(*n),
            Value::Record(r) => ValueModel::Record(entries_view(r@)),
        }
    }
}

impl View for Document {
    type V = Seq<(Seq<char>, ValueModel)>;

    open spec fn view(&self) -> Seq<(Seq<char>, ValueModel)> {
        entries_view(self.entries@)
    }
}

/// The value under the first entry whose key is `key`, if any.
pub open spec fn find<V>(s: Seq<(Seq<char>, V)>, key: Seq<char>) -> Option<V>
    decreases s.len(),
{
    if s.len() == 0 {
        None
    } else if s[0].0 == key {
        Some(s[0].1)
    } else {
        find(s.subrange(1, s.len() as int), key)
    }
}

/// Looks up `key` among `entries`; the first entry with that key wins.
pub fn lookup<'a, V: View>(entries: &'a Vec<(String, V)>, key: &String) -> (r: Option<&'a V>)
    ensures
        r matches Some(v) ==> find(entries_view(entries@), key@) == Some(v@),
        r is None ==> find(entries_view(entries@), key@) is None,
{
    let ghost all = entries_view(entries@);
    assert(all.subrange(0, all.len() as int) =~= all);
    let mut i: usize = 0;
    while i < entries.len()
        invariant
            i <= entries.len(),
            all == entries_view(entries@),
            all.len() == entries@.len(),
            find(all, key@) == find(all.subrange(i as int, all.len() as int), key@),
        decreases entries.len() - i,
    {
        let ghost rest = all.subrange(i as int, all.len() as int);
        assert(rest[0] == all[i as int]);
        if entries[i].0 == *key {
            return Some(&entries[i].1);
        }
        assert(rest.subrange(1, rest.len() as int) =~= all.subrange(i + 1, all.len() as int));
        i = i + 1;
    }
    None
}

/// The view of a value that may be absent.
pub open spec fn value_opt(o: Option<&Value>) -> Option<ValueModel> {
    match o {
        Some(v) => Some(v@),
        None => None,
    }
}

impl Document {
    /// The value under `key`; the first entry with that key wins.
    pub fn get(&self, key: &str) -> (r: Option<&Value>)
        ensures
            value_opt(r) == find(self@, key@),
    {
        lookup(&self.entries, &key.to_owned())
    }
}

/// The text under `key` in a record, if the key is there and holds text.
pub open spec fn text_in(rec: Seq<(Seq<char>, ScalarModel)>, key: Seq<char>) -> Option<Seq<char>> {
    match find(rec, key) {
        Some(ScalarModel::Text(t)) => Some(t),
        _ => None,
    }
}

/// Reads the text under `key` in a record.
pub fn text_entry(rec: &Vec<(String, Scalar)>, key: &String) -> (r: Option<String>)
    ensures
        r matches Some(t) ==> text_in(entries_view(rec@), key@) == Some(t@),
        r is None ==> text_in(entries_view(rec@), key@) is None,
{
    match lookup(rec, key) {
        Some(Scalar::Text(t)) => Some(t.clone()),
        _ => None,
    }
}

/// `find` returns the value of the first entry that carries the key.
pub proof fn lemma_find_first<V>(s: Seq<(Seq<char>, V)>, key: Seq<char>, i: int)
    requires
        0 <= i < s.len(),
        s[i].0 == key,
        forall|j: int| 0 <= j < i ==> s[j].0 != key,
    ensures
        find(s, key) == Some(s[i].1),
    decreases i,
{
    if i > 0 {
        let rest = s.subrange(1, s.len() as int);
        assert(s[0].0 != key);
        assert forall|j: int| 0 <= j < i - 1 implies rest[j].0 != key by {
            assert(rest[j] == s[j + 1]);
        }
        assert(rest[i - 1] == s[i]);
        lemma_find_first(rest, key, i - 1);
    }
}

/// Looking up a key in two sequences of entries, one after the other, finds it in the
/// first where the first has it, and in the second otherwise.
pub proof fn lemma_find_concat<V>(a: Seq<(Seq<char>, V)>, b: Seq<(Seq<char>, V)>)
    ensures
        forall|k: Seq<char>|
            #[trigger] find(a + b, k) == if find(a, k) is Some {
                find(a, k)
            } else {
                find(b, k)
            },
    decreases a.len(),
{
    if a.len() == 0 {
        assert(a + b =~= b);
    } else {
        let rest = a.subrange(1, a.len() as int);
        lemma_find_concat(rest, b);
        assert((a + b).subrange(1, (a + b).len() as int) =~= rest + b);
        assert((a + b)[0] == a[0]);
        assert forall|k: Seq<char>|
            #[trigger] find(a + b, k) == if find(a, k) is Some {
                find(a, k)
            } else {
                find(b, k)
            } by {
            if a[0].0 != k {
                assert(find(a + b, k) == find(rest + b, k));
                assert(find(a, k) == find(rest, k));
            }
        }
    }
}

/// Looking up a key in a single entry.
pub proof fn lemma_find_single<V>(key: Seq<char>, v: V)
    ensures
        forall|k: Seq<char>|
            #[trigger] find(seq![(key, v)], k) == if key == k {
                Some(v)
            } else {
                None
            },
{
    let s = seq![(key, v)];
    assert(s.subrange(1, 1).len() == 0);
    assert forall|k: Seq<char>| #[trigger] find(s, k) == if key == k { Some(v) } else { None } by {
        assert(find(s.subrange(1, 1), k) is None);
    }
}

/// `find` returns something when some entry carries the key.
pub proof fn lemma_find_present<V>(s: Seq<(Seq<char>, V)>, key: Seq<char>, i: int)
    requires
        0 <= i < s.len(),
        s[i].0 == key,
    ensures
        find(s, key) is Some,
    decreases i,
{
    if i > 0 && s[0].0 != key {
        let rest = s.subrange(1, s.len() as int);
        assert(rest[i - 1] == s[i]);
        lemma_find_present(rest, key, i - 1);
    }
}

/// The entries of `s` without those whose key is `key`.
pub open spec fn without_key<V>(s: Seq<(Seq<char>, V)>, key: Seq<char>) -> Seq<(Seq<char>, V)>
    decreases s.len(),
{
    if s.len() == 0 {
        s
    } else if s[0].0 == key {
        without_key(s.subrange(1, s.len() as int), key)
    } else {
        seq![s[0]] + without_key(s.subrange(1, s.len() as int), key)
    }
}

/// Taking out the entries of one key hides that key and leaves every other key's value as it was.
pub proof fn lemma_find_without_key<V>(s: Seq<(Seq<char>, V)>, key: Seq<char>)
    ensures
        forall|k: Seq<char>|
            #[trigger] find(without_key(s, key), k) == if k == key {
                None
            } else {
                find(s, k)
            },
    decreases s.len(),
{
    if s.len() > 0 {
        let rest = s.subrange(1, s.len() as int);
        lemma_find_without_key(rest, key);
        assert forall|k: Seq<char>|
            #[trigger] find(without_key(s, key), k) == if k == key {
                None
            } else {
                find(s, k)
            } by {
            if s[0].0 != key {
                let w = seq![s[0]] + without_key(rest, key);
                assert(w[0] == s[0]);
                assert(w.subrange(1, w.len() as int) =~= without_key(rest, key));
                if s[0].0 != k {
                    assert(find(w, k) == find(without_key(rest, key), k));
                }
            } else {
                assert(find(without_key(s, key), k) == find(without_key(rest, key), k));
            }
        }
    }
}

/// `find` returns nothing when no entry carries the key.
pub proof fn lemma_find_absent<V>(s: Seq<(Seq<char>, V)>, key: Seq<char>)
    requires
        forall|j: int| 0 <= j < s.len() ==> s[j].0 != key,
    ensures
        find(s, key) is None,
    decreases s.len(),
{
    if s.len() > 0 {
        let rest = s.subrange(1, s.len() as int);
        assert(s[0].0 != key);
        assert forall|j: int| 0 <= j < rest.len() implies rest[j].0 != key by {
            assert(rest[j] == s[j + 1]);
        }
        lemma_find_absent(rest, key);
    }
}

} // verus!
