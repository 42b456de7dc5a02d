use vstd::prelude::*;
use vstd::string::*;

use crate::common::str_eq;
use crate::service::Service;

verus! {

/// For each path among `keys`, the position of its last occurrence.
pub open spec fn last_positions(keys: Seq<Seq<char>>) -> Map<Seq<char>, int>
    decreases keys.len(),
{
    if keys.len() == 0 {
        Map::empty()
    } else {
        last_positions(keys.drop_last()).insert(keys.last(), keys.len() - 1)
    }
}

proof fn lemma_keys_after(keys: Seq<Seq<char>>, i: int, k: Seq<char>)
    requires
        0 <= i <= keys.len(),
        forall|j: int| i <= j < keys.len() ==> keys[j] != k,
    ensures
        last_positions(keys).contains_key(k) == last_positions(keys.take(i)).contains_key(k),
        last_positions(keys).contains_key(k) ==> last_positions(keys)[k] == last_positions(
            keys.take(i),
        )[k],
    decreases keys.len(),
{
    if keys.len() > i {
        let s = keys.drop_last();
        lemma_keys_after(s, i, k);
        assert(s.take(i) =~= keys.take(i));
    } else {
        assert(keys.take(i) =~= keys);
    }
}

proof fn lemma_positions_in_range(keys: Seq<Seq<char>>, k: Seq<char>)
    ensures
        last_positions(keys).contains_key(k) ==> 0 <= last_positions(keys)[k] < keys.len()
            && keys[last_positions(keys)[k]] == k,
    decreases keys.len(),
{
    if keys.len() > 0 {
        lemma_positions_in_range(keys.drop_last(), k);
    }
}

/// Exact, case-sensitive map from a path to the handler registered for it.
/// Its view maps each registered path to the registration that serves it,
/// the last one made for that path. The registrations are kept in order in a
/// `Vec`, so that `handler` can name the box that each one holds.
pub struct Router {
    table: Vec<(String, Box<dyn Service>)>,
}

impl View for Router {
    type V = Map<Seq<char>, int>;

    closed spec fn view(&self) -> Self::V {
        last_positions(self.paths())
    }
}

impl Router {
    /// The paths of all registrations, oldest first.
    pub closed spec fn paths(&self) -> Seq<Seq<char>> {
        self.table@.map_values(|e: (String, Box<dyn Service>)| e.0@)
    }

    /// The handler of registration `i`.
    pub closed spec fn handler(&self, i: int) -> &Box<dyn Service> {
        &self.table@[i].1
    }
}

impl Default for Router {
    fn default() -> (r: Self)
        ensures
            r.paths() == Seq::<Seq<char>>::empty(),
            r@ == Map::<Seq<char>, int>::empty(),
    {
        let r = Router { table: Vec::new() };
        assert(r.paths() =~= Seq::<Seq<char>>::empty());
        r
    }
}

impl Router {
    /// A router with one registration per entry, in order; a later entry for a
    /// path wins over an earlier one.
    pub fn from_map(entries: Vec<(String, Box<dyn Service>)>) -> (r: Self)
        ensures
            r.paths() == entries@.map_values(|e: (String, Box<dyn Service>)| e.0@),
            r@ == last_positions(r.paths()),
            forall|i: int| 0 <= i < entries@.len() ==> #[trigger] r.handler(i) == &entries@[i].1,
    {
        Router { table: entries }
    }

    /// The handler registered for exactly `path`, if any.
    pub fn get(&self, path: &str) -> (r: Option<&Box<dyn Service>>)
        ensures
            r is Some <==> self@.contains_key(path@),
            r matches Some(s) ==> s == self.handler(self@[path@]),
            r is Some ==> 0 <= self@[path@] < self.paths().len() && self.paths()[self@[path@]]
                == path@,
    {
        let ghost keys = self.paths();
        let mut i: usize = self.table.len();
        while i > 0
            invariant
                i <= self.table@.len(),
                keys == self.paths(),
                forall|j: int| i <= j < self.table@.len() ==> keys[j] != path@,
            decreases i,
        {
            let entry = &self.table[i - 1];
            if str_eq(entry.0.as_str(), path) {
                proof {
                    lemma_keys_after(keys, i as int, path@);
                    assert(keys[i - 1] == path@);
                    lemma_positions_in_range(keys, path@);
                }
                return Some(&entry.1);
            }
            i = i - 1;
        }
        proof {
            lemma_keys_after(keys, 0, path@);
        }
        None
    }

    /// Registers the handler `entry.1` at the path `entry.0`, which from then
    /// on is served by it.
    pub fn insert(&mut self, entry: (String, Box<dyn Service>))
        ensures
            final(self).paths() == old(self).paths().push(entry.0@),
            final(self)@ == old(self)@.insert(entry.0@, old(self).paths().len() as int),
            *final(self).handler(old(self).paths().len() as int) == entry.1,
            forall|i: int|
                0 <= i < old(self).paths().len() ==> #[trigger] final(self).handler(i) == old(
                    self,
                ).handler(i),
    {
        let ghost before = self.paths();
        let ghost key = entry.0@;
        self.table.push(entry);
        assert(self.paths() =~= before.push(key));
        assert(self.paths().drop_last() =~= before);
    }
}

} // verus!
