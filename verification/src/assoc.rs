use vstd::prelude::*;

verus! {

/// A map keyed by strings that keeps its entries in insertion order; no key occurs twice.
pub struct AssocList<V> {
    items: Vec<(String, V)>,
}

/// Whether no key occurs twice in `items`.
pub open spec fn distinct_keys<V>(items: Seq<(String, V)>) -> bool {
    forall|i: int, j: int| 0 <= i < j < items.len() ==> items[i].0@ != items[j].0@
}

/// Whether `key` occurs in `items`.
pub open spec fn has_key<V>(items: Seq<(String, V)>, key: Seq<char>) -> bool {
    exists|i: int| 0 <= i < items.len() && items[i].0@ == key
}

/// The position of `key` in `items` (meaningful where it occurs).
pub open spec fn position_of<V>(items: Seq<(String, V)>, key: Seq<char>) -> int {
    choose|i: int| 0 <= i < items.len() && items[i].0@ == key
}

/// The map that `items` hold: each key to the value beside it.
pub open spec fn items_map<V>(items: Seq<(String, V)>) -> Map<Seq<char>, V> {
    Map::new(|k: Seq<char>| has_key(items, k), |k: Seq<char>| items[position_of(items, k)].1)
}

impl<V> View for AssocList<V> {
    type V = Map<Seq<char>, V>;

    closed spec fn view(&self) -> Map<Seq<char>, V> {
        items_map(self.items@)
    }
}

/// Whether the key `key` equals the text of `name`.
fn same_key(key: &String, name: &String) -> (res: bool)
    ensures
        res == (key@ == name@),
{
    *key == *name
}

/// The position of `key`, if it occurs.
fn find_in<V>(items: &Vec<(String, V)>, key: &String) -> (res: Option<usize>)
    ensures
        match res {
            Some(i) => i < items@.len() && items@[i as int].0@ == key@,
            None => !has_key(items@, key@),
        },
{
    let mut i: usize = 0;
    while i < items.len()
        invariant
            0 <= i <= items@.len(),
            forall|j: int| 0 <= j < i ==> items@[j].0@ != key@,
        decreases items@.len() - i,
    {
        if same_key(&items[i].0, key) {
            return Some(i);
        }
        i = i + 1;
    }
    None
}


/// At a position where a key occurs, the map holds the value stored there.
proof fn lemma_at_position<V>(items: Seq<(String, V)>, i: int)
    requires
        distinct_keys(items),
        0 <= i < items.len(),
    ensures
        items_map(items).contains_key(items[i].0@),
        items_map(items)[items[i].0@] == items[i].1,
{
    let k = items[i].0@;
    assert(has_key(items, k));
    let p = position_of(items, k);
    assert(p == i);
}


/// Stores `value` under `key` in `items`: a present key keeps its position and takes
/// the new value; a new key goes last.
fn insert_into<V>(items: &mut Vec<(String, V)>, key: String, value: V)
    requires
        distinct_keys(old(items)@),
    ensures
        distinct_keys(final(items)@),
        items_map(final(items)@) == items_map(old(items)@).insert(key@, value),
{
    let ghost k = key@;
    match find_in(items, &key) {
        Some(i) => {
            let _ = items.remove(i);
            items.insert(i, (key, value));
            proof {
                assert forall|a: int, b: int| 0 <= a < b < items@.len() implies
                    items@[a].0@ != items@[b].0@ by {
                    assert(old(items)@[a].0@ != old(items)@[b].0@ || a == b);
                }
                assert forall|q: Seq<char>| #[trigger] items_map(items@).contains_key(q) == items_map(old(items)@).insert(k, value).contains_key(q) by {
                    if has_key(old(items)@, q) {
                        let p = position_of(old(items)@, q);
                        assert(items@[p].0@ == q);
                    }
                    if has_key(items@, q) {
                        let p = position_of(items@, q);
                        if p != i {
                            assert(old(items)@[p].0@ == q);
                        }
                    }
                }
                assert forall|q: Seq<char>| #[trigger] items_map(items@).contains_key(q) implies items_map(items@)[q] == items_map(old(items)@).insert(k, value)[q] by {
                    let p = position_of(items@, q);
                    lemma_at_position(items@, p);
                    if q != k {
                        lemma_at_position(old(items)@, p);
                    }
                }
                assert(items_map(items@) =~= items_map(old(items)@).insert(k, value));
            }
        },
        None => {
            items.push((key, value));
            proof {
                let n = old(items)@.len() as int;
                assert forall|q: Seq<char>| #[trigger] items_map(items@).contains_key(q) == items_map(old(items)@).insert(k, value).contains_key(q) by {
                    if q == k {
                        assert(items@[n].0@ == k);
                    }
                    if has_key(old(items)@, q) {
                        let p = position_of(old(items)@, q);
                        assert(items@[p].0@ == q);
                    }
                    if has_key(items@, q) {
                        let p = position_of(items@, q);
                        if p != n {
                            assert(old(items)@[p].0@ == q);
                        }
                    }
                }
                assert forall|q: Seq<char>| #[trigger] items_map(items@).contains_key(q) implies items_map(items@)[q] == items_map(old(items)@).insert(k, value)[q] by {
                    let p = position_of(items@, q);
                    lemma_at_position(items@, p);
                    if q != k {
                        lemma_at_position(old(items)@, p);
                    }
                }
                assert(items_map(items@) =~= items_map(old(items)@).insert(k, value));
            }
        },
    }
}


/// Removes `key` from `items` and returns its value; the other entries keep their order.
fn remove_from<V>(items: &mut Vec<(String, V)>, key: &String) -> (res: Option<V>)
    requires
        distinct_keys(old(items)@),
    ensures
        distinct_keys(final(items)@),
        items_map(final(items)@) == items_map(old(items)@).remove(key@),
        match res {
            Some(v) => items_map(old(items)@).contains_key(key@) && items_map(old(items)@)[key@] == v,
            None => !items_map(old(items)@).contains_key(key@),
        },
{
    let ghost k = key@;
    match find_in(items, key) {
        Some(i) => {
            proof {
                lemma_at_position(old(items)@, i as int);
            }
            let (_, v) = items.remove(i);
            proof {
                assert forall|a: int, b: int| 0 <= a < b < items@.len() implies
                    items@[a].0@ != items@[b].0@ by {
                    let a2 = if a < i { a } else { a + 1 };
                    let b2 = if b < i { b } else { b + 1 };
                    assert(old(items)@[a2].0@ != old(items)@[b2].0@);
                }
                assert forall|q: Seq<char>| #[trigger] items_map(items@).contains_key(q) == items_map(old(items)@).remove(k).contains_key(q) by {
                    if has_key(old(items)@, q) && q != k {
                        let p = position_of(old(items)@, q);
                        assert(p != i);
                        let p2 = if p < i { p } else { p - 1 };
                        assert(items@[p2].0@ == q);
                    }
                    if has_key(items@, q) {
                        let p = position_of(items@, q);
                        let p2 = if p < i { p } else { p + 1 };
                        assert(old(items)@[p2].0@ == q);
                    }
                }
                assert forall|q: Seq<char>| #[trigger] items_map(items@).contains_key(q) implies items_map(items@)[q] == items_map(old(items)@).remove(k)[q] by {
                    let p = position_of(items@, q);
                    lemma_at_position(items@, p);
                    let p2 = if p < i { p } else { p + 1 };
                    lemma_at_position(old(items)@, p2);
                }
                assert(items_map(items@) =~= items_map(old(items)@).remove(k));
            }
            Some(v)
        },
        None => {
            proof {
                assert(items_map(items@) =~= items_map(old(items)@).remove(k));
            }
            None
        },
    }
}

impl<V> AssocList<V> {
    /// No key occurs twice.
    #[verifier::type_invariant]
    spec fn wf(&self) -> bool {
        distinct_keys(self.items@)
    }

    /// An empty map.
    pub fn new() -> (res: Self)
        ensures
            res@ == Map::<Seq<char>, V>::empty(),
    {
        let res = AssocList { items: Vec::new() };
        proof {
            assert(res@ =~= Map::<Seq<char>, V>::empty());
        }
        res
    }

    /// Whether `key` is in the map.
    pub fn contains(&self, key: &String) -> (res: bool)
        ensures
            res == self@.contains_key(key@),
    {
        find_in(&self.items, key).is_some()
    }

    /// The value stored under `key`, if any.
    pub fn get(&self, key: &String) -> (res: Option<&V>)
        ensures
            match res {
                Some(v) => self@.contains_key(key@) && self@[key@] == *v,
                None => !self@.contains_key(key@),
            },
    {
        match find_in(&self.items, key) {
            Some(i) => {
                proof {
                    use_type_invariant(self);
                    lemma_at_position(self.items@, i as int);
                }
                Some(&self.items[i].1)
            },
            None => None,
        }
    }

    /// Stores `value` under `key`: a present key keeps its position and takes the new
    /// value; a new key goes last.
    pub fn insert(&mut self, key: String, value: V)
        ensures
            final(self)@ == old(self)@.insert(key@, value),
    {
        proof {
            use_type_invariant(&*self);
        }
        let mut items: Vec<(String, V)> = Vec::new();
        std::mem::swap(&mut items, &mut self.items);
        insert_into(&mut items, key, value);
        self.items = items;
    }

    /// Removes `key` and returns its value; the other entries keep their order.
    pub fn remove(&mut self, key: &String) -> (res: Option<V>)
        ensures
            final(self)@ == old(self)@.remove(key@),
            match res {
                Some(v) => old(self)@.contains_key(key@) && old(self)@[key@] == v,
                None => !old(self)@.contains_key(key@),
            },
    {
        proof {
            use_type_invariant(&*self);
        }
        let mut items: Vec<(String, V)> = Vec::new();
        std::mem::swap(&mut items, &mut self.items);
        let res = remove_from(&mut items, key);
        self.items = items;
        res
    }
}

} // verus!
