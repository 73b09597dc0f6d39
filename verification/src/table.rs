//! A table of records under distinct keys, kept in the order in which the keys came in.
use vstd::prelude::*;

verus! {

/// A plain value that can be a key: two keys are the same exactly when they are equal.
pub trait Key: Copy {
    /// Whether the two keys are equal.
    fn same(&self, other: &Self) -> (r: bool)
        ensures
            r == (*self == *other),
    ;
}

impl Key for u32 {
    fn same(&self, other: &Self) -> (r: bool) {
        *self == *other
    }
}

impl Key for u64 {
    fn same(&self, other: &Self) -> (r: bool) {
        *self == *other
    }
}

/// Records of type `V`, each under its own key.
pub struct Table<K, V> {
    rows: Vec<(K, V)>,
}

/// Whether no key stands in two rows.
pub open spec fn distinct_keys<K, V>(rows: Seq<(K, V)>) -> bool {
    forall|i: int, j: int| 0 <= i < j < rows.len() ==> (#[trigger] rows[i]).0 != (#[trigger] rows[j]).0
}

/// Whether `key` stands in row `i`.
pub open spec fn has_key_at<K, V>(rows: Seq<(K, V)>, key: K, i: int) -> bool {
    0 <= i < rows.len() && rows[i].0 == key
}

/// The map that the rows write down.
pub open spec fn rows_map<K, V>(rows: Seq<(K, V)>) -> Map<K, V> {
    Map::new(
        |key: K| exists|i: int| has_key_at(rows, key, i),
        |key: K| rows[choose|i: int| has_key_at(rows, key, i)].1,
    )
}

impl<K, V> View for Table<K, V> {
    type V = Map<K, V>;

    closed spec fn view(&self) -> Map<K, V> {
        rows_map(self.rows@)
    }
}

impl<K, V> Table<K, V> {
    #[verifier::type_invariant]
    spec fn keys_are_distinct(&self) -> bool {
        distinct_keys(self.rows@)
    }

    /// The rows of the table, in order.
    pub closed spec fn rows(&self) -> Seq<(K, V)> {
        self.rows@
    }
}

impl<K: Key, V> Table<K, V> {
    /// A table without rows.
    pub fn new() -> (r: Self)
        ensures
            r@ == Map::<K, V>::empty(),
    {
        let r = Table { rows: Vec::new() };
        assert(r@ =~= Map::<K, V>::empty());
        r
    }

    /// The row in which `key` stands.
    fn position(&self, key: K) -> (r: Option<usize>)
        ensures
            match r {
                Some(i) => has_key_at(self.rows@, key, i as int),
                None => forall|i: int| !has_key_at(self.rows@, key, i),
            },
    {
        let mut i: usize = 0;
        while i < self.rows.len()
            invariant
                i <= self.rows.len(),
                forall|j: int| 0 <= j < i ==> !has_key_at(self.rows@, key, j),
            decreases self.rows.len() - i,
        {
            if self.rows[i].0.same(&key) {
                return Some(i);
            }
            i += 1;
        }
        None
    }

    /// The record under `key`.
    pub fn get(&self, key: K) -> (r: Option<&V>)
        ensures
            match r {
                Some(v) => self@.contains_key(key) && *v == self@[key],
                None => !self@.contains_key(key),
            },
    {
        proof {
            use_type_invariant(self);
        }
        match self.position(key) {
            Some(i) => {
                proof {
                    lemma_row_of_key(self.rows@, i as int);
                }
                Some(&self.rows[i].1)
            },
            None => None,
        }
    }

    /// Whether there is a record under `key`.
    pub fn contains_key(&self, key: K) -> (r: bool)
        ensures
            r == self@.contains_key(key),
    {
        match self.position(key) {
            Some(i) => {
                assert(has_key_at(self.rows@, key, i as int));
                true
            },
            None => false,
        }
    }

    /// Takes the record under `key` out of the table.
    pub fn remove(&mut self, key: K) -> (r: Option<V>)
        ensures
            final(self)@ == old(self)@.remove(key),
            match r {
                Some(v) => old(self)@.contains_key(key) && v == old(self)@[key],
                None => !old(self)@.contains_key(key),
            },
    {
        proof {
            use_type_invariant(&*self);
        }
        match self.position(key) {
            Some(i) => {
                let mut rows: Vec<(K, V)> = Vec::new();
                std::mem::swap(&mut rows, &mut self.rows);
                let ghost before = rows@;
                let row = rows.remove(i);
                proof {
                    lemma_row_of_key(before, i as int);
                    lemma_rows_remove(before, i as int);
                    assert(rows@ =~= before.remove(i as int));
                }
                self.rows = rows;
                Some(row.1)
            },
            None => {
                assert(self@ =~= self@.remove(key));
                None
            },
        }
    }

    /// Puts `value` under `key`, in place of the record that stood there.
    pub fn insert(&mut self, key: K, value: V)
        ensures
            final(self)@ == old(self)@.insert(key, value),
    {
        let _ = self.remove(key);
        proof {
            use_type_invariant(&*self);
        }
        let mut rows: Vec<(K, V)> = Vec::new();
        std::mem::swap(&mut rows, &mut self.rows);
        let ghost before = rows@;
        rows.push((key, value));
        proof {
            assert forall|i: int| !has_key_at(before, key, i) by {
                if has_key_at(before, key, i) {
                    assert(rows_map(before).contains_key(key));
                }
            }
            lemma_rows_push(before, key, value);
            assert(old(self)@.remove(key).insert(key, value) =~= old(self)@.insert(key, value));
        }
        self.rows = rows;
    }

    /// The number of records. The rows hold each of them once.
    pub fn len(&self) -> (r: usize)
        ensures
            distinct_keys(self.rows()),
            self@ == rows_map(self.rows()),
            r == self@.len(),
            r == self.rows().len(),
            self@.dom().finite(),
    {
        proof {
            use_type_invariant(self);
            lemma_rows_len(self.rows@);
        }
        self.rows.len()
    }

    /// The row at an index.
    pub fn row(&self, i: usize) -> (r: (K, &V))
        requires
            i < self.rows().len(),
        ensures
            r.0 == self.rows()[i as int].0,
            *r.1 == self.rows()[i as int].1,
    {
        (self.rows[i].0, &self.rows[i].1)
    }
}

/// What stands in a row stands under the row's key.
pub proof fn lemma_row_of_key<K, V>(rows: Seq<(K, V)>, i: int)
    requires
        distinct_keys(rows),
        0 <= i < rows.len(),
    ensures
        rows_map(rows).contains_key(rows[i].0),
        rows_map(rows)[rows[i].0] == rows[i].1,
{
    let key = rows[i].0;
    assert(has_key_at(rows, key, i));
    let j = choose|j: int| has_key_at(rows, key, j);
    assert(has_key_at(rows, key, j));
    assert(i == j);
}

proof fn lemma_rows_remove<K, V>(rows: Seq<(K, V)>, i: int)
    requires
        distinct_keys(rows),
        0 <= i < rows.len(),
    ensures
        distinct_keys(rows.remove(i)),
        rows_map(rows.remove(i)) == rows_map(rows).remove(rows[i].0),
{
    let after = rows.remove(i);
    let key = rows[i].0;
    assert forall|a: int, b: int| 0 <= a < b < after.len() implies (#[trigger] after[a]).0 != (
    #[trigger] after[b]).0 by {
        let x = if a < i { a } else { a + 1 };
        let y = if b < i { b } else { b + 1 };
        assert(after[a] == rows[x] && after[b] == rows[y]);
    }
    assert forall|k: K| rows_map(after).contains_key(k) <==> rows_map(rows).remove(key).contains_key(
        k,
    ) by {
        if rows_map(after).contains_key(k) {
            let a = choose|a: int| has_key_at(after, k, a);
            let x = if a < i { a } else { a + 1 };
            assert(has_key_at(rows, k, x));
            assert(rows[x].0 != rows[i].0);
        }
        if rows_map(rows).remove(key).contains_key(k) {
            let x = choose|x: int| has_key_at(rows, k, x);
            assert(x != i);
            let a = if x < i { x } else { x - 1 };
            assert(has_key_at(after, k, a));
        }
    }
    assert forall|k: K| rows_map(after).contains_key(k) implies rows_map(after)[k] == rows_map(
        rows,
    ).remove(key)[k] by {
        let a = choose|a: int| has_key_at(after, k, a);
        let x = if a < i { a } else { a + 1 };
        assert(after[a] == rows[x]);
        lemma_row_of_key(rows, x);
        lemma_row_of_key(after, a);
        assert(rows[x].0 != rows[i].0);
    }
    assert(rows_map(after) =~= rows_map(rows).remove(key));
}

proof fn lemma_rows_push<K, V>(rows: Seq<(K, V)>, key: K, value: V)
    requires
        distinct_keys(rows),
        forall|i: int| !has_key_at(rows, key, i),
    ensures
        distinct_keys(rows.push((key, value))),
        rows_map(rows.push((key, value))) == rows_map(rows).insert(key, value),
{
    let after = rows.push((key, value));
    assert forall|a: int, b: int| 0 <= a < b < after.len() implies (#[trigger] after[a]).0 != (
    #[trigger] after[b]).0 by {
        assert(!has_key_at(rows, key, a));
    }
    assert forall|k: K| rows_map(after).contains_key(k) <==> rows_map(rows).insert(
        key,
        value,
    ).contains_key(k) by {
        if rows_map(after).contains_key(k) {
            let a = choose|a: int| has_key_at(after, k, a);
            if a < rows.len() {
                assert(has_key_at(rows, k, a));
            }
        }
        if rows_map(rows).contains_key(k) {
            let a = choose|a: int| has_key_at(rows, k, a);
            assert(has_key_at(after, k, a));
        }
        assert(has_key_at(after, key, rows.len() as int));
    }
    assert forall|k: K| rows_map(after).contains_key(k) implies rows_map(after)[k] == rows_map(
        rows,
    ).insert(key, value)[k] by {
        let a = choose|a: int| has_key_at(after, k, a);
        lemma_row_of_key(after, a);
        if a < rows.len() {
            lemma_row_of_key(rows, a);
            assert(!has_key_at(rows, key, a));
        }
    }
    assert(rows_map(after) =~= rows_map(rows).insert(key, value));
}

proof fn lemma_rows_len<K, V>(rows: Seq<(K, V)>)
    requires
        distinct_keys(rows),
    ensures
        rows_map(rows).dom().finite(),
        rows_map(rows).len() == rows.len(),
    decreases rows.len(),
{
    if rows.len() == 0 {
        assert(rows_map(rows) =~= Map::<K, V>::empty());
    } else {
        let last = rows.len() - 1;
        let rest = rows.drop_last();
        let (key, value) = rows[last];
        assert(distinct_keys(rest));
        lemma_rows_len(rest);
        assert forall|i: int| !has_key_at(rest, key, i) by {
            if has_key_at(rest, key, i) {
                assert(rows[i].0 == rows[last].0);
            }
        }
        lemma_rows_push(rest, key, value);
        assert(rest.push((key, value)) =~= rows);
        if rows_map(rest).contains_key(key) {
            let i = choose|i: int| has_key_at(rest, key, i);
            assert(has_key_at(rest, key, i));
        }
        assert(rows_map(rows).dom() =~= rows_map(rest).dom().insert(key));
    }
}

} // verus!
