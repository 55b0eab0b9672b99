use vstd::prelude::*;
use crate::reading::{new_reading, TDS};

verus! {

/// Whether some row carries the identifier `id`.
pub open spec fn has_id(rows: Seq<TDS>, id: i32) -> bool {
    exists|i: int| 0 <= i < rows.len() && #[trigger] rows[i].id == id
}

/// No two rows share an identifier.
pub open spec fn ids_unique(rows: Seq<TDS>) -> bool {
    forall|i: int, j: int| 0 <= i < j < rows.len() ==> #[trigger] rows[i].id != #[trigger] rows[j].id
}

/// The most recently inserted row, if any.
pub open spec fn latest_spec(rows: Seq<TDS>) -> Option<TDS> {
    if rows.len() == 0 {
        None
    } else {
        Some(rows.last())
    }
}

/// Timestamps never increase along the sequence.
pub open spec fn descending(s: Seq<TDS>) -> bool {
    forall|i: int, j: int| 0 <= i < j < s.len() ==> #[trigger] s[j].timestamp <= #[trigger] s[i].timestamp
}

/// Puts `x`, inserted after every row of `s`, into the newest-first order `s`:
/// before the first row that is not strictly newer.
pub open spec fn place(s: Seq<TDS>, x: TDS) -> Seq<TDS>
    decreases s.len(),
{
    if s.len() == 0 {
        seq![x]
    } else if s[0].timestamp <= x.timestamp {
        seq![x] + s
    } else {
        seq![s[0]] + place(s.drop_first(), x)
    }
}

/// The rows by timestamp, newest first; among equal timestamps the row
/// inserted last comes first.
pub open spec fn newest_first(rows: Seq<TDS>) -> Seq<TDS>
    decreases rows.len(),
{
    if rows.len() == 0 {
        Seq::empty()
    } else {
        place(newest_first(rows.drop_last()), rows.last())
    }
}

/// At most `limit` rows of `newest_first(rows)`, from its start.
pub open spec fn recent_spec(rows: Seq<TDS>, limit: nat) -> Seq<TDS> {
    let s = newest_first(rows);
    if limit < s.len() {
        s.take(limit as int)
    } else {
        s
    }
}

proof fn lemma_place_at(s: Seq<TDS>, x: TDS, k: int)
    requires
        0 <= k <= s.len(),
        forall|i: int| 0 <= i < k ==> #[trigger] s[i].timestamp > x.timestamp,
        k == s.len() || s[k].timestamp <= x.timestamp,
    ensures
        place(s, x) == s.insert(k, x),
    decreases s.len(),
{
    if s.len() == 0 {
        assert(s.insert(k, x) =~= seq![x]);
    } else if k == 0 {
        assert(s.insert(k, x) =~= seq![x] + s);
    } else {
        let t = s.drop_first();
        assert forall|i: int| 0 <= i < k - 1 implies #[trigger] t[i].timestamp > x.timestamp by {
            assert(t[i] == s[i + 1]);
        }
        lemma_place_at(t, x, k - 1);
        assert(s.insert(k, x) =~= seq![s[0]] + t.insert(k - 1, x));
    }
}

proof fn lemma_place_descending(s: Seq<TDS>, x: TDS)
    requires
        descending(s),
    ensures
        descending(place(s, x)),
        place(s, x).len() == s.len() + 1,
        place(s, x).to_multiset() == s.to_multiset().insert(x),
    decreases s.len(),
{
    broadcast use vstd::seq_lib::group_to_multiset_ensures;
    if s.len() == 0 {
        assert(seq![x] =~= s.push(x));
    } else if s[0].timestamp <= x.timestamp {
        let p = seq![x] + s;
        assert forall|i: int, j: int| 0 <= i < j < p.len() implies #[trigger] p[j].timestamp <= #[trigger] p[i].timestamp by {
            if i > 0 {
                assert(p[i] == s[i - 1]);
            }
            assert(p[j] == s[j - 1]);
        }
        assert(p =~= s.insert(0, x));
        vstd::seq_lib::to_multiset_insert(s, 0, x);
    } else {
        let t = s.drop_first();
        assert(descending(t));
        lemma_place_descending(t, x);
        let q = place(t, x);
        let p = seq![s[0]] + q;
        assert forall|i: int, j: int| 0 <= i < j < p.len() implies #[trigger] p[j].timestamp <= #[trigger] p[i].timestamp by {
            assert(p[j] == q[j - 1]);
            if i > 0 {
                assert(p[i] == q[i - 1]);
            } else {
                assert(q.to_multiset().contains(q[j - 1]));
                assert(t.to_multiset().insert(x).contains(q[j - 1]));
                if q[j - 1] != x {
                    assert(t.to_multiset().contains(q[j - 1]));
                    let m = choose|m: int| 0 <= m < t.len() && t[m] == q[j - 1];
                    assert(s[m + 1] == t[m]);
                }
            }
        }
        assert(s =~= seq![s[0]] + t);
        vstd::seq_lib::lemma_multiset_commutative(seq![s[0]], q);
        vstd::seq_lib::lemma_multiset_commutative(seq![s[0]], t);
    }
}

/// The newest-first order is sorted by timestamp, descending, and holds
/// every row exactly once.
pub proof fn lemma_newest_first(rows: Seq<TDS>)
    ensures
        descending(newest_first(rows)),
        newest_first(rows).len() == rows.len(),
        newest_first(rows).to_multiset() == rows.to_multiset(),
    decreases rows.len(),
{
    broadcast use vstd::seq_lib::group_to_multiset_ensures;
    if rows.len() > 0 {
        lemma_newest_first(rows.drop_last());
        lemma_place_descending(newest_first(rows.drop_last()), rows.last());
        assert(rows =~= rows.drop_last().push(rows.last()));
    }
}


/// Sorts rows newest first: by timestamp descending, and among equal
/// timestamps the row that stands later in `rows` first.
pub fn sort_newest_first(rows: &Vec<TDS>) -> (r: Vec<TDS>)
    ensures
        r@ == newest_first(rows@),
{
    let mut out: Vec<TDS> = Vec::new();
    let mut i: usize = 0;
    while i < rows.len()
        invariant
            0 <= i <= rows.len(),
            out@ == newest_first(rows@.take(i as int)),
        decreases rows.len() - i,
    {
        let x = rows[i];
        proof {
            lemma_newest_first(rows@.take(i as int));
        }
        let mut k: usize = 0;
        while k < out.len() && out[k].timestamp > x.timestamp
            invariant
                0 <= k <= out.len(),
                out@ == newest_first(rows@.take(i as int)),
                forall|j: int| 0 <= j < k ==> #[trigger] out@[j].timestamp > x.timestamp,
            decreases out.len() - k,
        {
            k = k + 1;
        }
        proof {
            lemma_place_at(out@, x, k as int);
            assert(rows@.take(i + 1).drop_last() =~= rows@.take(i as int));
        }
        out.insert(k, x);
        i = i + 1;
    }
    assert(rows@.take(rows.len() as int) =~= rows@);
    out
}

/// At most `limit` rows, newest first (see `sort_newest_first`).
pub fn recent_of(rows: &Vec<TDS>, limit: usize) -> (r: Vec<TDS>)
    ensures
        r@ == recent_spec(rows@, limit as nat),
{
    let mut sorted = sort_newest_first(rows);
    if limit < sorted.len() {
        sorted.truncate(limit);
    }
    sorted
}

/// The row inserted last, if any.
pub fn latest_of(rows: &Vec<TDS>) -> (r: Option<TDS>)
    ensures
        r == latest_spec(rows@),
{
    if rows.len() == 0 {
        None
    } else {
        Some(rows[rows.len() - 1])
    }
}

/// Why an insert was refused.
#[derive(Clone, Copy, Debug, PartialEq, Eq, Structural)]
pub enum StoreError {
    /// A row with this identifier is already stored.
    DuplicateId(i32),
}

/// Append-only store of readings, in insertion order, with unique identifiers.
pub struct Store {
    rows: Vec<TDS>,
}

impl View for Store {
    type V = Seq<TDS>;

    closed spec fn view(&self) -> Seq<TDS> {
        self.rows@
    }
}

impl Store {
    /// Every stored identifier is unique.
    pub open spec fn wf(&self) -> bool {
        ids_unique(self@)
    }

    /// An empty store.
    pub fn new() -> (r: Store)
        ensures
            r.wf(),
            r@ == Seq::<TDS>::empty(),
    {
        Store { rows: Vec::new() }
    }

    /// Number of stored readings.
    pub fn len(&self) -> (r: usize)
        ensures
            r == self@.len(),
    {
        self.rows.len()
    }

    /// Whether a reading with identifier `id` is stored.
    pub fn contains_id(&self, id: i32) -> (r: bool)
        ensures
            r == has_id(self@, id),
    {
        let mut i: usize = 0;
        while i < self.rows.len()
            invariant
                0 <= i <= self@.len(),
                self@ == self.rows@,
                forall|j: int| 0 <= j < i ==> #[trigger] self@[j].id != id,
            decreases self.rows.len() - i,
        {
            if self.rows[i].id == id {
                return true;
            }
            i = i + 1;
        }
        false
    }

    /// Appends one reading, unless its identifier is already taken, in which
    /// case the store is left as it was.
    pub fn insert(&mut self, reading: TDS) -> (r: Result<(), StoreError>)
        requires
            old(self).wf(),
        ensures
            final(self).wf(),
            r is Ok <==> !has_id(old(self)@, reading.id),
            r is Ok ==> final(self)@ == old(self)@.push(reading),
            r is Err ==> r == Err::<(), StoreError>(StoreError::DuplicateId(reading.id))
                && final(self)@ == old(self)@,
    {
        if self.contains_id(reading.id) {
            Err(StoreError::DuplicateId(reading.id))
        } else {
            self.rows.push(reading);
            assert forall|i: int, j: int| 0 <= i < j < self@.len() implies #[trigger] self@[i].id != #[trigger] self@[j].id by {
                if j == self@.len() - 1 {
                    assert(old(self)@[i] == self@[i]);
                }
            }
            Ok(())
        }
    }

    /// Records a new reading of the given value, with a fresh identifier and
    /// the current time, and returns it; fails, naming the drawn identifier,
    /// where that identifier is already taken. On an empty store it succeeds.
    pub fn record(&mut self, tds_ppm_bits: u64) -> (r: Result<TDS, StoreError>)
        requires
            old(self).wf(),
        ensures
            final(self).wf(),
            old(self)@.len() == 0 ==> r is Ok,
            match r {
                Ok(t) => t.tds_ppm_bits == tds_ppm_bits && !has_id(old(self)@, t.id)
                    && final(self)@ == old(self)@.push(t),
                Err(StoreError::DuplicateId(id)) => has_id(old(self)@, id) && final(self)@ == old(self)@,
            },
    {
        let reading = new_reading(tds_ppm_bits);
        match self.insert(reading) {
            Ok(()) => Ok(reading),
            Err(e) => Err(e),
        }
    }

    /// The reading inserted last, if any.
    pub fn latest(&self) -> (r: Option<TDS>)
        ensures
            r == latest_spec(self@),
    {
        latest_of(&self.rows)
    }

    /// At most `limit` readings, by timestamp descending; among equal
    /// timestamps the one inserted later comes first.
    pub fn recent(&self, limit: usize) -> (r: Vec<TDS>)
        ensures
            r@ == recent_spec(self@, limit as nat),
            r@.len() <= limit,
            descending(r@),
    {
        proof {
            lemma_newest_first(self@);
        }
        recent_of(&self.rows, limit)
    }
}

} // verus!
