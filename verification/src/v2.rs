//! The parts of the Bigtable v2 data model that a client reads or fills.
use vstd::prelude::*;

verus! {

/// The row key at which a range starts.
#[derive(Debug, Clone)]
pub enum StartKey {
    /// The range begins with this key.
    StartKeyClosed(Vec<u8>),
    /// The range begins after this key.
    StartKeyOpen(Vec<u8>),
}

/// The row key at which a range ends.
#[derive(Debug, Clone)]
pub enum EndKey {
    /// The range ends before this key.
    EndKeyOpen(Vec<u8>),
    /// The range ends with this key.
    EndKeyClosed(Vec<u8>),
}

/// A contiguous range of row keys. A missing bound leaves that side unbounded.
#[derive(Debug, Clone)]
pub struct RowRange {
    pub start_key: Option<StartKey>,
    pub end_key: Option<EndKey>,
}

/// A set of rows: the rows with the given keys, and the rows in the given ranges.
#[derive(Debug, Clone)]
pub struct RowSet {
    pub row_keys: Vec<Vec<u8>>,
    pub row_ranges: Vec<RowRange>,
}

/// A request to read rows. `F` is the filter type that the transport understands, and `O` holds
/// whatever else it lets a request ask for.
#[derive(Debug, Clone)]
pub struct ReadRowsRequest<F, O> {
    pub table_name: String,
    pub app_profile_id: String,
    pub rows: Option<RowSet>,
    pub filter: Option<F>,
    pub rows_limit: i64,
    pub options: O,
}

impl<F, O: Default> Default for ReadRowsRequest<F, O> {
    fn default() -> (res: Self)
        ensures
            res.table_name@ == Seq::<char>::empty(),
            res.app_profile_id@ == Seq::<char>::empty(),
            res.rows is None,
            res.filter is None,
            res.rows_limit == 0,
            call_ensures(O::default, (), res.options),
    {
        ReadRowsRequest {
            table_name: String::new(),
            app_profile_id: String::new(),
            rows: None,
            filter: None,
            rows_limit: 0,
            options: O::default(),
        }
    }
}

/// Row keys are ordered as byte strings: `a` comes before `b` if `a` is a proper prefix of `b`,
/// or if `a` has the smaller byte at the first position where the two differ.
pub open spec fn key_less(a: Seq<u8>, b: Seq<u8>) -> bool {
    exists|i: int| key_less_at(a, b, i)
}

/// `a` and `b` agree before position `i`, and `a` ends there or has the smaller byte there.
pub open spec fn key_less_at(a: Seq<u8>, b: Seq<u8>, i: int) -> bool {
    &&& 0 <= i <= a.len()
    &&& i < b.len()
    &&& a.take(i) == b.take(i)
    &&& i < a.len() ==> a[i] < b[i]
}

impl RowRange {
    /// Whether the range holds `key`.
    pub open spec fn contains(self, key: Seq<u8>) -> bool {
        &&& match self.start_key {
            None => true,
            Some(StartKey::StartKeyClosed(start)) => !key_less(key, start@),
            Some(StartKey::StartKeyOpen(start)) => key_less(start@, key),
        }
        &&& match self.end_key {
            None => true,
            Some(EndKey::EndKeyOpen(end)) => key_less(key, end@),
            Some(EndKey::EndKeyClosed(end)) => !key_less(end@, key),
        }
    }
}

impl RowSet {
    /// Whether the set holds `key`.
    pub open spec fn contains(self, key: Seq<u8>) -> bool {
        ||| exists|i: int| 0 <= i < self.row_keys@.len() && (#[trigger] self.row_keys@[i])@ == key
        ||| exists|i: int|
            0 <= i < self.row_ranges@.len() && (#[trigger] self.row_ranges@[i]).contains(key)
    }
}

/// The order of row keys is irreflexive and transitive, and it compares any two distinct keys.
pub proof fn key_order_is_total(a: Seq<u8>, b: Seq<u8>, c: Seq<u8>)
    ensures
        !key_less(a, a),
        key_less(a, b) && key_less(b, c) ==> key_less(a, c),
        key_less(a, b) || key_less(b, a) || a == b,
{
    assert forall|i: int| !key_less_at(a, a, i) by {}
    if key_less(a, b) && key_less(b, c) {
        let i = choose|i: int| key_less_at(a, b, i);
        let j = choose|j: int| key_less_at(b, c, j);
        let k = if i < j { i } else { j };
        assert(a.take(k) =~= c.take(k)) by {
            assert forall|m: int| 0 <= m < k implies a[m] == c[m] by {
                assert(a[m] == a.take(i)[m] && b[m] == b.take(i)[m]);
                assert(b[m] == b.take(j)[m] && c[m] == c.take(j)[m]);
            }
        }
        if i < j {
            assert(b[i] == b.take(j)[i] && c[i] == c.take(j)[i]);
        } else if j < i {
            assert(a[j] == a.take(i)[j] && b[j] == b.take(i)[j]);
        }
        assert(key_less_at(a, c, k));
    }
    assert(a.take(0) =~= b.take(0));
    lemma_distinct_keys_compare(a, b, 0);
}

/// The first position where two keys differ decides: the smaller byte comes first, and so does the
/// key that ends there.
pub proof fn first_difference_decides(a: Seq<u8>, b: Seq<u8>, i: int)
    requires
        0 <= i <= a.len(),
        i < b.len(),
        forall|j: int| 0 <= j < i ==> a[j] == b[j],
        i < a.len() ==> a[i] < b[i],
    ensures
        key_less(a, b),
        !key_less(b, a),
{
    assert(a.take(i) =~= b.take(i));
    assert(key_less_at(a, b, i));
    key_order_is_total(a, b, a);
}

/// A closed bound belongs to the range, an open one does not, and without a bound the range does
/// not end on that side.
pub proof fn bounds_decide(range: RowRange, key: Seq<u8>)
    ensures
        range.contains(key) <==> {
            &&& match range.start_key {
                Some(StartKey::StartKeyClosed(start)) => start@ == key || key_less(start@, key),
                Some(StartKey::StartKeyOpen(start)) => start@ != key && !key_less(key, start@),
                None => true,
            }
            &&& match range.end_key {
                Some(EndKey::EndKeyOpen(end)) => end@ != key && !key_less(end@, key),
                Some(EndKey::EndKeyClosed(end)) => end@ == key || key_less(key, end@),
                None => true,
            }
        },
{
    let start = match range.start_key {
        Some(StartKey::StartKeyClosed(start)) => start@,
        Some(StartKey::StartKeyOpen(start)) => start@,
        None => key,
    };
    let end = match range.end_key {
        Some(EndKey::EndKeyOpen(end)) => end@,
        Some(EndKey::EndKeyClosed(end)) => end@,
        None => key,
    };
    key_order_is_total(start, key, start);
    key_order_is_total(key, start, key);
    key_order_is_total(end, key, end);
    key_order_is_total(key, end, key);
}

/// A set holds the keys that it lists and the keys in its ranges, and no others.
pub proof fn row_set_holds_what_it_lists(rows: RowSet, key: Seq<u8>)
    ensures
        forall|i: int|
            0 <= i < rows.row_keys@.len() ==> rows.contains((#[trigger] rows.row_keys@[i])@),
        forall|i: int|
            0 <= i < rows.row_ranges@.len() && (#[trigger] rows.row_ranges@[i]).contains(key)
                ==> rows.contains(key),
        (forall|i: int| 0 <= i < rows.row_keys@.len() ==> (#[trigger] rows.row_keys@[i])@ != key)
            && (forall|i: int|
            0 <= i < rows.row_ranges@.len() ==> !(#[trigger] rows.row_ranges@[i]).contains(key))
            ==> !rows.contains(key),
{
}

/// Two keys that agree before position `i` are equal, or one comes before the other.
proof fn lemma_distinct_keys_compare(a: Seq<u8>, b: Seq<u8>, i: int)
    requires
        0 <= i <= a.len(),
        i <= b.len(),
        a.take(i) == b.take(i),
    ensures
        key_less(a, b) || key_less(b, a) || a == b,
    decreases a.len() - i,
{
    if i == a.len() || i == b.len() {
        if a.len() == b.len() {
            assert(a.take(i) =~= a && b.take(i) =~= b);
        } else if i == a.len() {
            assert(key_less_at(a, b, i));
        } else {
            assert(key_less_at(b, a, i));
        }
    } else if a[i] < b[i] {
        assert(key_less_at(a, b, i));
    } else if b[i] < a[i] {
        assert(key_less_at(b, a, i));
    } else {
        assert(a.take(i + 1) =~= a.take(i).push(a[i]));
        assert(b.take(i + 1) =~= b.take(i).push(b[i]));
        lemma_distinct_keys_compare(a, b, i + 1);
    }
}

} // verus!
