//! Row ranges that are computed from row keys.
use crate::v2::{EndKey, ReadRowsRequest, RowRange, RowSet, StartKey};
use vstd::prelude::*;

verus! {

/// Whether `prefix`, without its trailing `0xff` bytes, has length `len`.
pub open spec fn significant_len(prefix: Seq<u8>, len: int) -> bool {
    &&& 0 <= len <= prefix.len()
    &&& forall|i: int| len <= i < prefix.len() ==> prefix[i] == 0xff
    &&& len > 0 ==> prefix[len - 1] != 0xff
}

/// The least key above every key that starts with `prefix`, where `len` is the length of `prefix`
/// without its trailing `0xff` bytes: the last of those bytes is raised by one. `None` if every
/// byte is `0xff`, for then no key is above them all.
pub open spec fn prefix_end(prefix: Seq<u8>, len: int) -> Option<Seq<u8>> {
    if len == 0 {
        None
    } else {
        Some(prefix.take(len - 1).push((prefix[len - 1] + 1) as u8))
    }
}

/// Whether `range` starts with `prefix` itself, and ends before the least key above every key that
/// starts with `prefix`, if there is one.
pub open spec fn is_prefix_range(range: RowRange, prefix: Seq<u8>) -> bool {
    &&& range.start_key matches Some(StartKey::StartKeyClosed(start)) && start@ == prefix
    &&& exists|len: int| #[trigger]
        significant_len(prefix, len) && match range.end_key {
            Some(EndKey::EndKeyOpen(end)) => prefix_end(prefix, len) == Some(end@),
            Some(EndKey::EndKeyClosed(_)) => false,
            None => prefix_end(prefix, len) is None,
        }
}

/// A range with these bounds holds exactly the keys that start with `prefix`.
proof fn lemma_prefix_bounds(prefix: Seq<u8>, len: int, key: Seq<u8>)
    requires
        significant_len(prefix, len),
    ensures
        prefix.is_prefix_of(key) <==> {
            &&& !crate::v2::key_less(key, prefix)
            &&& prefix_end(prefix, len) matches Some(end) ==> crate::v2::key_less(key, end)
        },
{
    let end = prefix.take(len - 1).push((prefix[len - 1] + 1) as u8);
    if prefix.is_prefix_of(key) {
        assert forall|i: int| !crate::v2::key_less_at(key, prefix, i) by {
            if 0 <= i < prefix.len() {
                assert(key[i] == key.subrange(0, prefix.len() as int)[i]);
            }
        }
        if len > 0 {
            assert(key.take(len - 1) =~= end.take(len - 1)) by {
                assert forall|i: int| 0 <= i < len - 1 implies key[i] == end[i] by {
                    assert(key[i] == key.subrange(0, prefix.len() as int)[i]);
                }
            }
            assert(key[len - 1] == key.subrange(0, prefix.len() as int)[len - 1]);
            assert(crate::v2::key_less_at(key, end, len - 1));
        }
    } else if !crate::v2::key_less(key, prefix) {
        crate::v2::key_order_is_total(prefix, key, key);
        assert(prefix != key) by {
            assert(key.subrange(0, key.len() as int) =~= key);
        }
        let i = choose|i: int| crate::v2::key_less_at(prefix, key, i);
        assert(prefix.take(i) =~= key.take(i));
        if i == prefix.len() {
            assert(prefix.take(i) =~= prefix);
            assert(key.subrange(0, i) =~= key.take(i));
        }
        assert(i < len);
        assert forall|j: int| !crate::v2::key_less_at(key, end, j) by {
            if crate::v2::key_less_at(key, end, j) {
                if j < i {
                    assert(prefix[j] == prefix.take(i)[j] && key[j] == key.take(i)[j]);
                } else if i < j {
                    assert(key[i] == key.take(j)[i] && end[i] == end.take(j)[i]);
                }
            }
        }
    }
}

/// The exclusive upper bound of the keys that start with `prefix`.
fn get_end_key_from_prefix(prefix: &Vec<u8>) -> (res: Option<Vec<u8>>)
    ensures
        exists|len: int| #[trigger]
            significant_len(prefix@, len) && match res {
                Some(end) => prefix_end(prefix@, len) == Some(end@),
                None => prefix_end(prefix@, len) is None,
            },
{
    let mut len: usize = prefix.len();
    while len > 0 && prefix[len - 1] == 0xff
        invariant
            len <= prefix@.len(),
            forall|i: int| len <= i < prefix@.len() ==> prefix@[i] == 0xff,
        decreases len,
    {
        len = len - 1;
    }
    assert(significant_len(prefix@, len as int));
    if len == 0 {
        return None;
    }
    let mut end: Vec<u8> = Vec::new();
    let mut i: usize = 0;
    while i < len - 1
        invariant
            i <= len - 1 < prefix@.len(),
            end@ == prefix@.take(i as int),
        decreases len - i,
    {
        end.push(prefix[i]);
        assert(prefix@.take(i as int).push(prefix@[i as int]) =~= prefix@.take(i + 1));
        i = i + 1;
    }
    end.push(prefix[len - 1] + 1);
    Some(end)
}

/// The range of the keys that start with `prefix`.
pub fn get_row_range_from_prefix(prefix: Vec<u8>) -> (res: RowRange)
    ensures
        forall|key: Seq<u8>| #[trigger] res.contains(key) <==> prefix@.is_prefix_of(key),
        is_prefix_range(res, prefix@),
        res.start_key matches Some(StartKey::StartKeyClosed(start)) && start@ == prefix@,
        match res.end_key {
            Some(EndKey::EndKeyOpen(end)) => {
                &&& 0 < end@.len() <= prefix@.len()
                &&& end@.last() == prefix@[end@.len() - 1] + 1
                &&& forall|i: int| 0 <= i < end@.len() - 1 ==> end@[i] == #[trigger] prefix@[i]
                &&& forall|i: int| end@.len() <= i < prefix@.len() ==> prefix@[i] == 0xff
            },
            Some(EndKey::EndKeyClosed(_)) => false,
            None => forall|i: int| 0 <= i < prefix@.len() ==> prefix@[i] == 0xff,
        },
{
    let end_key = get_end_key_from_prefix(&prefix);
    let ghost len = choose|len: int| #[trigger]
        significant_len(prefix@, len) && match end_key {
            Some(end) => prefix_end(prefix@, len) == Some(end@),
            None => prefix_end(prefix@, len) is None,
        };
    let ghost start = prefix@;
    let res = RowRange {
        start_key: Some(StartKey::StartKeyClosed(prefix)),
        end_key: match end_key {
            Some(end) => Some(EndKey::EndKeyOpen(end)),
            None => None,
        },
    };
    proof {
        assert forall|key: Seq<u8>| #[trigger]
            res.contains(key) <==> start.is_prefix_of(key) by {
            lemma_prefix_bounds(start, len, key);
        }
        assert(significant_len(start, len));
    }
    res
}

impl<F, O> ReadRowsRequest<F, O> {
    /// The same request, but for all the rows whose keys start with `prefix`, and no others.
    pub fn with_prefix(self, prefix: Vec<u8>) -> (res: Self)
        ensures
            res.rows matches Some(rows) && {
                &&& forall|key: Seq<u8>| #[trigger]
                    rows.contains(key) <==> prefix@.is_prefix_of(key)
                &&& rows.row_keys@.len() == 0
                &&& rows.row_ranges@.len() == 1
                &&& is_prefix_range(rows.row_ranges@[0], prefix@)
                &&& rows.row_ranges@[0].start_key matches Some(StartKey::StartKeyClosed(start))
                    && start@ == prefix@
                &&& match rows.row_ranges@[0].end_key {
                    Some(EndKey::EndKeyOpen(end)) => {
                        &&& 0 < end@.len() <= prefix@.len()
                        &&& end@.last() == prefix@[end@.len() - 1] + 1
                        &&& forall|i: int| 0 <= i < end@.len() - 1
                            ==> end@[i] == #[trigger] prefix@[i]
                        &&& forall|i: int| end@.len() <= i < prefix@.len() ==> prefix@[i] == 0xff
                    },
                    Some(EndKey::EndKeyClosed(_)) => false,
                    None => forall|i: int| 0 <= i < prefix@.len() ==> prefix@[i] == 0xff,
                }
            },
            res.table_name == self.table_name,
            res.app_profile_id == self.app_profile_id,
            res.filter == self.filter,
            res.rows_limit == self.rows_limit,
            res.options == self.options,
    {
        let ghost start = prefix@;
        let row_range = get_row_range_from_prefix(prefix);
        let rows = RowSet { row_keys: Vec::new(), row_ranges: vec![row_range] };
        proof {
            assert(rows.row_ranges@[0] == row_range);
            assert forall|key: Seq<u8>| #[trigger]
                rows.contains(key) <==> start.is_prefix_of(key) by {
                assert(row_range.contains(key) <==> start.is_prefix_of(key));
                if row_range.contains(key) {
                    assert(rows.row_ranges@[0].contains(key));
                }
            }
        }
        let mut request = self;
        request.rows = Some(rows);
        request
    }
}

} // verus!
