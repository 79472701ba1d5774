use bigtable_rs::util::get_row_range_from_prefix;
use bigtable_rs::v2::{EndKey, ReadRowsRequest, RowRange, RowSet, StartKey};

fn start_of(range: &RowRange) -> Vec<u8> {
    match &range.start_key {
        Some(StartKey::StartKeyClosed(key)) => key.clone(),
        other => panic!("unexpected start {:?}", other),
    }
}

fn end_of(range: &RowRange) -> Option<Vec<u8>> {
    match &range.end_key {
        Some(EndKey::EndKeyOpen(key)) => Some(key.clone()),
        Some(other) => panic!("unexpected end {:?}", other),
        None => None,
    }
}

fn holds(range: &RowRange, key: &[u8]) -> bool {
    let after_start = key >= start_of(range).as_slice();
    match end_of(range) {
        Some(end) => after_start && key < end.as_slice(),
        None => after_start,
    }
}

fn keys_up_to(len: usize) -> Vec<Vec<u8>> {
    let alphabet: [u8; 4] = [0, 1, 0xfe, 0xff];
    let mut keys: Vec<Vec<u8>> = vec![vec![]];
    let mut last = keys.clone();
    for _ in 0..len {
        let mut next = vec![];
        for key in &last {
            for byte in alphabet {
                let mut longer = key.clone();
                longer.push(byte);
                next.push(longer);
            }
        }
        keys.extend(next.clone());
        last = next;
    }
    keys
}

#[test]
fn a_text_prefix_ends_with_its_last_byte_raised() {
    let range = get_row_range_from_prefix("user_".as_bytes().to_vec());
    assert_eq!(start_of(&range), b"user_".to_vec());
    assert_eq!(end_of(&range), Some(b"user`".to_vec()));
}

#[test]
fn trailing_greatest_bytes_are_dropped_from_the_end() {
    let range = get_row_range_from_prefix(vec![1, 0xff, 0xff]);
    assert_eq!(start_of(&range), vec![1, 0xff, 0xff]);
    assert_eq!(end_of(&range), Some(vec![2]));
    let range = get_row_range_from_prefix(vec![0xff, 0xfe]);
    assert_eq!(end_of(&range), Some(vec![0xff, 0xff]));
}

#[test]
fn a_prefix_of_greatest_bytes_has_no_end() {
    assert_eq!(end_of(&get_row_range_from_prefix(vec![0xff, 0xff])), None);
}

#[test]
fn the_empty_prefix_covers_every_key() {
    let range = get_row_range_from_prefix(vec![]);
    assert_eq!(start_of(&range), Vec::<u8>::new());
    assert_eq!(end_of(&range), None);
}

#[test]
fn a_prefix_range_holds_the_keys_with_the_prefix_and_no_others() {
    let keys = keys_up_to(4);
    for prefix in keys_up_to(3) {
        let range = get_row_range_from_prefix(prefix.clone());
        for key in &keys {
            assert_eq!(holds(&range, key), key.starts_with(&prefix), "{:?} {:?}", prefix, key);
        }
    }
}

#[test]
fn a_prefix_request_replaces_the_rows_only() {
    let request = ReadRowsRequest {
        table_name: "projects/p/instances/i/tables/t".to_string(),
        app_profile_id: "default".to_string(),
        rows: Some(RowSet { row_keys: vec![b"specific_key".to_vec()], row_ranges: vec![] }),
        filter: Some(7),
        rows_limit: 10,
        options: "reversed",
    };
    let request = request.with_prefix(b"key".to_vec());
    assert_eq!(request.table_name, "projects/p/instances/i/tables/t");
    assert_eq!(request.app_profile_id, "default");
    assert_eq!(request.filter, Some(7));
    assert_eq!(request.rows_limit, 10);
    assert_eq!(request.options, "reversed");
    let rows = request.rows.unwrap();
    assert!(rows.row_keys.is_empty());
    assert_eq!(rows.row_ranges.len(), 1);
    assert_eq!(start_of(&rows.row_ranges[0]), b"key".to_vec());
    assert_eq!(end_of(&rows.row_ranges[0]), Some(b"kez".to_vec()));
}

#[test]
fn a_default_request_asks_for_all_rows() {
    let request: ReadRowsRequest<u8, bool> = ReadRowsRequest::default();
    assert_eq!(request.table_name, "");
    assert_eq!(request.app_profile_id, "");
    assert!(request.rows.is_none());
    assert!(request.filter.is_none());
    assert_eq!(request.rows_limit, 0);
    assert!(!request.options);
}
