use bigtable_rs::table::{get_table_prefix, BigTable, BigTableConnection, RowCell};
use std::time::Duration;

fn connection(client: &str) -> BigTableConnection<String> {
    BigTableConnection::from_client(
        client.to_string(),
        get_table_prefix("project-1", "instance-1"),
        Some(Duration::from_secs(10)),
    )
}

#[test]
fn a_full_table_name_spells_project_instance_and_table() {
    let bigtable = connection("c").client();
    assert_eq!(
        bigtable.get_full_table_name("table-1"),
        "projects/project-1/instances/instance-1/tables/table-1"
    );
    assert_eq!(
        bigtable.get_full_table_name(""),
        "projects/project-1/instances/instance-1/tables/"
    );
}

#[test]
fn names_outside_ascii_are_kept() {
    let prefix = get_table_prefix("prøject", "instånce");
    assert_eq!(prefix, "projects/prøject/instances/instånce/tables/");
}

#[test]
fn different_tables_have_different_full_names() {
    let one = BigTableConnection::from_client((), get_table_prefix("a", "b"), None).client();
    let other = BigTableConnection::from_client((), get_table_prefix("a", "b-c"), None).client();
    assert_ne!(one.get_full_table_name("c"), other.get_full_table_name("c"));
    assert_ne!(one.get_full_table_name("c"), one.get_full_table_name("d"));
}

#[test]
fn a_client_takes_over_what_the_connection_has() {
    let mut bigtable = connection("stub").client();
    assert_eq!(bigtable.get_client(), "stub");
    assert_eq!(bigtable.timeout(), Some(Duration::from_secs(10)));
}

#[test]
fn configuring_the_connection_changes_later_clients_only() {
    let mut connection = connection("stub");
    let mut before = connection.client();
    connection.configure_inner_client(|client: String| client + "+gzip");
    let mut after = connection.client();
    assert_eq!(before.get_client(), "stub");
    assert_eq!(after.get_client(), "stub+gzip");
    assert_eq!(before.get_full_table_name("t"), after.get_full_table_name("t"));
    assert_eq!(after.timeout(), Some(Duration::from_secs(10)));
}

#[test]
fn configuring_a_client_leaves_its_clones_alone() {
    fn twice(client: String) -> String {
        client.repeat(2)
    }
    let mut bigtable: BigTable<String> = connection("ab").client();
    let mut clone = bigtable.clone();
    bigtable.configure_inner_client(twice);
    assert_eq!(bigtable.get_client(), "abab");
    assert_eq!(clone.get_client(), "ab");
    assert_eq!(clone.get_full_table_name("t"), bigtable.get_full_table_name("t"));
    assert_eq!(clone.timeout(), bigtable.timeout());
}

#[test]
fn the_inner_client_can_be_replaced_in_place() {
    let mut bigtable = connection("old").client();
    *bigtable.get_client() = "new".to_string();
    assert_eq!(bigtable.get_client(), "new");
    assert_eq!(
        bigtable.get_full_table_name("t"),
        "projects/project-1/instances/instance-1/tables/t"
    );
}

#[test]
fn a_cloned_connection_makes_the_same_clients() {
    let connection = connection("stub");
    let clone = connection.clone();
    assert_eq!(clone.client().get_client(), "stub");
    assert_eq!(
        clone.client().get_full_table_name("t"),
        connection.client().get_full_table_name("t")
    );
    assert_eq!(clone.client().timeout(), connection.client().timeout());
}

#[test]
fn a_row_cell_holds_what_was_read() {
    let cell = RowCell {
        family_name: "cf1".to_string(),
        qualifier: "col1".as_bytes().to_vec(),
        value: "value1".as_bytes().to_vec(),
        timestamp_micros: 1234567890,
        labels: vec!["label1".to_string()],
    };
    assert!(format!("{:?}", cell).contains("timestamp_micros: 1234567890"));
}
