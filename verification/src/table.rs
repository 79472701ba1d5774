//! An open connection, its clients, and the names of tables.
use std::sync::Arc;
use std::time::Duration;
use vstd::prelude::*;

verus! {

/// The key of a row.
pub type RowKey = Vec<u8>;

/// The content of a cell in a row, as it was read.
///
/// Each cell in a Bigtable row contains:
/// - A family name (column family)
/// - A qualifier (column name)
/// - The actual value
/// - A timestamp in microseconds
/// - Optional labels
#[derive(Debug)]
pub struct RowCell {
    pub family_name: String,
    pub qualifier: Vec<u8>,
    pub value: Vec<u8>,
    pub timestamp_micros: i64,
    pub labels: Vec<String>,
}

/// What the full names of the tables of an instance begin with.
pub open spec fn table_prefix(project_id: Seq<char>, instance_name: Seq<char>) -> Seq<char> {
    "projects/"@ + project_id + "/instances/"@ + instance_name + "/tables/"@
}

/// The full name of a table.
pub open spec fn full_table_name(
    project_id: Seq<char>,
    instance_name: Seq<char>,
    table_name: Seq<char>,
) -> Seq<char> {
    table_prefix(project_id, instance_name) + table_name
}

/// The text that the full names of the tables of an instance begin with.
pub fn get_table_prefix(project_id: &str, instance_name: &str) -> (res: String)
    ensures
        res@ == table_prefix(project_id@, instance_name@),
        res@ == "projects/"@ + project_id@ + "/instances/"@ + instance_name@ + "/tables/"@,
{
    let mut prefix = "projects/".to_owned();
    prefix.append(project_id);
    prefix.append("/instances/");
    prefix.append(instance_name);
    prefix.append("/tables/");
    prefix
}

/// A connection to a Bigtable instance, from which clients can be made. `C` is the client of the
/// remote procedure calls.
pub struct BigTableConnection<C> {
    client: C,
    table_prefix: Arc<String>,
    timeout: Arc<Option<Duration>>,
}

impl<C> BigTableConnection<C> {
    /// The client of the remote procedure calls.
    pub closed spec fn inner(&self) -> C {
        self.client
    }

    /// What the full names of tables begin with.
    pub closed spec fn name_prefix(&self) -> Seq<char> {
        self.table_prefix@
    }

    /// The time that reading rows may take.
    pub closed spec fn time_limit(&self) -> Option<Duration> {
        *self.timeout
    }

    /// The connection over which `client` makes its calls.
    pub fn from_client(client: C, table_prefix: String, timeout: Option<Duration>) -> (res: Self)
        ensures
            res.inner() == client,
            res.name_prefix() == table_prefix@,
            res.time_limit() == timeout,
    {
        BigTableConnection {
            client,
            table_prefix: Arc::new(table_prefix),
            timeout: Arc::new(timeout),
        }
    }

    /// Create a new Bigtable client by cloning needed properties.
    ///
    /// Clients require `&mut self`, however the created new clients can be cheaply cloned and thus
    /// can be sent to different threads.
    pub fn client(&self) -> (res: BigTable<C>) where C: Clone
        ensures
            cloned(self.inner(), res.inner()),
            res.name_prefix() == self.name_prefix(),
            res.time_limit() == self.time_limit(),
    {
        BigTable {
            client: self.client.clone(),
            table_prefix: self.table_prefix.clone(),
            timeout: self.timeout.clone(),
        }
    }

    /// Provide a convenient method to update the inner client so a newly configured client can be
    /// set.
    pub fn configure_inner_client<F: FnOnce(C) -> C>(&mut self, config_fn: F) where C: Clone
        requires
            forall|client: C|
                cloned(old(self).inner(), client) ==> #[trigger] config_fn.requires((client,)),
        ensures
            exists|client: C|
                #[trigger] cloned(old(self).inner(), client) && config_fn.ensures(
                    (client,),
                    final(self).inner(),
                ),
            final(self).name_prefix() == old(self).name_prefix(),
            final(self).time_limit() == old(self).time_limit(),
    {
        let client = self.client.clone();
        assert(cloned(old(self).inner(), client));
        self.client = config_fn(client);
    }
}

impl<C: Clone> Clone for BigTableConnection<C> {
    fn clone(&self) -> (res: Self)
        ensures
            cloned(self.inner(), res.inner()),
            res.name_prefix() == self.name_prefix(),
            res.time_limit() == self.time_limit(),
    {
        BigTableConnection {
            client: self.client.clone(),
            table_prefix: self.table_prefix.clone(),
            timeout: self.timeout.clone(),
        }
    }
}

/// The core struct for Bigtable client. In order to easily use this struct in multiple threads, we
/// only store cloneable references here. Cloning on `BigTable` is cheap. `C` is the client of the
/// remote procedure calls.
pub struct BigTable<C> {
    client: C,
    table_prefix: Arc<String>,
    timeout: Arc<Option<Duration>>,
}

impl<C> BigTable<C> {
    /// The client of the remote procedure calls.
    pub closed spec fn inner(&self) -> C {
        self.client
    }

    /// What the full names of tables begin with.
    pub closed spec fn name_prefix(&self) -> Seq<char> {
        self.table_prefix@
    }

    /// The time that reading rows may take.
    pub closed spec fn time_limit(&self) -> Option<Duration> {
        *self.timeout
    }

    /// Provide a convenient method to get the inner client so user can use any of its methods.
    pub fn get_client(&mut self) -> (res: &mut C)
        ensures
            *res == old(self).inner(),
            final(self).inner() == *final(res),
            final(self).name_prefix() == old(self).name_prefix(),
            final(self).time_limit() == old(self).time_limit(),
    {
        &mut self.client
    }

    /// Provide a convenient method to update the inner client config.
    pub fn configure_inner_client<F: FnOnce(C) -> C>(&mut self, config_fn: F) where C: Clone
        requires
            forall|client: C|
                cloned(old(self).inner(), client) ==> #[trigger] config_fn.requires((client,)),
        ensures
            exists|client: C|
                #[trigger] cloned(old(self).inner(), client) && config_fn.ensures(
                    (client,),
                    final(self).inner(),
                ),
            final(self).name_prefix() == old(self).name_prefix(),
            final(self).time_limit() == old(self).time_limit(),
    {
        let client = self.client.clone();
        assert(cloned(old(self).inner(), client));
        self.client = config_fn(client);
    }

    /// Provide a convenient method to get full table, which can be used for building requests.
    pub fn get_full_table_name(&self, table_name: &str) -> (res: String)
        ensures
            res@ == self.name_prefix() + table_name@,
    {
        let mut name = (*self.table_prefix).clone();
        name.append(table_name);
        name
    }

    /// The time that reading rows may take.
    pub fn timeout(&self) -> (res: Option<Duration>)
        ensures
            res == self.time_limit(),
    {
        *self.timeout
    }
}

impl<C: Clone> Clone for BigTable<C> {
    fn clone(&self) -> (res: Self)
        ensures
            cloned(self.inner(), res.inner()),
            res.name_prefix() == self.name_prefix(),
            res.time_limit() == self.time_limit(),
    {
        BigTable {
            client: self.client.clone(),
            table_prefix: self.table_prefix.clone(),
            timeout: self.timeout.clone(),
        }
    }
}

/// Whether a text holds no slash, as the identifiers of projects and instances do not.
pub open spec fn is_slash_free(text: Seq<char>) -> bool {
    forall|i: int| 0 <= i < text.len() ==> text[i] != '/'
}

/// What comes before and after the first slash of a text is determined by the text.
proof fn lemma_first_slash(a: Seq<char>, b: Seq<char>, rest_a: Seq<char>, rest_b: Seq<char>)
    requires
        is_slash_free(a),
        is_slash_free(b),
        a + rest_a == b + rest_b,
        rest_a.len() > 0 && rest_a[0] == '/',
        rest_b.len() > 0 && rest_b[0] == '/',
    ensures
        a == b,
        rest_a == rest_b,
{
    let text = a + rest_a;
    assert(text == b + rest_b);
    assert(text[a.len() as int] == '/');
    assert(text[b.len() as int] == '/');
    if a.len() < b.len() {
        assert(text[a.len() as int] == b[a.len() as int]);
    }
    if b.len() < a.len() {
        assert(text[b.len() as int] == a[b.len() as int]);
    }
    assert(a =~= text.take(a.len() as int));
    assert(b =~= text.take(a.len() as int));
    assert(rest_a =~= text.skip(a.len() as int));
    assert(rest_b =~= text.skip(a.len() as int));
}

/// Two tables have the same full name only if they have the same name and lie in the same
/// instance of the same project.
pub proof fn full_table_names_are_distinct(
    project_a: Seq<char>,
    instance_a: Seq<char>,
    table_a: Seq<char>,
    project_b: Seq<char>,
    instance_b: Seq<char>,
    table_b: Seq<char>,
)
    requires
        is_slash_free(project_a),
        is_slash_free(project_b),
        is_slash_free(instance_a),
        is_slash_free(instance_b),
        full_table_name(project_a, instance_a, table_a) == full_table_name(
            project_b,
            instance_b,
            table_b,
        ),
    ensures
        project_a == project_b,
        instance_a == instance_b,
        table_a == table_b,
{
    reveal_strlit("projects/");
    reveal_strlit("/instances/");
    reveal_strlit("/tables/");
    let name = full_table_name(project_a, instance_a, table_a);
    let tables_a = "/tables/"@ + table_a;
    let tables_b = "/tables/"@ + table_b;
    let instances_a = "/instances/"@ + (instance_a + tables_a);
    let instances_b = "/instances/"@ + (instance_b + tables_b);
    assert(name =~= "projects/"@ + (project_a + instances_a));
    assert(name =~= "projects/"@ + (project_b + instances_b));
    assert(project_a + instances_a =~= name.skip(9));
    assert(project_b + instances_b =~= name.skip(9));
    lemma_first_slash(project_a, project_b, instances_a, instances_b);
    assert(instance_a + tables_a =~= instances_a.skip(11));
    assert(instance_b + tables_b =~= instances_a.skip(11));
    lemma_first_slash(instance_a, instance_b, tables_a, tables_b);
    assert(table_a =~= tables_a.skip(8));
    assert(table_b =~= tables_a.skip(8));
}

/// The parts of a text between its slashes.
pub open spec fn split_at_slashes(text: Seq<char>) -> Seq<Seq<char>>
    decreases text.len(),
{
    if text.len() == 0 {
        seq![Seq::<char>::empty()]
    } else {
        let parts = split_at_slashes(text.drop_last());
        if text.last() == '/' {
            parts.push(Seq::<char>::empty())
        } else {
            parts.drop_last().push(parts.last().push(text.last()))
        }
    }
}

/// A text without a slash is its only part.
proof fn lemma_split_part(part: Seq<char>)
    requires
        forall|i: int| 0 <= i < part.len() ==> part[i] != '/',
    ensures
        split_at_slashes(part) == seq![part],
    decreases part.len(),
{
    if part.len() == 0 {
        assert(part =~= Seq::<char>::empty());
    } else {
        lemma_split_part(part.drop_last());
        assert(part.drop_last().push(part.last()) =~= part);
        assert(split_at_slashes(part) =~= seq![part]);
    }
}

/// What follows the last slash of a text is its last part.
proof fn lemma_split_last(before: Seq<char>, part: Seq<char>)
    requires
        forall|i: int| 0 <= i < part.len() ==> part[i] != '/',
    ensures
        split_at_slashes(before + seq!['/'] + part) == split_at_slashes(before).push(part),
    decreases part.len(),
{
    let text = before + seq!['/'] + part;
    if part.len() == 0 {
        assert(part =~= Seq::<char>::empty());
        assert(text.drop_last() =~= before);
    } else {
        lemma_split_last(before, part.drop_last());
        assert(text.drop_last() =~= before + seq!['/'] + part.drop_last());
        assert(part.drop_last().push(part.last()) =~= part);
        let parts = split_at_slashes(text.drop_last());
        assert(parts.drop_last() =~= split_at_slashes(before));
        assert(text.last() == part.last());
    }
}

/// The full name of a table is a path. Split at its slashes, it gives the project, the instance
/// and the table, each after the word that says what it is.
pub proof fn full_table_name_is_a_path(
    project_id: Seq<char>,
    instance_name: Seq<char>,
    table_name: Seq<char>,
)
    requires
        forall|i: int| 0 <= i < project_id.len() ==> project_id[i] != '/',
        forall|i: int| 0 <= i < instance_name.len() ==> instance_name[i] != '/',
        forall|i: int| 0 <= i < table_name.len() ==> table_name[i] != '/',
    ensures
        split_at_slashes(full_table_name(project_id, instance_name, table_name)) == seq![
            "projects"@,
            project_id,
            "instances"@,
            instance_name,
            "tables"@,
            table_name,
        ],
{
    reveal_strlit("projects");
    reveal_strlit("projects/");
    reveal_strlit("instances");
    reveal_strlit("/instances/");
    reveal_strlit("tables");
    reveal_strlit("/tables/");
    let slash = seq!['/'];
    assert("projects/"@ =~= "projects"@ + slash);
    assert("/instances/"@ =~= slash + "instances"@ + slash);
    assert("/tables/"@ =~= slash + "tables"@ + slash);
    lemma_split_part("projects"@);
    let project = "projects"@ + slash + project_id;
    lemma_split_last("projects"@, project_id);
    let instances = project + slash + "instances"@;
    lemma_split_last(project, "instances"@);
    let instance = instances + slash + instance_name;
    lemma_split_last(instances, instance_name);
    let tables = instance + slash + "tables"@;
    lemma_split_last(instance, "tables"@);
    lemma_split_last(tables, table_name);
    assert(full_table_name(project_id, instance_name, table_name) =~= tables + slash + table_name);
}

/// A client names the tables of the instance that its connection was made for, and gives reading
/// rows the time that the connection was made with. A copy of the connection or of the client does
/// the same.
pub proof fn clients_know_their_instance<C: Clone>(
    client: C,
    project_id: &str,
    instance_name: &str,
    timeout: Option<Duration>,
    prefix: String,
    connection: BigTableConnection<C>,
    second: BigTableConnection<C>,
    bigtable: BigTable<C>,
    copy: BigTable<C>,
    table_name: &str,
    name: String,
    limit: Option<Duration>,
)
    requires
        call_ensures(get_table_prefix, (project_id, instance_name), prefix),
        call_ensures(
            BigTableConnection::<C>::from_client,
            (client, prefix, timeout),
            connection,
        ),
        call_ensures(<BigTableConnection<C> as Clone>::clone, (&connection,), second),
        call_ensures(BigTableConnection::<C>::client, (&second,), bigtable),
        call_ensures(<BigTable<C> as Clone>::clone, (&bigtable,), copy),
        call_ensures(BigTable::<C>::get_full_table_name, (&copy, table_name), name),
        call_ensures(BigTable::<C>::timeout, (&copy,), limit),
    ensures
        name@ == "projects/"@ + project_id@ + "/instances/"@ + instance_name@ + "/tables/"@
            + table_name@,
        limit == timeout,
        cloned(client, second.inner()),
        cloned(second.inner(), bigtable.inner()),
        cloned(bigtable.inner(), copy.inner()),
{
}

} // verus!
