//! The durable key/value response cache, backed by SQLite through rusqlite.
//!
//! A cache entry lives in the table named by its namespace (one namespace per
//! response shape), in a row keyed by `endpoint` with an opaque `payload`
//! blob. The row key is the namespace, a `::` separator, then the
//! caller-chosen key — a request URL, or the ordinal position of a record in
//! a batch. `(namespace, key)` is a primary key: a write at an existing key
//! replaces the previous payload entirely.
//!
//! The store behind a connection is modelled by three names that every
//! trusted wrapper speaks of:
//!
//! * [`store_contents`] — the payload at each `(namespace, row key)` pair, as
//!   the connection currently sees it;
//! * [`txn_open`] and [`txn_snapshot`] — whether an explicit transaction is
//!   open, and what the store held when it began. A failing statement inside
//!   a transaction either leaves the transaction open with the store as it
//!   was, or — on faults such as a full disk — rolls the whole transaction
//!   back; the wrappers state exactly that disjunction, and the rollback in
//!   [`ClientBackbone::save`] closes it, so a failed batch never leaves a
//!   partial prefix behind;
//! * [`cache_table_ok`] — the namespace table exists with `endpoint` as its
//!   sole uniqueness constraint and nothing (index, trigger) attached beside
//!   it. `REPLACE INTO` means "replace the row at this key" only on such a
//!   table, so the setup paths check the stored schema text and refuse a
//!   foreign table, and the row wrappers require the predicate.
//!
//! The model reads the store off the connection value, which presumes this
//! connection is the only handle on its database: open one [`ClientBackbone`]
//! per database, as the concurrency model asks (every job owns its own
//! storage handle, nothing is shared between jobs). A second handle on the
//! same database file — another process, or a second `ClientBackbone` on one
//! path — writes behind this model's back, and nothing here detects it.

use vstd::prelude::*;
use vstd::string::StringExecFns;

use crate::numfmt::dec_str_of;
use crate::numfmt::usize_to_string;

verus! {

/// Why a cache operation failed: the storage engine reported an error, or a
/// namespace table already exists with a schema this cache cannot promise
/// anything about.
#[derive(Clone, Copy, Debug, PartialEq, Eq, Structural)]
pub enum CacheError {
    /// A statement, transaction or connection failed, or a pre-existing
    /// table's schema did not match the cache's.
    Storage,
}

#[verifier::external_type_specification]
#[verifier::external_body]
pub struct ExConnection(rusqlite::Connection);

#[verifier::external_type_specification]
#[verifier::external_body]
pub struct ExSqliteError(rusqlite::Error);

/// What the store behind a connection holds: the payload at each
/// `(namespace table, row key)` pair, as this connection sees it.
pub uninterp spec fn store_contents(c: rusqlite::Connection) -> Map<(Seq<char>, Seq<char>), Seq<u8>>;

/// Whether this connection has an explicit transaction open.
pub uninterp spec fn txn_open(c: rusqlite::Connection) -> bool;

/// What the store held when the open transaction began; meaningful only
/// while [`txn_open`] holds.
pub uninterp spec fn txn_snapshot(c: rusqlite::Connection) -> Map<(Seq<char>, Seq<char>), Seq<u8>>;

/// The namespace table exists, `endpoint` is its sole uniqueness constraint
/// (a single-column primary key), and no separate index or trigger hangs off
/// it — the shape on which `REPLACE INTO` and `SELECT` mean what the row
/// wrappers claim.
pub uninterp spec fn cache_table_ok(c: rusqlite::Connection, ns: Seq<char>) -> bool;

/// An identifier character, fit for a table name.
pub open spec fn is_ident_char(c: char) -> bool {
    (('a' as u32) <= (c as u32) && (c as u32) <= ('z' as u32)) || (('A' as u32) <= (c as u32) && (c
        as u32) <= ('Z' as u32)) || (('0' as u32) <= (c as u32) && (c as u32) <= ('9' as u32)) || c
        == '_'
}

/// A namespace that can safely name a SQLite table: a plain identifier, so
/// the statements the wrappers build mean what their contracts say.
pub open spec fn valid_namespace(ns: Seq<char>) -> bool {
    ns.len() > 0 && !(('0' as u32) <= (ns[0] as u32) && (ns[0] as u32) <= ('9' as u32)) && (forall|
        i: int,
    | 0 <= i < ns.len() ==> is_ident_char(#[trigger] ns[i]))
}

/// The separator between a namespace and a caller key in a row key.
pub open spec fn key_sep() -> Seq<char> {
    seq![':', ':']
}

/// The row key stored for a caller key: `<namespace>::<key>`.
pub open spec fn stored_key(ns: Seq<char>, key: Seq<char>) -> Seq<char> {
    ns + key_sep() + key
}

/// What a read of `(ns, key)` finds in store `m`.
pub open spec fn cache_lookup(
    m: Map<(Seq<char>, Seq<char>), Seq<u8>>,
    ns: Seq<char>,
    key: Seq<char>,
) -> Option<Seq<u8>> {
    if m.dom().contains((ns, stored_key(ns, key))) {
        Some(m[(ns, stored_key(ns, key))])
    } else {
        None
    }
}

/// The store after a write of `payload` at `(ns, key)`.
pub open spec fn cache_put(
    m: Map<(Seq<char>, Seq<char>), Seq<u8>>,
    ns: Seq<char>,
    key: Seq<char>,
    payload: Seq<u8>,
) -> Map<(Seq<char>, Seq<char>), Seq<u8>> {
    m.insert((ns, stored_key(ns, key)), payload)
}

/// The store after a batch write of `records` into `ns`, record `i` keyed by
/// its decimal position `i`.
pub open spec fn cache_put_all(
    m: Map<(Seq<char>, Seq<char>), Seq<u8>>,
    ns: Seq<char>,
    records: Seq<Seq<u8>>,
) -> Map<(Seq<char>, Seq<char>), Seq<u8>>
    decreases records.len(),
{
    if records.len() == 0 {
        m
    } else {
        cache_put(
            cache_put_all(m, ns, records.drop_last()),
            ns,
            dec_str_of((records.len() - 1) as nat),
            records.last(),
        )
    }
}

/// The text SQLite keeps for a namespace table this cache created: its
/// `CREATE TABLE` statement with the `IF NOT EXISTS` clause dropped.
pub open spec fn table_schema_sql(ns: Seq<char>) -> Seq<char> {
    ("CREATE TABLE ")@ + ns + (" (endpoint TEXT PRIMARY KEY, payload BLOB NOT NULL)")@
}

/// Relies on `rusqlite::Connection::open`: opens (or creates) the SQLite
/// database at `path`, in autocommit mode. A fresh in-memory database —
/// path `":memory:"` opens a new private one — holds nothing; of a database
/// file nothing is assumed.
#[verifier::external_body]
fn open_db(path: &str) -> (r: Result<rusqlite::Connection, rusqlite::Error>)
    ensures
        r matches Ok(c) ==> !txn_open(c) && (path@ == (":memory:")@ ==> store_contents(c)
            == Map::<(Seq<char>, Seq<char>), Seq<u8>>::empty()),
{
    rusqlite::Connection::open(path)
}

/// Relies on `rusqlite::Connection::execute_batch` running one `CREATE TABLE
/// IF NOT EXISTS` statement, outside any transaction — DDL is transactional
/// in SQLite, so a table created inside one would vanish on rollback, and
/// the rollback wrappers promise to preserve only tables that cannot: it
/// adds, removes and changes no row, opens and closes no transaction, and
/// alters no existing table's schema. Whether the table now has the cache's
/// schema is a separate question, answered by [`read_table_schema`].
#[verifier::external_body]
fn create_table(conn: &mut rusqlite::Connection, ns: &str) -> (r: Result<(), rusqlite::Error>)
    requires
        valid_namespace(ns@),
        !txn_open(*old(conn)),
    ensures
        store_contents(*final(conn)) == store_contents(*old(conn)),
        txn_open(*final(conn)) == txn_open(*old(conn)),
        forall|t: Seq<char>|
            cache_table_ok(*old(conn), t) ==> #[trigger] cache_table_ok(*final(conn), t),
{
    conn.execute_batch(
        &format!("CREATE TABLE IF NOT EXISTS {} (endpoint TEXT PRIMARY KEY, payload BLOB NOT NULL);", ns),
    )
}

/// Relies on `rusqlite::Connection::query_row` over `sqlite_master`: it
/// returns the stored `CREATE` text of the namespace table, and returns a
/// row only when no separate index or trigger is attached to that table
/// (the primary key's automatic index stores no text). When the returned
/// text is exactly the cache's own schema, `endpoint` is the table's sole
/// uniqueness constraint and nothing else fires on a write: the table is
/// [`cache_table_ok`]. Read outside any transaction, so the table it
/// vouches for is committed and survives any later rollback.
#[verifier::external_body]
fn read_table_schema(conn: &rusqlite::Connection, ns: &str) -> (r: Result<String, rusqlite::Error>)
    requires
        valid_namespace(ns@),
        !txn_open(*conn),
    ensures
        r matches Ok(s) && s@ == table_schema_sql(ns@) ==> cache_table_ok(*conn, ns@),
{
    conn.query_row(
        "SELECT sql FROM sqlite_master WHERE type = 'table' AND name = ?1 \
         AND NOT EXISTS (SELECT 1 FROM sqlite_master \
                         WHERE type IN ('index', 'trigger') AND tbl_name = ?1 AND sql IS NOT NULL)",
        (ns,),
        |row| row.get(0),
    )
}

/// Relies on `rusqlite::Connection::execute_batch` running `BEGIN` when no
/// transaction is open: no row changes; on success a transaction is open and
/// the snapshot is what the store now holds; a failed `BEGIN` leaves the
/// connection in autocommit.
#[verifier::external_body]
fn begin_tx(conn: &mut rusqlite::Connection) -> (r: Result<(), rusqlite::Error>)
    requires
        !txn_open(*old(conn)),
    ensures
        store_contents(*final(conn)) == store_contents(*old(conn)),
        r is Ok ==> txn_open(*final(conn)) && txn_snapshot(*final(conn)) == store_contents(
            *old(conn),
        ),
        r is Err ==> !txn_open(*final(conn)),
        forall|t: Seq<char>|
            cache_table_ok(*old(conn), t) ==> #[trigger] cache_table_ok(*final(conn), t),
{
    conn.execute_batch("BEGIN")
}

/// Relies on `rusqlite::Connection::execute_batch` running `COMMIT` inside a
/// transaction. On success the writes become durable together and the
/// entries as this connection sees them do not change. On failure either the
/// transaction stays open with the store as it was (`SQLITE_BUSY`), or —
/// on faults such as a full disk — SQLite has rolled the whole transaction
/// back to its beginning.
#[verifier::external_body]
fn commit_tx(conn: &mut rusqlite::Connection) -> (r: Result<(), rusqlite::Error>)
    requires
        txn_open(*old(conn)),
    ensures
        r is Ok ==> store_contents(*final(conn)) == store_contents(*old(conn)) && !txn_open(
            *final(conn),
        ),
        r is Err ==> (store_contents(*final(conn)) == store_contents(*old(conn)) && txn_open(
            *final(conn),
        ) && txn_snapshot(*final(conn)) == txn_snapshot(*old(conn))) || (store_contents(
            *final(conn),
        ) == txn_snapshot(*old(conn)) && !txn_open(*final(conn))),
        forall|t: Seq<char>|
            cache_table_ok(*old(conn), t) ==> #[trigger] cache_table_ok(*final(conn), t),
{
    conn.execute_batch("COMMIT")
}

/// Relies on `rusqlite::Connection::execute_batch` running `ROLLBACK`, on a
/// connection with no statement in progress — which exclusive access here
/// guarantees. An open transaction is undone back to its snapshot; without
/// one (the transaction may already have been rolled back automatically) the
/// command fails without changing anything. Either way the connection ends
/// in autocommit.
#[verifier::external_body]
fn rollback_tx(conn: &mut rusqlite::Connection) -> (r: Result<(), rusqlite::Error>)
    ensures
        !txn_open(*final(conn)),
        txn_open(*old(conn)) ==> store_contents(*final(conn)) == txn_snapshot(*old(conn)),
        !txn_open(*old(conn)) ==> store_contents(*final(conn)) == store_contents(*old(conn)),
        forall|t: Seq<char>|
            cache_table_ok(*old(conn), t) ==> #[trigger] cache_table_ok(*final(conn), t),
{
    conn.execute_batch("ROLLBACK")
}

/// Relies on `rusqlite::Connection::execute` running one `REPLACE INTO`
/// statement on a [`cache_table_ok`] table: on success, exactly the row at
/// `key` now holds `payload` — replacing any previous payload there — and
/// every other row is untouched. On failure outside a transaction the
/// statement's own rollback leaves the store as it was; inside one, either
/// the store and the transaction are as they were, or SQLite has rolled the
/// whole transaction back to its snapshot.
#[verifier::external_body]
fn replace_row(conn: &mut rusqlite::Connection, ns: &str, key: &str, payload: &Vec<u8>) -> (r:
    Result<(), rusqlite::Error>)
    requires
        valid_namespace(ns@),
        cache_table_ok(*old(conn), ns@),
    ensures
        r is Ok ==> store_contents(*final(conn)) == store_contents(*old(conn)).insert(
            (ns@, key@),
            payload@,
        ) && txn_open(*final(conn)) == txn_open(*old(conn)) && (txn_open(*old(conn))
            ==> txn_snapshot(*final(conn)) == txn_snapshot(*old(conn))),
        r is Err && !txn_open(*old(conn)) ==> store_contents(*final(conn)) == store_contents(
            *old(conn),
        ) && !txn_open(*final(conn)),
        r is Err && txn_open(*old(conn)) ==> (store_contents(*final(conn)) == store_contents(
            *old(conn),
        ) && txn_open(*final(conn)) && txn_snapshot(*final(conn)) == txn_snapshot(*old(conn))) || (
        store_contents(*final(conn)) == txn_snapshot(*old(conn)) && !txn_open(*final(conn))),
        forall|t: Seq<char>|
            cache_table_ok(*old(conn), t) ==> #[trigger] cache_table_ok(*final(conn), t),
{
    let sql = format!("REPLACE INTO {} (endpoint, payload) VALUES (?1, ?2)", ns);
    match conn.execute(&sql, (key, payload)) {
        Ok(_) => Ok(()),
        Err(e) => Err(e),
    }
}

/// Relies on `rusqlite::Connection::query_row` running one `SELECT payload`
/// statement keyed by `endpoint` on a [`cache_table_ok`] table: it hands
/// back the payload stored at `key`, and reports `QueryReturnedNoRows` when
/// the table has no such row. A payload that cannot convert to a blob
/// surfaces as an error, never as a miss.
#[verifier::external_body]
fn select_row(conn: &rusqlite::Connection, ns: &str, key: &str) -> (r: Result<
    Option<Vec<u8>>,
    rusqlite::Error,
>)
    requires
        valid_namespace(ns@),
        cache_table_ok(*conn, ns@),
    ensures
        r matches Ok(o) ==> (match o {
            Some(v) => store_contents(*conn).dom().contains((ns@, key@)) && v@ == store_contents(
                *conn,
            )[(ns@, key@)],
            None => !store_contents(*conn).dom().contains((ns@, key@)),
        }),
{
    let sql = format!("SELECT payload FROM {} WHERE endpoint = ?1", ns);
    match conn.query_row::<Vec<u8>, _, _>(&sql, (key,), |row| row.get(0)) {
        Ok(v) => Ok(Some(v)),
        Err(rusqlite::Error::QueryReturnedNoRows) => Ok(None),
        Err(e) => Err(e),
    }
}

/// Builds the row key `<table>::<key>`.
fn full_key(table: &str, key: &str) -> (s: String)
    ensures
        s@ == stored_key(table@, key@),
{
    let mut s = table.to_owned();
    s.append("::");
    s.append(key);
    proof {
        reveal_strlit("::");
        assert(s@ =~= stored_key(table@, key@));
    }
    s
}

/// Builds the schema text the store must hold for a namespace table.
fn expected_schema(table: &str) -> (s: String)
    ensures
        s@ == table_schema_sql(table@),
{
    let mut s = "CREATE TABLE ".to_owned();
    s.append(table);
    s.append(" (endpoint TEXT PRIMARY KEY, payload BLOB NOT NULL)");
    s
}

/// Creates the namespace table if it is absent, then checks that what the
/// store now holds under that name is exactly the cache's schema.
fn setup_namespace(conn: &mut rusqlite::Connection, table: &str) -> (r: Result<(), CacheError>)
    requires
        valid_namespace(table@),
        !txn_open(*old(conn)),
    ensures
        !txn_open(*final(conn)),
        store_contents(*final(conn)) == store_contents(*old(conn)),
        forall|t: Seq<char>|
            cache_table_ok(*old(conn), t) ==> #[trigger] cache_table_ok(*final(conn), t),
        r is Ok ==> cache_table_ok(*final(conn), table@),
{
    match create_table(conn, table) {
        Ok(()) => {},
        Err(_) => {
            return Err(CacheError::Storage);
        },
    }
    match read_table_schema(conn, table) {
        Ok(sql) => {
            if sql == expected_schema(table) {
                Ok(())
            } else {
                Err(CacheError::Storage)
            }
        },
        Err(_) => Err(CacheError::Storage),
    }
}

/// The shared storage handle of one ingestion client: a SQLite connection
/// with the generic cache table ready, and the client's retry budget.
pub struct ClientBackbone {
    conn: rusqlite::Connection,
    retries: u8,
}

impl ClientBackbone {
    /// What the store holds, as a map from `(namespace, row key)` to payload.
    pub closed spec fn contents(self) -> Map<(Seq<char>, Seq<char>), Seq<u8>> {
        store_contents(self.conn)
    }

    /// The retry budget handed to fetches made on behalf of this client.
    pub closed spec fn spec_retries(self) -> u8 {
        self.retries
    }

    /// Between calls the connection is idle: no transaction is left open.
    pub closed spec fn wf(self) -> bool {
        !txn_open(self.conn)
    }

    /// The namespace's table has been set up (or checked) by this cache, so
    /// writes and reads on it mean what their contracts say.
    pub closed spec fn namespace_ready(self, ns: Seq<char>) -> bool {
        cache_table_ok(self.conn, ns)
    }

    /// Opens (or creates) the database at `db_path`, sets up the generic
    /// `api_cache` namespace — refusing a pre-existing table with a foreign
    /// schema — and fixes the retry budget at 3. A fresh in-memory store
    /// starts empty.
    pub fn new(db_path: &str) -> (r: Result<ClientBackbone, CacheError>)
        ensures
            r matches Ok(cb) ==> cb.wf() && cb.spec_retries() == 3 && cb.namespace_ready(
                ("api_cache")@,
            ) && (db_path@ == (":memory:")@ ==> cb.contents() == Map::<
                (Seq<char>, Seq<char>),
                Seq<u8>,
            >::empty()),
    {
        proof {
            reveal_strlit("api_cache");
            assert(valid_namespace("api_cache"@));
        }
        match open_db(db_path) {
            Ok(mut conn) => {
                match setup_namespace(&mut conn, "api_cache") {
                    Ok(()) => Ok(ClientBackbone { conn, retries: 3 }),
                    Err(_) => Err(CacheError::Storage),
                }
            },
            Err(_) => Err(CacheError::Storage),
        }
    }

    /// The retry budget of this client.
    pub fn max_retries(&self) -> (n: u8)
        ensures
            n == self.spec_retries(),
    {
        self.retries
    }

    /// Sets up the table behind namespace `table` — creating it if absent,
    /// refusing it if it exists with a foreign schema. Entries are never
    /// touched, and namespaces already set up stay set up.
    pub fn ensure_namespace(&mut self, table: &str) -> (r: Result<(), CacheError>)
        requires
            old(self).wf(),
            valid_namespace(table@),
        ensures
            final(self).wf(),
            final(self).spec_retries() == old(self).spec_retries(),
            final(self).contents() == old(self).contents(),
            forall|ns: Seq<char>|
                old(self).namespace_ready(ns) ==> #[trigger] final(self).namespace_ready(ns),
            r is Ok ==> final(self).namespace_ready(table@),
    {
        setup_namespace(&mut self.conn, table)
    }

    /// Persists a batch of records into namespace `table`, record `i` keyed
    /// by its decimal position, inside a single transaction: on success
    /// every record is stored — a write at an existing key replaces the
    /// previous payload — and the whole batch committed atomically; on
    /// failure nothing changed, so a partial prefix of the batch is never
    /// visible.
    pub fn save(&mut self, table: &str, records: &Vec<Vec<u8>>) -> (r: Result<(), CacheError>)
        requires
            old(self).wf(),
            valid_namespace(table@),
            old(self).namespace_ready(table@),
        ensures
            final(self).wf(),
            final(self).spec_retries() == old(self).spec_retries(),
            forall|ns: Seq<char>|
                old(self).namespace_ready(ns) ==> #[trigger] final(self).namespace_ready(ns),
            r is Ok ==> final(self).contents() == cache_put_all(
                old(self).contents(),
                table@,
                records@.map_values(|v: Vec<u8>| v@),
            ),
            r is Err ==> final(self).contents() == old(self).contents(),
    {
        let ghost views = records@.map_values(|v: Vec<u8>| v@);
        match begin_tx(&mut self.conn) {
            Ok(()) => {},
            Err(_) => {
                return Err(CacheError::Storage);
            },
        }
        let mut i: usize = 0;
        while i < records.len()
            invariant
                i <= records@.len(),
                valid_namespace(table@),
                views == records@.map_values(|v: Vec<u8>| v@),
                self.retries == old(self).retries,
                old(self).namespace_ready(table@),
                txn_open(self.conn),
                txn_snapshot(self.conn) == old(self).contents(),
                forall|ns: Seq<char>|
                    old(self).namespace_ready(ns) ==> #[trigger] cache_table_ok(self.conn, ns),
                store_contents(self.conn) == cache_put_all(
                    old(self).contents(),
                    table@,
                    views.take(i as int),
                ),
            decreases records@.len() - i,
        {
            let key = full_key(table, usize_to_string(i).as_str());
            let row = replace_row(&mut self.conn, table, key.as_str(), &records[i]);
            match row {
                Ok(()) => {},
                Err(_) => {
                    let _ = rollback_tx(&mut self.conn);
                    return Err(CacheError::Storage);
                },
            }
            proof {
                assert(views.take(i + 1).drop_last() =~= views.take(i as int));
                assert(views.take(i + 1).last() == views[i as int]);
            }
            i = i + 1;
        }
        proof {
            assert(views.take(records@.len() as int) =~= views);
        }
        match commit_tx(&mut self.conn) {
            Ok(()) => Ok(()),
            Err(_) => {
                let _ = rollback_tx(&mut self.conn);
                Err(CacheError::Storage)
            },
        }
    }

    /// Stores one payload at a caller-chosen, semantically meaningful key —
    /// by convention the request URL — replacing any previous payload there.
    /// On failure nothing changed.
    pub fn put_keyed(&mut self, table: &str, key: &str, payload: &Vec<u8>) -> (r: Result<
        (),
        CacheError,
    >)
        requires
            old(self).wf(),
            valid_namespace(table@),
            old(self).namespace_ready(table@),
        ensures
            final(self).wf(),
            final(self).spec_retries() == old(self).spec_retries(),
            forall|ns: Seq<char>|
                old(self).namespace_ready(ns) ==> #[trigger] final(self).namespace_ready(ns),
            r is Ok ==> final(self).contents() == cache_put(
                old(self).contents(),
                table@,
                key@,
                payload@,
            ),
            r is Err ==> final(self).contents() == old(self).contents(),
    {
        let full = full_key(table, key);
        match replace_row(&mut self.conn, table, full.as_str(), payload) {
            Ok(()) => Ok(()),
            Err(_) => Err(CacheError::Storage),
        }
    }

    /// Reads the payload cached at `(table, key)`.
    ///
    /// A missing entry is a plain miss (`None`), not an error; an error means
    /// the storage engine failed, and says nothing about the entry.
    pub fn load_cached(&self, table: &str, key: &str) -> (r: Result<Option<Vec<u8>>, CacheError>)
        requires
            valid_namespace(table@),
            self.namespace_ready(table@),
        ensures
            r matches Ok(o) ==> ((o matches Some(v) ==> cache_lookup(self.contents(), table@, key@)
                == Some(v@)) && (o is None ==> cache_lookup(self.contents(), table@, key@)
                is None)),
    {
        let full = full_key(table, key);
        match select_row(&self.conn, table, full.as_str()) {
            Ok(o) => Ok(o),
            Err(_) => Err(CacheError::Storage),
        }
    }
}

/// Law: a write followed by a read of the same key returns exactly the
/// written payload.
pub proof fn lemma_cache_round_trip(
    m: Map<(Seq<char>, Seq<char>), Seq<u8>>,
    ns: Seq<char>,
    key: Seq<char>,
    payload: Seq<u8>,
)
    ensures
        cache_lookup(cache_put(m, ns, key, payload), ns, key) == Some(payload),
{
}

/// Law: writing `v2` at an existing key replaces `v1` entirely; a subsequent
/// read returns `v2`, never `v1`.
pub proof fn lemma_cache_replace(
    m: Map<(Seq<char>, Seq<char>), Seq<u8>>,
    ns: Seq<char>,
    key: Seq<char>,
    v1: Seq<u8>,
    v2: Seq<u8>,
)
    ensures
        cache_lookup(cache_put(cache_put(m, ns, key, v1), ns, key, v2), ns, key) == Some(v2),
{
}

/// Law: after a batch write, position `i` of the batch reads back exactly as
/// record `i`, whatever the store held before.
pub proof fn lemma_batch_round_trip(
    m: Map<(Seq<char>, Seq<char>), Seq<u8>>,
    ns: Seq<char>,
    records: Seq<Seq<u8>>,
    i: int,
)
    requires
        0 <= i < records.len(),
    ensures
        cache_lookup(cache_put_all(m, ns, records), ns, dec_str_of(i as nat)) == Some(records[i]),
    decreases records.len(),
{
    let before = cache_put_all(m, ns, records.drop_last());
    if i == records.len() - 1 {
        lemma_cache_round_trip(before, ns, dec_str_of(i as nat), records.last());
    } else {
        lemma_batch_round_trip(m, ns, records.drop_last(), i);
        crate::numfmt::lemma_dec_str_injective((records.len() - 1) as nat, i as nat);
        lemma_cache_frame(
            before,
            ns,
            dec_str_of((records.len() - 1) as nat),
            records.last(),
            ns,
            dec_str_of(i as nat),
        );
    }
}

/// Two caller keys build two different row keys.
proof fn lemma_stored_key_injective(ns: Seq<char>, k1: Seq<char>, k2: Seq<char>)
    requires
        stored_key(ns, k1) == stored_key(ns, k2),
    ensures
        k1 == k2,
{
    assert(stored_key(ns, k1).len() == ns.len() + 2 + k1.len());
    assert(stored_key(ns, k2).len() == ns.len() + 2 + k2.len());
    assert forall|i: int| 0 <= i < k1.len() implies k1[i] == k2[i] by {
        assert(stored_key(ns, k1)[ns.len() + 2 + i] == k1[i]);
        assert(stored_key(ns, k2)[ns.len() + 2 + i] == k2[i]);
    }
    assert(k1 =~= k2);
}

/// Law: a write at one key never changes what any other key — in the same
/// namespace or another — reads.
pub proof fn lemma_cache_frame(
    m: Map<(Seq<char>, Seq<char>), Seq<u8>>,
    ns: Seq<char>,
    key: Seq<char>,
    payload: Seq<u8>,
    ns2: Seq<char>,
    key2: Seq<char>,
)
    requires
        ns != ns2 || key != key2,
    ensures
        cache_lookup(cache_put(m, ns, key, payload), ns2, key2) == cache_lookup(m, ns2, key2),
{
    if ns == ns2 {
        if stored_key(ns, key) == stored_key(ns2, key2) {
            lemma_stored_key_injective(ns, key, key2);
        }
    }
}

} // verus!
