use rusqlite::OptionalExtension;
use vstd::prelude::*;

verus! {

/// Where the relational store lives: in memory, or in a database file.
#[derive(Debug, Clone)]
pub enum Source {
    Memory,
    File(String),
}

#[verifier::external_type_specification]
#[verifier::external_body]
pub struct ExConnection(rusqlite::Connection);

/// The rows of the `posts` table, keyed by row id: description, upload
/// time, and optional album reference.
pub uninterp spec fn db_posts(c: rusqlite::Connection) -> Map<i64, (Seq<char>, i64, Option<i64>)>;

/// The rows of the `images` table, keyed by row id: path, width, height,
/// and the owning post's id.
pub uninterp spec fn db_images(c: rusqlite::Connection) -> Map<i64, (Seq<char>, u32, u32, i64)>;

/// The rows of the `sessions` table: authentication time by token.
pub uninterp spec fn db_sessions(c: rusqlite::Connection) -> Map<Seq<char>, i64>;

/// Whether an explicit transaction is open on the connection.
pub uninterp spec fn txn_open(c: rusqlite::Connection) -> bool;

/// The posts table as it stood when the connection's open transaction
/// began; unspecified while no transaction is open.
pub uninterp spec fn txn_posts(c: rusqlite::Connection) -> Map<i64, (Seq<char>, i64, Option<i64>)>;

/// The images table at the open transaction's start.
pub uninterp spec fn txn_images(c: rusqlite::Connection) -> Map<i64, (Seq<char>, u32, u32, i64)>;

/// The sessions table at the open transaction's start.
pub uninterp spec fn txn_sessions(c: rusqlite::Connection) -> Map<Seq<char>, i64>;

/// The image rows owned by one post.
pub open spec fn images_of(images: Map<i64, (Seq<char>, u32, u32, i64)>, post: i64) -> Set<i64> {
    images.dom().filter(|k: i64| images[k].3 == post)
}

/// The sessions that lie before a cutoff.
pub open spec fn sessions_before(sessions: Map<Seq<char>, i64>, cutoff: i64) -> Set<Seq<char>> {
    sessions.dom().filter(|k: Seq<char>| sessions[k] < cutoff)
}

/// Image rows of one post listed in ascending row-id order, completely.
pub open spec fn image_listing(
    rids: Seq<i64>,
    images: Map<i64, (Seq<char>, u32, u32, i64)>,
    post: i64,
) -> bool {
    &&& (forall|a: int, b: int| 0 <= a < b < rids.len() ==> #[trigger] rids[a] < #[trigger] rids[b])
    &&& (forall|a: int|
        0 <= a < rids.len() ==> images.dom().contains(#[trigger] rids[a]) && images[rids[a]].3
            == post)
    &&& (forall|k: i64|
        images.dom().contains(k) && images[k].3 == post ==> #[trigger] rids.contains(k))
}

/// How selected image rows mirror the table's rows.
pub open spec fn image_rows_match(
    rows: Seq<(String, u32, u32)>,
    rids: Seq<i64>,
    images: Map<i64, (Seq<char>, u32, u32, i64)>,
) -> bool {
    &&& rows.len() == rids.len()
    &&& (forall|a: int|
        0 <= a < rows.len() ==> (#[trigger] rows[a]).0@ == images[rids[a]].0 && rows[a].1
            == images[rids[a]].1 && rows[a].2 == images[rids[a]].2)
}

/// Every post id exactly once, ordered from the newest upload time down;
/// rows of equal time may stand in either order.
pub open spec fn post_listing(all: Seq<i64>, posts: Map<i64, (Seq<char>, i64, Option<i64>)>) -> bool {
    &&& all.no_duplicates()
    &&& (forall|a: int| 0 <= a < all.len() ==> posts.dom().contains(#[trigger] all[a]))
    &&& (forall|k: i64| posts.dom().contains(k) ==> #[trigger] all.contains(k))
    &&& (forall|a: int, b: int|
        0 <= a < b < all.len() ==> posts[all[a]].1 >= posts[all[b]].1)
}

/// The window `[start, start + count)` of a listing, clipped to its end.
pub open spec fn page_of(all: Seq<i64>, start: int, count: int) -> Seq<i64> {
    let lo = if start > all.len() {
        all.len() as int
    } else {
        start
    };
    let hi = if start + count > all.len() {
        all.len() as int
    } else {
        start + count
    };
    all.subrange(lo, hi)
}

/// Relies on rusqlite::Connection::open_in_memory: a fresh in-memory
/// database holds no rows at all.
#[verifier::external_body]
pub(crate) fn open_memory() -> (r: Result<rusqlite::Connection, String>)
    ensures
        r matches Ok(c) ==> ({
            &&& db_posts(c) == Map::<i64, (Seq<char>, i64, Option<i64>)>::empty()
            &&& db_images(c) == Map::<i64, (Seq<char>, u32, u32, i64)>::empty()
            &&& db_sessions(c) == Map::<Seq<char>, i64>::empty()
            &&& !txn_open(c)
        }),
{
    rusqlite::Connection::open_in_memory().map_err(|e| format!("{}", e))
}

/// Relies on rusqlite::Connection::open: the opened database file holds
/// finitely many rows; nothing else is known of its content.
#[verifier::external_body]
pub(crate) fn open_file(path: &String) -> (r: Result<rusqlite::Connection, String>)
    ensures
        r matches Ok(c) ==> ({
            &&& db_posts(c).dom().finite()
            &&& db_images(c).dom().finite()
            &&& db_sessions(c).dom().finite()
            &&& !txn_open(c)
        }),
{
    rusqlite::Connection::open(path.as_str()).map_err(|e| format!("{}", e))
}

/// Relies on rusqlite::Connection::execute_batch running the CREATE TABLE
/// IF NOT EXISTS statements below, outside any explicit transaction:
/// tables are created only where absent, and no rows are touched either
/// way.
#[verifier::external_body]
pub(crate) fn create_tables(conn: &mut rusqlite::Connection) -> (r: Result<(), String>)
    requires
        !txn_open(*old(conn)),
    ensures
        !txn_open(*final(conn)),
        db_posts(*final(conn)) == db_posts(*old(conn)),
        db_images(*final(conn)) == db_images(*old(conn)),
        db_sessions(*final(conn)) == db_sessions(*old(conn)),
{
    conn.execute_batch(
        "CREATE TABLE IF NOT EXISTS albums (id INTEGER PRIMARY KEY ASC, title TEXT);
         CREATE TABLE IF NOT EXISTS posts (id INTEGER PRIMARY KEY ASC, desc TEXT, upload_time INTEGER, album INTEGER, FOREIGN KEY(album) REFERENCES albums(id));
         CREATE TABLE IF NOT EXISTS images (id INTEGER PRIMARY KEY ASC, path TEXT, width INTEGER, height INTEGER, post id, FOREIGN KEY(post) REFERENCES posts(id));
         CREATE TABLE IF NOT EXISTS sessions (token TEXT PRIMARY KEY, auth_time INTEGER);",
    ).map_err(|e| format!("{}", e))
}

/// Relies on rusqlite::Connection::query_row running the INSERT RETURNING
/// statement below: on success exactly one post row is added, under a row
/// id not in use, and that id is returned; other tables are untouched, and
/// an open transaction stays open with its starting state on record.
/// Outside a transaction a failed statement changes nothing; inside one, a
/// failure either leaves everything as it was with the transaction still
/// open, or the store has rolled the whole transaction back to its start.
#[verifier::external_body]
pub(crate) fn insert_post(
    conn: &mut rusqlite::Connection,
    desc: &String,
    upload_time: i64,
    album: Option<i64>,
) -> (r: Result<i64, String>)
    ensures
        r matches Ok(id) ==> ({
            &&& !db_posts(*old(conn)).dom().contains(id)
            &&& db_posts(*final(conn)) == db_posts(*old(conn)).insert(
                id,
                (desc@, upload_time, album),
            )
            &&& db_images(*final(conn)) == db_images(*old(conn))
            &&& db_sessions(*final(conn)) == db_sessions(*old(conn))
            &&& txn_open(*final(conn)) == txn_open(*old(conn))
            &&& txn_open(*old(conn)) ==> ({
                &&& txn_posts(*final(conn)) == txn_posts(*old(conn))
                &&& txn_images(*final(conn)) == txn_images(*old(conn))
                &&& txn_sessions(*final(conn)) == txn_sessions(*old(conn))
            })
        }),
        r is Err && !txn_open(*old(conn)) ==> ({
            &&& !txn_open(*final(conn))
            &&& db_posts(*final(conn)) == db_posts(*old(conn))
            &&& db_images(*final(conn)) == db_images(*old(conn))
            &&& db_sessions(*final(conn)) == db_sessions(*old(conn))
        }),
        r is Err && txn_open(*old(conn)) ==> ({
            ||| ({
                &&& txn_open(*final(conn))
                &&& db_posts(*final(conn)) == db_posts(*old(conn))
                &&& db_images(*final(conn)) == db_images(*old(conn))
                &&& db_sessions(*final(conn)) == db_sessions(*old(conn))
                &&& txn_posts(*final(conn)) == txn_posts(*old(conn))
                &&& txn_images(*final(conn)) == txn_images(*old(conn))
                &&& txn_sessions(*final(conn)) == txn_sessions(*old(conn))
            })
            ||| ({
                &&& !txn_open(*final(conn))
                &&& db_posts(*final(conn)) == txn_posts(*old(conn))
                &&& db_images(*final(conn)) == txn_images(*old(conn))
                &&& db_sessions(*final(conn)) == txn_sessions(*old(conn))
            })
        }),
{
    conn.query_row(
        "INSERT INTO posts (desc, upload_time, album) VALUES (?, ?, ?) RETURNING id;",
        (desc.as_str(), upload_time, album),
        |row| row.get(0),
    ).map_err(|e| format!("{}", e))
}

/// Relies on rusqlite::Connection::query_row running the INSERT RETURNING
/// statement below: on success exactly one image row is added, under a row
/// id not in use, and that id is returned. The store picks the new row id
/// at least one above the largest in use, as long as none has reached the
/// largest possible integer. Other tables are untouched, and an open
/// transaction stays open with its starting state on record. Outside a
/// transaction a failed statement changes nothing; inside one, a failure
/// either leaves everything as it was with the transaction still open, or
/// the store has rolled the whole transaction back to its start.
#[verifier::external_body]
pub(crate) fn insert_image(
    conn: &mut rusqlite::Connection,
    path: &String,
    width: u32,
    height: u32,
    post: i64,
) -> (r: Result<i64, String>)
    ensures
        r matches Ok(id) ==> ({
            &&& !db_images(*old(conn)).dom().contains(id)
            &&& db_images(*final(conn)) == db_images(*old(conn)).insert(
                id,
                (path@, width, height, post),
            )
            &&& (forall|k: i64|
                #[trigger] db_images(*old(conn)).dom().contains(k) ==> k < i64::MAX) ==> (forall|
                k: i64,
            | #[trigger] db_images(*old(conn)).dom().contains(k) ==> id > k)
            &&& db_posts(*final(conn)) == db_posts(*old(conn))
            &&& db_sessions(*final(conn)) == db_sessions(*old(conn))
            &&& txn_open(*final(conn)) == txn_open(*old(conn))
            &&& txn_open(*old(conn)) ==> ({
                &&& txn_posts(*final(conn)) == txn_posts(*old(conn))
                &&& txn_images(*final(conn)) == txn_images(*old(conn))
                &&& txn_sessions(*final(conn)) == txn_sessions(*old(conn))
            })
        }),
        r is Err && !txn_open(*old(conn)) ==> ({
            &&& !txn_open(*final(conn))
            &&& db_posts(*final(conn)) == db_posts(*old(conn))
            &&& db_images(*final(conn)) == db_images(*old(conn))
            &&& db_sessions(*final(conn)) == db_sessions(*old(conn))
        }),
        r is Err && txn_open(*old(conn)) ==> ({
            ||| ({
                &&& txn_open(*final(conn))
                &&& db_posts(*final(conn)) == db_posts(*old(conn))
                &&& db_images(*final(conn)) == db_images(*old(conn))
                &&& db_sessions(*final(conn)) == db_sessions(*old(conn))
                &&& txn_posts(*final(conn)) == txn_posts(*old(conn))
                &&& txn_images(*final(conn)) == txn_images(*old(conn))
                &&& txn_sessions(*final(conn)) == txn_sessions(*old(conn))
            })
            ||| ({
                &&& !txn_open(*final(conn))
                &&& db_posts(*final(conn)) == txn_posts(*old(conn))
                &&& db_images(*final(conn)) == txn_images(*old(conn))
                &&& db_sessions(*final(conn)) == txn_sessions(*old(conn))
            })
        }),
{
    conn.query_row(
        "INSERT INTO images (path, width, height, post) VALUES (?, ?, ?, ?) RETURNING id;",
        (path.as_str(), width, height, post),
        |row| row.get(0),
    ).map_err(|e| format!("{}", e))
}

/// Relies on rusqlite::Connection::execute running the DELETE statement
/// below, outside any explicit transaction: exactly the image rows of the
/// given post are removed, and their number is returned; other tables are
/// untouched, and a failed statement changes nothing.
#[verifier::external_body]
pub(crate) fn delete_images_of(conn: &mut rusqlite::Connection, post: i64) -> (r: Result<
    usize,
    String,
>)
    requires
        !txn_open(*old(conn)),
    ensures
        !txn_open(*final(conn)),
        r matches Ok(n) ==> ({
            &&& db_images(*final(conn)) == db_images(*old(conn)).remove_keys(
                images_of(db_images(*old(conn)), post),
            )
            &&& db_images(*old(conn)).dom().finite() ==> n as int == images_of(
                db_images(*old(conn)),
                post,
            ).len()
        }),
        r is Err ==> db_images(*final(conn)) == db_images(*old(conn)),
        db_posts(*final(conn)) == db_posts(*old(conn)),
        db_sessions(*final(conn)) == db_sessions(*old(conn)),
{
    conn.execute("DELETE FROM images WHERE post = ?;", (post,)).map_err(|e| format!("{}", e))
}

/// Relies on rusqlite::Connection::execute running the DELETE statement
/// below, outside any explicit transaction: the post row of the given id
/// is removed where present, and the number of removed rows — one or
/// zero, the id being the primary key — is returned; other tables are
/// untouched, and a failed statement changes nothing.
#[verifier::external_body]
pub(crate) fn delete_post_row(conn: &mut rusqlite::Connection, id: i64) -> (r: Result<usize, String>)
    requires
        !txn_open(*old(conn)),
    ensures
        !txn_open(*final(conn)),
        r matches Ok(n) ==> ({
            &&& db_posts(*final(conn)) == db_posts(*old(conn)).remove(id)
            &&& n == (if db_posts(*old(conn)).dom().contains(id) {
                1int
            } else {
                0int
            })
        }),
        r is Err ==> db_posts(*final(conn)) == db_posts(*old(conn)),
        db_images(*final(conn)) == db_images(*old(conn)),
        db_sessions(*final(conn)) == db_sessions(*old(conn)),
{
    conn.execute("DELETE FROM posts WHERE id = ?;", (id,)).map_err(|e| format!("{}", e))
}

/// Relies on rusqlite::Connection::query_row with OptionalExtension
/// running the SELECT below: the post row under the given id is returned
/// as it stands in the table, or nothing when the id is not in use.
#[verifier::external_body]
pub(crate) fn select_post_row(conn: &rusqlite::Connection, id: i64) -> (r: Result<
    Option<(String, i64, Option<i64>)>,
    String,
>)
    ensures
        r matches Ok(opt) ==> ({
            &&& opt is Some <==> db_posts(*conn).dom().contains(id)
            &&& opt matches Some(row) ==> db_posts(*conn)[id] == (row.0@, row.1, row.2)
        }),
{
    conn.query_row(
        "SELECT desc, upload_time, album FROM posts WHERE id = ?;",
        (id,),
        |row| Ok((row.get(0)?, row.get(1)?, row.get(2)?)),
    ).optional().map_err(|e| format!("{}", e))
}

/// Relies on rusqlite::Statement::query_map running the SELECT below: the
/// image rows of the given post are returned as they stand in the table,
/// every one of them, in ascending row-id order.
#[verifier::external_body]
pub(crate) fn select_images_of(conn: &rusqlite::Connection, post: i64) -> (r: Result<
    Vec<(String, u32, u32)>,
    String,
>)
    ensures
        r matches Ok(v) ==> exists|rids: Seq<i64>|
            image_listing(rids, db_images(*conn), post) && image_rows_match(
                v@,
                rids,
                db_images(*conn),
            ),
{
    let mut stmt = conn.prepare(
        "SELECT path, width, height FROM images WHERE post = ? ORDER BY id;",
    ).map_err(|e| format!("{}", e))?;
    let rows = stmt.query_map((post,), |row| Ok((row.get(0)?, row.get(1)?, row.get(2)?))).map_err(
        |e| format!("{}", e),
    )?;
    rows.collect::<Result<Vec<(String, u32, u32)>, _>>().map_err(|e| format!("{}", e))
}

/// Relies on rusqlite::Statement::query_map running the SELECT below: one
/// window of the post ids, ordered from the newest upload time down — ties
/// in an order the store does not specify — and clipped by LIMIT/OFFSET.
#[verifier::external_body]
pub(crate) fn select_ids_page(conn: &rusqlite::Connection, count: i64, start: i64) -> (r: Result<
    Vec<i64>,
    String,
>)
    requires
        count >= 0,
        start >= 0,
    ensures
        r matches Ok(v) ==> exists|all: Seq<i64>|
            post_listing(all, db_posts(*conn)) && v@ == page_of(all, start as int, count as int),
{
    let mut stmt = conn.prepare(
        "SELECT id FROM posts ORDER BY upload_time DESC LIMIT ? OFFSET ?;",
    ).map_err(|e| format!("{}", e))?;
    let rows = stmt.query_map((count, start), |row| row.get(0)).map_err(|e| format!("{}", e))?;
    rows.collect::<Result<Vec<i64>, _>>().map_err(|e| format!("{}", e))
}

/// Relies on rusqlite::Connection::query_row running the SELECT COUNT
/// below: the number of post rows, which is finite.
#[verifier::external_body]
pub(crate) fn count_posts(conn: &rusqlite::Connection) -> (r: Result<u64, String>)
    ensures
        r matches Ok(n) ==> ({
            &&& db_posts(*conn).dom().finite()
            &&& n as int == db_posts(*conn).dom().len()
        }),
{
    let n: i64 = conn.query_row("SELECT COUNT(*) FROM posts;", (), |row| row.get(0)).map_err(
        |e| format!("{}", e),
    )?;
    Ok(n as u64)
}

/// Relies on rusqlite::Connection::execute running the INSERT statement
/// below, outside any explicit transaction: on success exactly one
/// session row is added — the token, being the primary key, was not in
/// use — and other tables are untouched; a failed statement, a duplicate
/// token included, changes nothing.
#[verifier::external_body]
pub(crate) fn insert_session(
    conn: &mut rusqlite::Connection,
    token: &str,
    auth_time: i64,
) -> (r: Result<usize, String>)
    requires
        !txn_open(*old(conn)),
    ensures
        !txn_open(*final(conn)),
        r matches Ok(n) ==> ({
            &&& n == 1usize
            &&& !db_sessions(*old(conn)).dom().contains(token@)
            &&& db_sessions(*final(conn)) == db_sessions(*old(conn)).insert(token@, auth_time)
        }),
        r is Err ==> db_sessions(*final(conn)) == db_sessions(*old(conn)),
        db_posts(*final(conn)) == db_posts(*old(conn)),
        db_images(*final(conn)) == db_images(*old(conn)),
{
    conn.execute("INSERT INTO sessions (token, auth_time) VALUES (?, ?);", (token, auth_time))
        .map_err(|e| format!("{}", e))
}

/// Relies on rusqlite::Connection::query_row with OptionalExtension
/// running the SELECT below: the session's authentication time as it
/// stands in the table, or nothing when the token is not in use.
#[verifier::external_body]
pub(crate) fn select_session(conn: &rusqlite::Connection, token: &str) -> (r: Result<
    Option<i64>,
    String,
>)
    ensures
        r matches Ok(opt) ==> ({
            &&& opt is Some <==> db_sessions(*conn).dom().contains(token@)
            &&& opt matches Some(t) ==> db_sessions(*conn)[token@] == t
        }),
{
    conn.query_row("SELECT auth_time FROM sessions WHERE token = ?;", (token,), |row| row.get(0))
        .optional().map_err(|e| format!("{}", e))
}

/// Relies on rusqlite::Connection::execute_batch running BEGIN: opens a
/// transaction on a connection that has none, recording the tables as
/// they stand; no row moves either way, and a failed BEGIN leaves the
/// connection without an open transaction.
#[verifier::external_body]
pub(crate) fn begin_txn(conn: &mut rusqlite::Connection) -> (r: Result<(), String>)
    requires
        !txn_open(*old(conn)),
    ensures
        db_posts(*final(conn)) == db_posts(*old(conn)),
        db_images(*final(conn)) == db_images(*old(conn)),
        db_sessions(*final(conn)) == db_sessions(*old(conn)),
        r is Ok ==> ({
            &&& txn_open(*final(conn))
            &&& txn_posts(*final(conn)) == db_posts(*old(conn))
            &&& txn_images(*final(conn)) == db_images(*old(conn))
            &&& txn_sessions(*final(conn)) == db_sessions(*old(conn))
        }),
        r is Err ==> !txn_open(*final(conn)),
{
    conn.execute_batch("BEGIN;").map_err(|e| format!("{}", e))
}

/// Relies on rusqlite::Connection::execute_batch running COMMIT: ends the
/// open transaction, keeping its changes, and the connection's view of
/// the rows does not move. A failed COMMIT either leaves the transaction
/// open with everything as it was, or the store has already rolled the
/// transaction back to where it began.
#[verifier::external_body]
pub(crate) fn commit_txn(conn: &mut rusqlite::Connection) -> (r: Result<(), String>)
    requires
        txn_open(*old(conn)),
    ensures
        r is Ok ==> ({
            &&& !txn_open(*final(conn))
            &&& db_posts(*final(conn)) == db_posts(*old(conn))
            &&& db_images(*final(conn)) == db_images(*old(conn))
            &&& db_sessions(*final(conn)) == db_sessions(*old(conn))
        }),
        r is Err ==> ({
            ||| ({
                &&& txn_open(*final(conn))
                &&& db_posts(*final(conn)) == db_posts(*old(conn))
                &&& db_images(*final(conn)) == db_images(*old(conn))
                &&& db_sessions(*final(conn)) == db_sessions(*old(conn))
                &&& txn_posts(*final(conn)) == txn_posts(*old(conn))
                &&& txn_images(*final(conn)) == txn_images(*old(conn))
                &&& txn_sessions(*final(conn)) == txn_sessions(*old(conn))
            })
            ||| ({
                &&& !txn_open(*final(conn))
                &&& db_posts(*final(conn)) == txn_posts(*old(conn))
                &&& db_images(*final(conn)) == txn_images(*old(conn))
                &&& db_sessions(*final(conn)) == txn_sessions(*old(conn))
            })
        }),
{
    conn.execute_batch("COMMIT;").map_err(|e| format!("{}", e))
}

/// Relies on rusqlite::Connection::execute_batch running ROLLBACK: after
/// the call no transaction is open, and a transaction that was open is
/// undone, back to the state it began with. Where the store had already
/// rolled the transaction back on its own — restoring that same state —
/// the statement fails without further effect, so its error is dropped.
#[verifier::external_body]
pub(crate) fn rollback_txn(conn: &mut rusqlite::Connection)
    ensures
        !txn_open(*final(conn)),
        txn_open(*old(conn)) ==> ({
            &&& db_posts(*final(conn)) == txn_posts(*old(conn))
            &&& db_images(*final(conn)) == txn_images(*old(conn))
            &&& db_sessions(*final(conn)) == txn_sessions(*old(conn))
        }),
        !txn_open(*old(conn)) ==> ({
            &&& db_posts(*final(conn)) == db_posts(*old(conn))
            &&& db_images(*final(conn)) == db_images(*old(conn))
            &&& db_sessions(*final(conn)) == db_sessions(*old(conn))
        }),
{
    let _ = conn.execute_batch("ROLLBACK;");
}

/// Relies on rusqlite::Connection::execute running the DELETE statement
/// below, outside any explicit transaction: exactly the sessions
/// authenticated before the cutoff are removed, and their number is
/// returned; other tables are untouched, and a failed statement changes
/// nothing.
#[verifier::external_body]
pub(crate) fn delete_sessions_before(conn: &mut rusqlite::Connection, cutoff: i64) -> (r: Result<
    usize,
    String,
>)
    requires
        !txn_open(*old(conn)),
    ensures
        !txn_open(*final(conn)),
        r matches Ok(n) ==> ({
            &&& db_sessions(*final(conn)) == db_sessions(*old(conn)).remove_keys(
                sessions_before(db_sessions(*old(conn)), cutoff),
            )
            &&& db_sessions(*old(conn)).dom().finite() ==> n as int == sessions_before(
                db_sessions(*old(conn)),
                cutoff,
            ).len()
        }),
        r is Err ==> db_sessions(*final(conn)) == db_sessions(*old(conn)),
        db_posts(*final(conn)) == db_posts(*old(conn)),
        db_images(*final(conn)) == db_images(*old(conn)),
{
    conn.execute("DELETE FROM sessions WHERE auth_time < ?;", (cutoff,)).map_err(
        |e| format!("{}", e),
    )
}

} // verus!
