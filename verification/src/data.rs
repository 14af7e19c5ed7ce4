use vstd::prelude::*;

use crate::error::Error;
use crate::post::{Image, Post};
use crate::sqlite_connection::{
    begin_txn, commit_txn, count_posts, create_tables, db_images, db_posts, db_sessions,
    delete_images_of, delete_post_row, delete_sessions_before, image_listing, image_rows_match,
    images_of, insert_image, insert_post, insert_session, open_file, open_memory, page_of,
    post_listing, rollback_txn, select_ids_page, select_images_of, select_post_row,
    select_session, sessions_before, txn_images, txn_open, txn_posts, txn_sessions, Source,
};

verus! {

/// The order in which pages of posts are listed.
#[derive(Debug, Clone, PartialEq, Eq)]
pub enum PostOrder {
    NewFirst,
}

/// Relies on time::OffsetDateTime::now_utc, read as a unix timestamp.
/// Nothing is promised of the value: it depends on the clock.
#[verifier::external_body]
fn now_unix() -> (r: i64) {
    time::OffsetDateTime::now_utc().unix_timestamp()
}

/// Removing keys from a map with a finite domain leaves a finite domain.
proof fn lemma_remove_keys_finite<K, V>(m: Map<K, V>, s: Set<K>)
    requires
        m.dom().finite(),
    ensures
        m.remove_keys(s).dom().finite(),
{
    broadcast use vstd::set_lib::lemma_set_subset_finite;

    assert(m.remove_keys(s).dom().subset_of(m.dom()));
}

/// Two strictly increasing sequences with the same members are the same
/// sequence.
proof fn lemma_increasing_unique(s1: Seq<i64>, s2: Seq<i64>)
    requires
        forall|a: int, b: int| 0 <= a < b < s1.len() ==> #[trigger] s1[a] < #[trigger] s1[b],
        forall|a: int, b: int| 0 <= a < b < s2.len() ==> #[trigger] s2[a] < #[trigger] s2[b],
        forall|x: i64| s1.contains(x) <==> s2.contains(x),
    ensures
        s1 == s2,
    decreases s1.len(),
{
    if s1.len() == 0 {
        if s2.len() > 0 {
            assert(s2.contains(s2[0]));
            assert(s1.contains(s2[0]));
            assert(false);
        }
        assert(s1 =~= s2);
    } else {
        assert(s1.contains(s1[0]));
        assert(s2.contains(s1[0]));
        assert(s2.len() > 0);
        assert(s2.contains(s2[0]));
        assert(s1.contains(s2[0]));
        let i = choose|j: int| 0 <= j < s2.len() && s2[j] == s1[0];
        let j = choose|j: int| 0 <= j < s1.len() && s1[j] == s2[0];
        assert(s2[0] <= s2[i]);
        assert(s1[0] <= s1[j]);
        assert(s1[0] == s2[0]);
        let t1 = s1.drop_first();
        let t2 = s2.drop_first();
        assert forall|a: int, b: int| 0 <= a < b < t1.len() implies #[trigger] t1[a]
            < #[trigger] t1[b] by {
            assert(t1[a] == s1[a + 1] && t1[b] == s1[b + 1]);
        }
        assert forall|a: int, b: int| 0 <= a < b < t2.len() implies #[trigger] t2[a]
            < #[trigger] t2[b] by {
            assert(t2[a] == s2[a + 1] && t2[b] == s2[b + 1]);
        }
        assert forall|x: i64| #[trigger] t1.contains(x) == t2.contains(x) by {
            if t1.contains(x) {
                let a = choose|a: int| 0 <= a < t1.len() && t1[a] == x;
                assert(s1[a + 1] == x);
                assert(s1.contains(x));
                assert(s2.contains(x));
                let b = choose|b: int| 0 <= b < s2.len() && s2[b] == x;
                assert(s1[0] < x);
                assert(b != 0);
                assert(t2[b - 1] == x);
                assert(t2.contains(x));
            }
            if t2.contains(x) {
                let a = choose|a: int| 0 <= a < t2.len() && t2[a] == x;
                assert(s2[a + 1] == x);
                assert(s2.contains(x));
                assert(s1.contains(x));
                let b = choose|b: int| 0 <= b < s1.len() && s1[b] == x;
                assert(s2[0] < x);
                assert(b != 0);
                assert(t1[b - 1] == x);
                assert(t1.contains(x));
            }
        }
        lemma_increasing_unique(t1, t2);
        assert(s1.len() == s2.len());
        assert forall|k: int| 0 <= k < s1.len() implies s1[k] == s2[k] by {
            if k > 0 {
                assert(s1[k] == t1[k - 1]);
                assert(s2[k] == t2[k - 1]);
            }
        }
        assert(s1 =~= s2);
    }
}

/// The persistence manager: a connection to the relational store, opened by
/// `connect`, holding the four tables the service lives on.
#[derive(Debug)]
pub struct Manager {
    filename: Source,
    connection: Option<rusqlite::Connection>,
}

impl Manager {
    /// Whether `connect` has succeeded.
    pub closed spec fn connected(self) -> bool {
        self.connection is Some
    }

    /// The store this manager was pointed at.
    pub closed spec fn source(self) -> Source {
        self.filename
    }

    /// The rows of the posts table.
    pub closed spec fn posts(self) -> Map<i64, (Seq<char>, i64, Option<i64>)> {
        db_posts(self.connection->0)
    }

    /// The rows of the images table.
    pub closed spec fn images(self) -> Map<i64, (Seq<char>, u32, u32, i64)> {
        db_images(self.connection->0)
    }

    /// The rows of the sessions table.
    pub closed spec fn sessions(self) -> Map<Seq<char>, i64> {
        db_sessions(self.connection->0)
    }

    /// A connected store holds finitely many rows, and no transaction is
    /// left open between operations.
    pub closed spec fn wf(self) -> bool {
        self.connected() ==> {
            &&& self.posts().dom().finite()
            &&& self.images().dom().finite()
            &&& self.sessions().dom().finite()
            &&& !txn_open(self.connection->0)
        }
    }

    pub fn new(f: Source) -> (r: Self)
        ensures
            !r.connected(),
            r.source() == f,
            r.wf(),
    {
        Self { filename: f, connection: None }
    }

    pub fn newWithFilename(f: String) -> (r: Self)
        ensures
            !r.connected(),
            r.source() matches Source::File(p) && p@ == f@,
            r.wf(),
    {
        Self { filename: Source::File(f), connection: None }
    }

    /// Connects to the store, creating the database file if absent. An
    /// in-memory store starts empty; a file brings whatever rows it holds.
    pub fn connect(&mut self) -> (r: Result<(), Error>)
        ensures
            r is Ok ==> final(self).connected() && final(self).wf(),
            r is Ok && old(self).source() is Memory ==> ({
                &&& final(self).posts() == Map::<i64, (Seq<char>, i64, Option<i64>)>::empty()
                &&& final(self).images() == Map::<i64, (Seq<char>, u32, u32, i64)>::empty()
                &&& final(self).sessions() == Map::<Seq<char>, i64>::empty()
            }),
            r matches Err(e) ==> e matches Error::RuntimeError(_) && *final(self) == *old(self),
            final(self).source() == old(self).source(),
    {
        let opened = match &self.filename {
            Source::Memory => open_memory(),
            Source::File(path) => open_file(path),
        };
        match opened {
            Ok(c) => {
                self.connection = Some(c);
                Ok(())
            },
            Err(m) => Err(Error::RuntimeError(m)),
        }
    }

    /// Creates the four tables if absent; safe to re-run, and no row is
    /// touched either way.
    pub fn init(&mut self) -> (r: Result<(), Error>)
        requires
            old(self).wf(),
        ensures
            final(self).connected() == old(self).connected(),
            final(self).source() == old(self).source(),
            final(self).posts() == old(self).posts(),
            final(self).images() == old(self).images(),
            final(self).sessions() == old(self).sessions(),
            final(self).wf(),
            r is Ok ==> old(self).connected(),
            !old(self).connected() ==> r is Err,
            r matches Err(e) ==> e matches Error::DataError(_),
    {
        match &mut self.connection {
            Some(conn) => {
                match create_tables(conn) {
                    Ok(()) => Ok(()),
                    Err(m) => Err(Error::DataError(m)),
                }
            },
            None => Err(Error::DataError(String::from_str("Sqlite database not connected"))),
        }
    }

    /// Records a session authenticated at the given time. A token already
    /// in use is an error, and nothing changes on any failure.
    pub fn createSessionAt(&mut self, token: &str, auth_time: i64) -> (r: Result<(), Error>)
        requires
            old(self).wf(),
        ensures
            final(self).wf(),
            final(self).connected() == old(self).connected(),
            final(self).source() == old(self).source(),
            final(self).posts() == old(self).posts(),
            final(self).images() == old(self).images(),
            r is Ok ==> ({
                &&& !old(self).sessions().dom().contains(token@)
                &&& final(self).sessions() == old(self).sessions().insert(token@, auth_time)
            }),
            r is Err ==> final(self).sessions() == old(self).sessions(),
            r matches Err(e) ==> e matches Error::DataError(_),
            !old(self).connected() ==> r is Err,
    {
        match &mut self.connection {
            Some(conn) => {
                match insert_session(conn, token, auth_time) {
                    Ok(_) => Ok(()),
                    Err(m) => Err(Error::DataError(m)),
                }
            },
            None => Err(Error::DataError(String::from_str("Sqlite database not connected"))),
        }
    }

    /// Records a session authenticated now.
    pub fn createSession(&mut self, token: &str) -> (r: Result<(), Error>)
        requires
            old(self).wf(),
        ensures
            final(self).wf(),
            final(self).connected() == old(self).connected(),
            final(self).source() == old(self).source(),
            final(self).posts() == old(self).posts(),
            final(self).images() == old(self).images(),
            r is Ok ==> ({
                &&& !old(self).sessions().dom().contains(token@)
                &&& exists|t: i64|
                    final(self).sessions() == old(self).sessions().insert(token@, t)
            }),
            r is Err ==> final(self).sessions() == old(self).sessions(),
            r matches Err(e) ==> e matches Error::DataError(_),
            !old(self).connected() ==> r is Err,
    {
        let now = now_unix();
        self.createSessionAt(token, now)
    }

    /// Returns the time of authentication of the token, or a not-found
    /// error for a token without a session.
    pub fn hasSession(&self, token: &str) -> (r: Result<i64, Error>)
        ensures
            r matches Ok(t) ==> self.sessions().dom().contains(token@) && self.sessions()[token@]
                == t,
            r matches Err(e) ==> (e matches Error::NotFound(_) ==> !self.sessions().dom().contains(
                token@,
            )),
            r matches Err(e) ==> e matches Error::NotFound(_) || e matches Error::DataError(_),
            !self.connected() ==> r is Err,
    {
        match &self.connection {
            Some(conn) => {
                match select_session(conn, token) {
                    Ok(Some(t)) => Ok(t),
                    Ok(None) => Err(Error::NotFound(String::from_str("Session not found"))),
                    Err(m) => Err(Error::DataError(m)),
                }
            },
            None => Err(Error::DataError(String::from_str("Sqlite database not connected"))),
        }
    }

    /// How selected rows become the images of a post.
    pub open spec fn images_match(
        imgs: Seq<Image>,
        rids: Seq<i64>,
        images: Map<i64, (Seq<char>, u32, u32, i64)>,
    ) -> bool {
        &&& imgs.len() == rids.len()
        &&& (forall|a: int|
            0 <= a < imgs.len() ==> (#[trigger] imgs[a]).path@ == images[rids[a]].0 && imgs[a].width
                == images[rids[a]].1 && imgs[a].height == images[rids[a]].2)
    }

    /// A post value read back faithfully from the store: its own row, and
    /// its image rows, every one of them, in ascending row-id order.
    pub open spec fn post_matches(
        p: Post,
        id: i64,
        posts: Map<i64, (Seq<char>, i64, Option<i64>)>,
        images: Map<i64, (Seq<char>, u32, u32, i64)>,
    ) -> bool {
        &&& posts.dom().contains(id)
        &&& p.id == id
        &&& p.desc@ == posts[id].0
        &&& p.upload_time == posts[id].1
        &&& p.album_id == posts[id].2
        &&& exists|rids: Seq<i64>|
            image_listing(rids, images, id) && #[trigger] Self::images_match(p.images@, rids, images)
    }

    /// Looks a post up by id, with its images ordered by underlying row
    /// id, or none when no such post exists.
    pub fn findPostByID(&self, post_id: i64) -> (r: Result<Option<Post>, Error>)
        ensures
            r matches Ok(opt) ==> (opt is Some <==> self.posts().dom().contains(post_id)),
            r matches Ok(opt) ==> (opt matches Some(p) ==> Self::post_matches(
                p,
                post_id,
                self.posts(),
                self.images(),
            )),
            r matches Err(e) ==> e matches Error::DataError(_),
            !self.connected() ==> r is Err,
    {
        match &self.connection {
            Some(conn) => {
                let rows = match select_images_of(conn, post_id) {
                    Ok(v) => v,
                    Err(m) => {
                        return Err(Error::DataError(m));
                    },
                };
                let ghost rids = choose|rids: Seq<i64>|
                    image_listing(rids, db_images(*conn), post_id) && image_rows_match(
                        rows@,
                        rids,
                        db_images(*conn),
                    );
                let row = match select_post_row(conn, post_id) {
                    Ok(o) => o,
                    Err(m) => {
                        return Err(Error::DataError(m));
                    },
                };
                match row {
                    None => Ok(None),
                    Some((desc, upload_time, album)) => {
                        let n = rows.len();
                        let mut imgs: Vec<Image> = Vec::new();
                        let mut i: usize = 0;
                        while i < n
                            invariant
                                i <= n,
                                n == rows@.len(),
                                imgs@.len() == i,
                                forall|a: int|
                                    0 <= a < i ==> (#[trigger] imgs@[a]).path@ == rows@[a].0@
                                        && imgs@[a].width == rows@[a].1 && imgs@[a].height
                                        == rows@[a].2,
                            decreases n - i,
                        {
                            let row_i = &rows[i];
                            imgs.push(
                                Image { path: row_i.0.clone(), width: row_i.1, height: row_i.2 },
                            );
                            i = i + 1;
                        }
                        let p = Post {
                            id: post_id,
                            images: imgs,
                            desc,
                            upload_time,
                            album_id: album,
                        };
                        proof {
                            assert(Self::images_match(p.images@, rids, self.images()));
                            assert(Self::post_matches(p, post_id, self.posts(), self.images()));
                        }
                        Ok(Some(p))
                    },
                }
            },
            None => Err(Error::DataError(String::from_str("Sqlite database not connected"))),
        }
    }

    /// Offsets and limits are 64-bit signed integers in the store; larger
    /// requests are clipped to that bound.
    pub open spec fn clip(x: u64) -> int {
        if x > i64::MAX as u64 {
            i64::MAX as int
        } else {
            x as int
        }
    }

    /// Retrieves `count` posts starting from the entry at `start_index`,
    /// zero-based, sorted from new to old: one window of a full listing of
    /// the store's posts, each resolved as `findPostByID` resolves it.
    pub fn getPosts(&self, start_index: u64, count: u64, order: PostOrder) -> (r: Result<
        Vec<Post>,
        Error,
    >)
        ensures
            r matches Ok(v) ==> exists|all: Seq<i64>|
                #[trigger] post_listing(all, self.posts()) && ({
                    let page = page_of(all, Self::clip(start_index), Self::clip(count));
                    &&& v@.len() == page.len()
                    &&& (forall|a: int|
                        0 <= a < page.len() ==> Self::post_matches(
                            v@[a],
                            #[trigger] page[a],
                            self.posts(),
                            self.images(),
                        ))
                }),
            r matches Err(e) ==> e matches Error::DataError(_),
            !self.connected() ==> r is Err,
    {
        match order {
            PostOrder::NewFirst => {},
        }
        match &self.connection {
            Some(conn) => {
                let st: i64 = if start_index > i64::MAX as u64 {
                    i64::MAX
                } else {
                    start_index as i64
                };
                let ct: i64 = if count > i64::MAX as u64 {
                    i64::MAX
                } else {
                    count as i64
                };
                let ids = match select_ids_page(conn, ct, st) {
                    Ok(v) => v,
                    Err(m) => {
                        return Err(Error::DataError(m));
                    },
                };
                let ghost all = choose|all: Seq<i64>|
                    post_listing(all, db_posts(*conn)) && ids@ == page_of(
                        all,
                        st as int,
                        ct as int,
                    );
                let n = ids.len();
                let mut result: Vec<Post> = Vec::new();
                let mut i: usize = 0;
                while i < n
                    invariant
                        i <= n,
                        n == ids@.len(),
                        result@.len() == i,
                        self.connection is Some,
                        *conn == self.connection->0,
                        forall|a: int|
                            0 <= a < i ==> Self::post_matches(
                                #[trigger] result@[a],
                                ids@[a],
                                self.posts(),
                                self.images(),
                            ),
                    decreases n - i,
                {
                    let id = ids[i];
                    match self.findPostByID(id) {
                        Ok(Some(p)) => {
                            result.push(p);
                        },
                        Ok(None) => {
                            return Err(
                                Error::DataError(String::from_str("Failed to retrieve post")),
                            );
                        },
                        Err(e) => {
                            return Err(e);
                        },
                    }
                    i = i + 1;
                }
                proof {
                    assert(post_listing(all, self.posts()));
                    assert(ids@ == page_of(all, Self::clip(start_index), Self::clip(count)));
                }
                Ok(result)
            },
            None => Err(Error::DataError(String::from_str("Sqlite database not connected"))),
        }
    }

    /// The number of posts in the store.
    pub fn countPosts(&self) -> (r: Result<u64, Error>)
        ensures
            r matches Ok(n) ==> n as int == self.posts().dom().len(),
            r matches Err(e) ==> e matches Error::DataError(_),
            !self.connected() ==> r is Err,
    {
        match &self.connection {
            Some(conn) => {
                match count_posts(conn) {
                    Ok(n) => Ok(n),
                    Err(m) => Err(Error::DataError(m)),
                }
            },
            None => Err(Error::DataError(String::from_str("Sqlite database not connected"))),
        }
    }

    /// The cutoff below which a session of the given lifetime has expired.
    pub open spec fn session_cutoff(now: i64, life_time_sec: u64) -> int {
        now - life_time_sec
    }

    /// The sessions that remain after an expiry sweep at `now`: exactly
    /// those authenticated at or after the cutoff, kept as they were.
    pub open spec fn sessions_expired(
        sessions: Map<Seq<char>, i64>,
        life_time_sec: u64,
        now: i64,
    ) -> Map<Seq<char>, i64> {
        sessions.remove_keys(
            sessions.dom().filter(
                |k: Seq<char>| sessions[k] < Self::session_cutoff(now, life_time_sec),
            ),
        )
    }

    /// Removes exactly the sessions whose authentication time lies before
    /// `now` less the lifetime, and leaves every newer one intact.
    pub fn expireSessionsAt(&mut self, life_time_sec: u64, now: i64) -> (r: Result<(), Error>)
        requires
            old(self).wf(),
        ensures
            final(self).wf(),
            final(self).connected() == old(self).connected(),
            final(self).source() == old(self).source(),
            final(self).posts() == old(self).posts(),
            final(self).images() == old(self).images(),
            r is Ok ==> final(self).sessions() == Self::sessions_expired(
                old(self).sessions(),
                life_time_sec,
                now,
            ),
            r is Err ==> final(self).sessions() == old(self).sessions(),
            r matches Err(e) ==> e matches Error::DataError(_),
            !old(self).connected() ==> r is Err,
    {
        let cut128: i128 = now as i128 - life_time_sec as i128;
        let cut: i64 = if cut128 < i64::MIN as i128 {
            i64::MIN
        } else {
            cut128 as i64
        };
        match &mut self.connection {
            Some(conn) => {
                let ghost before = db_sessions(*conn);
                match delete_sessions_before(conn, cut) {
                    Ok(_) => {
                        proof {
                            assert(sessions_before(before, cut) =~= before.dom().filter(
                                |k: Seq<char>|
                                    before[k] < Self::session_cutoff(now, life_time_sec),
                            ));
                            lemma_remove_keys_finite(before, sessions_before(before, cut));
                        }
                        Ok(())
                    },
                    Err(m) => Err(Error::DataError(m)),
                }
            },
            None => Err(Error::DataError(String::from_str("Sqlite database not connected"))),
        }
    }

    /// New row ids that keep display order: they climb in insertion order,
    /// above every row id that was already in use.
    pub open spec fn rids_ordered(
        rids: Seq<i64>,
        old_m: Map<i64, (Seq<char>, u32, u32, i64)>,
    ) -> bool {
        &&& (forall|a: int, b: int|
            0 <= a < b < rids.len() ==> #[trigger] rids[a] < #[trigger] rids[b])
        &&& (forall|a: int, k: i64|
            #![trigger rids[a], old_m.dom().contains(k)]
            0 <= a < rids.len() && old_m.dom().contains(k) ==> rids[a] > k)
    }

    /// How the images table grows when a post's images are inserted: each
    /// image gains a row of its own under a fresh row id, referencing the
    /// new post, and no other row moves. As long as no row id has reached
    /// the largest possible integer, the new ids climb in insertion order
    /// above every preexisting row, so that row-id order is display order.
    pub open spec fn images_added(
        old_m: Map<i64, (Seq<char>, u32, u32, i64)>,
        new_m: Map<i64, (Seq<char>, u32, u32, i64)>,
        rids: Seq<i64>,
        imgs: Seq<Image>,
        post_id: i64,
    ) -> bool {
        &&& rids.len() == imgs.len()
        &&& rids.no_duplicates()
        &&& (forall|a: int| 0 <= a < rids.len() ==> !old_m.dom().contains(#[trigger] rids[a]))
        &&& (forall|k: i64|
            #[trigger] new_m.dom().contains(k) <==> old_m.dom().contains(k) || rids.contains(k))
        &&& (forall|k: i64| old_m.dom().contains(k) ==> #[trigger] new_m[k] == old_m[k])
        &&& (forall|a: int|
            0 <= a < rids.len() ==> #[trigger] new_m[rids[a]] == (
                imgs[a].path@,
                imgs[a].width,
                imgs[a].height,
                post_id,
            ))
        &&& ((forall|k: i64| #[trigger] new_m.dom().contains(k) ==> k < i64::MAX)
            ==> Self::rids_ordered(rids, old_m))
    }

    /// A post's images are displayed in the order they were attached: for a
    /// freshly added post — no image row referenced its id before — the
    /// row-id listing that a lookup walks is exactly the insertion sequence
    /// of its image rows, as long as no row id has reached the largest
    /// possible integer.
    pub proof fn lemma_display_order_is_insertion_order(
        old_m: Map<i64, (Seq<char>, u32, u32, i64)>,
        new_m: Map<i64, (Seq<char>, u32, u32, i64)>,
        rids: Seq<i64>,
        imgs: Seq<Image>,
        post_id: i64,
        lrids: Seq<i64>,
    )
        requires
            Self::images_added(old_m, new_m, rids, imgs, post_id),
            forall|k: i64| #[trigger] new_m.dom().contains(k) ==> k < i64::MAX,
            forall|k: i64| #[trigger] old_m.dom().contains(k) ==> old_m[k].3 != post_id,
            image_listing(lrids, new_m, post_id),
        ensures
            lrids == rids,
    {
        assert(Self::rids_ordered(rids, old_m));
        assert forall|x: i64| #[trigger] lrids.contains(x) == rids.contains(x) by {
            if lrids.contains(x) {
                let a = choose|a: int| 0 <= a < lrids.len() && lrids[a] == x;
                assert(new_m.dom().contains(lrids[a]) && new_m[lrids[a]].3 == post_id);
                if old_m.dom().contains(x) {
                    assert(new_m[x] == old_m[x]);
                    assert(false);
                }
            }
            if rids.contains(x) {
                let a = choose|a: int| 0 <= a < rids.len() && rids[a] == x;
                assert(new_m.dom().contains(x));
                assert(new_m[rids[a]].3 == post_id);
                assert(lrids.contains(x));
            }
        }
        lemma_increasing_unique(lrids, rids);
    }

    /// Inserts the post row, then one image row per image in display
    /// order, all inside one transaction, and returns the store-assigned
    /// post id. On any failure the transaction is rolled back: a post and
    /// its images become visible together or not at all.
    pub fn addPost(&mut self, post: &Post, album_id: Option<i64>) -> (r: Result<i64, Error>)
        requires
            old(self).wf(),
        ensures
            final(self).wf(),
            final(self).connected() == old(self).connected(),
            final(self).source() == old(self).source(),
            final(self).sessions() == old(self).sessions(),
            r matches Ok(id) ==> ({
                &&& !old(self).posts().dom().contains(id)
                &&& final(self).posts() == old(self).posts().insert(
                    id,
                    (post.desc@, post.upload_time, album_id),
                )
                &&& exists|rids: Seq<i64>|
                    #[trigger] Self::images_added(
                        old(self).images(),
                        final(self).images(),
                        rids,
                        post.images@,
                        id,
                    )
            }),
            r is Err ==> ({
                &&& final(self).posts() == old(self).posts()
                &&& final(self).images() == old(self).images()
            }),
            r matches Err(e) ==> e matches Error::DataError(_),
            !old(self).connected() ==> r is Err && *final(self) == *old(self),
    {
        if self.connection.is_none() {
            return Err(Error::DataError(String::from_str("Sqlite database not connected")));
        }
        let ghost posts0 = db_posts(self.connection->0);
        let ghost images0 = db_images(self.connection->0);
        let ghost sessions0 = db_sessions(self.connection->0);
        let began = match &mut self.connection {
            Some(c) => begin_txn(c),
            None => {
                proof {
                    assert(false);
                }
                return Err(Error::DataError(String::new()));
            },
        };
        match began {
            Ok(()) => {},
            Err(m) => {
                return Err(Error::DataError(m));
            },
        }
        let inserted = match &mut self.connection {
            Some(c) => insert_post(c, &post.desc, post.upload_time, album_id),
            None => {
                proof {
                    assert(false);
                }
                return Err(Error::DataError(String::new()));
            },
        };
        let id = match inserted {
            Ok(id) => id,
            Err(m) => {
                match &mut self.connection {
                    Some(c) => rollback_txn(c),
                    None => {
                        proof {
                            assert(false);
                        }
                        return Err(Error::DataError(String::new()));
                    },
                }
                proof {
                    assert(self.posts() == posts0);
                    assert(self.images() == images0);
                    assert(self.sessions() == sessions0);
                }
                return Err(Error::DataError(m));
            },
        };
        let ghost mut rids: Seq<i64> = Seq::empty();
        let n = post.images.len();
        let mut i: usize = 0;
        proof {
            assert(post.images@.take(0) =~= Seq::<Image>::empty());
        }
        while i < n
            invariant
                i <= n,
                n == post.images@.len(),
                self.connection is Some,
                old(self).connection is Some,
                txn_open(self.connection->0),
                txn_posts(self.connection->0) == posts0,
                txn_images(self.connection->0) == images0,
                txn_sessions(self.connection->0) == sessions0,
                db_posts(self.connection->0) == posts0.insert(
                    id,
                    (post.desc@, post.upload_time, album_id),
                ),
                !posts0.dom().contains(id),
                db_sessions(self.connection->0) == sessions0,
                posts0 == db_posts(old(self).connection->0),
                images0 == db_images(old(self).connection->0),
                sessions0 == db_sessions(old(self).connection->0),
                posts0.dom().finite(),
                images0.dom().finite(),
                sessions0.dom().finite(),
                Self::images_added(
                    images0,
                    db_images(self.connection->0),
                    rids,
                    post.images@.take(i as int),
                    id,
                ),
                self.filename == old(self).filename,
            decreases n - i,
        {
            let img = &post.images[i];
            let ghost before = db_images(self.connection->0);
            let res = match &mut self.connection {
                Some(c) => insert_image(c, &img.path, img.width, img.height, id),
                None => {
                    proof {
                        assert(false);
                    }
                    return Err(Error::DataError(String::new()));
                },
            };
            match res {
                Ok(rid) => {
                    proof {
                        let prev = rids;
                        rids = rids.push(rid);
                        assert(post.images@.take(i + 1).drop_last() =~= post.images@.take(
                            i as int,
                        ));
                        assert(post.images@.take(i + 1).last() == post.images@[i as int]);
                        assert forall|k: i64|
                            #[trigger] db_images(self.connection->0).dom().contains(k)
                                <==> images0.dom().contains(k) || rids.contains(k) by {
                            if rids.contains(k) {
                                let a = choose|a: int| 0 <= a < rids.len() && rids[a] == k;
                                if a < prev.len() {
                                    assert(prev.contains(k));
                                }
                            }
                            if db_images(self.connection->0).dom().contains(k) {
                                if k == rid {
                                    assert(rids[rids.len() - 1] == k);
                                    assert(rids.contains(k));
                                } else {
                                    if prev.contains(k) {
                                        let a = choose|a: int|
                                            0 <= a < prev.len() && prev[a] == k;
                                        assert(rids[a] == k);
                                        assert(rids.contains(k));
                                    }
                                }
                            }
                        }
                        if forall|k: i64|
                            #[trigger] db_images(self.connection->0).dom().contains(k) ==> k
                                < i64::MAX {
                            assert forall|k: i64|
                                #[trigger] before.dom().contains(k) implies k < i64::MAX by {
                                assert(db_images(self.connection->0).dom().contains(k));
                            }
                            assert(forall|k: i64|
                                #[trigger] before.dom().contains(k) ==> rid > k);
                            assert(Self::rids_ordered(prev, images0));
                            assert forall|a: int, b: int|
                                0 <= a < b < rids.len() implies #[trigger] rids[a]
                                < #[trigger] rids[b] by {
                                if b == prev.len() {
                                    assert(prev.contains(prev[a]));
                                    assert(before.dom().contains(prev[a]));
                                    assert(rids[b] == rid);
                                }
                            }
                            assert forall|a: int, k: i64|
                                #![trigger rids[a], images0.dom().contains(k)]
                                0 <= a < rids.len() && images0.dom().contains(
                                    k,
                                ) implies rids[a] > k by {
                                if a == prev.len() {
                                    assert(before.dom().contains(k));
                                    assert(rids[a] == rid);
                                } else {
                                    assert(prev[a] == rids[a]);
                                }
                            }
                            assert(Self::rids_ordered(rids, images0));
                        }
                    }
                },
                Err(m) => {
                    match &mut self.connection {
                        Some(c) => rollback_txn(c),
                        None => {
                            proof {
                                assert(false);
                            }
                            return Err(Error::DataError(String::new()));
                        },
                    }
                    proof {
                        assert(self.posts() == posts0);
                        assert(self.images() == images0);
                        assert(self.sessions() == sessions0);
                    }
                    return Err(Error::DataError(m));
                },
            }
            i = i + 1;
        }
        let committed = match &mut self.connection {
            Some(c) => commit_txn(c),
            None => {
                proof {
                    assert(false);
                }
                return Err(Error::DataError(String::new()));
            },
        };
        match committed {
            Ok(()) => {
                proof {
                    broadcast use vstd::seq_lib::seq_to_set_is_finite;

                    assert(post.images@.take(n as int) =~= post.images@);
                    assert(db_images(self.connection->0).dom() =~= images0.dom()
                        + rids.to_set());
                    assert(Self::images_added(
                        old(self).images(),
                        self.images(),
                        rids,
                        post.images@,
                        id,
                    ));
                }
                Ok(id)
            },
            Err(m) => {
                match &mut self.connection {
                    Some(c) => rollback_txn(c),
                    None => {
                        proof {
                            assert(false);
                        }
                        return Err(Error::DataError(String::new()));
                    },
                }
                proof {
                    assert(self.posts() == posts0);
                    assert(self.images() == images0);
                    assert(self.sessions() == sessions0);
                }
                Err(Error::DataError(m))
            },
        }
    }

    /// Removes every image row of the post, then the post row itself. A
    /// missing post row is a not-found error; image rows go regardless, so
    /// no row referencing the id survives the call.
    pub fn deletePost(&mut self, post_id: i64) -> (r: Result<(), Error>)
        requires
            old(self).wf(),
        ensures
            final(self).wf(),
            final(self).connected() == old(self).connected(),
            final(self).source() == old(self).source(),
            final(self).sessions() == old(self).sessions(),
            r is Ok ==> ({
                &&& old(self).posts().dom().contains(post_id)
                &&& final(self).posts() == old(self).posts().remove(post_id)
                &&& final(self).images() == old(self).images().remove_keys(
                    images_of(old(self).images(), post_id),
                )
                &&& forall|k: i64|
                    #[trigger] final(self).images().dom().contains(k) ==> final(self).images()[k].3
                        != post_id
            }),
            r matches Err(e) ==> (e matches Error::NotFound(_) ==> ({
                &&& !old(self).posts().dom().contains(post_id)
                &&& final(self).posts() == old(self).posts()
                &&& final(self).images() == old(self).images().remove_keys(
                    images_of(old(self).images(), post_id),
                )
            })),
            r matches Err(e) ==> e matches Error::NotFound(_) || e matches Error::DataError(_),
            r is Err ==> (final(self).posts() == old(self).posts() || final(self).posts() == old(
                self,
            ).posts().remove(post_id)),
            r is Err ==> (final(self).images() == old(self).images() || final(self).images()
                == old(self).images().remove_keys(images_of(old(self).images(), post_id))),
            !old(self).connected() ==> r is Err && *final(self) == *old(self),
    {
        match &mut self.connection {
            Some(conn) => {
                let ghost images0 = db_images(*conn);
                match delete_images_of(conn, post_id) {
                    Ok(_) => {},
                    Err(m) => {
                        return Err(Error::DataError(m));
                    },
                }
                proof {
                    lemma_remove_keys_finite(images0, images_of(images0, post_id));
                }
                match delete_post_row(conn, post_id) {
                    Ok(n) => {
                        if n == 1 {
                            proof {
                                assert(forall|k: i64|
                                    #[trigger] db_images(self.connection->0).dom().contains(k)
                                        ==> db_images(self.connection->0)[k].3 != post_id);
                            }
                            Ok(())
                        } else {
                            proof {
                                assert(db_posts(self.connection->0) =~= db_posts(
                                    old(self).connection->0,
                                ));
                            }
                            Err(Error::NotFound(String::from_str("Post not found")))
                        }
                    },
                    Err(m) => Err(Error::DataError(m)),
                }
            },
            None => Err(Error::DataError(String::from_str("Sqlite database not connected"))),
        }
    }

    /// Removes the sessions that have outlived the given lifetime, taking
    /// the clock as it stands now.
    pub fn expireSessions(&mut self, life_time_sec: u64) -> (r: Result<(), Error>)
        requires
            old(self).wf(),
        ensures
            final(self).wf(),
            final(self).connected() == old(self).connected(),
            final(self).source() == old(self).source(),
            final(self).posts() == old(self).posts(),
            final(self).images() == old(self).images(),
            r is Ok ==> exists|now: i64|
                final(self).sessions() == #[trigger] Self::sessions_expired(
                    old(self).sessions(),
                    life_time_sec,
                    now,
                ),
            r is Err ==> final(self).sessions() == old(self).sessions(),
            r matches Err(e) ==> e matches Error::DataError(_),
            !old(self).connected() ==> r is Err,
    {
        let now = now_unix();
        self.expireSessionsAt(life_time_sec, now)
    }
}

} // verus!
