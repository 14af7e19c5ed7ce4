use nspic::data::{Manager, PostOrder};
use nspic::error::Error;
use nspic::post::{Image, Post};
use nspic::sqlite_connection::Source;

fn memory_manager() -> Manager {
    let mut manager = Manager::new(Source::Memory);
    manager.connect().unwrap();
    manager.init().unwrap();
    manager
}

#[test]
fn addEmptyPostAndQuery() -> Result<(), Error> {
    let mut manager = Manager::new(Source::Memory);
    manager.connect()?;
    manager.init()?;

    let p = Post::new();
    let id = manager.addPost(&p, None)?;
    let post_maybe = manager.findPostByID(id)?;
    assert!(post_maybe.is_some());
    Ok(())
}

#[test]
fn addPostWithImageAndQueryAndDelete() -> Result<(), Error> {
    let mut manager = Manager::new(Source::Memory);
    manager.connect()?;
    manager.init()?;

    let image1 = Image { path: String::from("aaa"), width: 1, height: 2 };
    let image2 = Image { path: String::from("bbb"), width: 3, height: 4 };
    let mut p = Post::new();
    p.images = vec![image1, image2];

    let id = manager.addPost(&p, None)?;
    let post_maybe = manager.findPostByID(id)?;
    assert!(post_maybe.is_some());
    let post = post_maybe.unwrap();
    assert_eq!(post.id, id);
    assert_eq!(post.images.len(), 2);

    manager.deletePost(id)?;
    assert!(manager.findPostByID(id)?.is_none());
    Ok(())
}

#[test]
fn foundPostCarriesItsRow() {
    let mut manager = memory_manager();
    let mut p = Post::new();
    p.desc = String::from("a day out");
    p.upload_time = 1700000000;
    p.images = vec![Image { path: String::from("b/cafe.jpg"), width: 640, height: 480 }];
    let id = manager.addPost(&p, None).unwrap();

    let post = manager.findPostByID(id).unwrap().unwrap();
    assert_eq!(post.desc, "a day out");
    assert_eq!(post.upload_time, 1700000000);
    assert_eq!(post.album_id, None);
    assert_eq!(post.images.len(), 1);
    assert_eq!(post.images[0].path, "b/cafe.jpg");
    assert_eq!(post.images[0].width, 640);
    assert_eq!(post.images[0].height, 480);
}

#[test]
fn findMissingPostIsNone() {
    let manager = memory_manager();
    assert!(manager.findPostByID(12345).unwrap().is_none());
}

#[test]
fn deleteMissingPostIsNotFound() {
    let mut manager = memory_manager();
    let r = manager.deletePost(9999);
    assert!(matches!(r, Err(Error::NotFound(_))));
}

#[test]
fn deletePostLeavesNoImageRows() {
    let mut manager = memory_manager();
    let mut p = Post::new();
    p.images = vec![
        Image { path: String::from("x"), width: 1, height: 1 },
        Image { path: String::from("y"), width: 2, height: 2 },
        Image { path: String::from("z"), width: 3, height: 3 },
    ];
    let keep = manager.addPost(&Post::new(), None).unwrap();
    let id = manager.addPost(&p, None).unwrap();

    manager.deletePost(id).unwrap();
    assert!(manager.findPostByID(id).unwrap().is_none());
    // the other post is untouched
    assert!(manager.findPostByID(keep).unwrap().is_some());
}

#[test]
fn getPostsReturnsNewestFirst() {
    let mut manager = memory_manager();
    let mut p1 = Post::new();
    p1.desc = String::from("first");
    p1.upload_time = 100;
    let mut p2 = Post::new();
    p2.desc = String::from("second");
    p2.upload_time = 200;
    let mut p3 = Post::new();
    p3.desc = String::from("third");
    p3.upload_time = 300;
    manager.addPost(&p1, None).unwrap();
    manager.addPost(&p2, None).unwrap();
    manager.addPost(&p3, None).unwrap();

    let page = manager.getPosts(0, 2, PostOrder::NewFirst).unwrap();
    assert_eq!(page.len(), 2);
    assert_eq!(page[0].upload_time, 300);
    assert_eq!(page[0].desc, "third");
    assert_eq!(page[1].upload_time, 200);
    assert_eq!(page[1].desc, "second");

    let rest = manager.getPosts(2, 2, PostOrder::NewFirst).unwrap();
    assert_eq!(rest.len(), 1);
    assert_eq!(rest[0].upload_time, 100);
}

#[test]
fn addPostRollsBackOnFailure() {
    let mut manager = memory_manager();
    let mut p = Post::new();
    p.desc = String::from("doomed");
    p.images = vec![Image { path: String::from("x"), width: 1, height: 1 }];
    // the album reference points nowhere, so the insert fails and the
    // transaction is rolled back: nothing becomes visible
    let r = manager.addPost(&p, Some(12345));
    assert!(r.is_err());
    assert_eq!(manager.countPosts().unwrap(), 0);
    assert!(manager.getPosts(0, 10, PostOrder::NewFirst).unwrap().is_empty());
    // and the store still works afterwards
    let id = manager.addPost(&Post::new(), None).unwrap();
    assert!(manager.findPostByID(id).unwrap().is_some());
}

#[test]
fn getPostsPastTheEndIsEmpty() {
    let mut manager = memory_manager();
    manager.addPost(&Post::new(), None).unwrap();
    assert!(manager.getPosts(5, 2, PostOrder::NewFirst).unwrap().is_empty());
    assert!(manager.getPosts(0, 0, PostOrder::NewFirst).unwrap().is_empty());
}

#[test]
fn countPostsCountsRows() {
    let mut manager = memory_manager();
    assert_eq!(manager.countPosts().unwrap(), 0);
    manager.addPost(&Post::new(), None).unwrap();
    manager.addPost(&Post::new(), None).unwrap();
    assert_eq!(manager.countPosts().unwrap(), 2);
}

#[test]
fn expireSessionsRemovesExactlyTheStale() {
    let mut manager = memory_manager();
    manager.createSessionAt("old-token", 100).unwrap();
    manager.createSessionAt("new-token", 200).unwrap();

    // cutoff is 200 - 50 = 150: only the session from 100 goes
    manager.expireSessionsAt(50, 200).unwrap();
    assert!(matches!(manager.hasSession("old-token"), Err(Error::NotFound(_))));
    assert_eq!(manager.hasSession("new-token").unwrap(), 200);
}

#[test]
fn expireSessionsWithHugeLifetimeKeepsAll() {
    let mut manager = memory_manager();
    manager.createSessionAt("token-a", -5000).unwrap();
    manager.expireSessionsAt(u64::MAX, 0).unwrap();
    assert_eq!(manager.hasSession("token-a").unwrap(), -5000);
}

#[test]
fn duplicateSessionTokenIsAnError() {
    let mut manager = memory_manager();
    manager.createSessionAt("tok", 5).unwrap();
    assert!(manager.createSessionAt("tok", 9).is_err());
    // the original session is untouched
    assert_eq!(manager.hasSession("tok").unwrap(), 5);
}

#[test]
fn missingSessionIsNotFound() {
    let manager = memory_manager();
    assert!(matches!(manager.hasSession("nobody"), Err(Error::NotFound(_))));
}

#[test]
fn notConnectedManagerRefusesWork() {
    let mut manager = Manager::new(Source::Memory);
    assert!(manager.init().is_err());
    assert!(matches!(manager.addPost(&Post::new(), None), Err(Error::DataError(_))));
}

#[test]
fn initIsSafeToRerun() {
    let mut manager = memory_manager();
    let id = manager.addPost(&Post::new(), None).unwrap();
    manager.init().unwrap();
    assert!(manager.findPostByID(id).unwrap().is_some());
}
