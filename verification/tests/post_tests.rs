use nspic::post::{Image, Post};

#[test]
fn thumnailPath() -> Result<(), nspic::error::Error> {
    let mut image = Image { path: String::from("a/bc.jpg"), width: 0, height: 0 };

    assert_eq!(image.thumbnail()?, "a/bc_t.jpg");

    image.path = String::from("aaa.jpg");
    assert_eq!(image.thumbnail()?, "aaa_t.jpg");
    image.path = String::from("aaa");
    assert_eq!(image.thumbnail()?, "aaa_t");
    Ok(())
}

#[test]
fn thumbnailOfHiddenFileKeepsItsName() {
    let image = Image { path: String::from("a/.hidden"), width: 0, height: 0 };
    assert_eq!(image.thumbnail().unwrap(), "a/.hidden_t");
}

#[test]
fn thumbnailOfDirectoryPathFails() {
    let image = Image { path: String::from("a/"), width: 0, height: 0 };
    assert!(image.thumbnail().is_err());
}

#[test]
fn thumbnailOfDotComponentsFails() {
    for p in ["", ".", "..", "a/.", "a/.."] {
        let image = Image { path: String::from(p), width: 0, height: 0 };
        assert!(image.thumbnail().is_err());
    }
}

#[test]
fn newPostIsEmptyAtTheEpoch() {
    let p = Post::new();
    assert_eq!(p.id, 0);
    assert!(p.images.is_empty());
    assert_eq!(p.desc, "");
    assert_eq!(p.upload_time, 0);
    assert_eq!(p.album_id, None);
}
