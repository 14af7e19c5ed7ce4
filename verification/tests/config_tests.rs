use nspic::config::{Configuration, ImageEncoding, SiteInfo};
use nspic::strutil::u64ToString;
use nspic::urls::{pathPrefix, urlFor};

#[test]
fn encodingExtensions() {
    assert_eq!(ImageEncoding::Jpeg.extension(), "jpg");
    assert_eq!(ImageEncoding::Png.extension(), "png");
    assert_eq!(ImageEncoding::Avif.extension(), "avif");
    assert_eq!(ImageEncoding::JpegXl.extension(), "jxl");
}

#[test]
fn configurationDefaults() {
    let c = Configuration::default();
    assert_eq!(c.listen_address, "127.0.0.1");
    assert_eq!(c.listen_port, 8080);
    assert_eq!(c.serve_under_path, "/");
    assert_eq!(c.static_dir, "static");
    assert_eq!(c.data_dir, ".");
    assert_eq!(c.upload_bytes_max, 1024 * 1024 * 100);
    assert_eq!(c.image_dir, "test");
    assert_eq!(c.image_pixel_size, 1280);
    assert_eq!(c.thumb_pixel_size, 256);
    assert_eq!(c.image_encoding, ImageEncoding::Jpeg);
    assert_eq!(c.image_encoding_quality, 90);
    assert_eq!(c.session_life_time_sec, 2592000);
    assert_eq!(c.password, "nspic");
    assert!(c.webhook_url.is_none());
}

#[test]
fn siteInfoDefaults() {
    let s = SiteInfo::default();
    assert_eq!(s.site_title, "NSPic");
    assert_eq!(s.footnote, "");
    assert_eq!(s.url_domain, "http://example.org");
    assert_eq!(s.username, "User");
}

#[test]
fn urlForKnownPages() {
    assert_eq!(urlFor("index", ""), "/");
    assert_eq!(urlFor("upload", ""), "/upload");
    assert_eq!(urlFor("post", "7"), "/p/7");
    assert_eq!(urlFor("feed", ""), "/feed.xml");
    assert_eq!(urlFor("delete_confirm", "7"), "/delete-confirm/7");
    assert_eq!(urlFor("delete", "7"), "/delete/7");
    assert_eq!(urlFor("login", ""), "/login/");
    assert_eq!(urlFor("static", "style.css"), "/static/style.css");
    assert_eq!(urlFor("image_file", "1/a.jpg"), "/image/1/a.jpg");
    assert_eq!(urlFor("anything-else", "x"), "/");
}

#[test]
fn pathPrefixNormalizesTheServePath() {
    assert_eq!(pathPrefix(&String::from("")), "");
    assert_eq!(pathPrefix(&String::from("/")), "");
    assert_eq!(pathPrefix(&String::from("/pics")), "/pics");
    assert_eq!(pathPrefix(&String::from("pics")), "/pics");
}

#[test]
fn decimalRendering() {
    assert_eq!(u64ToString(0), "0");
    assert_eq!(u64ToString(7), "7");
    assert_eq!(u64ToString(1234567890), "1234567890");
    assert_eq!(u64ToString(u64::MAX), "18446744073709551615");
}
