use vstd::prelude::*;

verus! {

/// The target encoding of stored assets.
#[derive(Debug, Clone, PartialEq, Eq)]
pub enum ImageEncoding {
    Jpeg,
    Png,
    Avif,
    JpegXl,
}

/// The canonical file extension of an encoding.
pub open spec fn extension_of(e: ImageEncoding) -> Seq<char> {
    match e {
        ImageEncoding::Jpeg => "jpg"@,
        ImageEncoding::Png => "png"@,
        ImageEncoding::Avif => "avif"@,
        ImageEncoding::JpegXl => "jxl"@,
    }
}

impl ImageEncoding {
    pub fn extension(&self) -> (r: &str)
        ensures
            r@ == extension_of(*self),
    {
        match self {
            Self::Jpeg => "jpg",
            Self::Png => "png",
            Self::Avif => "avif",
            Self::JpegXl => "jxl",
        }
    }
}

pub fn defaultListenAddr() -> (r: String)
    ensures
        r@ == "127.0.0.1"@,
{
    String::from_str("127.0.0.1")
}

pub fn defaultServePath() -> (r: String)
    ensures
        r@ == "/"@,
{
    String::from_str("/")
}

pub fn defaultListenPort() -> (r: u16)
    ensures
        r == 8080,
{
    8080
}

pub fn defaultDataDir() -> (r: String)
    ensures
        r@ == "."@,
{
    String::from_str(".")
}

pub fn defaultImageDir() -> (r: String)
    ensures
        r@ == "test"@,
{
    String::from_str("test")
}

pub fn defaultUploadBytesMax() -> (r: u64)
    ensures
        r == 1024 * 1024 * 100,
{
    1024 * 1024 * 100
}

pub fn defaultImagePixelSize() -> (r: u32)
    ensures
        r == 1280,
{
    1280
}

pub fn defaultThumbPixelSize() -> (r: u32)
    ensures
        r == 256,
{
    256
}

pub fn defaultImageEncoding() -> (r: ImageEncoding)
    ensures
        r == ImageEncoding::Jpeg,
{
    ImageEncoding::Jpeg
}

pub fn defaultImageEncodingQuality() -> (r: i32)
    ensures
        r == 90,
{
    90
}

pub fn defaultSessionLiftTimeSec() -> (r: u64)
    ensures
        r == 2592000,
{
    2592000
}

pub fn defaultSiteTitle() -> (r: String)
    ensures
        r@ == "NSPic"@,
{
    String::from_str("NSPic")
}

pub fn defaultFootnote() -> (r: String)
    ensures
        r@ == Seq::<char>::empty(),
{
    String::new()
}

pub fn defaultUrlDomain() -> (r: String)
    ensures
        r@ == "http://example.org"@,
{
    String::from_str("http://example.org")
}

pub fn defaultUsername() -> (r: String)
    ensures
        r@ == "User"@,
{
    String::from_str("User")
}

/// Descriptive facts about the site, used by page rendering and the feed.
#[derive(Debug, Clone)]
pub struct SiteInfo {
    pub site_title: String,
    pub footnote: String,
    /// The beginning part of the URL of the website, including only the
    /// protocol and domain, without the trailing slash.
    pub url_domain: String,
    /// Only used for the atom feed.
    pub username: String,
}

impl Default for SiteInfo {
    fn default() -> (r: Self)
        ensures
            r.site_title@ == "NSPic"@,
            r.footnote@ == Seq::<char>::empty(),
            r.url_domain@ == "http://example.org"@,
            r.username@ == "User"@,
    {
        Self {
            site_title: defaultSiteTitle(),
            footnote: defaultFootnote(),
            url_domain: defaultUrlDomain(),
            username: defaultUsername(),
        }
    }
}

/// The configuration surface of the service.
#[derive(Debug, Clone)]
pub struct Configuration {
    pub listen_address: String,
    pub listen_port: u16,
    /// Must start with `/`, and not end with `/`, unless it is just `/`.
    pub serve_under_path: String,
    pub static_dir: String,
    pub data_dir: String,
    pub upload_bytes_max: u64,
    pub image_dir: String,
    pub image_pixel_size: u32,
    pub thumb_pixel_size: u32,
    pub image_encoding: ImageEncoding,
    pub image_encoding_quality: i32,
    pub session_life_time_sec: u64,
    pub password: String,
    /// When set, a JSON payload is POSTed to this URI on each new post.
    pub webhook_url: Option<String>,
    pub site_info: SiteInfo,
}

impl Default for Configuration {
    fn default() -> (r: Self)
        ensures
            r.listen_address@ == "127.0.0.1"@,
            r.listen_port == 8080,
            r.serve_under_path@ == "/"@,
            r.static_dir@ == "static"@,
            r.data_dir@ == "."@,
            r.upload_bytes_max == 1024 * 1024 * 100,
            r.image_dir@ == "test"@,
            r.image_pixel_size == 1280,
            r.thumb_pixel_size == 256,
            r.image_encoding == ImageEncoding::Jpeg,
            r.image_encoding_quality == 90,
            r.session_life_time_sec == 2592000,
            r.password@ == "nspic"@,
            r.webhook_url is None,
    {
        Self {
            listen_address: defaultListenAddr(),
            listen_port: defaultListenPort(),
            serve_under_path: defaultServePath(),
            static_dir: String::from_str("static"),
            data_dir: defaultDataDir(),
            upload_bytes_max: defaultUploadBytesMax(),
            image_dir: defaultImageDir(),
            image_pixel_size: defaultImagePixelSize(),
            thumb_pixel_size: defaultThumbPixelSize(),
            image_encoding: defaultImageEncoding(),
            image_encoding_quality: defaultImageEncodingQuality(),
            session_life_time_sec: defaultSessionLiftTimeSec(),
            password: String::from_str("nspic"),
            webhook_url: None,
            site_info: SiteInfo::default(),
        }
    }
}

} // verus!
