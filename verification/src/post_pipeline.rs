use vstd::prelude::*;

use crate::config::{extension_of, Configuration, ImageEncoding};
use crate::error::{Error, ToolFailure};
use crate::hashing::{contentHash, content_hash_of};
use crate::paths::{
    after_last, afterLast, ext_of, extOf, joinPath, joined_path, lemma_after_last_bounds,
    root_relative, stripRoot, with_ext, withExt,
};
use crate::post::Image;
use crate::strutil::{dec_str_of, u64ToString};

verus! {

/// The place of an image file under the image root.
pub fn imagePath(image: &Image, config: &Configuration) -> (r: String)
    ensures
        r@ == joined_path(config.image_dir@, image.path@),
{
    joinPath(config.image_dir.as_str(), image.path.as_str())
}

pub assume_specification<T>[ rand::random::<T> ]() -> (r: T)
    where
        rand::distributions::Standard: rand::distributions::Distribution<T>,
;

/// The name of a numbered temporary file under a directory.
pub open spec fn temp_name(dir: Seq<char>, n: int) -> Seq<char> {
    joined_path(dir, seq!['t', 'e', 'm', 'p', '-'] + dec_str_of(n))
}

/// Draws a candidate name for a temporary file under `dir`. The caller must
/// test whether a file of that name already exists and, if so, draw again:
/// nothing here touches the file system.
pub fn randomTempFilename(dir: &str) -> (r: String)
    ensures
        exists|n: int| 0 <= n <= u32::MAX && r@ == temp_name(dir@, n),
{
    let n = rand::random::<u32>();
    let num = u64ToString(n as u64);
    let name = String::from_str("temp-").concat(num.as_str());
    proof {
        reveal_strlit("temp-");
        assert("temp-"@ =~= seq!['t', 'e', 'm', 'p', '-']);
        assert(name@ == seq!['t', 'e', 'm', 'p', '-'] + dec_str_of(n as int));
    }
    let r = joinPath(dir, name.as_str());
    proof {
        assert(r@ == temp_name(dir@, n as int));
    }
    r
}

/// The pixel dimensions of an image.
#[derive(Debug, Clone, PartialEq, Eq)]
pub struct ImageMetadata {
    pub width: u32,
    pub height: u32,
}

impl ImageMetadata {
    pub fn new() -> (r: Self)
        ensures
            r.width == 0,
            r.height == 0,
    {
        Self { width: 0, height: 0 }
    }
}

/// What became of one run of the external transcoder. The boundary that
/// spawns the process reports it here; the pipeline stages decide on it.
#[derive(Debug, Clone, PartialEq, Eq)]
pub enum RunOutcome {
    /// The process ran and exited successfully.
    Finished,
    /// The process failed; the kind says how.
    Failed(ToolFailure),
}

/// One invocation of the external transcoder: downscale `input` so that its
/// larger side is at most `max_dimension` (never upscale), re-encode at
/// `quality`, and write the result to `output`.
#[derive(Debug, Clone, PartialEq, Eq)]
pub struct ResizeRequest {
    pub input: String,
    pub output: String,
    pub max_dimension: u32,
    pub quality: i32,
}

/// An image file that was just uploaded.
#[derive(Debug, Clone)]
pub struct RawImage {
    /// Path of the uploaded temp file, under the image root.
    pub path: String,
    /// The content hash of the uploaded bytes.
    pub hash: String,
    /// The client-supplied filename, used only for extension inference.
    pub original_filename: String,
}

/// An uploaded image file with its resized version.
#[derive(Debug, Clone)]
pub struct ResizedImage {
    /// Path of the uploaded temp image file.
    pub uploaded: String,
    /// Path of the resized image file.
    pub path: String,
    pub hash: String,
    pub original_filename: String,
}

/// A resized image file with its thumbnail.
#[derive(Debug, Clone)]
pub struct ImageWithThumbnail {
    /// Path of the resized image file.
    pub path: String,
    /// Path of the thumbnail file.
    pub thumbnail: String,
    pub hash: String,
    pub original_filename: String,
}

/// Decides the temp path for a fresh upload. A missing client filename is a
/// bad request; otherwise the upload is saved under a random temporary name
/// carrying the upload's own extension, inside the image directory — so
/// that the later move into the library stays on one storage volume.
pub fn uploadTempPath(config: &Configuration, original_filename: &Option<String>) -> (r: Result<
    String,
    Error,
>)
    ensures
        r matches Ok(p) ==> original_filename matches Some(f) && exists|n: int|
            0 <= n <= u32::MAX && p@ == with_ext(temp_name(config.image_dir@, n), ext_of(f@)),
        r matches Err(e) ==> original_filename is None && e matches Error::BadRequest(_),
{
    match original_filename {
        Some(f) => {
            let base = randomTempFilename(config.image_dir.as_str());
            let ext = extOf(f.as_str());
            Ok(withExt(base, ext.as_str()))
        },
        None => Err(Error::BadRequest(String::from_str("No filename in upload"))),
    }
}

impl RawImage {
    /// The first pipeline stage, built from a saved upload: where the bytes
    /// were written, the content hash computed over the same bytes, and the
    /// client-supplied filename.
    pub fn new(path: String, data: &Vec<u8>, original_filename: String) -> (r: Self)
        ensures
            r.path@ == path@,
            r.hash@ == content_hash_of(data@),
            r.hash@.len() == 32,
            r.original_filename@ == original_filename@,
    {
        let hash = contentHash(data);
        Self { path, hash, original_filename }
    }

    /// Where the resized file goes: beside the upload, the file stem gains
    /// `-processed`, and the configured encoding decides the extension.
    pub open spec fn resize_target(p: Seq<char>, enc: ImageEncoding) -> Seq<char> {
        let k = after_last(p, '/');
        let f = p.skip(k);
        let d = after_last(f, '.');
        let stem_end = if d <= 1 {
            p.len() as int
        } else {
            k + d - 1
        };
        p.take(stem_end) + seq!['-', 'p', 'r', 'o', 'c', 'e', 's', 's', 'e', 'd', '.']
            + extension_of(enc)
    }

    /// The transcoder invocation that renders the resized image.
    pub fn resizePlan(&self, config: &Configuration) -> (r: ResizeRequest)
        ensures
            r.input@ == self.path@,
            r.output@ == Self::resize_target(self.path@, config.image_encoding),
            r.max_dimension == config.image_pixel_size,
            r.quality == config.image_encoding_quality,
    {
        let p = self.path.as_str();
        let n = p.unicode_len();
        let k = afterLast(p, '/');
        proof {
            lemma_after_last_bounds(p@, '/');
        }
        let f = p.substring_char(k, n);
        let d = afterLast(f, '.');
        proof {
            lemma_after_last_bounds(f@, '.');
        }
        let stem_end: usize = if d <= 1 {
            n
        } else {
            k + d - 1
        };
        let s = p.substring_char(0, stem_end).to_owned().concat("-processed.");
        let out = s.concat(config.image_encoding.extension());
        proof {
            reveal_strlit("-processed.");
            assert("-processed."@ =~= seq![
                '-',
                'p',
                'r',
                'o',
                'c',
                'e',
                's',
                's',
                'e',
                'd',
                '.',
            ]);
            if d > 1 {
                assert(p@.subrange(0, stem_end as int) =~= p@.take(k + d - 1));
            } else {
                assert(p@.subrange(0, stem_end as int) =~= p@.take(p@.len() as int));
            }
            assert(out@ =~= Self::resize_target(self.path@, config.image_encoding));
        }
        ResizeRequest {
            input: self.path.clone(),
            output: out,
            max_dimension: config.image_pixel_size,
            quality: config.image_encoding_quality,
        }
    }

    /// Consumes the upload given the outcome of the transcoder run that
    /// `resizePlan` described. On success the upload and the resized file
    /// move to the next stage; on failure both files must go, and the
    /// second component names exactly the paths the caller must remove.
    pub fn resize(self, config: &Configuration, outcome: RunOutcome) -> (r: (
        Result<ResizedImage, Error>,
        Vec<String>,
    ))
        ensures
            outcome is Finished ==> ({
                &&& r.0 matches Ok(ri) && ri.uploaded@ == self.path@ && ri.path@
                    == Self::resize_target(self.path@, config.image_encoding) && ri.hash@
                    == self.hash@ && ri.original_filename@ == self.original_filename@
                &&& r.1@.len() == 0
            }),
            outcome matches RunOutcome::Failed(f) ==> ({
                &&& r.0 == Result::<ResizedImage, Error>::Err(Error::ToolError(f))
                &&& r.1@.len() == 2
                &&& r.1@[0]@ == self.path@
                &&& r.1@[1]@ == Self::resize_target(self.path@, config.image_encoding)
            }),
    {
        let plan = self.resizePlan(config);
        match outcome {
            RunOutcome::Finished => (
                Ok(
                    ResizedImage {
                        uploaded: self.path,
                        path: plan.output,
                        hash: self.hash,
                        original_filename: self.original_filename,
                    },
                ),
                Vec::new(),
            ),
            RunOutcome::Failed(f) => {
                let mut gone: Vec<String> = Vec::new();
                gone.push(self.path);
                gone.push(plan.output);
                (Err(Error::ToolError(f)), gone)
            },
        }
    }
}

/// Draws a candidate path for the thumbnail file: a random temporary name
/// under the image root, with the configured encoding's extension. As with
/// any temporary name, the caller must test for collisions.
pub fn thumbnailTempPath(config: &Configuration) -> (r: String)
    ensures
        exists|n: int|
            0 <= n <= u32::MAX && r@ == with_ext(
                temp_name(config.image_dir@, n),
                extension_of(config.image_encoding),
            ),
{
    let base = randomTempFilename(config.image_dir.as_str());
    withExt(base, config.image_encoding.extension())
}

impl ResizedImage {
    /// The transcoder invocation that renders the thumbnail: the resized
    /// file is downscaled once more, to the thumbnail limit.
    pub fn thumbnailPlan(&self, config: &Configuration, thumb_path: &String) -> (r: ResizeRequest)
        ensures
            r.input@ == self.path@,
            r.output@ == thumb_path@,
            r.max_dimension == config.thumb_pixel_size,
            r.quality == config.image_encoding_quality,
    {
        ResizeRequest {
            input: self.path.clone(),
            output: thumb_path.clone(),
            max_dimension: config.thumb_pixel_size,
            quality: config.image_encoding_quality,
        }
    }

    /// Consumes this stage given the outcome of the thumbnail run. On
    /// success the upload has served its purpose and must be removed; on
    /// failure every intermediate file must go: the resized image, the
    /// upload, and the partial thumbnail. The second component names
    /// exactly the paths the caller must remove.
    pub fn makeThumbnail(self, thumb_path: String, outcome: RunOutcome) -> (r: (
        Result<ImageWithThumbnail, Error>,
        Vec<String>,
    ))
        ensures
            outcome is Finished ==> ({
                &&& r.0 matches Ok(t) && t.path@ == self.path@ && t.thumbnail@ == thumb_path@
                    && t.hash@ == self.hash@ && t.original_filename@ == self.original_filename@
                &&& r.1@.len() == 1
                &&& r.1@[0]@ == self.uploaded@
            }),
            outcome matches RunOutcome::Failed(f) ==> ({
                &&& r.0 == Result::<ImageWithThumbnail, Error>::Err(Error::ToolError(f))
                &&& r.1@.len() == 3
                &&& r.1@[0]@ == self.path@
                &&& r.1@[1]@ == self.uploaded@
                &&& r.1@[2]@ == thumb_path@
            }),
    {
        match outcome {
            RunOutcome::Finished => {
                let mut gone: Vec<String> = Vec::new();
                gone.push(self.uploaded);
                (
                    Ok(
                        ImageWithThumbnail {
                            path: self.path,
                            thumbnail: thumb_path,
                            hash: self.hash,
                            original_filename: self.original_filename,
                        },
                    ),
                    gone,
                )
            },
            RunOutcome::Failed(f) => {
                let mut gone: Vec<String> = Vec::new();
                gone.push(self.path);
                gone.push(self.uploaded);
                gone.push(thumb_path);
                (Err(Error::ToolError(f)), gone)
            },
        }
    }
}

/// Where the two files of a finished asset live: a bucket directory named
/// after the first character of the content hash, holding
/// `<hash>.<ext>` and `<hash>_t.<ext>`.
pub open spec fn bucket_dir(dir: Seq<char>, hash: Seq<char>) -> Seq<char> {
    joined_path(dir, hash.take(1))
}

pub open spec fn library_image_path(dir: Seq<char>, hash: Seq<char>, enc: ImageEncoding) -> Seq<
    char,
> {
    joined_path(bucket_dir(dir, hash), hash + seq!['.'] + extension_of(enc))
}

pub open spec fn library_thumb_path(dir: Seq<char>, hash: Seq<char>, enc: ImageEncoding) -> Seq<
    char,
> {
    joined_path(bucket_dir(dir, hash), hash + seq!['_', 't', '.'] + extension_of(enc))
}

/// The three paths of the move into the library: the bucket directory to
/// create if absent, and the two rename destinations.
#[derive(Debug, Clone, PartialEq, Eq)]
pub struct MovePlan {
    pub subdir: String,
    pub image_dest: String,
    pub thumb_dest: String,
}

/// What became of the move into the library, reported by the boundary that
/// creates the bucket directory and performs the two renames, in that
/// order, stopping at the first failure. The rename failures carry the
/// underlying error's text.
#[derive(Debug, Clone, PartialEq, Eq)]
pub enum MoveOutcome {
    Moved,
    SubdirFailed,
    ImageRenameFailed(String),
    ThumbRenameFailed(String),
}

/// What became of resolving the stored file and the image root to their
/// canonical forms, reported by the boundary. `Resolved` carries the
/// canonical path of the stored file and of the image root; the failures
/// carry the underlying error's text.
#[derive(Debug, Clone, PartialEq, Eq)]
pub enum CanonOutcome {
    Resolved(String, String),
    PathFailed(String),
    RootFailed(String),
}

impl ImageWithThumbnail {
    /// The content-addressed places of this asset's files.
    pub fn movePlan(&self, config: &Configuration) -> (r: MovePlan)
        requires
            self.hash@.len() >= 1,
        ensures
            r.subdir@ == bucket_dir(config.image_dir@, self.hash@),
            r.image_dest@ == library_image_path(
                config.image_dir@,
                self.hash@,
                config.image_encoding,
            ),
            r.thumb_dest@ == library_thumb_path(
                config.image_dir@,
                self.hash@,
                config.image_encoding,
            ),
    {
        let h = self.hash.as_str();
        let bucket = h.substring_char(0, 1);
        let subdir = joinPath(config.image_dir.as_str(), bucket);
        let ext = config.image_encoding.extension();
        let image_name = self.hash.clone().concat(".").concat(ext);
        let thumb_name = self.hash.clone().concat("_t.").concat(ext);
        proof {
            reveal_strlit(".");
            reveal_strlit("_t.");
            assert("."@ =~= seq!['.']);
            assert("_t."@ =~= seq!['_', 't', '.']);
            assert(h@.subrange(0, 1) =~= self.hash@.take(1));
            assert(image_name@ =~= self.hash@ + seq!['.'] + ext@);
            assert(thumb_name@ =~= self.hash@ + seq!['_', 't', '.'] + ext@);
        }
        let image_dest = joinPath(subdir.as_str(), image_name.as_str());
        let thumb_dest = joinPath(subdir.as_str(), thumb_name.as_str());
        MovePlan { subdir, image_dest, thumb_dest }
    }

    /// Consumes this stage given the outcome of the move that `movePlan`
    /// described. On any rename failure all touched paths must be removed,
    /// so that a partially-moved asset never stays behind; the second
    /// component names exactly the paths the caller must remove.
    pub fn moveToLibrary(self, config: &Configuration, outcome: MoveOutcome) -> (r: (
        Result<Self, Error>,
        Vec<String>,
    ))
        requires
            self.hash@.len() >= 1,
        ensures
            outcome is Moved ==> ({
                &&& r.0 matches Ok(t) && t.path@ == library_image_path(
                    config.image_dir@,
                    self.hash@,
                    config.image_encoding,
                ) && t.thumbnail@ == library_thumb_path(
                    config.image_dir@,
                    self.hash@,
                    config.image_encoding,
                ) && t.hash@ == self.hash@ && t.original_filename@ == self.original_filename@
                &&& r.1@.len() == 0
            }),
            outcome is SubdirFailed ==> ({
                &&& r.0 matches Err(e)
                &&& e matches Error::RuntimeError(_)
                &&& r.1@.len() == 0
            }),
            outcome matches MoveOutcome::ImageRenameFailed(m) ==> ({
                &&& r.0 matches Err(e)
                &&& e matches Error::RuntimeError(s)
                &&& s@ == m@
                &&& r.1@.len() == 3
                &&& r.1@[0]@ == self.path@
                &&& r.1@[1]@ == self.thumbnail@
                &&& r.1@[2]@ == library_image_path(
                    config.image_dir@,
                    self.hash@,
                    config.image_encoding,
                )
            }),
            outcome matches MoveOutcome::ThumbRenameFailed(m) ==> ({
                &&& r.0 matches Err(e)
                &&& e matches Error::RuntimeError(s)
                &&& s@ == m@
                &&& r.1@.len() == 4
                &&& r.1@[0]@ == self.path@
                &&& r.1@[1]@ == self.thumbnail@
                &&& r.1@[2]@ == library_image_path(
                    config.image_dir@,
                    self.hash@,
                    config.image_encoding,
                )
                &&& r.1@[3]@ == library_thumb_path(
                    config.image_dir@,
                    self.hash@,
                    config.image_encoding,
                )
            }),
    {
        let plan = self.movePlan(config);
        match outcome {
            MoveOutcome::Moved => (
                Ok(
                    Self {
                        path: plan.image_dest,
                        thumbnail: plan.thumb_dest,
                        hash: self.hash,
                        original_filename: self.original_filename,
                    },
                ),
                Vec::new(),
            ),
            MoveOutcome::SubdirFailed => (
                Err(Error::RuntimeError(String::from_str("Failed to create sub dir"))),
                Vec::new(),
            ),
            MoveOutcome::ImageRenameFailed(m) => {
                let mut gone: Vec<String> = Vec::new();
                gone.push(self.path);
                gone.push(self.thumbnail);
                gone.push(plan.image_dest);
                (Err(Error::RuntimeError(m)), gone)
            },
            MoveOutcome::ThumbRenameFailed(m) => {
                let mut gone: Vec<String> = Vec::new();
                gone.push(self.path);
                gone.push(self.thumbnail);
                gone.push(plan.image_dest);
                gone.push(plan.thumb_dest);
                (Err(Error::RuntimeError(m)), gone)
            },
        }
    }

    /// Consumes this stage given the canonical forms of the stored file and
    /// the image root. The stored path is rewritten to be root-relative; a
    /// path that does not lie under the root fails closed, and the file
    /// must then be removed. The second component names exactly the paths
    /// the caller must remove.
    pub fn makeRelativePath(self, outcome: CanonOutcome) -> (r: (Result<Self, Error>, Vec<String>))
        ensures
            outcome matches CanonOutcome::Resolved(full, root) ==> (root_relative(full@, root@)
                matches Some(rel) ==> ({
                &&& r.0 matches Ok(t) && t.path@ == rel && t.thumbnail@ == self.thumbnail@
                    && t.hash@ == self.hash@ && t.original_filename@ == self.original_filename@
                &&& r.1@.len() == 0
            })),
            outcome matches CanonOutcome::Resolved(full, root) ==> (root_relative(full@, root@)
                is None ==> ({
                &&& r.0 matches Err(e)
                &&& e matches Error::RuntimeError(_)
                &&& r.1@.len() == 1
                &&& r.1@[0]@ == full@
            })),
            outcome matches CanonOutcome::PathFailed(m) ==> ({
                &&& r.0 matches Err(e)
                &&& e matches Error::RuntimeError(s)
                &&& s@ == m@
                &&& r.1@.len() == 1
                &&& r.1@[0]@ == self.path@
            }),
            outcome matches CanonOutcome::RootFailed(m) ==> ({
                &&& r.0 matches Err(e)
                &&& e matches Error::RuntimeError(s)
                &&& s@ == m@
                &&& r.1@.len() == 1
                &&& r.1@[0]@ == self.path@
            }),
    {
        match outcome {
            CanonOutcome::Resolved(full, root) => {
                match stripRoot(full.as_str(), root.as_str()) {
                    Some(rel) => (
                        Ok(
                            Self {
                                path: rel,
                                thumbnail: self.thumbnail,
                                hash: self.hash,
                                original_filename: self.original_filename,
                            },
                        ),
                        Vec::new(),
                    ),
                    None => {
                        let mut gone: Vec<String> = Vec::new();
                        gone.push(full);
                        (
                            Err(
                                Error::RuntimeError(
                                    String::from_str("Image is not in the image directory"),
                                ),
                            ),
                            gone,
                        )
                    },
                }
            },
            CanonOutcome::PathFailed(m) => {
                let mut gone: Vec<String> = Vec::new();
                gone.push(self.path);
                (Err(Error::RuntimeError(m)), gone)
            },
            CanonOutcome::RootFailed(m) => {
                let mut gone: Vec<String> = Vec::new();
                gone.push(self.path);
                (Err(Error::RuntimeError(m)), gone)
            },
        }
    }

    /// The path the metadata probe must read: the stored file under the
    /// image root.
    pub fn probePlan(&self, config: &Configuration) -> (r: String)
        ensures
            r@ == joined_path(config.image_dir@, self.path@),
    {
        joinPath(config.image_dir.as_str(), self.path.as_str())
    }
}

/// What the probe of the stored file yielded: the bytes it printed, or how
/// the process failed.
#[derive(Debug, Clone, PartialEq, Eq)]
pub enum ProbeOutcome {
    Output(Vec<u8>),
    Failed(ToolFailure),
}

/// The index of the first newline byte, or the length when there is none.
pub open spec fn first_nl(s: Seq<u8>) -> int
    decreases s.len(),
{
    if s.len() == 0 {
        0
    } else if s.first() == 10 {
        0
    } else {
        1 + first_nl(s.drop_first())
    }
}

pub proof fn lemma_first_nl(s: Seq<u8>)
    ensures
        0 <= first_nl(s) <= s.len(),
        forall|i: int| 0 <= i < first_nl(s) ==> s[i] != 10,
        first_nl(s) < s.len() ==> s[first_nl(s)] == 10,
    decreases s.len(),
{
    if s.len() > 0 && s.first() != 10 {
        lemma_first_nl(s.drop_first());
        assert(forall|i: int| 1 <= i < s.len() ==> s[i] == s.drop_first()[i - 1]);
    }
}

/// A line without its trailing carriage return, if it carried one.
pub open spec fn strip_cr(s: Seq<u8>) -> Seq<u8> {
    if s.len() > 0 && s.last() == 13 {
        s.drop_last()
    } else {
        s
    }
}

pub open spec fn all_digits(s: Seq<u8>) -> bool {
    forall|i: int| 0 <= i < s.len() ==> 48 <= #[trigger] s[i] <= 57
}

/// The value of a sequence of decimal digit bytes.
pub open spec fn digits_val(s: Seq<u8>) -> int
    decreases s.len(),
{
    if s.len() == 0 {
        0
    } else {
        digits_val(s.drop_last()) * 10 + (s.last() - 48)
    }
}

proof fn lemma_digits_val_nonneg(s: Seq<u8>)
    requires
        all_digits(s),
    ensures
        digits_val(s) >= 0,
    decreases s.len(),
{
    if s.len() > 0 {
        assert(all_digits(s.drop_last()));
        lemma_digits_val_nonneg(s.drop_last());
    }
}

/// How one printed line is read as a number: an optional trailing carriage
/// return is dropped; what remains must be one or more decimal digits whose
/// value fits in 32 bits.
pub open spec fn parse_u32_line(s: Seq<u8>) -> Option<u32> {
    let t = strip_cr(s);
    if t.len() > 0 && all_digits(t) && digits_val(t) <= u32::MAX {
        Some(digits_val(t) as u32)
    } else {
        None
    }
}

/// How the probe's output is read: the first line is the width, the second
/// the height; anything after the second line is ignored. Output without a
/// second line, or with a malformed line, is rejected.
pub open spec fn probe_parse(b: Seq<u8>) -> Option<(u32, u32)> {
    let i = first_nl(b);
    if i == b.len() {
        None
    } else {
        let rest = b.skip(i + 1);
        if rest.len() == 0 {
            None
        } else {
            let j = first_nl(rest);
            match (parse_u32_line(b.take(i)), parse_u32_line(rest.take(j))) {
                (Some(w), Some(h)) => Some((w, h)),
                _ => None,
            }
        }
    }
}

/// Finds the first newline at or after `from`.
fn findNl(b: &Vec<u8>, from: usize) -> (r: usize)
    requires
        from <= b@.len(),
    ensures
        from <= r <= b@.len(),
        r - from == first_nl(b@.skip(from as int)),
{
    let n = b.len();
    let mut i = from;
    while i < n
        invariant
            from <= i <= n,
            n == b@.len(),
            forall|k: int| from <= k < i ==> b@[k] != 10,
        decreases n - i,
    {
        if b[i] == 10 {
            proof {
                let s = b@.skip(from as int);
                lemma_first_nl(s);
                assert(forall|k: int| 0 <= k < s.len() ==> s[k] == b@[from + k]);
                assert(s[i - from] == 10);
                if first_nl(s) < i - from {
                    assert(b@[from + first_nl(s)] != 10);
                    assert(false);
                }
                if first_nl(s) > i - from {
                    assert(s[i - from] != 10);
                    assert(false);
                }
            }
            return i;
        }
        i = i + 1;
    }
    proof {
        let s = b@.skip(from as int);
        lemma_first_nl(s);
        assert(forall|k: int| 0 <= k < s.len() ==> s[k] == b@[from + k]);
        if first_nl(s) < s.len() {
            assert(s[first_nl(s)] == 10);
            assert(false);
        }
    }
    n
}

/// Reads the bytes in `[from, to)` as one printed number line.
fn parseU32Line(b: &Vec<u8>, from: usize, to: usize) -> (r: Option<u32>)
    requires
        from <= to <= b@.len(),
    ensures
        r == parse_u32_line(b@.subrange(from as int, to as int)),
{
    let ghost whole = b@.subrange(from as int, to as int);
    let mut end = to;
    if to > from {
        if b[to - 1] == 13 {
            end = to - 1;
        }
    }
    proof {
        if to > from && b@[to - 1] == 13 {
            assert(whole.last() == b@[to - 1]);
            assert(whole.drop_last() =~= b@.subrange(from as int, to as int - 1));
        }
        assert(b@.subrange(from as int, end as int) == strip_cr(whole));
    }
    let ghost t = strip_cr(whole);
    if end == from {
        proof {
            assert(t.len() == 0);
        }
        return None;
    }
    let mut acc: u64 = 0;
    let mut i = from;
    proof {
        assert(b@.subrange(from as int, from as int) =~= Seq::<u8>::empty());
    }
    while i < end
        invariant
            from <= i <= end <= b@.len(),
            whole == b@.subrange(from as int, to as int),
            t == strip_cr(whole),
            t == b@.subrange(from as int, end as int),
            all_digits(b@.subrange(from as int, i as int)),
            acc <= u32::MAX as u64 + 1,
            digits_val(b@.subrange(from as int, i as int)) <= u32::MAX ==> acc == digits_val(
                b@.subrange(from as int, i as int),
            ),
            digits_val(b@.subrange(from as int, i as int)) > u32::MAX ==> acc == u32::MAX as u64
                + 1,
        decreases end - i,
    {
        let c = b[i];
        if c < 48 || c > 57 {
            proof {
                assert(t[i - from] == b@[i as int]);
                assert(!all_digits(t));
            }
            return None;
        }
        let ghost prefix = b@.subrange(from as int, i as int);
        let ghost val0 = digits_val(prefix);
        proof {
            lemma_digits_val_nonneg(prefix);
        }
        acc = acc * 10 + ((c - 48) as u64);
        if acc > u32::MAX as u64 {
            acc = u32::MAX as u64 + 1;
        }
        proof {
            let prefix1 = b@.subrange(from as int, i as int + 1);
            assert(prefix1.drop_last() =~= prefix);
            assert(prefix1.last() == b@[i as int]);
            assert(digits_val(prefix1) == val0 * 10 + (c - 48));
            if val0 > u32::MAX {
                assert(val0 * 10 + (c - 48) > u32::MAX) by (nonlinear_arith)
                    requires
                        val0 > u32::MAX,
                        c >= 48,
                ;
            }
        }
        i = i + 1;
    }
    proof {
        assert(b@.subrange(from as int, end as int) == t);
    }
    if acc > u32::MAX as u64 {
        return None;
    }
    Some(acc as u32)
}

/// Reads the probe's printed output into image dimensions; output this
/// library cannot read is a distinct, malformed-output failure.
pub fn parseProbeOutput(b: &Vec<u8>) -> (r: Result<ImageMetadata, Error>)
    ensures
        probe_parse(b@) matches Some(p) ==> r matches Ok(m) && m.width == p.0 && m.height == p.1,
        probe_parse(b@) is None ==> r == Result::<ImageMetadata, Error>::Err(
            Error::ToolError(ToolFailure::BadOutput),
        ),
{
    let n = b.len();
    proof {
        assert(b@.skip(0) =~= b@);
    }
    let i = findNl(b, 0);
    if i == n {
        return Err(Error::ToolError(ToolFailure::BadOutput));
    }
    if i + 1 == n {
        proof {
            assert(b@.skip(i + 1).len() == 0);
        }
        return Err(Error::ToolError(ToolFailure::BadOutput));
    }
    let j = findNl(b, i + 1);
    proof {
        let rest = b@.skip(i + 1);
        assert(rest.take(first_nl(rest)) =~= b@.subrange(i + 1, first_nl(rest) + i + 1));
        assert(b@.take(i as int) =~= b@.subrange(0, i as int));
    }
    let w = match parseU32Line(b, 0, i) {
        Some(w) => w,
        None => {
            return Err(Error::ToolError(ToolFailure::BadOutput));
        },
    };
    let h = match parseU32Line(b, i + 1, j) {
        Some(h) => h,
        None => {
            return Err(Error::ToolError(ToolFailure::BadOutput));
        },
    };
    Ok(ImageMetadata { width: w, height: h })
}

impl ImageWithThumbnail {
    /// Consumes the final stage given what the probe of the stored file
    /// yielded. Readable output completes the pipeline; on any failure the
    /// stored file and its thumbnail must be removed — a post must never
    /// reference an asset whose dimensions are unknown. The second
    /// component names exactly the paths the caller must remove.
    pub fn probeMetadata(self, config: &Configuration, outcome: ProbeOutcome) -> (r: (
        Result<Image, Error>,
        Vec<String>,
    ))
        ensures
            outcome matches ProbeOutcome::Output(b) ==> (probe_parse(b@) matches Some(p) ==> ({
                &&& r.0 matches Ok(img) && img.path@ == self.path@ && img.width == p.0
                    && img.height == p.1
                &&& r.1@.len() == 0
            })),
            outcome matches ProbeOutcome::Output(b) ==> (probe_parse(b@) is None ==> ({
                &&& r.0 == Result::<Image, Error>::Err(Error::ToolError(ToolFailure::BadOutput))
                &&& r.1@.len() == 2
                &&& r.1@[0]@ == joined_path(config.image_dir@, self.path@)
                &&& r.1@[1]@ == self.thumbnail@
            })),
            outcome matches ProbeOutcome::Failed(f) ==> ({
                &&& r.0 == Result::<Image, Error>::Err(Error::ToolError(f))
                &&& r.1@.len() == 2
                &&& r.1@[0]@ == joined_path(config.image_dir@, self.path@)
                &&& r.1@[1]@ == self.thumbnail@
            }),
    {
        match outcome {
            ProbeOutcome::Output(bytes) => {
                match parseProbeOutput(&bytes) {
                    Ok(meta) => (
                        Ok(Image { path: self.path, width: meta.width, height: meta.height }),
                        Vec::new(),
                    ),
                    Err(e) => {
                        let stored = joinPath(config.image_dir.as_str(), self.path.as_str());
                        let mut gone: Vec<String> = Vec::new();
                        gone.push(stored);
                        gone.push(self.thumbnail);
                        (Err(e), gone)
                    },
                }
            },
            ProbeOutcome::Failed(f) => {
                let stored = joinPath(config.image_dir.as_str(), self.path.as_str());
                let mut gone: Vec<String> = Vec::new();
                gone.push(stored);
                gone.push(self.thumbnail);
                (Err(Error::ToolError(f)), gone)
            },
        }
    }
}


/// One side of a downscale, rounded to the nearest pixel (half up), and
/// clamped to at least one pixel.
pub open spec fn scaled_side(side: int, other: int, max: int) -> int {
    let v = (2 * side * max + other) / (2 * other);
    if v < 1 {
        1
    } else {
        v
    }
}

/// The dimensions the transcoder's downscale-only geometry yields: an image
/// within the limit keeps its size; a larger one is scaled, preserving the
/// aspect ratio, so that its larger side equals the limit.
pub open spec fn scaled_dimensions(w: int, h: int, m: int) -> (int, int) {
    if w <= m && h <= m {
        (w, h)
    } else if w >= h {
        (m, scaled_side(h, w, m))
    } else {
        (scaled_side(w, h, m), m)
    }
}

pub proof fn lemma_scaled_side_bounds(side: int, other: int, max: int)
    requires
        1 <= side,
        1 <= max,
        side <= other,
    ensures
        1 <= scaled_side(side, other, max) <= max,
        max <= other ==> scaled_side(side, other, max) <= side,
{
    let num = 2 * side * max + other;
    let den = 2 * other;
    let q = num / den;
    vstd::arithmetic::div_mod::lemma_fundamental_div_mod(num, den);
    let rem = num % den;
    assert(num == den * q + rem);
    assert(q <= max) by (nonlinear_arith)
        requires
            1 <= side <= other,
            1 <= max,
            num == 2 * side * max + other,
            den == 2 * other,
            num == den * q + rem,
            0 <= rem < den,
    ;
    if max <= other {
        assert(q <= side) by (nonlinear_arith)
            requires
                1 <= side <= other,
                1 <= max <= other,
                num == 2 * side * max + other,
                den == 2 * other,
                num == den * q + rem,
                0 <= rem < den,
        ;
    }
}

/// Computes what the downscale-only geometry of the transcoder produces
/// for a source of the given dimensions.
pub fn scaledDimensions(width: u32, height: u32, max: u32) -> (r: (u32, u32))
    requires
        width >= 1,
        height >= 1,
        max >= 1,
    ensures
        (r.0 as int, r.1 as int) == scaled_dimensions(width as int, height as int, max as int),
{
    if width <= max && height <= max {
        (width, height)
    } else if width >= height {
        proof {
            assert((height as int) * (max as int) < 0x10000000000000000) by (nonlinear_arith)
                requires
                    height <= 0xffffffffu32,
                    max <= 0xffffffffu32,
            ;
        }
        let hm = (height as u128) * (max as u128);
        let num = 2u128 * hm + (width as u128);
        let den = 2u128 * (width as u128);
        let q = num / den;
        proof {
            lemma_scaled_side_bounds(height as int, width as int, max as int);
            assert(2 * (height as int) * (max as int) == 2 * ((height as int) * (max as int)))
                by (nonlinear_arith);
            assert(q == (2 * (height as int) * (max as int) + width) / (2 * (width as int)));
            assert(q <= max);
        }
        let v: u32 = if q < 1 {
            1u32
        } else {
            q as u32
        };
        (max, v)
    } else {
        proof {
            assert((width as int) * (max as int) < 0x10000000000000000) by (nonlinear_arith)
                requires
                    width <= 0xffffffffu32,
                    max <= 0xffffffffu32,
            ;
        }
        let wm = (width as u128) * (max as u128);
        let num = 2u128 * wm + (height as u128);
        let den = 2u128 * (height as u128);
        let q = num / den;
        proof {
            lemma_scaled_side_bounds(width as int, height as int, max as int);
            assert(2 * (width as int) * (max as int) == 2 * ((width as int) * (max as int)))
                by (nonlinear_arith);
            assert(q == (2 * (width as int) * (max as int) + height) / (2 * (height as int)));
            assert(q <= max);
        }
        let v: u32 = if q < 1 {
            1u32
        } else {
            q as u32
        };
        (v, max)
    }
}

/// A source within the configured limit keeps its dimensions — it is never
/// upscaled; a larger source is scaled so that its larger side equals the
/// limit exactly, the other side rounded per the aspect ratio and never
/// grown.
pub proof fn lemma_downscale_only(w: int, h: int, m: int)
    requires
        1 <= w,
        1 <= h,
        1 <= m,
    ensures
        (w <= m && h <= m) ==> scaled_dimensions(w, h, m) == (w, h),
        (w > m || h > m) ==> ({
            let r = scaled_dimensions(w, h, m);
            &&& 1 <= r.0 <= m
            &&& 1 <= r.1 <= m
            &&& (if w >= h {
                r.0 == m && r.1 <= h
            } else {
                r.1 == m && r.0 <= w
            })
        }),
{
    if !(w <= m && h <= m) {
        if w >= h {
            lemma_scaled_side_bounds(h, w, m);
        } else {
            lemma_scaled_side_bounds(w, h, m);
        }
    }
}

/// The stored location of an upload depends on its byte content and the
/// configured encoding alone: uploading the same content twice yields the
/// same content-addressed asset path and thumbnail path both times.
pub proof fn lemma_content_addressed_path(
    bytes1: Seq<u8>,
    bytes2: Seq<u8>,
    dir: Seq<char>,
    enc: ImageEncoding,
)
    requires
        bytes1 == bytes2,
    ensures
        library_image_path(dir, content_hash_of(bytes1), enc) == library_image_path(
            dir,
            content_hash_of(bytes2),
            enc,
        ),
        library_thumb_path(dir, content_hash_of(bytes1), enc) == library_thumb_path(
            dir,
            content_hash_of(bytes2),
            enc,
        ),
{
}

} // verus!
