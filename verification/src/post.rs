use vstd::prelude::*;

use crate::error::Error;
use crate::paths::{after_last, afterLast, lemma_after_last_bounds};
use crate::strutil::push_char;

verus! {

/// A stored asset: a content-addressed path below the image root, and the
/// pixel dimensions read back from the stored file.
#[derive(Debug, Clone)]
pub struct Image {
    pub path: String,
    pub width: u32,
    pub height: u32,
}

/// The thumbnail path that belongs to an image path: the file stem gains a
/// `_t` suffix while directory and extension stay as they are.
pub open spec fn thumb_path_of(p: Seq<char>) -> Seq<char> {
    let k = after_last(p, '/');
    let f = p.skip(k);
    let d = after_last(f, '.');
    if d <= 1 {
        p + seq!['_', 't']
    } else {
        p.take(k + d - 1) + seq!['_', 't', '.'] + f.skip(d)
    }
}

/// Whether a path names a file at all: its last component is neither
/// empty nor the current or parent directory.
pub open spec fn has_file_name(p: Seq<char>) -> bool {
    let f = p.skip(after_last(p, '/'));
    &&& f.len() > 0
    &&& f != seq!['.']
    &&& f != seq!['.', '.']
}

impl Image {
    /// The path of this image's thumbnail, derived from its own path.
    /// Fails when the path has no file name: when it is empty, ends in a
    /// separator, or names only the current or parent directory.
    pub fn thumbnail(&self) -> (r: Result<String, Error>)
        ensures
            r matches Ok(t) ==> {
                &&& has_file_name(self.path@)
                &&& t@ == thumb_path_of(self.path@)
            },
            r is Err <==> !has_file_name(self.path@),
    {
        let p = self.path.as_str();
        let n = p.unicode_len();
        let k = afterLast(p, '/');
        proof {
            lemma_after_last_bounds(p@, '/');
        }
        if k == n {
            return Err(Error::RuntimeError(String::from_str("Invalid image path")));
        }
        if n - k == 1 && p.get_char(k) == '.' {
            proof {
                assert(p@.skip(k as int) =~= seq!['.']);
            }
            return Err(Error::RuntimeError(String::from_str("Invalid image path")));
        }
        if n - k == 2 && p.get_char(k) == '.' && p.get_char(k + 1) == '.' {
            proof {
                assert(p@.skip(k as int) =~= seq!['.', '.']);
            }
            return Err(Error::RuntimeError(String::from_str("Invalid image path")));
        }
        proof {
            let f0 = p@.skip(k as int);
            assert(f0.len() == n - k);
            if f0 == seq!['.'] {
                assert(f0[0] == p@[k as int]);
                assert(false);
            }
            if f0 == seq!['.', '.'] {
                assert(f0[0] == p@[k as int] && f0[1] == p@[k as int + 1]);
                assert(false);
            }
        }
        let f = p.substring_char(k, n);
        let fn_len = n - k;
        let d = afterLast(f, '.');
        proof {
            lemma_after_last_bounds(f@, '.');
        }
        if d <= 1 {
            let mut s = p.to_owned();
            push_char(&mut s, '_');
            push_char(&mut s, 't');
            proof {
                assert(s@ =~= self.path@ + seq!['_', 't']);
            }
            Ok(s)
        } else {
            let mut s = p.substring_char(0, k + d - 1).to_owned();
            push_char(&mut s, '_');
            push_char(&mut s, 't');
            push_char(&mut s, '.');
            let ext = f.substring_char(d, fn_len);
            let r = s.concat(ext);
            proof {
                assert(p@.subrange(0, k + d - 1) =~= p@.take(k as int + d - 1));
                assert(r@ =~= p@.take(k as int + d - 1) + seq!['_', 't', '.'] + f@.skip(
                    d as int,
                ));
            }
            Ok(r)
        }
    }
}

/// A post: a store-assigned id, a description, the upload time as a unix
/// timestamp, the images in display order, and an optional album reference.
#[derive(Debug, Clone)]
pub struct Post {
    pub id: i64,
    pub images: Vec<Image>,
    pub desc: String,
    pub upload_time: i64,
    pub album_id: Option<i64>,
}

impl Post {
    /// An empty post at the epoch.
    pub fn new() -> (r: Self)
        ensures
            r.id == 0,
            r.images@.len() == 0,
            r.desc@ == Seq::<char>::empty(),
            r.upload_time == 0,
            r.album_id is None,
    {
        Self {
            id: 0,
            images: Vec::new(),
            desc: String::new(),
            upload_time: 0,
            album_id: None,
        }
    }
}

} // verus!
