use vstd::prelude::*;

use crate::strutil::push_char;

verus! {

/// The site-relative URL of each named page; an unknown name falls back to
/// the index.
pub open spec fn url_for(name: Seq<char>, arg: Seq<char>) -> Seq<char> {
    if name == "index"@ {
        "/"@
    } else if name == "upload"@ {
        "/upload"@
    } else if name == "post"@ {
        "/p/"@ + arg
    } else if name == "feed"@ {
        "/feed.xml"@
    } else if name == "delete_confirm"@ {
        "/delete-confirm/"@ + arg
    } else if name == "delete"@ {
        "/delete/"@ + arg
    } else if name == "login"@ {
        "/login/"@
    } else if name == "static"@ {
        "/static/"@ + arg
    } else if name == "image_file"@ {
        "/image/"@ + arg
    } else {
        "/"@
    }
}

/// Builds the site-relative URL of a named page.
pub fn urlFor(name: &str, arg: &str) -> (r: String)
    ensures
        r@ == url_for(name@, arg@),
{
    let n = name.to_owned();
    if n == String::from_str("index") {
        String::from_str("/")
    } else if n == String::from_str("upload") {
        String::from_str("/upload")
    } else if n == String::from_str("post") {
        String::from_str("/p/").concat(arg)
    } else if n == String::from_str("feed") {
        String::from_str("/feed.xml")
    } else if n == String::from_str("delete_confirm") {
        String::from_str("/delete-confirm/").concat(arg)
    } else if n == String::from_str("delete") {
        String::from_str("/delete/").concat(arg)
    } else if n == String::from_str("login") {
        String::from_str("/login/")
    } else if n == String::from_str("static") {
        String::from_str("/static/").concat(arg)
    } else if n == String::from_str("image_file") {
        String::from_str("/image/").concat(arg)
    } else {
        String::from_str("/")
    }
}

/// The prefix that the serve path contributes to every URL: nothing for
/// the root, else the path with exactly one leading slash.
pub open spec fn path_prefix(serve_path: Seq<char>) -> Seq<char> {
    if serve_path.len() == 0 || serve_path == "/"@ {
        Seq::<char>::empty()
    } else if serve_path[0] == '/' {
        serve_path
    } else {
        seq!['/'] + serve_path
    }
}

/// Computes the URL prefix of the configured serve path.
pub fn pathPrefix(serve_path: &String) -> (r: String)
    ensures
        r@ == path_prefix(serve_path@),
{
    let n = serve_path.as_str().unicode_len();
    if n == 0 {
        return String::new();
    }
    proof {
        reveal_strlit("/");
    }
    let first = serve_path.as_str().get_char(0);
    if n == 1 && first == '/' {
        proof {
            assert(serve_path@ =~= "/"@);
        }
        return String::new();
    }
    if first == '/' {
        return serve_path.clone();
    }
    let mut s = String::new();
    push_char(&mut s, '/');
    let r = s.concat(serve_path.as_str());
    proof {
        assert(r@ =~= seq!['/'] + serve_path@);
    }
    r
}

} // verus!
