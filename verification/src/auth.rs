use vstd::prelude::*;

use crate::config::Configuration;
use crate::data::Manager;
use crate::error::Error;
use crate::strutil::{dec_str_of, u64ToString};

verus! {

/// The name of the cookie that carries the session token.
pub fn tokenCookieName() -> (r: &'static str)
    ensures
        r@ == "nspic-token"@,
{
    "nspic-token"
}

/// The result of encoding bytes in standard base64 without padding, named
/// but not spelled out: the trusted wrapper below is the only place that
/// speaks for it.
pub uninterp spec fn base64_nopad_of(bytes: Seq<u8>) -> Seq<char>;

/// Relies on base64's STANDARD_NO_PAD engine: the encoding depends on the
/// bytes alone, four characters for every three bytes, rounded up.
#[verifier::external_body]
fn base64EncodeNoPad(bytes: &Vec<u8>) -> (r: String)
    ensures
        r@ == base64_nopad_of(bytes@),
        r@.len() == (4 * bytes@.len() + 2) / 3,
{
    base64::engine::Engine::encode(
        &base64::engine::general_purpose::STANDARD_NO_PAD,
        bytes.as_slice(),
    )
}

/// The result of encoding a string's bytes in standard base64 with
/// padding, named but not spelled out: the trusted wrapper below is the
/// only place that speaks for it.
pub uninterp spec fn base64_std_of(s: Seq<char>) -> Seq<char>;

/// Relies on base64's STANDARD engine: the encoding depends on the
/// characters alone.
#[verifier::external_body]
fn base64EncodeStr(s: &String) -> (r: String)
    ensures
        r@ == base64_std_of(s@),
{
    base64::engine::Engine::encode(&base64::engine::general_purpose::STANDARD, s.as_bytes())
}

/// Relies on i128::to_ne_bytes: sixteen bytes, in the machine's own byte
/// order, so nothing is said of their values.
#[verifier::external_body]
fn i128NeBytes(x: i128) -> (r: Vec<u8>)
    ensures
        r@.len() == 16,
{
    x.to_ne_bytes().to_vec()
}

/// A fresh session token: sixteen random bytes (128 bits) in unpadded
/// base64, twenty-two characters.
pub fn createToken() -> (r: String)
    ensures
        r@.len() == 22,
        exists|b: Seq<u8>| b.len() == 16 && r@ == base64_nopad_of(b),
{
    let x = rand::random::<i128>();
    let bytes = i128NeBytes(x);
    let r = base64EncodeNoPad(&bytes);
    proof {
        assert(bytes@.len() == 16 && r@ == base64_nopad_of(bytes@));
    }
    r
}

/// The Set-Cookie value that hands a session token to the client, living
/// as long as the session itself.
pub open spec fn cookie_value(token: Seq<char>, session_life_time: u64) -> Seq<char> {
    "nspic-token="@ + token + "; Max-Age="@ + dec_str_of(session_life_time as int) + "; Path=/"@
}

/// Renders the session cookie.
pub fn makeCookie(token: String, session_life_time: u64) -> (r: String)
    ensures
        r@ == cookie_value(token@, session_life_time),
{
    let life = u64ToString(session_life_time);
    let r = String::from_str("nspic-token=").concat(token.as_str()).concat("; Max-Age=").concat(
        life.as_str(),
    ).concat("; Path=/");
    proof {
        assert(r@ =~= cookie_value(token@, session_life_time));
    }
    r
}

/// What a login attempt deserves, judged from its Authorization header.
#[derive(Debug, Clone, PartialEq, Eq)]
pub enum LoginCheck {
    /// No header at all: authentication must be requested.
    NoCredential,
    /// The header does not use basic authentication.
    NotBasic,
    /// The credential does not match the configured password.
    BadCredential,
    /// The credential matches.
    Authorized,
}

/// The Authorization header value that the configured password calls for.
pub open spec fn expected_basic_auth(password: Seq<char>) -> Seq<char> {
    "Basic "@ + base64_std_of("user:"@ + password)
}

/// Decides a login attempt: the header must use basic authentication and
/// carry the encoding of `user:` and the configured password, exactly.
pub fn checkLogin(auth_value_maybe: &Option<String>, password: &String) -> (r: LoginCheck)
    ensures
        auth_value_maybe is None <==> r is NoCredential,
        auth_value_maybe matches Some(v) ==> ({
            &&& (r is NotBasic <==> !(v@.len() >= 6 && v@.take(6) == "Basic "@))
            &&& (r is Authorized <==> v@.len() >= 6 && v@.take(6) == "Basic "@ && v@ == expected_basic_auth(password@))
            &&& (r is BadCredential <==> v@.len() >= 6 && v@.take(6) == "Basic "@ && v@ != expected_basic_auth(password@))
        }),
{
    match auth_value_maybe {
        None => LoginCheck::NoCredential,
        Some(v) => {
            let vs = v.as_str();
            let n = vs.unicode_len();
            if n < 6 {
                proof {
                    assert(!(v@.len() >= 6 && v@.take(6) == "Basic "@));
                }
                return LoginCheck::NotBasic;
            }
            let head = vs.substring_char(0, 6);
            if !(head.to_owned() == String::from_str("Basic ")) {
                proof {
                    assert(v@.subrange(0, 6) =~= v@.take(6));
                }
                return LoginCheck::NotBasic;
            }
            proof {
                assert(v@.subrange(0, 6) =~= v@.take(6));
            }
            let user_pass = String::from_str("user:").concat(password.as_str());
            let expected = base64EncodeStr(&user_pass);
            let tail = vs.substring_char(6, n).to_owned();
            if tail == expected {
                proof {
                    assert(v@ =~= v@.take(6) + v@.skip(6));
                    assert(v@ =~= expected_basic_auth(password@));
                }
                LoginCheck::Authorized
            } else {
                proof {
                    assert(v@.subrange(6, n as int) =~= v@.skip(6));
                    if v@ == expected_basic_auth(password@) {
                        assert(v@.skip(6) =~= base64_std_of("user:"@ + password@));
                    }
                }
                LoginCheck::BadCredential
            }
        },
    }
}

/// Expires stale sessions, then answers whether the token names a live
/// session. A missing token is no error: the caller is simply not
/// authorized. A token without a live session surfaces as an error from
/// the session lookup.
pub fn validateSession(token: &Option<String>, data_manager: &mut Manager, config: &Configuration) -> (r: Result<
    bool,
    Error,
>)
    requires
        old(data_manager).wf(),
    ensures
        final(data_manager).wf(),
        final(data_manager).connected() == old(data_manager).connected(),
        final(data_manager).posts() == old(data_manager).posts(),
        final(data_manager).images() == old(data_manager).images(),
        token is None ==> r == Result::<bool, Error>::Ok(false) && final(data_manager).sessions()
            == old(data_manager).sessions(),
        r matches Ok(b) ==> (b <==> token is Some),
        token matches Some(t) ==> (r is Ok ==> final(data_manager).sessions().dom().contains(t@)),
        token is Some ==> (r is Ok ==> exists|now: i64|
            final(data_manager).sessions() == #[trigger] Manager::sessions_expired(
                old(data_manager).sessions(),
                config.session_life_time_sec,
                now,
            )),
        token matches Some(t) ==> (r matches Err(e) ==> (e matches Error::NotFound(_)
            ==> !final(data_manager).sessions().dom().contains(t@))),
        r matches Err(e) ==> e matches Error::DataError(_) || e matches Error::NotFound(_),
{
    match token {
        Some(t) => {
            match data_manager.expireSessions(config.session_life_time_sec) {
                Ok(()) => {},
                Err(e) => {
                    return Err(e);
                },
            }
            match data_manager.hasSession(t.as_str()) {
                Ok(_) => Ok(true),
                Err(e) => Err(e),
            }
        },
        None => Ok(false),
    }
}

} // verus!
