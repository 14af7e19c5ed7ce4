use vstd::prelude::*;

use crate::strutil::push_char;

verus! {

/// The SHA-256 digest of a byte sequence, named but not spelled out: the
/// trusted wrapper below is the only place that speaks for it.
pub uninterp spec fn sha256_of(bytes: Seq<u8>) -> Seq<u8>;

/// Relies on sha2::Sha256::digest: the 32-byte digest is a function of the
/// input bytes alone.
#[verifier::external_body]
fn sha256Digest(bytes: &Vec<u8>) -> (r: Vec<u8>)
    ensures
        r@ == sha256_of(bytes@),
        r@.len() == 32,
{
    <sha2::Sha256 as sha2::Digest>::digest(bytes.as_slice()).to_vec()
}

/// The lowercase hexadecimal digit for a value below sixteen.
pub open spec fn hex_digit(d: int) -> char {
    if d == 0 {
        '0'
    } else if d == 1 {
        '1'
    } else if d == 2 {
        '2'
    } else if d == 3 {
        '3'
    } else if d == 4 {
        '4'
    } else if d == 5 {
        '5'
    } else if d == 6 {
        '6'
    } else if d == 7 {
        '7'
    } else if d == 8 {
        '8'
    } else if d == 9 {
        '9'
    } else if d == 10 {
        'a'
    } else if d == 11 {
        'b'
    } else if d == 12 {
        'c'
    } else if d == 13 {
        'd'
    } else if d == 14 {
        'e'
    } else {
        'f'
    }
}

/// Lowercase hex encoding: two digits for each byte, in order.
pub open spec fn hex_of(bytes: Seq<u8>) -> Seq<char>
    decreases bytes.len(),
{
    if bytes.len() == 0 {
        Seq::<char>::empty()
    } else {
        hex_of(bytes.drop_last()) + seq![
            hex_digit(bytes.last() as int / 16),
            hex_digit(bytes.last() as int % 16),
        ]
    }
}

pub proof fn lemma_hex_of_len(bytes: Seq<u8>)
    ensures
        hex_of(bytes).len() == 2 * bytes.len(),
    decreases bytes.len(),
{
    if bytes.len() > 0 {
        lemma_hex_of_len(bytes.drop_last());
    }
}

fn hexDigitChar(d: u8) -> (c: char)
    requires
        d < 16,
    ensures
        c == hex_digit(d as int),
{
    match d {
        0 => '0',
        1 => '1',
        2 => '2',
        3 => '3',
        4 => '4',
        5 => '5',
        6 => '6',
        7 => '7',
        8 => '8',
        9 => '9',
        10 => 'a',
        11 => 'b',
        12 => 'c',
        13 => 'd',
        14 => 'e',
        _ => 'f',
    }
}

/// The content hash under which an upload is addressed: the lowercase hex
/// encoding of the first half of its SHA-256 digest. A full hex-encoded
/// 256-bit digest would be 64 characters, which makes for long paths, so
/// only the first sixteen bytes are kept.
pub open spec fn content_hash_of(bytes: Seq<u8>) -> Seq<char> {
    hex_of(sha256_of(bytes).take(16))
}

/// Computes the content hash of uploaded bytes.
pub fn contentHash(data: &Vec<u8>) -> (r: String)
    ensures
        r@ == content_hash_of(data@),
        r@.len() == 32,
{
    let digest = sha256Digest(data);
    let mut s = String::new();
    let mut i: usize = 0;
    proof {
        assert(digest@.take(0) =~= Seq::<u8>::empty());
    }
    while i < 16
        invariant
            digest@ == sha256_of(data@),
            digest@.len() == 32,
            i <= 16,
            s@ == hex_of(digest@.take(i as int)),
        decreases 16 - i,
    {
        let b = digest[i];
        let hi = hexDigitChar(b / 16);
        let lo = hexDigitChar(b % 16);
        push_char(&mut s, hi);
        push_char(&mut s, lo);
        proof {
            assert(digest@.take(i + 1).drop_last() =~= digest@.take(i as int));
            assert(digest@.take(i + 1).last() == digest@[i as int]);
            assert(s@ =~= hex_of(digest@.take(i + 1)));
        }
        i = i + 1;
    }
    proof {
        lemma_hex_of_len(digest@.take(16));
    }
    s
}

} // verus!
