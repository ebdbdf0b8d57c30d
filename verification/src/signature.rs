//! Request signing: the digest of the ordered request fields and the shared
//! API key, and the content checksum of a file.
//!
//! The digest itself is computed by the `md5` crate. Its value is not
//! described here; it appears in contracts under the name [`md5_digest`].

use vstd::prelude::*;
use vstd::utf8::encode_utf8;
use crate::text::{
    decimal, hex_lower, is_hex_digit, lemma_decimal_injective, lemma_hex_lower_digits,
    lemma_hex_lower_injective, push_decimal, to_hex_lower,
};

verus! {

/// The MD5 digest of a byte string, as `md5::compute` returns it.
pub uninterp spec fn md5_digest(data: Seq<u8>) -> Seq<u8>;

/// `md5::compute`: the sixteen bytes of the digest of `data`. The contract
/// gives the digest its name and claims nothing else about it; the length is
/// that of the array in `md5::Digest`.
#[verifier::external_body]
fn md5_compute(data: &[u8]) -> (digest: [u8; 16])
    ensures
        digest@ == md5_digest(data@),
{
    md5::compute(data).0
}

/// The reserved remark field: always empty, but part of what is signed.
pub open spec fn remark_text() -> Seq<char> {
    Seq::<char>::empty()
}

/// The text that is signed: the user id in decimal, the checksum, title,
/// artist, album, the reserved remark and the API key, in this order and with
/// nothing between them.
pub open spec fn signed_text(
    uid: u64,
    checksum: Seq<char>,
    title: Seq<char>,
    artist: Seq<char>,
    album: Seq<char>,
    api_key: Seq<char>,
) -> Seq<char> {
    decimal(uid as nat) + checksum + title + artist + album + remark_text() + api_key
}

/// The signature of a request: the digest of the UTF-8 bytes of the signed
/// text, in lowercase hexadecimal.
pub open spec fn signature(
    uid: u64,
    checksum: Seq<char>,
    title: Seq<char>,
    artist: Seq<char>,
    album: Seq<char>,
    api_key: Seq<char>,
) -> Seq<char> {
    hex_lower(md5_digest(encode_utf8(signed_text(uid, checksum, title, artist, album, api_key))))
}

/// The checksum of a file's content: its digest in lowercase hexadecimal.
pub open spec fn content_checksum(file: Seq<u8>) -> Seq<char> {
    hex_lower(md5_digest(file))
}

/// The reserved remark field as sent and signed.
pub fn remark() -> (r: &'static str)
    ensures
        r@ == remark_text(),
{
    proof {
        reveal_strlit("");
    }
    let r: &'static str = "";
    assert(r@ =~= remark_text());
    r
}

/// Builds the text that is signed.
pub fn signed_message(
    uid: u64,
    checksum: &str,
    title: &str,
    artist: &str,
    album: &str,
    api_key: &str,
) -> (text: String)
    ensures
        text@ == signed_text(uid, checksum@, title@, artist@, album@, api_key@),
{
    let mut text = String::new();
    push_decimal(&mut text, uid);
    text.append(checksum);
    text.append(title);
    text.append(artist);
    text.append(album);
    text.append(remark());
    text.append(api_key);
    assert(text@ =~= signed_text(uid, checksum@, title@, artist@, album@, api_key@));
    text
}

/// The lowercase hexadecimal digest of `data`: thirty-two hexadecimal digits.
pub fn digest_hex(data: &[u8]) -> (hex: String)
    ensures
        hex@ == hex_lower(md5_digest(data@)),
        hex@.len() == 32,
        forall|i: int| 0 <= i < hex@.len() ==> is_hex_digit(#[trigger] hex@[i]),
{
    let digest: [u8; 16] = md5_compute(data);
    let hex = to_hex_lower(&digest);
    proof {
        lemma_hex_lower_digits(digest@);
    }
    hex
}

/// Signs a request. The result depends on the six arguments alone, so equal
/// arguments always give the same signature.
pub fn sign(
    uid: u64,
    checksum: &str,
    title: &str,
    artist: &str,
    album: &str,
    api_key: &str,
) -> (sig: String)
    ensures
        sig@ == signature(uid, checksum@, title@, artist@, album@, api_key@),
        sig@.len() == 32,
        forall|i: int| 0 <= i < sig@.len() ==> is_hex_digit(#[trigger] sig@[i]),
{
    let text = signed_message(uid, checksum, title, artist, album, api_key);
    digest_hex(text.as_str().as_bytes())
}

/// The checksum of a file's content, which names the file both in the
/// duplicate check and in the upload.
pub fn checksum(file: &[u8]) -> (sum: String)
    ensures
        sum@ == content_checksum(file@),
        sum@.len() == 32,
        forall|i: int| 0 <= i < sum@.len() ==> is_hex_digit(#[trigger] sum@[i]),
{
    digest_hex(file)
}

/// One when the two values differ, zero when they are equal.
pub open spec fn differs<T>(a: T, b: T) -> int {
    if a == b {
        0
    } else {
        1
    }
}

/// A text between the same two texts: the whole is equal only if the middle
/// is.
pub proof fn lemma_middle_cancels<T>(before: Seq<T>, x: Seq<T>, y: Seq<T>, after: Seq<T>)
    requires
        before + x + after == before + y + after,
    ensures
        x == y,
{
    let l = before + x + after;
    let r = before + y + after;
    assert(l.len() == r.len());
    assert(x.len() == y.len());
    assert forall|i: int| 0 <= i < x.len() implies x[i] == y[i] by {
        assert(l[before.len() + i] == x[i]);
        assert(r[before.len() + i] == y[i]);
    }
    assert(x =~= y);
}

/// Changing exactly one of the six signed fields changes the signed text and
/// its UTF-8 bytes. The signature then changes unless the two byte strings
/// have the same digest.
pub proof fn lemma_single_field_changes_signed_text(
    uid1: u64,
    checksum1: Seq<char>,
    title1: Seq<char>,
    artist1: Seq<char>,
    album1: Seq<char>,
    api_key1: Seq<char>,
    uid2: u64,
    checksum2: Seq<char>,
    title2: Seq<char>,
    artist2: Seq<char>,
    album2: Seq<char>,
    api_key2: Seq<char>,
)
    requires
        differs(uid1, uid2) + differs(checksum1, checksum2) + differs(title1, title2) + differs(
            artist1,
            artist2,
        ) + differs(album1, album2) + differs(api_key1, api_key2) == 1,
    ensures
        signed_text(uid1, checksum1, title1, artist1, album1, api_key1) != signed_text(
            uid2,
            checksum2,
            title2,
            artist2,
            album2,
            api_key2,
        ),
        encode_utf8(signed_text(uid1, checksum1, title1, artist1, album1, api_key1))
            != encode_utf8(signed_text(uid2, checksum2, title2, artist2, album2, api_key2)),
{
    let t1 = signed_text(uid1, checksum1, title1, artist1, album1, api_key1);
    let t2 = signed_text(uid2, checksum2, title2, artist2, album2, api_key2);
    let d1 = decimal(uid1 as nat);
    let d2 = decimal(uid2 as nat);
    let none = Seq::<char>::empty();
    if t1 == t2 {
        if uid1 != uid2 {
            let after = checksum1 + title1 + artist1 + album1 + remark_text() + api_key1;
            assert(t1 =~= none + d1 + after);
            assert(t2 =~= none + d2 + after);
            lemma_middle_cancels(none, d1, d2, after);
            lemma_decimal_injective(uid1 as nat, uid2 as nat);
        } else if checksum1 != checksum2 {
            let after = title1 + artist1 + album1 + remark_text() + api_key1;
            assert(t1 =~= d1 + checksum1 + after);
            assert(t2 =~= d1 + checksum2 + after);
            lemma_middle_cancels(d1, checksum1, checksum2, after);
        } else if title1 != title2 {
            let before = d1 + checksum1;
            let after = artist1 + album1 + remark_text() + api_key1;
            assert(t1 =~= before + title1 + after);
            assert(t2 =~= before + title2 + after);
            lemma_middle_cancels(before, title1, title2, after);
        } else if artist1 != artist2 {
            let before = d1 + checksum1 + title1;
            let after = album1 + remark_text() + api_key1;
            assert(t1 =~= before + artist1 + after);
            assert(t2 =~= before + artist2 + after);
            lemma_middle_cancels(before, artist1, artist2, after);
        } else if album1 != album2 {
            let before = d1 + checksum1 + title1 + artist1;
            let after = remark_text() + api_key1;
            assert(t1 =~= before + album1 + after);
            assert(t2 =~= before + album2 + after);
            lemma_middle_cancels(before, album1, album2, after);
        } else {
            let before = d1 + checksum1 + title1 + artist1 + album1 + remark_text();
            assert(t1 =~= before + api_key1 + none);
            assert(t2 =~= before + api_key2 + none);
            lemma_middle_cancels(before, api_key1, api_key2, none);
        }
    }
    assert(t1 != t2);
    vstd::utf8::encode_utf8_decode_utf8(t1);
    vstd::utf8::encode_utf8_decode_utf8(t2);
}

/// Two signatures are equal exactly when the digests of the two signed byte
/// strings are: the hexadecimal rendering loses nothing.
pub proof fn lemma_signature_equal_iff_digest_equal(
    uid1: u64,
    checksum1: Seq<char>,
    title1: Seq<char>,
    artist1: Seq<char>,
    album1: Seq<char>,
    api_key1: Seq<char>,
    uid2: u64,
    checksum2: Seq<char>,
    title2: Seq<char>,
    artist2: Seq<char>,
    album2: Seq<char>,
    api_key2: Seq<char>,
)
    ensures
        signature(uid1, checksum1, title1, artist1, album1, api_key1) == signature(
            uid2,
            checksum2,
            title2,
            artist2,
            album2,
            api_key2,
        ) <==> md5_digest(
            encode_utf8(signed_text(uid1, checksum1, title1, artist1, album1, api_key1)),
        ) == md5_digest(
            encode_utf8(signed_text(uid2, checksum2, title2, artist2, album2, api_key2)),
        ),
{
    let b1 = md5_digest(
        encode_utf8(signed_text(uid1, checksum1, title1, artist1, album1, api_key1)),
    );
    let b2 = md5_digest(
        encode_utf8(signed_text(uid2, checksum2, title2, artist2, album2, api_key2)),
    );
    if hex_lower(b1) == hex_lower(b2) {
        lemma_hex_lower_injective(b1, b2);
    }
}

} // verus!
