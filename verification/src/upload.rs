//! The two requests of a submission, as far as they are computed: the signed
//! duplicate-check request, and the multipart upload with the reading of its
//! answer. Sending them is left to the caller.

use vstd::prelude::*;
use crate::constants::HTTP_OK;
use vstd::utf8::encode_utf8;
use crate::signature::{md5_digest, remark, remark_text, sign, signature};
use crate::text::{decimal, hex_lower, to_decimal};
use crate::types::{MusicCategory, MusicType, SubmittedMusicMetadata, SubmittedMusicMetadataView};

verus! {

/// A duplicate-check request: its ten fields, each as the text that is sent.
///
/// A request is made by [`check_dupe_request`] and cannot be changed
/// afterwards, so its signature always belongs to its other fields.
#[derive(Clone, Debug, PartialEq, Eq)]
pub struct DupeCheckRequestBody {
    uid: String,
    filemd5: String,
    title: String,
    singer: String,
    album: String,
    remark: String,
    force: String,
    type1: String,
    type2: String,
    sign: String,
}

/// Mathematical form of [`DupeCheckRequestBody`].
pub struct DupeCheckRequestBodyView {
    pub uid: Seq<char>,
    pub filemd5: Seq<char>,
    pub title: Seq<char>,
    pub singer: Seq<char>,
    pub album: Seq<char>,
    pub remark: Seq<char>,
    /// `0`, or `1` for a forced submission.
    pub force: Seq<char>,
    pub type1: Seq<char>,
    pub type2: Seq<char>,
    pub sign: Seq<char>,
}

impl View for DupeCheckRequestBody {
    type V = DupeCheckRequestBodyView;

    closed spec fn view(&self) -> DupeCheckRequestBodyView {
        DupeCheckRequestBodyView {
            uid: self.uid@,
            filemd5: self.filemd5@,
            title: self.title@,
            singer: self.singer@,
            album: self.album@,
            remark: self.remark@,
            force: self.force@,
            type1: self.type1@,
            type2: self.type2@,
            sign: self.sign@,
        }
    }
}

impl DupeCheckRequestBodyView {
    /// Whether the signature is the one that `api_key` gives to the other
    /// fields as they are sent: the digest, in lowercase hexadecimal, of user
    /// id, checksum, title, singer, album, remark and key, one after the
    /// other.
    pub open spec fn is_signed_by(self, api_key: Seq<char>) -> bool {
        self.sign == hex_lower(
            md5_digest(
                encode_utf8(
                    self.uid + self.filemd5 + self.title + self.singer + self.album + self.remark
                        + api_key,
                ),
            ),
        )
    }
}

/// The text of the `force` field: `1` for a forced submission, else `0`.
pub open spec fn force_text(forced: bool) -> Seq<char> {
    if forced {
        seq!['1']
    } else {
        seq!['0']
    }
}

/// The duplicate-check request for a submission: every field as text, the
/// two halves of the classification by their wire integers, and the signature
/// over user id, checksum, title, artist, album and API key. Whether the
/// request is forced shows in `force` only.
pub open spec fn dupe_check_request(
    uid: u64,
    api_key: Seq<char>,
    meta: SubmittedMusicMetadataView,
    music_category: MusicCategory,
    music_type: MusicType,
    file_md5: Seq<char>,
    forced: bool,
) -> DupeCheckRequestBodyView {
    DupeCheckRequestBodyView {
        uid: decimal(uid as nat),
        filemd5: file_md5,
        title: meta.title,
        singer: meta.artist,
        album: meta.album,
        remark: remark_text(),
        force: force_text(forced),
        type1: decimal(music_category.code_spec() as nat),
        type2: decimal(music_type.code_spec() as nat),
        sign: signature(uid, file_md5, meta.title, meta.artist, meta.album, api_key),
    }
}

/// The fields of a request under their names on the wire, in the order in
/// which they are handed to the transport.
pub open spec fn form_fields(body: DupeCheckRequestBodyView) -> Seq<(Seq<char>, Seq<char>)> {
    seq![
        ("uid"@, body.uid),
        ("filemd5"@, body.filemd5),
        ("title"@, body.title),
        ("singer"@, body.singer),
        ("album"@, body.album),
        ("remark"@, body.remark),
        ("type1"@, body.type1),
        ("type2"@, body.type2),
        ("sign"@, body.sign),
        ("force"@, body.force),
    ]
}

/// Builds the duplicate-check request of a submission.
pub fn check_dupe_request(
    uid: u64,
    api_key: &str,
    meta: &SubmittedMusicMetadata,
    music_category: MusicCategory,
    music_type: MusicType,
    file_md5: &str,
    forced: bool,
) -> (body: DupeCheckRequestBody)
    ensures
        body@ == dupe_check_request(
            uid,
            api_key@,
            meta@,
            music_category,
            music_type,
            file_md5@,
            forced,
        ),
        body@.is_signed_by(api_key@),
{
    let sig = sign(
        uid,
        file_md5,
        meta.title.as_str(),
        meta.artist.as_str(),
        meta.album.as_str(),
        api_key,
    );
    proof {
        reveal_strlit("1");
        reveal_strlit("0");
    }
    let force = if forced {
        String::from_str("1")
    } else {
        String::from_str("0")
    };
    assert(force@ =~= force_text(forced));
    DupeCheckRequestBody {
        uid: to_decimal(uid),
        filemd5: String::from_str(file_md5),
        title: meta.title.clone(),
        singer: meta.artist.clone(),
        album: meta.album.clone(),
        remark: String::from_str(remark()),
        force,
        type1: to_decimal(music_category.code() as u64),
        type2: to_decimal(music_type.code() as u64),
        sign: sig,
    }
}

impl DupeCheckRequestBody {
    /// The ten fields of the request as pairs of name and value.
    pub fn form(&self) -> (fields: Vec<(String, String)>)
        ensures
            fields@.len() == 10,
            fields.deep_view() == form_fields(self@),
    {
        let mut fields: Vec<(String, String)> = Vec::new();
        fields.push((String::from_str("uid"), self.uid.clone()));
        fields.push((String::from_str("filemd5"), self.filemd5.clone()));
        fields.push((String::from_str("title"), self.title.clone()));
        fields.push((String::from_str("singer"), self.singer.clone()));
        fields.push((String::from_str("album"), self.album.clone()));
        fields.push((String::from_str("remark"), self.remark.clone()));
        fields.push((String::from_str("type1"), self.type1.clone()));
        fields.push((String::from_str("type2"), self.type2.clone()));
        fields.push((String::from_str("sign"), self.sign.clone()));
        fields.push((String::from_str("force"), self.force.clone()));
        assert(fields.deep_view() =~= form_fields(self@));
        fields
    }
}

/// Every field has a name of its own: no name occurs twice in a request.
pub proof fn lemma_form_names_differ(body: DupeCheckRequestBodyView, i: int, j: int)
    requires
        0 <= i < j < form_fields(body).len(),
    ensures
        form_fields(body).len() == 10,
        form_fields(body)[i].0 != form_fields(body)[j].0,
{
    reveal_strlit("uid");
    reveal_strlit("filemd5");
    reveal_strlit("title");
    reveal_strlit("singer");
    reveal_strlit("album");
    reveal_strlit("remark");
    reveal_strlit("type1");
    reveal_strlit("type2");
    reveal_strlit("sign");
    reveal_strlit("force");
    let names = form_fields(body);
    assert(names[0].0.len() == 3);
    assert(names[1].0.len() == 7);
    assert(names[2].0[0] == 't' && names[2].0[1] == 'i');
    assert(names[3].0.len() == 6 && names[3].0[0] == 's');
    assert(names[4].0[0] == 'a');
    assert(names[5].0.len() == 6 && names[5].0[0] == 'r');
    assert(names[6].0[0] == 't' && names[6].0[1] == 'y' && names[6].0[4] == '1');
    assert(names[7].0[0] == 't' && names[7].0[1] == 'y' && names[7].0[4] == '2');
    assert(names[8].0.len() == 4);
    assert(names[9].0[0] == 'f');
}

/// The signature does not depend on whether a request is forced: the first
/// request of a submission and its forced repetition carry the same
/// signature, and differ in the `force` field alone.
pub proof fn lemma_forced_retry_keeps_signature(
    uid: u64,
    api_key: Seq<char>,
    meta: SubmittedMusicMetadataView,
    music_category: MusicCategory,
    music_type: MusicType,
    file_md5: Seq<char>,
)
    ensures
        dupe_check_request(uid, api_key, meta, music_category, music_type, file_md5, true).sign
            == dupe_check_request(
            uid,
            api_key,
            meta,
            music_category,
            music_type,
            file_md5,
            false,
        ).sign,
        dupe_check_request(uid, api_key, meta, music_category, music_type, file_md5, true)
            == (DupeCheckRequestBodyView {
            force: force_text(true),
            ..dupe_check_request(uid, api_key, meta, music_category, music_type, file_md5, false)
        }),
        force_text(true) != force_text(false),
{
    assert(force_text(true)[0] != force_text(false)[0]);
}

/// The parts of the multipart upload.
#[derive(Clone, Debug, PartialEq, Eq)]
pub struct UploadForm {
    /// The object key: the checksum of the file.
    pub key: String,
    /// The checksum again, against which the storage verifies the content.
    pub x_md5: String,
    /// The token that authorises the upload.
    pub token: String,
    /// The content of the file.
    pub file: Vec<u8>,
}

/// Mathematical form of [`UploadForm`].
pub struct UploadFormView {
    pub key: Seq<char>,
    pub x_md5: Seq<char>,
    pub token: Seq<char>,
    pub file: Seq<u8>,
}

impl View for UploadForm {
    type V = UploadFormView;

    open spec fn view(&self) -> UploadFormView {
        UploadFormView { key: self.key@, x_md5: self.x_md5@, token: self.token@, file: self.file@ }
    }
}

/// The three text parts of an upload under their names, in order.
pub open spec fn upload_text_parts(form: UploadFormView) -> Seq<(Seq<char>, Seq<char>)> {
    seq![("key"@, form.key), ("x:md5"@, form.x_md5), ("token"@, form.token)]
}

/// The name of the part that carries the content of the file.
pub open spec fn file_part_name_text() -> Seq<char> {
    "file"@
}

/// Assembles the upload of a file: the checksum is both the object key and
/// the integrity field, and token and content are passed on as they are.
pub fn upload_form(token: &str, md5: &str, file: Vec<u8>) -> (form: UploadForm)
    ensures
        form@ == (UploadFormView { key: md5@, x_md5: md5@, token: token@, file: file@ }),
{
    UploadForm {
        key: String::from_str(md5),
        x_md5: String::from_str(md5),
        token: String::from_str(token),
        file,
    }
}

impl UploadForm {
    /// The text parts as pairs of name and value.
    pub fn text_parts(&self) -> (parts: Vec<(String, String)>)
        ensures
            parts@.len() == 3,
            parts.deep_view() == upload_text_parts(self@),
    {
        let mut parts: Vec<(String, String)> = Vec::new();
        parts.push((String::from_str("key"), self.key.clone()));
        parts.push((String::from_str("x:md5"), self.x_md5.clone()));
        parts.push((String::from_str("token"), self.token.clone()));
        assert(parts.deep_view() =~= upload_text_parts(self@));
        parts
    }

    /// The name of the binary part.
    pub fn file_part_name() -> (name: &'static str)
        ensures
            name@ == file_part_name_text(),
    {
        "file"
    }
}

/// An upload that the storage did not accept, with the text of its answer.
#[derive(Clone, Debug, PartialEq, Eq)]
pub struct UploadError {
    pub body: String,
}

/// Reads the answer to an upload: status 200 and nothing else is success;
/// any other status is an error that carries the body of the answer
/// unchanged.
pub fn upload_result(status: u16, body: String) -> (r: Result<(), UploadError>)
    ensures
        r is Ok <==> status == HTTP_OK,
        r matches Err(e) ==> e.body@ == body@,
{
    if status == HTTP_OK {
        Ok(())
    } else {
        Err(UploadError { body })
    }
}

} // verus!
