//! The data that travels through a submission.

use vstd::prelude::*;
use crate::text::{all_white_space, is_trim_of, lemma_trim_unique, trim};

verus! {

/// Reason for which the duplicate check refused a submission.
#[derive(Copy, Clone, Debug, PartialEq, Eq, Structural)]
pub enum DupeCheckError {
    BadSignature,
    PotentialDupe,
    QueueIsFull,
    BadParameters,
    Md5Dupe,
    DatabaseError,
    UploadDisabled,
    CategoryError,
}

impl DupeCheckError {
    /// The integer that stands for this reason on the wire.
    pub open spec fn code_spec(self) -> u8 {
        match self {
            DupeCheckError::BadSignature => 1,
            DupeCheckError::PotentialDupe => 2,
            DupeCheckError::QueueIsFull => 3,
            DupeCheckError::BadParameters => 4,
            DupeCheckError::Md5Dupe => 5,
            DupeCheckError::DatabaseError => 6,
            DupeCheckError::UploadDisabled => 7,
            DupeCheckError::CategoryError => 8,
        }
    }

    /// A reason is terminal when no confirmation can override it: every
    /// reason but `PotentialDupe`.
    pub open spec fn is_terminal_spec(self) -> bool {
        self != DupeCheckError::PotentialDupe
    }

    /// The wire integer.
    pub fn code(self) -> (c: u8)
        ensures
            c == self.code_spec(),
            1 <= c <= 8,
    {
        match self {
            DupeCheckError::BadSignature => 1,
            DupeCheckError::PotentialDupe => 2,
            DupeCheckError::QueueIsFull => 3,
            DupeCheckError::BadParameters => 4,
            DupeCheckError::Md5Dupe => 5,
            DupeCheckError::DatabaseError => 6,
            DupeCheckError::UploadDisabled => 7,
            DupeCheckError::CategoryError => 8,
        }
    }

    /// Reads a wire integer back; `None` for an integer that stands for no
    /// reason.
    pub fn from_code(code: u8) -> (r: Option<DupeCheckError>)
        ensures
            r is Some <==> 1 <= code <= 8,
            r matches Some(e) ==> e.code_spec() == code,
    {
        match code {
            1 => Some(DupeCheckError::BadSignature),
            2 => Some(DupeCheckError::PotentialDupe),
            3 => Some(DupeCheckError::QueueIsFull),
            4 => Some(DupeCheckError::BadParameters),
            5 => Some(DupeCheckError::Md5Dupe),
            6 => Some(DupeCheckError::DatabaseError),
            7 => Some(DupeCheckError::UploadDisabled),
            8 => Some(DupeCheckError::CategoryError),
            _ => None,
        }
    }

    /// Whether no confirmation can override the reason.
    pub fn is_terminal(self) -> (t: bool)
        ensures
            t == self.is_terminal_spec(),
    {
        !(self == DupeCheckError::PotentialDupe)
    }
}

impl DupeCheckError {
    /// The message shown to the operator for this reason.
    pub open spec fn text_spec(self) -> Seq<char> {
        match self {
            DupeCheckError::BadSignature => "签名错误。请检查 UID 及 API token。"@,
            DupeCheckError::PotentialDupe => "疑似撞车。请确认以下是否有撞车项。"@,
            DupeCheckError::QueueIsFull => "待审队列超过 100 首。请删除未通过文件后重试。"@,
            DupeCheckError::BadParameters => "参数不齐。歌曲名不能为空。"@,
            DupeCheckError::Md5Dupe => "存在 MD5 重复的文件。"@,
            DupeCheckError::DatabaseError => "数据库错误。"@,
            DupeCheckError::UploadDisabled => "站点暂时关闭上传。"@,
            DupeCheckError::CategoryError => "分类/类型错误。"@,
        }
    }

    /// The text shown to the operator.
    pub fn to_string(&self) -> (s: String)
        ensures
            s@ == self.text_spec(),
    {
        match self {
            DupeCheckError::BadSignature => String::from_str("签名错误。请检查 UID 及 API token。"),
            DupeCheckError::PotentialDupe => String::from_str("疑似撞车。请确认以下是否有撞车项。"),
            DupeCheckError::QueueIsFull => String::from_str(
                "待审队列超过 100 首。请删除未通过文件后重试。",
            ),
            DupeCheckError::BadParameters => String::from_str("参数不齐。歌曲名不能为空。"),
            DupeCheckError::Md5Dupe => String::from_str("存在 MD5 重复的文件。"),
            DupeCheckError::DatabaseError => String::from_str("数据库错误。"),
            DupeCheckError::UploadDisabled => String::from_str("站点暂时关闭上传。"),
            DupeCheckError::CategoryError => String::from_str("分类/类型错误。"),
        }
    }
}

/// Category of a track, the first half of its classification.
#[derive(Copy, Clone, Debug, PartialEq, Eq, Structural)]
pub enum MusicCategory {
    /// Animation.
    Anime,
    /// Games.
    Game,
    /// Idols.
    Idol,
    /// Touhou Project.
    Touhou,
    /// VOCALOID.
    Vocaloid,
    /// Fan works, tracks used in MADs, and the rest.
    Doujin,
}

impl MusicCategory {
    /// The integer that stands for this category on the wire.
    pub open spec fn code_spec(self) -> u8 {
        match self {
            MusicCategory::Anime => 1,
            MusicCategory::Game => 2,
            MusicCategory::Idol => 3,
            MusicCategory::Touhou => 4,
            MusicCategory::Vocaloid => 5,
            MusicCategory::Doujin => 6,
        }
    }

    /// The name shown to the operator.
    pub open spec fn text_spec(self) -> Seq<char> {
        match self {
            MusicCategory::Anime => "动画"@,
            MusicCategory::Game => "游戏"@,
            MusicCategory::Idol => "偶像"@,
            MusicCategory::Touhou => "东方 Project"@,
            MusicCategory::Vocaloid => "VOCALOID"@,
            MusicCategory::Doujin => "同人（MAD 用曲和其它）"@,
        }
    }

    /// The wire integer.
    pub fn code(self) -> (c: u8)
        ensures
            c == self.code_spec(),
            1 <= c <= 6,
    {
        match self {
            MusicCategory::Anime => 1,
            MusicCategory::Game => 2,
            MusicCategory::Idol => 3,
            MusicCategory::Touhou => 4,
            MusicCategory::Vocaloid => 5,
            MusicCategory::Doujin => 6,
        }
    }

    /// The text shown to the operator.
    pub fn to_string(&self) -> (s: String)
        ensures
            s@ == self.text_spec(),
    {
        match self {
            MusicCategory::Anime => String::from_str("动画"),
            MusicCategory::Game => String::from_str("游戏"),
            MusicCategory::Idol => String::from_str("偶像"),
            MusicCategory::Touhou => String::from_str("东方 Project"),
            MusicCategory::Vocaloid => String::from_str("VOCALOID"),
            MusicCategory::Doujin => String::from_str("同人（MAD 用曲和其它）"),
        }
    }
}

/// Kind of a track, the second half of its classification.
#[derive(Copy, Clone, Debug, PartialEq, Eq, Structural)]
pub enum MusicType {
    /// Sung by the original artist.
    Original,
    /// Accompaniment without vocals.
    Instrumental,
    /// Music that never had vocals.
    PureMusic,
    /// Cover.
    Feat,
    /// Talk, radio drama and the rest.
    Others,
}

impl MusicType {
    /// The integer that stands for this kind on the wire.
    pub open spec fn code_spec(self) -> u8 {
        match self {
            MusicType::Original => 1,
            MusicType::Instrumental => 2,
            MusicType::PureMusic => 3,
            MusicType::Feat => 4,
            MusicType::Others => 5,
        }
    }

    /// The name shown to the operator.
    pub open spec fn text_spec(self) -> Seq<char> {
        match self {
            MusicType::Original => "原唱"@,
            MusicType::Instrumental => "伴奏"@,
            MusicType::PureMusic => "纯音乐"@,
            MusicType::Feat => "翻唱"@,
            MusicType::Others => "其它（Freetalk、广播剧等）"@,
        }
    }

    /// The wire integer.
    pub fn code(self) -> (c: u8)
        ensures
            c == self.code_spec(),
            1 <= c <= 5,
    {
        match self {
            MusicType::Original => 1,
            MusicType::Instrumental => 2,
            MusicType::PureMusic => 3,
            MusicType::Feat => 4,
            MusicType::Others => 5,
        }
    }

    /// The text shown to the operator.
    pub fn to_string(&self) -> (s: String)
        ensures
            s@ == self.text_spec(),
    {
        match self {
            MusicType::Original => String::from_str("原唱"),
            MusicType::Instrumental => String::from_str("伴奏"),
            MusicType::PureMusic => String::from_str("纯音乐"),
            MusicType::Feat => String::from_str("翻唱"),
            MusicType::Others => String::from_str("其它（Freetalk、广播剧等）"),
        }
    }
}

/// Audio quality of a catalogued track.
#[derive(Copy, Clone, Debug, PartialEq, Eq, Structural)]
pub enum MusicQualityLevel {
    Lossless,
    HighQualityAac,
    HighQualityMp3,
    LowQualityMp3,
}

impl MusicQualityLevel {
    /// The integer that stands for this level on the wire.
    pub open spec fn code_spec(self) -> u8 {
        match self {
            MusicQualityLevel::Lossless => 1,
            MusicQualityLevel::HighQualityAac => 2,
            MusicQualityLevel::HighQualityMp3 => 3,
            MusicQualityLevel::LowQualityMp3 => 4,
        }
    }

    /// The name shown to the operator.
    pub open spec fn text_spec(self) -> Seq<char> {
        match self {
            MusicQualityLevel::Lossless => "无损"@,
            MusicQualityLevel::HighQualityAac => "高音质 AAC"@,
            MusicQualityLevel::HighQualityMp3 => "高音质 MP3"@,
            MusicQualityLevel::LowQualityMp3 => "低音质 MP#"@,
        }
    }

    /// The wire integer.
    pub fn code(self) -> (c: u8)
        ensures
            c == self.code_spec(),
            1 <= c <= 4,
    {
        match self {
            MusicQualityLevel::Lossless => 1,
            MusicQualityLevel::HighQualityAac => 2,
            MusicQualityLevel::HighQualityMp3 => 3,
            MusicQualityLevel::LowQualityMp3 => 4,
        }
    }

    /// Reads a wire integer back; `None` for an integer that stands for no
    /// level.
    pub fn from_code(code: u8) -> (r: Option<MusicQualityLevel>)
        ensures
            r is Some <==> 1 <= code <= 4,
            r matches Some(l) ==> l.code_spec() == code,
    {
        match code {
            1 => Some(MusicQualityLevel::Lossless),
            2 => Some(MusicQualityLevel::HighQualityAac),
            3 => Some(MusicQualityLevel::HighQualityMp3),
            4 => Some(MusicQualityLevel::LowQualityMp3),
            _ => None,
        }
    }

    /// The text shown to the operator.
    pub fn to_string(&self) -> (s: String)
        ensures
            s@ == self.text_spec(),
    {
        match self {
            MusicQualityLevel::Lossless => String::from_str("无损"),
            MusicQualityLevel::HighQualityAac => String::from_str("高音质 AAC"),
            MusicQualityLevel::HighQualityMp3 => String::from_str("高音质 MP3"),
            MusicQualityLevel::LowQualityMp3 => String::from_str("低音质 MP#"),
        }
    }
}

/// A tag as the probe printed it becomes a value or nothing: white space
/// around it is dropped, and a tag that is empty or holds white space only
/// counts as absent.
pub fn chk_nonempty_str_or_none(buf: String) -> (r: Option<String>)
    ensures
        r is None <==> all_white_space(buf@),
        r matches Some(t) ==> t@.len() > 0 && is_trim_of(t@, buf@),
{
    let t = trim(buf.as_str());
    proof {
        lemma_trim_unique(buf@, t@, t@);
    }
    if t.is_empty() {
        None
    } else {
        Some(String::from_str(t))
    }
}

/// The tags that the probe found in a file, each already normalised by
/// [`chk_nonempty_str_or_none`].
#[derive(Clone, Debug, PartialEq, Eq)]
pub struct FfmpegTags {
    pub album: Option<String>,
    pub album_artist: Option<String>,
    pub artist: Option<String>,
    pub title: Option<String>,
}

/// Mathematical form of [`FfmpegTags`].
pub struct FfmpegTagsView {
    pub album: Option<Seq<char>>,
    pub album_artist: Option<Seq<char>>,
    pub artist: Option<Seq<char>>,
    pub title: Option<Seq<char>>,
}

impl View for FfmpegTags {
    type V = FfmpegTagsView;

    open spec fn view(&self) -> FfmpegTagsView {
        FfmpegTagsView {
            album: self.album.deep_view(),
            album_artist: self.album_artist.deep_view(),
            artist: self.artist.deep_view(),
            title: self.title.deep_view(),
        }
    }
}

/// What the operator submits about a track. All three fields are present;
/// any of them may be empty.
#[derive(Clone, Debug, PartialEq, Eq)]
pub struct SubmittedMusicMetadata {
    pub album: String,
    pub artist: String,
    pub title: String,
}

/// Mathematical form of [`SubmittedMusicMetadata`].
pub struct SubmittedMusicMetadataView {
    pub album: Seq<char>,
    pub artist: Seq<char>,
    pub title: Seq<char>,
}

impl View for SubmittedMusicMetadata {
    type V = SubmittedMusicMetadataView;

    open spec fn view(&self) -> SubmittedMusicMetadataView {
        SubmittedMusicMetadataView { album: self.album@, artist: self.artist@, title: self.title@ }
    }
}

/// A catalogued track that the duplicate check found close to the
/// submission. It is shown to the operator and decides nothing.
#[derive(Clone, Debug, PartialEq, Eq)]
pub struct DupeItem {
    pub sid: String,
    pub title: String,
    pub singer: String,
    pub album: String,
    pub level: MusicQualityLevel,
    /// The similarity score, as the text that is shown.
    pub score: String,
}

/// Mathematical form of [`DupeItem`].
pub struct DupeItemView {
    pub sid: Seq<char>,
    pub title: Seq<char>,
    pub singer: Seq<char>,
    pub album: Seq<char>,
    pub level: MusicQualityLevel,
    pub score: Seq<char>,
}

impl View for DupeItem {
    type V = DupeItemView;

    open spec fn view(&self) -> DupeItemView {
        DupeItemView {
            sid: self.sid@,
            title: self.title@,
            singer: self.singer@,
            album: self.album@,
            level: self.level,
            score: self.score@,
        }
    }
}

impl DeepView for DupeItem {
    type V = DupeItemView;

    open spec fn deep_view(&self) -> DupeItemView {
        self@
    }
}

/// The answer to a duplicate check.
#[derive(Clone, Debug, PartialEq, Eq)]
pub struct DupeCheckResponseBody {
    pub success: bool,
    pub token: Option<String>,
    pub error_code: Option<DupeCheckError>,
    pub result: Option<Vec<DupeItem>>,
}

/// Mathematical form of [`DupeCheckResponseBody`].
pub struct DupeCheckResponseBodyView {
    pub success: bool,
    pub token: Option<Seq<char>>,
    pub error_code: Option<DupeCheckError>,
    pub result: Option<Seq<DupeItemView>>,
}

impl DupeCheckResponseBodyView {
    /// A well-formed answer names a reason exactly when it reports failure.
    pub open spec fn well_formed(self) -> bool {
        self.success <==> self.error_code is None
    }
}

impl View for DupeCheckResponseBody {
    type V = DupeCheckResponseBodyView;

    open spec fn view(&self) -> DupeCheckResponseBodyView {
        DupeCheckResponseBodyView {
            success: self.success,
            token: self.token.deep_view(),
            error_code: self.error_code,
            result: self.result.deep_view(),
        }
    }
}

impl DupeCheckResponseBody {
    /// Whether the answer names a reason exactly when it reports failure.
    pub fn is_well_formed(&self) -> (b: bool)
        ensures
            b == self@.well_formed(),
    {
        match self.error_code {
            Some(_) => !self.success,
            None => self.success,
        }
    }
}

} // verus!
