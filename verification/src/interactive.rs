//! What stands before and behind the operator's prompts: the bit-rate gate,
//! the values that the prompts start from, and the lists to choose from.

use vstd::prelude::*;
use crate::constants::MIN_BITRATE;
use crate::text::{decimal, push_decimal};
use crate::types::{
    FfmpegTags, FfmpegTagsView, MusicCategory, MusicType, SubmittedMusicMetadata,
    SubmittedMusicMetadataView,
};

verus! {

/// A bit rate below the minimum, with the rate that was found.
#[derive(Copy, Clone, Debug, PartialEq, Eq, Structural)]
pub struct BitrateTooLow {
    pub bit_rate: u64,
}

impl BitrateTooLow {
    /// The message for the operator: the rate found, then the rate required,
    /// in thousands and in full.
    pub open spec fn text_spec(self) -> Seq<char> {
        "Bitrate "@ + decimal(self.bit_rate as nat) + " is too low - "@ + decimal(
            (MIN_BITRATE / 1000) as nat,
        ) + "kbps ("@ + decimal(MIN_BITRATE as nat) + ") is required"@
    }

    /// The message for the operator.
    pub fn to_string(&self) -> (s: String)
        ensures
            s@ == self.text_spec(),
    {
        let mut s = String::from_str("Bitrate ");
        push_decimal(&mut s, self.bit_rate);
        s.append(" is too low - ");
        push_decimal(&mut s, MIN_BITRATE / 1000);
        s.append("kbps (");
        push_decimal(&mut s, MIN_BITRATE);
        s.append(") is required");
        assert(s@ =~= self.text_spec());
        s
    }
}

/// Accepts a file by its bit rate: `Ok` from [`MIN_BITRATE`] upwards,
/// otherwise the error that carries the rate.
pub fn guard_bitrate(bit_rate: u64) -> (r: Result<(), BitrateTooLow>)
    ensures
        r is Ok <==> bit_rate >= MIN_BITRATE,
        r matches Err(e) ==> e.bit_rate == bit_rate,
{
    if bit_rate < MIN_BITRATE {
        Err(BitrateTooLow { bit_rate })
    } else {
        Ok(())
    }
}

/// The text of a tag, or the empty text for a tag that is absent.
pub open spec fn or_empty(tag: Option<Seq<char>>) -> Seq<char> {
    match tag {
        Some(text) => text,
        None => Seq::<char>::empty(),
    }
}

/// The values that the prompts for title, artist and album start from: the
/// title tag; the artist tag, or else the album-artist tag; the album tag;
/// each empty when there is no such tag.
pub open spec fn metadata_defaults(tags: FfmpegTagsView) -> SubmittedMusicMetadataView {
    SubmittedMusicMetadataView {
        title: or_empty(tags.title),
        artist: match tags.artist {
            Some(artist) => artist,
            None => or_empty(tags.album_artist),
        },
        album: or_empty(tags.album),
    }
}

fn text_or_empty(tag: &Option<String>) -> (text: String)
    ensures
        text@ == or_empty(tag.deep_view()),
{
    match tag {
        Some(text) => text.clone(),
        None => String::new(),
    }
}

/// Computes the values that the prompts start from.
pub fn default_metadata(tags: &FfmpegTags) -> (meta: SubmittedMusicMetadata)
    ensures
        meta@ == metadata_defaults(tags@),
{
    let artist = match &tags.artist {
        Some(artist) => artist.clone(),
        None => text_or_empty(&tags.album_artist),
    };
    SubmittedMusicMetadata {
        title: text_or_empty(&tags.title),
        artist,
        album: text_or_empty(&tags.album),
    }
}

/// The categories in the order in which they are offered.
pub open spec fn category_choices() -> Seq<MusicCategory> {
    seq![
        MusicCategory::Anime,
        MusicCategory::Game,
        MusicCategory::Idol,
        MusicCategory::Touhou,
        MusicCategory::Vocaloid,
        MusicCategory::Doujin,
    ]
}

/// The kinds in the order in which they are offered.
pub open spec fn type_choices() -> Seq<MusicType> {
    seq![
        MusicType::Original,
        MusicType::Instrumental,
        MusicType::PureMusic,
        MusicType::Feat,
        MusicType::Others,
    ]
}

/// The list of categories for the operator to choose from.
pub fn categories() -> (choices: Vec<MusicCategory>)
    ensures
        choices@ == category_choices(),
{
    let choices = vec![
        MusicCategory::Anime,
        MusicCategory::Game,
        MusicCategory::Idol,
        MusicCategory::Touhou,
        MusicCategory::Vocaloid,
        MusicCategory::Doujin,
    ];
    assert(choices@ =~= category_choices());
    choices
}

/// The category at a position of the list, `None` past its end.
pub fn category_at(index: usize) -> (r: Option<MusicCategory>)
    ensures
        r is Some <==> index < category_choices().len(),
        r matches Some(c) ==> c == category_choices()[index as int],
{
    match index {
        0 => Some(MusicCategory::Anime),
        1 => Some(MusicCategory::Game),
        2 => Some(MusicCategory::Idol),
        3 => Some(MusicCategory::Touhou),
        4 => Some(MusicCategory::Vocaloid),
        5 => Some(MusicCategory::Doujin),
        _ => None,
    }
}

/// The list of kinds for the operator to choose from.
pub fn types() -> (choices: Vec<MusicType>)
    ensures
        choices@ == type_choices(),
{
    let choices = vec![
        MusicType::Original,
        MusicType::Instrumental,
        MusicType::PureMusic,
        MusicType::Feat,
        MusicType::Others,
    ];
    assert(choices@ =~= type_choices());
    choices
}

/// The kind at a position of the list, `None` past its end.
pub fn type_at(index: usize) -> (r: Option<MusicType>)
    ensures
        r is Some <==> index < type_choices().len(),
        r matches Some(t) ==> t == type_choices()[index as int],
{
    match index {
        0 => Some(MusicType::Original),
        1 => Some(MusicType::Instrumental),
        2 => Some(MusicType::PureMusic),
        3 => Some(MusicType::Feat),
        4 => Some(MusicType::Others),
        _ => None,
    }
}

/// Both lists are in the order of the wire integers: the choice at position
/// `i` is sent as `i + 1`.
pub proof fn lemma_choices_follow_wire_codes()
    ensures
        forall|i: int|
            0 <= i < category_choices().len() ==> (#[trigger] category_choices()[i]).code_spec()
                == i + 1,
        forall|i: int|
            0 <= i < type_choices().len() ==> (#[trigger] type_choices()[i]).code_spec() == i + 1,
{
}

} // verus!
