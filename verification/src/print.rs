//! Printing parts of a repository: which album and disc a request names, and
//! the cue sheet of a disc.

use crate::text::{decimal, push_decimal, push_two_digits, two_digits};
use vstd::prelude::*;

verus! {

/// What to print.
#[derive(Clone, Copy, Debug, PartialEq, Eq, Structural)]
pub enum RepoPrintType {
    Title,
    Artist,
    Date,
    Cue,
    Toml,
    Json,
    TagTree,
}

/// A request to print.
#[derive(Clone, Debug, PartialEq, Eq)]
pub struct RepoPrintAction {
    pub print_type: RepoPrintType,
    /// Whether a cue sheet names the program that made it.
    pub add_generated_by: bool,
    /// A catalog, optionally followed by `/` and a disc number; an album id; or
    /// a tag.
    pub input: String,
    /// Where the text goes; `-` for the standard output.
    pub output: String,
}

/// The album and the disc that a request names.
#[derive(Clone, Debug, PartialEq, Eq)]
pub struct AlbumTarget {
    pub catalog: String,
    /// The place of the disc in the album, counted from 0.
    pub disc_index: u32,
}

/// Why nothing was printed.
#[derive(Clone, Copy, Debug, PartialEq, Eq, Structural)]
pub enum PrintError {
    /// The text behind the `/` is no disc number.
    InvalidDiscId,
    /// The album has no disc of this number, counted from 1.
    DiscNotFound { disc: u32 },
}

/// A track as a cue sheet shows it.
#[derive(Clone, Debug, PartialEq, Eq)]
pub struct CueTrack {
    pub title: String,
    pub artist: String,
}

/// A disc as a cue sheet shows it.
#[derive(Clone, Debug, PartialEq, Eq)]
pub struct CueDisc {
    pub title: String,
    pub artist: String,
    pub tracks: Vec<CueTrack>,
}

/// The place of the first `sep` in a text, or the length of the text if there
/// is none.
pub open spec fn first_index(text: Seq<char>, sep: char) -> int
    decreases text.len(),
{
    if text.len() == 0 || text[0] == sep {
        0
    } else {
        1 + first_index(text.drop_first(), sep)
    }
}

/// The parts of a text between the occurrences of `sep`.
pub open spec fn split_at(text: Seq<char>, sep: char) -> Seq<Seq<char>>
    decreases text.len(),
{
    let i = first_index(text, sep);
    if 0 <= i < text.len() {
        seq![text.subrange(0, i)] + split_at(text.subrange(i + 1, text.len() as int), sep)
    } else {
        seq![text]
    }
}

/// The texts of a sequence of strings.
pub open spec fn texts(parts: Seq<String>) -> Seq<Seq<char>> {
    Seq::new(parts.len(), |i: int| parts[i]@)
}

pub open spec fn is_digit(c: char) -> bool {
    '0' <= c <= '9'
}

/// The number that a text of decimal digits stands for.
pub open spec fn digits_value(digits: Seq<char>) -> nat
    decreases digits.len(),
{
    if digits.len() == 0 {
        0
    } else {
        digits_value(digits.drop_last()) * 10 + (digits.last() as nat - '0' as nat) as nat
    }
}

/// The number that a text stands for as a `u32`: an optional `+`, then one
/// decimal digit or more, nothing else, and a value that fits.
pub open spec fn spec_parse_u32(text: Seq<char>) -> Option<u32> {
    let digits = unsigned_part(text);
    if digits.len() > 0 && all_digits(digits) && digits_value(digits) <= u32::MAX {
        Some(digits_value(digits) as u32)
    } else {
        None
    }
}

/// A text without its leading `+`, if it has one.
pub open spec fn unsigned_part(text: Seq<char>) -> Seq<char> {
    if text.len() > 0 && text[0] == '+' {
        text.drop_first()
    } else {
        text
    }
}

pub open spec fn all_digits(text: Seq<char>) -> bool {
    forall|i: int| 0 <= i < text.len() ==> is_digit(#[trigger] text[i])
}

/// A text in which every `from` has been replaced by the text `to`.
pub open spec fn replaced(text: Seq<char>, from: char, to: Seq<char>) -> Seq<char>
    decreases text.len(),
{
    if text.len() == 0 {
        Seq::empty()
    } else {
        replaced(text.drop_last(), from, to) + (if text.last() == from {
            to
        } else {
            seq![text.last()]
        })
    }
}

/// A title as it can stand in a file name: every `/` has become a fullwidth
/// solidus.
pub open spec fn spec_file_safe(title: Seq<char>) -> Seq<char> {
    replaced(title, '/', "\u{ff0f}"@)
}

/// `str::split` at a character, with each part as a string of its own.
/// Trusted: the parts are the texts between the occurrences of the character,
/// in order.
#[verifier::external_body]
fn split_text(input: &str, sep: char) -> (parts: Vec<String>)
    ensures
        texts(parts@) == split_at(input@, sep),
{
    input.split(sep).map(|part| part.to_owned()).collect()
}

/// `str::parse` for `u32`. Trusted: the value of a text made of an optional
/// `+` and decimal digits that fits, `None` for every other text.
#[verifier::external_body]
fn parse_u32(text: &str) -> (value: Option<u32>)
    ensures
        value == spec_parse_u32(text@),
{
    text.parse::<u32>().ok()
}

/// `str::replace` of a character by a text. Trusted: every occurrence of the
/// character is replaced and nothing else changes.
#[verifier::external_body]
fn replace_char(text: &str, from: char, to: &str) -> (changed: String)
    ensures
        changed@ == replaced(text@, from, to@),
{
    text.replace(from, to)
}

/// The disc that the text behind the catalog names, counted from 0: the first
/// disc if there is no such text, and the disc before the given number
/// otherwise, where the number 0 stands for the first disc too.
pub open spec fn spec_disc_index(disc: Option<Seq<char>>) -> Result<u32, PrintError> {
    match disc {
        None => Ok(0u32),
        Some(text) => match spec_parse_u32(text) {
            Some(number) => Ok(if number > 0 { (number - 1) as u32 } else { number }),
            None => Err(PrintError::InvalidDiscId),
        },
    }
}

/// The catalog and the disc, counted from 0, that an input names.
pub open spec fn spec_target(input: Seq<char>) -> Result<(Seq<char>, u32), PrintError> {
    let parts = split_at(input, '/');
    match spec_disc_index(
        if parts.len() > 1 {
            Some(parts[1])
        } else {
            None
        },
    ) {
        Ok(index) => Ok((parts[0], index)),
        Err(error) => Err(error),
    }
}

/// The text of a track's file: the number of the track, the title, and the
/// extension.
pub open spec fn spec_track_file_name(number: nat, title: Seq<char>) -> Seq<char> {
    two_digits(number) + ". "@ + spec_file_safe(title) + ".flac"@
}

/// The head of a cue sheet.
pub open spec fn cue_head(title: Seq<char>, artist: Seq<char>, date: Seq<char>) -> Seq<char> {
    "TITLE \""@ + title + "\"\nPERFORMER \""@ + artist + "\"\nREM DATE \""@ + date + "\"\n"@
}

/// The line that names the program and its version.
pub open spec fn cue_generated_by(version: Seq<char>) -> Seq<char> {
    "REM COMMENT \"Generated by Anni v"@ + version + "\""@
}

/// The lines of one track.
pub open spec fn cue_track(number: nat, title: Seq<char>, artist: Seq<char>) -> Seq<char> {
    "\nFILE \""@ + spec_track_file_name(number, title)
        + "\" WAVE\n  TRACK 01 AUDIO\n    TITLE \""@ + title + "\"\n    PERFORMER \""@ + artist
        + "\"\n    INDEX 01 00:00:00"@
}

/// The lines of the first `count` tracks.
pub open spec fn cue_tracks(tracks: Seq<CueTrack>, count: nat) -> Seq<char>
    decreases count,
{
    if count == 0 {
        Seq::empty()
    } else {
        cue_tracks(tracks, (count - 1) as nat) + cue_track(
            count,
            tracks[count - 1].title@,
            tracks[count - 1].artist@,
        )
    }
}

/// The cue sheet of a disc.
pub open spec fn spec_cue_sheet(disc: CueDisc, date: Seq<char>, generated_by: Option<Seq<char>>) -> Seq<
    char,
> {
    cue_head(disc.title@, disc.artist@, date) + (match generated_by {
        Some(version) => cue_generated_by(version),
        None => Seq::empty(),
    }) + cue_tracks(disc.tracks@, disc.tracks@.len())
}

/// A text has at least one part.
proof fn lemma_split_has_parts(text: Seq<char>, sep: char)
    ensures
        split_at(text, sep).len() >= 1,
{
}

/// The file name of a track in a cue sheet.
pub fn track_file_name(number: usize, title: &str) -> (name: String)
    ensures
        name@ == spec_track_file_name(number as nat, title@),
{
    let mut name = String::new();
    push_two_digits(&mut name, number);
    name.append(". ");
    let safe = replace_char(title, '/', "\u{ff0f}");
    name.append(safe.as_str());
    name.append(".flac");
    assert(name@ =~= spec_track_file_name(number as nat, title@));
    name
}

/// Writes the cue sheet of a disc: its title, artist and date, the program's
/// version if asked for, and the tracks in order, numbered from 1.
pub fn cue_sheet(disc: &CueDisc, date: &str, generated_by: Option<&str>) -> (sheet: String)
    ensures
        sheet@ == spec_cue_sheet(
            *disc,
            date@,
            match generated_by {
                Some(version) => Some(version@),
                None => None,
            },
        ),
{
    let mut sheet = String::new();
    sheet.append("TITLE \"");
    sheet.append(disc.title.as_str());
    sheet.append("\"\nPERFORMER \"");
    sheet.append(disc.artist.as_str());
    sheet.append("\"\nREM DATE \"");
    sheet.append(date);
    sheet.append("\"\n");
    assert(sheet@ =~= cue_head(disc.title@, disc.artist@, date@));
    match generated_by {
        Some(version) => {
            sheet.append("REM COMMENT \"Generated by Anni v");
            sheet.append(version);
            sheet.append("\"");
            assert(sheet@ =~= cue_head(disc.title@, disc.artist@, date@) + cue_generated_by(
                version@,
            ));
        },
        None => {
            assert(sheet@ =~= cue_head(disc.title@, disc.artist@, date@) + Seq::<char>::empty());
        },
    }
    let ghost front = sheet@;
    let mut i: usize = 0;
    assert(sheet@ =~= front + cue_tracks(disc.tracks@, 0));
    while i < disc.tracks.len()
        invariant
            i <= disc.tracks.len(),
            sheet@ == front + cue_tracks(disc.tracks@, i as nat),
        decreases disc.tracks.len() - i,
    {
        let track = &disc.tracks[i];
        let ghost before = sheet@;
        let name = track_file_name(i + 1, track.title.as_str());
        sheet.append("\nFILE \"");
        sheet.append(name.as_str());
        sheet.append("\" WAVE\n  TRACK 01 AUDIO\n    TITLE \"");
        sheet.append(track.title.as_str());
        sheet.append("\"\n    PERFORMER \"");
        sheet.append(track.artist.as_str());
        sheet.append("\"\n    INDEX 01 00:00:00");
        assert(sheet@ =~= before + cue_track((i + 1) as nat, track.title@, track.artist@));
        i = i + 1;
        assert(sheet@ =~= front + cue_tracks(disc.tracks@, i as nat));
    }
    sheet
}

impl PrintError {
    /// The text of the error.
    pub fn message(&self) -> (text: String)
        ensures
            text@ == match *self {
                PrintError::InvalidDiscId => "Invalid disc id"@,
                PrintError::DiscNotFound { disc } => "Disc "@ + decimal(disc as nat)
                    + " not found!"@,
            },
    {
        match self {
            PrintError::InvalidDiscId => "Invalid disc id".to_owned(),
            PrintError::DiscNotFound { disc } => {
                let mut text = "Disc ".to_owned();
                push_decimal(&mut text, *disc as usize);
                text.append(" not found!");
                text
            },
        }
    }
}

impl RepoPrintType {
    /// Whether the text is taken from the album that the input names by its
    /// catalog.
    pub fn prints_album_field(&self) -> (b: bool)
        ensures
            b == (*self == RepoPrintType::Title || *self == RepoPrintType::Artist || *self
                == RepoPrintType::Date || *self == RepoPrintType::Cue),
    {
        match self {
            RepoPrintType::Title | RepoPrintType::Artist | RepoPrintType::Date
            | RepoPrintType::Cue => true,
            _ => false,
        }
    }
}

impl RepoPrintAction {
    /// The album and disc that the input names: the catalog is the text before
    /// the first `/`, the disc number the text between the first `/` and the
    /// second.
    pub fn target(&self) -> (target: Result<AlbumTarget, PrintError>)
        ensures
            match spec_target(self.input@) {
                Ok(named) => target matches Ok(found) && found.catalog@ == named.0
                    && found.disc_index == named.1,
                Err(error) => target == Err::<AlbumTarget, PrintError>(error),
            },
    {
        let mut parts = split_text(self.input.as_str(), '/');
        proof {
            lemma_split_has_parts(self.input@, '/');
            assert(texts(parts@).len() == parts@.len());
            assert(texts(parts@)[0] == parts@[0]@);
        }
        let disc_id: u32 = if parts.len() > 1 {
            assert(texts(parts@)[1] == parts@[1]@);
            match parse_u32(parts[1].as_str()) {
                Some(number) => number,
                None => {
                    return Err(PrintError::InvalidDiscId);
                },
            }
        } else {
            1
        };
        let disc_index: u32 = if disc_id > 0 {
            disc_id - 1
        } else {
            disc_id
        };
        let catalog = parts.swap_remove(0);
        Ok(AlbumTarget { catalog, disc_index })
    }

    /// The cue sheet of the disc that the input names, out of the discs of its
    /// album.
    pub fn cue(&self, discs: &Vec<CueDisc>, date: &str, version: &str) -> (sheet: Result<
        String,
        PrintError,
    >)
        ensures
            match spec_target(self.input@) {
                Err(error) => sheet == Err::<String, PrintError>(error),
                Ok(named) => if named.1 < discs@.len() {
                    sheet matches Ok(text) && text@ == spec_cue_sheet(
                        discs@[named.1 as int],
                        date@,
                        if self.add_generated_by {
                            Some(version@)
                        } else {
                            None
                        },
                    )
                } else {
                    sheet == Err::<String, PrintError>(
                        PrintError::DiscNotFound { disc: (named.1 + 1) as u32 },
                    )
                },
            },
    {
        let target = match self.target() {
            Ok(target) => target,
            Err(error) => {
                return Err(error);
            },
        };
        let index = target.disc_index as usize;
        if index < discs.len() {
            let generated_by = if self.add_generated_by {
                Some(version)
            } else {
                None
            };
            Ok(cue_sheet(&discs[index], date, generated_by))
        } else {
            Err(PrintError::DiscNotFound { disc: target.disc_index + 1 })
        }
    }
}

} // verus!
