//! Repairs of a workspace: the links of the albums and the directories that
//! were left empty.

use uuid::Uuid;
use vstd::prelude::*;

verus! {

/// The number of directory levels below the objects of a workspace.
pub const OBJECT_LAYERS: u8 = 2;

/// Why the link of an album directory cannot be repaired.
#[derive(Clone, Copy, Debug, PartialEq, Eq, Structural)]
pub enum FixError {
    /// The `.album` of the directory is no link.
    NotSymlink,
    /// The link points at something whose name is no album id.
    InvalidAlbumId,
}

/// Whether a text is a UUID, as the `uuid` crate reads one.
pub uninterp spec fn is_uuid(text: Seq<char>) -> bool;

/// Calls `Uuid::parse_str` and tells whether it succeeded. Trusted: the answer
/// depends on the text alone.
#[verifier::external_body]
fn uuid_is_valid(text: &str) -> (valid: bool)
    ensures
        valid == is_uuid(text@),
{
    Uuid::parse_str(text).is_ok()
}

/// The verdict on a link: `target_is_album` is `None` if there is no link,
/// and says otherwise whether the name of the link's target is an album id.
pub open spec fn spec_link_verdict(target_is_album: Option<bool>) -> Result<(), FixError> {
    match target_is_album {
        None => Err(FixError::NotSymlink),
        Some(false) => Err(FixError::InvalidAlbumId),
        Some(true) => Ok(()),
    }
}

/// The verdict on a link, given whether the name of its target is an album id.
pub fn link_verdict(target_is_album: Option<bool>) -> (verdict: Result<(), FixError>)
    ensures
        verdict == spec_link_verdict(target_is_album),
{
    match target_is_album {
        None => Err(FixError::NotSymlink),
        Some(false) => Err(FixError::InvalidAlbumId),
        Some(true) => Ok(()),
    }
}

/// Checks the `.album` of an album directory. `target_name` is `None` if it
/// is no link, and the file name of what it points at otherwise: that name has
/// to be an album id, which is a UUID.
pub fn check_album_link(target_name: Option<&str>) -> (verdict: Result<(), FixError>)
    ensures
        verdict == spec_link_verdict(
            match target_name {
                Some(name) => Some(is_uuid(name@)),
                None => None,
            },
        ),
{
    match target_name {
        Some(name) => link_verdict(Some(uuid_is_valid(name))),
        None => link_verdict(None),
    }
}

/// How deep the search for empty directories goes below a directory that lies
/// `level` levels above the deepest: one level less, and not at all below
/// the deepest.
pub fn descend(level: u8) -> (below: Option<u8>)
    ensures
        below == if level > 0 {
            Some((level - 1) as u8)
        } else {
            None::<u8>
        },
{
    if level > 0 {
        Some(level - 1)
    } else {
        None
    }
}

/// The name of the directory for a pair of characters of an album id: the
/// pair without its leading zeros, or `0` if nothing is left of it.
pub open spec fn layer_name(pair: Seq<char>) -> Seq<char> {
    if pair[0] != '0' {
        pair
    } else if pair[1] != '0' {
        seq![pair[1]]
    } else {
        seq!['0']
    }
}

/// The names of the directories that lead to an album: one for each of the
/// first `layer` pairs of characters of its id.
pub open spec fn spec_album_layers(album_id: Seq<char>, layer: nat) -> Seq<Seq<char>> {
    Seq::new(layer, |i: int| layer_name(album_id.subrange(2 * i, 2 * i + 2)))
}

/// The directories that lead to the directory of an album below the objects
/// of a workspace, outermost first. The id has to be long enough to give
/// `layer` pairs of characters.
pub fn album_layers(album_id: &str, layer: usize) -> (layers: Vec<String>)
    requires
        album_id.is_ascii(),
        2 * layer <= album_id@.len(),
    ensures
        layers@.len() == layer,
        forall|i: int| 0 <= i < layer ==> (#[trigger] layers@[i])@ == spec_album_layers(
            album_id@,
            layer as nat,
        )[i],
{
    let length = album_id.unicode_len();
    let mut layers: Vec<String> = Vec::new();
    let mut i: usize = 0;
    while i < layer
        invariant
            i <= layer,
            album_id.is_ascii(),
            2 * layer <= album_id@.len(),
            length == album_id@.len(),
            layers@.len() == i,
            forall|j: int| 0 <= j < i ==> (#[trigger] layers@[j])@ == layer_name(
                album_id@.subrange(2 * j, 2 * j + 2),
            ),
        decreases layer - i,
    {
        let pair = album_id.substring_ascii(2 * i, 2 * i + 2);
        let name = if pair.get_char(0) != '0' {
            pair.to_owned()
        } else if pair.get_char(1) != '0' {
            pair.substring_ascii(1, 2).to_owned()
        } else {
            "0".to_owned()
        };
        proof {
            reveal_strlit("0");
            assert(pair@.subrange(1, 2) =~= seq![pair@[1]]);
        }
        assert(name@ =~= layer_name(pair@));
        layers.push(name);
        i = i + 1;
    }
    layers
}

impl FixError {
    /// The text of the error.
    pub fn message(&self) -> (text: &'static str)
        ensures
            text@ == match *self {
                FixError::NotSymlink => "Album directory is not a symlink"@,
                FixError::InvalidAlbumId => "Invalid album id detected"@,
            },
    {
        match self {
            FixError::NotSymlink => "Album directory is not a symlink",
            FixError::InvalidAlbumId => "Invalid album id detected",
        }
    }
}

} // verus!
