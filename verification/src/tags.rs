//! Fallbacks for track metadata: a tag that is missing or empty gives way to
//! the file's stem (for titles) or to `"Unknown"` (for artists and albums).

use vstd::prelude::*;
use crate::text::file_stem;

verus! {

/// The text of an optional string.
pub open spec fn text_of(o: Option<String>) -> Option<Seq<char>> {
    match o {
        Some(s) => Some(s@),
        None => None,
    }
}

/// A tag value, kept only where it is not empty.
pub open spec fn non_empty(tag: Option<Seq<char>>) -> Option<Seq<char>> {
    match tag {
        Some(t) => if t.len() > 0 {
            Some(t)
        } else {
            None
        },
        None => None,
    }
}

/// The name shown for a file: its stem, or the whole path where it has none.
pub open spec fn stem_or_path(stem: Option<Seq<char>>, path: Seq<char>) -> Seq<char> {
    match stem {
        Some(s) => s,
        None => path,
    }
}

/// The title of a track: its title tag where that is present and not empty,
/// else the name of its file.
pub open spec fn title_choice(tag: Option<Seq<char>>, stem: Option<Seq<char>>, path: Seq<char>) -> Seq<char> {
    match non_empty(tag) {
        Some(t) => t,
        None => stem_or_path(stem, path),
    }
}

/// An artist or album: the tag where it is present and not empty, else `"Unknown"`.
pub open spec fn or_unknown(tag: Option<Seq<char>>) -> Seq<char> {
    match non_empty(tag) {
        Some(t) => t,
        None => seq!['U', 'n', 'k', 'n', 'o', 'w', 'n'],
    }
}

/// The name of a file given its stem (as `std::path::Path::file_stem` finds
/// it): the stem, or the whole path where there is none.
pub fn title_from_stem(stem: Option<String>, path: &str) -> (r: String)
    ensures
        r@ == stem_or_path(text_of(stem), path@),
{
    match stem {
        Some(s) => s,
        None => path.to_owned(),
    }
}

/// The name shown for the file at `path`: its stem, or the whole path where
/// it has none.
pub fn file_title(path: &str) -> (r: String)
    ensures
        r@ == stem_or_path(crate::text::file_stem_of(path@), path@),
{
    let stem = file_stem(path);
    title_from_stem(stem, path)
}

/// The title of a track from its title tag and the stem of its file.
pub fn choose_title(tag: Option<String>, stem: Option<String>, path: &str) -> (r: String)
    ensures
        r@ == title_choice(text_of(tag), text_of(stem), path@),
{
    match tag {
        Some(t) => {
            if t.as_str().is_empty() {
                title_from_stem(stem, path)
            } else {
                t
            }
        },
        None => title_from_stem(stem, path),
    }
}

/// The title of the track at `path`, from its title tag where it has one.
pub fn title_or_file_name(tag: Option<String>, path: &str) -> (r: String)
    ensures
        r@ == title_choice(text_of(tag), crate::text::file_stem_of(path@), path@),
{
    match tag {
        Some(t) => {
            if t.as_str().is_empty() {
                file_title(path)
            } else {
                t
            }
        },
        None => file_title(path),
    }
}

/// An artist or album tag, or `"Unknown"` where it is missing or empty.
pub fn tag_or_unknown(tag: Option<String>) -> (r: String)
    ensures
        r@ == or_unknown(text_of(tag)),
{
    match tag {
        Some(t) => {
            if t.as_str().is_empty() {
                proof { reveal_strlit("Unknown"); }
                "Unknown".to_owned()
            } else {
                t
            }
        },
        None => {
            proof { reveal_strlit("Unknown"); }
            "Unknown".to_owned()
        },
    }
}

/// A tag that is present and not empty is always shown as it is; a missing
/// or empty one gives way to the file's stem (then its whole path) for a
/// title, and to "Unknown" for an artist or album.
pub proof fn tags_win_over_fallbacks(tag: Option<Seq<char>>, stem: Option<Seq<char>>, path: Seq<char>)
    ensures
        tag is Some && tag->0.len() > 0 ==> title_choice(tag, stem, path) == tag->0,
        tag is Some && tag->0.len() > 0 ==> or_unknown(tag) == tag->0,
        !(tag is Some && tag->0.len() > 0) ==> or_unknown(tag) == seq!['U', 'n', 'k', 'n', 'o', 'w', 'n'],
        !(tag is Some && tag->0.len() > 0) && stem is Some ==> title_choice(tag, stem, path)
            == stem->0,
        !(tag is Some && tag->0.len() > 0) && stem is None ==> title_choice(tag, stem, path)
            == path,
{
}

} // verus!
