//! The music library: which of the files that a directory lists are tracks.

use crate::path::{has_extension, spec_extension};
use vstd::prelude::*;

verus! {

/// Whether `path` names a track: its file name has the extension `mp3` or
/// `flac`, in lower case.
pub open spec fn is_music_path(path: Seq<char>) -> bool {
    spec_extension(path) == Some(seq!['m', 'p', '3']) || spec_extension(path) == Some(
        seq!['f', 'l', 'a', 'c'],
    )
}

/// The name given to a track whose file name could not be shown as text.
pub open spec fn unknown_name() -> Seq<char> {
    "未知文件名"@
}

/// One entry of a directory listing: the path of the file and, where it
/// can be shown as text, its name.
#[derive(Debug, Clone, PartialEq, Eq)]
pub struct ListedFile {
    pub path: String,
    pub name: Option<String>,
}

/// A track of the library.
#[derive(Debug, Clone, PartialEq, Eq)]
pub struct MusicFile {
    pub name: String,
    pub path: String,
}

/// The name and the path of a track, as text.
pub struct MusicFileView {
    pub name: Seq<char>,
    pub path: Seq<char>,
}

impl DeepView for MusicFile {
    type V = MusicFileView;

    open spec fn deep_view(&self) -> MusicFileView {
        MusicFileView { name: self.name@, path: self.path@ }
    }
}

/// The track that a listed file stands for: its path, under its name or,
/// where it has none, under the name for unknown files.
pub open spec fn track_of(listed: ListedFile) -> MusicFileView {
    MusicFileView {
        name: match listed.name {
            Some(name) => name@,
            None => unknown_name(),
        },
        path: listed.path@,
    }
}

/// The tracks among `listing`, in the order of the listing.
pub open spec fn tracks_of(listing: Seq<ListedFile>) -> Seq<MusicFileView>
    decreases listing.len(),
{
    if listing.len() == 0 {
        Seq::empty()
    } else if is_music_path(listing.last().path@) {
        tracks_of(listing.drop_last()).push(track_of(listing.last()))
    } else {
        tracks_of(listing.drop_last())
    }
}

/// Whether `path` names a track.
pub fn is_music_file(path: &str) -> (music: bool)
    ensures
        music == is_music_path(path@),
{
    proof {
        reveal_strlit("mp3");
        reveal_strlit("flac");
        assert("mp3"@ =~= seq!['m', 'p', '3']);
        assert("flac"@ =~= seq!['f', 'l', 'a', 'c']);
    }
    has_extension(path, "mp3") || has_extension(path, "flac")
}

/// Picks the tracks out of a directory listing, keeping their order.
pub fn select_music_files(listing: Vec<ListedFile>) -> (files: Vec<MusicFile>)
    ensures
        files.deep_view() == tracks_of(listing@),
{
    let mut files: Vec<MusicFile> = Vec::new();
    let ghost all = listing@;
    for listed in it: listing.into_iter()
        invariant
            it.seq() == all,
            files.deep_view() == tracks_of(all.take(it.index())),
    {
        assert(all.take(it.index() + 1).drop_last() =~= all.take(it.index()));
        if is_music_file(listed.path.as_str()) {
            let name = match listed.name {
                Some(name) => name,
                None => String::from_str("未知文件名"),
            };
            files.push(MusicFile { name, path: listed.path });
        }
    }
    assert(all.take(all.len() as int) =~= all);
    files
}

} // verus!
