//! The rows and result shapes the player's library database works with:
//! tracks, albums, artists, playlists and listening history. The database
//! itself lives in the embedding shell; these are the plain values that
//! cross between it, the interface and the playback controller.

use vstd::prelude::*;

verus! {

/// A track as it is uploaded into the library database after scanning a
/// file's tags. Fields the tags did not provide stay `None`.
#[derive(Default, Debug, Clone)]
pub struct SongTableUpload {
    pub name: Option<String>,
    pub path: String,
    pub cover: Option<String>,
    pub release: Option<String>,
    pub track: Option<i32>,
    pub album: Option<String>,
    pub artist: Option<String>,
    pub genre: Option<String>,
    pub album_artist: Option<String>,
    pub disc: Option<i32>,
    pub duration: String,
    pub song_section: Option<i32>,
    pub album_section: Option<i32>,
}

/// A track as the library database hands it back: the file path together
/// with the tags the interface shows. This is the descriptor the playback
/// queue holds; the controller reads only `path` and treats the rest as
/// opaque metadata.
#[derive(Default, Debug)]
pub struct SongTable {
    pub name: String,
    pub path: String,
    pub cover: String,
    pub release: String,
    pub track: i32,
    pub album: String,
    pub artist: String,
    pub genre: String,
    pub album_artist: String,
    pub disc_number: i32,
    pub duration: u64,
}

impl Clone for SongTable {
    /// A cloned descriptor is equal to the one it was cloned from, so a
    /// caller holding a copy of a queued track holds exactly that track.
    fn clone(&self) -> (r: Self)
        ensures
            r == *self,
    {
        SongTable {
            name: self.name.clone(),
            path: self.path.clone(),
            cover: self.cover.clone(),
            release: self.release.clone(),
            track: self.track,
            album: self.album.clone(),
            artist: self.artist.clone(),
            genre: self.genre.clone(),
            album_artist: self.album_artist.clone(),
            disc_number: self.disc_number,
            duration: self.duration,
        }
    }
}

/// A playlist row: its display name and cover image path.
#[derive(Default, Debug, Clone)]
pub struct PlaylistTable {
    pub name: String,
    pub image: String,
}

/// One membership row of a playlist: which track sits at which position.
#[derive(Default)]
pub struct PlaylistDetailTable {
    pub playlist_name: String,
    pub track_id: String,
    pub position: i64,
}

/// A playlist together with its tracks, in playlist order.
#[derive(Default)]
pub struct PlaylistFull {
    pub name: String,
    pub image: String,
    pub songs: Vec<SongTable>,
}

/// A directory the library scans for music files.
#[derive(Default)]
pub struct DirsTable {
    pub dir_path: String,
}

/// One album as the album overview lists it.
#[derive(Default, Clone)]
pub struct AllAlbumResults {
    pub album: String,
    pub album_artist: String,
    pub cover: String,
    pub album_section: i32,
}

/// One artist as the artist overview lists it.
#[derive(Default, Clone)]
pub struct AllArtistResults {
    pub album_artist: String,
    pub name: String,
}

/// An artist's detail page: track count, total play time and their albums.
#[derive(Default, Clone)]
pub struct ArtistDetailsResults {
    pub num_tracks: usize,
    pub total_duration: u64,
    pub album_artist: String,
    pub albums: Vec<AllAlbumResults>,
}

/// A named section of the album overview.
pub struct AlbumRes {
    pub name: String,
    pub section: Vec<AllAlbumResults>,
}

/// A named section of the artist overview.
pub struct ArtistRes {
    pub name: String,
    pub section: Vec<AllArtistResults>,
}

/// A named section of the song overview.
pub struct SongRes {
    pub name: String,
    pub song_list: Vec<SongTable>,
}

/// One listening-history entry. The play time is kept as whole seconds
/// since the Unix epoch; the shell formats it for display.
#[derive(Debug, Clone)]
pub struct History {
    pub id: String,
    pub date_played: i64,
    pub song_id: String,
}

/// Event payload: the track the player currently stands on.
#[derive(Clone)]
pub struct GetCurrentSong {
    pub q: SongTable,
}

/// Event payload: the full list of playlists.
#[derive(Clone)]
pub struct GetPlaylistList {
    pub playlist: Vec<PlaylistTable>,
}

/// What scanning one file produced: the row to upload and a description of
/// any error met along the way.
#[derive(Debug)]
pub struct SongDataResults {
    pub song_data: SongTableUpload,
    pub error_details: String,
}

} // verus!
