//! Data carried at the engine's boundary with the rest of the player:
//! library rows, playlists, search results, lyrics, and listening
//! statistics. The engine itself only plays files; these types describe what
//! the surrounding player hands around them.

use vstd::prelude::*;

verus! {

/// One track of the music library.
#[derive(Debug, Clone)]
pub struct LibraryTrack {
    pub id: i64,
    pub title: String,
    pub artist: Option<String>,
    pub artist_id: Option<i64>,
    pub album: Option<String>,
    pub album_id: Option<i64>,
    pub duration_ms: u64,
    pub file_path: String,
    pub artwork_path: Option<String>,
}

/// One artist of the music library.
#[derive(Debug, Clone)]
pub struct Artist {
    pub id: i64,
    pub name: String,
    pub album_count: i64,
    pub track_count: i64,
    pub artwork_path: Option<String>,
}

/// One album of the music library.
#[derive(Debug, Clone)]
pub struct LibraryAlbum {
    pub id: i64,
    pub title: String,
    pub artist_id: Option<i64>,
    pub artist_name: Option<String>,
    pub year: Option<i32>,
    pub artwork_path: Option<String>,
    pub track_count: i64,
    pub total_duration_ms: u64,
}

/// One playlist.
#[derive(Debug, Clone)]
pub struct Playlist {
    pub id: i64,
    pub name: String,
    pub description: Option<String>,
    pub artwork_path: Option<String>,
    pub track_count: i64,
    pub created_at: String,
}

/// What a library search returns.
#[derive(Debug)]
pub struct SearchResults {
    pub tracks: Vec<LibraryTrack>,
    pub albums: Vec<LibraryAlbum>,
    pub playlists: Vec<Playlist>,
}

/// One line of lyrics, with its timestamp where the source is synced.
#[derive(Debug, Clone)]
pub struct LyricLine {
    pub text: String,
    pub timestamp_ms: Option<u64>,
}

/// Lyrics for a track, and where they came from.
#[derive(Debug, Clone)]
pub struct LyricsData {
    pub lines: Vec<LyricLine>,
    pub is_synced: bool,
    pub source: String,
}

/// A most-played track.
#[derive(Debug)]
pub struct TopTrack {
    pub id: i64,
    pub title: String,
    pub artist: String,
    pub cover_image: Option<String>,
    pub play_count: i64,
    pub duration_ms: i64,
}

/// A most-played artist.
#[derive(Debug)]
pub struct TopArtist {
    pub id: i64,
    pub name: String,
    pub cover_image: Option<String>,
    pub play_count: i64,
}

/// A most-played album.
#[derive(Debug)]
pub struct TopAlbum {
    pub id: i64,
    pub title: String,
    pub artist: String,
    pub cover_image: Option<String>,
    pub play_count: i64,
}

/// Listening time on one day.
#[derive(Debug)]
pub struct ActivityPoint {
    pub date: String,
    pub duration_ms: i64,
}

/// A most-played genre.
#[derive(Debug)]
pub struct TopGenre {
    pub genre: String,
    pub play_count: i64,
}

/// Aggregated listening statistics.
#[derive(Debug)]
pub struct StatsData {
    pub top_tracks: Vec<TopTrack>,
    pub top_artists: Vec<TopArtist>,
    pub top_albums: Vec<TopAlbum>,
    pub activity_history: Vec<ActivityPoint>,
    pub top_genres: Vec<TopGenre>,
    pub total_listening_ms: i64,
}

} // verus!
