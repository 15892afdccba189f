use robintuk_player::db::db_file_exists;
use robintuk_player::types::{GetCurrentSong, SongTable, SongTableUpload};

#[test]
fn db_file_exists_reports_what_is_on_disk() {
    // The filesystem root is always there; this made-up path never is.
    assert!(db_file_exists("/"));
    assert!(!db_file_exists("/no/such/directory/anywhere/robintuk.db"));
}

#[test]
fn clone_copies_every_field_of_a_track() {
    let t = SongTable {
        name: "Song".to_string(),
        path: "/music/song.mp3".to_string(),
        cover: "/covers/song.jpg".to_string(),
        release: "1999".to_string(),
        track: 7,
        album: "Album".to_string(),
        artist: "Artist".to_string(),
        genre: "Genre".to_string(),
        album_artist: "Album Artist".to_string(),
        disc_number: 2,
        duration: 215,
    };
    let c = t.clone();
    assert_eq!(c.name, t.name);
    assert_eq!(c.path, t.path);
    assert_eq!(c.cover, t.cover);
    assert_eq!(c.release, t.release);
    assert_eq!(c.track, t.track);
    assert_eq!(c.album, t.album);
    assert_eq!(c.artist, t.artist);
    assert_eq!(c.genre, t.genre);
    assert_eq!(c.album_artist, t.album_artist);
    assert_eq!(c.disc_number, t.disc_number);
    assert_eq!(c.duration, t.duration);
}

#[test]
fn upload_row_defaults_to_untagged() {
    let row = SongTableUpload::default();
    assert!(row.name.is_none());
    assert_eq!(row.path, "");
    assert!(row.track.is_none());
    assert_eq!(row.duration, "");
}

#[test]
fn event_payload_carries_the_track() {
    let t = SongTable {
        path: "/music/current.mp3".to_string(),
        ..Default::default()
    };
    let event = GetCurrentSong { q: t };
    assert_eq!(event.q.path, "/music/current.mp3");
}
