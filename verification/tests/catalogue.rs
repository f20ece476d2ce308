use shork::config::Config;
use shork::error::AudioError;
use shork::jellyfin::{Album, AlbumListing, ArtistAlbums, Client, Item, Track};

fn config() -> Config {
    Config {
        server: "http://music.example:8096".to_string(),
        token: "abc123".to_string(),
        folder: "".to_string(),
    }
}

fn item(artist: Option<&str>, name: &str, id: &str) -> Item {
    Item { album_artist: artist.map(|a| a.to_string()), name: name.to_string(), id: id.to_string() }
}

#[test]
fn auth_wraps_the_token() {
    assert_eq!(config().auth(), "MediaBrowser Token=\"abc123\"");
}

#[test]
fn auth_of_an_empty_token() {
    assert_eq!(Config::default().auth(), "MediaBrowser Token=\"\"");
}

#[test]
fn default_config_is_empty_and_incomplete() {
    let config = Config::default();
    assert_eq!(config.server, "");
    assert_eq!(config.token, "");
    assert_eq!(config.folder, "");
    assert!(config.is_incomplete());
}

#[test]
fn config_is_incomplete_without_server_or_token() {
    let mut no_server = config();
    no_server.server = String::new();
    assert!(no_server.is_incomplete());
    let mut no_token = config();
    no_token.token = String::new();
    assert!(no_token.is_incomplete());
    assert!(!config().is_incomplete());
}

#[test]
fn config_clone_keeps_the_fields() {
    let copy = config().clone();
    assert_eq!(copy.server, "http://music.example:8096");
    assert_eq!(copy.token, "abc123");
    assert_eq!(copy.folder, "");
}

#[test]
fn error_messages_name_the_kind_and_the_reason() {
    assert_eq!(
        AudioError::NetworkError("timed out".to_string()).message(),
        "network error: timed out"
    );
    assert_eq!(AudioError::DecodeError("bad frame".to_string()).message(), "decode error: bad frame");
    assert_eq!(AudioError::DeviceError("unplugged".to_string()).message(), "device error: unplugged");
    assert_eq!(AudioError::EmptyQueue.message(), "the queue is empty");
}

#[test]
fn error_clone_is_equal() {
    let reason = AudioError::DecodeError("bad frame".to_string());
    assert_eq!(reason.clone(), reason);
    assert_eq!(AudioError::EmptyQueue.clone(), AudioError::EmptyQueue);
}

#[test]
fn track_new_takes_name_and_id_from_the_item() {
    let track = Track::new(&item(None, "Intro", "t1"), "http://s/Audio/t1/stream".to_string());
    assert_eq!(track.name, "Intro");
    assert_eq!(track.id, "t1");
    assert_eq!(track.stream_url, "http://s/Audio/t1/stream");
}

#[test]
fn tracks_are_equal_by_id() {
    let a = Track { name: "A".to_string(), id: "1".to_string(), stream_url: "u".to_string() };
    let renamed = Track { name: "B".to_string(), id: "1".to_string(), stream_url: "v".to_string() };
    let other = Track { name: "A".to_string(), id: "2".to_string(), stream_url: "u".to_string() };
    assert_eq!(a, renamed);
    assert_ne!(a, other);
}

#[test]
fn album_new_takes_the_fields_given() {
    let tracks = vec![
        Track::new(&item(None, "One", "t1"), "u1".to_string()),
        Track::new(&item(None, "Two", "t2"), "u2".to_string()),
    ];
    let album = Album::new("Artist", &item(Some("Ignored"), "Record", "a1"), tracks);
    assert_eq!(album.name, "Record");
    assert_eq!(album.id, "a1");
    assert_eq!(album.artist_name, "Artist");
    assert_eq!(album.tracks.len(), 2);
    assert_eq!(album.tracks[0].name, "One");
    assert_eq!(album.tracks[1].stream_url, "u2");
}

#[test]
fn album_clone_copies_the_tracks() {
    let album = Album::new(
        "Artist",
        &item(None, "Record", "a1"),
        vec![Track::new(&item(None, "One", "t1"), "u1".to_string())],
    );
    let copy = album.clone();
    assert_eq!(copy, album);
    assert_eq!(copy.tracks[0].name, "One");
    assert_eq!(copy.tracks[0].stream_url, "u1");
}

#[test]
fn client_addresses() {
    let client = Client::new(config());
    assert_eq!(client.auth(), "MediaBrowser Token=\"abc123\"");
    assert_eq!(
        client.stream_url(&item(None, "One", "t1")),
        "http://music.example:8096/Audio/t1/stream"
    );
    assert_eq!(
        client.albums_endpoint(),
        "http://music.example:8096/Items?recursive=true&sortOrder=Ascending&includeItemTypes=MusicAlbum"
    );
    assert_eq!(
        client.playlist_endpoint(&item(None, "Record", "a1")),
        "http://music.example:8096/Items?parentId=a1&includeItemTypes=Audio"
    );
}

#[test]
fn album_playlist_makes_one_track_per_item() {
    let client = Client::new(config());
    let tracks = client.album_playlist(&vec![item(None, "One", "t1"), item(None, "Two", "t2")]);
    assert_eq!(tracks.len(), 2);
    assert_eq!(tracks[0].name, "One");
    assert_eq!(tracks[0].id, "t1");
    assert_eq!(tracks[0].stream_url, "http://music.example:8096/Audio/t1/stream");
    assert_eq!(tracks[1].name, "Two");
    assert_eq!(tracks[1].stream_url, "http://music.example:8096/Audio/t2/stream");
}

#[test]
fn album_playlist_of_nothing_is_empty() {
    let client = Client::new(config());
    assert!(client.album_playlist(&Vec::new()).is_empty());
}

#[test]
fn artist_name_defaults_to_unknown() {
    assert_eq!(Client::artist_name(&item(Some("Nina"), "Record", "a1")), "Nina");
    assert_eq!(Client::artist_name(&item(None, "Record", "a1")), "unknown");
}

fn names(group: &ArtistAlbums) -> Vec<String> {
    let mut out = Vec::new();
    for album in &group.albums {
        out.push(album.name.clone());
    }
    out
}

#[test]
fn artist_albums_groups_in_order_of_first_appearance() {
    let client = Client::new(config());
    let listings = vec![
        AlbumListing { album: item(Some("Nina"), "First", "a1"), tracks: vec![item(None, "One", "t1")] },
        AlbumListing { album: item(None, "Loose", "a2"), tracks: Vec::new() },
        AlbumListing { album: item(Some("Miles"), "Blue", "a3"), tracks: Vec::new() },
        AlbumListing { album: item(Some("Nina"), "Second", "a4"), tracks: Vec::new() },
        AlbumListing { album: item(None, "Looser", "a5"), tracks: Vec::new() },
    ];
    let groups = client.artist_albums(&listings);
    assert_eq!(groups.len(), 3);
    assert_eq!(groups[0].artist, "Nina");
    assert_eq!(names(&groups[0]), vec!["First".to_string(), "Second".to_string()]);
    assert_eq!(groups[1].artist, "unknown");
    assert_eq!(names(&groups[1]), vec!["Loose".to_string(), "Looser".to_string()]);
    assert_eq!(groups[2].artist, "Miles");
    assert_eq!(names(&groups[2]), vec!["Blue".to_string()]);
    assert_eq!(groups[0].albums[0].artist_name, "Nina");
    assert_eq!(groups[0].albums[0].id, "a1");
    assert_eq!(groups[0].albums[0].tracks.len(), 1);
    assert_eq!(
        groups[0].albums[0].tracks[0].stream_url,
        "http://music.example:8096/Audio/t1/stream"
    );
    assert_eq!(groups[1].albums[0].artist_name, "unknown");
}

#[test]
fn artist_albums_of_nothing_is_empty() {
    let client = Client::new(config());
    assert!(client.artist_albums(&Vec::new()).is_empty());
}

#[test]
fn item_clone_keeps_the_fields() {
    let copy = item(Some("Nina"), "First", "a1").clone();
    assert_eq!(copy.album_artist, Some("Nina".to_string()));
    assert_eq!(copy.name, "First");
    assert_eq!(copy.id, "a1");
}
