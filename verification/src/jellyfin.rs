//! Catalogue records of the media server and how its answers become albums.

use vstd::prelude::*;
use vstd::string::*;
use crate::config::{Config, ConfigView, auth_text};

verus! {

/// One entry of a server listing: an album or a track.
#[derive(Debug)]
pub struct Item {
    pub album_artist: Option<String>,
    pub name: String,
    pub id: String,
}

/// Mathematical value of an [`Item`].
pub struct ItemView {
    pub album_artist: Option<Seq<char>>,
    pub name: Seq<char>,
    pub id: Seq<char>,
}

impl View for Item {
    type V = ItemView;

    open spec fn view(&self) -> ItemView {
        ItemView {
            album_artist: match self.album_artist {
                Some(artist) => Some(artist@),
                None => None,
            },
            name: self.name@,
            id: self.id@,
        }
    }
}

impl Clone for Item {
    fn clone(&self) -> (copy: Item)
        ensures
            copy@ == self@,
    {
        Item {
            album_artist: match &self.album_artist {
                Some(artist) => Some(artist.clone()),
                None => None,
            },
            name: self.name.clone(),
            id: self.id.clone(),
        }
    }
}

/// A playable track: its title, its identity on the server, and the address
/// its audio is streamed from.
#[derive(Debug)]
pub struct Track {
    pub name: String,
    pub id: String,
    pub stream_url: String,
}

/// Mathematical value of a [`Track`].
pub struct TrackView {
    pub name: Seq<char>,
    pub id: Seq<char>,
    pub stream_url: Seq<char>,
}

impl View for Track {
    type V = TrackView;

    open spec fn view(&self) -> TrackView {
        TrackView { name: self.name@, id: self.id@, stream_url: self.stream_url@ }
    }
}

/// The values of a sequence of tracks, in order.
pub open spec fn track_views(tracks: Seq<Track>) -> Seq<TrackView> {
    tracks.map_values(|track: Track| track@)
}

impl Clone for Track {
    fn clone(&self) -> (copy: Track)
        ensures
            copy == *self,
    {
        Track {
            name: self.name.clone(),
            id: self.id.clone(),
            stream_url: self.stream_url.clone(),
        }
    }
}

/// Two tracks are the same track when they carry the same identifier.
impl PartialEq for Track {
    fn eq(&self, other: &Track) -> (same: bool) {
        self.id == other.id
    }
}

impl vstd::std_specs::cmp::PartialEqSpecImpl for Track {
    open spec fn obeys_eq_spec() -> bool {
        true
    }

    open spec fn eq_spec(&self, other: &Track) -> bool {
        self.id@ == other.id@
    }
}

impl Track {
    /// The track that a listing entry describes, streamed from `stream_url`.
    pub fn new(item: &Item, stream_url: String) -> (track: Track)
        ensures
            track@ == (TrackView { name: item@.name, id: item@.id, stream_url: stream_url@ }),
    {
        Track { name: item.name.clone(), id: item.id.clone(), stream_url }
    }
}

/// An album with its tracks in playing order. The album owns its tracks.
#[derive(Debug, PartialEq)]
pub struct Album {
    pub name: String,
    pub id: String,
    pub artist_name: String,
    pub tracks: Vec<Track>,
}

/// Mathematical value of an [`Album`].
pub struct AlbumView {
    pub name: Seq<char>,
    pub id: Seq<char>,
    pub artist_name: Seq<char>,
    pub tracks: Seq<TrackView>,
}

impl View for Album {
    type V = AlbumView;

    open spec fn view(&self) -> AlbumView {
        AlbumView {
            name: self.name@,
            id: self.id@,
            artist_name: self.artist_name@,
            tracks: track_views(self.tracks@),
        }
    }
}

impl Clone for Album {
    fn clone(&self) -> (copy: Album)
        ensures
            copy@ == self@,
    {
        let tracks = self.tracks.clone();
        assert(tracks@ =~= self.tracks@);
        Album {
            name: self.name.clone(),
            id: self.id.clone(),
            artist_name: self.artist_name.clone(),
            tracks,
        }
    }
}

impl Album {
    /// The album that a listing entry describes, credited to `artist_name`
    /// and holding `tracks`.
    pub fn new(artist_name: &str, album: &Item, tracks: Vec<Track>) -> (made: Album)
        ensures
            made@ == (AlbumView {
                name: album@.name,
                id: album@.id,
                artist_name: artist_name@,
                tracks: track_views(tracks@),
            }),
    {
        Album {
            name: album.name.clone(),
            id: album.id.clone(),
            artist_name: String::from_str(artist_name),
            tracks,
        }
    }
}

/// The values of a sequence of listing entries, in order.
pub open spec fn item_views(items: Seq<Item>) -> Seq<ItemView> {
    items.map_values(|item: Item| item@)
}

/// The values of a sequence of albums, in order.
pub open spec fn album_views(albums: Seq<Album>) -> Seq<AlbumView> {
    albums.map_values(|album: Album| album@)
}

/// An album entry of the server's listing together with the entries of its
/// tracks, as fetched.
#[derive(Debug)]
pub struct AlbumListing {
    pub album: Item,
    pub tracks: Vec<Item>,
}

/// Mathematical value of an [`AlbumListing`].
pub struct AlbumListingView {
    pub album: ItemView,
    pub tracks: Seq<ItemView>,
}

impl View for AlbumListing {
    type V = AlbumListingView;

    open spec fn view(&self) -> AlbumListingView {
        AlbumListingView { album: self.album@, tracks: item_views(self.tracks@) }
    }
}

/// The values of a sequence of fetched albums, in order.
pub open spec fn listing_views(listings: Seq<AlbumListing>) -> Seq<AlbumListingView> {
    listings.map_values(|listing: AlbumListing| listing@)
}

/// The albums credited to one artist, in the order of the server's listing.
#[derive(Debug, PartialEq)]
pub struct ArtistAlbums {
    pub artist: String,
    pub albums: Vec<Album>,
}

/// Mathematical value of an [`ArtistAlbums`].
pub struct ArtistAlbumsView {
    pub artist: Seq<char>,
    pub albums: Seq<AlbumView>,
}

impl View for ArtistAlbums {
    type V = ArtistAlbumsView;

    open spec fn view(&self) -> ArtistAlbumsView {
        ArtistAlbumsView { artist: self.artist@, albums: album_views(self.albums@) }
    }
}

/// The values of a sequence of artists' albums, in order.
pub open spec fn group_views(groups: Seq<ArtistAlbums>) -> Seq<ArtistAlbumsView> {
    groups.map_values(|group: ArtistAlbums| group@)
}

/// The address a track is streamed from.
pub open spec fn stream_url_text(server: Seq<char>, id: Seq<char>) -> Seq<char> {
    server + "/Audio/"@ + id + "/stream"@
}

/// The address that lists every album of the server.
pub open spec fn albums_endpoint_text(server: Seq<char>) -> Seq<char> {
    server + "/Items?recursive=true&sortOrder=Ascending&includeItemTypes=MusicAlbum"@
}

/// The address that lists the tracks of one album.
pub open spec fn playlist_endpoint_text(server: Seq<char>, album_id: Seq<char>) -> Seq<char> {
    server + "/Items?parentId="@ + album_id + "&includeItemTypes=Audio"@
}

/// The artist that an album entry is credited to; `unknown` when the server
/// names none.
pub open spec fn artist_of(item: ItemView) -> Seq<char> {
    match item.album_artist {
        Some(artist) => artist,
        None => "unknown"@,
    }
}

/// The track that a listing entry describes on the server at `server`.
pub open spec fn track_of(server: Seq<char>, item: ItemView) -> TrackView {
    TrackView { name: item.name, id: item.id, stream_url: stream_url_text(server, item.id) }
}

/// The tracks that the entries of a listing describe, in order.
pub open spec fn playlist_of(server: Seq<char>, items: Seq<ItemView>) -> Seq<TrackView> {
    items.map_values(|item: ItemView| track_of(server, item))
}

/// The album that a fetched album describes.
pub open spec fn album_of(server: Seq<char>, listing: AlbumListingView) -> AlbumView {
    AlbumView {
        name: listing.album.name,
        id: listing.album.id,
        artist_name: artist_of(listing.album),
        tracks: playlist_of(server, listing.tracks),
    }
}

/// The albums that fetched albums describe, in order.
pub open spec fn albums_of(server: Seq<char>, listings: Seq<AlbumListingView>) -> Seq<AlbumView> {
    listings.map_values(|listing: AlbumListingView| album_of(server, listing))
}

/// The albums credited to `artist`, in the order they have in `albums`.
pub open spec fn credited_to(albums: Seq<AlbumView>, artist: Seq<char>) -> Seq<AlbumView> {
    albums.filter(|album: AlbumView| album.artist_name == artist)
}

/// The artists of `albums`, each once, in the order of their first album.
pub open spec fn artists_of(albums: Seq<AlbumView>) -> Seq<Seq<char>>
    decreases albums.len(),
{
    if albums.len() == 0 {
        Seq::empty()
    } else {
        let earlier = artists_of(albums.drop_last());
        let artist = albums.last().artist_name;
        if earlier.contains(artist) {
            earlier
        } else {
            earlier.push(artist)
        }
    }
}

/// The albums grouped by artist: the artists in the order of their first
/// album, each with all the albums credited to it, in listing order.
pub open spec fn grouped(albums: Seq<AlbumView>) -> Seq<ArtistAlbumsView> {
    artists_of(albums).map_values(
        |artist: Seq<char>| ArtistAlbumsView { artist, albums: credited_to(albums, artist) },
    )
}

/// No artist occurs twice among the artists of `albums`, and the artist of
/// each album is among them.
pub proof fn lemma_artists_of(albums: Seq<AlbumView>)
    ensures
        artists_of(albums).no_duplicates(),
        forall|i: int|
            0 <= i < albums.len() ==> artists_of(albums).contains(
                (#[trigger] albums[i]).artist_name,
            ),
        forall|k: int|
            0 <= k < artists_of(albums).len() ==> exists|i: int|
                0 <= i < albums.len() && albums[i].artist_name == #[trigger] artists_of(albums)[k],
    decreases albums.len(),
{
    if albums.len() > 0 {
        let before = albums.drop_last();
        let earlier = artists_of(before);
        let artist = albums.last().artist_name;
        let all = artists_of(albums);
        lemma_artists_of(before);
        assert forall|i: int| 0 <= i < albums.len() implies all.contains(
            (#[trigger] albums[i]).artist_name,
        ) by {
            if i < before.len() {
                assert(before[i] == albums[i]);
                let k = choose|k: int| 0 <= k < earlier.len() && earlier[k] == before[i].artist_name;
                assert(all[k] == albums[i].artist_name);
            } else {
                if earlier.contains(artist) {
                } else {
                    assert(all[all.len() - 1] == artist);
                }
            }
        }
        assert forall|k: int| 0 <= k < all.len() implies exists|i: int|
            0 <= i < albums.len() && albums[i].artist_name == #[trigger] all[k] by {
            if k < earlier.len() {
                assert(all[k] == earlier[k]);
                let i = choose|i: int| 0 <= i < before.len() && before[i].artist_name == earlier[k];
                assert(albums[i] == before[i]);
            } else {
                assert(albums[albums.len() - 1].artist_name == all[k]);
            }
        }
    }
}

/// One more album at the end of the listing joins the albums of its own
/// artist, at their end, and those of no other artist.
pub proof fn lemma_credited_one_more(albums: Seq<AlbumView>, album: AlbumView, artist: Seq<char>)
    ensures
        credited_to(albums.push(album), artist) == if album.artist_name == artist {
            credited_to(albums, artist).push(album)
        } else {
            credited_to(albums, artist)
        },
{
    reveal(Seq::filter);
    assert(albums.push(album).drop_last() =~= albums);
}

/// No album is credited to an artist that is not among the artists.
pub proof fn lemma_credited_to_stranger(albums: Seq<AlbumView>, artist: Seq<char>)
    requires
        !artists_of(albums).contains(artist),
    ensures
        credited_to(albums, artist) == Seq::<AlbumView>::empty(),
    decreases albums.len(),
{
    reveal(Seq::filter);
    if albums.len() > 0 {
        let before = albums.drop_last();
        let earlier = artists_of(before);
        if earlier.contains(albums.last().artist_name) {
        } else {
            let all = artists_of(albums);
            assert(all[all.len() - 1] == albums.last().artist_name);
            assert forall|k: int| 0 <= k < earlier.len() implies earlier[k] != artist by {
                assert(all[k] == earlier[k]);
            }
        }
        assert(!earlier.contains(artist));
        lemma_credited_to_stranger(before, artist);
        lemma_artists_of(albums);
    }
}

/// The position of the first group of `artist`, if there is one.
fn find_artist(groups: &Vec<ArtistAlbums>, artist: &String) -> (place: Option<usize>)
    ensures
        match place {
            Some(k) => k < groups@.len() && groups@[k as int]@.artist == artist@,
            None => forall|j: int| 0 <= j < groups@.len() ==> (#[trigger] groups@[j])@.artist
                != artist@,
        },
{
    let mut k: usize = 0;
    while k < groups.len()
        invariant
            k <= groups@.len(),
            forall|j: int| 0 <= j < k ==> (#[trigger] groups@[j])@.artist != artist@,
        decreases groups@.len() - k,
    {
        if groups[k].artist == *artist {
            return Some(k);
        }
        k += 1;
    }
    None
}

/// The client of the media server's catalogue: it knows the addresses to
/// ask and how the answers become tracks and albums.
pub struct Client {
    config: Config,
}

impl View for Client {
    type V = ConfigView;

    closed spec fn view(&self) -> ConfigView {
        self.config@
    }
}

impl Client {
    /// A client for the server that `config` names.
    pub fn new(config: Config) -> (client: Client)
        ensures
            client@ == config@,
    {
        Client { config }
    }

    /// The value of the `Authorization` header of every request.
    pub fn auth(&self) -> (header: String)
        ensures
            header@ == auth_text(self@.token),
    {
        self.config.auth()
    }

    /// The address that `item` is streamed from.
    pub fn stream_url(&self, item: &Item) -> (url: String)
        ensures
            url@ == stream_url_text(self@.server, item@.id),
    {
        let mut url = self.config.server.clone();
        url.append("/Audio/");
        url.append(item.id.as_str());
        url.append("/stream");
        url
    }

    /// The address that lists every album of the server.
    pub fn albums_endpoint(&self) -> (url: String)
        ensures
            url@ == albums_endpoint_text(self@.server),
    {
        let mut url = self.config.server.clone();
        url.append("/Items?recursive=true&sortOrder=Ascending&includeItemTypes=MusicAlbum");
        url
    }

    /// The address that lists the tracks of `album`.
    pub fn playlist_endpoint(&self, album: &Item) -> (url: String)
        ensures
            url@ == playlist_endpoint_text(self@.server, album@.id),
    {
        let mut url = self.config.server.clone();
        url.append("/Items?parentId=");
        url.append(album.id.as_str());
        url.append("&includeItemTypes=Audio");
        url
    }

    /// The tracks of an album, from the entries the server listed for it:
    /// one track for each entry, in order, each with its stream address.
    pub fn album_playlist(&self, items: &Vec<Item>) -> (tracks: Vec<Track>)
        ensures
            track_views(tracks@) == playlist_of(self@.server, item_views(items@)),
    {
        let mut tracks: Vec<Track> = Vec::new();
        let mut i: usize = 0;
        while i < items.len()
            invariant
                i <= items@.len(),
                tracks@.len() == i,
                forall|j: int|
                    0 <= j < i ==> (#[trigger] tracks@[j])@ == track_of(self@.server, items@[j]@),
            decreases items@.len() - i,
        {
            let item = &items[i];
            tracks.push(Track::new(item, self.stream_url(item)));
            i += 1;
        }
        assert(track_views(tracks@) =~= playlist_of(self@.server, item_views(items@)));
        tracks
    }

    /// The name of the artist that `album` is credited to.
    pub fn artist_name(album: &Item) -> (artist: String)
        ensures
            artist@ == artist_of(album@),
    {
        match &album.album_artist {
            Some(artist) => artist.clone(),
            None => String::from_str("unknown"),
        }
    }

    /// The server's albums by artist, from the albums as fetched: the
    /// artists in the order of their first album, each with the albums
    /// credited to it, in listing order.
    pub fn artist_albums(&self, listings: &Vec<AlbumListing>) -> (groups: Vec<ArtistAlbums>)
        ensures
            group_views(groups@) == grouped(albums_of(self@.server, listing_views(listings@))),
    {
        let ghost all = albums_of(self@.server, listing_views(listings@));
        let mut groups: Vec<ArtistAlbums> = Vec::new();
        let mut i: usize = 0;
        assert(all.take(0) =~= Seq::empty());
        assert(group_views(groups@) =~= grouped(all.take(0)));
        while i < listings.len()
            invariant
                i <= listings@.len(),
                all == albums_of(self@.server, listing_views(listings@)),
                all.len() == listings@.len(),
                group_views(groups@) == grouped(all.take(i as int)),
            decreases listings@.len() - i,
        {
            let listing = &listings[i];
            let artist = Client::artist_name(&listing.album);
            let album = Album::new(
                artist.as_str(),
                &listing.album,
                self.album_playlist(&listing.tracks),
            );
            let ghost before = all.take(i as int);
            let ghost after = all.take(i + 1);
            let ghost old_groups = group_views(groups@);
            proof {
                assert(album@ == all[i as int]);
                assert(after =~= before.push(album@));
                assert(after.drop_last() =~= before);
                lemma_artists_of(before);
                assert(old_groups.len() == artists_of(before).len());
            }
            let place = find_artist(&groups, &artist);
            proof {
                assert forall|j: int| 0 <= j < groups@.len() implies (#[trigger] groups@[j])@.artist
                    == artists_of(before)[j] by {
                    assert(group_views(groups@)[j] == groups@[j]@);
                }
            }
            let ghost prior = groups@;
            if let Some(k) = place {
                groups[k].albums.push(album);
                proof {
                    let artists = artists_of(before);
                    assert(groups@.len() == prior.len());
                    assert(groups@[k as int].artist == prior[k as int].artist);
                    assert(groups@[k as int].albums@ == prior[k as int].albums@.push(album));
                    assert(forall|j: int|
                        0 <= j < prior.len() && j != k ==> groups@[j] == #[trigger] prior[j]);
                    assert(artists[k as int] == artist@);
                    assert(artists.contains(artist@));
                    assert(artists_of(after) == artists);
                    assert forall|j: int| 0 <= j < artists.len() implies (
                    #[trigger] group_views(groups@)[j]) == grouped(after)[j] by {
                        lemma_credited_one_more(before, album@, artists[j]);
                        assert(old_groups[j] == prior[j]@);
                        if j == k {
                            assert(album_views(prior[j].albums@) == credited_to(
                                before,
                                artists[j],
                            ));
                            assert(album_views(groups@[j].albums@) =~= album_views(
                                prior[j].albums@,
                            ).push(album@));
                        } else {
                            assert(artists[j] != artists[k as int]);
                            assert(groups@[j] == prior[j]);
                        }
                    }
                    assert(group_views(groups@) =~= grouped(after));
                }
            } else {
                let mut albums: Vec<Album> = Vec::new();
                albums.push(album);
                groups.push(ArtistAlbums { artist, albums });
                proof {
                    let artists = artists_of(before);
                    assert(groups@ == prior.push(ArtistAlbums { artist, albums }));
                    assert forall|j: int| 0 <= j < artists.len() implies artists[j] != artist@ by {
                        assert(prior[j]@.artist == artists[j]);
                    }
                    assert(!artists.contains(artist@));
                    assert(artists_of(after) == artists.push(artist@));
                    lemma_credited_to_stranger(before, artist@);
                    assert forall|j: int| 0 <= j < artists.len() + 1 implies (
                    #[trigger] group_views(groups@)[j]) == grouped(after)[j] by {
                        lemma_credited_one_more(before, album@, artists_of(after)[j]);
                        if j < artists.len() {
                            assert(groups@[j] == prior[j]);
                            assert(old_groups[j] == prior[j]@);
                        } else {
                            assert(album_views(groups@[j].albums@) =~= Seq::<
                                AlbumView,
                            >::empty().push(album@));
                        }
                    }
                    assert(group_views(groups@) =~= grouped(after));
                }
            }
            i += 1;
        }
        assert(all.take(i as int) =~= all);
        groups
    }
}

} // verus!
