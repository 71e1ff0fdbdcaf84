//! The player's state: the playback on the device and the browsing context.
use vstd::prelude::*;
use rspotify_model::Id;
use crate::model::{Context, ContextId, Track};

verus! {

/// The kind of a Spotify object.
#[derive(Clone, Copy, Debug, PartialEq, Eq, Structural)]
pub enum ObjectType {
    Artist,
    Album,
    Track,
    Playlist,
    User,
    Show,
    Episode,
    Collection,
    Other,
}

/// The context that a playback plays from: its URI and its kind.
pub struct PlaybackContext {
    pub uri: String,
    pub kind: ObjectType,
}

/// Whether and how the playback repeats.
#[derive(Clone, Copy, Debug, PartialEq, Eq, Structural)]
pub enum RepeatState {
    Off,
    Track,
    Context,
}

/// What is being played.
pub enum PlayingItem {
    Track(Track),
    /// An episode, by its id.
    Episode(String),
}

/// The playback on the device, as last reported by the backend.
pub struct CurrentPlayback {
    pub device_name: String,
    pub device_id: Option<String>,
    pub volume_percent: Option<u32>,
    pub is_playing: bool,
    /// How far into the item the playback was, in milliseconds.
    pub progress_ms: Option<u64>,
    pub repeat_state: RepeatState,
    pub shuffle_state: bool,
    pub context: Option<PlaybackContext>,
    pub item: Option<PlayingItem>,
}

/// Playback settings changed by the user and not yet confirmed by the backend.
pub struct PlaybackMetadata {
    pub device_name: String,
    pub device_id: Option<String>,
    pub volume: Option<u32>,
    pub is_playing: bool,
    pub repeat_state: RepeatState,
    pub shuffle_state: bool,
}

/// A device that can play.
pub struct Device {
    pub id: Option<String>,
    pub name: String,
    pub is_active: bool,
    pub volume_percent: Option<u32>,
}

/// The user's playback queue.
pub struct Queue {
    pub currently_playing: Option<PlayingItem>,
    pub queue: Vec<PlayingItem>,
}

/// The state of the player.
pub struct PlayerState {
    pub devices: Vec<Device>,
    pub playback: Option<CurrentPlayback>,
    pub buffered_playback: Option<PlaybackMetadata>,
    pub queue: Option<Queue>,
    /// The id of the loaded browsing context.
    pub context_id: Option<ContextId>,
    /// The loaded browsing context.
    pub context: Option<Context>,
}

/// An ASCII letter or digit.
pub open spec fn is_id_char(c: char) -> bool {
    (48 <= c as u32 <= 57) || (65 <= c as u32 <= 90) || (97 <= c as u32 <= 122)
}

/// The id in a URI of the form `spotify{sep}{kind}{sep}{id}`, where the
/// separator is `:` or `/` and the id is made of ASCII letters and digits.
pub open spec fn id_in_uri(uri: Seq<char>, kind: Seq<char>) -> Option<Seq<char>> {
    let k = kind.len() as int;
    if uri.len() >= 9 + k && uri.take(7) == seq!['s', 'p', 'o', 't', 'i', 'f', 'y'] && (uri[7]
        == ':' || uri[7] == '/') && uri.subrange(8, 8 + k) == kind && uri[8 + k] == uri[7] && (
    forall|i: int| 9 + k <= i < uri.len() ==> is_id_char(#[trigger] uri[i])) {
        Some(uri.skip(9 + k))
    } else {
        None
    }
}

pub open spec fn playlist_id_in_uri(uri: Seq<char>) -> Option<Seq<char>> {
    id_in_uri(uri, seq!['p', 'l', 'a', 'y', 'l', 'i', 's', 't'])
}

pub open spec fn album_id_in_uri(uri: Seq<char>) -> Option<Seq<char>> {
    id_in_uri(uri, seq!['a', 'l', 'b', 'u', 'm'])
}

pub open spec fn artist_id_in_uri(uri: Seq<char>) -> Option<Seq<char>> {
    id_in_uri(uri, seq!['a', 'r', 't', 'i', 's', 't'])
}

pub open spec fn string_opt_view(s: Option<String>) -> Option<Seq<char>> {
    match s {
        Some(s) => Some(s@),
        None => None,
    }
}

/// Relies on `rspotify_model::PlaylistId::from_uri`: it strips `spotify`, takes
/// the next character as separator, splits the rest at the last separator, and
/// accepts where the type is `playlist` and the id all ASCII letters and digits.
#[verifier::external_body]
fn parse_playlist_uri(uri: &str) -> (r: Option<String>)
    ensures
        string_opt_view(r) == playlist_id_in_uri(uri@),
{
    match rspotify_model::PlaylistId::from_uri(uri) {
        Ok(id) => Some(id.id().to_string()),
        Err(_) => None,
    }
}

/// Relies on `rspotify_model::AlbumId::from_uri`, read as for playlists, with the
/// type `album`.
#[verifier::external_body]
fn parse_album_uri(uri: &str) -> (r: Option<String>)
    ensures
        string_opt_view(r) == album_id_in_uri(uri@),
{
    match rspotify_model::AlbumId::from_uri(uri) {
        Ok(id) => Some(id.id().to_string()),
        Err(_) => None,
    }
}

/// Relies on `rspotify_model::ArtistId::from_uri`, read as for playlists, with the
/// type `artist`.
#[verifier::external_body]
fn parse_artist_uri(uri: &str) -> (r: Option<String>)
    ensures
        string_opt_view(r) == artist_id_in_uri(uri@),
{
    match rspotify_model::ArtistId::from_uri(uri) {
        Ok(id) => Some(id.id().to_string()),
        Err(_) => None,
    }
}

/// The positions of the colons of `s`, in order.
pub open spec fn colon_positions(s: Seq<char>) -> Seq<int>
    decreases s.len(),
{
    if s.len() == 0 {
        Seq::empty()
    } else if s.last() == ':' {
        colon_positions(s.drop_last()).push(s.len() - 1)
    } else {
        colon_positions(s.drop_last())
    }
}

/// A URI of the form `spotify:user:{user_id}:{type}:{id}` (five parts between
/// colons) rewritten as `spotify:{type}:{id}`; any other URI as it is.
pub open spec fn shortened_uri(s: Seq<char>) -> Seq<char> {
    let c = colon_positions(s);
    if c.len() == 4 {
        s.take(c[0] + 1) + s.skip(c[2] + 1)
    } else {
        s
    }
}

proof fn lemma_colon_positions_bounded(s: Seq<char>)
    ensures
        forall|j: int| 0 <= j < colon_positions(s).len() ==> 0 <= #[trigger] colon_positions(s)[j] < s.len(),
        forall|j: int, l: int| 0 <= j < l < colon_positions(s).len() ==> colon_positions(s)[j] < colon_positions(s)[l],
    decreases s.len(),
{
    if s.len() > 0 {
        let t = s.drop_last();
        lemma_colon_positions_bounded(t);
        let c = colon_positions(t);
        if s.last() == ':' {
            let d = c.push(s.len() - 1);
            assert(colon_positions(s) == d);
            assert forall|j: int| 0 <= j < d.len() implies 0 <= #[trigger] d[j] < s.len() by {
                if j < c.len() {
                    assert(d[j] == c[j]);
                }
            }
            assert forall|j: int, l: int| 0 <= j < l < d.len() implies d[j] < d[l] by {
                assert(d[j] == c[j]);
                if l < c.len() {
                    assert(d[l] == c[l]);
                }
            }
        }
    }
}

/// Rewrites a URI that names a user before its type into the form
/// `spotify:{type}:{id}` that the id parsers read.
pub fn parse_uri(uri: &str) -> (r: String)
    ensures
        r@ == shortened_uri(uri@),
{
    let n = uri.unicode_len();
    let mut colons: Vec<usize> = Vec::new();
    let mut i: usize = 0;
    while i < n
        invariant
            n == uri@.len(),
            0 <= i <= n,
            colons@.len() == colon_positions(uri@.take(i as int)).len(),
            forall|j: int| 0 <= j < colons@.len() ==> colons@[j] as int == #[trigger] colon_positions(
                uri@.take(i as int),
            )[j],
        decreases n - i,
    {
        assert(uri@.take(i as int + 1).drop_last() =~= uri@.take(i as int));
        if uri.get_char(i) == ':' {
            colons.push(i);
        }
        i = i + 1;
    }
    assert(uri@.take(n as int) =~= uri@);
    proof {
        lemma_colon_positions_bounded(uri@);
    }
    if colons.len() == 4 {
        assert(colons@[0] as int == colon_positions(uri@)[0]);
        assert(colons@[2] as int == colon_positions(uri@)[2]);
        let head = uri.substring_char(0, colons[0] + 1);
        let tail = uri.substring_char(colons[2] + 1, n);
        let mut r = String::from_str(head);
        r.append(tail);
        r
    } else {
        String::from_str(uri)
    }
}

/// `c` is the context id of kind `kind` with id `id`.
pub open spec fn is_context_id(c: ContextId, kind: ObjectType, id: Seq<char>) -> bool {
    match c {
        ContextId::Playlist(s) => kind == ObjectType::Playlist && s@ == id,
        ContextId::Album(s) => kind == ObjectType::Album && s@ == id,
        ContextId::Artist(s) => kind == ObjectType::Artist && s@ == id,
    }
}

/// The kind and id of the context that the playback of `p` plays from, where its
/// URI, once shortened, reads as one of a playlist, an album or an artist.
pub open spec fn playing_context_spec(p: PlayerState) -> Option<(ObjectType, Seq<char>)> {
    match p.playback {
        Some(pb) => match pb.context {
            Some(ctx) => {
                let uri = shortened_uri(ctx.uri@);
                let id = match ctx.kind {
                    ObjectType::Playlist => playlist_id_in_uri(uri),
                    ObjectType::Album => album_id_in_uri(uri),
                    ObjectType::Artist => artist_id_in_uri(uri),
                    _ => None,
                };
                match id {
                    Some(id) => Some((ctx.kind, id)),
                    None => None,
                }
            },
            None => None,
        },
        None => None,
    }
}

/// Progress `p` advanced by `elapsed` milliseconds, capped at the largest `u64`.
pub open spec fn advanced(p: u64, elapsed: u64) -> u64 {
    if p + elapsed > u64::MAX {
        u64::MAX
    } else {
        (p + elapsed) as u64
    }
}

fn advance(p: u64, elapsed: u64) -> (r: u64)
    ensures
        r == advanced(p, elapsed),
{
    if p > u64::MAX - elapsed {
        u64::MAX
    } else {
        p + elapsed
    }
}

impl PlayingItem {
    pub fn copy(&self) -> (r: PlayingItem)
        ensures
            r == *self,
    {
        match self {
            PlayingItem::Track(t) => PlayingItem::Track(t.copy()),
            PlayingItem::Episode(id) => PlayingItem::Episode(id.clone()),
        }
    }
}

impl CurrentPlayback {
    pub fn copy(&self) -> (r: CurrentPlayback)
        ensures
            r == *self,
    {
        CurrentPlayback {
            device_name: self.device_name.clone(),
            device_id: match &self.device_id {
                Some(id) => Some(id.clone()),
                None => None,
            },
            volume_percent: self.volume_percent,
            is_playing: self.is_playing,
            progress_ms: self.progress_ms,
            repeat_state: self.repeat_state,
            shuffle_state: self.shuffle_state,
            context: match &self.context {
                Some(c) => Some(PlaybackContext { uri: c.uri.clone(), kind: c.kind }),
                None => None,
            },
            item: match &self.item {
                Some(item) => Some(item.copy()),
                None => None,
            },
        }
    }
}

impl PlayerState {
    /// The playback estimated `elapsed` milliseconds after it was last reported:
    /// its progress runs on while it plays, and the buffered settings, if any,
    /// replace the reported ones.
    pub open spec fn current_playback_spec(&self, elapsed: u64, r: CurrentPlayback) -> bool {
        let pb = self.playback.unwrap();
        &&& r.progress_ms == match pb.progress_ms {
            Some(p) => Some(
                if pb.is_playing {
                    advanced(p, elapsed)
                } else {
                    p
                },
            ),
            None => None,
        }
        &&& r.context == pb.context
        &&& r.item == pb.item
        &&& match self.buffered_playback {
            Some(b) => {
                &&& r.device_name == b.device_name
                &&& r.device_id == b.device_id
                &&& r.is_playing == b.is_playing
                &&& r.volume_percent == b.volume
                &&& r.repeat_state == b.repeat_state
                &&& r.shuffle_state == b.shuffle_state
            },
            None => {
                &&& r.device_name == pb.device_name
                &&& r.device_id == pb.device_id
                &&& r.is_playing == pb.is_playing
                &&& r.volume_percent == pb.volume_percent
                &&& r.repeat_state == pb.repeat_state
                &&& r.shuffle_state == pb.shuffle_state
            },
        }
    }

    /// Gets the current playback, `elapsed` milliseconds after it was last reported.
    pub fn current_playback(&self, elapsed: u64) -> (r: Option<CurrentPlayback>)
        ensures
            r.is_some() == self.playback.is_some(),
            r.is_some() ==> self.current_playback_spec(elapsed, r.unwrap()),
    {
        let mut playback = match &self.playback {
            Some(p) => p.copy(),
            None => {
                return None;
            },
        };
        playback.progress_ms = match playback.progress_ms {
            Some(p) => Some(
                if playback.is_playing {
                    advance(p, elapsed)
                } else {
                    p
                },
            ),
            None => None,
        };
        if let Some(b) = &self.buffered_playback {
            playback.device_name = b.device_name.clone();
            playback.device_id = match &b.device_id {
                Some(id) => Some(id.clone()),
                None => None,
            };
            playback.is_playing = b.is_playing;
            playback.volume_percent = b.volume;
            playback.repeat_state = b.repeat_state;
            playback.shuffle_state = b.shuffle_state;
        }
        Some(playback)
    }

    /// The track being played, if a track is.
    pub fn current_playing_track(&self) -> (r: Option<&Track>)
        ensures
            r == match self.playback {
                Some(pb) => match pb.item {
                    Some(PlayingItem::Track(t)) => Some(&t),
                    _ => None,
                },
                None => None,
            },
    {
        match &self.playback {
            None => None,
            Some(playback) => match &playback.item {
                Some(PlayingItem::Track(track)) => Some(track),
                _ => None,
            },
        }
    }

    /// The progress of the playback `elapsed` milliseconds after it was last
    /// reported; it runs on only while the playback plays.
    pub fn playback_progress(&self, elapsed: u64) -> (r: Option<u64>)
        ensures
            r == match self.playback {
                Some(pb) => match pb.progress_ms {
                    Some(p) => Some(
                        if pb.is_playing {
                            advanced(p, elapsed)
                        } else {
                            p
                        },
                    ),
                    None => None,
                },
                None => None,
            },
    {
        match &self.playback {
            None => None,
            Some(playback) => match playback.progress_ms {
                Some(p) => Some(
                    if playback.is_playing {
                        advance(p, elapsed)
                    } else {
                        p
                    },
                ),
                None => None,
            },
        }
    }

    /// The id of the context that the playback plays from, where it is a
    /// playlist, an album or an artist whose URI reads as such.
    pub fn playing_context_id(&self) -> (r: Option<ContextId>)
        ensures
            match playing_context_spec(*self) {
                Some((kind, id)) => r.is_some() && is_context_id(r.unwrap(), kind, id),
                None => r.is_none(),
            },
    {
        match &self.playback {
            Some(playback) => match &playback.context {
                Some(context) => {
                    let full = parse_uri(context.uri.as_str());
                    let uri = full.as_str();
                    match context.kind {
                        ObjectType::Playlist => match parse_playlist_uri(uri) {
                            Some(id) => Some(ContextId::Playlist(id)),
                            None => None,
                        },
                        ObjectType::Album => match parse_album_uri(uri) {
                            Some(id) => Some(ContextId::Album(id)),
                            None => None,
                        },
                        ObjectType::Artist => match parse_artist_uri(uri) {
                            Some(id) => Some(ContextId::Artist(id)),
                            None => None,
                        },
                        _ => None,
                    }
                },
                None => None,
            },
            None => None,
        }
    }
}

} // verus!
