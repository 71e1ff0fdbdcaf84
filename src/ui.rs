//! Window, page and popup state, and the requests sent to the playback backend.
use vstd::prelude::*;
use crate::model::{ContextId, Entry, Track};

verus! {

/// The focused subwindow of an artist window.
#[derive(Clone, Copy, Debug, PartialEq, Eq, Structural)]
pub enum ArtistFocusState {
    Albums,
    RelatedArtists,
    TopTracks,
}

/// The focused subwindow of a search window.
#[derive(Clone, Copy, Debug, PartialEq, Eq, Structural)]
pub enum SearchFocusState {
    Input,
    Tracks,
    Artists,
    Albums,
    Playlists,
}

/// The top-level window on display, with the selection of each of its subwindows.
#[derive(Clone, Copy, Debug, PartialEq, Eq, Structural)]
pub enum WindowState {
    Unknown,
    Playlist { track_table: usize },
    Album { track_table: usize },
    Artist { top_tracks: usize, albums: usize, related_artists: usize, focus: ArtistFocusState },
    Recommendations { track_table: usize },
    Search {
        tracks: usize,
        artists: usize,
        albums: usize,
        playlists: usize,
        focus: SearchFocusState,
    },
}

pub open spec fn artist_focus_after(f: ArtistFocusState) -> ArtistFocusState {
    match f {
        ArtistFocusState::TopTracks => ArtistFocusState::Albums,
        ArtistFocusState::Albums => ArtistFocusState::RelatedArtists,
        ArtistFocusState::RelatedArtists => ArtistFocusState::TopTracks,
    }
}

pub open spec fn artist_focus_before(f: ArtistFocusState) -> ArtistFocusState {
    match f {
        ArtistFocusState::TopTracks => ArtistFocusState::RelatedArtists,
        ArtistFocusState::Albums => ArtistFocusState::TopTracks,
        ArtistFocusState::RelatedArtists => ArtistFocusState::Albums,
    }
}

pub open spec fn search_focus_after(f: SearchFocusState) -> SearchFocusState {
    match f {
        SearchFocusState::Input => SearchFocusState::Tracks,
        SearchFocusState::Tracks => SearchFocusState::Artists,
        SearchFocusState::Artists => SearchFocusState::Albums,
        SearchFocusState::Albums => SearchFocusState::Playlists,
        SearchFocusState::Playlists => SearchFocusState::Input,
    }
}

pub open spec fn search_focus_before(f: SearchFocusState) -> SearchFocusState {
    match f {
        SearchFocusState::Input => SearchFocusState::Playlists,
        SearchFocusState::Tracks => SearchFocusState::Input,
        SearchFocusState::Artists => SearchFocusState::Tracks,
        SearchFocusState::Albums => SearchFocusState::Artists,
        SearchFocusState::Playlists => SearchFocusState::Albums,
    }
}

impl WindowState {
    /// The selection of the focused subwindow; none where no list has the focus.
    pub open spec fn selected_spec(self) -> Option<usize> {
        match self {
            WindowState::Unknown => None,
            WindowState::Playlist { track_table } => Some(track_table),
            WindowState::Album { track_table } => Some(track_table),
            WindowState::Recommendations { track_table } => Some(track_table),
            WindowState::Artist { top_tracks, albums, related_artists, focus } => match focus {
                ArtistFocusState::TopTracks => Some(top_tracks),
                ArtistFocusState::Albums => Some(albums),
                ArtistFocusState::RelatedArtists => Some(related_artists),
            },
            WindowState::Search { tracks, artists, albums, playlists, focus } => match focus {
                SearchFocusState::Input => None,
                SearchFocusState::Tracks => Some(tracks),
                SearchFocusState::Artists => Some(artists),
                SearchFocusState::Albums => Some(albums),
                SearchFocusState::Playlists => Some(playlists),
            },
        }
    }

    /// The window with the focused subwindow's selection set to `i`.
    pub open spec fn with_selected(self, i: usize) -> WindowState {
        match self {
            WindowState::Unknown => self,
            WindowState::Playlist { .. } => WindowState::Playlist { track_table: i },
            WindowState::Album { .. } => WindowState::Album { track_table: i },
            WindowState::Recommendations { .. } => WindowState::Recommendations { track_table: i },
            WindowState::Artist { top_tracks, albums, related_artists, focus } => match focus {
                ArtistFocusState::TopTracks => WindowState::Artist { top_tracks: i, albums, related_artists, focus },
                ArtistFocusState::Albums => WindowState::Artist { top_tracks, albums: i, related_artists, focus },
                ArtistFocusState::RelatedArtists => WindowState::Artist { top_tracks, albums, related_artists: i, focus },
            },
            WindowState::Search { tracks, artists, albums, playlists, focus } => match focus {
                SearchFocusState::Input => self,
                SearchFocusState::Tracks => WindowState::Search { tracks: i, artists, albums, playlists, focus },
                SearchFocusState::Artists => WindowState::Search { tracks, artists: i, albums, playlists, focus },
                SearchFocusState::Albums => WindowState::Search { tracks, artists, albums: i, playlists, focus },
                SearchFocusState::Playlists => WindowState::Search { tracks, artists, albums, playlists: i, focus },
            },
        }
    }

    /// The window with the focus moved forward (`forward`) or back by one subwindow.
    pub open spec fn with_focus_moved(self, forward: bool) -> WindowState {
        match self {
            WindowState::Artist { top_tracks, albums, related_artists, focus } => WindowState::Artist {
                top_tracks,
                albums,
                related_artists,
                focus: if forward { artist_focus_after(focus) } else { artist_focus_before(focus) },
            },
            WindowState::Search { tracks, artists, albums, playlists, focus } => WindowState::Search {
                tracks,
                artists,
                albums,
                playlists,
                focus: if forward { search_focus_after(focus) } else { search_focus_before(focus) },
            },
            _ => self,
        }
    }

    pub fn selected(&self) -> (r: Option<usize>)
        ensures
            r == self.selected_spec(),
    {
        match *self {
            WindowState::Unknown => None,
            WindowState::Playlist { track_table } => Some(track_table),
            WindowState::Album { track_table } => Some(track_table),
            WindowState::Recommendations { track_table } => Some(track_table),
            WindowState::Artist { top_tracks, albums, related_artists, focus } => match focus {
                ArtistFocusState::TopTracks => Some(top_tracks),
                ArtistFocusState::Albums => Some(albums),
                ArtistFocusState::RelatedArtists => Some(related_artists),
            },
            WindowState::Search { tracks, artists, albums, playlists, focus } => match focus {
                SearchFocusState::Input => None,
                SearchFocusState::Tracks => Some(tracks),
                SearchFocusState::Artists => Some(artists),
                SearchFocusState::Albums => Some(albums),
                SearchFocusState::Playlists => Some(playlists),
            },
        }
    }

    pub fn select(&mut self, i: usize)
        ensures
            *final(self) == old(self).with_selected(i),
    {
        *self = match *self {
            WindowState::Unknown => WindowState::Unknown,
            WindowState::Playlist { .. } => WindowState::Playlist { track_table: i },
            WindowState::Album { .. } => WindowState::Album { track_table: i },
            WindowState::Recommendations { .. } => WindowState::Recommendations { track_table: i },
            WindowState::Artist { top_tracks, albums, related_artists, focus } => match focus {
                ArtistFocusState::TopTracks => WindowState::Artist { top_tracks: i, albums, related_artists, focus },
                ArtistFocusState::Albums => WindowState::Artist { top_tracks, albums: i, related_artists, focus },
                ArtistFocusState::RelatedArtists => WindowState::Artist { top_tracks, albums, related_artists: i, focus },
            },
            WindowState::Search { tracks, artists, albums, playlists, focus } => match focus {
                SearchFocusState::Input => *self,
                SearchFocusState::Tracks => WindowState::Search { tracks: i, artists, albums, playlists, focus },
                SearchFocusState::Artists => WindowState::Search { tracks, artists: i, albums, playlists, focus },
                SearchFocusState::Albums => WindowState::Search { tracks, artists, albums: i, playlists, focus },
                SearchFocusState::Playlists => WindowState::Search { tracks, artists, albums, playlists: i, focus },
            },
        };
    }

    /// Moves the focus to the next subwindow.
    pub fn next(&mut self)
        ensures
            *final(self) == old(self).with_focus_moved(true),
    {
        self.move_focus(true);
    }

    /// Moves the focus to the previous subwindow.
    pub fn previous(&mut self)
        ensures
            *final(self) == old(self).with_focus_moved(false),
    {
        self.move_focus(false);
    }

    fn move_focus(&mut self, forward: bool)
        ensures
            *final(self) == old(self).with_focus_moved(forward),
    {
        *self = match *self {
            WindowState::Artist { top_tracks, albums, related_artists, focus } => {
                let focus = match (focus, forward) {
                    (ArtistFocusState::TopTracks, true) => ArtistFocusState::Albums,
                    (ArtistFocusState::Albums, true) => ArtistFocusState::RelatedArtists,
                    (ArtistFocusState::RelatedArtists, true) => ArtistFocusState::TopTracks,
                    (ArtistFocusState::TopTracks, false) => ArtistFocusState::RelatedArtists,
                    (ArtistFocusState::Albums, false) => ArtistFocusState::TopTracks,
                    (ArtistFocusState::RelatedArtists, false) => ArtistFocusState::Albums,
                };
                WindowState::Artist { top_tracks, albums, related_artists, focus }
            },
            WindowState::Search { tracks, artists, albums, playlists, focus } => {
                let focus = match (focus, forward) {
                    (SearchFocusState::Input, true) => SearchFocusState::Tracks,
                    (SearchFocusState::Tracks, true) => SearchFocusState::Artists,
                    (SearchFocusState::Artists, true) => SearchFocusState::Albums,
                    (SearchFocusState::Albums, true) => SearchFocusState::Playlists,
                    (SearchFocusState::Playlists, true) => SearchFocusState::Input,
                    (SearchFocusState::Input, false) => SearchFocusState::Playlists,
                    (SearchFocusState::Tracks, false) => SearchFocusState::Input,
                    (SearchFocusState::Artists, false) => SearchFocusState::Tracks,
                    (SearchFocusState::Albums, false) => SearchFocusState::Artists,
                    (SearchFocusState::Playlists, false) => SearchFocusState::Albums,
                };
                WindowState::Search { tracks, artists, albums, playlists, focus }
            },
            other => other,
        };
    }
}

/// Results of a search, each list in the order the backend gave it.
pub struct SearchResults {
    pub tracks: Vec<Track>,
    pub artists: Vec<Entry>,
    pub albums: Vec<Entry>,
    pub playlists: Vec<Entry>,
}

/// A page of the navigation history.
pub enum PageState {
    Browsing(ContextId),
    Recommendations(Option<Vec<Track>>),
    Searching { query: String, results: SearchResults },
}

/// An item on which actions can be listed.
pub enum Item {
    Track(Track),
    Album(Entry),
    Artist(Entry),
    Playlist(Entry),
}

/// A popup shown over the current window.
pub enum PopupState {
    /// The search popup of a list, with the text typed so far.
    ContextSearch(String),
    /// The actions on an item.
    ActionList(Item),
}

/// Where in a context or list playback starts: at the track with this id.
pub struct Offset {
    pub track_id: String,
}

/// A playback to start.
pub enum Playback {
    /// A context, referred to by its id.
    Context(ContextId, Option<Offset>),
    /// A list of tracks, by their ids.
    URIs(Vec<String>, Option<Offset>),
}

/// A request to the playback backend.
pub enum ClientRequest {
    GetContext(ContextId),
    Search(String),
    StartPlayback(Playback),
    GetCurrentPlayback,
}

/// The state of the user interface.
pub struct UIState {
    pub window: WindowState,
    pub popup: Option<PopupState>,
    /// The pages visited, the current one last.
    pub history: Vec<PageState>,
}

impl UIState {
    /// Opens a new page on top of the history.
    pub fn new_page(&mut self, page: PageState)
        ensures
            final(self).history@ == old(self).history@.push(page),
            final(self).window == old(self).window,
            final(self).popup == old(self).popup,
    {
        self.history.push(page);
    }

    /// The text typed in the search popup, if that popup is open.
    pub open spec fn search_filter_spec(&self) -> Option<Seq<char>> {
        match self.popup {
            Some(PopupState::ContextSearch(q)) => Some(q@),
            _ => None,
        }
    }
}

/// What a dispatch did: whether the input was consumed, and the request to send, if any.
pub struct Handled {
    pub consumed: bool,
    pub request: Option<ClientRequest>,
}

} // verus!
