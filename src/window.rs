//! Dispatch of key sequences and commands to the focused window and subwindow.
use vstd::prelude::*;
use rand::Rng;
use crate::keymap::{Command, Key, KeyCode, KeySequence, KeymapConfig};
use crate::model::{
    copy_entries, copy_tracks, entries_matching, filter_entries, filter_tracks, tracks_matching, Context, ContextId,
    ContextSortOrder, Entry, Track, sorted_by, with_tracks,
};
use crate::player::PlayerState;
use crate::ui::{
    SearchResults, ArtistFocusState, ClientRequest, Handled, Item, Offset, PageState, Playback, PopupState,
    SearchFocusState, UIState, WindowState,
};

verus! {

/// The application state that the dispatch reads and changes besides the UI.
pub struct SharedState {
    pub keymap_config: KeymapConfig,
    pub player: PlayerState,
}

/// What choosing a track of a track table plays.
pub enum PlaybackTarget {
    /// The context that the table shows.
    Context(ContextId),
    /// These tracks, by id.
    Tracks(Vec<String>),
}

/// The kind of the entries of a list subwindow.
#[derive(Clone, Copy, Debug, PartialEq, Eq, Structural)]
pub enum EntryKind {
    Album,
    Artist,
    Playlist,
}

/// Relies on rand's `thread_rng().gen_range(0..n)`: an index below `n`.
#[verifier::external_body]
fn random_index(n: usize) -> (r: usize)
    requires
        n > 0,
    ensures
        r < n,
{
    rand::thread_rng().gen_range(0..n)
}

/// Relies on `String::push`: appends the character.
#[verifier::external_body]
fn push_char(s: &mut String, c: char)
    ensures
        final(s)@ == old(s)@.push(c),
{
    s.push(c);
}

/// Relies on `String::pop`: removes and returns the last character, if any.
#[verifier::external_body]
fn pop_char(s: &mut String) -> (r: Option<char>)
    ensures
        old(s)@.len() == 0 ==> r.is_none() && final(s)@ == old(s)@,
        old(s)@.len() > 0 ==> r == Some(old(s)@.last()) && final(s)@ == old(s)@.drop_last(),
{
    s.pop()
}

pub open spec fn index_after(id: usize, len: int) -> usize {
    if id + 1 < len {
        (id + 1) as usize
    } else {
        id
    }
}

pub open spec fn index_before(id: usize, len: int) -> usize {
    if id > 0 && len > 0 {
        (id - 1) as usize
    } else {
        id
    }
}

/// The context that `target` plays, if it plays one.
pub open spec fn target_context(target: PlaybackTarget) -> Option<ContextId> {
    match target {
        PlaybackTarget::Context(c) => Some(c),
        PlaybackTarget::Tracks(_) => None,
    }
}

/// The tracks that `target` plays, where it plays a list of tracks.
pub open spec fn target_ids(target: PlaybackTarget) -> Seq<String> {
    match target {
        PlaybackTarget::Context(_) => Seq::empty(),
        PlaybackTarget::Tracks(ids) => ids@,
    }
}

/// `req` starts playing the context `context`, or where there is none the tracks
/// `ids`, at the track with id `track_id`.
pub open spec fn plays_at(
    req: Option<ClientRequest>,
    context: Option<ContextId>,
    ids: Seq<String>,
    track_id: Seq<char>,
) -> bool {
    match (req, context) {
        (Some(ClientRequest::StartPlayback(Playback::URIs(t, Some(o)))), None) => t@ == ids
            && o.track_id@ == track_id,
        (Some(ClientRequest::StartPlayback(Playback::Context(c, Some(o)))), Some(tc)) => c == tc
            && o.track_id@ == track_id,
        _ => false,
    }
}

/// Nothing happened: not consumed, no request, the UI as it was.
pub open spec fn ignored(u0: UIState, u1: UIState, r: Handled) -> bool {
    !r.consumed && r.request.is_none() && u1 == u0
}

/// The cursor moved (or stayed) to `i`, and nothing else changed.
pub open spec fn moved_to(u0: UIState, u1: UIState, r: Handled, i: usize) -> bool {
    r.consumed && r.request.is_none() && u1 == (UIState { window: u0.window.with_selected(i), ..u0 })
}

/// The effect of `command` on a track table showing `tracks`, whose choice plays `target`.
pub open spec fn track_table_effect(
    command: Command,
    u0: UIState,
    u1: UIState,
    context: Option<ContextId>,
    ids: Seq<String>,
    tracks: Seq<Track>,
    r: Handled,
) -> bool {
    let id = u0.window.selected_spec().unwrap();
    match command {
        Command::SelectNextOrScrollDown => moved_to(u0, u1, r, index_after(id, tracks.len() as int)),
        Command::SelectPreviousOrScrollUp => moved_to(u0, u1, r, index_before(id, tracks.len() as int)),
        Command::ChooseSelected => if id < tracks.len() {
            r.consumed && u1 == u0 && plays_at(r.request, context, ids, tracks[id as int].id@)
        } else {
            ignored(u0, u1, r)
        },
        Command::ShowActionsOnSelectedItem => if id < tracks.len() {
            r.consumed && r.request.is_none() && u1.window == u0.window && u1.history == u0.history
                && u1.popup == Some(PopupState::ActionList(Item::Track(tracks[id as int])))
        } else {
            ignored(u0, u1, r)
        },
        _ => ignored(u0, u1, r),
    }
}

/// The effect of `command` on a list of search-result tracks.
pub open spec fn track_list_effect(
    command: Command,
    u0: UIState,
    u1: UIState,
    tracks: Seq<Track>,
    r: Handled,
) -> bool {
    let id = u0.window.selected_spec().unwrap();
    match command {
        Command::SelectNextOrScrollDown => moved_to(u0, u1, r, index_after(id, tracks.len() as int)),
        Command::SelectPreviousOrScrollUp => moved_to(u0, u1, r, index_before(id, tracks.len() as int)),
        Command::ChooseSelected => if id < tracks.len() {
            r.consumed && u1 == u0 && match r.request {
                Some(ClientRequest::StartPlayback(Playback::URIs(ids, None))) => ids@.len() == 1
                    && ids@[0] == tracks[id as int].id,
                _ => false,
            }
        } else {
            ignored(u0, u1, r)
        },
        Command::ShowActionsOnSelectedItem => if id < tracks.len() {
            r.consumed && r.request.is_none() && u1.window == u0.window && u1.history == u0.history
                && u1.popup == Some(PopupState::ActionList(Item::Track(tracks[id as int])))
        } else {
            ignored(u0, u1, r)
        },
        _ => ignored(u0, u1, r),
    }
}

pub open spec fn entry_context_id(kind: EntryKind, id: String) -> ContextId {
    match kind {
        EntryKind::Album => ContextId::Album(id),
        EntryKind::Artist => ContextId::Artist(id),
        EntryKind::Playlist => ContextId::Playlist(id),
    }
}

pub open spec fn entry_item(kind: EntryKind, e: Entry) -> Item {
    match kind {
        EntryKind::Album => Item::Album(e),
        EntryKind::Artist => Item::Artist(e),
        EntryKind::Playlist => Item::Playlist(e),
    }
}

/// The effect of `command` on a list of albums, artists or playlists.
pub open spec fn entry_list_effect(
    command: Command,
    u0: UIState,
    u1: UIState,
    kind: EntryKind,
    entries: Seq<Entry>,
    r: Handled,
) -> bool {
    let id = u0.window.selected_spec().unwrap();
    match command {
        Command::SelectNextOrScrollDown => moved_to(u0, u1, r, index_after(id, entries.len() as int)),
        Command::SelectPreviousOrScrollUp => moved_to(u0, u1, r, index_before(id, entries.len() as int)),
        Command::ChooseSelected => if id < entries.len() {
            let cid = entry_context_id(kind, entries[id as int].id);
            r.consumed && r.request == Some(ClientRequest::GetContext(cid)) && u1.window == u0.window
                && u1.popup == u0.popup && u1.history@ == u0.history@.push(PageState::Browsing(cid))
        } else {
            ignored(u0, u1, r)
        },
        Command::ShowActionsOnSelectedItem => if id < entries.len() {
            r.consumed && r.request.is_none() && u1.window == u0.window && u1.history == u0.history
                && u1.popup == Some(PopupState::ActionList(entry_item(kind, entries[id as int])))
        } else {
            ignored(u0, u1, r)
        },
        _ => ignored(u0, u1, r),
    }
}

fn copy_ids(ids: &Vec<String>) -> (r: Vec<String>)
    ensures
        r@ == ids@,
{
    let mut out: Vec<String> = Vec::new();
    let mut i: usize = 0;
    while i < ids.len()
        invariant
            0 <= i <= ids@.len(),
            out@ == ids@.take(i as int),
        decreases ids@.len() - i,
    {
        out.push(ids[i].clone());
        i = i + 1;
        assert(out@ =~= ids@.take(i as int));
    }
    assert(ids@.take(i as int) =~= ids@);
    out
}

/// The ids of `tracks`, in their order.
pub open spec fn ids_of(tracks: Seq<Track>) -> Seq<String> {
    tracks.map_values(|t: Track| t.id)
}

fn track_ids(tracks: &Vec<Track>) -> (r: Vec<String>)
    ensures
        r@ == ids_of(tracks@),
{
    let mut out: Vec<String> = Vec::new();
    let mut i: usize = 0;
    while i < tracks.len()
        invariant
            0 <= i <= tracks@.len(),
            out@ == ids_of(tracks@.take(i as int)),
        decreases tracks@.len() - i,
    {
        out.push(tracks[i].id.clone());
        i = i + 1;
        assert(out@ =~= ids_of(tracks@.take(i as int)));
    }
    assert(tracks@.take(i as int) =~= tracks@);
    out
}

/// Handles a command for a track table that shows `tracks`.
///
/// Choosing a track plays `target` from that track: the table's context, or the
/// given list of tracks.
pub fn handle_command_for_track_table_subwindow(
    command: Command,
    ui: &mut UIState,
    target: &PlaybackTarget,
    tracks: &Vec<Track>,
) -> (r: Handled)
    requires
        old(ui).window.selected_spec().is_some(),
    ensures
        track_table_effect(
            command,
            *old(ui),
            *final(ui),
            target_context(*target),
            target_ids(*target),
            tracks@,
            r,
        ),
{
    let id = ui.window.selected().unwrap();
    match command {
        Command::SelectNextOrScrollDown => {
            if tracks.len() > 0 && id < tracks.len() - 1 {
                ui.window.select(id + 1);
            } else {
                ui.window.select(id);
            }
            Handled { consumed: true, request: None }
        },
        Command::SelectPreviousOrScrollUp => {
            if id > 0 && tracks.len() > 0 {
                ui.window.select(id - 1);
            } else {
                ui.window.select(id);
            }
            Handled { consumed: true, request: None }
        },
        Command::ChooseSelected => {
            if id >= tracks.len() {
                return Handled { consumed: false, request: None };
            }
            let offset = Some(Offset { track_id: tracks[id].id.clone() });
            let playback = match target {
                PlaybackTarget::Tracks(ids) => Playback::URIs(copy_ids(ids), offset),
                PlaybackTarget::Context(cid) => Playback::Context(cid.copy(), offset),
            };
            Handled { consumed: true, request: Some(ClientRequest::StartPlayback(playback)) }
        },
        Command::ShowActionsOnSelectedItem => {
            if id >= tracks.len() {
                return Handled { consumed: false, request: None };
            }
            ui.popup = Some(PopupState::ActionList(Item::Track(tracks[id].copy())));
            Handled { consumed: true, request: None }
        },
        _ => Handled { consumed: false, request: None },
    }
}

/// Handles a command for a list of search-result tracks: choosing one plays it alone.
pub fn handle_command_for_track_list_subwindow(
    command: Command,
    ui: &mut UIState,
    tracks: &Vec<Track>,
) -> (r: Handled)
    requires
        old(ui).window.selected_spec().is_some(),
    ensures
        track_list_effect(command, *old(ui), *final(ui), tracks@, r),
{
    let id = ui.window.selected().unwrap();
    match command {
        Command::SelectNextOrScrollDown => {
            if tracks.len() > 0 && id < tracks.len() - 1 {
                ui.window.select(id + 1);
            } else {
                ui.window.select(id);
            }
            Handled { consumed: true, request: None }
        },
        Command::SelectPreviousOrScrollUp => {
            if id > 0 && tracks.len() > 0 {
                ui.window.select(id - 1);
            } else {
                ui.window.select(id);
            }
            Handled { consumed: true, request: None }
        },
        Command::ChooseSelected => {
            if id >= tracks.len() {
                return Handled { consumed: false, request: None };
            }
            let ids = vec![tracks[id].id.clone()];
            Handled {
                consumed: true,
                request: Some(ClientRequest::StartPlayback(Playback::URIs(ids, None))),
            }
        },
        Command::ShowActionsOnSelectedItem => {
            if id >= tracks.len() {
                return Handled { consumed: false, request: None };
            }
            ui.popup = Some(PopupState::ActionList(Item::Track(tracks[id].copy())));
            Handled { consumed: true, request: None }
        },
        _ => Handled { consumed: false, request: None },
    }
}

/// Handles a command for a list of albums, artists or playlists: choosing one
/// fetches it and opens a page that browses it.
pub fn handle_command_for_entry_list_subwindow(
    command: Command,
    ui: &mut UIState,
    kind: EntryKind,
    entries: &Vec<Entry>,
) -> (r: Handled)
    requires
        old(ui).window.selected_spec().is_some(),
    ensures
        entry_list_effect(command, *old(ui), *final(ui), kind, entries@, r),
{
    let id = ui.window.selected().unwrap();
    match command {
        Command::SelectNextOrScrollDown => {
            if entries.len() > 0 && id < entries.len() - 1 {
                ui.window.select(id + 1);
            } else {
                ui.window.select(id);
            }
            Handled { consumed: true, request: None }
        },
        Command::SelectPreviousOrScrollUp => {
            if id > 0 && entries.len() > 0 {
                ui.window.select(id - 1);
            } else {
                ui.window.select(id);
            }
            Handled { consumed: true, request: None }
        },
        Command::ChooseSelected => {
            if id >= entries.len() {
                return Handled { consumed: false, request: None };
            }
            let eid = &entries[id].id;
            let (cid, page_id) = match kind {
                EntryKind::Album => (ContextId::Album(eid.clone()), ContextId::Album(eid.clone())),
                EntryKind::Artist => (ContextId::Artist(eid.clone()), ContextId::Artist(eid.clone())),
                EntryKind::Playlist => (
                    ContextId::Playlist(eid.clone()),
                    ContextId::Playlist(eid.clone()),
                ),
            };
            ui.new_page(PageState::Browsing(page_id));
            Handled { consumed: true, request: Some(ClientRequest::GetContext(cid)) }
        },
        Command::ShowActionsOnSelectedItem => {
            if id >= entries.len() {
                return Handled { consumed: false, request: None };
            }
            let e = entries[id].copy();
            let item = match kind {
                EntryKind::Album => Item::Album(e),
                EntryKind::Artist => Item::Artist(e),
                EntryKind::Playlist => Item::Playlist(e),
            };
            ui.popup = Some(PopupState::ActionList(item));
            Handled { consumed: true, request: None }
        },
        _ => Handled { consumed: false, request: None },
    }
}


/// The tracks on display: those whose name holds the search popup's text, if it is open.
pub open spec fn tracks_shown(u: UIState, s: Seq<Track>) -> Seq<Track> {
    match u.search_filter_spec() {
        Some(q) => tracks_matching(s, q),
        None => s,
    }
}

/// The entries on display: those whose name holds the search popup's text, if it is open.
pub open spec fn entries_shown(u: UIState, s: Seq<Entry>) -> Seq<Entry> {
    match u.search_filter_spec() {
        Some(q) => entries_matching(s, q),
        None => s,
    }
}

fn shown_tracks(ui: &UIState, tracks: &Vec<Track>) -> (r: Vec<Track>)
    ensures
        r@ == tracks_shown(*ui, tracks@),
{
    match &ui.popup {
        Some(PopupState::ContextSearch(q)) => filter_tracks(tracks, q.as_str()),
        _ => copy_tracks(tracks),
    }
}

fn shown_entries(ui: &UIState, entries: &Vec<Entry>) -> (r: Vec<Entry>)
    ensures
        r@ == entries_shown(*ui, entries@),
{
    match &ui.popup {
        Some(PopupState::ContextSearch(q)) => filter_entries(entries, q.as_str()),
        _ => copy_entries(entries),
    }
}

/// The effect of `command` on the focused subwindow of the context window.
pub open spec fn focused_context_effect(
    command: Command,
    p: PlayerState,
    u0: UIState,
    u1: UIState,
    r: Handled,
) -> bool {
    match p.context {
        None => ignored(u0, u1, r),
        Some(Context::Artist { top_tracks, albums, related_artists, .. }) => match u0.window {
            WindowState::Artist { focus, .. } => match focus {
                ArtistFocusState::Albums => entry_list_effect(
                    command,
                    u0,
                    u1,
                    EntryKind::Album,
                    entries_shown(u0, albums@),
                    r,
                ),
                ArtistFocusState::RelatedArtists => entry_list_effect(
                    command,
                    u0,
                    u1,
                    EntryKind::Artist,
                    entries_shown(u0, related_artists@),
                    r,
                ),
                ArtistFocusState::TopTracks => track_table_effect(
                    command,
                    u0,
                    u1,
                    None,
                    ids_of(top_tracks@),
                    tracks_shown(u0, top_tracks@),
                    r,
                ),
            },
            _ => ignored(u0, u1, r),
        },
        Some(Context::Album { album, tracks }) => if u0.window.selected_spec().is_some() {
            track_table_effect(
                command,
                u0,
                u1,
                Some(ContextId::Album(album.id)),
                Seq::empty(),
                tracks_shown(u0, tracks@),
                r,
            )
        } else {
            ignored(u0, u1, r)
        },
        Some(Context::Playlist { playlist, tracks }) => if u0.window.selected_spec().is_some() {
            track_table_effect(
                command,
                u0,
                u1,
                Some(ContextId::Playlist(playlist.id)),
                Seq::empty(),
                tracks_shown(u0, tracks@),
                r,
            )
        } else {
            ignored(u0, u1, r)
        },
    }
}

/// Hands a command to the focused subwindow of the context window.
///
/// Nothing is done where no context is loaded, or where the window does not
/// show a list of the loaded context.
pub fn handle_command_for_focused_context_subwindow(
    command: Command,
    ui: &mut UIState,
    player: &PlayerState,
) -> (r: Handled)
    ensures
        focused_context_effect(command, *player, *old(ui), *final(ui), r),
{
    match &player.context {
        None => Handled { consumed: false, request: None },
        Some(Context::Artist { top_tracks, albums, related_artists, .. }) => {
            let focus = match ui.window {
                WindowState::Artist { focus, .. } => focus,
                _ => {
                    return Handled { consumed: false, request: None };
                },
            };
            match focus {
                ArtistFocusState::Albums => {
                    let shown = shown_entries(ui, albums);
                    handle_command_for_entry_list_subwindow(command, ui, EntryKind::Album, &shown)
                },
                ArtistFocusState::RelatedArtists => {
                    let shown = shown_entries(ui, related_artists);
                    handle_command_for_entry_list_subwindow(command, ui, EntryKind::Artist, &shown)
                },
                ArtistFocusState::TopTracks => {
                    let shown = shown_tracks(ui, top_tracks);
                    let target = PlaybackTarget::Tracks(track_ids(top_tracks));
                    handle_command_for_track_table_subwindow(command, ui, &target, &shown)
                },
            }
        },
        Some(Context::Album { album, tracks }) => {
            if ui.window.selected().is_none() {
                return Handled { consumed: false, request: None };
            }
            let shown = shown_tracks(ui, tracks);
            let target = PlaybackTarget::Context(ContextId::Album(album.id.clone()));
            handle_command_for_track_table_subwindow(command, ui, &target, &shown)
        },
        Some(Context::Playlist { playlist, tracks }) => {
            if ui.window.selected().is_none() {
                return Handled { consumed: false, request: None };
            }
            let shown = shown_tracks(ui, tracks);
            let target = PlaybackTarget::Context(ContextId::Playlist(playlist.id.clone()));
            handle_command_for_track_table_subwindow(command, ui, &target, &shown)
        },
    }
}


/// The sort order that `command` asks for, if it asks for one.
pub open spec fn sort_order_of(command: Command) -> Option<ContextSortOrder> {
    match command {
        Command::SortTrackByTitle => Some(ContextSortOrder::TrackName),
        Command::SortTrackByAlbum => Some(ContextSortOrder::Album),
        Command::SortTrackByArtists => Some(ContextSortOrder::Artists),
        Command::SortTrackByAddedDate => Some(ContextSortOrder::AddedAt),
        Command::SortTrackByDuration => Some(ContextSortOrder::Duration),
        _ => None,
    }
}

fn sort_order_for(command: Command) -> (r: Option<ContextSortOrder>)
    ensures
        r == sort_order_of(command),
{
    match command {
        Command::SortTrackByTitle => Some(ContextSortOrder::TrackName),
        Command::SortTrackByAlbum => Some(ContextSortOrder::Album),
        Command::SortTrackByArtists => Some(ContextSortOrder::Artists),
        Command::SortTrackByAddedDate => Some(ContextSortOrder::AddedAt),
        Command::SortTrackByDuration => Some(ContextSortOrder::Duration),
        _ => None,
    }
}

/// The playback that a random play of `context` starts, given the drawn index `pick`.
///
/// An artist context is played from its start: no offset may be given for it.
/// Any other context is played from its track at `pick`, or from its start where
/// there is no such track.
pub open spec fn random_playback_spec(context: Context, id: ContextId, pick: usize, p: Playback) -> bool {
    match p {
        Playback::Context(c, off) => c == id && match context {
            Context::Artist { .. } => off.is_none(),
            _ => if pick < context.tracks_spec().len() {
                off.is_some() && off.unwrap().track_id@ == context.tracks_spec()[pick as int].id@
            } else {
                off.is_none()
            },
        },
        _ => false,
    }
}

/// Builds the playback that a random play of `context` starts, given the drawn index `pick`.
pub fn random_playback(context: &Context, id: &ContextId, pick: usize) -> (r: Playback)
    ensures
        random_playback_spec(*context, *id, pick, r),
{
    let offset = match context {
        Context::Artist { .. } => None,
        _ => {
            let tracks = context.tracks();
            if pick < tracks.len() {
                Some(Offset { track_id: tracks[pick].id.clone() })
            } else {
                None
            }
        },
    };
    Playback::Context(id.copy(), offset)
}

/// What a random play may send for player state `p`, whatever index was drawn.
pub open spec fn random_play_request(p: PlayerState, req: Option<ClientRequest>) -> bool {
    match (p.context, p.context_id) {
        (Some(ctx), Some(cid)) => match req {
            Some(ClientRequest::StartPlayback(pb)) => exists|pick: usize|
                (pick < ctx.tracks_spec().len() || (pick == 0 && ctx.tracks_spec().len() == 0))
                    && #[trigger] random_playback_spec(ctx, cid, pick, pb),
            _ => false,
        },
        _ => req.is_none(),
    }
}

/// The search popup opened on an empty text, with the cursor on the first row.
pub open spec fn search_popup_opened(u0: UIState, u1: UIState, r: Handled) -> bool {
    &&& r.consumed
    &&& r.request.is_none()
    &&& u1.window == u0.window.with_selected(0)
    &&& u1.history == u0.history
    &&& match u1.popup {
        Some(PopupState::ContextSearch(q)) => q@.len() == 0,
        _ => false,
    }
}

/// The focus moved forward (`forward`) or back, and nothing else changed.
pub open spec fn focus_moved(u0: UIState, u1: UIState, r: Handled, forward: bool) -> bool {
    r.consumed && r.request.is_none() && u1 == (UIState { window: u0.window.with_focus_moved(forward), ..u0 })
}

/// The effect of a resolved `command` on the context window.
pub open spec fn context_command_effect(
    command: Command,
    s0: SharedState,
    s1: SharedState,
    u0: UIState,
    u1: UIState,
    r: Handled,
) -> bool {
    match command {
        Command::FocusNextWindow => s1 == s0 && focus_moved(u0, u1, r, true),
        Command::FocusPreviousWindow => s1 == s0 && focus_moved(u0, u1, r, false),
        Command::SearchContext => s1 == s0 && search_popup_opened(u0, u1, r),
        Command::PlayRandom => s1 == s0 && u1 == u0 && r.consumed && random_play_request(
            s0.player,
            r.request,
        ),
        _ => match s0.player.context {
            Some(ctx) if sort_order_of(command).is_some() || command == Command::ReverseTrackOrder => {
                let tracks = if command == Command::ReverseTrackOrder {
                    ctx.tracks_spec().reverse()
                } else {
                    sorted_by(sort_order_of(command).unwrap(), ctx.tracks_spec())
                };
                &&& r.consumed
                &&& r.request.is_none()
                &&& u1 == u0
                &&& s1.keymap_config == s0.keymap_config
                &&& s1.player.context_id == s0.player.context_id
                &&& s1.player.playback == s0.player.playback
                &&& s1.player.buffered_playback == s0.player.buffered_playback
                &&& s1.player.context.is_some()
                &&& with_tracks(ctx, s1.player.context.unwrap(), tracks)
            },
            _ => s1 == s0 && focused_context_effect(command, s0.player, u0, u1, r),
        },
    }
}

/// Handles a key sequence for the context window.
pub fn handle_key_sequence_for_context_window(
    key_sequence: &KeySequence,
    state: &mut SharedState,
    ui: &mut UIState,
) -> (r: Handled)
    ensures
        match old(state).keymap_config.command_spec(key_sequence) {
            None => ignored(*old(ui), *final(ui), r) && *final(state) == *old(state),
            Some(command) => context_command_effect(
                command,
                *old(state),
                *final(state),
                *old(ui),
                *final(ui),
                r,
            ),
        },
{
    let command = match state.keymap_config.find_command_from_key_sequence(key_sequence) {
        Some(command) => command,
        None => {
            return Handled { consumed: false, request: None };
        },
    };
    match command {
        Command::FocusNextWindow => {
            ui.window.next();
            Handled { consumed: true, request: None }
        },
        Command::FocusPreviousWindow => {
            ui.window.previous();
            Handled { consumed: true, request: None }
        },
        Command::SearchContext => {
            open_search_popup(ui);
            Handled { consumed: true, request: None }
        },
        Command::PlayRandom => {
            let request = match (&state.player.context, &state.player.context_id) {
                (Some(context), Some(id)) => {
                    let n = context.tracks().len();
                    let pick = match context {
                        Context::Artist { .. } => 0,
                        _ => if n > 0 {
                            random_index(n)
                        } else {
                            0
                        },
                    };
                    let playback = random_playback(context, id, pick);
                    assert(random_playback_spec(*context, *id, pick, playback));
                    Some(ClientRequest::StartPlayback(playback))
                },
                _ => None,
            };
            Handled { consumed: true, request }
        },
        _ => {
            let order = sort_order_for(command);
            match &mut state.player.context {
                Some(context) => {
                    match order {
                        Some(order) => {
                            context.sort_tracks(order);
                            return Handled { consumed: true, request: None };
                        },
                        None => {
                            if command == Command::ReverseTrackOrder {
                                context.reverse_tracks();
                                return Handled { consumed: true, request: None };
                            }
                        },
                    }
                },
                None => {},
            }
            handle_command_for_focused_context_subwindow(command, ui, &state.player)
        },
    }
}

fn open_search_popup(ui: &mut UIState)
    ensures
        final(ui).window == old(ui).window.with_selected(0),
        final(ui).history == old(ui).history,
        match final(ui).popup {
            Some(PopupState::ContextSearch(q)) => q@.len() == 0,
            _ => false,
        },
{
    ui.window.select(0);
    ui.popup = Some(PopupState::ContextSearch(String::new()));
}


/// Builds the playback that a random play of a list of tracks starts, given the
/// drawn index `pick`: all the tracks, from the one at `pick`.
pub fn random_track_list_playback(tracks: &Vec<Track>, pick: usize) -> (r: Playback)
    requires
        pick < tracks@.len(),
    ensures
        match r {
            Playback::URIs(ids, Some(o)) => ids@ == ids_of(tracks@) && o.track_id@
                == tracks@[pick as int].id@,
            _ => false,
        },
{
    let offset = Some(Offset { track_id: tracks[pick].id.clone() });
    Playback::URIs(track_ids(tracks), offset)
}

/// The tracks of the current page, where it is a page of recommendations; else none.
pub open spec fn recommended_tracks(u: UIState) -> Seq<Track> {
    if u.history@.len() == 0 {
        Seq::empty()
    } else {
        match u.history@.last() {
            PageState::Recommendations(Some(tracks)) => tracks@,
            _ => Seq::empty(),
        }
    }
}

fn current_recommendations(ui: &UIState) -> (r: Vec<Track>)
    ensures
        r@ == recommended_tracks(*ui),
{
    let n = ui.history.len();
    if n == 0 {
        return Vec::new();
    }
    match &ui.history[n - 1] {
        PageState::Recommendations(Some(tracks)) => copy_tracks(tracks),
        _ => Vec::new(),
    }
}

/// The effect of a resolved `command` on the recommendation window.
pub open spec fn recommendation_command_effect(
    command: Command,
    u0: UIState,
    u1: UIState,
    r: Handled,
) -> bool {
    let tracks = recommended_tracks(u0);
    match command {
        Command::SearchContext => search_popup_opened(u0, u1, r),
        Command::PlayRandom => r.consumed && u1 == u0 && if tracks.len() == 0 {
            r.request.is_none()
        } else {
            match r.request {
                Some(ClientRequest::StartPlayback(Playback::URIs(ids, Some(o)))) => ids@ == ids_of(
                    tracks,
                ) && exists|i: int| 0 <= i < tracks.len() && o.track_id@ == #[trigger] tracks[i].id@,
                _ => false,
            }
        },
        _ => if u0.window.selected_spec().is_some() {
            track_table_effect(command, u0, u1, None, ids_of(tracks), tracks_shown(u0, tracks), r)
        } else {
            ignored(u0, u1, r)
        },
    }
}

/// Handles a key sequence for the recommendation window.
///
/// A random play draws from all the recommended tracks; the other commands act
/// on the tracks on display.
pub fn handle_key_sequence_for_recommendation_window(
    key_sequence: &KeySequence,
    state: &SharedState,
    ui: &mut UIState,
) -> (r: Handled)
    ensures
        match state.keymap_config.command_spec(key_sequence) {
            None => ignored(*old(ui), *final(ui), r),
            Some(command) => recommendation_command_effect(command, *old(ui), *final(ui), r),
        },
{
    let command = match state.keymap_config.find_command_from_key_sequence(key_sequence) {
        Some(command) => command,
        None => {
            return Handled { consumed: false, request: None };
        },
    };
    let tracks = current_recommendations(ui);
    match command {
        Command::SearchContext => {
            open_search_popup(ui);
            Handled { consumed: true, request: None }
        },
        Command::PlayRandom => {
            if tracks.len() == 0 {
                return Handled { consumed: true, request: None };
            }
            let pick = random_index(tracks.len());
            let playback = random_track_list_playback(&tracks, pick);
            assert(recommended_tracks(*ui)[pick as int].id@ == tracks@[pick as int].id@);
            Handled { consumed: true, request: Some(ClientRequest::StartPlayback(playback)) }
        },
        _ => {
            if ui.window.selected().is_none() {
                return Handled { consumed: false, request: None };
            }
            let shown = shown_tracks(ui, &tracks);
            let target = PlaybackTarget::Tracks(track_ids(&tracks));
            handle_command_for_track_table_subwindow(command, ui, &target, &shown)
        },
    }
}

/// The query and the results of the current page, where it is a search page.
pub open spec fn search_page(u: UIState) -> Option<(Seq<char>, SearchResults)> {
    if u.history@.len() == 0 {
        None
    } else {
        match u.history@.last() {
            PageState::Searching { query, results } => Some((query@, results)),
            _ => None,
        }
    }
}

/// `u1` is `u0` with the query of its search page replaced by `q`.
pub open spec fn query_set(u0: UIState, u1: UIState, q: Seq<char>) -> bool {
    &&& u1.window == u0.window
    &&& u1.popup == u0.popup
    &&& u1.history@.len() == u0.history@.len()
    &&& u1.history@.drop_last() == u0.history@.drop_last()
    &&& search_page(u1) == Some((q, search_page(u0).unwrap().1))
}

/// The key that `keys` is, where it is one key pressed alone.
pub open spec fn single_plain_key(keys: Seq<Key>) -> Option<KeyCode> {
    if keys.len() == 1 {
        match keys[0] {
            Key::Plain(code) => Some(code),
            _ => None,
        }
    } else {
        None
    }
}

/// The key is one that the search input takes.
pub open spec fn is_input_key(code: KeyCode) -> bool {
    match code {
        KeyCode::Char(_) | KeyCode::Backspace | KeyCode::Enter => true,
        _ => false,
    }
}

/// The effect of a key typed into the search input holding `q`.
pub open spec fn input_key_effect(code: KeyCode, q: Seq<char>, u0: UIState, u1: UIState, r: Handled) -> bool {
    r.consumed && match code {
        KeyCode::Char(c) => r.request.is_none() && query_set(u0, u1, q.push(c)),
        KeyCode::Backspace => r.request.is_none() && query_set(
            u0,
            u1,
            if q.len() == 0 {
                q
            } else {
                q.drop_last()
            },
        ),
        _ => u1 == u0 && if q.len() == 0 {
            r.request.is_none()
        } else {
            match r.request {
                Some(ClientRequest::Search(s)) => s@ == q,
                _ => false,
            }
        },
    }
}

/// The effect of a resolved `command` on the search window focused on `focus`.
pub open spec fn search_command_effect(
    command: Command,
    focus: SearchFocusState,
    results: SearchResults,
    u0: UIState,
    u1: UIState,
    r: Handled,
) -> bool {
    match command {
        Command::FocusNextWindow => focus_moved(u0, u1, r, true),
        Command::FocusPreviousWindow => focus_moved(u0, u1, r, false),
        _ => match focus {
            SearchFocusState::Input => ignored(u0, u1, r),
            SearchFocusState::Tracks => track_list_effect(command, u0, u1, results.tracks@, r),
            SearchFocusState::Artists => entry_list_effect(
                command,
                u0,
                u1,
                EntryKind::Artist,
                results.artists@,
                r,
            ),
            SearchFocusState::Albums => entry_list_effect(
                command,
                u0,
                u1,
                EntryKind::Album,
                results.albums@,
                r,
            ),
            SearchFocusState::Playlists => entry_list_effect(
                command,
                u0,
                u1,
                EntryKind::Playlist,
                results.playlists@,
                r,
            ),
        },
    }
}

/// Handles a key sequence for the search window.
///
/// With the focus on the input, a character, Backspace or Enter pressed alone
/// edits or submits the query. Other keys go through the keymap.
pub fn handle_key_sequence_for_search_window(
    key_sequence: &KeySequence,
    state: &SharedState,
    ui: &mut UIState,
) -> (r: Handled)
    ensures
        match (old(ui).window, search_page(*old(ui))) {
            (WindowState::Search { focus, .. }, Some((q, results))) => {
                if focus == SearchFocusState::Input && single_plain_key(key_sequence.keys@).is_some()
                    && is_input_key(single_plain_key(key_sequence.keys@).unwrap()) {
                    input_key_effect(
                        single_plain_key(key_sequence.keys@).unwrap(),
                        q,
                        *old(ui),
                        *final(ui),
                        r,
                    )
                } else {
                    match state.keymap_config.command_spec(key_sequence) {
                        None => ignored(*old(ui), *final(ui), r),
                        Some(command) => search_command_effect(
                            command,
                            focus,
                            results,
                            *old(ui),
                            *final(ui),
                            r,
                        ),
                    }
                }
            },
            _ => ignored(*old(ui), *final(ui), r),
        },
{
    let focus = match ui.window {
        WindowState::Search { focus, .. } => focus,
        _ => {
            return Handled { consumed: false, request: None };
        },
    };
    let n = ui.history.len();
    if n == 0 {
        return Handled { consumed: false, request: None };
    }
    let is_search_page = match &ui.history[n - 1] {
        PageState::Searching { .. } => true,
        _ => false,
    };
    if !is_search_page {
        return Handled { consumed: false, request: None };
    }
    if focus == SearchFocusState::Input && key_sequence.keys.len() == 1 {
        if let Key::Plain(code) = key_sequence.keys[0] {
            match code {
                KeyCode::Char(c) => {
                    edit_query(ui, Some(c));
                    return Handled { consumed: true, request: None };
                },
                KeyCode::Backspace => {
                    edit_query(ui, None);
                    return Handled { consumed: true, request: None };
                },
                KeyCode::Enter => {
                    let request = match &ui.history[n - 1] {
                        PageState::Searching { query, .. } => if query.as_str().is_empty() {
                            None
                        } else {
                            Some(ClientRequest::Search(query.clone()))
                        },
                        _ => None,
                    };
                    return Handled { consumed: true, request };
                },
                _ => {},
            }
        }
    }
    let command = match state.keymap_config.find_command_from_key_sequence(key_sequence) {
        Some(command) => command,
        None => {
            return Handled { consumed: false, request: None };
        },
    };
    match command {
        Command::FocusNextWindow => {
            ui.window.next();
            Handled { consumed: true, request: None }
        },
        Command::FocusPreviousWindow => {
            ui.window.previous();
            Handled { consumed: true, request: None }
        },
        _ => {
            if focus == SearchFocusState::Input {
                return Handled { consumed: false, request: None };
            }
            match &ui.history[n - 1] {
                PageState::Searching { results, .. } => match focus {
                    SearchFocusState::Tracks => {
                        let tracks = copy_tracks(&results.tracks);
                        handle_command_for_track_list_subwindow(command, ui, &tracks)
                    },
                    SearchFocusState::Artists => {
                        let artists = copy_entries(&results.artists);
                        handle_command_for_entry_list_subwindow(command, ui, EntryKind::Artist, &artists)
                    },
                    SearchFocusState::Albums => {
                        let albums = copy_entries(&results.albums);
                        handle_command_for_entry_list_subwindow(command, ui, EntryKind::Album, &albums)
                    },
                    _ => {
                        let playlists = copy_entries(&results.playlists);
                        handle_command_for_entry_list_subwindow(
                            command,
                            ui,
                            EntryKind::Playlist,
                            &playlists,
                        )
                    },
                },
                _ => Handled { consumed: false, request: None },
            }
        },
    }
}

/// Appends `c` to the query of the search page, or removes its last character
/// where `c` is none.
fn edit_query(ui: &mut UIState, c: Option<char>)
    requires
        search_page(*old(ui)).is_some(),
    ensures
        query_set(
            *old(ui),
            *final(ui),
            match c {
                Some(c) => search_page(*old(ui)).unwrap().0.push(c),
                None => if search_page(*old(ui)).unwrap().0.len() == 0 {
                    search_page(*old(ui)).unwrap().0
                } else {
                    search_page(*old(ui)).unwrap().0.drop_last()
                },
            },
        ),
{
    let page = ui.history.pop().unwrap();
    let page = match page {
        PageState::Searching { mut query, results } => {
            match c {
                Some(c) => push_char(&mut query, c),
                None => {
                    let _ = pop_char(&mut query);
                },
            }
            PageState::Searching { query, results }
        },
        other => other,
    };
    ui.history.push(page);
    assert(ui.history@.drop_last() =~= old(ui).history@.drop_last());
}


/// Moving the cursor keeps it on the list: forward it stops at the last row,
/// back it stops at the first, and on an empty list it moves neither way.
pub proof fn lemma_cursor_stays_in_range(id: usize, len: nat)
    requires
        len <= usize::MAX,
    ensures
        id < len ==> index_after(id, len as int) < len,
        id < len ==> index_before(id, len as int) < len,
        index_after(id, len as int) == id || index_after(id, len as int) == id + 1,
        index_before(id, len as int) == id || index_before(id, len as int) + 1 == id,
        id + 1 >= len ==> index_after(id, len as int) == id,
        id == 0 ==> index_before(id, len as int) == 0,
        len == 0 ==> index_after(id, len as int) == id,
        len == 0 ==> index_before(id, len as int) == id,
{
}

/// A random play of a loaded artist context starts it with no offset; one of any
/// other context with tracks starts it at one of its tracks.
pub proof fn lemma_random_play_offset(p: PlayerState, req: Option<ClientRequest>)
    requires
        random_play_request(p, req),
        p.context.is_some(),
        p.context_id.is_some(),
    ensures
        match req {
            Some(ClientRequest::StartPlayback(Playback::Context(c, off))) => {
                &&& c == p.context_id.unwrap()
                &&& p.context.unwrap() is Artist ==> off.is_none()
                &&& (!(p.context.unwrap() is Artist) && p.context.unwrap().tracks_spec().len() > 0)
                    ==> off.is_some() && exists|i: int|
                    0 <= i < p.context.unwrap().tracks_spec().len() && off.unwrap().track_id@
                        == #[trigger] p.context.unwrap().tracks_spec()[i].id@
            },
            _ => false,
        },
{
    let ctx = p.context.unwrap();
    let cid = p.context_id.unwrap();
    match req {
        Some(ClientRequest::StartPlayback(pb)) => {
            let pick = choose|pick: usize|
                (pick < ctx.tracks_spec().len() || (pick == 0 && ctx.tracks_spec().len() == 0))
                    && #[trigger] random_playback_spec(ctx, cid, pick, pb);
            if !(ctx is Artist) && ctx.tracks_spec().len() > 0 {
                assert(ctx.tracks_spec()[pick as int].id@ == ctx.tracks_spec()[pick as int].id@);
            }
        },
        _ => {},
    }
}

/// Choosing a track in a table that plays a list of tracks starts exactly that
/// list, never a context.
pub proof fn lemma_choose_plays_track_list(
    u0: UIState,
    u1: UIState,
    ids: Seq<String>,
    tracks: Seq<Track>,
    r: Handled,
)
    requires
        u0.window.selected_spec().is_some(),
        u0.window.selected_spec().unwrap() < tracks.len(),
        track_table_effect(Command::ChooseSelected, u0, u1, None, ids, tracks, r),
    ensures
        r.consumed,
        match r.request {
            Some(ClientRequest::StartPlayback(Playback::URIs(t, Some(o)))) => t@ == ids && o.track_id@
                == tracks[u0.window.selected_spec().unwrap() as int].id@,
            _ => false,
        },
{
}

} // verus!
