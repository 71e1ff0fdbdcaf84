use spotify_player::keymap::{Command, Key, KeyCode, KeySequence, Keymap, KeymapConfig};
use spotify_player::model::{Context, ContextId, Entry, Track};
use spotify_player::player::PlayerState;
use spotify_player::ui::{
    ArtistFocusState, ClientRequest, Item, PageState, Playback, PopupState, SearchFocusState,
    SearchResults, UIState, WindowState,
};
use spotify_player::window::{
    handle_key_sequence_for_context_window, handle_key_sequence_for_recommendation_window,
    handle_key_sequence_for_search_window, random_track_list_playback, SharedState,
};

fn track(id: &str, name: &str) -> Track {
    Track {
        id: id.to_string(),
        name: name.to_string(),
        album: format!("{} album", name),
        artists: format!("{} artist", name),
        added_at: 0,
        duration: 1000,
    }
}

fn entry(id: &str, name: &str) -> Entry {
    Entry { id: id.to_string(), name: name.to_string() }
}

fn keys(k: Key) -> KeySequence {
    KeySequence { keys: vec![k] }
}

fn keymap() -> KeymapConfig {
    let bind = |k: Key, command: Command| Keymap { key_sequence: keys(k), command };
    KeymapConfig {
        keymaps: vec![
            bind(Key::Plain(KeyCode::Char('j')), Command::SelectNextOrScrollDown),
            bind(Key::Plain(KeyCode::Char('k')), Command::SelectPreviousOrScrollUp),
            bind(Key::Plain(KeyCode::Enter), Command::ChooseSelected),
            bind(Key::Plain(KeyCode::Char('g')), Command::ShowActionsOnSelectedItem),
            bind(Key::Plain(KeyCode::Tab), Command::FocusNextWindow),
            bind(Key::Ctrl(KeyCode::Tab), Command::FocusPreviousWindow),
            bind(Key::Plain(KeyCode::Char('/')), Command::SearchContext),
            bind(Key::Ctrl(KeyCode::Char('r')), Command::PlayRandom),
            bind(Key::Alt(KeyCode::Char('t')), Command::SortTrackByTitle),
            bind(Key::Alt(KeyCode::Char('d')), Command::SortTrackByDuration),
            bind(Key::Alt(KeyCode::Char('r')), Command::ReverseTrackOrder),
        ],
    }
}

fn j() -> KeySequence {
    keys(Key::Plain(KeyCode::Char('j')))
}

fn enter() -> KeySequence {
    keys(Key::Plain(KeyCode::Enter))
}

fn playlist_state(tracks: Vec<Track>) -> SharedState {
    SharedState {
        keymap_config: keymap(),
        player: PlayerState {
            devices: vec![],
            queue: None,
            playback: None,
            buffered_playback: None,
            context_id: Some(ContextId::Playlist("pl".to_string())),
            context: Some(Context::Playlist { playlist: entry("pl", "Mix"), tracks }),
        },
    }
}

fn ui(window: WindowState) -> UIState {
    UIState { window, popup: None, history: vec![] }
}

fn context_track_ids(state: &SharedState) -> Vec<String> {
    match &state.player.context {
        Some(ctx) => ctx.tracks().iter().map(|t| t.id.clone()).collect(),
        None => vec![],
    }
}

#[test]
fn playlist_select_next_then_choose() {
    let mut state = playlist_state(vec![track("a", "A"), track("b", "B"), track("c", "C")]);
    let mut ui = ui(WindowState::Playlist { track_table: 0 });
    let r = handle_key_sequence_for_context_window(&j(), &mut state, &mut ui);
    assert!(r.consumed);
    assert!(r.request.is_none());
    assert_eq!(ui.window, WindowState::Playlist { track_table: 1 });
    let r = handle_key_sequence_for_context_window(&enter(), &mut state, &mut ui);
    assert!(r.consumed);
    match r.request {
        Some(ClientRequest::StartPlayback(Playback::Context(ContextId::Playlist(id), Some(o)))) => {
            assert_eq!(id, "pl");
            assert_eq!(o.track_id, "b");
        }
        _ => panic!("expected a context playback"),
    }
}

#[test]
fn unbound_key_is_not_consumed() {
    let mut state = playlist_state(vec![track("a", "A"), track("b", "B")]);
    let mut ui = ui(WindowState::Playlist { track_table: 1 });
    let r = handle_key_sequence_for_context_window(
        &keys(Key::Plain(KeyCode::Char('z'))),
        &mut state,
        &mut ui,
    );
    assert!(!r.consumed);
    assert!(r.request.is_none());
    assert_eq!(ui.window, WindowState::Playlist { track_table: 1 });
    assert_eq!(context_track_ids(&state), vec!["a", "b"]);
}

#[test]
fn cursor_clamps_at_both_ends_and_on_empty_list() {
    let mut state = playlist_state(vec![track("a", "A"), track("b", "B")]);
    let mut ui = ui(WindowState::Playlist { track_table: 1 });
    handle_key_sequence_for_context_window(&j(), &mut state, &mut ui);
    assert_eq!(ui.window, WindowState::Playlist { track_table: 1 });
    let k = keys(Key::Plain(KeyCode::Char('k')));
    handle_key_sequence_for_context_window(&k, &mut state, &mut ui);
    handle_key_sequence_for_context_window(&k, &mut state, &mut ui);
    assert_eq!(ui.window, WindowState::Playlist { track_table: 0 });

    let mut empty = playlist_state(vec![]);
    let mut ui = ui_empty();
    let r = handle_key_sequence_for_context_window(&j(), &mut empty, &mut ui);
    assert!(r.consumed);
    assert_eq!(ui.window, WindowState::Playlist { track_table: 0 });
    handle_key_sequence_for_context_window(&k, &mut empty, &mut ui);
    assert_eq!(ui.window, WindowState::Playlist { track_table: 0 });
    let r = handle_key_sequence_for_context_window(&enter(), &mut empty, &mut ui);
    assert!(r.request.is_none());
}

fn ui_empty() -> UIState {
    ui(WindowState::Playlist { track_table: 0 })
}

#[test]
fn artist_top_tracks_cursor_stays_on_last() {
    let top: Vec<Track> = (0..5).map(|i| track(&format!("t{}", i), &format!("T{}", i))).collect();
    let mut state = SharedState {
        keymap_config: keymap(),
        player: PlayerState {
            devices: vec![],
            queue: None,
            playback: None,
            buffered_playback: None,
            context_id: Some(ContextId::Artist("ar".to_string())),
            context: Some(Context::Artist {
                artist: entry("ar", "Band"),
                top_tracks: top,
                albums: vec![],
                related_artists: vec![],
            }),
        },
    };
    let window = WindowState::Artist {
        top_tracks: 4,
        albums: 0,
        related_artists: 0,
        focus: ArtistFocusState::TopTracks,
    };
    let mut ui = ui(window);
    let r = handle_key_sequence_for_context_window(&j(), &mut state, &mut ui);
    assert!(r.consumed);
    assert_eq!(ui.window, window);

    // choosing a top track plays the list of all top tracks, not the artist context
    let r = handle_key_sequence_for_context_window(&enter(), &mut state, &mut ui);
    match r.request {
        Some(ClientRequest::StartPlayback(Playback::URIs(ids, Some(o)))) => {
            assert_eq!(ids, vec!["t0", "t1", "t2", "t3", "t4"]);
            assert_eq!(o.track_id, "t4");
        }
        _ => panic!("expected a track list playback"),
    }

    // a random play of an artist context gives no offset
    let r = handle_key_sequence_for_context_window(
        &keys(Key::Ctrl(KeyCode::Char('r'))),
        &mut state,
        &mut ui,
    );
    assert!(r.consumed);
    match r.request {
        Some(ClientRequest::StartPlayback(Playback::Context(ContextId::Artist(id), None))) => {
            assert_eq!(id, "ar")
        }
        _ => panic!("expected an artist playback without offset"),
    }
}

#[test]
fn random_play_of_playlist_starts_at_one_of_its_tracks() {
    let mut state = playlist_state(vec![track("a", "A"), track("b", "B"), track("c", "C")]);
    let mut ui = ui(WindowState::Playlist { track_table: 0 });
    for _ in 0..20 {
        let r = handle_key_sequence_for_context_window(
            &keys(Key::Ctrl(KeyCode::Char('r'))),
            &mut state,
            &mut ui,
        );
        assert!(r.consumed);
        match r.request {
            Some(ClientRequest::StartPlayback(Playback::Context(ContextId::Playlist(id), Some(o)))) => {
                assert_eq!(id, "pl");
                assert!(["a", "b", "c"].contains(&o.track_id.as_str()));
            }
            _ => panic!("expected a playlist playback with an offset"),
        }
    }
}

#[test]
fn sort_is_stable_and_idempotent() {
    let mut tracks = vec![track("1", "b"), track("2", "a"), track("3", "b"), track("4", "a")];
    tracks[0].duration = 300;
    tracks[1].duration = 100;
    tracks[2].duration = 200;
    tracks[3].duration = 100;
    let mut state = playlist_state(tracks);
    let mut ui = ui(WindowState::Playlist { track_table: 0 });
    let by_title = keys(Key::Alt(KeyCode::Char('t')));
    let r = handle_key_sequence_for_context_window(&by_title, &mut state, &mut ui);
    assert!(r.consumed);
    assert_eq!(context_track_ids(&state), vec!["2", "4", "1", "3"]);
    handle_key_sequence_for_context_window(&by_title, &mut state, &mut ui);
    assert_eq!(context_track_ids(&state), vec!["2", "4", "1", "3"]);
    let by_duration = keys(Key::Alt(KeyCode::Char('d')));
    handle_key_sequence_for_context_window(&by_duration, &mut state, &mut ui);
    assert_eq!(context_track_ids(&state), vec!["2", "4", "3", "1"]);
}

#[test]
fn reverse_twice_restores_order() {
    let mut state = playlist_state(vec![track("a", "A"), track("b", "B"), track("c", "C")]);
    let mut ui = ui(WindowState::Playlist { track_table: 0 });
    let rev = keys(Key::Alt(KeyCode::Char('r')));
    handle_key_sequence_for_context_window(&rev, &mut state, &mut ui);
    assert_eq!(context_track_ids(&state), vec!["c", "b", "a"]);
    handle_key_sequence_for_context_window(&rev, &mut state, &mut ui);
    assert_eq!(context_track_ids(&state), vec!["a", "b", "c"]);
}

#[test]
fn sort_without_context_is_not_consumed() {
    let mut state = playlist_state(vec![]);
    state.player.context = None;
    state.player.context_id = None;
    let mut ui = ui(WindowState::Playlist { track_table: 0 });
    let r = handle_key_sequence_for_context_window(
        &keys(Key::Alt(KeyCode::Char('t'))),
        &mut state,
        &mut ui,
    );
    assert!(!r.consumed);
}

#[test]
fn search_popup_filters_the_table() {
    let mut state = playlist_state(vec![track("a", "rock one"), track("b", "jazz"), track("c", "rock two")]);
    let mut ui = ui(WindowState::Playlist { track_table: 2 });
    let r = handle_key_sequence_for_context_window(
        &keys(Key::Plain(KeyCode::Char('/'))),
        &mut state,
        &mut ui,
    );
    assert!(r.consumed);
    assert_eq!(ui.window, WindowState::Playlist { track_table: 0 });
    assert!(matches!(&ui.popup, Some(PopupState::ContextSearch(q)) if q.is_empty()));
    ui.popup = Some(PopupState::ContextSearch("rock".to_string()));
    handle_key_sequence_for_context_window(&j(), &mut state, &mut ui);
    let r = handle_key_sequence_for_context_window(&enter(), &mut state, &mut ui);
    match r.request {
        Some(ClientRequest::StartPlayback(Playback::Context(_, Some(o)))) => assert_eq!(o.track_id, "c"),
        _ => panic!("expected a playback"),
    }
}

#[test]
fn show_actions_opens_popup_on_selected_track() {
    let mut state = playlist_state(vec![track("a", "A"), track("b", "B")]);
    let mut ui = ui(WindowState::Playlist { track_table: 1 });
    let r = handle_key_sequence_for_context_window(
        &keys(Key::Plain(KeyCode::Char('g'))),
        &mut state,
        &mut ui,
    );
    assert!(r.consumed);
    assert!(matches!(&ui.popup, Some(PopupState::ActionList(Item::Track(t))) if t.id == "b"));
}

#[test]
fn focus_moves_between_artist_subwindows() {
    let mut state = playlist_state(vec![]);
    let mut ui = ui(WindowState::Artist {
        top_tracks: 0,
        albums: 0,
        related_artists: 0,
        focus: ArtistFocusState::TopTracks,
    });
    handle_key_sequence_for_context_window(&keys(Key::Plain(KeyCode::Tab)), &mut state, &mut ui);
    assert!(matches!(ui.window, WindowState::Artist { focus: ArtistFocusState::Albums, .. }));
    handle_key_sequence_for_context_window(&keys(Key::Ctrl(KeyCode::Tab)), &mut state, &mut ui);
    assert!(matches!(ui.window, WindowState::Artist { focus: ArtistFocusState::TopTracks, .. }));
}

#[test]
fn artist_album_choice_opens_album_page() {
    let mut state = SharedState {
        keymap_config: keymap(),
        player: PlayerState {
            devices: vec![],
            queue: None,
            playback: None,
            buffered_playback: None,
            context_id: Some(ContextId::Artist("ar".to_string())),
            context: Some(Context::Artist {
                artist: entry("ar", "Band"),
                top_tracks: vec![],
                albums: vec![entry("al1", "First"), entry("al2", "Second")],
                related_artists: vec![],
            }),
        },
    };
    let mut ui = ui(WindowState::Artist {
        top_tracks: 0,
        albums: 1,
        related_artists: 0,
        focus: ArtistFocusState::Albums,
    });
    let r = handle_key_sequence_for_context_window(&enter(), &mut state, &mut ui);
    assert!(matches!(r.request, Some(ClientRequest::GetContext(ContextId::Album(ref id))) if id == "al2"));
    assert_eq!(ui.history.len(), 1);
    assert!(matches!(&ui.history[0], PageState::Browsing(ContextId::Album(id)) if id == "al2"));
}

fn search_ui(query: &str, focus: SearchFocusState) -> UIState {
    UIState {
        window: WindowState::Search { tracks: 0, artists: 0, albums: 0, playlists: 0, focus },
        popup: None,
        history: vec![PageState::Searching {
            query: query.to_string(),
            results: SearchResults {
                tracks: vec![track("t1", "One"), track("t2", "Two")],
                artists: vec![entry("a1", "Artist")],
                albums: vec![],
                playlists: vec![entry("p1", "List")],
            },
        }],
    }
}

fn query_of(ui: &UIState) -> String {
    match ui.history.last() {
        Some(PageState::Searching { query, .. }) => query.clone(),
        _ => panic!("not a search page"),
    }
}

#[test]
fn search_input_typing_and_submit() {
    let state = playlist_state(vec![]);
    let mut ui = search_ui("", SearchFocusState::Input);
    let r = handle_key_sequence_for_search_window(&keys(Key::Plain(KeyCode::Char('a'))), &state, &mut ui);
    assert!(r.consumed);
    assert!(r.request.is_none());
    assert_eq!(query_of(&ui), "a");
    let r = handle_key_sequence_for_search_window(&enter(), &state, &mut ui);
    assert!(r.consumed);
    assert!(matches!(r.request, Some(ClientRequest::Search(ref q)) if q == "a"));

    let mut ui = search_ui("", SearchFocusState::Input);
    let r = handle_key_sequence_for_search_window(&enter(), &state, &mut ui);
    assert!(r.consumed);
    assert!(r.request.is_none());
}

#[test]
fn search_input_backspace() {
    let state = playlist_state(vec![]);
    let mut ui = search_ui("ab", SearchFocusState::Input);
    let bs = keys(Key::Plain(KeyCode::Backspace));
    assert!(handle_key_sequence_for_search_window(&bs, &state, &mut ui).consumed);
    assert_eq!(query_of(&ui), "a");
    handle_key_sequence_for_search_window(&bs, &state, &mut ui);
    let r = handle_key_sequence_for_search_window(&bs, &state, &mut ui);
    assert!(r.consumed);
    assert_eq!(query_of(&ui), "");
}

#[test]
fn search_input_blocks_other_commands() {
    let state = playlist_state(vec![]);
    let mut ui = search_ui("", SearchFocusState::Input);
    let r = handle_key_sequence_for_search_window(&keys(Key::Plain(KeyCode::Char('/'))), &state, &mut ui);
    assert!(r.consumed);
    assert_eq!(query_of(&ui), "/");
    let r = handle_key_sequence_for_search_window(&keys(Key::Alt(KeyCode::Char('t'))), &state, &mut ui);
    assert!(!r.consumed);
    let r = handle_key_sequence_for_search_window(&j(), &state, &mut ui);
    assert!(r.consumed);
    assert_eq!(query_of(&ui), "/j");
    let r = handle_key_sequence_for_search_window(&keys(Key::Plain(KeyCode::Tab)), &state, &mut ui);
    assert!(r.consumed);
    assert!(matches!(ui.window, WindowState::Search { focus: SearchFocusState::Tracks, .. }));
    handle_key_sequence_for_search_window(&keys(Key::Ctrl(KeyCode::Tab)), &state, &mut ui);
    let r = handle_key_sequence_for_search_window(&keys(Key::Ctrl(KeyCode::Tab)), &state, &mut ui);
    assert!(r.consumed);
    assert!(matches!(ui.window, WindowState::Search { focus: SearchFocusState::Playlists, .. }));
}

#[test]
fn search_results_track_plays_alone() {
    let state = playlist_state(vec![]);
    let mut ui = search_ui("x", SearchFocusState::Tracks);
    handle_key_sequence_for_search_window(&j(), &state, &mut ui);
    let r = handle_key_sequence_for_search_window(&enter(), &state, &mut ui);
    match r.request {
        Some(ClientRequest::StartPlayback(Playback::URIs(ids, None))) => assert_eq!(ids, vec!["t2"]),
        _ => panic!("expected a single-track playback"),
    }
}

#[test]
fn search_results_playlist_choice_browses_it() {
    let state = playlist_state(vec![]);
    let mut ui = search_ui("x", SearchFocusState::Playlists);
    let r = handle_key_sequence_for_search_window(&enter(), &state, &mut ui);
    assert!(matches!(r.request, Some(ClientRequest::GetContext(ContextId::Playlist(ref id))) if id == "p1"));
    assert_eq!(ui.history.len(), 2);
}

#[test]
fn search_window_ignores_other_windows() {
    let state = playlist_state(vec![]);
    let mut ui = ui(WindowState::Playlist { track_table: 0 });
    let r = handle_key_sequence_for_search_window(&keys(Key::Plain(KeyCode::Char('a'))), &state, &mut ui);
    assert!(!r.consumed);
}

fn recommendation_ui(tracks: Option<Vec<Track>>) -> UIState {
    UIState {
        window: WindowState::Recommendations { track_table: 0 },
        popup: None,
        history: vec![PageState::Recommendations(tracks)],
    }
}

#[test]
fn recommendation_random_play_uses_all_tracks() {
    let state = playlist_state(vec![]);
    let tracks = vec![track("r1", "Aa"), track("r2", "Bb"), track("r3", "Ab")];
    let mut ui = recommendation_ui(Some(tracks));
    ui.popup = Some(PopupState::ContextSearch("A".to_string()));
    let r = handle_key_sequence_for_recommendation_window(
        &keys(Key::Ctrl(KeyCode::Char('r'))),
        &state,
        &mut ui,
    );
    assert!(r.consumed);
    match r.request {
        Some(ClientRequest::StartPlayback(Playback::URIs(ids, Some(o)))) => {
            assert_eq!(ids, vec!["r1", "r2", "r3"]);
            assert!(ids.contains(&o.track_id));
        }
        _ => panic!("expected a track list playback"),
    }
    // choosing acts on the filtered view but plays the whole list
    handle_key_sequence_for_recommendation_window(&j(), &state, &mut ui);
    let r = handle_key_sequence_for_recommendation_window(&enter(), &state, &mut ui);
    match r.request {
        Some(ClientRequest::StartPlayback(Playback::URIs(ids, Some(o)))) => {
            assert_eq!(ids, vec!["r1", "r2", "r3"]);
            assert_eq!(o.track_id, "r3");
        }
        _ => panic!("expected a track list playback"),
    }
}

#[test]
fn recommendation_without_tracks_sends_nothing() {
    let state = playlist_state(vec![]);
    let mut ui = recommendation_ui(None);
    let r = handle_key_sequence_for_recommendation_window(
        &keys(Key::Ctrl(KeyCode::Char('r'))),
        &state,
        &mut ui,
    );
    assert!(r.consumed);
    assert!(r.request.is_none());
    let r = handle_key_sequence_for_recommendation_window(&enter(), &state, &mut ui);
    assert!(!r.consumed);
}

#[test]
fn random_play_of_empty_playlist_has_no_offset() {
    let mut state = playlist_state(vec![]);
    let mut ui = ui(WindowState::Playlist { track_table: 0 });
    let r = handle_key_sequence_for_context_window(
        &keys(Key::Ctrl(KeyCode::Char('r'))),
        &mut state,
        &mut ui,
    );
    assert!(r.consumed);
    assert!(matches!(
        r.request,
        Some(ClientRequest::StartPlayback(Playback::Context(ContextId::Playlist(_), None)))
    ));
}

#[test]
fn select_previous_on_empty_lists_keeps_cursor() {
    let k = keys(Key::Plain(KeyCode::Char('k')));
    let mut empty = playlist_state(vec![]);
    let mut ui_table = ui(WindowState::Playlist { track_table: 1 });
    let r = handle_key_sequence_for_context_window(&k, &mut empty, &mut ui_table);
    assert!(r.consumed);
    assert!(r.request.is_none());
    assert_eq!(ui_table.window, WindowState::Playlist { track_table: 1 });
    handle_key_sequence_for_context_window(&j(), &mut empty, &mut ui_table);
    assert_eq!(ui_table.window, WindowState::Playlist { track_table: 1 });

    let state = playlist_state(vec![]);
    let mut ui_search = search_ui("x", SearchFocusState::Albums);
    ui_search.window = WindowState::Search {
        tracks: 0,
        artists: 0,
        albums: 1,
        playlists: 0,
        focus: SearchFocusState::Albums,
    };
    let r = handle_key_sequence_for_search_window(&k, &state, &mut ui_search);
    assert!(r.consumed);
    assert!(matches!(ui_search.window, WindowState::Search { albums: 1, .. }));

    let mut ui_rec = recommendation_ui(None);
    ui_rec.window = WindowState::Recommendations { track_table: 1 };
    let r = handle_key_sequence_for_recommendation_window(&k, &state, &mut ui_rec);
    assert!(r.consumed);
    assert!(r.request.is_none());
    assert_eq!(ui_rec.window, WindowState::Recommendations { track_table: 1 });
}

#[test]
fn random_track_list_playback_starts_at_pick() {
    let tracks = vec![track("r1", "A"), track("r2", "B"), track("r3", "C")];
    match random_track_list_playback(&tracks, 1) {
        Playback::URIs(ids, Some(o)) => {
            assert_eq!(ids, vec!["r1", "r2", "r3"]);
            assert_eq!(o.track_id, "r2");
        }
        _ => panic!("expected a track list playback"),
    }
}
