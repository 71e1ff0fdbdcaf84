//! Tracks, albums, artists, playlists and the browsing context that holds them.
use vstd::prelude::*;

verus! {

/// A track as shown in a track table.
pub struct Track {
    pub id: String,
    pub name: String,
    pub album: String,
    pub artists: String,
    /// When the track was added to its playlist, in seconds.
    pub added_at: u64,
    /// Length of the track, in milliseconds.
    pub duration: u64,
}

impl Track {
    pub fn copy(&self) -> (r: Track)
        ensures
            r == *self,
    {
        Track {
            id: self.id.clone(),
            name: self.name.clone(),
            album: self.album.clone(),
            artists: self.artists.clone(),
            added_at: self.added_at,
            duration: self.duration,
        }
    }
}

/// An album, an artist or a playlist, as shown in a list: its id and its name.
pub struct Entry {
    pub id: String,
    pub name: String,
}

pub type Album = Entry;

pub type Artist = Entry;

pub type Playlist = Entry;

impl Entry {
    pub fn copy(&self) -> (r: Entry)
        ensures
            r == *self,
    {
        Entry { id: self.id.clone(), name: self.name.clone() }
    }
}

/// A server-side playback grouping, referred to by its id.
#[derive(Debug)]
pub enum ContextId {
    Playlist(String),
    Album(String),
    Artist(String),
}

impl ContextId {
    pub fn copy(&self) -> (r: ContextId)
        ensures
            r == *self,
    {
        match self {
            ContextId::Playlist(id) => ContextId::Playlist(id.clone()),
            ContextId::Album(id) => ContextId::Album(id.clone()),
            ContextId::Artist(id) => ContextId::Artist(id.clone()),
        }
    }
}

/// The browsing context that is loaded.
pub enum Context {
    Artist { artist: Artist, top_tracks: Vec<Track>, albums: Vec<Album>, related_artists: Vec<Artist> },
    Album { album: Album, tracks: Vec<Track> },
    Playlist { playlist: Playlist, tracks: Vec<Track> },
}

/// `b` is `a` with its track list replaced by `tracks`.
pub open spec fn with_tracks(a: Context, b: Context, tracks: Seq<Track>) -> bool {
    match (a, b) {
        (
            Context::Artist { artist: x, albums: al, related_artists: ra, .. },
            Context::Artist { artist: y, top_tracks: t, albums: bl, related_artists: rb },
        ) => x == y && al == bl && ra == rb && t@ == tracks,
        (Context::Album { album: x, .. }, Context::Album { album: y, tracks: t }) => x == y && t@
            == tracks,
        (Context::Playlist { playlist: x, .. }, Context::Playlist { playlist: y, tracks: t }) => x
            == y && t@ == tracks,
        _ => false,
    }
}

impl Context {
    pub open spec fn tracks_spec(&self) -> Seq<Track> {
        match self {
            Context::Artist { top_tracks, .. } => top_tracks@,
            Context::Album { tracks, .. } => tracks@,
            Context::Playlist { tracks, .. } => tracks@,
        }
    }

    pub fn tracks(&self) -> (r: &Vec<Track>)
        ensures
            r@ == self.tracks_spec(),
    {
        match self {
            Context::Artist { top_tracks, .. } => top_tracks,
            Context::Album { tracks, .. } => tracks,
            Context::Playlist { tracks, .. } => tracks,
        }
    }

    /// Sorts the context's tracks stably by `order`.
    pub fn sort_tracks(&mut self, order: ContextSortOrder)
        ensures
            with_tracks(*old(self), *final(self), sorted_by(order, old(self).tracks_spec())),
    {
        match self {
            Context::Artist { top_tracks, .. } => sort_track_list(order, top_tracks),
            Context::Album { tracks, .. } => sort_track_list(order, tracks),
            Context::Playlist { tracks, .. } => sort_track_list(order, tracks),
        }
    }

    /// Reverses the order of the context's tracks.
    pub fn reverse_tracks(&mut self)
        ensures
            with_tracks(*old(self), *final(self), old(self).tracks_spec().reverse()),
    {
        match self {
            Context::Artist { top_tracks, .. } => reverse_track_list(top_tracks),
            Context::Album { tracks, .. } => reverse_track_list(tracks),
            Context::Playlist { tracks, .. } => reverse_track_list(tracks),
        }
    }
}

/// `pat` occurs in `text` as a run of consecutive characters.
pub open spec fn has_infix(text: Seq<char>, pat: Seq<char>) -> bool {
    exists|k: int| 0 <= k <= text.len() - pat.len() && #[trigger] text.subrange(k, k + pat.len()) == pat
}

/// Whether `pat` occurs in `text` as a run of consecutive characters.
pub fn contains_str(text: &str, pat: &str) -> (r: bool)
    ensures
        r == has_infix(text@, pat@),
{
    let n = text.unicode_len();
    let m = pat.unicode_len();
    if m > n {
        return false;
    }
    let mut k: usize = 0;
    while k <= n - m
        invariant
            n == text@.len(),
            m == pat@.len(),
            m <= n,
            0 <= k <= n - m + 1,
            forall|j: int| 0 <= j < k ==> #[trigger] text@.subrange(j, j + m) != pat@,
        decreases n - m + 1 - k,
    {
        let mut i: usize = 0;
        let mut mismatch = false;
        while i < m && !mismatch
            invariant
                n == text@.len(),
                m == pat@.len(),
                k + m <= n,
                0 <= i <= m,
                forall|j: int| 0 <= j < i ==> text@[k + j] == pat@[j],
                mismatch ==> i < m && text@[k + i] != pat@[i as int],
            decreases m - i + (if mismatch { 0int } else { 1int }),
        {
            if text.get_char(k + i) != pat.get_char(i) {
                mismatch = true;
            } else {
                i = i + 1;
            }
        }
        if !mismatch {
            assert(text@.subrange(k as int, k + m) =~= pat@);
            return true;
        }
        assert(text@.subrange(k as int, k + m)[i as int] != pat@[i as int]);
        k = k + 1;
    }
    assert forall|j: int| 0 <= j <= n - m implies #[trigger] text@.subrange(j, j + m) != pat@ by {
        assert(j < k);
    }
    false
}

/// The tracks of `s` whose name contains `q`, in their order.
pub open spec fn tracks_matching(s: Seq<Track>, q: Seq<char>) -> Seq<Track>
    decreases s.len(),
{
    if s.len() == 0 {
        s
    } else if has_infix(s.last().name@, q) {
        tracks_matching(s.drop_last(), q).push(s.last())
    } else {
        tracks_matching(s.drop_last(), q)
    }
}

/// The entries of `s` whose name contains `q`, in their order.
pub open spec fn entries_matching(s: Seq<Entry>, q: Seq<char>) -> Seq<Entry>
    decreases s.len(),
{
    if s.len() == 0 {
        s
    } else if has_infix(s.last().name@, q) {
        entries_matching(s.drop_last(), q).push(s.last())
    } else {
        entries_matching(s.drop_last(), q)
    }
}

/// Copies the tracks.
pub fn copy_tracks(tracks: &Vec<Track>) -> (r: Vec<Track>)
    ensures
        r@ == tracks@,
{
    let mut out: Vec<Track> = Vec::new();
    let mut i: usize = 0;
    while i < tracks.len()
        invariant
            0 <= i <= tracks@.len(),
            out@ == tracks@.take(i as int),
        decreases tracks@.len() - i,
    {
        out.push(tracks[i].copy());
        i = i + 1;
        assert(out@ =~= tracks@.take(i as int));
    }
    assert(tracks@.take(i as int) =~= tracks@);
    out
}

/// Copies the entries.
pub fn copy_entries(entries: &Vec<Entry>) -> (r: Vec<Entry>)
    ensures
        r@ == entries@,
{
    let mut out: Vec<Entry> = Vec::new();
    let mut i: usize = 0;
    while i < entries.len()
        invariant
            0 <= i <= entries@.len(),
            out@ == entries@.take(i as int),
        decreases entries@.len() - i,
    {
        out.push(entries[i].copy());
        i = i + 1;
        assert(out@ =~= entries@.take(i as int));
    }
    assert(entries@.take(i as int) =~= entries@);
    out
}

/// Copies the tracks whose name contains `query`.
pub fn filter_tracks(tracks: &Vec<Track>, query: &str) -> (r: Vec<Track>)
    ensures
        r@ == tracks_matching(tracks@, query@),
{
    let mut out: Vec<Track> = Vec::new();
    let mut i: usize = 0;
    while i < tracks.len()
        invariant
            0 <= i <= tracks@.len(),
            out@ == tracks_matching(tracks@.take(i as int), query@),
        decreases tracks@.len() - i,
    {
        assert(tracks@.take(i as int + 1).drop_last() =~= tracks@.take(i as int));
        if contains_str(tracks[i].name.as_str(), query) {
            out.push(tracks[i].copy());
        }
        i = i + 1;
    }
    assert(tracks@.take(i as int) =~= tracks@);
    out
}

/// Copies the entries whose name contains `query`.
pub fn filter_entries(entries: &Vec<Entry>, query: &str) -> (r: Vec<Entry>)
    ensures
        r@ == entries_matching(entries@, query@),
{
    let mut out: Vec<Entry> = Vec::new();
    let mut i: usize = 0;
    while i < entries.len()
        invariant
            0 <= i <= entries@.len(),
            out@ == entries_matching(entries@.take(i as int), query@),
        decreases entries@.len() - i,
    {
        assert(entries@.take(i as int + 1).drop_last() =~= entries@.take(i as int));
        if contains_str(entries[i].name.as_str(), query) {
            out.push(entries[i].copy());
        }
        i = i + 1;
    }
    assert(entries@.take(i as int) =~= entries@);
    out
}

/// The order by which a context's tracks can be sorted.
#[derive(Clone, Copy, Debug, PartialEq, Eq, Structural)]
pub enum ContextSortOrder {
    TrackName,
    Album,
    Artists,
    AddedAt,
    Duration,
}

/// Lexicographic order on characters from position `i` on.
pub open spec fn lex_le_from(a: Seq<char>, b: Seq<char>, i: int) -> bool
    decreases a.len() - i,
{
    if i < 0 || i >= a.len() {
        true
    } else if i >= b.len() {
        false
    } else if (a[i] as u32) != (b[i] as u32) {
        (a[i] as u32) < (b[i] as u32)
    } else {
        lex_le_from(a, b, i + 1)
    }
}

/// `a` comes no later than `b` in lexicographic order.
pub open spec fn lex_le(a: Seq<char>, b: Seq<char>) -> bool {
    lex_le_from(a, b, 0)
}

/// Track `a` may stand before track `b` when sorted by `order`.
pub open spec fn track_le(order: ContextSortOrder, a: Track, b: Track) -> bool {
    match order {
        ContextSortOrder::TrackName => lex_le(a.name@, b.name@),
        ContextSortOrder::Album => lex_le(a.album@, b.album@),
        ContextSortOrder::Artists => lex_le(a.artists@, b.artists@),
        ContextSortOrder::AddedAt => a.added_at <= b.added_at,
        ContextSortOrder::Duration => a.duration <= b.duration,
    }
}

/// Inserts `x` into `s` right after the last element that may stand before it.
pub open spec fn insert_sorted(order: ContextSortOrder, s: Seq<Track>, x: Track) -> Seq<Track>
    decreases s.len(),
{
    if s.len() == 0 {
        seq![x]
    } else if track_le(order, s.last(), x) {
        s.push(x)
    } else {
        insert_sorted(order, s.drop_last(), x).push(s.last())
    }
}

/// The stable sort of `s` by `order`: each element is inserted after all earlier
/// elements whose key is not greater than its own.
pub open spec fn sorted_by(order: ContextSortOrder, s: Seq<Track>) -> Seq<Track>
    decreases s.len(),
{
    if s.len() == 0 {
        s
    } else {
        insert_sorted(order, sorted_by(order, s.drop_last()), s.last())
    }
}

/// Every two neighbours of `s` are in order.
pub open spec fn is_sorted(order: ContextSortOrder, s: Seq<Track>) -> bool {
    forall|i: int| 0 <= i < s.len() - 1 ==> #[trigger] track_le(order, s[i], s[i + 1])
}

proof fn lemma_lex_total_from(a: Seq<char>, b: Seq<char>, i: int)
    requires
        0 <= i,
    ensures
        lex_le_from(a, b, i) || lex_le_from(b, a, i),
    decreases a.len() - i,
{
    if i < a.len() && i < b.len() && (a[i] as u32) == (b[i] as u32) {
        lemma_lex_total_from(a, b, i + 1);
    }
}

proof fn lemma_track_le_total(order: ContextSortOrder, a: Track, b: Track)
    ensures
        track_le(order, a, b) || track_le(order, b, a),
{
    match order {
        ContextSortOrder::TrackName => lemma_lex_total_from(a.name@, b.name@, 0),
        ContextSortOrder::Album => lemma_lex_total_from(a.album@, b.album@, 0),
        ContextSortOrder::Artists => lemma_lex_total_from(a.artists@, b.artists@, 0),
        _ => {},
    }
}

proof fn lemma_insert_sorted(order: ContextSortOrder, s: Seq<Track>, x: Track)
    requires
        is_sorted(order, s),
    ensures
        is_sorted(order, insert_sorted(order, s, x)),
        insert_sorted(order, s, x).len() == s.len() + 1,
        insert_sorted(order, s, x).last() == x || (s.len() > 0 && insert_sorted(order, s, x).last()
            == s.last()),
    decreases s.len(),
{
    if s.len() > 0 && !track_le(order, s.last(), x) {
        let t = s.drop_last();
        assert(is_sorted(order, t)) by {
            assert forall|i: int| 0 <= i < t.len() - 1 implies #[trigger] track_le(
                order,
                t[i],
                t[i + 1],
            ) by {
                assert(track_le(order, s[i], s[i + 1]));
            }
        }
        lemma_insert_sorted(order, t, x);
        let r = insert_sorted(order, t, x);
        lemma_track_le_total(order, s.last(), x);
        if t.len() > 0 {
            let k = t.len() - 1;
            assert(track_le(order, s[k], s[k + 1]));
        }
        assert(track_le(order, r.last(), s.last()));
        let rr = r.push(s.last());
        assert forall|i: int| 0 <= i < rr.len() - 1 implies #[trigger] track_le(
            order,
            rr[i],
            rr[i + 1],
        ) by {
            if i < r.len() - 1 {
                assert(track_le(order, r[i], r[i + 1]));
            }
        }
    }
}

/// What `sorted_by` gives is in order and as long as its input.
pub proof fn lemma_sorted_by_is_sorted(order: ContextSortOrder, s: Seq<Track>)
    ensures
        is_sorted(order, sorted_by(order, s)),
        sorted_by(order, s).len() == s.len(),
    decreases s.len(),
{
    if s.len() > 0 {
        lemma_sorted_by_is_sorted(order, s.drop_last());
        lemma_insert_sorted(order, sorted_by(order, s.drop_last()), s.last());
    }
}

/// A sequence already in order is left as it is by `sorted_by`.
pub proof fn lemma_sorted_by_keeps_sorted(order: ContextSortOrder, s: Seq<Track>)
    requires
        is_sorted(order, s),
    ensures
        sorted_by(order, s) == s,
    decreases s.len(),
{
    if s.len() > 0 {
        let t = s.drop_last();
        assert(is_sorted(order, t)) by {
            assert forall|i: int| 0 <= i < t.len() - 1 implies #[trigger] track_le(
                order,
                t[i],
                t[i + 1],
            ) by {
                assert(track_le(order, s[i], s[i + 1]));
            }
        }
        lemma_sorted_by_keeps_sorted(order, t);
        if t.len() > 0 {
            let k = t.len() - 1;
            assert(track_le(order, s[k], s[k + 1]));
        }
        assert(t.push(s.last()) =~= s);
    }
}

/// Sorting twice by the same order gives what sorting once gives.
pub proof fn lemma_sort_idempotent(order: ContextSortOrder, s: Seq<Track>)
    ensures
        sorted_by(order, sorted_by(order, s)) == sorted_by(order, s),
{
    lemma_sorted_by_is_sorted(order, s);
    lemma_sorted_by_keeps_sorted(order, sorted_by(order, s));
}

proof fn lemma_lex_transitive_from(a: Seq<char>, b: Seq<char>, c: Seq<char>, i: int)
    requires
        0 <= i,
        lex_le_from(a, b, i),
        lex_le_from(b, c, i),
    ensures
        lex_le_from(a, c, i),
    decreases a.len() - i,
{
    if i < a.len() && i < b.len() && i < c.len() && (a[i] as u32) == (b[i] as u32) && (b[i]
        as u32) == (c[i] as u32) {
        lemma_lex_transitive_from(a, b, c, i + 1);
    }
}

proof fn lemma_track_le_transitive(order: ContextSortOrder, a: Track, b: Track, c: Track)
    requires
        track_le(order, a, b),
        track_le(order, b, c),
    ensures
        track_le(order, a, c),
{
    match order {
        ContextSortOrder::TrackName => lemma_lex_transitive_from(a.name@, b.name@, c.name@, 0),
        ContextSortOrder::Album => lemma_lex_transitive_from(a.album@, b.album@, c.album@, 0),
        ContextSortOrder::Artists => lemma_lex_transitive_from(
            a.artists@,
            b.artists@,
            c.artists@,
            0,
        ),
        _ => {},
    }
}

/// Tracks `a` and `b` have equal keys under `order`.
pub open spec fn same_key(order: ContextSortOrder, a: Track, b: Track) -> bool {
    track_le(order, a, b) && track_le(order, b, a)
}

/// The tracks of `s` whose key under `order` equals that of `x`, in their order.
pub open spec fn with_key_of(order: ContextSortOrder, s: Seq<Track>, x: Track) -> Seq<Track>
    decreases s.len(),
{
    if s.len() == 0 {
        s
    } else if same_key(order, s.last(), x) {
        with_key_of(order, s.drop_last(), x).push(s.last())
    } else {
        with_key_of(order, s.drop_last(), x)
    }
}

proof fn lemma_insert_keeps_key_order(order: ContextSortOrder, t: Seq<Track>, y: Track, x: Track)
    ensures
        with_key_of(order, insert_sorted(order, t, y), x) == if same_key(order, y, x) {
            with_key_of(order, t, x).push(y)
        } else {
            with_key_of(order, t, x)
        },
    decreases t.len(),
{
    if t.len() == 0 {
        assert(seq![y].drop_last() =~= t);
    } else if track_le(order, t.last(), y) {
        assert(t.push(y).drop_last() =~= t);
    } else {
        let t1 = t.drop_last();
        lemma_insert_keeps_key_order(order, t1, y, x);
        let ins = insert_sorted(order, t1, y);
        assert(ins.push(t.last()).drop_last() =~= ins);
        if same_key(order, t.last(), x) && same_key(order, y, x) {
            lemma_track_le_transitive(order, t.last(), x, y);
        }
    }
}

/// Sorting is stable: the tracks that share a key come out in the order in
/// which they went in.
pub proof fn lemma_sort_stable(order: ContextSortOrder, s: Seq<Track>, x: Track)
    ensures
        with_key_of(order, sorted_by(order, s), x) == with_key_of(order, s, x),
    decreases s.len(),
{
    if s.len() > 0 {
        lemma_sort_stable(order, s.drop_last(), x);
        lemma_insert_keeps_key_order(order, sorted_by(order, s.drop_last()), s.last(), x);
    }
}

/// Whether `a` comes no later than `b` in lexicographic order.
pub fn str_le(a: &str, b: &str) -> (r: bool)
    ensures
        r == lex_le(a@, b@),
{
    let la = a.unicode_len();
    let lb = b.unicode_len();
    let mut i: usize = 0;
    while i < la
        invariant
            la == a@.len(),
            lb == b@.len(),
            0 <= i <= la,
            lex_le_from(a@, b@, 0) == lex_le_from(a@, b@, i as int),
        decreases la - i,
    {
        if i >= lb {
            return false;
        }
        let ca = a.get_char(i);
        let cb = b.get_char(i);
        if (ca as u32) != (cb as u32) {
            return (ca as u32) < (cb as u32);
        }
        i = i + 1;
    }
    true
}

/// Whether track `a` may stand before track `b` when sorted by `order`.
pub fn track_le_exec(order: ContextSortOrder, a: &Track, b: &Track) -> (r: bool)
    ensures
        r == track_le(order, *a, *b),
{
    match order {
        ContextSortOrder::TrackName => str_le(a.name.as_str(), b.name.as_str()),
        ContextSortOrder::Album => str_le(a.album.as_str(), b.album.as_str()),
        ContextSortOrder::Artists => str_le(a.artists.as_str(), b.artists.as_str()),
        ContextSortOrder::AddedAt => a.added_at <= b.added_at,
        ContextSortOrder::Duration => a.duration <= b.duration,
    }
}

/// Sorts `tracks` stably by `order`.
pub fn sort_track_list(order: ContextSortOrder, tracks: &mut Vec<Track>)
    ensures
        final(tracks)@ == sorted_by(order, old(tracks)@),
{
    let n = tracks.len();
    let ghost input = tracks@;
    let mut out: Vec<Track> = Vec::new();
    let mut j: usize = 0;
    while j < n
        invariant
            n == input.len(),
            tracks@ == input,
            0 <= j <= n,
            out@ == sorted_by(order, input.take(j as int)),
        decreases n - j,
    {
        let x = tracks[j].copy();
        let ghost t = out@;
        assert(input.take(j as int + 1).drop_last() =~= input.take(j as int));
        out.push(x.copy());
        let mut k: usize = out.len() - 1;
        assert(t.take(k as int) =~= t);
        assert(t.skip(k as int) =~= Seq::<Track>::empty());
        assert(out@ =~= t.take(k as int).push(x) + t.skip(k as int));
        while k > 0 && !track_le_exec(order, &out[k - 1], &x)
            invariant
                0 <= k <= t.len(),
                out@ == t.take(k as int).push(x) + t.skip(k as int),
                insert_sorted(order, t, x) == insert_sorted(order, t.take(k as int), x) + t.skip(
                    k as int,
                ),
            decreases k,
        {
            let ghost tk = t.take(k as int);
            assert(tk.drop_last() =~= t.take(k as int - 1));
            assert(t.skip(k as int - 1) =~= seq![tk.last()] + t.skip(k as int));
            let prev = out[k - 1].copy();
            let cur = out[k].copy();
            out.set(k - 1, cur);
            out.set(k, prev);
            k = k - 1;
            assert(out@ =~= t.take(k as int).push(x) + t.skip(k as int));
            assert(insert_sorted(order, tk, x) =~= insert_sorted(order, t.take(k as int), x).push(
                tk.last(),
            ));
            assert(insert_sorted(order, t, x) =~= insert_sorted(order, t.take(k as int), x)
                + t.skip(k as int));
        }
        assert(out@ =~= insert_sorted(order, t, x)) by {
            if k == 0 {
                assert(t.take(0) =~= Seq::<Track>::empty());
            } else {
                assert(t.take(k as int).last() == t[k - 1]);
            }
        }
        j = j + 1;
    }
    assert(input.take(n as int) =~= input);
    *tracks = out;
}

/// Reverses the order of `tracks`.
pub fn reverse_track_list(tracks: &mut Vec<Track>)
    ensures
        final(tracks)@ == old(tracks)@.reverse(),
{
    let n = tracks.len();
    let mut out: Vec<Track> = Vec::new();
    let mut j: usize = n;
    while j > 0
        invariant
            n == tracks@.len(),
            0 <= j <= n,
            out@ =~= tracks@.subrange(j as int, n as int).reverse(),
        decreases j,
    {
        j = j - 1;
        let x = tracks[j].copy();
        out.push(x);
        assert(out@ =~= tracks@.subrange(j as int, n as int).reverse());
    }
    assert(tracks@.subrange(0, n as int) =~= tracks@);
    *tracks = out;
}

/// Reversing twice gives back the original order.
pub proof fn lemma_reverse_involution(s: Seq<Track>)
    ensures
        s.reverse().reverse() == s,
{
    assert(s.reverse().reverse() =~= s);
}

} // verus!
