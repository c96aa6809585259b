//! The artists page: a tree of artists (expandable into their albums) on the
//! left and the songs of an album on the right. What each key and click does
//! to the page and the queue, and what it asks the application to fetch or
//! play.

use vstd::prelude::*;
use vstd::string::*;

use crate::handlers::{select_next, select_previous, spec_select_next, spec_select_previous, QueueState};
use crate::keys::{Key, KeyInput};
use crate::models::{duplicate_songs, Child};
use crate::queue::insert_point;
use crate::text::{concat, decimal, pop_char, push_char, push_decimal};

verus! {

// ---------------------------------------------------------------------------
// Sets of ids kept in a vector

/// The ids a vector holds, as a set.
pub open spec fn id_set(v: Seq<String>) -> Set<Seq<char>> {
    Set::new(|s: Seq<char>| exists|i: int| 0 <= i < v.len() && (#[trigger] v[i])@ == s)
}

/// Whether `id` is among the ids of `v`.
pub fn contains_id(v: &Vec<String>, id: &String) -> (b: bool)
    ensures
        b == id_set(v@).contains(id@),
{
    let mut i: usize = 0;
    while i < v.len()
        invariant
            i <= v@.len(),
            forall|j: int| 0 <= j < i ==> (#[trigger] v@[j])@ != id@,
        decreases v@.len() - i,
    {
        if v[i] == *id {
            assert(id_set(v@).contains(id@)) by {
                assert(v@[i as int]@ == id@);
            }
            return true;
        }
        i = i + 1;
    }
    false
}

/// Adds `id` to the ids of `v`, unless it is there already.
pub fn insert_id(v: &mut Vec<String>, id: &String)
    ensures
        id_set(final(v)@) == id_set(old(v)@).insert(id@),
{
    if !contains_id(v, id) {
        let ghost before = v@;
        v.push(id.clone());
        assert forall|s: Seq<char>| id_set(v@).contains(s) == id_set(before).insert(id@).contains(s) by {
            if id_set(before).contains(s) {
                let j = choose|j: int| 0 <= j < before.len() && (#[trigger] before[j])@ == s;
                assert(v@[j] == before[j]);
            }
            if s == id@ {
                assert(v@[before.len() as int]@ == s);
            }
            if id_set(v@).contains(s) {
                let j = choose|j: int| 0 <= j < v@.len() && (#[trigger] v@[j])@ == s;
                if j < before.len() {
                    assert(before[j] == v@[j]);
                }
            }
        }
        assert(id_set(v@) =~= id_set(before).insert(id@));
    } else {
        assert(id_set(v@) =~= id_set(v@).insert(id@));
    }
}

/// Removes `id` from the ids of `v`.
pub fn remove_id(v: &mut Vec<String>, id: &String)
    ensures
        id_set(final(v)@) == id_set(old(v)@).remove(id@),
{
    let ghost before = v@;
    let mut kept: Vec<String> = Vec::new();
    let mut i: usize = 0;
    while i < v.len()
        invariant
            i <= v@.len(),
            v@ == before,
            forall|s: Seq<char>|
                id_set(kept@).contains(s) <==> (s != id@ && exists|j: int|
                    0 <= j < i && (#[trigger] before[j])@ == s),
        decreases v@.len() - i,
    {
        if v[i] != *id {
            let ghost k0 = kept@;
            kept.push(v[i].clone());
            assert forall|s: Seq<char>|
                id_set(kept@).contains(s) <==> (s != id@ && exists|j: int|
                    0 <= j < i + 1 && (#[trigger] before[j])@ == s) by {
                if id_set(kept@).contains(s) {
                    let j = choose|j: int| 0 <= j < kept@.len() && (#[trigger] kept@[j])@ == s;
                    if j < k0.len() {
                        assert(k0[j] == kept@[j]);
                        assert(id_set(k0).contains(s));
                    } else {
                        assert(before[i as int]@ == s);
                    }
                }
                if s != id@ && exists|j: int| 0 <= j < i + 1 && (#[trigger] before[j])@ == s {
                    let j = choose|j: int| 0 <= j < i + 1 && (#[trigger] before[j])@ == s;
                    if j < i {
                        assert(id_set(k0).contains(s));
                        let m = choose|m: int| 0 <= m < k0.len() && (#[trigger] k0[m])@ == s;
                        assert(kept@[m] == k0[m]);
                    } else {
                        assert(kept@[k0.len() as int]@ == s);
                    }
                }
            }
        } else {
            assert forall|s: Seq<char>|
                id_set(kept@).contains(s) <==> (s != id@ && exists|j: int|
                    0 <= j < i + 1 && (#[trigger] before[j])@ == s) by {
                if s != id@ && exists|j: int| 0 <= j < i + 1 && (#[trigger] before[j])@ == s {
                    let j = choose|j: int| 0 <= j < i + 1 && (#[trigger] before[j])@ == s;
                    assert(j < i);
                }
            }
        }
        i = i + 1;
    }
    assert(id_set(kept@) =~= id_set(before).remove(id@));
    *v = kept;
}

/// Removes every id from `v`.
pub fn clear_ids(v: &mut Vec<String>)
    ensures
        id_set(final(v)@) == Set::<Seq<char>>::empty(),
{
    v.clear();
    assert(id_set(v@) =~= Set::<Seq<char>>::empty());
}

} // verus!

verus! {

/// One row of the artists tree: an artist (expanded or not) or one of the
/// albums of an expanded artist.
#[derive(Debug, Clone)]
pub enum TreeEntry {
    Artist { id: String, name: String, expanded: bool },
    Album { id: String, name: String },
}

/// A tree row as its ids and names.
pub enum TreeView {
    Artist(Seq<char>, bool),
    Album(Seq<char>, Seq<char>),
}

/// The view of a tree row.
pub open spec fn tree_view(e: TreeEntry) -> TreeView {
    match e {
        TreeEntry::Artist { id, name, expanded } => TreeView::Artist(id@, expanded),
        TreeEntry::Album { id, name } => TreeView::Album(id@, name@),
    }
}

/// The views of the rows of a tree.
pub open spec fn tree_views(tree: Seq<TreeEntry>) -> Seq<TreeView> {
    tree.map_values(|e: TreeEntry| tree_view(e))
}

/// The state of the artists page.
pub struct ArtistsPage {
    /// Whether typed keys edit the filter.
    pub filter_active: bool,
    pub filter: String,
    /// Ids of the artists shown expanded.
    pub expanded: Vec<String>,
    /// Ids of the artists whose albums are loaded.
    pub cached: Vec<String>,
    /// The selected row of the tree.
    pub selected_index: Option<usize>,
    /// 0: the tree has the focus; 1: the songs have it.
    pub focus: usize,
    /// The songs shown on the right.
    pub songs: Vec<Child>,
    pub selected_song: Option<usize>,
    pub tree_scroll_offset: usize,
    pub song_scroll_offset: usize,
}

/// The artists page as sets, sequences and numbers.
#[verifier::ext_equal]
pub struct ArtistsView {
    pub filter_active: bool,
    pub filter: Seq<char>,
    pub expanded: Set<Seq<char>>,
    pub cached: Set<Seq<char>>,
    pub selected_index: Option<usize>,
    pub focus: usize,
    pub songs: Seq<Child>,
    pub selected_song: Option<usize>,
    pub tree_scroll_offset: usize,
    pub song_scroll_offset: usize,
}

impl View for ArtistsPage {
    type V = ArtistsView;

    open spec fn view(&self) -> ArtistsView {
        ArtistsView {
            filter_active: self.filter_active,
            filter: self.filter@,
            expanded: id_set(self.expanded@),
            cached: id_set(self.cached@),
            selected_index: self.selected_index,
            focus: self.focus,
            songs: self.songs@,
            selected_song: self.selected_song,
            tree_scroll_offset: self.tree_scroll_offset,
            song_scroll_offset: self.song_scroll_offset,
        }
    }
}

/// What the artists page asks the application to do.
#[derive(Debug, Clone)]
pub enum ArtistsEffect {
    Nothing,
    /// Fetch the albums of this artist, then call `albums_loaded`.
    LoadAlbums { artist_id: String },
    /// Fetch the songs of this album, then call `preview_loaded`.
    PreviewAlbum { album_id: String },
    /// Fetch the songs of this album, then call `album_play_loaded`.
    PlayAlbum { album_id: String, album_name: String },
    /// Start playing the queue at this position, showing `notice`.
    PlaySong { position: usize, notice: String },
    /// Show this notice.
    Notify(String),
}

/// An effect as ids, names and numbers.
pub enum EffectView {
    Nothing,
    LoadAlbums(Seq<char>),
    PreviewAlbum(Seq<char>),
    PlayAlbum(Seq<char>, Seq<char>),
    PlaySong(usize, Seq<char>),
    Notify(Seq<char>),
}

impl View for ArtistsEffect {
    type V = EffectView;

    open spec fn view(&self) -> EffectView {
        match self {
            ArtistsEffect::Nothing => EffectView::Nothing,
            ArtistsEffect::LoadAlbums { artist_id } => EffectView::LoadAlbums(artist_id@),
            ArtistsEffect::PreviewAlbum { album_id } => EffectView::PreviewAlbum(album_id@),
            ArtistsEffect::PlayAlbum { album_id, album_name } => EffectView::PlayAlbum(
                album_id@,
                album_name@,
            ),
            ArtistsEffect::PlaySong { position, notice } => EffectView::PlaySong(*position, notice@),
            ArtistsEffect::Notify(t) => EffectView::Notify(t@),
        }
    }
}

/// The page, the queue's songs and position, and the effect after a step.
pub struct ArtistsStep {
    pub page: ArtistsView,
    pub queue: Seq<Child>,
    pub position: Option<usize>,
    pub effect: EffectView,
}

/// A step that changes only the page.
pub open spec fn page_step(page: ArtistsView, queue: Seq<Child>, position: Option<usize>) -> ArtistsStep {
    ArtistsStep { page, queue, position, effect: EffectView::Nothing }
}

/// Activating the tree row `idx` (Enter, or a second click): an expanded
/// artist collapses; a collapsed one expands when its albums are loaded and
/// asks for them otherwise; an album is played.
pub open spec fn spec_activate_row(
    p: ArtistsView,
    queue: Seq<Child>,
    position: Option<usize>,
    tree: Seq<TreeView>,
    idx: int,
) -> ArtistsStep {
    match tree[idx] {
        TreeView::Artist(id, true) => page_step(ArtistsView { expanded: p.expanded.remove(id), ..p }, queue, position),
        TreeView::Artist(id, false) => if p.cached.contains(id) {
            page_step(ArtistsView { expanded: p.expanded.insert(id), ..p }, queue, position)
        } else {
            ArtistsStep { page: p, queue, position, effect: EffectView::LoadAlbums(id) }
        },
        TreeView::Album(id, name) => ArtistsStep { page: p, queue, position, effect: EffectView::PlayAlbum(id, name) },
    }
}

/// Playing the song `idx` of the right pane: the queue becomes the pane's
/// songs and plays from that song.
pub open spec fn spec_play_song(p: ArtistsView, idx: int) -> ArtistsStep {
    ArtistsStep {
        page: p,
        queue: p.songs,
        position: Some(idx as usize),
        effect: EffectView::PlaySong(idx as usize, "Playing: "@ + p.songs[idx].title@),
    }
}

/// Moving the tree selection: an album landed on is previewed.
pub open spec fn spec_tree_move(
    p: ArtistsView,
    queue: Seq<Child>,
    position: Option<usize>,
    tree: Seq<TreeView>,
    sel: Option<usize>,
) -> ArtistsStep {
    let page = ArtistsView { selected_index: sel, ..p };
    match sel {
        Some(i) if i < tree.len() && tree[i as int] is Album => ArtistsStep {
            page,
            queue,
            position,
            effect: EffectView::PreviewAlbum(tree[i as int]->Album_0),
        },
        _ => page_step(page, queue, position),
    }
}

/// What a key does while the filter is edited: Esc drops the filter, Enter
/// keeps it, Backspace and characters edit it.
pub open spec fn spec_filter_key(p: ArtistsView, key: Key) -> ArtistsView {
    match key {
        Key::Esc => ArtistsView { filter_active: false, filter: Seq::empty(), ..p },
        Key::Enter => ArtistsView { filter_active: false, ..p },
        Key::Backspace => ArtistsView {
            filter: if p.filter.len() > 0 { p.filter.drop_last() } else { p.filter },
            ..p
        },
        Key::Char(c) => ArtistsView { filter: p.filter.push(c), ..p },
        _ => p,
    }
}

/// What a key does on the artists page.
pub open spec fn spec_artists_key(
    p: ArtistsView,
    queue: Seq<Child>,
    position: Option<usize>,
    tree: Seq<TreeView>,
    key: Key,
) -> ArtistsStep {
    if p.filter_active {
        page_step(spec_filter_key(p, key), queue, position)
    } else {
        match key {
            Key::Char('/') => page_step(ArtistsView { filter_active: true, ..p }, queue, position),
            Key::Esc => page_step(
                ArtistsView { filter: Seq::empty(), expanded: Set::empty(), selected_index: Some(0), ..p },
                queue,
                position,
            ),
            Key::Tab => page_step(ArtistsView { focus: ((p.focus + 1) % 2) as usize, ..p }, queue, position),
            Key::Left => page_step(ArtistsView { focus: 0, ..p }, queue, position),
            Key::Right => if p.songs.len() > 0 {
                page_step(
                    ArtistsView {
                        focus: 1,
                        selected_song: if p.selected_song is None { Some(0) } else { p.selected_song },
                        ..p
                    },
                    queue,
                    position,
                )
            } else {
                page_step(p, queue, position)
            },
            Key::Up | Key::Char('k') => if p.focus == 0 {
                spec_tree_move(p, queue, position, tree, spec_select_previous(p.selected_index, tree.len()))
            } else {
                page_step(
                    ArtistsView { selected_song: spec_select_previous(p.selected_song, p.songs.len()), ..p },
                    queue,
                    position,
                )
            },
            Key::Down | Key::Char('j') => if p.focus == 0 {
                spec_tree_move(p, queue, position, tree, spec_select_next(p.selected_index, tree.len()))
            } else {
                page_step(
                    ArtistsView { selected_song: spec_select_next(p.selected_song, p.songs.len()), ..p },
                    queue,
                    position,
                )
            },
            Key::Enter => if p.focus == 0 {
                match p.selected_index {
                    Some(idx) if idx < tree.len() => spec_activate_row(p, queue, position, tree, idx as int),
                    _ => page_step(p, queue, position),
                }
            } else {
                match p.selected_song {
                    Some(idx) if idx < p.songs.len() => spec_play_song(p, idx as int),
                    _ => page_step(p, queue, position),
                }
            },
            Key::Backspace => page_step(
                if p.focus == 1 { ArtistsView { focus: 0, ..p } } else { p },
                queue,
                position,
            ),
            Key::Char('e') => if p.focus == 1 {
                match p.selected_song {
                    Some(idx) if idx < p.songs.len() => ArtistsStep {
                        page: p,
                        queue: queue.push(p.songs[idx as int]),
                        position,
                        effect: EffectView::Notify("Added to queue: "@ + p.songs[idx as int].title@),
                    },
                    _ => page_step(p, queue, position),
                }
            } else if p.songs.len() > 0 {
                ArtistsStep {
                    page: p,
                    queue: queue + p.songs,
                    position,
                    effect: EffectView::Notify("Added "@ + decimal(p.songs.len()) + " songs to queue"@),
                }
            } else {
                page_step(p, queue, position)
            },
            Key::Char('n') => {
                let at = insert_point(position);
                if p.focus == 1 {
                    match p.selected_song {
                        Some(idx) if idx < p.songs.len() => ArtistsStep {
                            page: p,
                            queue: queue.insert(at, p.songs[idx as int]),
                            position,
                            effect: EffectView::Notify("Playing next: "@ + p.songs[idx as int].title@),
                        },
                        _ => page_step(p, queue, position),
                    }
                } else if p.songs.len() > 0 {
                    ArtistsStep {
                        page: p,
                        queue: queue.take(at) + p.songs + queue.skip(at),
                        position,
                        effect: EffectView::Notify("Playing "@ + decimal(p.songs.len()) + " songs next"@),
                    }
                } else {
                    page_step(p, queue, position)
                }
            },
            _ => page_step(p, queue, position),
        }
    }
}

} // verus!

verus! {


/// Enter on an artist that the tree shows expanded collapses it: afterwards
/// the page no longer shows that artist expanded, every other artist keeps
/// its state, the queue stays as it was and nothing is fetched.
pub proof fn lemma_enter_collapses_expanded_artist(
    p: ArtistsView,
    queue: Seq<Child>,
    position: Option<usize>,
    tree: Seq<TreeView>,
    id: Seq<char>,
)
    requires
        !p.filter_active,
        p.focus == 0,
        p.selected_index matches Some(i) && i < tree.len() && tree[i as int] == TreeView::Artist(id, true),
    ensures
        !spec_artists_key(p, queue, position, tree, Key::Enter).page.expanded.contains(id),
        forall|other: Seq<char>|
            other != id ==> (spec_artists_key(p, queue, position, tree, Key::Enter).page.expanded.contains(
                other,
            ) == p.expanded.contains(other)),
        spec_artists_key(p, queue, position, tree, Key::Enter).queue == queue,
        spec_artists_key(p, queue, position, tree, Key::Enter).position == position,
        spec_artists_key(p, queue, position, tree, Key::Enter).effect is Nothing,
{
}

/// Activating a row (Enter, or a second click) that is an artist shown
/// expanded takes that artist, and only it, out of the expanded ones.
pub proof fn lemma_activate_expanded_artist_collapses(
    p: ArtistsView,
    queue: Seq<Child>,
    position: Option<usize>,
    tree: Seq<TreeView>,
    idx: int,
    id: Seq<char>,
)
    requires
        0 <= idx < tree.len(),
        tree[idx] == TreeView::Artist(id, true),
    ensures
        !spec_activate_row(p, queue, position, tree, idx).page.expanded.contains(id),
        forall|other: Seq<char>|
            other != id ==> (spec_activate_row(p, queue, position, tree, idx).page.expanded.contains(other)
                == p.expanded.contains(other)),
        spec_activate_row(p, queue, position, tree, idx).effect is Nothing,
{
}

/// The page, the queue and the effect are those of the step `s`.
pub open spec fn reached(page: ArtistsView, q: QueueState, effect: EffectView, s: ArtistsStep) -> bool {
    &&& page == s.page
    &&& q.queue@ == s.queue
    &&& q.queue_position == s.position
    &&& effect == s.effect
}

fn tree_move(page: &mut ArtistsPage, q: &QueueState, tree: &Vec<TreeEntry>, sel: Option<usize>) -> (effect: ArtistsEffect)
    ensures
        reached(final(page)@, *q, effect@, spec_tree_move(old(page)@, q.queue@, q.queue_position, tree_views(tree@), sel)),
{
    page.selected_index = sel;
    match sel {
        Some(i) if i < tree.len() => match &tree[i] {
            TreeEntry::Album { id, name } => {
                assert(tree_views(tree@)[i as int] == tree_view(tree@[i as int]));
                ArtistsEffect::PreviewAlbum { album_id: id.clone() }
            },
            _ => {
                assert(tree_views(tree@)[i as int] == tree_view(tree@[i as int]));
                ArtistsEffect::Nothing
            },
        },
        _ => ArtistsEffect::Nothing,
    }
}

fn activate_row(page: &mut ArtistsPage, q: &QueueState, tree: &Vec<TreeEntry>, idx: usize) -> (effect: ArtistsEffect)
    requires
        idx < tree@.len(),
    ensures
        reached(
            final(page)@,
            *q,
            effect@,
            spec_activate_row(old(page)@, q.queue@, q.queue_position, tree_views(tree@), idx as int),
        ),
{
    assert(tree_views(tree@)[idx as int] == tree_view(tree@[idx as int]));
    match &tree[idx] {
        TreeEntry::Artist { id, expanded, .. } => {
            if *expanded {
                remove_id(&mut page.expanded, id);
                ArtistsEffect::Nothing
            } else if contains_id(&page.cached, id) {
                insert_id(&mut page.expanded, id);
                ArtistsEffect::Nothing
            } else {
                ArtistsEffect::LoadAlbums { artist_id: id.clone() }
            }
        },
        TreeEntry::Album { id, name } => ArtistsEffect::PlayAlbum { album_id: id.clone(), album_name: name.clone() },
    }
}

fn play_song(page: &ArtistsPage, q: &mut QueueState, idx: usize) -> (effect: ArtistsEffect)
    requires
        idx < page.songs@.len(),
    ensures
        reached(page@, *final(q), effect@, spec_play_song(page@, idx as int)),
        final(q).selected == old(q).selected,
{
    q.replace(duplicate_songs(&page.songs));
    q.queue_position = Some(idx);
    ArtistsEffect::PlaySong { position: idx, notice: concat("Playing: ", page.songs[idx].title.as_str()) }
}


fn add_key(page: &ArtistsPage, queue: &mut QueueState, key: KeyInput) -> (effect: ArtistsEffect)
    requires
        !page.filter_active,
        key.code == Key::Char('e') || key.code == Key::Char('n'),
        key.code == Key::Char('n') ==> insert_point(old(queue).queue_position) <= old(queue).queue@.len(),
    ensures
        reached(
            page@,
            *final(queue),
            effect@,
            spec_artists_key(page@, old(queue).queue@, old(queue).queue_position, Seq::empty(), key.code),
        ),
        final(queue).selected == old(queue).selected,
{
    match key.code {
        Key::Char('e') => {
            if page.focus == 1 {
                match page.selected_song {
                    Some(idx) => if idx < page.songs.len() {
                        queue.queue.push(page.songs[idx].duplicate());
                        ArtistsEffect::Notify(concat("Added to queue: ", page.songs[idx].title.as_str()))
                    } else {
                        ArtistsEffect::Nothing
                    },
                    None => ArtistsEffect::Nothing,
                }
            } else if page.songs.len() > 0 {
                let n = page.songs.len();
                queue.add(duplicate_songs(&page.songs));
                ArtistsEffect::Notify(count_notice("Added ", n, " songs to queue"))
            } else {
                ArtistsEffect::Nothing
            }
        },
        Key::Char('n') => {
            if page.focus == 1 {
                match page.selected_song {
                    Some(idx) => if idx < page.songs.len() {
                        let at: usize = match queue.queue_position {
                            Some(p) => if p < queue.queue.len() { p + 1 } else { 0 },
                            None => 0,
                        };
                        queue.queue.insert(at, page.songs[idx].duplicate());
                        ArtistsEffect::Notify(concat("Playing next: ", page.songs[idx].title.as_str()))
                    } else {
                        ArtistsEffect::Nothing
                    },
                    None => ArtistsEffect::Nothing,
                }
            } else if page.songs.len() > 0 {
                let n = page.songs.len();
                queue.add_next(duplicate_songs(&page.songs));
                ArtistsEffect::Notify(count_notice("Playing ", n, " songs next"))
            } else {
                ArtistsEffect::Nothing
            }
        },
        _ => ArtistsEffect::Nothing,
    }
}

fn count_notice(before: &str, n: usize, after: &str) -> (t: String)
    ensures
        t@ == before@ + decimal(n as nat) + after@,
{
    let mut t = String::from_str(before);
    push_decimal(&mut t, n as u64);
    t.append(after);
    t
}

/// Handles a key on the artists page; see `spec_artists_key` for each key.
pub fn artists_key_step(
    page: &mut ArtistsPage,
    queue: &mut QueueState,
    tree: &Vec<TreeEntry>,
    key: KeyInput,
) -> (effect: ArtistsEffect)
    requires
        !old(page).filter_active && key.code == Key::Char('n') ==> insert_point(old(queue).queue_position)
            <= old(queue).queue@.len(),
    ensures
        reached(
            final(page)@,
            *final(queue),
            effect@,
            spec_artists_key(old(page)@, old(queue).queue@, old(queue).queue_position, tree_views(tree@), key.code),
        ),
        final(queue).selected == old(queue).selected,
{
    if page.filter_active {
        match key.code {
            Key::Esc => {
                page.filter_active = false;
                page.filter = String::new();
            },
            Key::Enter => {
                page.filter_active = false;
            },
            Key::Backspace => {
                let _ = pop_char(&mut page.filter);
            },
            Key::Char(c) => {
                push_char(&mut page.filter, c);
            },
            _ => {},
        }
        ArtistsEffect::Nothing
    } else {
        artists_normal_key(page, queue, tree, key)
    }
}

fn artists_normal_key(
    page: &mut ArtistsPage,
    queue: &mut QueueState,
    tree: &Vec<TreeEntry>,
    key: KeyInput,
) -> (effect: ArtistsEffect)
    requires
        !old(page).filter_active,
        key.code == Key::Char('n') ==> insert_point(old(queue).queue_position) <= old(queue).queue@.len(),
    ensures
        reached(
            final(page)@,
            *final(queue),
            effect@,
            spec_artists_key(old(page)@, old(queue).queue@, old(queue).queue_position, tree_views(tree@), key.code),
        ),
        final(queue).selected == old(queue).selected,
{
    match key.code {
        Key::Char('/') => {
            page.filter_active = true;
            ArtistsEffect::Nothing
        },
        Key::Esc => {
            page.filter = String::new();
            clear_ids(&mut page.expanded);
            page.selected_index = Some(0);
            ArtistsEffect::Nothing
        },
        Key::Tab => {
            page.focus = if page.focus % 2 == 0 { 1 } else { 0 };
            ArtistsEffect::Nothing
        },
        Key::Left => {
            page.focus = 0;
            ArtistsEffect::Nothing
        },
        Key::Right => {
            if page.songs.len() > 0 {
                page.focus = 1;
                if page.selected_song.is_none() {
                    page.selected_song = Some(0);
                }
            }
            ArtistsEffect::Nothing
        },
        Key::Up | Key::Char('k') => {
            if page.focus == 0 {
                let sel = select_previous(page.selected_index, tree.len());
                tree_move(page, queue, tree, sel)
            } else {
                page.selected_song = select_previous(page.selected_song, page.songs.len());
                ArtistsEffect::Nothing
            }
        },
        Key::Down | Key::Char('j') => {
            if page.focus == 0 {
                let sel = select_next(page.selected_index, tree.len());
                tree_move(page, queue, tree, sel)
            } else {
                page.selected_song = select_next(page.selected_song, page.songs.len());
                ArtistsEffect::Nothing
            }
        },
        Key::Enter => {
            if page.focus == 0 {
                match page.selected_index {
                    Some(idx) => if idx < tree.len() {
                        activate_row(page, queue, tree, idx)
                    } else {
                        ArtistsEffect::Nothing
                    },
                    None => ArtistsEffect::Nothing,
                }
            } else {
                match page.selected_song {
                    Some(idx) => if idx < page.songs.len() {
                        play_song(page, queue, idx)
                    } else {
                        ArtistsEffect::Nothing
                    },
                    None => ArtistsEffect::Nothing,
                }
            }
        },
        Key::Backspace => {
            if page.focus == 1 {
                page.focus = 0;
            }
            ArtistsEffect::Nothing
        },
        Key::Char('e') => add_key(page, queue, key),
        Key::Char('n') => add_key(page, queue, key),
        _ => ArtistsEffect::Nothing,
    }
}

} // verus!

verus! {

/// The albums of `artist_id` were loaded: they are cached and the artist expands.
pub fn albums_loaded(page: &mut ArtistsPage, artist_id: &String)
    ensures
        final(page)@ == (ArtistsView {
            cached: old(page)@.cached.insert(artist_id@),
            expanded: old(page)@.expanded.insert(artist_id@),
            ..old(page)@
        }),
{
    insert_id(&mut page.cached, artist_id);
    insert_id(&mut page.expanded, artist_id);
}

/// The songs of a previewed album arrived: they fill the right pane with the
/// first one selected.
pub fn preview_loaded(page: &mut ArtistsPage, songs: Vec<Child>)
    ensures
        final(page)@ == (ArtistsView { songs: songs@, selected_song: Some(0), ..old(page)@ }),
{
    page.songs = songs;
    page.selected_song = Some(0);
}

/// The songs of an album to play arrived. With no songs the album cannot be
/// played (the error notice comes back); otherwise the queue becomes the
/// album and plays from its first song, the right pane shows the album with
/// the first song selected and focused, and the notice comes back.
pub fn album_play_loaded(
    page: &mut ArtistsPage,
    queue: &mut QueueState,
    songs: Vec<Child>,
    album_name: &str,
) -> (notice: Result<String, String>)
    ensures
        final(queue).selected == old(queue).selected,
        songs@.len() == 0 ==> {
            &&& final(page)@ == old(page)@
            &&& final(queue).queue@ == old(queue).queue@
            &&& final(queue).queue_position == old(queue).queue_position
            &&& notice matches Err(t) && t@ == "Album has no songs"@
        },
        songs@.len() > 0 ==> {
            &&& final(page)@ == (ArtistsView { songs: songs@, selected_song: Some(0), focus: 1, ..old(page)@ })
            &&& final(queue).queue@ == songs@
            &&& final(queue).queue_position == Some(0usize)
            &&& notice matches Ok(t) && t@ == "Playing album: "@ + album_name@ + " ("@ + decimal(
                songs@.len(),
            ) + " songs)"@
        },
{
    if songs.len() == 0 {
        return Err(String::from_str("Album has no songs"));
    }
    let n = songs.len();
    let mut notice = concat("Playing album: ", album_name);
    notice.append(" (");
    push_decimal(&mut notice, n as u64);
    notice.append(" songs)");
    queue.replace(duplicate_songs(&songs));
    queue.queue_position = Some(0);
    page.songs = songs;
    page.selected_song = Some(0);
    page.focus = 1;
    Ok(notice)
}

/// A rectangle of the screen.
#[derive(Debug, Clone, Copy, PartialEq, Eq, Structural)]
pub struct PaneRect {
    pub x: u16,
    pub y: u16,
    pub width: u16,
    pub height: u16,
}

/// Whether the cell (x, y) lies in the rectangle.
pub open spec fn in_rect(r: PaneRect, x: u16, y: u16) -> bool {
    r.x <= x < r.x + r.width && r.y <= y < r.y + r.height
}

/// The row of a bordered list under screen row `y`, before scrolling.
pub open spec fn row_in(r: PaneRect, y: u16) -> int {
    if y > r.y + 1 { y - (r.y + 1) } else { 0 }
}

/// What a click does on the artists page. On the tree it focuses the tree and
/// selects the row under it; a second click on the selected row activates it
/// (as Enter does), a first click on an album previews it. On the songs it
/// focuses them and selects the song; a second click plays it.
/// `repeat_click` says whether the previous click hit the same cell shortly
/// before.
pub open spec fn spec_artists_click(
    p: ArtistsView,
    queue: Seq<Child>,
    position: Option<usize>,
    tree: Seq<TreeView>,
    left: PaneRect,
    right: PaneRect,
    x: u16,
    y: u16,
    repeat_click: bool,
) -> ArtistsStep {
    if in_rect(left, x, y) {
        let idx = p.tree_scroll_offset + row_in(left, y);
        if idx < tree.len() {
            let p1 = ArtistsView { focus: 0, selected_index: Some(idx as usize), ..p };
            if p.selected_index == Some(idx as usize) && repeat_click {
                spec_activate_row(p1, queue, position, tree, idx)
            } else if tree[idx] is Album {
                ArtistsStep { page: p1, queue, position, effect: EffectView::PreviewAlbum(tree[idx]->Album_0) }
            } else {
                page_step(p1, queue, position)
            }
        } else {
            page_step(p, queue, position)
        }
    } else if in_rect(right, x, y) {
        let idx = p.song_scroll_offset + row_in(right, y);
        if idx < p.songs.len() {
            let p1 = ArtistsView { focus: 1, selected_song: Some(idx as usize), ..p };
            if p.selected_song == Some(idx as usize) && repeat_click {
                spec_play_song(p1, idx)
            } else {
                page_step(p1, queue, position)
            }
        } else {
            page_step(p, queue, position)
        }
    } else {
        page_step(p, queue, position)
    }
}

fn in_pane(r: PaneRect, x: u16, y: u16) -> (b: bool)
    requires
        r.x + r.width <= u16::MAX,
        r.y + r.height <= u16::MAX,
    ensures
        b == in_rect(r, x, y),
{
    x >= r.x && x < r.x + r.width && y >= r.y && y < r.y + r.height
}

/// Handles a click at (x, y) on the artists page; see `spec_artists_click`.
pub fn artists_click_step(
    page: &mut ArtistsPage,
    queue: &mut QueueState,
    tree: &Vec<TreeEntry>,
    left: PaneRect,
    right: PaneRect,
    x: u16,
    y: u16,
    repeat_click: bool,
) -> (effect: ArtistsEffect)
    requires
        left.x + left.width <= u16::MAX,
        left.y + left.height <= u16::MAX,
        left.y < u16::MAX,
        right.x + right.width <= u16::MAX,
        right.y + right.height <= u16::MAX,
        right.y < u16::MAX,
        old(page).tree_scroll_offset + u16::MAX <= usize::MAX,
        old(page).song_scroll_offset + u16::MAX <= usize::MAX,
    ensures
        reached(
            final(page)@,
            *final(queue),
            effect@,
            spec_artists_click(
                old(page)@,
                old(queue).queue@,
                old(queue).queue_position,
                tree_views(tree@),
                left,
                right,
                x,
                y,
                repeat_click,
            ),
        ),
        final(queue).selected == old(queue).selected,
{
    if in_pane(left, x, y) {
        let idx = crate::layout::clicked_row(y, left.y, page.tree_scroll_offset);
        if idx < tree.len() {
            let was_selected = match page.selected_index {
                Some(s) => s == idx,
                None => false,
            };
            page.focus = 0;
            page.selected_index = Some(idx);
            assert(tree_views(tree@)[idx as int] == tree_view(tree@[idx as int]));
            if was_selected && repeat_click {
                activate_row(page, queue, tree, idx)
            } else {
                match &tree[idx] {
                    TreeEntry::Album { id, .. } => ArtistsEffect::PreviewAlbum { album_id: id.clone() },
                    _ => ArtistsEffect::Nothing,
                }
            }
        } else {
            ArtistsEffect::Nothing
        }
    } else if in_pane(right, x, y) {
        let idx = crate::layout::clicked_row(y, right.y, page.song_scroll_offset);
        if idx < page.songs.len() {
            let was_selected = match page.selected_song {
                Some(s) => s == idx,
                None => false,
            };
            page.focus = 1;
            page.selected_song = Some(idx);
            if was_selected && repeat_click {
                play_song(page, queue, idx)
            } else {
                ArtistsEffect::Nothing
            }
        } else {
            ArtistsEffect::Nothing
        }
    } else {
        ArtistsEffect::Nothing
    }
}

} // verus!
