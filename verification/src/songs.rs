//! The songs page: the song lists ("All", "Starred", "Random") on the left,
//! the songs of the chosen list on the right, and a filter. What each key
//! does to the page and the queue, and what it asks the application to do.

use vstd::prelude::*;
use vstd::string::*;

use crate::handlers::{
    next_song_option, previous_song_option, select_next, select_previous, should_load_more, spec_select_next,
    spec_select_previous, QueueState,
};
use crate::keys::{Key, KeyInput};
use crate::models::{duplicate_songs, Child, SongOption};
use crate::text::{pop_char, push_char};

verus! {

/// The state of the songs page.
pub struct SongsPage {
    /// Whether typed keys edit the filter.
    pub filter_active: bool,
    pub filter: String,
    /// 0: the lists have the focus; 1: the songs have it.
    pub focus: usize,
    pub selected_option: Option<SongOption>,
    pub scroll_offset: usize,
    pub selected_index: Option<usize>,
    pub songs: Vec<Child>,
    /// Whether the server has more of "All songs" than were fetched.
    pub all_songs_has_more: bool,
    /// Whether a fetch of "All songs" runs.
    pub all_songs_loading: bool,
}

/// The songs page as sequences and plain values.
#[verifier::ext_equal]
pub struct SongsView {
    pub filter_active: bool,
    pub filter: Seq<char>,
    pub focus: usize,
    pub selected_option: Option<SongOption>,
    pub scroll_offset: usize,
    pub selected_index: Option<usize>,
    pub songs: Seq<Child>,
    pub all_songs_has_more: bool,
    pub all_songs_loading: bool,
}

impl View for SongsPage {
    type V = SongsView;

    open spec fn view(&self) -> SongsView {
        SongsView {
            filter_active: self.filter_active,
            filter: self.filter@,
            focus: self.focus,
            selected_option: self.selected_option,
            scroll_offset: self.scroll_offset,
            selected_index: self.selected_index,
            songs: self.songs@,
            all_songs_has_more: self.all_songs_has_more,
            all_songs_loading: self.all_songs_loading,
        }
    }
}

/// What the songs page asks the application to do.
#[derive(Debug, Clone)]
pub enum SongsEffect {
    Nothing,
    /// Load this list (for "All", its first page).
    LoadOption(SongOption),
    /// Fetch the next page of "All songs".
    LoadMore,
    /// Start playing the queue at this position.
    Play(usize),
    /// Star (`starred`) or unstar the song with this id on the server, then
    /// reload the starred list when `reload_starred`.
    SetStarred { id: String, starred: bool, reload_starred: bool },
    /// Search the server for the filter, from the first page, now.
    SearchNow,
    /// Search the server for the filter once typing pauses.
    SearchLater,
    /// Filter the loaded songs by the filter.
    ApplyFilter,
}

/// An effect as ids and plain values.
pub enum SongsEffectView {
    Nothing,
    LoadOption(SongOption),
    LoadMore,
    Play(usize),
    SetStarred(Seq<char>, bool, bool),
    SearchNow,
    SearchLater,
    ApplyFilter,
}

impl View for SongsEffect {
    type V = SongsEffectView;

    open spec fn view(&self) -> SongsEffectView {
        match self {
            SongsEffect::Nothing => SongsEffectView::Nothing,
            SongsEffect::LoadOption(o) => SongsEffectView::LoadOption(*o),
            SongsEffect::LoadMore => SongsEffectView::LoadMore,
            SongsEffect::Play(i) => SongsEffectView::Play(*i),
            SongsEffect::SetStarred { id, starred, reload_starred } => SongsEffectView::SetStarred(
                id@,
                *starred,
                *reload_starred,
            ),
            SongsEffect::SearchNow => SongsEffectView::SearchNow,
            SongsEffect::SearchLater => SongsEffectView::SearchLater,
            SongsEffect::ApplyFilter => SongsEffectView::ApplyFilter,
        }
    }
}

/// What a finished or changed filter does: "All songs" are searched on the
/// server (now, or once typing pauses); the other lists are filtered in place.
pub open spec fn filter_effect(option: Option<SongOption>, now: bool) -> SongsEffectView {
    if option == Some(SongOption::All) {
        if now { SongsEffectView::SearchNow } else { SongsEffectView::SearchLater }
    } else {
        SongsEffectView::ApplyFilter
    }
}

/// A key while the filter is edited: Esc clears and closes it, Enter closes
/// it and moves the focus to the songs, Backspace and characters edit it.
pub open spec fn filter_key_post(p: SongsView, np: SongsView, e: SongsEffectView, key: Key) -> bool {
    match key {
        Key::Esc => np == SongsView { filter_active: false, filter: Seq::empty(), ..p } && e == filter_effect(
            p.selected_option,
            true,
        ),
        Key::Enter => np == SongsView { filter_active: false, focus: 1, ..p } && e == filter_effect(
            p.selected_option,
            true,
        ),
        Key::Backspace => np == SongsView {
            filter: if p.filter.len() > 0 { p.filter.drop_last() } else { p.filter },
            ..p
        } && e == filter_effect(p.selected_option, false),
        Key::Char(c) => np == SongsView { filter: p.filter.push(c), ..p } && e == filter_effect(
            p.selected_option,
            false,
        ),
        _ => np == p && e is Nothing,
    }
}

/// Whether a key moves up or down.
pub open spec fn is_up_key(key: Key) -> bool {
    key == Key::Up || key == Key::Char('k')
}

pub open spec fn is_down_key(key: Key) -> bool {
    key == Key::Down || key == Key::Char('j')
}

/// The list above the chosen one, if any.
pub open spec fn option_above(o: Option<SongOption>) -> Option<SongOption> {
    match o {
        Some(SongOption::Starred) => Some(SongOption::All),
        Some(SongOption::Random) => Some(SongOption::Starred),
        _ => None,
    }
}

/// The list below the chosen one, if any.
pub open spec fn option_below(o: Option<SongOption>) -> Option<SongOption> {
    match o {
        Some(SongOption::All) => Some(SongOption::Starred),
        Some(SongOption::Starred) => Some(SongOption::Random),
        _ => None,
    }
}

/// Choosing another list: it is selected, scrolled to the top and loaded.
pub open spec fn choose_option_post(p: SongsView, np: SongsView, e: SongsEffectView, o: Option<SongOption>) -> bool {
    match o {
        Some(opt) => np == SongsView { selected_option: Some(opt), scroll_offset: 0, ..p }
            && e == SongsEffectView::LoadOption(opt),
        None => np == p && e is Nothing,
    }
}

/// 'f' on the songs: the selected song's star is toggled (the song keeps
/// every other field) and the server is told; the starred list is reloaded
/// when it is the one shown.
pub open spec fn star_post(p: SongsView, np: SongsView, e: SongsEffectView) -> bool {
    match p.selected_index {
        Some(i) if i < p.songs.len() => {
            let old_song = p.songs[i as int];
            let new_song = np.songs[i as int];
            &&& np == SongsView { songs: p.songs.update(i as int, new_song), ..p }
            &&& new_song == Child { starred: new_song.starred, ..old_song }
            &&& old_song.starred is Some ==> new_song.starred is None
            &&& old_song.starred is None ==> (new_song.starred matches Some(s) && s@ == "starred"@)
            &&& e == SongsEffectView::SetStarred(
                old_song.id@,
                old_song.starred is None,
                p.selected_option == Some(SongOption::Starred),
            )
        },
        _ => np == p && e is Nothing,
    }
}

/// What a key does on the songs page, to the page `p` and the queue
/// (`q` at `pos`), giving `np`, `nq` at `npos` and the effect `e`.
/// `lookahead` is how close to the end of "All songs" moving down fetches
/// the next page.
pub open spec fn songs_key_post(
    p: SongsView,
    q: Seq<Child>,
    pos: Option<usize>,
    np: SongsView,
    nq: Seq<Child>,
    npos: Option<usize>,
    e: SongsEffectView,
    key: Key,
    lookahead: nat,
) -> bool {
    if p.filter_active {
        nq == q && npos == pos && filter_key_post(p, np, e, key)
    } else if key == Key::Enter {
        match p.selected_index {
            Some(i) if i < p.songs.len() => np == p && nq == p.songs && npos == Some(i)
                && e == SongsEffectView::Play(i),
            _ => np == p && nq == q && npos == pos && e is Nothing,
        }
    } else {
        &&& nq == q
        &&& npos == pos
        &&& if key == Key::Char('/') {
            np == SongsView { filter_active: true, ..p } && e is Nothing
        } else if is_up_key(key) && p.focus == 0 {
            choose_option_post(p, np, e, option_above(p.selected_option))
        } else if is_down_key(key) && p.focus == 0 {
            choose_option_post(p, np, e, option_below(p.selected_option))
        } else if is_up_key(key) && p.focus == 1 {
            np == SongsView { selected_index: spec_select_previous(p.selected_index, p.songs.len()), ..p }
                && e is Nothing
        } else if is_down_key(key) && p.focus == 1 {
            let sel = spec_select_next(p.selected_index, p.songs.len());
            &&& np == SongsView { selected_index: sel, ..p }
            &&& e == if p.selected_option == Some(SongOption::All) && p.all_songs_has_more
                && !p.all_songs_loading && (sel matches Some(i) && i + lookahead >= p.songs.len()) {
                SongsEffectView::LoadMore
            } else {
                SongsEffectView::Nothing
            }
        } else if key == Key::Tab {
            np == SongsView { focus: if p.focus == 1 { 0 } else { 1 }, ..p } && e is Nothing
        } else if key == Key::Char('f') && p.focus == 1 {
            star_post(p, np, e)
        } else {
            np == p && e is Nothing
        }
    }
}

/// Closing the filter with Esc reloads the shown list just as Enter does:
/// "All songs" are fetched again from the server at once, the other lists
/// are filtered in place. Esc also empties the filter.
pub proof fn lemma_filter_esc_reloads_like_enter(
    p: SongsView,
    esc_page: SongsView,
    esc_effect: SongsEffectView,
    enter_page: SongsView,
    enter_effect: SongsEffectView,
)
    requires
        filter_key_post(p, esc_page, esc_effect, Key::Esc),
        filter_key_post(p, enter_page, enter_effect, Key::Enter),
    ensures
        esc_effect == enter_effect,
        p.selected_option == Some(SongOption::All) ==> esc_effect == SongsEffectView::SearchNow,
        p.selected_option != Some(SongOption::All) ==> esc_effect == SongsEffectView::ApplyFilter,
        esc_page.filter.len() == 0,
        !esc_page.filter_active,
        !enter_page.filter_active,
        enter_page.filter == p.filter,
{
}

fn filter_effect_of(option: &Option<SongOption>, now: bool) -> (e: SongsEffect)
    ensures
        e@ == filter_effect(*option, now),
{
    match option {
        Some(SongOption::All) => if now { SongsEffect::SearchNow } else { SongsEffect::SearchLater },
        _ => SongsEffect::ApplyFilter,
    }
}

fn filter_key(page: &mut SongsPage, key: KeyInput) -> (e: SongsEffect)
    ensures
        filter_key_post(old(page)@, final(page)@, e@, key.code),
{
    match key.code {
        Key::Esc => {
            page.filter_active = false;
            page.filter = String::new();
            filter_effect_of(&page.selected_option, true)
        },
        Key::Enter => {
            page.filter_active = false;
            page.focus = 1;
            filter_effect_of(&page.selected_option, true)
        },
        Key::Backspace => {
            let _ = pop_char(&mut page.filter);
            filter_effect_of(&page.selected_option, false)
        },
        Key::Char(c) => {
            push_char(&mut page.filter, c);
            filter_effect_of(&page.selected_option, false)
        },
        _ => SongsEffect::Nothing,
    }
}

fn choose_option(page: &mut SongsPage, o: Option<SongOption>) -> (e: SongsEffect)
    ensures
        choose_option_post(old(page)@, final(page)@, e@, o),
{
    match o {
        Some(opt) => {
            page.selected_option = Some(opt);
            page.scroll_offset = 0;
            SongsEffect::LoadOption(opt)
        },
        None => SongsEffect::Nothing,
    }
}

fn star_selected(page: &mut SongsPage) -> (e: SongsEffect)
    ensures
        star_post(old(page)@, final(page)@, e@),
{
    let sel = page.selected_index;
    match sel {
        Some(i) => {
            if i < page.songs.len() {
                let mut song = page.songs[i].duplicate();
                let was_starred = song.toggle_starred();
                let id = song.id.clone();
                page.songs.set(i, song);
                let reload_starred = match page.selected_option {
                    Some(SongOption::Starred) => true,
                    _ => false,
                };
                SongsEffect::SetStarred { id, starred: !was_starred, reload_starred }
            } else {
                SongsEffect::Nothing
            }
        },
        None => SongsEffect::Nothing,
    }
}

/// Handles a key on the songs page; see `songs_key_post` for each key.
/// The queue's selection is left as it is.
pub fn songs_key_step(page: &mut SongsPage, queue: &mut QueueState, key: KeyInput, lookahead: usize) -> (effect:
    SongsEffect)
    ensures
        songs_key_post(
            old(page)@,
            old(queue).queue@,
            old(queue).queue_position,
            final(page)@,
            final(queue).queue@,
            final(queue).queue_position,
            effect@,
            key.code,
            lookahead as nat,
        ),
        final(queue).selected == old(queue).selected,
{
    if page.filter_active {
        return filter_key(page, key);
    }
    let code = key.code;
    if code == Key::Enter {
        let sel = page.selected_index;
        return match sel {
            Some(i) => {
                if i < page.songs.len() {
                    queue.replace(duplicate_songs(&page.songs));
                    queue.queue_position = Some(i);
                    SongsEffect::Play(i)
                } else {
                    SongsEffect::Nothing
                }
            },
            None => SongsEffect::Nothing,
        };
    }
    let up = code == Key::Up || code == Key::Char('k');
    let down = code == Key::Down || code == Key::Char('j');
    if code == Key::Char('/') {
        page.filter_active = true;
        SongsEffect::Nothing
    } else if up && page.focus == 0 {
        let o = previous_song_option(&page.selected_option);
        choose_option(page, o)
    } else if down && page.focus == 0 {
        let o = next_song_option(&page.selected_option);
        choose_option(page, o)
    } else if up && page.focus == 1 {
        page.selected_index = select_previous(page.selected_index, page.songs.len());
        SongsEffect::Nothing
    } else if down && page.focus == 1 {
        page.selected_index = select_next(page.selected_index, page.songs.len());
        if should_load_more(
            &page.selected_option,
            page.all_songs_has_more,
            page.all_songs_loading,
            page.selected_index,
            page.songs.len(),
            lookahead,
        ) {
            SongsEffect::LoadMore
        } else {
            SongsEffect::Nothing
        }
    } else if code == Key::Tab {
        page.focus = if page.focus == 1 { 0 } else { 1 };
        SongsEffect::Nothing
    } else if code == Key::Char('f') && page.focus == 1 {
        star_selected(page)
    } else {
        SongsEffect::Nothing
    }
}

} // verus!
