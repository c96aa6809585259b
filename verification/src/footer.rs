//! Footer bar with keybind hints and status

use vstd::prelude::*;
use vstd::string::*;

use crate::models::{Notification, Page, RepeatMode};
use crate::text::{decimal, push_decimal};

verus! {

/// A terminal color of `ratatui`; the library only carries it.
#[verifier::external_type_specification]
#[verifier::external_body]
pub struct ExColor(ratatui::style::Color);

/// The colors of a theme that the footer and the song lists use.
#[derive(Debug, Clone, Copy)]
pub struct ThemeColors {
    pub accent: ratatui::style::Color,
    pub secondary: ratatui::style::Color,
    pub muted: ratatui::style::Color,
    pub success: ratatui::style::Color,
    pub error: ratatui::style::Color,
    pub border_focused: ratatui::style::Color,
    pub border_unfocused: ratatui::style::Color,
    pub highlight_fg: ratatui::style::Color,
    pub highlight_bg: ratatui::style::Color,
    pub song: ratatui::style::Color,
    pub playing: ratatui::style::Color,
}

/// The name of a repeat mode as the footer shows it.
pub open spec fn repeat_label(mode: RepeatMode) -> Seq<char> {
    match mode {
        RepeatMode::Off => "Off"@,
        RepeatMode::All => "All"@,
        RepeatMode::One => "One"@,
    }
}

impl RepeatMode {
    /// The name of the mode as the footer shows it.
    pub fn label(&self) -> (label: &'static str)
        ensures
            label@ == repeat_label(*self),
    {
        match self {
            RepeatMode::Off => "Off",
            RepeatMode::All => "All",
            RepeatMode::One => "One",
        }
    }
}

/// Footer bar widget
pub struct Footer<'a> {
    page: Page,
    sample_rate: Option<u32>,
    notification: Option<&'a Notification>,
    repeat_mode: RepeatMode,
    volume: u8,
    colors: ThemeColors,
}

/// Key hints as characters.
pub type BindsView = Seq<(Seq<char>, Seq<char>)>;

/// The key hints as characters.
pub open spec fn binds_view(binds: Seq<(&'static str, &'static str)>) -> BindsView {
    binds.map_values(|b: (&'static str, &'static str)| (b.0@, b.1@))
}

/// The key hints shown on every page.
pub open spec fn global_binds() -> BindsView {
    seq![
        ("q"@, "Quit"@),
        ("p/Space"@, "Pause"@),
        ("h"@, "Prev"@),
        ("l"@, "Next"@),
        ("r"@, "Repeat"@),
        ("+/-"@, "Volume"@),
    ]
}

/// The key hints of one page.
pub open spec fn page_binds(page: Page) -> BindsView {
    match page {
        Page::Browse => seq![
            ("Enter"@, "Play"@),
            ("e"@, "Add"@),
            ("n"@, "Add next"@),
            ("←/→"@, "Songs/Albums"@),
            ("/"@, "Search"@),
            ("Tab"@, "Focus"@),
            ("f"@, "Star/Un-star"@),
        ],
        Page::Artists => seq![
            ("Enter"@, "Play"@),
            ("←/→"@, "Focus"@),
            ("/"@, "Search"@),
            ("e"@, "Add"@),
            ("n"@, "Add next"@),
            ("s"@, "Shuffle"@),
            ("f"@, "Star/Un-star"@),
        ],
        Page::Queue => seq![
            ("Enter"@, "Play"@),
            ("d"@, "Remove"@),
            ("J/K"@, "Move"@),
            ("s"@, "Shuffle"@),
            ("c"@, "Clear history"@),
            ("f"@, "Star/Un-star"@),
        ],
        Page::Playlists => seq![
            ("Enter"@, "Play"@),
            ("←/→"@, "Focus"@),
            ("e"@, "Add"@),
            ("n"@, "Add next"@),
            ("s"@, "Shuffle play"@),
        ],
        Page::Radio => seq![("Enter"@, "Play"@), ("Space"@, "Play/Pause"@), ("Ctrl+R"@, "Refresh"@)],
        Page::Server => seq![("Tab"@, "Next field"@), ("Enter"@, "Test/Save"@), ("Ctrl+R"@, "Refresh"@)],
        Page::Settings => seq![("←/→/Enter"@, "Change theme"@)],
    }
}

fn push_bind(binds: &mut Vec<(&'static str, &'static str)>, key: &'static str, desc: &'static str)
    ensures
        binds_view(final(binds)@) == binds_view(old(binds)@).push((key@, desc@)),
{
    let ghost before = binds@;
    binds.push((key, desc));
    assert(binds_view(binds@) =~= binds_view(before).push((key@, desc@)));
}

/// The status parts joined with " | ".
pub open spec fn join_parts(parts: Seq<Seq<char>>) -> Seq<char>
    decreases parts.len(),
{
    if parts.len() == 0 {
        Seq::empty()
    } else if parts.len() == 1 {
        parts[0]
    } else {
        join_parts(parts.drop_last()) + " | "@ + parts.last()
    }
}

/// The parts of the status: the repeat mode unless it is off, the volume, and
/// the sample rate when there is one.
pub open spec fn status_parts(repeat_mode: RepeatMode, volume: u8, rate_label: Option<Seq<char>>) -> Seq<Seq<char>> {
    let repeat: Seq<Seq<char>> = if repeat_mode == RepeatMode::Off {
        Seq::empty()
    } else {
        seq!["Repeat: "@ + repeat_label(repeat_mode)]
    };
    let rate: Seq<Seq<char>> = match rate_label {
        Some(r) => seq![r],
        None => Seq::empty(),
    };
    repeat + seq!["Vol: "@ + decimal(volume as nat) + "%"@] + rate
}

impl<'a> Footer<'a> {
    pub closed spec fn spec_page(&self) -> Page {
        self.page
    }

    pub closed spec fn spec_sample_rate(&self) -> Option<u32> {
        self.sample_rate
    }

    pub closed spec fn spec_notification(&self) -> Option<&'a Notification> {
        self.notification
    }

    pub closed spec fn spec_repeat_mode(&self) -> RepeatMode {
        self.repeat_mode
    }

    pub closed spec fn spec_volume(&self) -> u8 {
        self.volume
    }

    pub closed spec fn spec_colors(&self) -> ThemeColors {
        self.colors
    }

    /// A footer for `page`: no sample rate, no notification, repeat off, full volume.
    pub fn new(page: Page, colors: ThemeColors) -> (f: Self)
        ensures
            f.spec_page() == page,
            f.spec_colors() == colors,
            f.spec_sample_rate() is None,
            f.spec_notification() is None,
            f.spec_repeat_mode() == RepeatMode::Off,
            f.spec_volume() == 100,
    {
        Self {
            page,
            sample_rate: None,
            notification: None,
            repeat_mode: RepeatMode::Off,
            volume: 100,
            colors,
        }
    }

    pub fn sample_rate(self, rate: Option<u32>) -> (f: Self)
        ensures
            f.spec_sample_rate() == rate,
            f.spec_page() == self.spec_page(),
            f.spec_notification() == self.spec_notification(),
            f.spec_repeat_mode() == self.spec_repeat_mode(),
            f.spec_volume() == self.spec_volume(),
            f.spec_colors() == self.spec_colors(),
    {
        let mut f = self;
        f.sample_rate = rate;
        f
    }

    pub fn notification(self, notification: Option<&'a Notification>) -> (f: Self)
        ensures
            f.spec_notification() == notification,
            f.spec_page() == self.spec_page(),
            f.spec_sample_rate() == self.spec_sample_rate(),
            f.spec_repeat_mode() == self.spec_repeat_mode(),
            f.spec_volume() == self.spec_volume(),
            f.spec_colors() == self.spec_colors(),
    {
        let mut f = self;
        f.notification = notification;
        f
    }

    pub fn repeat_mode(self, mode: RepeatMode) -> (f: Self)
        ensures
            f.spec_repeat_mode() == mode,
            f.spec_page() == self.spec_page(),
            f.spec_sample_rate() == self.spec_sample_rate(),
            f.spec_notification() == self.spec_notification(),
            f.spec_volume() == self.spec_volume(),
            f.spec_colors() == self.spec_colors(),
    {
        let mut f = self;
        f.repeat_mode = mode;
        f
    }

    pub fn volume(self, volume: u8) -> (f: Self)
        ensures
            f.spec_volume() == volume,
            f.spec_page() == self.spec_page(),
            f.spec_sample_rate() == self.spec_sample_rate(),
            f.spec_notification() == self.spec_notification(),
            f.spec_repeat_mode() == self.spec_repeat_mode(),
            f.spec_colors() == self.spec_colors(),
    {
        let mut f = self;
        f.volume = volume;
        f
    }

    /// The key hints for the footer's page: the global ones, then the page's own.
    pub fn keybinds(&self) -> (binds: Vec<(&'static str, &'static str)>)
        ensures
            binds_view(binds@) == global_binds() + page_binds(self.spec_page()),
    {
        let mut binds: Vec<(&'static str, &'static str)> = Vec::new();
        push_bind(&mut binds, "q", "Quit");
        push_bind(&mut binds, "p/Space", "Pause");
        push_bind(&mut binds, "h", "Prev");
        push_bind(&mut binds, "l", "Next");
        push_bind(&mut binds, "r", "Repeat");
        push_bind(&mut binds, "+/-", "Volume");
        assert(binds_view(binds@) =~= global_binds());
        match self.page {
            Page::Browse => {
                push_bind(&mut binds, "Enter", "Play");
                push_bind(&mut binds, "e", "Add");
                push_bind(&mut binds, "n", "Add next");
                push_bind(&mut binds, "←/→", "Songs/Albums");
                push_bind(&mut binds, "/", "Search");
                push_bind(&mut binds, "Tab", "Focus");
                push_bind(&mut binds, "f", "Star/Un-star");
            },
            Page::Artists => {
                push_bind(&mut binds, "Enter", "Play");
                push_bind(&mut binds, "←/→", "Focus");
                push_bind(&mut binds, "/", "Search");
                push_bind(&mut binds, "e", "Add");
                push_bind(&mut binds, "n", "Add next");
                push_bind(&mut binds, "s", "Shuffle");
                push_bind(&mut binds, "f", "Star/Un-star");
            },
            Page::Queue => {
                push_bind(&mut binds, "Enter", "Play");
                push_bind(&mut binds, "d", "Remove");
                push_bind(&mut binds, "J/K", "Move");
                push_bind(&mut binds, "s", "Shuffle");
                push_bind(&mut binds, "c", "Clear history");
                push_bind(&mut binds, "f", "Star/Un-star");
            },
            Page::Playlists => {
                push_bind(&mut binds, "Enter", "Play");
                push_bind(&mut binds, "←/→", "Focus");
                push_bind(&mut binds, "e", "Add");
                push_bind(&mut binds, "n", "Add next");
                push_bind(&mut binds, "s", "Shuffle play");
            },
            Page::Radio => {
                push_bind(&mut binds, "Enter", "Play");
                push_bind(&mut binds, "Space", "Play/Pause");
                push_bind(&mut binds, "Ctrl+R", "Refresh");
            },
            Page::Server => {
                push_bind(&mut binds, "Tab", "Next field");
                push_bind(&mut binds, "Enter", "Test/Save");
                push_bind(&mut binds, "Ctrl+R", "Refresh");
            },
            Page::Settings => {
                push_bind(&mut binds, "←/→/Enter", "Change theme");
            },
        }
        assert(binds_view(binds@) =~= global_binds() + page_binds(self.page));
        binds
    }

    /// The status shown on the right: the repeat mode unless it is off, the
    /// volume, and `rate_label` (the sample rate as the caller formats it),
    /// joined with " | ".
    pub fn status_line(&self, rate_label: Option<&str>) -> (status: String)
        ensures
            status@ == join_parts(
                status_parts(
                    self.spec_repeat_mode(),
                    self.spec_volume(),
                    match rate_label {
                        Some(r) => Some(r@),
                        None => None,
                    },
                ),
            ),
    {
        let mut status = String::new();
        let repeat_on = match self.repeat_mode {
            RepeatMode::Off => false,
            _ => true,
        };
        if repeat_on {
            status.append("Repeat: ");
            status.append(self.repeat_mode.label());
            status.append(" | ");
        }
        status.append("Vol: ");
        push_decimal(&mut status, self.volume as u64);
        status.append("%");
        if let Some(rate) = rate_label {
            status.append(" | ");
            status.append(rate);
        }
        proof {
            reveal_with_fuel(join_parts, 4);
            let parts = status_parts(
                self.repeat_mode,
                self.volume,
                match rate_label {
                    Some(r) => Some(r@),
                    None => None,
                },
            );
            let vol = "Vol: "@ + decimal(self.volume as nat) + "%"@;
            let rep = "Repeat: "@ + repeat_label(self.repeat_mode);
            if repeat_on {
                if let Some(r) = rate_label {
                    assert(parts =~= seq![rep, vol, r@]);
                    assert(parts.drop_last() =~= seq![rep, vol]);
                    assert(parts.drop_last().drop_last() =~= seq![rep]);
                } else {
                    assert(parts =~= seq![rep, vol]);
                    assert(parts.drop_last() =~= seq![rep]);
                }
            } else {
                if let Some(r) = rate_label {
                    assert(parts =~= seq![vol, r@]);
                    assert(parts.drop_last() =~= seq![vol]);
                } else {
                    assert(parts =~= seq![vol]);
                }
            }
            assert(status@ =~= join_parts(parts));
        }
        status
    }

    /// The key hints split over two rows: the first half (rounded up) on the
    /// first row, the rest on the second.
    pub fn keybind_rows(&self) -> (rows: (Vec<(&'static str, &'static str)>, Vec<(&'static str, &'static str)>))
        ensures
            ({
                let all = global_binds() + page_binds(self.spec_page());
                let mid = (all.len() + 1) / 2;
                &&& binds_view(rows.0@) == all.take(mid as int)
                &&& binds_view(rows.1@) == all.skip(mid as int)
            }),
    {
        let binds = self.keybinds();
        let n = binds.len();
        let mid = n / 2 + n % 2;
        let mut first: Vec<(&'static str, &'static str)> = Vec::new();
        let mut second: Vec<(&'static str, &'static str)> = Vec::new();
        let mut i: usize = 0;
        while i < n
            invariant
                n == binds@.len(),
                mid == (n + 1) / 2,
                i <= n,
                i <= mid ==> first@ == binds@.take(i as int) && second@.len() == 0,
                i > mid ==> first@ == binds@.take(mid as int) && second@ == binds@.subrange(mid as int, i as int),
            decreases n - i,
        {
            if i < mid {
                first.push(binds[i]);
            } else {
                second.push(binds[i]);
            }
            proof {
                if i < mid {
                    assert(first@ =~= binds@.take(i + 1));
                } else if i == mid {
                    assert(second@ =~= binds@.subrange(mid as int, i + 1));
                } else {
                    assert(second@ =~= binds@.subrange(mid as int, i + 1));
                }
            }
            i = i + 1;
        }
        proof {
            if n <= mid {
                assert(binds@.take(n as int) =~= binds@.take(mid as int));
                assert(binds@.skip(mid as int) =~= Seq::<(&'static str, &'static str)>::empty());
            } else {
                assert(binds@.subrange(mid as int, n as int) =~= binds@.skip(mid as int));
            }
            assert(binds_view(first@) =~= binds_view(binds@).take(mid as int));
            assert(binds_view(second@) =~= binds_view(binds@).skip(mid as int));
        }
        (first, second)
    }

    /// The page whose key hints the footer shows.
    pub fn current_page(&self) -> (page: Page)
        ensures
            page == self.spec_page(),
    {
        self.page
    }

    /// The notification shown in place of the key hints, if any.
    pub fn current_notification(&self) -> (n: Option<&'a Notification>)
        ensures
            n == self.spec_notification(),
    {
        self.notification
    }

    /// The sample rate shown in the status, if any.
    pub fn current_sample_rate(&self) -> (rate: Option<u32>)
        ensures
            rate == self.spec_sample_rate(),
    {
        self.sample_rate
    }

    /// The theme colors the footer is drawn in.
    pub fn theme(&self) -> (colors: &ThemeColors)
        ensures
            *colors == self.spec_colors(),
    {
        &self.colors
    }
}

} // verus!

verus! {

/// Every page's key hints begin with the six global ones.
pub proof fn lemma_global_binds_first(page: Page)
    ensures
        (global_binds() + page_binds(page)).take(6) == global_binds(),
        global_binds().len() == 6,
{
    assert((global_binds() + page_binds(page)).take(6) =~= global_binds());
}

} // verus!
