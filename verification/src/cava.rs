//! The cava audio visualizer: its configuration file, and the snapshot of
//! its terminal screen as runs of equally colored text.

use vstd::prelude::*;
use vstd::string::*;

use crate::text::{decimal, lemma_decimal_injective, push_decimal};

verus! {

/// Everything in the configuration before the vertical gradient colors.
pub const CAVA_SETTINGS: &'static str = "[general]\nframerate = 60\nautosens = 1\novershoot = 0\nbars = 0\nbar_width = 1\nbar_spacing = 0\nlower_cutoff_freq = 10\nhigher_cutoff_freq = 18000\n\n[input]\nsample_rate = 96000\nsample_bits = 32\nremix = 1\n\n[output]\nmethod = noncurses\norientation = horizontal\nchannels = mono\nmono_option = average\nsynchronized_sync = 1\ndisable_blanking = 1\n\n[color]\ngradient = 1\n";

/// The line that switches the horizontal gradient on.
pub const CAVA_HORIZONTAL: &'static str = "horizontal_gradient = 1\n";

/// Everything in the configuration after the horizontal gradient colors.
pub const CAVA_SMOOTHING: &'static str = "\n[smoothing]\nmonstercat = 0\nwaves = 0\nnoise_reduction = 11\n";

/// The lines `<prefix><k> = '<color>'` for the colors, numbered from 1.
pub open spec fn color_lines(prefix: Seq<char>, colors: Seq<Seq<char>>) -> Seq<char>
    decreases colors.len(),
{
    if colors.len() == 0 {
        Seq::empty()
    } else {
        color_lines(prefix, colors.drop_last()) + prefix + decimal(colors.len()) + " = '"@
            + colors.last() + "'\n"@
    }
}

/// The characters of each string of a list.
pub open spec fn strings_view(s: Seq<String>) -> Seq<Seq<char>> {
    s.map_values(|t: String| t@)
}

/// The cava configuration with the vertical gradient `g` and the horizontal
/// gradient `h`.
pub open spec fn spec_cava_config(g: Seq<Seq<char>>, h: Seq<Seq<char>>) -> Seq<char> {
    CAVA_SETTINGS@ + color_lines("gradient_color_"@, g) + CAVA_HORIZONTAL@ + color_lines(
        "horizontal_gradient_color_"@,
        h,
    ) + CAVA_SMOOTHING@
}

fn append_color_lines(out: &mut String, prefix: &str, colors: &[String; 8])
    ensures
        final(out)@ == old(out)@ + color_lines(prefix@, strings_view(colors@)),
{
    let ghost start = out@;
    let ghost cv = strings_view(colors@);
    let mut i: usize = 0;
    while i < 8
        invariant
            i <= 8,
            cv == strings_view(colors@),
            cv.len() == 8,
            out@ == start + color_lines(prefix@, cv.take(i as int)),
        decreases 8 - i,
    {
        out.append(prefix);
        push_decimal(out, (i + 1) as u64);
        out.append(" = '");
        out.append(colors[i].as_str());
        out.append("'\n");
        assert(cv.take(i + 1).drop_last() =~= cv.take(i as int));
        assert(cv.take(i + 1).last() == colors@[i as int]@);
        i = i + 1;
    }
    assert(cv.take(8) =~= cv);
}

/// Generate a cava configuration string with theme-appropriate gradient colors
pub fn generate_cava_config(g: &[String; 8], h: &[String; 8]) -> (config: String)
    ensures
        config@ == spec_cava_config(strings_view(g@), strings_view(h@)),
{
    let mut config = String::from_str(CAVA_SETTINGS);
    append_color_lines(&mut config, "gradient_color_", g);
    config.append(CAVA_HORIZONTAL);
    append_color_lines(&mut config, "horizontal_gradient_color_", h);
    config.append(CAVA_SMOOTHING);
    config
}

/// A color of a cell of cava's terminal screen.
#[derive(Debug, Clone, Copy, PartialEq, Eq, Structural)]
pub enum CavaColor {
    Default,
    Indexed(u8),
    Rgb(u8, u8, u8),
}

/// One cell of cava's terminal screen: its text and colors.
#[derive(Debug, Clone)]
pub struct CavaCell {
    pub contents: String,
    pub fg: CavaColor,
    pub bg: CavaColor,
}

/// A run of text in one foreground and background color.
#[derive(Debug, Clone)]
pub struct CavaSpan {
    pub text: String,
    pub fg: CavaColor,
    pub bg: CavaColor,
}

/// One row of cava's screen.
#[derive(Debug, Clone)]
pub struct CavaRow {
    pub spans: Vec<CavaSpan>,
}

/// What a cell shows: its contents, or a space when it is empty.
pub open spec fn cell_text(cell: CavaCell) -> Seq<char> {
    if cell.contents@.len() == 0 {
        seq![' ']
    } else {
        cell.contents@
    }
}

/// A span as its text and colors.
pub open spec fn span_view(span: CavaSpan) -> (Seq<char>, CavaColor, CavaColor) {
    (span.text@, span.fg, span.bg)
}

/// The runs of a row of cells: the cells in order, with each cell's text
/// added to the last run when that run has the cell's colors, and starting a
/// new run otherwise.
pub open spec fn spec_runs(cells: Seq<CavaCell>) -> Seq<(Seq<char>, CavaColor, CavaColor)>
    decreases cells.len(),
{
    if cells.len() == 0 {
        Seq::empty()
    } else {
        let prev = spec_runs(cells.drop_last());
        let c = cells.last();
        if prev.len() > 0 && prev.last().1 == c.fg && prev.last().2 == c.bg {
            prev.update(prev.len() - 1, (prev.last().0 + cell_text(c), c.fg, c.bg))
        } else {
            prev.push((cell_text(c), c.fg, c.bg))
        }
    }
}

/// Groups a row of cells into runs of equally colored text.
pub fn build_cava_row(cells: &Vec<CavaCell>) -> (row: CavaRow)
    ensures
        row.spans@.map_values(|s: CavaSpan| span_view(s)) == spec_runs(cells@),
{
    let mut spans: Vec<CavaSpan> = Vec::new();
    let mut cur_text = String::new();
    let mut cur_fg = CavaColor::Default;
    let mut cur_bg = CavaColor::Default;
    let n = cells.len();
    let mut i: usize = 0;
    while i < n
        invariant
            n == cells@.len(),
            i <= n,
            i == 0 ==> cur_text@.len() == 0 && spans@.len() == 0,
            i > 0 ==> cur_text@.len() > 0 && spec_runs(cells@.take(i as int)) == spans@.map_values(
                |s: CavaSpan| span_view(s),
            ).push((cur_text@, cur_fg, cur_bg)),
        decreases n - i,
    {
        let cell = &cells[i];
        let ghost old_spans = spans@;
        let ghost old_text = cur_text@;
        let ghost old_fg = cur_fg;
        let ghost old_bg = cur_bg;
        assert(cells@.take(i + 1).drop_last() =~= cells@.take(i as int));
        assert(cells@.take(i + 1).last() == *cell);
        if cell.fg != cur_fg || cell.bg != cur_bg {
            if !cur_text.as_str().is_empty() {
                let text = cur_text;
                cur_text = String::new();
                spans.push(CavaSpan { text, fg: cur_fg, bg: cur_bg });
                assert(spans@.map_values(|s: CavaSpan| span_view(s)) =~= old_spans.map_values(
                    |s: CavaSpan| span_view(s),
                ).push((old_text, old_fg, old_bg)));
            }
            cur_fg = cell.fg;
            cur_bg = cell.bg;
        }
        if cell.contents.as_str().is_empty() {
            crate::text::push_char(&mut cur_text, ' ');
        } else {
            cur_text.append(cell.contents.as_str());
        }
        proof {
            let runs = spec_runs(cells@.take(i + 1));
            let sv = spans@.map_values(|s: CavaSpan| span_view(s));
            let prev = spec_runs(cells@.take(i as int));
            assert(runs == (if prev.len() > 0 && prev.last().1 == cell.fg && prev.last().2 == cell.bg {
                prev.update(prev.len() - 1, (prev.last().0 + cell_text(*cell), cell.fg, cell.bg))
            } else {
                prev.push((cell_text(*cell), cell.fg, cell.bg))
            }));
            if i > 0 && old_fg == cell.fg && old_bg == cell.bg {
                assert(cur_text@ =~= old_text + cell_text(*cell));
                assert(prev.last() == (old_text, old_fg, old_bg));
                assert(runs =~= sv.push((cur_text@, cur_fg, cur_bg)));
            } else if i > 0 {
                assert(cur_text@ =~= cell_text(*cell));
                assert(prev.last() == (old_text, old_fg, old_bg));
                assert(runs =~= sv.push((cur_text@, cur_fg, cur_bg)));
            } else {
                assert(cells@.take(0) =~= Seq::<CavaCell>::empty());
                assert(prev.len() == 0);
                assert(cur_text@ =~= cell_text(*cell));
                assert(runs =~= sv.push((cur_text@, cur_fg, cur_bg)));
            }
        }
        i = i + 1;
    }
    if !cur_text.as_str().is_empty() {
        let ghost old_spans = spans@;
        spans.push(CavaSpan { text: cur_text, fg: cur_fg, bg: cur_bg });
        assert(spans@.map_values(|s: CavaSpan| span_view(s)) =~= old_spans.map_values(
            |s: CavaSpan| span_view(s),
        ).push((cur_text@, cur_fg, cur_bg)));
    }
    assert(cells@.take(n as int) =~= cells@);
    CavaRow { spans }
}

/// The name of cava's configuration file for a process.
pub open spec fn config_file_name(pid: u32) -> Seq<char> {
    "ferrosonic-cava-"@ + decimal(pid as nat) + ".conf"@
}

/// Two processes with different ids never share a configuration file name,
/// so two running instances never write the same file.
pub proof fn lemma_config_names_distinct(a: u32, b: u32)
    requires
        a != b,
    ensures
        config_file_name(a) != config_file_name(b),
{
    let p = "ferrosonic-cava-"@;
    let q = ".conf"@;
    let da = decimal(a as nat);
    let db = decimal(b as nat);
    if config_file_name(a) == config_file_name(b) {
        let s = config_file_name(a);
        assert(s.len() == p.len() + da.len() + q.len());
        assert(s.len() == p.len() + db.len() + q.len());
        assert(da =~= s.subrange(p.len() as int, (p.len() + da.len()) as int));
        assert(db =~= config_file_name(b).subrange(p.len() as int, (p.len() + db.len()) as int));
        lemma_decimal_injective(a as nat, b as nat);
    }
}

/// The name of the configuration file cava is started with; it carries the
/// process id, so that several instances do not overwrite each other's file.
pub fn cava_config_file_name(pid: u32) -> (name: String)
    ensures
        name@ == config_file_name(pid),
{
    let mut name = String::from_str("ferrosonic-cava-");
    push_decimal(&mut name, pid as u64);
    name.append(".conf");
    name
}

} // verus!

verus! {

/// The text of a sequence of runs, in order.
pub open spec fn runs_text(runs: Seq<(Seq<char>, CavaColor, CavaColor)>) -> Seq<char>
    decreases runs.len(),
{
    if runs.len() == 0 {
        Seq::empty()
    } else {
        runs_text(runs.drop_last()) + runs.last().0
    }
}

/// The text a row of cells shows, in order.
pub open spec fn cells_text(cells: Seq<CavaCell>) -> Seq<char>
    decreases cells.len(),
{
    if cells.len() == 0 {
        Seq::empty()
    } else {
        cells_text(cells.drop_last()) + cell_text(cells.last())
    }
}

/// The runs of a row show exactly the row's text, no run is empty, and two
/// neighbouring runs never have the same colors.
pub proof fn lemma_runs_cover_row(cells: Seq<CavaCell>)
    ensures
        runs_text(spec_runs(cells)) == cells_text(cells),
        forall|i: int| 0 <= i < spec_runs(cells).len() ==> (#[trigger] spec_runs(cells)[i]).0.len() > 0,
        forall|i: int|
            0 <= i < spec_runs(cells).len() - 1 ==> !((#[trigger] spec_runs(cells)[i]).1 == spec_runs(
                cells,
            )[i + 1].1 && spec_runs(cells)[i].2 == spec_runs(cells)[i + 1].2),
    decreases cells.len(),
{
    if cells.len() > 0 {
        let init = cells.drop_last();
        lemma_runs_cover_row(init);
        let prev = spec_runs(init);
        let c = cells.last();
        let runs = spec_runs(cells);
        if prev.len() > 0 && prev.last().1 == c.fg && prev.last().2 == c.bg {
            assert(runs.drop_last() =~= prev.drop_last());
            assert(runs_text(prev) == runs_text(prev.drop_last()) + prev.last().0);
            assert(runs_text(runs) =~= runs_text(prev) + cell_text(c));
            assert forall|i: int| 0 <= i < runs.len() - 1 implies !((#[trigger] runs[i]).1 == runs[i + 1].1
                && runs[i].2 == runs[i + 1].2) by {
                assert(prev[i] == runs[i]);
                if i + 1 < runs.len() - 1 {
                    assert(prev[i + 1] == runs[i + 1]);
                }
            }
        } else {
            assert(runs.drop_last() =~= prev);
            assert forall|i: int| 0 <= i < runs.len() - 1 implies !((#[trigger] runs[i]).1 == runs[i + 1].1
                && runs[i].2 == runs[i + 1].2) by {
                assert(prev[i] == runs[i]);
                if i + 1 < runs.len() - 1 {
                    assert(prev[i + 1] == runs[i + 1]);
                }
            }
        }
    }
}

} // verus!
