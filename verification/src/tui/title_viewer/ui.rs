//! The texts that the viewer shows: grouped numbers, flag labels and the
//! cells of its two tables.

use vstd::prelude::*;
use vstd::string::*;

use super::state::{ProgramRow, TitleRow, ViewerStats};
use crate::text::{decimal, decimal_text, push_char};

verus! {

/// The first `upto` digits of `digits` with a comma before every group of
/// three digits, counted from the end.
pub open spec fn grouped_digits(digits: Seq<char>, upto: nat) -> Seq<char>
    decreases upto,
{
    if upto == 0 {
        Seq::empty()
    } else {
        let index = upto - 1;
        let before = grouped_digits(digits, index as nat);
        if index > 0 && (digits.len() - index) % 3 == 0 {
            before.push(',').push(digits[index])
        } else {
            before.push(digits[index])
        }
    }
}

/// `n` in base ten with thousands separators.
pub open spec fn grouped_number(n: nat) -> Seq<char> {
    grouped_digits(decimal_text(n), decimal_text(n).len())
}

/// Writes `n` with thousands separators: 169940 as `169,940`.
pub fn fmt_num(n: usize) -> (text: String)
    ensures
        text@ == grouped_number(n as nat),
{
    let digits = decimal(n as u64);
    let count = digits.as_str().unicode_len();
    let mut text = String::new();
    let mut i: usize = 0;
    while i < count
        invariant
            i <= count,
            count == digits@.len(),
            text@ == grouped_digits(digits@, i as nat),
        decreases count - i,
    {
        if i > 0 && (count - i) % 3 == 0 {
            push_char(&mut text, ',');
        }
        push_char(&mut text, digits.as_str().get_char(i));
        i += 1;
    }
    text
}

/// The labels of the flag bits that are set, in the order of the bits:
/// notice, first episode, last episode, rerun.
pub open spec fn flag_text(flag: Option<u32>) -> Seq<char> {
    match flag {
        None => Seq::empty(),
        Some(f) => (if f & 1 != 0 {
            "[注]"@
        } else {
            Seq::empty()
        }) + (if f & 2 != 0 {
            "[新]"@
        } else {
            Seq::empty()
        }) + (if f & 4 != 0 {
            "[終]"@
        } else {
            Seq::empty()
        }) + (if f & 8 != 0 {
            "[再]"@
        } else {
            Seq::empty()
        }),
    }
}

/// Writes the labels of the flag bits that are set.
pub fn flag_label(flag: Option<u32>) -> (text: String)
    ensures
        text@ == flag_text(flag),
{
    let f = match flag {
        Some(f) => f,
        None => {
            return String::new();
        },
    };
    let mut text = String::new();
    let ghost t0 = text@;
    if f & 1 != 0 {
        text.append("[注]");
    }
    let ghost t1 = text@;
    if f & 2 != 0 {
        text.append("[新]");
    }
    let ghost t2 = text@;
    if f & 4 != 0 {
        text.append("[終]");
    }
    let ghost t3 = text@;
    if f & 8 != 0 {
        text.append("[再]");
    }
    proof {
        let empty = Seq::<char>::empty();
        assert(t0 == empty);
        assert(t1 + empty == t1);
        assert(t2 + empty == t2);
        assert(t3 + empty == t3);
        assert(empty + empty == empty);
        assert(text@ =~= flag_text(flag));
    }
    text
}

/// An optional number in base ten, or `missing` where there is none.
pub open spec fn number_or(value: Option<u64>, missing: Seq<char>) -> Seq<char> {
    match value {
        Some(n) => decimal_text(n as nat),
        None => missing,
    }
}

/// A `u32` as a `u64`, where there is one.
pub open spec fn widened(value: Option<u32>) -> Option<u64> {
    match value {
        Some(n) => Some(n as u64),
        None => None,
    }
}

/// Writes an optional number, or `missing` where there is none.
fn number_cell(value: Option<u64>, missing: &str) -> (text: String)
    ensures
        text@ == number_or(value, missing@),
{
    match value {
        Some(n) => decimal(n),
        None => String::from_str(missing),
    }
}

/// Widens an optional `u32`.
fn widen(value: Option<u32>) -> (wide: Option<u64>)
    ensures
        wide == widened(value),
{
    match value {
        Some(n) => Some(n as u64),
        None => None,
    }
}

/// The six cells of a title: key, name, year, series, season, number of
/// programs.
pub open spec fn title_cells(title: TitleRow) -> Seq<Seq<char>> {
    seq![
        decimal_text(title.tid as nat),
        title.title@,
        number_or(widened(title.first_year), "--"@),
        number_or(title.tmdb_series_id, "--"@),
        number_or(widened(title.tmdb_season_number), "--"@),
        grouped_number(title.program_count as nat),
    ]
}

/// The seven cells of a program: key, episode, start, minutes, channel,
/// flags, subtitle.
pub open spec fn program_cells(program: ProgramRow) -> Seq<Seq<char>> {
    seq![
        decimal_text(program.pid as nat),
        number_or(widened(program.count), "-"@),
        program.st_time@,
        number_or(widened(program.duration_min), "-"@),
        program.ch_name@,
        flag_text(program.flag),
        match program.sub_title {
            Some(sub) => sub@,
            None => Seq::empty(),
        },
    ]
}

/// The characters of each text of a list.
pub open spec fn cell_texts(cells: Seq<String>) -> Seq<Seq<char>> {
    cells.map_values(|c: String| c@)
}

/// Writes the cells of a title row.
pub fn title_row_cells(title: &TitleRow) -> (cells: Vec<String>)
    ensures
        cell_texts(cells@) == title_cells(*title),
{
    let mut cells: Vec<String> = Vec::new();
    cells.push(decimal(title.tid as u64));
    cells.push(title.title.clone());
    cells.push(number_cell(widen(title.first_year), "--"));
    cells.push(number_cell(title.tmdb_series_id, "--"));
    cells.push(number_cell(widen(title.tmdb_season_number), "--"));
    cells.push(fmt_num(title.program_count));
    proof {
        assert(cell_texts(cells@) =~= title_cells(*title));
    }
    cells
}

/// Writes the cells of a program row.
pub fn program_row_cells(program: &ProgramRow) -> (cells: Vec<String>)
    ensures
        cell_texts(cells@) == program_cells(*program),
{
    let mut cells: Vec<String> = Vec::new();
    cells.push(decimal(program.pid as u64));
    cells.push(number_cell(widen(program.count), "-"));
    cells.push(program.st_time.clone());
    cells.push(number_cell(widen(program.duration_min), "-"));
    cells.push(program.ch_name.clone());
    cells.push(flag_label(program.flag));
    cells.push(
        match &program.sub_title {
            Some(sub) => sub.clone(),
            None => String::new(),
        },
    );
    proof {
        assert(cell_texts(cells@) =~= program_cells(*program));
    }
    cells
}

/// The first line of the header: the figures of the cache and the number
/// of titles shown.
pub open spec fn stats_line(stats: ViewerStats, shown: nat) -> Seq<char> {
    grouped_number(stats.total_titles as nat) + " titles  "@ + grouped_number(
        stats.total_programs as nat,
    ) + " progs  "@ + grouped_number(stats.unique_channels as nat) + "ch  (filtered: "@
        + grouped_number(shown) + ")"@
}

/// The second line of the header: the span of the start times, empty
/// where there is no program.
pub open spec fn span_line(stats: ViewerStats) -> Seq<char> {
    match (stats.oldest_st_time, stats.newest_st_time) {
        (Some(oldest), Some(newest)) => oldest@ + " ~ "@ + newest@,
        _ => Seq::empty(),
    }
}

/// Writes the two lines of the header.
pub fn header_lines(stats: &ViewerStats, shown: usize) -> (lines: (String, String))
    ensures
        lines.0@ == stats_line(*stats, shown as nat),
        lines.1@ == span_line(*stats),
{
    let first = fmt_num(stats.total_titles).concat(" titles  ").concat(
        fmt_num(stats.total_programs).as_str(),
    ).concat(" progs  ").concat(fmt_num(stats.unique_channels).as_str()).concat(
        "ch  (filtered: ",
    ).concat(fmt_num(shown).as_str()).concat(")");
    let second = match (&stats.oldest_st_time, &stats.newest_st_time) {
        (Some(oldest), Some(newest)) => oldest.clone().concat(" ~ ").concat(newest.as_str()),
        _ => String::new(),
    };
    (first, second)
}

} // verus!
