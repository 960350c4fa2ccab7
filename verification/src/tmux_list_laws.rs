//! What a list of sessions shows.
use vstd::prelude::*;
use vstd::string::*;

use crate::compose;
use crate::registry;
use crate::registry::RegistrationView;
use crate::tmux_list;
use crate::tmux_list::Width;

verus! {

/// How long ago something was is shown in seconds up to two minutes, in minutes up to two hours,
/// in hours up to two days, and in days from then on.
pub proof fn law_how_long_ago(seconds: nat)
    ensures
        seconds < 120 ==> tmux_list::ago(seconds) == compose::decimal(seconds) + "s ago"@,
        120 <= seconds < 7200 ==> tmux_list::ago(seconds) == compose::decimal(seconds / 60)
            + "m ago"@,
        7200 <= seconds < 172800 ==> tmux_list::ago(seconds) == compose::decimal(seconds / 3600)
            + "h ago"@,
        172800 <= seconds ==> tmux_list::ago(seconds) == compose::decimal(seconds / 86400)
            + "d ago"@,
{
    assert(seconds / 60 / 60 == seconds / 3600);
    assert(seconds / 60 / 60 / 24 == seconds / 86400);
}

/// The seconds between two moments are whole ones, and none where the order is the other way.
pub proof fn law_seconds_between_moments(then: int, now: int)
    ensures
        now >= then ==> tmux_list::seconds_since(then, now) * 1_000_000_000 <= now - then
            < (tmux_list::seconds_since(then, now) + 1) * 1_000_000_000,
        now < then ==> tmux_list::seconds_since(then, now) == 0,
{
}

/// The moment of a registration is shown as how long ago it was; a text that holds none is shown
/// as it is.
pub proof fn law_moment_is_shown(s: Seq<char>, now: int)
    ensures
        match tmux_list::moment_in(s) {
            Some(then) => tmux_list::relative_time(s, now) == tmux_list::ago(
                tmux_list::seconds_since(then, now),
            ),
            None => tmux_list::relative_time(s, now) == s,
        },
{
}

/// A session is dead, or else waits, or else is idle or active by when something last changed
/// in it: idle once that is as many minutes ago as make it stale.
pub proof fn law_status_of_a_session(r: RegistrationView, now: int)
    ensures
        match r.live_state {
            None => tmux_list::live_status(r, now) == "? unknown"@,
            Some(state) => {
                let status = tmux_list::live_status(r, now);
                &&& state.pane_dead ==> status == "\u{2715} dead"@
                &&& !state.pane_dead && state.is_waiting ==> status == "\u{26A0} waiting"@
                &&& !state.pane_dead && !state.is_waiting ==> match state.last_activity {
                    Some(s) => match tmux_list::moment_in(s) {
                        Some(then) => {
                            let elapsed = tmux_list::seconds_since(then, now);
                            if r.stale_minutes > 0 && elapsed >= 60 * r.stale_minutes {
                                status == "\u{25CC} idle "@ + compose::decimal(elapsed / 60) + "m"@
                            } else {
                                status == "\u{25CF} active"@
                            }
                        },
                        None => status == "\u{25CC} idle"@,
                    },
                    None => status == "\u{25CC} idle"@,
                }
            },
        },
{
}

/// A word where something holds.
pub open spec fn word_if(holds: bool, word: Seq<char>) -> Seq<Seq<char>> {
    if holds {
        seq![word]
    } else {
        Seq::empty()
    }
}

/// What is switched on for a session is shown by one word each, in a fixed order, and by a dash
/// where nothing is.
pub proof fn law_features_of_a_session(r: RegistrationView)
    ensures
        ({
            let words = word_if(r.heartbeat_interval > 0 || r.heartbeat_mins > 0, "\u{2665}"@)
                + word_if(r.summarize, "sum"@) + word_if(r.detect_waiting, "wait"@) + word_if(
                r.pin_status || r.pin_summary || r.pin_alerts || r.pin_activity || r.pin_keywords,
                "pins"@,
            ) + word_if(r.keywords.len() > 0, "kw"@);
            &&& words.len() > 0 ==> tmux_list::features(r) == compose::joined(words, " "@)
            &&& words.len() == 0 ==> tmux_list::features(r) == "\u{2014}"@
        }),
{
    let words = word_if(r.heartbeat_interval > 0 || r.heartbeat_mins > 0, "\u{2665}"@) + word_if(
        r.summarize,
        "sum"@,
    ) + word_if(r.detect_waiting, "wait"@) + word_if(
        r.pin_status || r.pin_summary || r.pin_alerts || r.pin_activity || r.pin_keywords,
        "pins"@,
    ) + word_if(r.keywords.len() > 0, "kw"@);
    assert(tmux_list::feature_words(r) =~= words);
}

/// A text, or a dash where there is none.
pub open spec fn shown(o: Option<Seq<char>>) -> Seq<char> {
    match o {
        Some(s) => s,
        None => "-"@,
    }
}

/// The short list shows of each session, in this order, its name, its status, its channel, what
/// is switched on, and when it was registered.
pub proof fn law_row_of_the_short_list(rs: Seq<RegistrationView>, now: int, i: int)
    requires
        0 <= i < rs.len(),
    ensures
        ({
            let rows = tmux_list::rows_of(rs, true, now);
            &&& rows.len() == rs.len()
            &&& rows[i].len() == 5
            &&& rows[i][0] == rs[i].session
            &&& rows[i][1] == tmux_list::live_status(rs[i], now)
            &&& rows[i][2] == shown(rs[i].channel)
            &&& rows[i][3] == tmux_list::features(rs[i])
            &&& rows[i][4] == tmux_list::relative_time(rs[i].registered_at, now)
        }),
{
}

/// The full list shows besides its keywords, whom it mentions, the minutes after which it is
/// stale, what registered it, and the process that asked for it.
pub proof fn law_row_of_the_full_list(rs: Seq<RegistrationView>, now: int, i: int)
    requires
        0 <= i < rs.len(),
    ensures
        ({
            let rows = tmux_list::rows_of(rs, false, now);
            &&& rows.len() == rs.len()
            &&& rows[i].len() == 10
            &&& rows[i][0] == rs[i].session
            &&& rows[i][1] == tmux_list::live_status(rs[i], now)
            &&& rows[i][2] == shown(rs[i].channel)
            &&& rs[i].keywords.len() > 0 ==> rows[i][3] == compose::joined(rs[i].keywords, ","@)
            &&& rs[i].keywords.len() == 0 ==> rows[i][3] == "-"@
            &&& rows[i][4] == shown(rs[i].mention)
            &&& rows[i][5] == compose::decimal(rs[i].stale_minutes as nat)
            &&& rows[i][6] == tmux_list::features(rs[i])
            &&& rows[i][7] == registry::source_label(rs[i].registration_source)
            &&& rows[i][8] == tmux_list::relative_time(rs[i].registered_at, now)
            &&& match rs[i].parent_process {
                Some(parent) => rows[i][9] == compose::decimal(parent.pid as nat) + ":"@ + (
                if parent.name is Some {
                    parent.name->0
                } else {
                    "?"@
                }),
                None => rows[i][9] == "-"@,
            }
        }),
{
}

/// A cell is filled up with blanks to the width of its column and never cut.
pub proof fn law_cell_is_filled_up(s: Seq<char>, width: nat, i: int)
    ensures
        ({
            let cell = tmux_list::padded(s, width);
            &&& cell.len() == (if s.len() < width {
                width
            } else {
                s.len()
            })
            &&& cell.take(s.len() as int) == s
            &&& s.len() <= i < cell.len() ==> cell[i] == ' '
        }),
{
    assert(tmux_list::padded(s, width).take(s.len() as int) =~= s);
}

/// A column is as wide as its widest cell, or as its least width where no cell is wider.
pub proof fn law_width_of_a_column(rows: Seq<Seq<Seq<char>>>, column: int, least: usize)
    ensures
        tmux_list::widest(rows, column, least) == least || exists|i: int|
            0 <= i < rows.len() && tmux_list::widest(rows, column, least) == tmux_list::bytes_of(
                (#[trigger] rows[i])[column],
            ),
    decreases rows.len(),
{
    if rows.len() > 0 {
        let front = rows.drop_last();
        law_width_of_a_column(front, column, least);
        let so_far = tmux_list::widest(front, column, least);
        assert(rows[rows.len() - 1] == rows.last());
        if so_far != least {
            let i = choose|i: int|
                0 <= i < front.len() && so_far == tmux_list::bytes_of(
                    (#[trigger] front[i])[column],
                );
            assert(rows[i] == front[i]);
        }
    }
}

/// The lines of some rows, each with its cells filled up and two blanks between them.
pub open spec fn lines_of(rows: Seq<Seq<Seq<char>>>, w: Seq<usize>) -> Seq<char> {
    rows.map_values(
        |cells: Seq<Seq<char>>|
            compose::joined(
                Seq::new(
                    cells.len(),
                    |k: int|
                        if k == cells.len() - 1 {
                            cells[k]
                        } else {
                            tmux_list::padded(cells[k], w[k] as nat)
                        },
                ),
                "  "@,
            ) + "\n"@,
    ).flatten()
}

proof fn lemma_line(cells: Seq<Seq<char>>, w: Seq<usize>)
    ensures
        tmux_list::line(cells, w) == compose::joined(
            Seq::new(
                cells.len(),
                |k: int|
                    if k == cells.len() - 1 {
                        cells[k]
                    } else {
                        tmux_list::padded(cells[k], w[k] as nat)
                    },
            ),
            "  "@,
        ) + "\n"@,
{
    assert(tmux_list::aligned(cells, w) =~= Seq::new(
        cells.len(),
        |k: int|
            if k == cells.len() - 1 {
                cells[k]
            } else {
                tmux_list::padded(cells[k], w[k] as nat)
            },
    ));
}

/// A list has a line for each row, in their order.
pub proof fn law_lines_of_a_list(rows: Seq<Seq<Seq<char>>>, w: Seq<usize>)
    ensures
        tmux_list::lines(rows, w) == lines_of(rows, w),
    decreases rows.len(),
{
    let f = |cells: Seq<Seq<char>>|
        compose::joined(
            Seq::new(
                cells.len(),
                |k: int|
                    if k == cells.len() - 1 {
                        cells[k]
                    } else {
                        tmux_list::padded(cells[k], w[k] as nat)
                    },
            ),
            "  "@,
        ) + "\n"@;
    if rows.len() > 0 {
        let front = rows.drop_last();
        law_lines_of_a_list(front, w);
        lemma_line(rows.last(), w);
        let ls = rows.map_values(f);
        let before = front.map_values(f);
        assert(ls =~= before.push(f(rows.last())));
        before.lemma_flatten_push(f(rows.last()));
    } else {
        assert(rows.map_values(f) =~= Seq::empty());
        assert(tmux_list::lines(rows, w) =~= lines_of(rows, w));
    }
}

/// The short list has a header, a rule and the lines of the sessions; without sessions there is
/// a line that says so.
pub proof fn law_short_list(rs: Seq<RegistrationView>, now: int)
    ensures
        rs.len() == 0 ==> tmux_list::listing(rs, true, now)
            == "No active tmux sessions registered.\n"@,
        rs.len() > 0 ==> ({
            let rows = tmux_list::rows_of(rs, true, now);
            let w = seq![
                tmux_list::widest(rows, 0, 7),
                tmux_list::widest(rows, 1, 8),
                tmux_list::widest(rows, 2, 7),
                tmux_list::widest(rows, 3, 8),
                12usize,
            ];
            let header = seq!["SESSION"@, "STATUS"@, "CHANNEL"@, "FEATURES"@, "REGISTERED"@];
            let rule = Seq::new(
                (w[0] + w[1] + w[2] + w[3] + w[4] + 10) as nat,
                |i: int| '\u{2500}',
            );
            tmux_list::listing(rs, true, now) == lines_of(seq![header], w) + rule + "\n"@
                + lines_of(rows, w)
        }),
{
    if rs.len() > 0 {
        let rows = tmux_list::rows_of(rs, true, now);
        let columns = seq![
            Width::Least(7),
            Width::Least(8),
            Width::Least(7),
            Width::Least(8),
            Width::Fixed(12),
        ];
        let w = seq![
            tmux_list::widest(rows, 0, 7),
            tmux_list::widest(rows, 1, 8),
            tmux_list::widest(rows, 2, 7),
            tmux_list::widest(rows, 3, 8),
            12usize,
        ];
        let header = seq!["SESSION"@, "STATUS"@, "CHANNEL"@, "FEATURES"@, "REGISTERED"@];
        assert(tmux_list::widths(rows, columns) =~= w);
        law_lines_of_a_list(rows, w);
        law_lines_of_a_list(seq![header], w);
        lemma_one_line(header, w);
        lemma_total_five(w);
        assert(tmux_list::repeated('\u{2500}', tmux_list::total(w) + 10) =~= Seq::new(
            (w[0] + w[1] + w[2] + w[3] + w[4] + 10) as nat,
            |i: int| '\u{2500}',
        ));
    }
}

proof fn lemma_one_line(cells: Seq<Seq<char>>, w: Seq<usize>)
    ensures
        tmux_list::lines(seq![cells], w) == tmux_list::line(cells, w),
{
    let one = seq![cells];
    assert(one.drop_last() =~= Seq::<Seq<Seq<char>>>::empty());
    reveal_with_fuel(tmux_list::lines, 2);
    assert(tmux_list::lines(one, w) =~= tmux_list::line(cells, w));
}

proof fn lemma_total_five(w: Seq<usize>)
    requires
        w.len() == 5,
    ensures
        tmux_list::total(w) == w[0] + w[1] + w[2] + w[3] + w[4],
{
    reveal_with_fuel(tmux_list::total, 6);
}

/// The full list has a header, a rule and the lines of the sessions in the same way.
pub proof fn law_full_list(rs: Seq<RegistrationView>, now: int)
    ensures
        rs.len() == 0 ==> tmux_list::listing(rs, false, now)
            == "No active tmux sessions registered.\n"@,
        rs.len() > 0 ==> ({
            let rows = tmux_list::rows_of(rs, false, now);
            let w = seq![
                tmux_list::widest(rows, 0, 7),
                tmux_list::widest(rows, 1, 8),
                tmux_list::widest(rows, 2, 7),
                tmux_list::widest(rows, 3, 8),
                tmux_list::widest(rows, 4, 7),
                5usize,
                tmux_list::widest(rows, 6, 8),
                tmux_list::widest(rows, 7, 6),
                12usize,
                tmux_list::widest(rows, 9, 6),
            ];
            let header = seq![
                "SESSION"@,
                "STATUS"@,
                "CHANNEL"@,
                "KEYWORDS"@,
                "MENTION"@,
                "STALE"@,
                "FEATURES"@,
                "SOURCE"@,
                "REGISTERED"@,
                "PARENT"@,
            ];
            let rule = Seq::new(tmux_list::total(w) + 20, |i: int| '\u{2500}');
            tmux_list::listing(rs, false, now) == lines_of(seq![header], w) + rule + "\n"@
                + lines_of(rows, w)
        }),
{
    if rs.len() > 0 {
        let rows = tmux_list::rows_of(rs, false, now);
        let columns = seq![
            Width::Least(7),
            Width::Least(8),
            Width::Least(7),
            Width::Least(8),
            Width::Least(7),
            Width::Fixed(5),
            Width::Least(8),
            Width::Least(6),
            Width::Fixed(12),
            Width::Least(6),
        ];
        let w = seq![
            tmux_list::widest(rows, 0, 7),
            tmux_list::widest(rows, 1, 8),
            tmux_list::widest(rows, 2, 7),
            tmux_list::widest(rows, 3, 8),
            tmux_list::widest(rows, 4, 7),
            5usize,
            tmux_list::widest(rows, 6, 8),
            tmux_list::widest(rows, 7, 6),
            12usize,
            tmux_list::widest(rows, 9, 6),
        ];
        let header = seq![
            "SESSION"@,
            "STATUS"@,
            "CHANNEL"@,
            "KEYWORDS"@,
            "MENTION"@,
            "STALE"@,
            "FEATURES"@,
            "SOURCE"@,
            "REGISTERED"@,
            "PARENT"@,
        ];
        assert(tmux_list::widths(rows, columns) =~= w);
        law_lines_of_a_list(rows, w);
        law_lines_of_a_list(seq![header], w);
        lemma_one_line(header, w);
        assert(tmux_list::repeated('\u{2500}', tmux_list::total(w) + 20) =~= Seq::new(
            tmux_list::total(w) + 20,
            |i: int| '\u{2500}',
        ));
    }
}

} // verus!
