//! The list of the tmux sessions that are watched.
use vstd::prelude::*;
use vstd::string::*;

use crate::compose;
use crate::compose::{cat2, cat3, join, number};
use crate::registry;
use crate::registry::{RegisteredTmuxSession, RegistrationView};
use crate::text;

verus! {

broadcast use crate::text::views_push;

// ---------------------------------------------------------------------------
// Moments
// ---------------------------------------------------------------------------

/// A moment of the calendar, in nanoseconds since the beginning of 1970: the
/// years from -9999 to 9999 lie within.
pub open spec fn is_moment(n: int) -> bool {
    -1_000_000_000_000_000_000_000 < n < 1_000_000_000_000_000_000_000
}

/// The moment that `time::OffsetDateTime::parse` reads in a text in RFC 3339
/// notation, in nanoseconds since the beginning of 1970.
pub uninterp spec fn moment_in(s: Seq<char>) -> Option<int>;

/// An optional number.
pub open spec fn opt_int(o: Option<i128>) -> Option<int> {
    match o {
        Some(n) => Some(n as int),
        None => None,
    }
}

/// `time::OffsetDateTime::parse` with RFC 3339 notation: the moment of a text,
/// in the nanoseconds that `unix_timestamp_nanos` gives. Its years lie between
/// -9999 and 9999.
#[verifier::external_body]
fn read_moment(s: &str) -> (r: Option<i128>)
    ensures
        opt_int(r) == moment_in(s@),
        r matches Some(n) ==> is_moment(n as int),
{
    time::OffsetDateTime::parse(s, &time::format_description::well_known::Rfc3339).ok().map(
        |moment| moment.unix_timestamp_nanos(),
    )
}

/// `time::OffsetDateTime::now_utc`: the present moment, in nanoseconds since the
/// beginning of 1970. Its year lies between -9999 and 9999.
#[verifier::external_body]
fn present_moment() -> (r: i128)
    ensures
        is_moment(r as int),
{
    time::OffsetDateTime::now_utc().unix_timestamp_nanos()
}

/// The whole seconds from one moment to another, none where it comes first.
pub open spec fn seconds_since(then: int, now: int) -> nat {
    if now > then {
        ((now - then) / 1_000_000_000) as nat
    } else {
        0
    }
}

fn elapsed_seconds(earlier: i128, now: i128) -> (r: u64)
    requires
        is_moment(earlier as int),
        is_moment(now as int),
    ensures
        r == seconds_since(earlier as int, now as int),
{
    if now > earlier {
        ((now - earlier) / 1_000_000_000) as u64
    } else {
        0
    }
}

/// How long ago something was.
pub open spec fn ago(seconds: nat) -> Seq<char> {
    if seconds < 120 {
        compose::decimal(seconds) + "s ago"@
    } else if seconds / 60 < 120 {
        compose::decimal(seconds / 60) + "m ago"@
    } else if seconds / 60 / 60 < 48 {
        compose::decimal(seconds / 60 / 60) + "h ago"@
    } else {
        compose::decimal(seconds / 60 / 60 / 24) + "d ago"@
    }
}

/// How long ago the moment of a text was; a text that holds none stands for
/// itself.
pub open spec fn relative_time(s: Seq<char>, now: int) -> Seq<char> {
    match moment_in(s) {
        Some(then) => ago(seconds_since(then, now)),
        None => s,
    }
}

/// How long ago some seconds were.
pub fn format_elapsed(secs: u64) -> (r: String)
    ensures
        r@ == ago(secs as nat),
{
    if secs < 120 {
        return cat2(number(secs).as_str(), "s ago");
    }
    let mins: u64 = secs / 60;
    if mins < 120 {
        return cat2(number(mins).as_str(), "m ago");
    }
    let hours: u64 = mins / 60;
    if hours < 48 {
        return cat2(number(hours).as_str(), "h ago");
    }
    cat2(number(hours / 24).as_str(), "d ago")
}

/// How long ago the moment of a text was.
pub fn format_relative_time(rfc3339: &str, now: i128) -> (r: String)
    requires
        is_moment(now as int),
    ensures
        r@ == relative_time(rfc3339@, now as int),
{
    match read_moment(rfc3339) {
        Some(earlier) => format_elapsed(elapsed_seconds(earlier, now)),
        None => rfc3339.to_owned(),
    }
}

// ---------------------------------------------------------------------------
// Cells
// ---------------------------------------------------------------------------

/// The status of a session that something last changed in some seconds ago.
pub open spec fn activity_status(elapsed: nat, stale_minutes: u64) -> Seq<char> {
    if stale_minutes > 0 && elapsed >= stale_minutes * 60 {
        "\u{25CC} idle "@ + compose::decimal(elapsed / 60) + "m"@
    } else {
        "\u{25CF} active"@
    }
}

/// The status of a session.
pub open spec fn live_status(r: RegistrationView, now: int) -> Seq<char> {
    match r.live_state {
        None => "? unknown"@,
        Some(state) => if state.pane_dead {
            "\u{2715} dead"@
        } else if state.is_waiting {
            "\u{26A0} waiting"@
        } else {
            let seen = match state.last_activity {
                Some(s) => moment_in(s),
                None => None,
            };
            match seen {
                Some(then) => activity_status(seconds_since(then, now), r.stale_minutes),
                None => "\u{25CC} idle"@,
            }
        },
    }
}

/// The status of a session that something last changed in some seconds ago.
pub fn format_activity(elapsed_secs: u64, stale_minutes: u64) -> (r: String)
    ensures
        r@ == activity_status(elapsed_secs as nat, stale_minutes),
{
    if stale_minutes > 0 && elapsed_secs / 60 >= stale_minutes {
        cat3("\u{25CC} idle ", number(elapsed_secs / 60).as_str(), "m")
    } else {
        "\u{25CF} active".to_owned()
    }
}

/// The status of a session.
pub fn format_live_status(r: &RegisteredTmuxSession, now: i128) -> (s: String)
    requires
        is_moment(now as int),
    ensures
        s@ == live_status(r@, now as int),
{
    match &r.live_state {
        None => "? unknown".to_owned(),
        Some(state) => {
            if state.pane_dead {
                return "\u{2715} dead".to_owned();
            }
            if state.is_waiting {
                return "\u{26A0} waiting".to_owned();
            }
            let seen = match &state.last_activity {
                Some(s) => read_moment(s.as_str()),
                None => None,
            };
            match seen {
                Some(earlier) => format_activity(elapsed_seconds(earlier, now), r.stale_minutes),
                None => "\u{25CC} idle".to_owned(),
            }
        },
    }
}

/// The list with a word where something holds.
pub open spec fn with_word(words: Seq<Seq<char>>, holds: bool, word: Seq<char>) -> Seq<Seq<char>> {
    if holds {
        words.push(word)
    } else {
        words
    }
}

/// The words for what is switched on for a session.
pub open spec fn feature_words(r: RegistrationView) -> Seq<Seq<char>> {
    let words = with_word(
        Seq::empty(),
        r.heartbeat_interval > 0 || r.heartbeat_mins > 0,
        "\u{2665}"@,
    );
    let words = with_word(words, r.summarize, "sum"@);
    let words = with_word(words, r.detect_waiting, "wait"@);
    let pins = r.pin_status || r.pin_summary || r.pin_alerts || r.pin_activity || r.pin_keywords;
    let words = with_word(words, pins, "pins"@);
    with_word(words, r.keywords.len() > 0, "kw"@)
}

/// What is switched on for a session.
pub open spec fn features(r: RegistrationView) -> Seq<char> {
    if feature_words(r).len() == 0 {
        "\u{2014}"@
    } else {
        compose::joined(feature_words(r), " "@)
    }
}

fn push_word(words: &mut Vec<String>, holds: bool, word: &str)
    ensures
        text::views(final(words)@) == with_word(text::views(old(words)@), holds, word@),
{
    if holds {
        words.push(word.to_owned());
    }
}

/// What is switched on for a session.
pub fn format_features(r: &RegisteredTmuxSession) -> (s: String)
    ensures
        s@ == features(r@),
{
    let mut words: Vec<String> = Vec::new();
    assert(text::views(words@) =~= Seq::<Seq<char>>::empty());
    push_word(&mut words, r.heartbeat_interval > 0 || r.heartbeat_mins > 0, "\u{2665}");
    push_word(&mut words, r.summarize, "sum");
    push_word(&mut words, r.detect_waiting, "wait");
    let pins = r.pin_status || r.pin_summary || r.pin_alerts || r.pin_activity || r.pin_keywords;
    push_word(&mut words, pins, "pins");
    assert(text::views(r.keywords@).len() == r.keywords@.len());
    push_word(&mut words, r.keywords.len() > 0, "kw");
    assert(text::views(words@).len() == words@.len());
    if words.len() == 0 {
        "\u{2014}".to_owned()
    } else {
        join(&words, " ")
    }
}

/// A text, or a dash in its place.
pub open spec fn or_dash(o: Option<Seq<char>>) -> Seq<char> {
    match o {
        Some(s) => s,
        None => "-"@,
    }
}

/// The keywords of a session.
pub open spec fn keyword_cell(r: RegistrationView) -> Seq<char> {
    if r.keywords.len() == 0 {
        "-"@
    } else {
        compose::joined(r.keywords, ","@)
    }
}

/// The process that asked for a session to be watched.
pub open spec fn parent_cell(r: RegistrationView) -> Seq<char> {
    match r.parent_process {
        Some(parent) => compose::decimal(parent.pid as nat) + ":"@ + (match parent.name {
            Some(name) => name,
            None => "?"@,
        }),
        None => "-"@,
    }
}

fn text_or_dash(o: &Option<String>) -> (r: String)
    ensures
        r@ == or_dash(text::opt_text(*o)),
{
    match o {
        Some(s) => s.clone(),
        None => "-".to_owned(),
    }
}

fn keywords_text(r: &RegisteredTmuxSession) -> (s: String)
    ensures
        s@ == keyword_cell(r@),
{
    assert(text::views(r.keywords@).len() == r.keywords@.len());
    if r.keywords.len() == 0 {
        "-".to_owned()
    } else {
        join(&r.keywords, ",")
    }
}

fn parent_text(r: &RegisteredTmuxSession) -> (s: String)
    ensures
        s@ == parent_cell(r@),
{
    match &r.parent_process {
        Some(parent) => {
            let name = match &parent.name {
                Some(name) => name.as_str(),
                None => "?",
            };
            cat3(number(parent.pid as u64).as_str(), ":", name)
        },
        None => "-".to_owned(),
    }
}

// ---------------------------------------------------------------------------
// Columns
// ---------------------------------------------------------------------------

/// Some copies of a character.
pub open spec fn repeated(c: char, n: nat) -> Seq<char> {
    Seq::new(n, |i: int| c)
}

/// A text filled up with blanks to a number of characters.
pub open spec fn padded(s: Seq<char>, width: nat) -> Seq<char> {
    if s.len() < width {
        s + repeated(' ', (width - s.len()) as nat)
    } else {
        s
    }
}

/// The bytes that a text takes.
pub open spec fn bytes_of(s: Seq<char>) -> usize {
    vstd::utf8::encode_utf8(s).len() as usize
}

/// The width of a column: that of its widest cell, and not less than a minimum.
pub open spec fn widest(rows: Seq<Seq<Seq<char>>>, column: int, least: usize) -> usize
    decreases rows.len(),
{
    if rows.len() == 0 {
        least
    } else {
        let so_far = widest(rows.drop_last(), column, least);
        if bytes_of(rows.last()[column]) > so_far {
            bytes_of(rows.last()[column])
        } else {
            so_far
        }
    }
}

/// The width of a column: a fixed one, or that of its cells from a minimum on.
#[derive(Debug, Clone, Copy)]
pub enum Width {
    Fixed(usize),
    Least(usize),
}

/// The widths of the columns of some rows.
pub open spec fn widths(rows: Seq<Seq<Seq<char>>>, columns: Seq<Width>) -> Seq<usize> {
    Seq::new(
        columns.len(),
        |k: int|
            match columns[k] {
                Width::Fixed(n) => n,
                Width::Least(n) => widest(rows, k, n),
            },
    )
}

/// The sum of some widths.
pub open spec fn total(widths: Seq<usize>) -> nat
    decreases widths.len(),
{
    if widths.len() == 0 {
        0
    } else {
        total(widths.drop_last()) + widths.last() as nat
    }
}

/// The cells of a row, all but the last filled up to the widths of their columns.
pub open spec fn aligned(cells: Seq<Seq<char>>, widths: Seq<usize>) -> Seq<Seq<char>> {
    Seq::new(
        cells.len(),
        |k: int|
            if k < cells.len() - 1 {
                padded(cells[k], widths[k] as nat)
            } else {
                cells[k]
            },
    )
}

/// A row of a list.
pub open spec fn line(cells: Seq<Seq<char>>, widths: Seq<usize>) -> Seq<char> {
    compose::joined(aligned(cells, widths), "  "@) + "\n"@
}

/// The rows of a list, one after the other.
pub open spec fn lines(rows: Seq<Seq<Seq<char>>>, widths: Seq<usize>) -> Seq<char>
    decreases rows.len(),
{
    if rows.len() == 0 {
        Seq::empty()
    } else {
        lines(rows.drop_last(), widths) + line(rows.last(), widths)
    }
}

/// A list: a header, a rule below it, and the rows.
pub open spec fn laid_out(
    header: Seq<Seq<char>>,
    rows: Seq<Seq<Seq<char>>>,
    columns: Seq<Width>,
    gap: nat,
) -> Seq<char> {
    let w = widths(rows, columns);
    line(header, w) + repeated('\u{2500}', total(w) + gap) + "\n"@ + lines(rows, w)
}

/// The cells of some rows.
pub open spec fn cells_in(rows: Seq<Vec<String>>) -> Seq<Seq<Seq<char>>> {
    Seq::new(rows.len(), |i: int| text::views(rows[i]@))
}

fn push_copies(out: &mut String, mark: &str, c: Ghost<char>, n: usize)
    requires
        mark@ == seq![c@],
    ensures
        final(out)@ == old(out)@ + repeated(c@, n as nat),
{
    let ghost before = out@;
    let mut i: usize = 0;
    assert(before + repeated(c@, 0) =~= before);
    while i < n
        invariant
            i <= n,
            mark@ == seq![c@],
            out@ == before + repeated(c@, i as nat),
        decreases n - i,
    {
        out.append(mark);
        assert(out@ =~= before + repeated(c@, (i + 1) as nat));
        i = i + 1;
    }
}

fn pad(s: &str, width: usize) -> (r: String)
    ensures
        r@ == padded(s@, width as nat),
{
    let n = s.unicode_len();
    let mut out = s.to_owned();
    if n < width {
        proof {
            reveal_strlit(" ");
            assert(" "@ =~= seq![' ']);
        }
        push_copies(&mut out, " ", Ghost(' '), width - n);
    }
    out
}

fn widest_cell(rows: &Vec<Vec<String>>, column: usize, least: usize) -> (r: usize)
    requires
        forall|i: int| 0 <= i < rows@.len() ==> column < (#[trigger] rows@[i])@.len(),
    ensures
        r == widest(cells_in(rows@), column as int, least),
{
    let ghost all = cells_in(rows@);
    let mut width: usize = least;
    let mut i: usize = 0;
    while i < rows.len()
        invariant
            i <= rows.len(),
            all == cells_in(rows@),
            forall|k: int| 0 <= k < rows@.len() ==> column < (#[trigger] rows@[k])@.len(),
            width == widest(all.take(i as int), column as int, least),
        decreases rows.len() - i,
    {
        assert(all.take(i + 1).drop_last() =~= all.take(i as int));
        assert(all.take(i + 1).last() == text::views(rows@[i as int]@));
        let row = &rows[i];
        let n: usize = row[column].as_str().len();
        if n > width {
            width = n;
        }
        i = i + 1;
    }
    assert(all.take(i as int) =~= all);
    width
}

fn column_widths(rows: &Vec<Vec<String>>, columns: &Vec<Width>) -> (r: Vec<usize>)
    requires
        forall|i: int| 0 <= i < rows@.len() ==> (#[trigger] rows@[i])@.len() == columns@.len(),
    ensures
        r@ == widths(cells_in(rows@), columns@),
{
    let mut out: Vec<usize> = Vec::new();
    let mut k: usize = 0;
    while k < columns.len()
        invariant
            k <= columns.len(),
            forall|i: int| 0 <= i < rows@.len() ==> (#[trigger] rows@[i])@.len() == columns@.len(),
            out@ == widths(cells_in(rows@), columns@).take(k as int),
        decreases columns.len() - k,
    {
        let width: usize = match columns[k] {
            Width::Fixed(n) => n,
            Width::Least(n) => widest_cell(rows, k, n),
        };
        out.push(width);
        assert(out@ =~= widths(cells_in(rows@), columns@).take(k + 1));
        k = k + 1;
    }
    assert(widths(cells_in(rows@), columns@).take(k as int) =~= widths(cells_in(rows@), columns@));
    out
}

fn push_line(out: &mut String, cells: &Vec<String>, widths: &Vec<usize>)
    requires
        cells@.len() == widths@.len(),
    ensures
        final(out)@ == old(out)@ + line(text::views(cells@), widths@),
{
    let ghost all = aligned(text::views(cells@), widths@);
    let mut parts: Vec<String> = Vec::new();
    let mut k: usize = 0;
    while k < cells.len()
        invariant
            k <= cells.len() == widths@.len(),
            all == aligned(text::views(cells@), widths@),
            text::views(parts@) == all.take(k as int),
        decreases cells.len() - k,
    {
        let cell = if k < cells.len() - 1 {
            pad(cells[k].as_str(), widths[k])
        } else {
            cells[k].clone()
        };
        parts.push(cell);
        assert(text::views(parts@) =~= all.take(k + 1));
        k = k + 1;
    }
    assert(all.take(k as int) =~= all);
    let text_line = cat2(join(&parts, "  ").as_str(), "\n");
    out.append(text_line.as_str());
}

fn push_rule(out: &mut String, widths: &Vec<usize>, gap: usize)
    ensures
        final(out)@ == old(out)@ + repeated('\u{2500}', total(widths@) + gap as nat),
{
    proof {
        reveal_strlit("\u{2500}");
        assert("\u{2500}"@ =~= seq!['\u{2500}']);
    }
    let ghost before = out@;
    push_copies(out, "\u{2500}", Ghost('\u{2500}'), gap);
    let mut k: usize = 0;
    while k < widths.len()
        invariant
            k <= widths.len(),
            "\u{2500}"@ == seq!['\u{2500}'],
            out@ == before + repeated('\u{2500}', total(widths@.take(k as int)) + gap as nat),
        decreases widths.len() - k,
    {
        assert(widths@.take(k + 1).drop_last() =~= widths@.take(k as int));
        push_copies(out, "\u{2500}", Ghost('\u{2500}'), widths[k]);
        assert(out@ =~= before + repeated(
            '\u{2500}',
            total(widths@.take(k + 1)) + gap as nat,
        ));
        k = k + 1;
    }
    assert(widths@.take(k as int) =~= widths@);
}

fn lay_out(
    header: &Vec<String>,
    rows: &Vec<Vec<String>>,
    columns: &Vec<Width>,
    gap: usize,
) -> (r: String)
    requires
        header@.len() == columns@.len(),
        forall|i: int| 0 <= i < rows@.len() ==> (#[trigger] rows@[i])@.len() == columns@.len(),
    ensures
        r@ == laid_out(text::views(header@), cells_in(rows@), columns@, gap as nat),
{
    let w = column_widths(rows, columns);
    let mut out = String::new();
    push_line(&mut out, header, &w);
    assert(out@ =~= line(text::views(header@), w@));
    push_rule(&mut out, &w, gap);
    out.append("\n");
    let ghost top = out@;
    let ghost all = cells_in(rows@);
    let mut i: usize = 0;
    assert(top + lines(all.take(0), w@) =~= top);
    while i < rows.len()
        invariant
            i <= rows.len(),
            all == cells_in(rows@),
            w@.len() == columns@.len(),
            forall|k: int| 0 <= k < rows@.len() ==> (#[trigger] rows@[k])@.len() == columns@.len(),
            out@ == top + lines(all.take(i as int), w@),
        decreases rows.len() - i,
    {
        assert(all.take(i + 1).drop_last() =~= all.take(i as int));
        assert(all.take(i + 1).last() == text::views(rows@[i as int]@));
        push_line(&mut out, &rows[i], &w);
        assert(out@ =~= top + lines(all.take(i + 1), w@));
        i = i + 1;
    }
    assert(all.take(i as int) =~= all);
    out
}

// ---------------------------------------------------------------------------
// The list
// ---------------------------------------------------------------------------

/// The cells of a session in the short list.
pub open spec fn compact_row(r: RegistrationView, now: int) -> Seq<Seq<char>> {
    seq![
        r.session,
        live_status(r, now),
        or_dash(r.channel),
        features(r),
        relative_time(r.registered_at, now),
    ]
}

/// The cells of a session in the full list.
pub open spec fn full_row(r: RegistrationView, now: int) -> Seq<Seq<char>> {
    seq![
        r.session,
        live_status(r, now),
        or_dash(r.channel),
        keyword_cell(r),
        or_dash(r.mention),
        compose::decimal(r.stale_minutes as nat),
        features(r),
        registry::source_label(r.registration_source),
        relative_time(r.registered_at, now),
        parent_cell(r),
    ]
}

/// The cells of some sessions.
pub open spec fn rows_of(rs: Seq<RegistrationView>, compact: bool, now: int) -> Seq<
    Seq<Seq<char>>,
> {
    Seq::new(
        rs.len(),
        |i: int|
            if compact {
                compact_row(rs[i], now)
            } else {
                full_row(rs[i], now)
            },
    )
}

/// The list of some sessions at a moment.
pub open spec fn listing(rs: Seq<RegistrationView>, compact: bool, now: int) -> Seq<char> {
    if rs.len() == 0 {
        "No active tmux sessions registered.\n"@
    } else if compact {
        laid_out(
            seq!["SESSION"@, "STATUS"@, "CHANNEL"@, "FEATURES"@, "REGISTERED"@],
            rows_of(rs, compact, now),
            seq![
                Width::Least(7),
                Width::Least(8),
                Width::Least(7),
                Width::Least(8),
                Width::Fixed(12),
            ],
            10,
        )
    } else {
        laid_out(
            seq![
                "SESSION"@,
                "STATUS"@,
                "CHANNEL"@,
                "KEYWORDS"@,
                "MENTION"@,
                "STALE"@,
                "FEATURES"@,
                "SOURCE"@,
                "REGISTERED"@,
                "PARENT"@,
            ],
            rows_of(rs, compact, now),
            seq![
                Width::Least(7),
                Width::Least(8),
                Width::Least(7),
                Width::Least(8),
                Width::Least(7),
                Width::Fixed(5),
                Width::Least(8),
                Width::Least(6),
                Width::Fixed(12),
                Width::Least(6),
            ],
            20,
        )
    }
}

fn row_cells(r: &RegisteredTmuxSession, compact: bool, now: i128) -> (cells: Vec<String>)
    requires
        is_moment(now as int),
    ensures
        text::views(cells@) == (if compact {
            compact_row(r@, now as int)
        } else {
            full_row(r@, now as int)
        }),
{
    let mut cells: Vec<String> = Vec::new();
    cells.push(r.session.clone());
    cells.push(format_live_status(r, now));
    cells.push(text_or_dash(&r.channel));
    if compact {
        cells.push(format_features(r));
        cells.push(format_relative_time(r.registered_at.as_str(), now));
        assert(text::views(cells@) =~= compact_row(r@, now as int));
        return cells;
    }
    cells.push(keywords_text(r));
    cells.push(text_or_dash(&r.mention));
    cells.push(number(r.stale_minutes));
    cells.push(format_features(r));
    cells.push(r.registration_source.as_str().to_owned());
    cells.push(format_relative_time(r.registered_at.as_str(), now));
    cells.push(parent_text(r));
    assert(text::views(cells@) =~= full_row(r@, now as int));
    cells
}

fn all_rows(rs: &Vec<RegisteredTmuxSession>, compact: bool, now: i128) -> (rows: Vec<Vec<String>>)
    requires
        is_moment(now as int),
    ensures
        cells_in(rows@) == rows_of(text::all_views(rs@), compact, now as int),
        forall|i: int|
            0 <= i < rows@.len() ==> (#[trigger] rows@[i])@.len() == (if compact {
                5int
            } else {
                10int
            }),
{
    let ghost all = rows_of(text::all_views(rs@), compact, now as int);
    let mut rows: Vec<Vec<String>> = Vec::new();
    let mut i: usize = 0;
    while i < rs.len()
        invariant
            i <= rs.len(),
            is_moment(now as int),
            all == rows_of(text::all_views(rs@), compact, now as int),
            cells_in(rows@) == all.take(i as int),
            forall|k: int|
                0 <= k < rows@.len() ==> (#[trigger] rows@[k])@.len() == (if compact {
                    5int
                } else {
                    10int
                }),
        decreases rs.len() - i,
    {
        let ghost before = cells_in(rows@);
        let cells = row_cells(&rs[i], compact, now);
        let ghost view = text::views(cells@);
        assert(view.len() == cells@.len());
        rows.push(cells);
        assert(cells_in(rows@) =~= before.push(view));
        assert(cells_in(rows@) =~= all.take(i + 1));
        i = i + 1;
    }
    assert(all.take(i as int) =~= all);
    rows
}

/// The list of some sessions at a moment.
pub fn format_tmux_list_at(
    registrations: &Vec<RegisteredTmuxSession>,
    compact: bool,
    now: i128,
) -> (r: String)
    requires
        is_moment(now as int),
    ensures
        r@ == listing(text::all_views(registrations@), compact, now as int),
{
    assert(text::all_views(registrations@).len() == registrations@.len());
    if registrations.len() == 0 {
        return "No active tmux sessions registered.\n".to_owned();
    }
    let rows = all_rows(registrations, compact, now);
    let mut header: Vec<String> = Vec::new();
    let mut columns: Vec<Width> = Vec::new();
    header.push("SESSION".to_owned());
    header.push("STATUS".to_owned());
    header.push("CHANNEL".to_owned());
    columns.push(Width::Least(7));
    columns.push(Width::Least(8));
    columns.push(Width::Least(7));
    if compact {
        header.push("FEATURES".to_owned());
        header.push("REGISTERED".to_owned());
        columns.push(Width::Least(8));
        columns.push(Width::Fixed(12));
        assert(text::views(header@) =~= seq![
            "SESSION"@,
            "STATUS"@,
            "CHANNEL"@,
            "FEATURES"@,
            "REGISTERED"@,
        ]);
        assert(columns@ =~= seq![
            Width::Least(7),
            Width::Least(8),
            Width::Least(7),
            Width::Least(8),
            Width::Fixed(12),
        ]);
        return lay_out(&header, &rows, &columns, 10);
    }
    header.push("KEYWORDS".to_owned());
    header.push("MENTION".to_owned());
    header.push("STALE".to_owned());
    header.push("FEATURES".to_owned());
    header.push("SOURCE".to_owned());
    header.push("REGISTERED".to_owned());
    header.push("PARENT".to_owned());
    columns.push(Width::Least(8));
    columns.push(Width::Least(7));
    columns.push(Width::Fixed(5));
    columns.push(Width::Least(8));
    columns.push(Width::Least(6));
    columns.push(Width::Fixed(12));
    columns.push(Width::Least(6));
    assert(text::views(header@) =~= seq![
        "SESSION"@,
        "STATUS"@,
        "CHANNEL"@,
        "KEYWORDS"@,
        "MENTION"@,
        "STALE"@,
        "FEATURES"@,
        "SOURCE"@,
        "REGISTERED"@,
        "PARENT"@,
    ]);
    assert(columns@ =~= seq![
        Width::Least(7),
        Width::Least(8),
        Width::Least(7),
        Width::Least(8),
        Width::Least(7),
        Width::Fixed(5),
        Width::Least(8),
        Width::Least(6),
        Width::Fixed(12),
        Width::Least(6),
    ]);
    lay_out(&header, &rows, &columns, 20)
}

/// The text is the list of some sessions at some moment.
pub open spec fn is_listing(s: Seq<char>, rs: Seq<RegistrationView>, compact: bool) -> bool {
    exists|now: int| is_moment(now) && s == #[trigger] listing(rs, compact, now)
}

/// The list of some sessions at the present moment.
pub fn format_tmux_list(registrations: &Vec<RegisteredTmuxSession>, compact: bool) -> (r: String)
    ensures
        is_listing(r@, text::all_views(registrations@), compact),
{
    let now = present_moment();
    let list = format_tmux_list_at(registrations, compact, now);
    assert(list@ == listing(text::all_views(registrations@), compact, now as int));
    list
}

// ---------------------------------------------------------------------------
// Laws
// ---------------------------------------------------------------------------

/// A column is at least as wide as every cell in it.
pub proof fn law_column_holds_its_cells(
    rows: Seq<Seq<Seq<char>>>,
    column: int,
    least: usize,
    i: int,
)
    requires
        0 <= i < rows.len(),
    ensures
        widest(rows, column, least) >= least,
        widest(rows, column, least) >= bytes_of(rows[i][column]),
    decreases rows.len(),
{
    let front = rows.drop_last();
    if i < front.len() {
        assert(front[i] == rows[i]);
        law_column_holds_its_cells(front, column, least, i);
    } else {
        lemma_widest_from_least(front, column, least);
    }
}

proof fn lemma_widest_from_least(rows: Seq<Seq<Seq<char>>>, column: int, least: usize)
    ensures
        widest(rows, column, least) >= least,
    decreases rows.len(),
{
    if rows.len() > 0 {
        lemma_widest_from_least(rows.drop_last(), column, least);
    }
}

} // verus!
