//! What the tokens of a text stand for.
use vstd::prelude::*;
use vstd::string::*;

use crate::compose;
use crate::cron_laws;
use crate::dynamic;
use crate::dynamic::PieceView;
use crate::scan;
use crate::scan_laws;
use crate::table;
use crate::text;

verus! {

/// A text with a token in it is what stands before the token, what the token stands for, and
/// the pieces of the rest.
pub proof fn law_token_of_a_text(
    head: Seq<char>,
    token: Seq<char>,
    rest: Seq<char>,
    tokens: Seq<(Seq<char>, Seq<char>)>,
)
    requires
        !head.contains('{'),
        !token.contains('}'),
    ensures
        dynamic::pieces_of(head + seq!['{'] + token + seq!['}'] + rest, tokens) == (if head.len()
            > 0 {
            seq![PieceView::Text(head)]
        } else {
            Seq::empty()
        }) + seq![dynamic::braced_piece(token, tokens)] + dynamic::pieces_of(rest, tokens),
{
    let tail = token + seq!['}'] + rest;
    let s = head + seq!['{'] + tail;
    assert(head + seq!['{'] + token + seq!['}'] + rest =~= s);
    scan_laws::law_first_separator_parts(head, '{', tail);
    scan_laws::law_first_separator_parts(token, '}', rest);
}

/// A text whose last opening brace is not closed stands as it is.
pub proof fn law_open_brace_stands(
    head: Seq<char>,
    rest: Seq<char>,
    tokens: Seq<(Seq<char>, Seq<char>)>,
)
    requires
        !head.contains('{'),
        !rest.contains('}'),
    ensures
        dynamic::pieces_of(head + seq!['{'] + rest, tokens) == seq![
            PieceView::Text(head + seq!['{'] + rest),
        ],
{
    scan_laws::law_first_separator_parts(head, '{', rest);
    scan_laws::law_first_separator_parts(rest, '}', Seq::empty());
}

proof fn lemma_prefixes(token: Seq<char>, rest: Seq<char>)
    ensures
        token == "env:"@ + rest ==> token != "now"@ && token != "iso_time"@,
        token == "sh:"@ + rest ==> token != "now"@ && token != "iso_time"@ && !text::begins_with(
            token,
            "env:"@,
        ),
        token == "tmux_tail:"@ + rest ==> token != "now"@ && token != "iso_time"@
            && !text::begins_with(token, "env:"@) && !text::begins_with(token, "sh:"@),
        token == "file_tail:"@ + rest ==> token != "now"@ && token != "iso_time"@
            && !text::begins_with(token, "env:"@) && !text::begins_with(token, "sh:"@)
            && !text::begins_with(token, "tmux_tail:"@),
{
    reveal_strlit("env:");
    reveal_strlit("sh:");
    reveal_strlit("tmux_tail:");
    reveal_strlit("file_tail:");
    reveal_strlit("now");
    reveal_strlit("iso_time");
    assert("env:"@.len() == 4);
    assert("sh:"@.len() == 3);
    assert("sh:"@[0] == 's');
    assert("tmux_tail:"@.len() == 10);
    assert("tmux_tail:"@[0] == 't');
    assert("file_tail:"@.len() == 10);
    assert("file_tail:"@[0] == 'f');
    assert("now"@.len() == 3);
    assert("now"@[0] == 'n');
    assert("iso_time"@.len() == 8);
    assert("env:"@[0] == 'e' && "sh:"@[0] == 's' && "tmux_tail:"@[0] == 't' && "file_tail:"@[0]
        == 'f' && "now"@[0] == 'n' && "iso_time"@[0] == 'i');
    if text::begins_with(token, "env:"@) {
        assert(token.subrange(0, 4)[0] == 'e');
    }
    if text::begins_with(token, "sh:"@) {
        assert(token.subrange(0, 3)[0] == 's');
    }
    if text::begins_with(token, "tmux_tail:"@) {
        assert(token.subrange(0, 10)[0] == 't');
    }
    if token == "env:"@ + rest {
        assert(token[0] == 'e');
    }
    if token == "sh:"@ + rest {
        assert(token[0] == 's');
    }
    if token == "tmux_tail:"@ + rest {
        assert(token[0] == 't');
    }
    if token == "file_tail:"@ + rest {
        assert(token[0] == 'f');
    }
}

/// What the event says under the name of a token comes first. Of the other tokens two stand for
/// the present moment, and those with a prefix for a variable, for what a command prints, and
/// for the last lines of a terminal session or of a file; the rest stays as it is.
pub proof fn law_what_a_token_stands_for(
    token: Seq<char>,
    tokens: Seq<(Seq<char>, Seq<char>)>,
    rest: Seq<char>,
    lines: u64,
)
    ensures
        ({
            let piece = dynamic::braced_piece(token, tokens);
            let own = table::lookup(tokens, token);
            let tail = rest + ":"@ + compose::decimal(lines as nat);
            &&& own is Some ==> piece == PieceView::Text(own->0)
            &&& own is None && (token == "now"@ || token == "iso_time"@) ==> piece is Now
            &&& own is None && token == "env:"@ + rest ==> piece == PieceView::Env(rest)
            &&& own is None && token == "sh:"@ + rest ==> piece == PieceView::Shell(rest)
            &&& own is None && token == "tmux_tail:"@ + tail ==> piece == (PieceView::TmuxTail {
                session: rest,
                lines,
            })
            &&& own is None && token == "file_tail:"@ + tail ==> piece == (PieceView::FileTail {
                path: rest,
                lines,
            })
        }),
{
    let tail = rest + ":"@ + compose::decimal(lines as nat);
    lemma_prefixes(token, rest);
    lemma_prefixes(token, tail);
    lemma_named_lines(rest, lines);
    scan_laws::law_ends_of_a_text(token, "env:"@, rest);
    scan_laws::law_ends_of_a_text(token, "sh:"@, rest);
    scan_laws::law_ends_of_a_text(token, "tmux_tail:"@, tail);
    scan_laws::law_ends_of_a_text(token, "file_tail:"@, tail);
}

proof fn lemma_named_lines(name: Seq<char>, lines: u64)
    ensures
        dynamic::named_lines(name + ":"@ + compose::decimal(lines as nat)) == Some((name, lines)),
{
    let digits = compose::decimal(lines as nat);
    reveal_strlit(":");
    assert(":"@ =~= seq![':']);
    cron_laws::law_decimal_is_read_back(lines as nat);
    assert(scan::is_digit(digits[0]));
    lemma_digits_hold_no_colon(lines as nat);
    scan_laws::law_text_without_separator_is_one_part(digits, ':');
    scan_laws::law_separator_parts(name, ':', digits);
    scan_laws::law_parts_rejoin(name, ':');
    let parts = scan::split(name + ":"@ + digits, ':');
    assert(parts == scan::split(name, ':') + seq![digits]);
    assert(parts.last() == digits);
    assert(parts.drop_last() =~= scan::split(name, ':'));
}

proof fn lemma_digits_hold_no_colon(n: nat)
    ensures
        !compose::decimal(n).contains(':'),
    decreases n,
{
    if n >= 10 {
        lemma_digits_hold_no_colon(n / 10);
        let front = compose::decimal(n / 10);
        let all = compose::decimal(n);
        if all.contains(':') {
            let i = choose|i: int| 0 <= i < all.len() && all[i] == ':';
            if i < front.len() {
                assert(front[i] == ':');
            }
        }
    }
}

/// A token that stands for nothing stays in its braces.
pub proof fn law_unknown_token_stays(token: Seq<char>, tokens: Seq<(Seq<char>, Seq<char>)>)
    requires
        table::lookup(tokens, token) is None,
        token != "now"@,
        token != "iso_time"@,
        !text::begins_with(token, "env:"@),
        !text::begins_with(token, "sh:"@),
        !text::begins_with(token, "tmux_tail:"@),
        !text::begins_with(token, "file_tail:"@),
    ensures
        dynamic::braced_piece(token, tokens) == PieceView::Text("{"@ + token + "}"@),
{
}

} // verus!
