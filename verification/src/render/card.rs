//! Renders a bordered ASCII status card for a pet.
//!
//! Pure: `now` (milliseconds since the Unix epoch) is passed in by the
//! caller, never read here.
use vstd::prelude::*;

use crate::pet::mood::{derive_mood, mood_spec};
use crate::pet::state::{PetState, PetView};
use crate::render::names::{
    activity_name, activity_name_spec, mood_name, mood_name_spec, species_name, species_name_spec,
};
use crate::render::sprites::{sprite_for, sprite_spec};
use crate::text::{
    decimal, lemma_decimal_ascii_single_line, lemma_pieces_single_line, lemma_repeat_single_line,
    lemma_single_line_concat, lemma_split_new_line, lemma_split_nonempty, lemma_split_single,
    push_decimal, push_line, push_repeated, repeat_char, single_line, split_on_newline, texts,
};

verus! {

// ---------------------------------------------------------------------------
// Lines of a text
// ---------------------------------------------------------------------------

/// A line that ended in a line feed loses a carriage return before it.
pub open spec fn strip_cr(line: Seq<char>) -> Seq<char> {
    if line.len() > 0 && line.last() == '\r' {
        line.drop_last()
    } else {
        line
    }
}

/// The lines of `s` as `str::lines` gives them: split at `\n` or `\r\n`, with
/// the final line ending optional.
pub open spec fn text_lines(s: Seq<char>) -> Seq<Seq<char>> {
    let parts = split_on_newline(s);
    let ended = parts.drop_last().map_values(|l: Seq<char>| strip_cr(l));
    if parts.last().len() == 0 {
        ended
    } else {
        ended.push(parts.last())
    }
}

/// Splits `text` into its lines, as `str::lines` does.
pub fn split_lines(text: &str) -> (lines: Vec<String>)
    ensures
        texts(lines@) == text_lines(text@),
{
    let n = text.unicode_len();
    let mut lines: Vec<String> = Vec::new();
    let mut current = String::new();
    let mut i: usize = 0;
    proof {
        assert(text@.take(0) =~= Seq::<char>::empty());
        assert(texts(lines@) =~= Seq::<Seq<char>>::empty());
    }
    while i < n
        invariant
            i <= n,
            n == text@.len(),
            split_on_newline(text@.take(i as int)).len() >= 1,
            texts(lines@) == split_on_newline(text@.take(i as int)).drop_last().map_values(
                |l: Seq<char>| strip_cr(l),
            ),
            current@ == split_on_newline(text@.take(i as int)).last(),
        decreases n - i,
    {
        let ghost before = text@.take(i as int);
        let c = text.get_char(i);
        proof {
            assert(text@.take(i + 1).drop_last() =~= before);
            assert(text@.take(i + 1).last() == c);
            lemma_split_nonempty(before);
        }
        if c == '\n' {
            let len = current.as_str().unicode_len();
            let line = if len > 0 && current.as_str().get_char(len - 1) == '\r' {
                String::from_str(current.as_str().substring_char(0, len - 1))
            } else {
                current
            };
            proof {
                let cur = split_on_newline(before).last();
                if cur.len() > 0 && cur.last() == '\r' {
                    assert(line@ =~= cur.drop_last());
                }
                assert(line@ == strip_cr(cur));
            }
            push_line(&mut lines, line);
            current = String::new();
            proof {
                let prev = split_on_newline(before);
                let next = split_on_newline(text@.take(i + 1));
                assert(next == prev.push(Seq::empty()));
                assert(next.drop_last() =~= prev);
                assert(prev.drop_last().push(prev.last()) =~= prev);
                assert(prev.map_values(|l: Seq<char>| strip_cr(l)) =~= prev.drop_last().map_values(
                    |l: Seq<char>| strip_cr(l),
                ).push(strip_cr(prev.last())));
            }
        } else {
            current.append(text.substring_char(i, i + 1));
            proof {
                let prev = split_on_newline(before);
                let next = split_on_newline(text@.take(i + 1));
                assert(text@.subrange(i as int, i + 1) =~= seq![c]);
                assert(next == prev.update(prev.len() - 1, prev.last().push(c)));
                assert(next.drop_last() =~= prev.drop_last());
                assert(current@ =~= next.last());
            }
        }
        i = i + 1;
    }
    proof {
        assert(text@.take(n as int) =~= text@);
        lemma_split_nonempty(text@);
    }
    if current.as_str().unicode_len() > 0 {
        push_line(&mut lines, current);
    }
    lines
}

// ---------------------------------------------------------------------------
// Bars and durations
// ---------------------------------------------------------------------------

/// The number of filled cells of a bar: `value / 10` rounded, at most 10.
pub open spec fn bar_filled(value: nat) -> nat {
    if (value + 5) / 10 > 10 {
        10
    } else {
        ((value + 5) / 10) as nat
    }
}

/// A 10-character bar plus percentage, e.g. `[########..] 82%`.
pub open spec fn bar_spec(value: nat) -> Seq<char> {
    "["@ + repeat_char('#', bar_filled(value)) + repeat_char('.', (10 - bar_filled(value)) as nat)
        + "] "@ + decimal(value) + "%"@
}

/// Renders a 10-character text bar plus percentage, e.g. `[########..] 82%`.
pub fn bar(value: u8) -> (out: String)
    ensures
        out@ == bar_spec(value as nat),
{
    let rounded: u8 = ((value as u16 + 5) / 10) as u8;
    let filled: u8 = if rounded > 10 {
        10
    } else {
        rounded
    };
    let empty: u8 = 10 - filled;
    proof {
        reveal_strlit("#");
        reveal_strlit(".");
    }
    let mut out = String::from_str("[");
    push_repeated(&mut out, "#", filled as usize);
    push_repeated(&mut out, ".", empty as usize);
    out.append("] ");
    push_decimal(&mut out, value as u128);
    out.append("%");
    out
}

/// Whole minutes in a duration of `millis`, counting negative durations as
/// zero.
pub open spec fn whole_minutes(millis: int) -> int {
    if millis <= 0 {
        0
    } else {
        millis / 60_000
    }
}

/// A short human duration like `2h 15m`: days appear from one day on, hours
/// from one hour on, and anything under a minute is `<1m`.
pub open spec fn duration_text(millis: int) -> Seq<char> {
    let total = whole_minutes(millis);
    let days = total / 1440;
    let hours = (total % 1440) / 60;
    let minutes = total % 60;
    if days > 0 {
        decimal(days as nat) + "d "@ + decimal(hours as nat) + "h "@ + decimal(minutes as nat) + "m"@
    } else if hours > 0 {
        decimal(hours as nat) + "h "@ + decimal(minutes as nat) + "m"@
    } else if minutes > 0 {
        decimal(minutes as nat) + "m"@
    } else {
        "<1m"@
    }
}

/// Formats a duration of `millis` milliseconds as a short human string like
/// `2h 15m` (callers append "old" themselves).
pub fn format_duration(millis: i128) -> (out: String)
    ensures
        out@ == duration_text(millis as int),
{
    let total: i128 = if millis <= 0 {
        0
    } else {
        millis / 60_000
    };
    let days = (total / 1440) as u128;
    let hours = ((total % 1440) / 60) as u128;
    let minutes = (total % 60) as u128;
    let mut out = String::new();
    if days > 0 {
        push_decimal(&mut out, days);
        out.append("d ");
        push_decimal(&mut out, hours);
        out.append("h ");
        push_decimal(&mut out, minutes);
        out.append("m");
    } else if hours > 0 {
        push_decimal(&mut out, hours);
        out.append("h ");
        push_decimal(&mut out, minutes);
        out.append("m");
    } else if minutes > 0 {
        push_decimal(&mut out, minutes);
        out.append("m");
    } else {
        out.append("<1m");
    }
    out
}

// ---------------------------------------------------------------------------
// The card
// ---------------------------------------------------------------------------

/// The card's lines, before framing.
pub open spec fn card_lines(s: PetView, now: int) -> Seq<Seq<char>> {
    let mood = mood_spec(s);
    let header = seq![
        s.name + " ("@ + species_name_spec(s.species) + ")"@,
        duration_text(now - s.born_at) + " old  |  "@ + activity_name_spec(s.activity)
            + "  |  mood: "@ + mood_name_spec(mood),
        Seq::empty(),
    ];
    let footer = seq![
        Seq::empty(),
        "satiety:   "@ + bar_spec(s.satiety),
        "happiness: "@ + bar_spec(s.happiness),
        "energy:    "@ + bar_spec(s.energy),
        "hygiene:   "@ + bar_spec(s.hygiene),
        "health:    "@ + bar_spec(s.health),
        "boredom:   "@ + bar_spec(s.boredom),
        "poops: "@ + decimal(s.poops.len()),
    ];
    header + text_lines(sprite_spec(s.species, s.activity, mood)) + footer
}

/// The widest of `lines`, in characters.
pub open spec fn max_width(lines: Seq<Seq<char>>) -> nat
    decreases lines.len(),
{
    if lines.len() == 0 {
        0
    } else {
        let w = max_width(lines.drop_last());
        if lines.last().len() > w {
            lines.last().len()
        } else {
            w
        }
    }
}

/// One framed row: the line padded with spaces to `width`.
pub open spec fn framed_row(line: Seq<char>, width: nat) -> Seq<char> {
    "| "@ + line + repeat_char(' ', (width - line.len()) as nat) + " |\n"@
}

/// The framed rows of `lines`, in order.
pub open spec fn framed_rows(lines: Seq<Seq<char>>, width: nat) -> Seq<char>
    decreases lines.len(),
{
    if lines.len() == 0 {
        Seq::empty()
    } else {
        framed_rows(lines.drop_last(), width) + framed_row(lines.last(), width)
    }
}

/// The card: the lines framed by a border as wide as the widest line.
pub open spec fn card_spec(s: PetView, now: int) -> Seq<char> {
    let lines = card_lines(s, now);
    let width = max_width(lines);
    let border = "+"@ + repeat_char('-', width + 2) + "+"@;
    border + "\n"@ + framed_rows(lines, width) + border
}

proof fn lemma_max_width(lines: Seq<Seq<char>>, i: int)
    requires
        0 <= i < lines.len(),
    ensures
        lines[i].len() <= max_width(lines),
    decreases lines.len(),
{
    if i < lines.len() - 1 {
        lemma_max_width(lines.drop_last(), i);
    }
}

fn widest(lines: &Vec<String>) -> (w: usize)
    ensures
        w == max_width(texts(lines@)),
{
    let ghost views = texts(lines@);
    let mut w: usize = 0;
    let mut i: usize = 0;
    while i < lines.len()
        invariant
            i <= lines.len(),
            views == texts(lines@),
            w == max_width(views.take(i as int)),
        decreases lines.len() - i,
    {
        let len = lines[i].as_str().unicode_len();
        proof {
            assert(views.take(i + 1).drop_last() =~= views.take(i as int));
        }
        if len > w {
            w = len;
        }
        i = i + 1;
    }
    proof {
        assert(views.take(lines.len() as int) =~= views);
    }
    w
}

/// Renders a bordered ASCII status card for `state` as of `now`.
///
/// `no_color` has no effect yet (the card is plain text); it fixes the API
/// shape for color output gated on it.
pub fn render_card(state: &PetState, now: i64, _no_color: bool) -> (out: String)
    ensures
        out@ == card_spec(state@, now as int),
{
    let mood = derive_mood(state);
    let sprite = sprite_for(state.species, state.activity, mood);
    let age = format_duration(now as i128 - state.born_at as i128);

    let mut lines: Vec<String> = Vec::new();
    let mut first = state.name.clone();
    first.append(" (");
    first.append(species_name(state.species));
    first.append(")");
    push_line(&mut lines, first);
    let mut second = age;
    second.append(" old  |  ");
    second.append(activity_name(state.activity));
    second.append("  |  mood: ");
    second.append(mood_name(mood));
    push_line(&mut lines, second);
    push_line(&mut lines, String::new());
    let ghost header = texts(lines@);
    let sprite_lines = split_lines(sprite);
    let ghost sv = texts(sprite_lines@);
    let mut k: usize = 0;
    proof {
        assert(header + sv.take(0) =~= header);
    }
    while k < sprite_lines.len()
        invariant
            k <= sprite_lines.len(),
            sv == texts(sprite_lines@),
            texts(lines@) == header + sv.take(k as int),
        decreases sprite_lines.len() - k,
    {
        push_line(&mut lines, sprite_lines[k].clone());
        proof {
            assert(header + sv.take(k + 1) =~= (header + sv.take(k as int)).push(sv[k as int]));
        }
        k = k + 1;
    }
    proof {
        assert(sv.take(sprite_lines.len() as int) =~= sv);
    }
    push_line(&mut lines, String::new());
    let mut row = String::from_str("satiety:   ");
    row.append(bar(state.satiety.get()).as_str());
    push_line(&mut lines, row);
    let mut row = String::from_str("happiness: ");
    row.append(bar(state.happiness.get()).as_str());
    push_line(&mut lines, row);
    let mut row = String::from_str("energy:    ");
    row.append(bar(state.energy.get()).as_str());
    push_line(&mut lines, row);
    let mut row = String::from_str("hygiene:   ");
    row.append(bar(state.hygiene.get()).as_str());
    push_line(&mut lines, row);
    let mut row = String::from_str("health:    ");
    row.append(bar(state.health.get()).as_str());
    push_line(&mut lines, row);
    let mut row = String::from_str("boredom:   ");
    row.append(bar(state.boredom.get()).as_str());
    push_line(&mut lines, row);
    let mut row = String::from_str("poops: ");
    push_decimal(&mut row, state.poops.len() as u128);
    push_line(&mut lines, row);
    let ghost all = texts(lines@);
    proof {
        assert(all =~= card_lines(state@, now as int));
    }

    let width = widest(&lines);
    proof {
        reveal_strlit("-");
        reveal_strlit("--");
        reveal_strlit("+");
    }
    let mut border = String::from_str("+");
    push_repeated(&mut border, "-", width);
    border.append("--");
    border.append("+");
    assert(border@ =~= "+"@ + repeat_char('-', (width + 2) as nat) + "+"@);

    let mut out = border.clone();
    out.append("\n");
    let ghost head = out@;
    let mut i: usize = 0;
    proof {
        assert(all.take(0) =~= Seq::<Seq<char>>::empty());
        assert(head + framed_rows(all.take(0), width as nat) =~= head);
    }
    while i < lines.len()
        invariant
            i <= lines.len(),
            all == texts(lines@),
            width == max_width(all),
            out@ == head + framed_rows(all.take(i as int), width as nat),
        decreases lines.len() - i,
    {
        let len = lines[i].as_str().unicode_len();
        proof {
            reveal_strlit(" ");
            lemma_max_width(all, i as int);
            assert(all.take(i + 1).drop_last() =~= all.take(i as int));
            assert(all[i as int] == lines@[i as int]@);
        }
        out.append("| ");
        out.append(lines[i].as_str());
        push_repeated(&mut out, " ", width - len);
        out.append(" |\n");
        proof {
            assert(out@ =~= head + framed_rows(all.take(i + 1), width as nat));
        }
        i = i + 1;
    }
    proof {
        assert(all.take(lines.len() as int) =~= all);
    }
    out.append(border.as_str());
    out
}

// ---------------------------------------------------------------------------
// The card's shape
// ---------------------------------------------------------------------------

/// One framed row without its line feed.
pub open spec fn row_text(line: Seq<char>, width: nat) -> Seq<char> {
    "| "@ + line + repeat_char(' ', (width - line.len()) as nat) + " |"@
}

proof fn lemma_framed_row_split(line: Seq<char>, width: nat)
    ensures
        framed_row(line, width) == row_text(line, width) + "\n"@,
        single_line(line) ==> single_line(row_text(line, width)),
        line.len() <= width ==> row_text(line, width).len() == width + 4,
{
    reveal_strlit(" |\n");
    reveal_strlit(" |");
    reveal_strlit("\n");
    reveal_strlit("| ");
    broadcast use lemma_single_line_concat;
    lemma_repeat_single_line(' ', (width - line.len()) as nat);
    assert(" |\n"@ =~= " |"@ + "\n"@);
    let pad = repeat_char(' ', (width - line.len()) as nat);
    assert(framed_row(line, width) =~= row_text(line, width) + "\n"@);
    assert(single_line("| "@));
    assert(single_line(" |"@));
}

/// The pieces of a framed text: the top line, one row per line, and the
/// final line.
proof fn lemma_split_framed(top: Seq<char>, lines: Seq<Seq<char>>, width: nat, bottom: Seq<char>)
    requires
        single_line(top),
        single_line(bottom),
        forall|i: int| 0 <= i < lines.len() ==> single_line(#[trigger] lines[i]),
    ensures
        split_on_newline(top + "\n"@ + framed_rows(lines, width) + bottom) == seq![top]
            + lines.map_values(|l: Seq<char>| row_text(l, width)) + seq![bottom],
    decreases lines.len(),
{
    if lines.len() == 0 {
        assert(top + "\n"@ + framed_rows(lines, width) + bottom =~= top + "\n"@ + bottom);
        lemma_split_single(top);
        lemma_split_new_line(top, bottom);
        assert(seq![top].push(bottom) =~= seq![top] + lines.map_values(
            |l: Seq<char>| row_text(l, width),
        ) + seq![bottom]);
    } else {
        let init = lines.drop_last();
        let last = lines.last();
        lemma_framed_row_split(last, width);
        let row = row_text(last, width);
        lemma_split_framed(top, init, width, row);
        let x = top + "\n"@ + framed_rows(init, width) + row;
        assert(top + "\n"@ + framed_rows(lines, width) + bottom =~= x + "\n"@ + bottom);
        lemma_split_new_line(x, bottom);
        assert(init.map_values(|l: Seq<char>| row_text(l, width)).push(row) =~= lines.map_values(
            |l: Seq<char>| row_text(l, width),
        ));
        assert((seq![top] + init.map_values(|l: Seq<char>| row_text(l, width)) + seq![row]).push(
            bottom,
        ) =~= seq![top] + lines.map_values(|l: Seq<char>| row_text(l, width)) + seq![bottom]);
    }
}

proof fn lemma_names_single_line(s: PetView, now: int)
    ensures
        single_line(species_name_spec(s.species)),
        single_line(activity_name_spec(s.activity)),
        single_line(mood_name_spec(mood_spec(s))),
        single_line(duration_text(now - s.born_at)),
{
    broadcast use lemma_single_line_concat;
    reveal_strlit("Blob");
    reveal_strlit("Cat");
    reveal_strlit("Dragon");
    reveal_strlit("Ghost");
    reveal_strlit("Awake");
    reveal_strlit("Asleep");
    reveal_strlit("Sick");
    reveal_strlit("Dead");
    reveal_strlit("Ecstatic");
    reveal_strlit("Happy");
    reveal_strlit("Content");
    reveal_strlit("Meh");
    reveal_strlit("Sad");
    reveal_strlit("Miserable");
    reveal_strlit("d ");
    reveal_strlit("h ");
    reveal_strlit("m");
    reveal_strlit("<1m");
    let total = whole_minutes(now - s.born_at);
    lemma_decimal_ascii_single_line((total / 1440) as nat);
    lemma_decimal_ascii_single_line(((total % 1440) / 60) as nat);
    lemma_decimal_ascii_single_line((total % 60) as nat);
}

proof fn lemma_bar_single_line(value: nat)
    ensures
        single_line(bar_spec(value)),
{
    broadcast use lemma_single_line_concat;
    reveal_strlit("[");
    reveal_strlit("] ");
    reveal_strlit("%");
    lemma_repeat_single_line('#', bar_filled(value));
    lemma_repeat_single_line('.', (10 - bar_filled(value)) as nat);
    lemma_decimal_ascii_single_line(value);
}

/// Every line of a card is on one line of its own when the pet's name is.
proof fn lemma_card_lines_single_line(s: PetView, now: int)
    requires
        single_line(s.name),
    ensures
        forall|i: int|
            0 <= i < card_lines(s, now).len() ==> single_line(#[trigger] card_lines(s, now)[i]),
{
    broadcast use lemma_single_line_concat;
    lemma_names_single_line(s, now);
    lemma_bar_single_line(s.satiety);
    lemma_bar_single_line(s.happiness);
    lemma_bar_single_line(s.energy);
    lemma_bar_single_line(s.hygiene);
    lemma_bar_single_line(s.health);
    lemma_bar_single_line(s.boredom);
    lemma_decimal_ascii_single_line(s.poops.len());
    reveal_strlit(" (");
    reveal_strlit(")");
    reveal_strlit(" old  |  ");
    reveal_strlit("  |  mood: ");
    reveal_strlit("satiety:   ");
    reveal_strlit("happiness: ");
    reveal_strlit("energy:    ");
    reveal_strlit("hygiene:   ");
    reveal_strlit("health:    ");
    reveal_strlit("boredom:   ");
    reveal_strlit("poops: ");
    let mood = mood_spec(s);
    let sprite = sprite_spec(s.species, s.activity, mood);
    let parts = split_on_newline(sprite);
    lemma_pieces_single_line(sprite);
    lemma_split_nonempty(sprite);
    let sl = text_lines(sprite);
    assert forall|i: int| 0 <= i < sl.len() implies single_line(#[trigger] sl[i]) by {
        assert(single_line(parts[i]));
        if i < parts.len() - 1 {
            let p = parts[i];
            assert(sl[i] == strip_cr(p));
            if p.len() > 0 && p.last() == '\r' {
                assert forall|j: int| 0 <= j < p.drop_last().len() implies p.drop_last()[j]
                    != '\n' by {
                    assert(p.drop_last()[j] == p[j]);
                }
            }
        }
    }
    let header = seq![
        s.name + " ("@ + species_name_spec(s.species) + ")"@,
        duration_text(now - s.born_at) + " old  |  "@ + activity_name_spec(s.activity)
            + "  |  mood: "@ + mood_name_spec(mood),
        Seq::empty(),
    ];
    let footer = seq![
        Seq::empty(),
        "satiety:   "@ + bar_spec(s.satiety),
        "happiness: "@ + bar_spec(s.happiness),
        "energy:    "@ + bar_spec(s.energy),
        "hygiene:   "@ + bar_spec(s.hygiene),
        "health:    "@ + bar_spec(s.health),
        "boredom:   "@ + bar_spec(s.boredom),
        "poops: "@ + decimal(s.poops.len()),
    ];
    assert(single_line(Seq::<char>::empty()));
    assert forall|i: int| 0 <= i < header.len() implies single_line(#[trigger] header[i]) by {}
    assert forall|i: int| 0 <= i < footer.len() implies single_line(#[trigger] footer[i]) by {}
    let all = card_lines(s, now);
    assert(all == header + sl + footer);
    assert forall|i: int| 0 <= i < all.len() implies single_line(#[trigger] all[i]) by {
        if i < header.len() {
            assert(all[i] == header[i]);
        } else if i < header.len() + sl.len() {
            assert(all[i] == sl[i - header.len()]);
        } else {
            assert(all[i] == footer[i - header.len() - sl.len()]);
        }
    }
}

/// The card is a box: its first and last lines are borders, and in
/// between comes one row per card line, in order; every one of these lines
/// is exactly as wide as the widest card line plus four, provided the pet's
/// name holds no line feed.
pub proof fn law_card_is_a_box(s: PetView, now: int)
    requires
        single_line(s.name),
    ensures
        split_on_newline(card_spec(s, now)).len() == card_lines(s, now).len() + 2,
        forall|i: int|
            0 <= i < split_on_newline(card_spec(s, now)).len() ==> (#[trigger] split_on_newline(
                card_spec(s, now),
            )[i]).len() == max_width(card_lines(s, now)) + 4,
        forall|i: int|
            0 < i < split_on_newline(card_spec(s, now)).len() - 1 ==> #[trigger] split_on_newline(
                card_spec(s, now),
            )[i] == row_text(card_lines(s, now)[i - 1], max_width(card_lines(s, now))),
{
    let lines = card_lines(s, now);
    let width = max_width(lines);
    let border = "+"@ + repeat_char('-', width + 2) + "+"@;
    reveal_strlit("+");
    broadcast use lemma_single_line_concat;
    lemma_repeat_single_line('-', width + 2);
    lemma_card_lines_single_line(s, now);
    lemma_split_framed(border, lines, width, border);
    let rows = lines.map_values(|l: Seq<char>| row_text(l, width));
    let pieces = seq![border] + rows + seq![border];
    assert(split_on_newline(card_spec(s, now)) == pieces);
    assert forall|i: int| 0 <= i < pieces.len() implies (#[trigger] pieces[i]).len() == width + 4 by {
        if 0 < i < pieces.len() - 1 {
            assert(pieces[i] == rows[i - 1]);
            lemma_max_width(lines, i - 1);
            lemma_framed_row_split(lines[i - 1], width);
        }
    }
}

/// A stat bar is an opening bracket, ten cells of which the first
/// `round(value / 10)` are filled with `#` and the rest with `.`, a closing
/// bracket, and the value itself as a percentage.
pub proof fn law_bar_shows_its_value(value: nat)
    requires
        value <= 100,
    ensures
        bar_spec(value).len() == 14 + decimal(value).len(),
        bar_spec(value)[0] == '[',
        forall|i: int|
            1 <= i <= 10 ==> #[trigger] bar_spec(value)[i] == if i <= (value + 5) / 10 {
                '#'
            } else {
                '.'
            },
        bar_spec(value).subrange(11, bar_spec(value).len() as int) == "] "@ + decimal(value) + "%"@,
{
    reveal_strlit("[");
    reveal_strlit("] ");
    reveal_strlit("%");
    let filled = bar_filled(value);
    assert(filled == (value + 5) / 10);
    let b = bar_spec(value);
    let cells = repeat_char('#', filled) + repeat_char('.', (10 - filled) as nat);
    assert(b =~= "["@ + cells + ("] "@ + decimal(value) + "%"@));
    assert forall|i: int| 1 <= i <= 10 implies #[trigger] b[i] == if i <= (value + 5) / 10 {
        '#'
    } else {
        '.'
    } by {
        assert(b[i] == cells[i - 1]);
    }
    assert(b.subrange(11, b.len() as int) =~= "] "@ + decimal(value) + "%"@);
}

/// Each labelled row of the card shows that stat's own bar, the poop row
/// counts the pet's poops, and the first row names the pet and its species.
pub proof fn law_card_rows_show_their_stats(s: PetView, now: int)
    ensures
        card_lines(s, now)[0] == s.name + " ("@ + species_name_spec(s.species) + ")"@,
        card_lines(s, now).contains("satiety:   "@ + bar_spec(s.satiety)),
        card_lines(s, now).contains("happiness: "@ + bar_spec(s.happiness)),
        card_lines(s, now).contains("energy:    "@ + bar_spec(s.energy)),
        card_lines(s, now).contains("hygiene:   "@ + bar_spec(s.hygiene)),
        card_lines(s, now).contains("health:    "@ + bar_spec(s.health)),
        card_lines(s, now).contains("boredom:   "@ + bar_spec(s.boredom)),
        card_lines(s, now).contains("poops: "@ + decimal(s.poops.len())),
{
    let lines = card_lines(s, now);
    let n: int = 3 + text_lines(sprite_spec(s.species, s.activity, mood_spec(s))).len() as int;
    assert(lines[n + 1] == "satiety:   "@ + bar_spec(s.satiety));
    assert(lines[n + 2] == "happiness: "@ + bar_spec(s.happiness));
    assert(lines[n + 3] == "energy:    "@ + bar_spec(s.energy));
    assert(lines[n + 4] == "hygiene:   "@ + bar_spec(s.hygiene));
    assert(lines[n + 5] == "health:    "@ + bar_spec(s.health));
    assert(lines[n + 6] == "boredom:   "@ + bar_spec(s.boredom));
    assert(lines[n + 7] == "poops: "@ + decimal(s.poops.len()));
}

} // verus!
