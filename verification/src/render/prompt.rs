//! Renders a pet's state into short, PS1-embeddable text.
//!
//! Pure: given a `PetState` it deterministically produces plain ASCII text.
//! The daemon writes [`render_all_formats`] to the prompt cache file after
//! every state mutation; the `prompt` CLI subcommand picks one line of it.
use vstd::prelude::*;

use crate::pet::mood::{derive_mood, mood_spec, Mood};
use crate::pet::state::{PetState, PetView, Species};
use crate::render::names::{mood_name, mood_name_spec};
use crate::text::{
    all_ascii, decimal, lemma_concat_plain, lemma_decimal_ascii_single_line, lemma_split_new_line,
    lemma_split_single, occurs_in, push_decimal, same_text, single_line, split_on_lf,
    split_on_newline, texts,
};

verus! {

pub open spec fn mood_glyph_spec(m: Mood) -> Seq<char> {
    match m {
        Mood::Ecstatic => "^o^"@,
        Mood::Happy => "^_^"@,
        Mood::Content => "-_-"@,
        Mood::Meh => ":_:"@,
        Mood::Sad => ";_;"@,
        Mood::Miserable => "T_T"@,
        Mood::Sick => "x_x"@,
        Mood::Dead => "+_+"@,
    }
}

fn mood_glyph(mood: Mood) -> (s: &'static str)
    ensures
        s@ == mood_glyph_spec(mood),
{
    match mood {
        Mood::Ecstatic => "^o^",
        Mood::Happy => "^_^",
        Mood::Content => "-_-",
        Mood::Meh => ":_:",
        Mood::Sad => ";_;",
        Mood::Miserable => "T_T",
        Mood::Sick => "x_x",
        Mood::Dead => "+_+",
    }
}

pub open spec fn species_glyph_spec(s: Species) -> Seq<char> {
    match s {
        Species::Blob => "o"@,
        Species::Cat => "=^.^="@,
        Species::Dragon => "~<>~"@,
        Species::Phantom => "~o~"@,
    }
}

fn species_glyph(species: Species) -> (s: &'static str)
    ensures
        s@ == species_glyph_spec(species),
{
    match species {
        Species::Blob => "o",
        Species::Cat => "=^.^=",
        Species::Dragon => "~<>~",
        Species::Phantom => "~o~",
    }
}

/// Species glyph, mood glyph and happiness percentage.
pub open spec fn compact_spec(s: PetView) -> Seq<char> {
    species_glyph_spec(s.species) + " "@ + mood_glyph_spec(mood_spec(s)) + " "@ + decimal(s.happiness)
        + "%"@
}

/// Just the mood glyph.
pub open spec fn minimal_spec(s: PetView) -> Seq<char> {
    mood_glyph_spec(mood_spec(s))
}

/// The species glyph, all core stats and the mood's name.
pub open spec fn verbose_spec(s: PetView) -> Seq<char> {
    species_glyph_spec(s.species) + " health:"@ + decimal(s.health) + " satiety:"@ + decimal(s.satiety)
        + " happy:"@ + decimal(s.happiness) + " energy:"@ + decimal(s.energy) + " hygiene:"@
        + decimal(s.hygiene) + " mood:"@ + mood_name_spec(mood_spec(s))
}

/// The three formats, newline-separated, in the order compact, minimal,
/// verbose.
pub open spec fn all_formats_spec(s: PetView) -> Seq<char> {
    compact_spec(s) + "\n"@ + minimal_spec(s) + "\n"@ + verbose_spec(s)
}

/// Short single-line summary: species glyph, mood glyph, happiness %.
/// Intended as the default `PS1` segment.
pub fn render_compact(state: &PetState) -> (out: String)
    ensures
        out@ == compact_spec(state@),
{
    let mood = derive_mood(state);
    let mut out = String::from_str(species_glyph(state.species));
    out.append(" ");
    out.append(mood_glyph(mood));
    out.append(" ");
    push_decimal(&mut out, state.happiness.get() as u128);
    out.append("%");
    out
}

/// The absolute minimum: just the mood glyph.
pub fn render_minimal(state: &PetState) -> (out: String)
    ensures
        out@ == minimal_spec(state@),
{
    String::from_str(mood_glyph(derive_mood(state)))
}

/// A fuller line with all core stats, for a right-side prompt or status line.
pub fn render_verbose(state: &PetState) -> (out: String)
    ensures
        out@ == verbose_spec(state@),
{
    let mood = derive_mood(state);
    let mut out = String::from_str(species_glyph(state.species));
    out.append(" health:");
    push_decimal(&mut out, state.health.get() as u128);
    out.append(" satiety:");
    push_decimal(&mut out, state.satiety.get() as u128);
    out.append(" happy:");
    push_decimal(&mut out, state.happiness.get() as u128);
    out.append(" energy:");
    push_decimal(&mut out, state.energy.get() as u128);
    out.append(" hygiene:");
    push_decimal(&mut out, state.hygiene.get() as u128);
    out.append(" mood:");
    out.append(mood_name(mood));
    out
}

/// Renders all three prompt formats for `state`, newline-separated, in a
/// fixed order: compact, minimal, verbose. This is the exact content of the
/// prompt cache file.
pub fn render_all_formats(state: &PetState) -> (out: String)
    ensures
        out@ == all_formats_spec(state@),
{
    let mut out = render_compact(state);
    out.append("\n");
    out.append(render_minimal(state).as_str());
    out.append("\n");
    out.append(render_verbose(state).as_str());
    out
}

/// Every mood glyph is plain ASCII on one line.
proof fn lemma_mood_glyph_plain(m: Mood)
    ensures
        all_ascii(mood_glyph_spec(m)),
        single_line(mood_glyph_spec(m)),
{
    reveal_strlit("^o^");
    reveal_strlit("^_^");
    reveal_strlit("-_-");
    reveal_strlit(":_:");
    reveal_strlit(";_;");
    reveal_strlit("T_T");
    reveal_strlit("x_x");
    reveal_strlit("+_+");
}

/// Every species glyph is plain ASCII on one line.
proof fn lemma_species_glyph_plain(sp: Species)
    ensures
        all_ascii(species_glyph_spec(sp)),
        single_line(species_glyph_spec(sp)),
{
    reveal_strlit("o");
    reveal_strlit("=^.^=");
    reveal_strlit("~<>~");
    reveal_strlit("~o~");
}

/// Every mood name is plain ASCII on one line.
proof fn lemma_mood_name_plain(m: Mood)
    ensures
        all_ascii(mood_name_spec(m)),
        single_line(mood_name_spec(m)),
{
    reveal_strlit("Ecstatic");
    reveal_strlit("Happy");
    reveal_strlit("Content");
    reveal_strlit("Meh");
    reveal_strlit("Sad");
    reveal_strlit("Miserable");
    reveal_strlit("Sick");
    reveal_strlit("Dead");
}

/// Every prompt format is plain ASCII on a single line, so the prompt cache
/// holds exactly three lines: compact, minimal and verbose, in that order.
#[verifier::spinoff_prover]
#[verifier::rlimit(40)]
pub proof fn law_prompt_formats_plain(s: PetView)
    ensures
        all_ascii(compact_spec(s)) && single_line(compact_spec(s)),
        all_ascii(minimal_spec(s)) && single_line(minimal_spec(s)),
        all_ascii(verbose_spec(s)) && single_line(verbose_spec(s)),
        all_formats_spec(s) == compact_spec(s) + "\n"@ + minimal_spec(s) + "\n"@ + verbose_spec(s),
{
    let m = mood_spec(s);
    lemma_mood_glyph_plain(m);
    lemma_species_glyph_plain(s.species);
    lemma_mood_name_plain(m);
    lemma_decimal_ascii_single_line(s.happiness);
    lemma_decimal_ascii_single_line(s.health);
    lemma_decimal_ascii_single_line(s.satiety);
    lemma_decimal_ascii_single_line(s.energy);
    lemma_decimal_ascii_single_line(s.hygiene);
    reveal_strlit(" ");
    reveal_strlit("%");
    reveal_strlit(" health:");
    reveal_strlit(" satiety:");
    reveal_strlit(" happy:");
    reveal_strlit(" energy:");
    reveal_strlit(" hygiene:");
    reveal_strlit(" mood:");
    let g = species_glyph_spec(s.species);
    let c1 = g + " "@;
    lemma_concat_plain(g, " "@);
    let c2 = c1 + mood_glyph_spec(m);
    lemma_concat_plain(c1, mood_glyph_spec(m));
    let c3 = c2 + " "@;
    lemma_concat_plain(c2, " "@);
    let c4 = c3 + decimal(s.happiness);
    lemma_concat_plain(c3, decimal(s.happiness));
    lemma_concat_plain(c4, "%"@);
    let v1 = g + " health:"@;
    lemma_concat_plain(g, " health:"@);
    let v2 = v1 + decimal(s.health);
    lemma_concat_plain(v1, decimal(s.health));
    let v3 = v2 + " satiety:"@;
    lemma_concat_plain(v2, " satiety:"@);
    let v4 = v3 + decimal(s.satiety);
    lemma_concat_plain(v3, decimal(s.satiety));
    let v5 = v4 + " happy:"@;
    lemma_concat_plain(v4, " happy:"@);
    let v6 = v5 + decimal(s.happiness);
    lemma_concat_plain(v5, decimal(s.happiness));
    let v7 = v6 + " energy:"@;
    lemma_concat_plain(v6, " energy:"@);
    let v8 = v7 + decimal(s.energy);
    lemma_concat_plain(v7, decimal(s.energy));
    let v9 = v8 + " hygiene:"@;
    lemma_concat_plain(v8, " hygiene:"@);
    let v10 = v9 + decimal(s.hygiene);
    lemma_concat_plain(v9, decimal(s.hygiene));
    let v11 = v10 + " mood:"@;
    lemma_concat_plain(v10, " mood:"@);
    lemma_concat_plain(v11, mood_name_spec(m));
}


// ---------------------------------------------------------------------------
// Reading the prompt cache
// ---------------------------------------------------------------------------

/// Seconds after which an un-refreshed prompt cache is considered stale,
/// unless the environment sets another threshold.
pub const STALE_THRESHOLD_SECS: u64 = 300;

/// The line of the prompt cache that holds `format`: `minimal` is the second
/// line, `verbose` the third, and any other name asks for the first,
/// `compact`.
pub open spec fn cache_line_index(format: Seq<char>) -> int {
    if format == "minimal"@ {
        1
    } else if format == "verbose"@ {
        2
    } else {
        0
    }
}

/// The prompt named `format` for a pet: `minimal`, `verbose`, and
/// `compact` for any other name.
pub open spec fn format_spec(s: PetView, format: Seq<char>) -> Seq<char> {
    if format == "minimal"@ {
        minimal_spec(s)
    } else if format == "verbose"@ {
        verbose_spec(s)
    } else {
        compact_spec(s)
    }
}

/// The line of `contents` (pieces between line feeds) that holds `format`,
/// if the cache has that many lines.
pub open spec fn cached_line(contents: Seq<char>, format: Seq<char>) -> Option<Seq<char>> {
    let pieces = split_on_newline(contents);
    let i = cache_line_index(format);
    if i < pieces.len() {
        Some(pieces[i])
    } else {
        None
    }
}

/// What the `prompt` subcommand prints from the prompt cache `contents`,
/// given the cache's age in whole seconds where it is known: `?` once the
/// cache is at least `stale_after_secs` old, otherwise the line for
/// `format`, and nothing when the cache has no such line.
pub fn prompt_from_cache(
    contents: &str,
    format: &str,
    age_secs: Option<u64>,
    stale_after_secs: u64,
) -> (out: Option<String>)
    ensures
        (age_secs matches Some(a) && a >= stale_after_secs) ==> (out matches Some(o) && o@
            == "?"@),
        !(age_secs matches Some(a) && a >= stale_after_secs) ==> match out {
            Some(o) => cached_line(contents@, format@) == Some(o@),
            None => cached_line(contents@, format@) is None,
        },
{
    let stale = match age_secs {
        Some(a) => a >= stale_after_secs,
        None => false,
    };
    if stale {
        return Some(String::from_str("?"));
    }
    let index: usize = if same_text(format, "minimal") {
        1
    } else if same_text(format, "verbose") {
        2
    } else {
        0
    };
    let pieces = split_on_lf(contents);
    proof {
        assert(texts(pieces@).len() == pieces@.len());
    }
    if index < pieces.len() {
        let line = pieces[index].clone();
        proof {
            assert(texts(pieces@)[index as int] == pieces@[index as int]@);
        }
        Some(line)
    } else {
        None
    }
}

/// Reading the prompt cache gives back what was written: for every format
/// name, the line that the `prompt` subcommand picks from the cache the
/// daemon wrote for a pet is that pet's prompt in that format.
pub proof fn law_cache_serves_each_format(s: PetView, format: Seq<char>)
    ensures
        cached_line(all_formats_spec(s), format) == Some(format_spec(s, format)),
{
    law_prompt_formats_plain(s);
    let c = compact_spec(s);
    let m = minimal_spec(s);
    let v = verbose_spec(s);
    lemma_split_single(c);
    lemma_split_new_line(c, m);
    lemma_split_new_line(c + "\n"@ + m, v);
    assert(split_on_newline(all_formats_spec(s)) == seq![c, m, v]);
}

/// `piece` occurs in any text made of something, `piece`, and something.
proof fn lemma_occurs_between(before: Seq<char>, piece: Seq<char>, after: Seq<char>)
    ensures
        occurs_in(piece, before + piece + after),
{
    let t = before + piece + after;
    assert(t.subrange(before.len() as int, before.len() + piece.len() as int) =~= piece);
}

/// The compact prompt is the species glyph, then the minimal prompt (the
/// mood glyph), then the pet's happiness as a percentage, separated by
/// spaces; and it depends on nothing else.
pub proof fn law_compact_shows_happiness(s: PetView, other: PetView)
    ensures
        compact_spec(s) == species_glyph_spec(s.species) + " "@ + minimal_spec(s) + " "@ + decimal(
            s.happiness,
        ) + "%"@,
        compact_spec(s).len() >= decimal(s.happiness).len() + 1,
        compact_spec(s).subrange(
            compact_spec(s).len() - decimal(s.happiness).len() - 1,
            compact_spec(s).len() as int,
        ) == decimal(s.happiness) + "%"@,
        other.species == s.species && mood_spec(other) == mood_spec(s) && other.happiness
            == s.happiness ==> compact_spec(other) == compact_spec(s),
{
    reveal_strlit("%");
    let tail = decimal(s.happiness) + "%"@;
    let head = species_glyph_spec(s.species) + " "@ + minimal_spec(s) + " "@;
    assert(compact_spec(s) =~= head + tail);
    assert((head + tail).subrange(head.len() as int, (head + tail).len() as int) =~= tail);
}

/// Where the pieces of a line made of a glyph and five labelled numbers
/// followed by a labelled name occur in it.
proof fn lemma_labelled_line(parts: Seq<Seq<char>>)
    requires
        parts.len() == 13,
    ensures
        ({
            let v = parts[0] + parts[1] + parts[2] + parts[3] + parts[4] + parts[5] + parts[6]
                + parts[7] + parts[8] + parts[9] + parts[10] + parts[11] + parts[12];
            &&& v.take(parts[0].len() as int) == parts[0]
            &&& occurs_in(parts[1] + parts[2] + parts[3], v)
            &&& occurs_in(parts[3] + parts[4] + parts[5], v)
            &&& occurs_in(parts[5] + parts[6] + parts[7], v)
            &&& occurs_in(parts[7] + parts[8] + parts[9], v)
            &&& occurs_in(parts[9] + parts[10] + parts[11], v)
            &&& v.len() >= parts[12].len()
            &&& v.subrange(v.len() - parts[12].len(), v.len() as int) == parts[12]
        }),
{
    let p = parts;
    let v = p[0] + p[1] + p[2] + p[3] + p[4] + p[5] + p[6] + p[7] + p[8] + p[9] + p[10] + p[11] + p[12];
    assert(v.take(p[0].len() as int) =~= p[0]);
    // Each labelled triple starts right after the parts before it.
    let pre = p[0];
    assert(v =~= pre + (p[1] + p[2] + p[3]) + (p[4] + p[5] + p[6] + p[7] + p[8] + p[9] + p[10] + p[11] + p[12]));
    lemma_occurs_between(pre, p[1] + p[2] + p[3], p[4] + p[5] + p[6] + p[7] + p[8] + p[9] + p[10] + p[11] + p[12]);
    let pre = p[0] + p[1] + p[2];
    assert(v =~= pre + (p[3] + p[4] + p[5]) + (p[6] + p[7] + p[8] + p[9] + p[10] + p[11] + p[12]));
    lemma_occurs_between(pre, p[3] + p[4] + p[5], p[6] + p[7] + p[8] + p[9] + p[10] + p[11] + p[12]);
    let pre = p[0] + p[1] + p[2] + p[3] + p[4];
    assert(v =~= pre + (p[5] + p[6] + p[7]) + (p[8] + p[9] + p[10] + p[11] + p[12]));
    lemma_occurs_between(pre, p[5] + p[6] + p[7], p[8] + p[9] + p[10] + p[11] + p[12]);
    let pre = p[0] + p[1] + p[2] + p[3] + p[4] + p[5] + p[6];
    assert(v =~= pre + (p[7] + p[8] + p[9]) + (p[10] + p[11] + p[12]));
    lemma_occurs_between(pre, p[7] + p[8] + p[9], p[10] + p[11] + p[12]);
    let pre = p[0] + p[1] + p[2] + p[3] + p[4] + p[5] + p[6] + p[7] + p[8];
    assert(v =~= pre + (p[9] + p[10] + p[11]) + p[12]);
    lemma_occurs_between(pre, p[9] + p[10] + p[11], p[12]);
    let head = p[0] + p[1] + p[2] + p[3] + p[4] + p[5] + p[6] + p[7] + p[8] + p[9] + p[10] + p[11];
    assert(v =~= head + p[12]);
    assert((head + p[12]).subrange(head.len() as int, (head + p[12]).len() as int) =~= p[12]);
}

/// The verbose prompt starts with the species glyph, as the compact one
/// does, labels each stat with its own value, in the order health,
/// satiety, happiness, energy and hygiene, and ends with the mood's name.
pub proof fn law_verbose_labels_each_stat(s: PetView)
    ensures
        verbose_spec(s).take(species_glyph_spec(s.species).len() as int) == species_glyph_spec(
            s.species,
        ),
        occurs_in(" health:"@ + decimal(s.health) + " satiety:"@, verbose_spec(s)),
        occurs_in(" satiety:"@ + decimal(s.satiety) + " happy:"@, verbose_spec(s)),
        occurs_in(" happy:"@ + decimal(s.happiness) + " energy:"@, verbose_spec(s)),
        occurs_in(" energy:"@ + decimal(s.energy) + " hygiene:"@, verbose_spec(s)),
        occurs_in(" hygiene:"@ + decimal(s.hygiene) + " mood:"@, verbose_spec(s)),
        verbose_spec(s).len() >= mood_name_spec(mood_spec(s)).len(),
        verbose_spec(s).subrange(
            verbose_spec(s).len() - mood_name_spec(mood_spec(s)).len(),
            verbose_spec(s).len() as int,
        ) == mood_name_spec(mood_spec(s)),
{
    let parts = seq![
        species_glyph_spec(s.species),
        " health:"@,
        decimal(s.health),
        " satiety:"@,
        decimal(s.satiety),
        " happy:"@,
        decimal(s.happiness),
        " energy:"@,
        decimal(s.energy),
        " hygiene:"@,
        decimal(s.hygiene),
        " mood:"@,
        mood_name_spec(mood_spec(s)),
    ];
    lemma_labelled_line(parts);
    assert(verbose_spec(s) == parts[0] + parts[1] + parts[2] + parts[3] + parts[4] + parts[5]
        + parts[6] + parts[7] + parts[8] + parts[9] + parts[10] + parts[11] + parts[12]);
}

} // verus!
