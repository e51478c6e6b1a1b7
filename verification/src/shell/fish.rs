//! Fish shell integration hook.
//!
//! Fish prompts are defined by overriding `fish_prompt` wholesale, so this
//! snippet replaces the user's existing `fish_prompt` rather than wrapping
//! it. Exit-status reporting uses fish's `fish_postexec` event, which
//! receives `$status` already captured.
use vstd::prelude::*;

verus! {

/// The fish hook snippet.
pub open spec fn fish_snippet_text() -> Seq<char> {
    "# shellagotchi
function __shellagotchi_postexec --on-event fish_postexec
    set -l ec $status
    set -l argv0 (string split ' ' -- $argv[1])[1]
    env SHELLAGOTCHI_ARGV0=\"$argv0\" shellagotchi feed --exit $ec >/dev/null 2>&1
end
function fish_prompt
    # NOTE: this naive override REPLACES the user's existing fish_prompt
    # entirely, which is destructive -- fish doesn't have as clean a
    # prepend mechanism as bash/zsh PS1 string concatenation. A more
    # sophisticated fish integration (wrapping the EXISTING fish_prompt
    # function rather than replacing it) is future work, out of scope
    # for this initial version.
    printf '%s ' (shellagotchi prompt)
end
"@
}

/// Returns the fish hook snippet, meant to be sourced via
/// `shellagotchi init fish | source` in `~/.config/fish/config.fish`.
///
/// `_with_clean_alias` is accepted for signature parity with the bash/zsh
/// variants and ignored: fish users get the automatic argv0-detection
/// cleanup in `shellagotchi feed` without an explicit alias.
pub fn hook_snippet(_with_clean_alias: bool) -> (s: String)
    ensures
        s@ == fish_snippet_text(),
{
    String::from_str(
        "# shellagotchi
function __shellagotchi_postexec --on-event fish_postexec
    set -l ec $status
    set -l argv0 (string split ' ' -- $argv[1])[1]
    env SHELLAGOTCHI_ARGV0=\"$argv0\" shellagotchi feed --exit $ec >/dev/null 2>&1
end
function fish_prompt
    # NOTE: this naive override REPLACES the user's existing fish_prompt
    # entirely, which is destructive -- fish doesn't have as clean a
    # prepend mechanism as bash/zsh PS1 string concatenation. A more
    # sophisticated fish integration (wrapping the EXISTING fish_prompt
    # function rather than replacing it) is future work, out of scope
    # for this initial version.
    printf '%s ' (shellagotchi prompt)
end
",
    )
}


/// Where the fish snippet names the tool: in its heading comment, in the
/// command that reports each exit status, and in the prompt.
pub proof fn lemma_fish_snippet_wiring()
    ensures
        fish_snippet_text().len() == 680,
        fish_snippet_text().subrange(2, 14) == "shellagotchi"@,
        fish_snippet_text().subrange(182, 199) == "shellagotchi feed"@,
        fish_snippet_text().subrange(655, 674) == "shellagotchi prompt"@,
{
    reveal_strlit("# shellagotchi
function __shellagotchi_postexec --on-event fish_postexec
    set -l ec $status
    set -l argv0 (string split ' ' -- $argv[1])[1]
    env SHELLAGOTCHI_ARGV0=\"$argv0\" shellagotchi feed --exit $ec >/dev/null 2>&1
end
function fish_prompt
    # NOTE: this naive override REPLACES the user's existing fish_prompt
    # entirely, which is destructive -- fish doesn't have as clean a
    # prepend mechanism as bash/zsh PS1 string concatenation. A more
    # sophisticated fish integration (wrapping the EXISTING fish_prompt
    # function rather than replacing it) is future work, out of scope
    # for this initial version.
    printf '%s ' (shellagotchi prompt)
end
");
    reveal_strlit("shellagotchi");
    reveal_strlit("shellagotchi feed");
    reveal_strlit("shellagotchi prompt");
    assert(fish_snippet_text().subrange(2, 14) =~= "shellagotchi"@);
    assert(fish_snippet_text().subrange(182, 199) =~= "shellagotchi feed"@);
    assert(fish_snippet_text().subrange(655, 674) =~= "shellagotchi prompt"@);
}


/// The fish hook reads the exit status (`$status`) exactly once, in the
/// assignment that captures it, before anything else can change it; the feed
/// call reports that captured value.
pub proof fn lemma_fish_status_capture()
    ensures
        fish_snippet_text().subrange(77, 94) == "set -l ec $status"@,
        fish_snippet_text().subrange(182, 210) == "shellagotchi feed --exit $ec"@,
        forall|i: int|
            0 <= i && i + 7 <= fish_snippet_text().len() && #[trigger] fish_snippet_text()[i] == '$' && fish_snippet_text()[i + 1] == 's' && fish_snippet_text()[i + 2] == 't' && fish_snippet_text()[i + 3] == 'a' && fish_snippet_text()[i + 4] == 't' && fish_snippet_text()[i + 5] == 'u' && fish_snippet_text()[i + 6] == 's' ==> i == 87,
{
    reveal_strlit("# shellagotchi
function __shellagotchi_postexec --on-event fish_postexec
    set -l ec $status
    set -l argv0 (string split ' ' -- $argv[1])[1]
    env SHELLAGOTCHI_ARGV0=\"$argv0\" shellagotchi feed --exit $ec >/dev/null 2>&1
end
function fish_prompt
    # NOTE: this naive override REPLACES the user's existing fish_prompt
    # entirely, which is destructive -- fish doesn't have as clean a
    # prepend mechanism as bash/zsh PS1 string concatenation. A more
    # sophisticated fish integration (wrapping the EXISTING fish_prompt
    # function rather than replacing it) is future work, out of scope
    # for this initial version.
    printf '%s ' (shellagotchi prompt)
end
");
    reveal_strlit("set -l ec $status");
    reveal_strlit("shellagotchi feed --exit $ec");
    let t = fish_snippet_text();
    assert(t.subrange(77, 94) =~= "set -l ec $status"@);
    assert(t.subrange(182, 210) =~= "shellagotchi feed --exit $ec"@);
    assert forall|i: int| 0 <= i && i + 7 <= t.len() && #[trigger] t[i] == '$' && t[i + 1] == 's' && t[i + 2] == 't' && t[i + 3] == 'a' && t[i + 4] == 't' && t[i + 5] == 'u' && t[i + 6] == 's' implies i == 87 by {}
}

} // verus!
