//! Zsh shell integration hook.
//!
//! Uses zsh's native `preexec`/`precmd` hook points via `add-zsh-hook`. The
//! `precmd` hook captures `$?` first and `return`s it, so later hooks and
//! `$?`-reading prompt expansions see the original value.
use vstd::prelude::*;

verus! {

/// The zsh hook snippet.
pub open spec fn zsh_snippet_text() -> Seq<char> {
    "# shellagotchi
__shellagotchi_preexec() { __SHELLAGOTCHI_CMD=\"$1\"; }
__shellagotchi_precmd() {
  local ec=$?
  local argv0=\"${__SHELLAGOTCHI_CMD%% *}\"
  SHELLAGOTCHI_ARGV0=\"$argv0\" shellagotchi feed --exit \"$ec\" >/dev/null 2>&1
  return $ec
}
autoload -Uz add-zsh-hook
add-zsh-hook preexec __shellagotchi_preexec
add-zsh-hook precmd __shellagotchi_precmd
PS1=\"\\$(shellagotchi prompt) $PS1\"
"@
}

/// Returns the zsh hook snippet, meant to be `eval`'d via
/// `eval "$(shellagotchi init zsh)"` in `~/.zshrc`.
pub fn hook_snippet() -> (s: String)
    ensures
        s@ == zsh_snippet_text(),
{
    String::from_str(
        "# shellagotchi
__shellagotchi_preexec() { __SHELLAGOTCHI_CMD=\"$1\"; }
__shellagotchi_precmd() {
  local ec=$?
  local argv0=\"${__SHELLAGOTCHI_CMD%% *}\"
  SHELLAGOTCHI_ARGV0=\"$argv0\" shellagotchi feed --exit \"$ec\" >/dev/null 2>&1
  return $ec
}
autoload -Uz add-zsh-hook
add-zsh-hook preexec __shellagotchi_preexec
add-zsh-hook precmd __shellagotchi_precmd
PS1=\"\\$(shellagotchi prompt) $PS1\"
",
    )
}


/// Where the zsh snippet names the tool: in its heading comment, in the
/// command that reports each exit status, and in the prompt.
pub proof fn lemma_zsh_snippet_wiring()
    ensures
        zsh_snippet_text().len() == 390,
        zsh_snippet_text().subrange(2, 14) == "shellagotchi"@,
        zsh_snippet_text().subrange(181, 198) == "shellagotchi feed"@,
        zsh_snippet_text().subrange(363, 382) == "shellagotchi prompt"@,
{
    reveal_strlit("# shellagotchi
__shellagotchi_preexec() { __SHELLAGOTCHI_CMD=\"$1\"; }
__shellagotchi_precmd() {
  local ec=$?
  local argv0=\"${__SHELLAGOTCHI_CMD%% *}\"
  SHELLAGOTCHI_ARGV0=\"$argv0\" shellagotchi feed --exit \"$ec\" >/dev/null 2>&1
  return $ec
}
autoload -Uz add-zsh-hook
add-zsh-hook preexec __shellagotchi_preexec
add-zsh-hook precmd __shellagotchi_precmd
PS1=\"\\$(shellagotchi prompt) $PS1\"
");
    reveal_strlit("shellagotchi");
    reveal_strlit("shellagotchi feed");
    reveal_strlit("shellagotchi prompt");
    assert(zsh_snippet_text().subrange(2, 14) =~= "shellagotchi"@);
    assert(zsh_snippet_text().subrange(181, 198) =~= "shellagotchi feed"@);
    assert(zsh_snippet_text().subrange(363, 382) =~= "shellagotchi prompt"@);
}


/// The zsh hook reads the exit status (`$?`) exactly once, in the
/// assignment that captures it, before anything else can change it; the feed
/// call reports that captured value, and the hook returns it again.
pub proof fn lemma_zsh_status_capture()
    ensures
        zsh_snippet_text().subrange(97, 108) == "local ec=$?"@,
        zsh_snippet_text().subrange(181, 211) == "shellagotchi feed --exit \"$ec\""@,
        zsh_snippet_text().subrange(230, 240) == "return $ec"@,
        forall|i: int|
            0 <= i && i + 2 <= zsh_snippet_text().len() && #[trigger] zsh_snippet_text()[i] == '$' && zsh_snippet_text()[i + 1] == '?' ==> i == 106,
{
    reveal_strlit("# shellagotchi
__shellagotchi_preexec() { __SHELLAGOTCHI_CMD=\"$1\"; }
__shellagotchi_precmd() {
  local ec=$?
  local argv0=\"${__SHELLAGOTCHI_CMD%% *}\"
  SHELLAGOTCHI_ARGV0=\"$argv0\" shellagotchi feed --exit \"$ec\" >/dev/null 2>&1
  return $ec
}
autoload -Uz add-zsh-hook
add-zsh-hook preexec __shellagotchi_preexec
add-zsh-hook precmd __shellagotchi_precmd
PS1=\"\\$(shellagotchi prompt) $PS1\"
");
    reveal_strlit("local ec=$?");
    reveal_strlit("shellagotchi feed --exit \"$ec\"");
    reveal_strlit("return $ec");
    let t = zsh_snippet_text();
    assert(t.subrange(97, 108) =~= "local ec=$?"@);
    assert(t.subrange(181, 211) =~= "shellagotchi feed --exit \"$ec\""@);
    assert(t.subrange(230, 240) =~= "return $ec"@);
    assert forall|i: int| 0 <= i && i + 2 <= t.len() && #[trigger] t[i] == '$' && t[i + 1] == '?' implies i == 106 by {}
}

} // verus!
