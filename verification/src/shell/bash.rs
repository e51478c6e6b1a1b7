//! Bash shell integration hook.
//!
//! A `DEBUG` trap captures the command about to run (for its argv0) and
//! `PROMPT_COMMAND` reports its exit status after it finishes. The reporter
//! captures `$?` as its very first statement and `return`s it at the end, so
//! `$?` is unchanged for the rest of the `PROMPT_COMMAND` chain.
use vstd::prelude::*;

verus! {

/// The bash hook snippet.
pub open spec fn bash_snippet_text() -> Seq<char> {
    "# shellagotchi
__shellagotchi_preexec() { __SHELLAGOTCHI_CMD=\"$BASH_COMMAND\"; }
__shellagotchi_report() {
  local ec=$?
  local argv0=\"${__SHELLAGOTCHI_CMD%% *}\"
  SHELLAGOTCHI_ARGV0=\"$argv0\" shellagotchi feed --exit \"$ec\" >/dev/null 2>&1
  return $ec
}
trap '__shellagotchi_preexec' DEBUG
PROMPT_COMMAND=\"__shellagotchi_report${PROMPT_COMMAND:+;$PROMPT_COMMAND}\"
PS1=\"\\$(shellagotchi prompt) $PS1\"
"@
}

/// Returns the bash hook snippet, meant to be `eval`'d via
/// `eval "$(shellagotchi init bash)"` in `~/.bashrc`.
pub fn hook_snippet() -> (s: String)
    ensures
        s@ == bash_snippet_text(),
{
    String::from_str(
        "# shellagotchi
__shellagotchi_preexec() { __SHELLAGOTCHI_CMD=\"$BASH_COMMAND\"; }
__shellagotchi_report() {
  local ec=$?
  local argv0=\"${__SHELLAGOTCHI_CMD%% *}\"
  SHELLAGOTCHI_ARGV0=\"$argv0\" shellagotchi feed --exit \"$ec\" >/dev/null 2>&1
  return $ec
}
trap '__shellagotchi_preexec' DEBUG
PROMPT_COMMAND=\"__shellagotchi_report${PROMPT_COMMAND:+;$PROMPT_COMMAND}\"
PS1=\"\\$(shellagotchi prompt) $PS1\"
",
    )
}


/// Where the bash snippet names the tool: in its heading comment, in the
/// command that reports each exit status, and in the prompt.
pub proof fn lemma_bash_snippet_wiring()
    ensures
        bash_snippet_text().len() == 399,
        bash_snippet_text().subrange(2, 14) == "shellagotchi"@,
        bash_snippet_text().subrange(192, 209) == "shellagotchi feed"@,
        bash_snippet_text().subrange(372, 391) == "shellagotchi prompt"@,
{
    reveal_strlit("# shellagotchi
__shellagotchi_preexec() { __SHELLAGOTCHI_CMD=\"$BASH_COMMAND\"; }
__shellagotchi_report() {
  local ec=$?
  local argv0=\"${__SHELLAGOTCHI_CMD%% *}\"
  SHELLAGOTCHI_ARGV0=\"$argv0\" shellagotchi feed --exit \"$ec\" >/dev/null 2>&1
  return $ec
}
trap '__shellagotchi_preexec' DEBUG
PROMPT_COMMAND=\"__shellagotchi_report${PROMPT_COMMAND:+;$PROMPT_COMMAND}\"
PS1=\"\\$(shellagotchi prompt) $PS1\"
");
    reveal_strlit("shellagotchi");
    reveal_strlit("shellagotchi feed");
    reveal_strlit("shellagotchi prompt");
    assert(bash_snippet_text().subrange(2, 14) =~= "shellagotchi"@);
    assert(bash_snippet_text().subrange(192, 209) =~= "shellagotchi feed"@);
    assert(bash_snippet_text().subrange(372, 391) =~= "shellagotchi prompt"@);
}


/// The bash hook reads the exit status (`$?`) exactly once, in the
/// assignment that captures it, before anything else can change it; the feed
/// call reports that captured value, and the hook returns it again.
pub proof fn lemma_bash_status_capture()
    ensures
        bash_snippet_text().subrange(108, 119) == "local ec=$?"@,
        bash_snippet_text().subrange(192, 222) == "shellagotchi feed --exit \"$ec\""@,
        bash_snippet_text().subrange(241, 251) == "return $ec"@,
        forall|i: int|
            0 <= i && i + 2 <= bash_snippet_text().len() && #[trigger] bash_snippet_text()[i] == '$' && bash_snippet_text()[i + 1] == '?' ==> i == 117,
{
    reveal_strlit("# shellagotchi
__shellagotchi_preexec() { __SHELLAGOTCHI_CMD=\"$BASH_COMMAND\"; }
__shellagotchi_report() {
  local ec=$?
  local argv0=\"${__SHELLAGOTCHI_CMD%% *}\"
  SHELLAGOTCHI_ARGV0=\"$argv0\" shellagotchi feed --exit \"$ec\" >/dev/null 2>&1
  return $ec
}
trap '__shellagotchi_preexec' DEBUG
PROMPT_COMMAND=\"__shellagotchi_report${PROMPT_COMMAND:+;$PROMPT_COMMAND}\"
PS1=\"\\$(shellagotchi prompt) $PS1\"
");
    reveal_strlit("local ec=$?");
    reveal_strlit("shellagotchi feed --exit \"$ec\"");
    reveal_strlit("return $ec");
    let t = bash_snippet_text();
    assert(t.subrange(108, 119) =~= "local ec=$?"@);
    assert(t.subrange(192, 222) =~= "shellagotchi feed --exit \"$ec\""@);
    assert(t.subrange(241, 251) =~= "return $ec"@);
    assert forall|i: int| 0 <= i && i + 2 <= t.len() && #[trigger] t[i] == '$' && t[i + 1] == '?' implies i == 117 by {}
}

} // verus!
