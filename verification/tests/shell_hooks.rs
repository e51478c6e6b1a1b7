use shellagotchi::shell::{bash, fish, hook_snippet, parse_shell, zsh, Shell};

#[test]
fn bash_snippet_preserves_exit_code_via_return() {
    let snippet = bash::hook_snippet();
    assert!(snippet.contains("local ec=$?"));
    assert!(snippet.contains("return $ec"));
}

#[test]
fn snippet_prepends_prompt_command_rather_than_clobbering() {
    let snippet = bash::hook_snippet();
    assert!(snippet.contains("${PROMPT_COMMAND:+;$PROMPT_COMMAND}"));
}

#[test]
fn snippet_wires_postexec_and_prompt() {
    let snippet = fish::hook_snippet(false);
    assert!(snippet.contains("fish_postexec"));
    assert!(snippet.contains("shellagotchi feed"));
    assert!(snippet.contains("shellagotchi prompt"));
}

#[test]
fn bash_snippet_contains_prompt_command_wiring() {
    let snippet = bash::hook_snippet();
    assert!(snippet.contains("PROMPT_COMMAND"));
    assert!(snippet.contains("shellagotchi feed"));
    assert!(snippet.contains("shellagotchi prompt"));
}

#[test]
fn zsh_snippet_contains_precmd_wiring() {
    let snippet = zsh::hook_snippet();
    assert!(snippet.contains("add-zsh-hook"));
    assert!(snippet.contains("shellagotchi feed"));
    assert!(snippet.contains("shellagotchi prompt"));
}

#[test]
fn shell_fromstr_rejects_unknown_shell() {
    assert!("powershell".parse::<Shell>().is_err());
}

#[test]
fn shell_fromstr_accepts_known_shells() {
    assert_eq!("bash".parse::<Shell>(), Ok(Shell::Bash));
    assert_eq!("zsh".parse::<Shell>(), Ok(Shell::Zsh));
    assert_eq!("fish".parse::<Shell>(), Ok(Shell::Fish));
}

#[test]
fn zsh_snippet_preserves_exit_code_via_return() {
    let snippet = zsh::hook_snippet();
    assert!(snippet.contains("local ec=$?"));
    assert!(snippet.contains("return $ec"));
}

#[test]
fn snippet_registers_both_preexec_and_precmd_hooks() {
    let snippet = zsh::hook_snippet();
    assert!(snippet.contains("add-zsh-hook preexec __shellagotchi_preexec"));
    assert!(snippet.contains("add-zsh-hook precmd __shellagotchi_precmd"));
}

#[test]
fn parse_shell_error_names_the_shell() {
    assert_eq!(
        parse_shell("powershell"),
        Err("unsupported shell: powershell (expected bash, zsh, or fish)".to_string())
    );
    assert!(parse_shell("Bash").is_err());
}

#[test]
fn hook_snippet_dispatches_by_shell() {
    assert_eq!(hook_snippet(Shell::Bash), bash::hook_snippet());
    assert_eq!(hook_snippet(Shell::Zsh), zsh::hook_snippet());
    assert_eq!(hook_snippet(Shell::Fish), fish::hook_snippet(true));
}

#[test]
fn bash_snippet_exact_text() {
    let expected = r#"# shellagotchi
__shellagotchi_preexec() { __SHELLAGOTCHI_CMD="$BASH_COMMAND"; }
__shellagotchi_report() {
  local ec=$?
  local argv0="${__SHELLAGOTCHI_CMD%% *}"
  SHELLAGOTCHI_ARGV0="$argv0" shellagotchi feed --exit "$ec" >/dev/null 2>&1
  return $ec
}
trap '__shellagotchi_preexec' DEBUG
PROMPT_COMMAND="__shellagotchi_report${PROMPT_COMMAND:+;$PROMPT_COMMAND}"
PS1="\$(shellagotchi prompt) $PS1"
"#;
    assert_eq!(bash::hook_snippet(), expected);
}
