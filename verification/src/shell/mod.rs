//! Shell integration: hook snippets for `shellagotchi init <shell>`.
//!
//! Each shell module's `hook_snippet()` returns the text to be `eval`'d
//! (bash/zsh) or `source`'d (fish) into the user's interactive shell. The
//! hooks preserve `$?`/`$status` for the user's own prompt and scripts.
pub mod bash;
pub mod fish;
pub mod zsh;

use vstd::prelude::*;

use crate::doctor::hook_marker;
use crate::shell::bash::{bash_snippet_text, lemma_bash_snippet_wiring, lemma_bash_status_capture};
use crate::shell::fish::{fish_snippet_text, lemma_fish_snippet_wiring, lemma_fish_status_capture};
use crate::shell::zsh::{lemma_zsh_snippet_wiring, lemma_zsh_status_capture, zsh_snippet_text};
use crate::text::{occurs_in, same_text};

verus! {

/// A supported shell for `shellagotchi init <shell>`.
#[derive(Clone, Copy, Debug, PartialEq, Eq, Structural)]
pub enum Shell {
    Bash,
    Zsh,
    Fish,
}

/// The hook snippet of each shell.
pub open spec fn snippet_text(shell: Shell) -> Seq<char> {
    match shell {
        Shell::Bash => bash_snippet_text(),
        Shell::Zsh => zsh_snippet_text(),
        Shell::Fish => fish_snippet_text(),
    }
}

/// Returns the hook snippet for `shell`.
pub fn hook_snippet(shell: Shell) -> (s: String)
    ensures
        s@ == snippet_text(shell),
{
    match shell {
        Shell::Bash => bash::hook_snippet(),
        Shell::Zsh => zsh::hook_snippet(),
        Shell::Fish => fish::hook_snippet(false),
    }
}

/// The shell a name denotes, or the error message for any other name.
pub open spec fn parse_shell_spec(name: Seq<char>) -> Result<Shell, Seq<char>> {
    if name == "bash"@ {
        Ok(Shell::Bash)
    } else if name == "zsh"@ {
        Ok(Shell::Zsh)
    } else if name == "fish"@ {
        Ok(Shell::Fish)
    } else {
        Err("unsupported shell: "@ + name + " (expected bash, zsh, or fish)"@)
    }
}

/// Parses a shell name: exactly `bash`, `zsh` or `fish`.
pub fn parse_shell(name: &str) -> (r: Result<Shell, String>)
    ensures
        match r {
            Ok(shell) => parse_shell_spec(name@) == Ok::<Shell, Seq<char>>(shell),
            Err(msg) => parse_shell_spec(name@) == Err::<Shell, Seq<char>>(msg@),
        },
{
    if same_text(name, "bash") {
        Ok(Shell::Bash)
    } else if same_text(name, "zsh") {
        Ok(Shell::Zsh)
    } else if same_text(name, "fish") {
        Ok(Shell::Fish)
    } else {
        let mut msg = String::from_str("unsupported shell: ");
        msg.append(name);
        msg.append(" (expected bash, zsh, or fish)");
        Err(msg)
    }
}

impl core::str::FromStr for Shell {
    type Err = String;

    fn from_str(s: &str) -> (r: Result<Shell, String>)
        ensures
            match r {
                Ok(shell) => parse_shell_spec(s@) == Ok::<Shell, Seq<char>>(shell),
                Err(msg) => parse_shell_spec(s@) == Err::<Shell, Seq<char>>(msg@),
            },
    {
        parse_shell(s)
    }
}

/// A text that occurs in a part of another occurs in the whole.
proof fn lemma_occurs_within(needle: Seq<char>, part: Seq<char>, whole: Seq<char>)
    requires
        occurs_in(needle, part),
        occurs_in(part, whole),
    ensures
        occurs_in(needle, whole),
{
    let i = choose|i: int|
        0 <= i && i + needle.len() <= part.len() && #[trigger] part.subrange(i, i + needle.len())
            == needle;
    let j = choose|j: int|
        0 <= j && j + part.len() <= whole.len() && #[trigger] whole.subrange(j, j + part.len())
            == part;
    assert(whole.subrange(j + i, j + i + needle.len()) =~= needle) by {
        assert forall|k: int| 0 <= k < needle.len() implies whole.subrange(
            j + i,
            j + i + needle.len(),
        )[k] == needle[k] by {
            assert(whole.subrange(j, j + part.len())[i + k] == part[i + k]);
            assert(part.subrange(i, i + needle.len())[k] == part[i + k]);
        }
    }
}

/// Every shell's hook reports each command's exit status through
/// `shellagotchi feed` and puts `shellagotchi prompt` into the prompt; and a
/// startup file that holds a hook snippet counts as having the hook
/// installed.
pub proof fn law_snippets_wire_feed_and_prompt(shell: Shell, startup_file: Seq<char>)
    ensures
        occurs_in("shellagotchi feed"@, snippet_text(shell)),
        occurs_in("shellagotchi prompt"@, snippet_text(shell)),
        occurs_in(hook_marker(), snippet_text(shell)),
        occurs_in(snippet_text(shell), startup_file) ==> occurs_in(hook_marker(), startup_file),
{
    let t = snippet_text(shell);
    reveal_strlit("shellagotchi");
    reveal_strlit("shellagotchi feed");
    reveal_strlit("shellagotchi prompt");
    let feed = "shellagotchi feed"@;
    let prompt = "shellagotchi prompt"@;
    match shell {
        Shell::Bash => {
            lemma_bash_snippet_wiring();
            assert(t.subrange(2, 2int + hook_marker().len()) == hook_marker());
            assert(t.subrange(192, 192int + feed.len()) == feed);
            assert(t.subrange(372, 372int + prompt.len()) == prompt);
        },
        Shell::Zsh => {
            lemma_zsh_snippet_wiring();
            assert(t.subrange(2, 2int + hook_marker().len()) == hook_marker());
            assert(t.subrange(181, 181int + feed.len()) == feed);
            assert(t.subrange(363, 363int + prompt.len()) == prompt);
        },
        Shell::Fish => {
            lemma_fish_snippet_wiring();
            assert(t.subrange(2, 2int + hook_marker().len()) == hook_marker());
            assert(t.subrange(182, 182int + feed.len()) == feed);
            assert(t.subrange(655, 655int + prompt.len()) == prompt);
        },
    }
    if occurs_in(t, startup_file) {
        lemma_occurs_within(hook_marker(), t, startup_file);
    }
}

/// The variable that holds the last command's exit status in `shell`.
pub open spec fn status_variable(shell: Shell) -> Seq<char> {
    match shell {
        Shell::Fish => "$status"@,
        _ => "$?"@,
    }
}

/// The statement that copies the exit status into `ec`.
pub open spec fn status_capture(shell: Shell) -> Seq<char> {
    match shell {
        Shell::Fish => "set -l ec $status"@,
        _ => "local ec=$?"@,
    }
}

/// The feed call that reports the copy held in `ec`.
pub open spec fn captured_status_feed(shell: Shell) -> Seq<char> {
    match shell {
        Shell::Fish => "shellagotchi feed --exit $ec"@,
        _ => "shellagotchi feed --exit \"$ec\""@,
    }
}

/// Whether `t` holds `piece` starting at `at`.
pub open spec fn holds_at(t: Seq<char>, piece: Seq<char>, at: int) -> bool {
    0 <= at && at + piece.len() <= t.len() && t.subrange(at, at + piece.len()) == piece
}

/// Every hook feeds the exit status of the user's command: it first copies
/// the status into `ec`, later calls `shellagotchi feed --exit` with `ec`,
/// and reads the status variable nowhere but in that copy, so no command
/// run by the hook itself can change what is fed.
pub proof fn law_hook_feeds_captured_status(shell: Shell)
    ensures
        exists|a: int, b: int|
            {
                &&& a < b
                &&& holds_at(snippet_text(shell), status_capture(shell), a)
                &&& holds_at(snippet_text(shell), captured_status_feed(shell), b)
                &&& forall|i: int|
                    #[trigger] holds_at(snippet_text(shell), status_variable(shell), i) ==> a <= i
                        && i + status_variable(shell).len() <= a + status_capture(shell).len()
            },
{
    let t = snippet_text(shell);
    let v = status_variable(shell);
    reveal_strlit("$?");
    reveal_strlit("$status");
    reveal_strlit("local ec=$?");
    reveal_strlit("set -l ec $status");
    reveal_strlit("shellagotchi feed --exit \"$ec\"");
    reveal_strlit("shellagotchi feed --exit $ec");
    match shell {
        Shell::Bash => {
            lemma_bash_snippet_wiring();
            lemma_bash_status_capture();
            assert forall|i: int| #[trigger] holds_at(t, v, i) implies 108 <= i && i + v.len() <= 108
                + status_capture(shell).len() by {
                assert(t.subrange(i, i + 2)[0] == t[i]);
                assert(t.subrange(i, i + 2)[1] == t[i + 1]);
            }
            assert(holds_at(t, status_capture(shell), 108));
            assert(holds_at(t, captured_status_feed(shell), 192));
        },
        Shell::Zsh => {
            lemma_zsh_snippet_wiring();
            lemma_zsh_status_capture();
            assert forall|i: int| #[trigger] holds_at(t, v, i) implies 97 <= i && i + v.len() <= 97
                + status_capture(shell).len() by {
                assert(t.subrange(i, i + 2)[0] == t[i]);
                assert(t.subrange(i, i + 2)[1] == t[i + 1]);
            }
            assert(holds_at(t, status_capture(shell), 97));
            assert(holds_at(t, captured_status_feed(shell), 181));
        },
        Shell::Fish => {
            lemma_fish_snippet_wiring();
            lemma_fish_status_capture();
            assert forall|i: int| #[trigger] holds_at(t, v, i) implies 77 <= i && i + v.len() <= 77
                + status_capture(shell).len() by {
                let w = t.subrange(i, i + 7);
                assert(w[0] == t[i]);
                assert(w[1] == t[i + 1]);
                assert(w[2] == t[i + 2]);
                assert(w[3] == t[i + 3]);
                assert(w[4] == t[i + 4]);
                assert(w[5] == t[i + 5]);
                assert(w[6] == t[i + 6]);
            }
            assert(holds_at(t, status_capture(shell), 77));
            assert(holds_at(t, captured_status_feed(shell), 182));
        },
    }
}

} // verus!
