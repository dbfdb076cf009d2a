//! Rendering each toolchain step as a single shell command string.
//!
//! Every path may contain spaces, so each is wrapped in double quotes, and
//! the whole expression is wrapped in one more layer of quotes: the shell
//! that launches the tool strips that outer layer and still hands the tool
//! its arguments with embedded spaces intact.

use vstd::prelude::*;
use vstd::string::StringExecFns;
use crate::params::Param;
use crate::tokens::{is_wspace, single_spaced, tokens_of, join_tokens, lemma_single_spaced_roundtrip};

verus! {

/// The compile step: the script compiler applied to the rule file with the
/// library list, link paths, the three include directories, the (possibly
/// empty) preprocessor definitions and the fixed switch string, all under
/// one extra layer of quotes.
pub open spec fn compile_command_of(p: Param) -> Seq<char> {
    "\"\""@ + p.compiler@ + "\" \""@ + p.rulfiles@ + "\" "@ + p.libraries@ + " "@ + p.linkpaths@
        + " -I\""@ + p.includeifx@ + "\" -I\""@ + p.includeisrt@ + "\" -I\""@ + p.includescript@
        + "\" "@ + p.definitions@ + " "@ + p.switches@ + "\""@
}

/// The package step: the project builder applied with `-p` to the resolved
/// project path, under one extra layer of quotes.
pub open spec fn build_command_of(p: Param) -> Seq<char> {
    "\"\""@ + p.builder@ + "\" -p \""@ + p.installproject@ + "\"\""@
}

/// Renders the compile step.
pub fn compile_command(p: &Param) -> (cmd: String)
    ensures
        cmd@ == compile_command_of(*p),
{
    let mut s = String::from_str("\"\"");
    s.append(p.compiler.as_str());
    s.append("\" \"");
    s.append(p.rulfiles.as_str());
    s.append("\" ");
    s.append(p.libraries.as_str());
    s.append(" ");
    s.append(p.linkpaths.as_str());
    s.append(" -I\"");
    s.append(p.includeifx.as_str());
    s.append("\" -I\"");
    s.append(p.includeisrt.as_str());
    s.append("\" -I\"");
    s.append(p.includescript.as_str());
    s.append("\" ");
    s.append(p.definitions.as_str());
    s.append(" ");
    s.append(p.switches.as_str());
    s.append("\"");
    s
}

/// Renders the package step.
pub fn build_command(p: &Param) -> (cmd: String)
    ensures
        cmd@ == build_command_of(*p),
{
    let mut s = String::from_str("\"\"");
    s.append(p.builder.as_str());
    s.append("\" -p \"");
    s.append(p.installproject.as_str());
    s.append("\"\"");
    s
}

/// Joining two single-spaced pieces keeps the whole single-spaced: each
/// piece starts and ends with non-whitespace, so no blank gains a blank
/// neighbour at the seam.
pub proof fn lemma_single_spaced_concat(a: Seq<char>, b: Seq<char>)
    requires
        single_spaced(a),
        single_spaced(b),
    ensures
        single_spaced(a + b),
{
    let s = a + b;
    assert forall|i: int|
        0 <= i < s.len() && is_wspace(#[trigger] s[i]) implies s[i] == ' ' && 0 < i && i + 1
        < s.len() && !is_wspace(s[i - 1]) && !is_wspace(s[i + 1]) by {
        if i < a.len() {
            assert(s[i] == a[i]);
            assert(s[i - 1] == a[i - 1]);
            assert(s[i + 1] == a[i + 1]);
        } else {
            let j = i - a.len();
            assert(s[i] == b[j]);
            assert(s[i - 1] == b[j - 1]);
            assert(s[i + 1] == b[j + 1]);
        }
    }
}

/// The package command of a build whose builder path and project path are
/// single-spaced is itself single-spaced, so one layer of whitespace
/// tokenization reassembles it verbatim: a quoted path with embedded
/// single spaces (a "Script Files"-style name) reaches the shell intact,
/// as one quoted unit.
pub proof fn lemma_build_command_survives_tokenization(p: Param)
    requires
        single_spaced(p.builder@),
        single_spaced(p.installproject@),
    ensures
        single_spaced(build_command_of(p)),
        join_tokens(tokens_of(build_command_of(p))) == build_command_of(p),
{
    reveal_strlit("\"\"");
    reveal_strlit("\" -p \"");
    assert(single_spaced("\"\""@)) by {
        assert(forall|i: int| 0 <= i < "\"\""@.len() ==> !is_wspace(#[trigger] "\"\""@[i]));
    }
    assert(single_spaced("\" -p \""@)) by {
        let t = "\" -p \""@;
        assert forall|i: int|
            0 <= i < t.len() && is_wspace(#[trigger] t[i]) implies t[i] == ' ' && 0 < i && i + 1
            < t.len() && !is_wspace(t[i - 1]) && !is_wspace(t[i + 1]) by {
            assert(t.len() == 6);
            assert(t[0] == '"' && t[1] == ' ' && t[2] == '-' && t[3] == 'p' && t[4] == ' ' && t[5]
                == '"');
        }
    }
    lemma_single_spaced_concat("\"\""@, p.builder@);
    lemma_single_spaced_concat("\"\""@ + p.builder@, "\" -p \""@);
    lemma_single_spaced_concat("\"\""@ + p.builder@ + "\" -p \""@, p.installproject@);
    lemma_single_spaced_concat(
        "\"\""@ + p.builder@ + "\" -p \""@ + p.installproject@,
        "\"\""@,
    );
    lemma_single_spaced_roundtrip(build_command_of(p));
}

} // verus!
