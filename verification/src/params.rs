//! Deriving the toolchain invocation parameters from a validated
//! configuration and the running program's own directory.

use vstd::prelude::*;
use vstd::string::StringExecFns;
use crate::config::Config;

verus! {

/// The full set of toolchain invocation parameters, derived from the
/// configuration plus the program's own directory. Every path follows the
/// toolchain's fixed directory layout under the toolchain home.
pub struct Param {
    pub compiler: String,
    pub rulfiles: String,
    pub libraries: String,
    pub linkpaths: String,
    pub includeifx: String,
    pub includeisrt: String,
    pub includescript: String,
    pub definitions: String,
    pub switches: String,
    pub builder: String,
    pub installproject: String,
    pub disk1: String,
}

/// The script compiler executable under the toolchain home.
pub open spec fn compiler_path(home: Seq<char>) -> Seq<char> {
    home + "\\System\\Compile.exe"@
}

/// The project builder executable under the toolchain home.
pub open spec fn builder_path(home: Seq<char>) -> Seq<char> {
    home + "\\System\\ISCmdBld.exe"@
}

/// The rule file compiled by the script compiler, under the program's
/// directory.
pub open spec fn rulfiles_path(program_dir: Seq<char>) -> Seq<char> {
    program_dir + "\\Script Files\\Setup.rul"@
}

/// The two link-path switches pointing at the toolchain's object libraries.
pub open spec fn linkpaths_of(home: Seq<char>) -> Seq<char> {
    "-LibPath\""@ + home + "\\Script\\Ifx\\Lib\" -LibPath\""@ + home + "\\Script\\Isrt\\Lib\""@
}

/// True when every field of `p` is derived from `home` and `program_dir` by
/// the toolchain's directory layout convention.
pub open spec fn is_resolved(p: Param, home: Seq<char>, project: Seq<char>, program_dir: Seq<
    char,
>) -> bool {
    &&& p.compiler@ == compiler_path(home)
    &&& p.rulfiles@ == rulfiles_path(program_dir)
    &&& p.libraries@ == "\"isrt.obl\" \"ifx.obl\""@
    &&& p.linkpaths@ == linkpaths_of(home)
    &&& p.includeifx@ == home + "\\Script\\Ifx\\Include"@
    &&& p.includeisrt@ == home + "\\Script\\Isrt\\Include"@
    &&& p.includescript@ == program_dir + "\\Script Files"@
    &&& p.definitions@ == Seq::<char>::empty()
    &&& p.switches@ == "-w50 -e50 -v3 -g"@
    &&& p.builder@ == builder_path(home)
    &&& p.installproject@ == program_dir + "\\"@ + project
    &&& p.disk1@ == program_dir + "\\Media\\EIOSetup_SCH\\Disk Image\\Disk1"@
}

/// Concatenation of two string slices.
fn concat2(a: &str, b: &str) -> (r: String)
    ensures
        r@ == a@ + b@,
{
    let mut r = String::from_str(a);
    r.append(b);
    r
}

/// Concatenation of three string slices.
fn concat3(a: &str, b: &str, c: &str) -> (r: String)
    ensures
        r@ == a@ + b@ + c@,
{
    let mut r = String::from_str(a);
    r.append(b);
    r.append(c);
    r
}

/// Derives the invocation parameters. Pure: every field is plain string
/// concatenation of the configuration fields, `program_dir`, and the
/// toolchain's fixed relative subpaths; no path is re-checked for existence.
pub fn resolve(config: &Config, program_dir: &str) -> (p: Param)
    ensures
        is_resolved(p, config.is_home@, config.project@, program_dir@),
{
    let linkpaths = {
        let mut s = String::from_str("-LibPath\"");
        s.append(config.is_home.as_str());
        s.append("\\Script\\Ifx\\Lib\" -LibPath\"");
        s.append(config.is_home.as_str());
        s.append("\\Script\\Isrt\\Lib\"");
        s
    };
    let p = Param {
        compiler: concat2(config.is_home.as_str(), "\\System\\Compile.exe"),
        rulfiles: concat2(program_dir, "\\Script Files\\Setup.rul"),
        libraries: String::from_str("\"isrt.obl\" \"ifx.obl\""),
        linkpaths,
        includeifx: concat2(config.is_home.as_str(), "\\Script\\Ifx\\Include"),
        includeisrt: concat2(config.is_home.as_str(), "\\Script\\Isrt\\Include"),
        includescript: concat2(program_dir, "\\Script Files"),
        definitions: String::new(),
        switches: String::from_str("-w50 -e50 -v3 -g"),
        builder: concat2(config.is_home.as_str(), "\\System\\ISCmdBld.exe"),
        installproject: concat3(program_dir, "\\", config.project.as_str()),
        disk1: concat2(program_dir, "\\Media\\EIOSetup_SCH\\Disk Image\\Disk1"),
    };
    p
}

} // verus!
