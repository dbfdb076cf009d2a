//! The persisted configuration document: default contents, validation, and
//! the load-or-create decision.

use vstd::prelude::*;
use vstd::string::StringExecFns;
use vstd::string::StrSliceExecFns;

verus! {

/// The configuration record persisted beside the running executable.
///
/// `is_home` is the installer-authoring toolchain's install directory,
/// `project` the file name of the installer project to build, `winrar` the
/// path of the archiving tool, and `out` the name of the produced artifact.
pub struct Config {
    pub is_home: String,
    pub project: String,
    pub winrar: String,
    pub out: String,
}

/// Everything that can abort a run, from configuration load to process launch.
pub enum BuildError {
    /// No configuration document existed; `document` is the default text that
    /// was materialized for the operator to edit.
    ConfigMissing { document: String },
    /// The document existed but could not be parsed.
    ConfigMalformed,
    /// `is_home` does not exist on disk.
    MissingToolchainPath { path: String },
    /// `winrar` does not exist on disk.
    MissingArchiverPath { path: String },
    /// The shell could not be launched.
    ProcessSpawnError,
    /// The child's standard output stream could not be attached.
    OutputCaptureError,
}

/// The console text for `e`, naming the offending path and the
/// configuration file to edit where the condition has one.
pub open spec fn message_of(e: BuildError, stem: Seq<char>) -> Seq<char> {
    match e {
        BuildError::ConfigMissing { document } => stem + ".json created, please edit it and rerun"@,
        BuildError::ConfigMalformed => stem + ".json is malformed, please fix it"@,
        BuildError::MissingToolchainPath { path } => path@ + " not exists, please edit "@ + stem
            + ".json"@,
        BuildError::MissingArchiverPath { path } => path@ + " not exists, please edit "@ + stem
            + ".json"@,
        BuildError::ProcessSpawnError => "could not spawn the command shell"@,
        BuildError::OutputCaptureError => "Could not capture standard output."@,
    }
}

impl BuildError {
    /// The console text for this error; `stem` is the configuration file's
    /// base name.
    pub fn message(&self, stem: &str) -> (m: String)
        ensures
            m@ == message_of(*self, stem@),
    {
        match self {
            BuildError::ConfigMissing { document: _ } => {
                let mut m = String::from_str(stem);
                m.append(".json created, please edit it and rerun");
                m
            },
            BuildError::ConfigMalformed => {
                let mut m = String::from_str(stem);
                m.append(".json is malformed, please fix it");
                m
            },
            BuildError::MissingToolchainPath { path } => {
                let mut m = path.clone();
                m.append(" not exists, please edit ");
                m.append(stem);
                m.append(".json");
                m
            },
            BuildError::MissingArchiverPath { path } => {
                let mut m = path.clone();
                m.append(" not exists, please edit ");
                m.append(stem);
                m.append(".json");
                m
            },
            BuildError::ProcessSpawnError => String::from_str("could not spawn the command shell"),
            BuildError::OutputCaptureError => String::from_str(
                "Could not capture standard output.",
            ),
        }
    }
}

/// Placeholder value of `is_home` in a freshly created document.
pub open spec fn default_is_home() -> Seq<char> {
    "C:\\Program Files (x86)\\InstallShield\\2018"@
}

/// Placeholder value of `project` in a freshly created document.
pub open spec fn default_project() -> Seq<char> {
    "Your Project Name.ism"@
}

/// Placeholder value of `winrar` in a freshly created document.
pub open spec fn default_winrar() -> Seq<char> {
    "C:\\Program Files (x86)\\WinRAR\\WinRAR.exe"@
}

/// Placeholder value of `out` in a freshly created document.
pub open spec fn default_out() -> Seq<char> {
    "out.exe"@
}

/// True when every field of `c` holds its documented placeholder value.
pub open spec fn is_default_config(c: Config) -> bool {
    &&& c.is_home@ == default_is_home()
    &&& c.project@ == default_project()
    &&& c.winrar@ == default_winrar()
    &&& c.out@ == default_out()
}

/// The configuration written on first run: placeholder paths that the
/// operator must edit before a build can proceed.
pub fn default_config() -> (c: Config)
    ensures
        is_default_config(c),
{
    Config {
        is_home: String::from_str("C:\\Program Files (x86)\\InstallShield\\2018"),
        project: String::from_str("Your Project Name.ism"),
        winrar: String::from_str("C:\\Program Files (x86)\\WinRAR\\WinRAR.exe"),
        out: String::from_str("out.exe"),
    }
}

/// The configuration document path: the document sits beside the running
/// executable, under the executable's base name with a `.json` extension.
pub fn locate(exe_dir: &str, exe_stem: &str) -> (p: String)
    ensures
        p@ == exe_dir@ + "\\"@ + exe_stem@ + ".json"@,
{
    let mut p = String::from_str(exe_dir);
    p.append("\\");
    p.append(exe_stem);
    p.append(".json");
    p
}

/// How one character is written inside a JSON string literal: backslash and
/// double quote take an escaping backslash, everything else stands as
/// itself.
pub open spec fn json_escape_char(c: char) -> Seq<char> {
    if c == '\\' {
        seq!['\\', '\\']
    } else if c == '"' {
        seq!['\\', '"']
    } else {
        seq![c]
    }
}

/// How a whole string is written inside a JSON string literal.
pub open spec fn json_escaped(s: Seq<char>) -> Seq<char>
    decreases s.len(),
{
    if s.len() == 0 {
        Seq::empty()
    } else {
        json_escaped(s.drop_last()) + json_escape_char(s.last())
    }
}

/// Appends `s` to `out` in JSON string-literal form.
fn append_json_escaped(out: &mut String, s: &str)
    ensures
        final(out)@ == old(out)@ + json_escaped(s@),
{
    let n = s.unicode_len();
    let mut i: usize = 0;
    proof {
        assert(s@.take(0) =~= Seq::<char>::empty());
        assert(out@ + Seq::<char>::empty() =~= out@);
    }
    while i < n
        invariant
            n == s@.len(),
            i <= n,
            out@ == old(out)@ + json_escaped(s@.take(i as int)),
        decreases n - i,
    {
        let c = s.get_char(i);
        if c == '\\' {
            out.append("\\\\");
            proof {
                reveal_strlit("\\\\");
                assert("\\\\"@ =~= json_escape_char('\\'));
            }
        } else if c == '"' {
            out.append("\\\"");
            proof {
                reveal_strlit("\\\"");
                assert("\\\""@ =~= json_escape_char('"'));
            }
        } else {
            let piece = s.substring_char(i, i + 1);
            out.append(piece);
            proof {
                assert(piece@ =~= json_escape_char(c));
            }
        }
        proof {
            assert(s@.take(i as int + 1).drop_last() =~= s@.take(i as int));
            assert(s@.take(i as int + 1).last() == s@[i as int]);
        }
        i = i + 1;
    }
    proof {
        assert(s@.take(n as int) =~= s@);
    }
}

/// The text of the configuration document holding the four given field
/// values: a pretty-printed JSON object with the fields in their fixed
/// order, two-space indentation, and no trailing newline.
pub open spec fn document_of(home: Seq<char>, project: Seq<char>, winrar: Seq<char>, out: Seq<
    char,
>) -> Seq<char> {
    "{\n  \"is_home\": \""@ + json_escaped(home) + "\",\n  \"project\": \""@ + json_escaped(project)
        + "\",\n  \"winrar\": \""@ + json_escaped(winrar) + "\",\n  \"out\": \""@ + json_escaped(
        out,
    ) + "\"\n}"@
}

/// Renders the configuration document for `c`.
pub fn document_text(c: &Config) -> (r: String)
    ensures
        r@ == document_of(c.is_home@, c.project@, c.winrar@, c.out@),
{
    let mut r = String::from_str("{\n  \"is_home\": \"");
    append_json_escaped(&mut r, c.is_home.as_str());
    r.append("\",\n  \"project\": \"");
    append_json_escaped(&mut r, c.project.as_str());
    r.append("\",\n  \"winrar\": \"");
    append_json_escaped(&mut r, c.winrar.as_str());
    r.append("\",\n  \"out\": \"");
    append_json_escaped(&mut r, c.out.as_str());
    r.append("\"\n}");
    r
}

/// The document text written on first run.
pub open spec fn default_document() -> Seq<char> {
    document_of(default_is_home(), default_project(), default_winrar(), default_out())
}

/// The load-or-create decision. The caller reads the document (a
/// filesystem step) and hands in the parsed configuration, or `None` when
/// no document existed. A present document is returned as the
/// configuration to build with; a missing one yields the just-created
/// condition carrying the default document text for the caller to persist,
/// never a usable configuration.
pub fn load_or_create(existing: Option<Config>) -> (r: Result<Config, BuildError>)
    ensures
        match existing {
            Some(c) => r matches Ok(rc) && rc == c,
            None => r matches Err(BuildError::ConfigMissing { document })
                && document@ == default_document(),
        },
{
    match existing {
        Some(c) => Ok(c),
        None => {
            let d = default_config();
            let text = document_text(&d);
            Err(BuildError::ConfigMissing { document: text })
        },
    }
}

/// Checks that the two external paths a build depends on exist. The caller
/// answers the two existence questions (they are filesystem facts); this
/// function turns them into the documented failure conditions: the toolchain
/// home is checked first, and each failure carries the offending path.
pub fn validate(c: &Config, home_exists: bool, archiver_exists: bool) -> (r: Result<
    (),
    BuildError,
>)
    ensures
        r is Ok <==> (home_exists && archiver_exists),
        !home_exists ==> (r matches Err(BuildError::MissingToolchainPath { path })
            && path@ == c.is_home@),
        home_exists && !archiver_exists ==> (r matches Err(
            BuildError::MissingArchiverPath { path },
        ) && path@ == c.winrar@),
{
    if !home_exists {
        Err(BuildError::MissingToolchainPath { path: c.is_home.clone() })
    } else if !archiver_exists {
        Err(BuildError::MissingArchiverPath { path: c.winrar.clone() })
    } else {
        Ok(())
    }
}

} // verus!
