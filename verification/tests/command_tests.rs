use isbuild::command::{build_command, compile_command};
use isbuild::config::Config;
use isbuild::params::{resolve, Param};
use isbuild::tokens::tokenize;

fn small_param() -> Param {
    Param {
        compiler: String::from("C:\\IS\\System\\Compile.exe"),
        rulfiles: String::from("C:\\app dir\\Script Files\\Setup.rul"),
        libraries: String::from("\"isrt.obl\" \"ifx.obl\""),
        linkpaths: String::from(
            "-LibPath\"C:\\IS\\Script\\Ifx\\Lib\" -LibPath\"C:\\IS\\Script\\Isrt\\Lib\"",
        ),
        includeifx: String::from("C:\\IS\\Script\\Ifx\\Include"),
        includeisrt: String::from("C:\\IS\\Script\\Isrt\\Include"),
        includescript: String::from("C:\\app dir\\Script Files"),
        definitions: String::new(),
        switches: String::from("-w50 -e50 -v3 -g"),
        builder: String::from("C:\\IS\\System\\ISCmdBld.exe"),
        installproject: String::from("C:\\app dir\\My Project.ism"),
        disk1: String::from("C:\\app dir\\Media\\EIOSetup_SCH\\Disk Image\\Disk1"),
    }
}

#[test]
fn resolver_roots_tools_under_the_toolchain_home() {
    let c = Config {
        is_home: String::from("/opt/IS"),
        project: String::from("demo.ism"),
        winrar: String::from("/usr/bin/rar"),
        out: String::from("out.exe"),
    };
    let p = resolve(&c, "/work/app");
    assert_eq!(p.compiler, "/opt/IS\\System\\Compile.exe");
    assert!(p.compiler.starts_with("/opt/IS"));
    assert!(p.compiler.ends_with("\\System\\Compile.exe"));
    assert_eq!(p.builder, "/opt/IS\\System\\ISCmdBld.exe");
    assert!(p.builder.starts_with("/opt/IS"));
    assert!(p.builder.ends_with("\\System\\ISCmdBld.exe"));
    assert_eq!(p.rulfiles, "/work/app\\Script Files\\Setup.rul");
    assert_eq!(p.libraries, "\"isrt.obl\" \"ifx.obl\"");
    assert_eq!(
        p.linkpaths,
        "-LibPath\"/opt/IS\\Script\\Ifx\\Lib\" -LibPath\"/opt/IS\\Script\\Isrt\\Lib\""
    );
    assert_eq!(p.includeifx, "/opt/IS\\Script\\Ifx\\Include");
    assert_eq!(p.includeisrt, "/opt/IS\\Script\\Isrt\\Include");
    assert_eq!(p.includescript, "/work/app\\Script Files");
    assert_eq!(p.definitions, "");
    assert_eq!(p.switches, "-w50 -e50 -v3 -g");
    assert_eq!(p.installproject, "/work/app\\demo.ism");
    assert_eq!(p.disk1, "/work/app\\Media\\EIOSetup_SCH\\Disk Image\\Disk1");
}

#[test]
fn compile_command_is_doubly_quoted() {
    let p = small_param();
    let cmd = compile_command(&p);
    let expected = format!(
        "\"\"{}\" \"{}\" {} {} -I\"{}\" -I\"{}\" -I\"{}\" {} {}\"",
        p.compiler,
        p.rulfiles,
        p.libraries,
        p.linkpaths,
        p.includeifx,
        p.includeisrt,
        p.includescript,
        p.definitions,
        p.switches,
    );
    assert_eq!(cmd, expected);
}

#[test]
fn build_command_is_doubly_quoted() {
    let p = small_param();
    let cmd = build_command(&p);
    assert_eq!(
        cmd,
        "\"\"C:\\IS\\System\\ISCmdBld.exe\" -p \"C:\\app dir\\My Project.ism\"\""
    );
}

#[test]
fn build_command_with_embedded_space_survives_tokenization() {
    let p = small_param();
    let cmd = build_command(&p);
    let tokens = tokenize(&cmd);
    let rejoined = tokens.join(" ");
    assert_eq!(rejoined, cmd);
    assert!(rejoined.contains("\"C:\\app dir\\My Project.ism\""));
}

#[test]
fn compile_command_token_stream_is_stable_under_rejoining() {
    let p = small_param();
    let cmd = compile_command(&p);
    let tokens = tokenize(&cmd);
    let rejoined = tokens.join(" ");
    // The empty definitions leave two blanks in a row, which one layer of
    // tokenization collapses; the token stream, and with it every quoted
    // path, is preserved.
    assert_ne!(rejoined, cmd);
    assert_eq!(tokenize(&rejoined), tokens);
    assert!(rejoined.contains("\"C:\\app dir\\Script Files\\Setup.rul\""));
    assert!(rejoined.contains("-I\"C:\\app dir\\Script Files\""));
}

#[test]
fn tokenize_splits_on_whitespace_runs() {
    assert_eq!(tokenize(""), Vec::<String>::new());
    assert_eq!(tokenize("   "), Vec::<String>::new());
    assert_eq!(tokenize("a b  c"), vec!["a", "b", "c"]);
    assert_eq!(tokenize("\ta\nb\rc d "), vec!["a", "b", "c", "d"]);
    assert_eq!(tokenize("one"), vec!["one"]);
}
