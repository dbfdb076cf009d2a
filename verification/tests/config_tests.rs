use isbuild::config::{default_config, document_text, load_or_create, locate, validate, BuildError, Config};

fn sample_config() -> Config {
    Config {
        is_home: String::from("C:\\IS"),
        project: String::from("demo.ism"),
        winrar: String::from("C:\\WinRAR\\WinRAR.exe"),
        out: String::from("out.exe"),
    }
}

const DEFAULT_DOCUMENT: &str = "{\n  \"is_home\": \"C:\\\\Program Files (x86)\\\\InstallShield\\\\2018\",\n  \"project\": \"Your Project Name.ism\",\n  \"winrar\": \"C:\\\\Program Files (x86)\\\\WinRAR\\\\WinRAR.exe\",\n  \"out\": \"out.exe\"\n}";

#[test]
fn default_config_holds_placeholder_values() {
    let c = default_config();
    assert_eq!(c.is_home, "C:\\Program Files (x86)\\InstallShield\\2018");
    assert_eq!(c.project, "Your Project Name.ism");
    assert_eq!(c.winrar, "C:\\Program Files (x86)\\WinRAR\\WinRAR.exe");
    assert_eq!(c.out, "out.exe");
}

#[test]
fn locate_builds_document_path_beside_executable() {
    assert_eq!(locate("C:\\app", "mybuild"), "C:\\app\\mybuild.json");
}

#[test]
fn missing_document_signals_just_created_with_default_text() {
    match load_or_create(None) {
        Ok(_) => panic!("a missing document must never yield a usable configuration"),
        Err(BuildError::ConfigMissing { document }) => {
            assert_eq!(document, DEFAULT_DOCUMENT);
        }
        Err(_) => panic!("a missing document must signal the just-created condition"),
    }
}

#[test]
fn default_document_is_valid_json_with_exactly_four_fields() {
    let v: serde_json::Value = serde_json::from_str(DEFAULT_DOCUMENT).unwrap();
    let obj = v.as_object().unwrap();
    assert_eq!(obj.len(), 4);
    assert_eq!(
        obj.get("is_home").unwrap().as_str().unwrap(),
        "C:\\Program Files (x86)\\InstallShield\\2018"
    );
    assert_eq!(obj.get("project").unwrap().as_str().unwrap(), "Your Project Name.ism");
    assert_eq!(
        obj.get("winrar").unwrap().as_str().unwrap(),
        "C:\\Program Files (x86)\\WinRAR\\WinRAR.exe"
    );
    assert_eq!(obj.get("out").unwrap().as_str().unwrap(), "out.exe");
}

#[test]
fn document_text_escapes_backslashes_and_quotes() {
    let c = Config {
        is_home: String::from("C:\\a\"b"),
        project: String::from("p.ism"),
        winrar: String::from("C:\\w.exe"),
        out: String::from("o.exe"),
    };
    let text = document_text(&c);
    let v: serde_json::Value = serde_json::from_str(&text).unwrap();
    assert_eq!(v.get("is_home").unwrap().as_str().unwrap(), "C:\\a\"b");
    assert_eq!(v.get("winrar").unwrap().as_str().unwrap(), "C:\\w.exe");
}

#[test]
fn existing_document_is_returned_unchanged() {
    let r = load_or_create(Some(sample_config()));
    match r {
        Ok(c) => {
            assert_eq!(c.is_home, "C:\\IS");
            assert_eq!(c.project, "demo.ism");
            assert_eq!(c.winrar, "C:\\WinRAR\\WinRAR.exe");
            assert_eq!(c.out, "out.exe");
        }
        Err(_) => panic!("an existing document must be returned as the configuration"),
    }
}

#[test]
fn validate_accepts_when_both_paths_exist() {
    assert!(validate(&sample_config(), true, true).is_ok());
}

#[test]
fn validate_rejects_missing_toolchain_home() {
    match validate(&sample_config(), false, true) {
        Err(BuildError::MissingToolchainPath { path }) => assert_eq!(path, "C:\\IS"),
        _ => panic!("a missing toolchain home must fail with the toolchain condition"),
    }
}

#[test]
fn validate_rejects_missing_archiver() {
    match validate(&sample_config(), true, false) {
        Err(BuildError::MissingArchiverPath { path }) => {
            assert_eq!(path, "C:\\WinRAR\\WinRAR.exe")
        }
        _ => panic!("a missing archiver must fail with the archiver condition"),
    }
}

#[test]
fn validate_reports_toolchain_home_first() {
    match validate(&sample_config(), false, false) {
        Err(BuildError::MissingToolchainPath { path }) => assert_eq!(path, "C:\\IS"),
        _ => panic!("the toolchain home is checked before the archiver"),
    }
}

#[test]
fn messages_name_the_offending_path_and_the_document() {
    let e = BuildError::MissingToolchainPath { path: String::from("C:\\IS") };
    assert_eq!(e.message("mybuild"), "C:\\IS not exists, please edit mybuild.json");
    let e = BuildError::MissingArchiverPath { path: String::from("C:\\W.exe") };
    assert_eq!(e.message("mybuild"), "C:\\W.exe not exists, please edit mybuild.json");
    let e = BuildError::ConfigMissing { document: String::new() };
    assert_eq!(e.message("mybuild"), "mybuild.json created, please edit it and rerun");
    assert_eq!(
        BuildError::ConfigMalformed.message("mybuild"),
        "mybuild.json is malformed, please fix it"
    );
    assert_eq!(
        BuildError::ProcessSpawnError.message("mybuild"),
        "could not spawn the command shell"
    );
    assert_eq!(
        BuildError::OutputCaptureError.message("mybuild"),
        "Could not capture standard output."
    );
}
