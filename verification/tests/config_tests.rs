//! The loader-configuration registry: parsing, precedence, and lookup.

use glycin::config::Config;
use glycin::config::ImageDecoderConfig;
use glycin::error::Error;

fn registry(files: &[&str]) -> Config {
    let data: Vec<Vec<u8>> = files.iter().map(|f| f.as_bytes().to_vec()).collect();
    Config::load_from_data(&data)
}

#[test]
fn parse_single_loader() {
    let cfg = registry(&["[loader:image/png]\nExec=/usr/libexec/glycin/png-loader\n"]);
    let entry = cfg.get(&b"image/png".to_vec()).unwrap();
    assert_eq!(entry.exec_path, b"/usr/libexec/glycin/png-loader".to_vec());
    assert!(!entry.expose_base_dir);
}

#[test]
fn expose_base_dir_parsed() {
    let cfg = registry(&[
        "[loader:image/svg+xml]\nExec=/usr/bin/svg\nExposeBaseDir=true\n\
         [loader:image/png]\nExec=/usr/bin/png\nExposeBaseDir=false\n\
         [loader:image/bmp]\nExec=/usr/bin/bmp\nExposeBaseDir=yes\n",
    ]);
    assert!(cfg.get(&b"image/svg+xml".to_vec()).unwrap().expose_base_dir);
    assert!(!cfg.get(&b"image/png".to_vec()).unwrap().expose_base_dir);
    // anything but `true` or `1` means false
    assert!(!cfg.get(&b"image/bmp".to_vec()).unwrap().expose_base_dir);
}

#[test]
fn numeric_booleans() {
    let cfg = registry(&[
        "[loader:image/svg+xml]\nExec=/svg\nExposeBaseDir=1\n\
         [loader:image/png]\nExec=/png\nExposeBaseDir=0\n",
    ]);
    assert!(cfg.get(&b"image/svg+xml".to_vec()).unwrap().expose_base_dir);
    assert!(!cfg.get(&b"image/png".to_vec()).unwrap().expose_base_dir);
}

#[test]
fn whitespace_around_equals_ignored() {
    let cfg = registry(&[
        "[loader:image/png]\nExec = /png\nExposeBaseDir\t= true\n",
    ]);
    let entry = cfg.get(&b"image/png".to_vec()).unwrap();
    assert_eq!(entry.exec_path, b"/png".to_vec());
    assert!(entry.expose_base_dir);
}

#[test]
fn group_name_trimmed() {
    let cfg = registry(&["[ loader:image/png ]\nExec=/png\n"]);
    assert!(cfg.get(&b"image/png".to_vec()).is_ok());
}

#[test]
fn blank_key_is_malformed() {
    let cfg = registry(&["[loader:image/png]\n  =/png\nExec=/png\n"]);
    assert!(cfg.get(&b"image/png".to_vec()).is_err());
}

#[test]
fn later_file_wins() {
    let cfg = registry(&[
        "[loader:image/png]\nExec=/system/png\n",
        "[loader:image/png]\nExec=/user/png\nExposeBaseDir=true\n",
    ]);
    let entry = cfg.get(&b"image/png".to_vec()).unwrap();
    assert_eq!(entry.exec_path, b"/user/png".to_vec());
    assert!(entry.expose_base_dir);
}

#[test]
fn later_group_wins_within_file() {
    let cfg = registry(&[
        "[loader:image/png]\nExec=/first\n[loader:image/png]\nExec=/second\n",
    ]);
    assert_eq!(cfg.get(&b"image/png".to_vec()).unwrap().exec_path, b"/second".to_vec());
}

#[test]
fn repeated_key_overrides() {
    let cfg = registry(&["[loader:image/png]\nExec=/old\nExec=/new\n"]);
    assert_eq!(cfg.get(&b"image/png".to_vec()).unwrap().exec_path, b"/new".to_vec());
}

#[test]
fn malformed_file_skipped() {
    // the stray line makes the second file malformed as a whole
    let cfg = registry(&[
        "[loader:image/png]\nExec=/png\n",
        "[loader:image/jpeg]\nExec=/jpeg\nwhat is this\n",
    ]);
    assert!(cfg.get(&b"image/png".to_vec()).is_ok());
    assert!(cfg.get(&b"image/jpeg".to_vec()).is_err());
}

#[test]
fn key_value_before_any_group_is_malformed() {
    let cfg = registry(&["Exec=/orphan\n[loader:image/png]\nExec=/png\n"]);
    assert!(cfg.get(&b"image/png".to_vec()).is_err());
}

#[test]
fn comments_and_blank_lines_ignored() {
    let cfg = registry(&[
        "# loader declarations\n\n[loader:image/png]\n# the executable\nExec=/png\n\n",
    ]);
    assert!(cfg.get(&b"image/png".to_vec()).is_ok());
}

#[test]
fn unknown_keys_and_foreign_groups_ignored() {
    let cfg = registry(&[
        "[loader:image/png]\nExec=/png\nPriority=3\n[metadata]\nVersion=1\n",
    ]);
    assert!(cfg.get(&b"image/png".to_vec()).is_ok());
    assert!(cfg.get(&b"metadata".to_vec()).is_err());
}

#[test]
fn loader_group_without_exec_contributes_nothing() {
    let cfg = registry(&["[loader:image/png]\nExposeBaseDir=true\n"]);
    assert!(cfg.get(&b"image/png".to_vec()).is_err());
}

#[test]
fn empty_registry_unknown_format() {
    let cfg = Config::load_from_data(&Vec::new());
    for mime in [&b"image/png"[..], b"image/jpeg", b"image/tiff"] {
        match cfg.get(&mime.to_vec()) {
            Err(Error::UnknownImageFormat(m)) => assert_eq!(m, mime.to_vec()),
            other => panic!("unexpected: {other:?}"),
        }
    }
}

#[test]
fn known_media_types_lists_all() {
    let cfg = registry(&[
        "[loader:image/png]\nExec=/png\n[loader:image/jpeg]\nExec=/jpeg\n",
        "[loader:image/png]\nExec=/png2\n",
    ]);
    let mut types = cfg.known_media_types();
    types.sort();
    assert_eq!(types, vec![b"image/jpeg".to_vec(), b"image/png".to_vec()]);
}

#[test]
fn insert_replaces_entry() {
    let mut cfg = Config::new();
    cfg.insert(
        b"image/png".to_vec(),
        ImageDecoderConfig { exec_path: b"/a".to_vec(), expose_base_dir: false },
    );
    cfg.insert(
        b"image/png".to_vec(),
        ImageDecoderConfig { exec_path: b"/b".to_vec(), expose_base_dir: true },
    );
    let entry = cfg.get(&b"image/png".to_vec()).unwrap();
    assert_eq!(entry.exec_path, b"/b".to_vec());
    assert!(entry.expose_base_dir);
    assert_eq!(cfg.known_media_types().len(), 1);
}
