use heic_convert::context_menu::{
    deletion_verdict, disable_keys, enable_writes, enabled_marker_key, shell_key, verb_key,
    DeleteOutcome,
};

#[test]
fn shell_key_of_extension() {
    assert_eq!(
        shell_key(".heic"),
        "Software\\Classes\\SystemFileAssociations\\.heic\\shell"
    );
    assert_eq!(
        verb_key(".heif", "HEICConvert.png"),
        "Software\\Classes\\SystemFileAssociations\\.heif\\shell\\HEICConvert.png"
    );
}

#[test]
fn enable_writes_every_verb() {
    let exe = "C:\\Program Files\\HEIC Convert\\heic-convert.exe";
    let w = enable_writes(exe);
    assert_eq!(w.len(), 16);
    let key = "Software\\Classes\\SystemFileAssociations\\.heic\\shell\\HEICConvert.jpeg";
    assert_eq!(w[0].key, key);
    assert_eq!(w[0].name, "");
    assert_eq!(w[0].data, "Convert to JPEG");
    assert_eq!(w[1].name, "Icon");
    assert_eq!(w[1].data, exe);
    assert_eq!(w[2].name, "MultiSelectModel");
    assert_eq!(w[2].data, "Player");
    assert_eq!(w[3].key, format!("{key}\\command"));
    assert_eq!(w[3].name, "");
    assert_eq!(w[3].data, format!("\"{exe}\" --quick jpeg \"%1\""));
    assert_eq!(w[4].data, "Convert to PNG");
    assert_eq!(w[7].data, format!("\"{exe}\" --quick png \"%1\""));
    assert_eq!(
        w[15].key,
        "Software\\Classes\\SystemFileAssociations\\.heif\\shell\\HEICConvert.png\\command"
    );
}

#[test]
fn disable_removes_what_enable_writes() {
    let keys = disable_keys();
    assert_eq!(keys.len(), 4);
    let w = enable_writes("x.exe");
    for (i, write) in w.iter().enumerate() {
        let k = &keys[i / 4];
        assert!(write.key == *k || write.key == format!("{k}\\command"));
    }
    assert_eq!(enabled_marker_key(), keys[0]);
    assert_eq!(w[0].key, enabled_marker_key());
}

#[test]
fn deleting_ignores_missing_keys() {
    assert_eq!(deletion_verdict(DeleteOutcome::Removed), Ok(()));
    assert_eq!(deletion_verdict(DeleteOutcome::NotFound), Ok(()));
    assert_eq!(
        deletion_verdict(DeleteOutcome::Failed("Access is denied.".to_string())),
        Err("Access is denied.".to_string())
    );
}
