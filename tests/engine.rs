use rust_sound::{
    key_to_key_code, load_pack, manifest_path, ConfigError, DefineValue,
    Dispatcher, Manifest, ManifestEntry, PlatformKey, RetriggerPolicy, SoundPack,
};

fn entry(key: &str, value: DefineValue) -> ManifestEntry {
    ManifestEntry { key: key.to_string(), value }
}

fn path(p: &str) -> DefineValue {
    DefineValue::Path(p.to_string())
}

/// Stands in for the audio decoder: a file whose name starts with `missing`
/// cannot be loaded; any other yields its own path as the asset.
fn fake_load(p: &str) -> Result<String, String> {
    if p.rsplit('/').next().unwrap_or("").starts_with("missing") {
        Err(format!("no such file: {}", p))
    } else {
        Ok(p.to_string())
    }
}

fn load(manifest: &Manifest) -> Result<SoundPack<String>, ConfigError> {
    load_pack(manifest, "pack", fake_load)
}

#[test]
fn letters_map_to_scan_codes() {
    assert_eq!(key_to_key_code(PlatformKey::KeyA), "30");
    assert_eq!(key_to_key_code(PlatformKey::KeyQ), "16");
    assert_eq!(key_to_key_code(PlatformKey::KeyS), "31");
    assert_eq!(key_to_key_code(PlatformKey::KeyM), "50");
}

#[test]
fn digits_and_controls_map_to_scan_codes() {
    assert_eq!(key_to_key_code(PlatformKey::Escape), "1");
    assert_eq!(key_to_key_code(PlatformKey::Num1), "2");
    assert_eq!(key_to_key_code(PlatformKey::Num0), "11");
    assert_eq!(key_to_key_code(PlatformKey::Space), "57");
    assert_eq!(key_to_key_code(PlatformKey::Return), "28");
    assert_eq!(key_to_key_code(PlatformKey::F12), "88");
}

#[test]
fn extended_keys_map_to_extended_codes() {
    assert_eq!(key_to_key_code(PlatformKey::UpArrow), "57416");
    assert_eq!(key_to_key_code(PlatformKey::DownArrow), "57424");
    assert_eq!(key_to_key_code(PlatformKey::ControlRight), "3613");
    assert_eq!(key_to_key_code(PlatformKey::Delete), "3667");
}

#[test]
fn unrecognized_keys_fall_back_to_numeral_one() {
    let one = key_to_key_code(PlatformKey::Num1);
    assert_eq!(key_to_key_code(PlatformKey::Unknown(0)), one);
    assert_eq!(key_to_key_code(PlatformKey::Unknown(4242)), one);
    assert_eq!(key_to_key_code(PlatformKey::Function), one);
}

#[test]
fn manifest_lives_in_config_json() {
    assert_eq!(manifest_path("pack"), "pack/config.json");
    assert_eq!(manifest_path("packs/cherry/"), "packs/cherry/config.json");
}

#[test]
fn end_to_end_single_entry() {
    let manifest = Manifest {
        defines: vec![entry("30", path("a.wav")), entry("16", DefineValue::Null), entry("31", path(""))],
    };
    let pack = load(&manifest).unwrap();
    assert_eq!(pack.len(), 1);
    assert!(pack.contains("30"));
    assert!(!pack.contains("16"));
    assert!(!pack.contains("31"));
    assert_eq!(pack.get("30"), Some(&"pack/a.wav".to_string()));

    let mut d: Dispatcher<String, u32> = Dispatcher::new(pack, RetriggerPolicy::Overlap);
    let t = d.on_key_event(PlatformKey::KeyA).unwrap();
    assert_eq!(t.code, "30");
    assert!(t.stop.is_none());
    assert_eq!(d.sound(&t.code), Some(&"pack/a.wav".to_string()));
    assert!(d.on_key_event(PlatformKey::KeyQ).is_none());
    assert!(d.on_key_event(PlatformKey::KeyS).is_none());
}

#[test]
fn missing_asset_fails_the_whole_pack() {
    let manifest = Manifest {
        defines: vec![entry("30", path("a.wav")), entry("31", path("missing.wav"))],
    };
    match load(&manifest) {
        Err(ConfigError::AssetLoadError { path, cause }) => {
            assert_eq!(path, "pack/missing.wav");
            assert_eq!(cause, "no such file: pack/missing.wav");
        }
        _ => panic!("expected an asset load error"),
    }
}

#[test]
fn first_failure_in_manifest_order_is_reported() {
    let manifest = Manifest {
        defines: vec![
            entry("30", path("a.wav")),
            entry("31", path("missing-first.wav")),
            entry("32", path("missing-second.wav")),
        ],
    };
    match load(&manifest) {
        Err(ConfigError::AssetLoadError { path, .. }) => assert_eq!(path, "pack/missing-first.wav"),
        _ => panic!("expected an asset load error"),
    }
}

#[test]
fn empty_manifest_gives_empty_pack() {
    let manifest = Manifest { defines: vec![] };
    let pack = load(&manifest).unwrap();
    assert_eq!(pack.len(), 0);
}

#[test]
fn every_nonempty_path_is_loaded() {
    let manifest = Manifest {
        defines: vec![entry("30", path("a.wav")), entry("57", path("sub/space.ogg")), entry("1", path("esc.mp3"))],
    };
    let pack = load(&manifest).unwrap();
    assert_eq!(pack.len(), 3);
    assert_eq!(pack.get("57"), Some(&"pack/sub/space.ogg".to_string()));
    assert_eq!(pack.get("1"), Some(&"pack/esc.mp3".to_string()));
}

#[test]
fn null_empty_and_other_values_are_skipped() {
    let manifest = Manifest {
        defines: vec![
            entry("16", DefineValue::Null),
            entry("31", path("")),
            entry("32", DefineValue::Other),
            entry("30", path("a.wav")),
        ],
    };
    let pack = load(&manifest).unwrap();
    assert_eq!(pack.len(), 1);
    assert!(pack.get("16").is_none());
    assert!(pack.get("31").is_none());
    assert!(pack.get("32").is_none());
}

#[test]
fn first_entry_for_a_key_wins() {
    let manifest = Manifest {
        defines: vec![entry("30", path("a.wav")), entry("30", path("b.wav"))],
    };
    let pack = load(&manifest).unwrap();
    assert_eq!(pack.len(), 1);
    assert_eq!(pack.get("30"), Some(&"pack/a.wav".to_string()));
}

#[test]
fn later_duplicate_is_never_loaded() {
    let manifest = Manifest {
        defines: vec![entry("30", path("a.wav")), entry("30", path("missing.wav"))],
    };
    let pack = load(&manifest).unwrap();
    assert_eq!(pack.get("30"), Some(&"pack/a.wav".to_string()));
}

#[test]
fn null_before_a_path_does_not_block_it() {
    let manifest = Manifest {
        defines: vec![entry("30", DefineValue::Null), entry("30", path("a.wav"))],
    };
    let pack = load(&manifest).unwrap();
    assert_eq!(pack.get("30"), Some(&"pack/a.wav".to_string()));
}

#[test]
fn keys_outside_the_key_table_are_accepted() {
    let manifest = Manifest { defines: vec![entry("not-a-key", path("x.wav"))] };
    let pack = load(&manifest).unwrap();
    assert_eq!(pack.get("not-a-key"), Some(&"pack/x.wav".to_string()));
}

#[test]
fn loading_twice_gives_the_same_pack() {
    let manifest = Manifest {
        defines: vec![entry("30", path("a.wav")), entry("31", path("s.wav")), entry("16", DefineValue::Null)],
    };
    let first = load(&manifest).unwrap();
    let second = load(&manifest).unwrap();
    assert_eq!(first.len(), second.len());
    for code in ["30", "31", "16", "1"] {
        assert_eq!(first.get(code), second.get(code));
    }
}

#[test]
fn absent_code_triggers_nothing() {
    let manifest = Manifest { defines: vec![entry("30", path("a.wav"))] };
    let pack = load(&manifest).unwrap();
    let mut d: Dispatcher<String, u32> = Dispatcher::new(pack, RetriggerPolicy::StopPrevious);
    assert!(d.on_key_event(PlatformKey::KeyZ).is_none());
    assert!(d.on_key_event(PlatformKey::Unknown(77)).is_none());
    assert!(d.on_key_event(PlatformKey::KeyA).is_some());
}

#[test]
fn stop_previous_stops_the_earlier_playback() {
    let manifest = Manifest { defines: vec![entry("30", path("a.wav")), entry("31", path("s.wav"))] };
    let pack = load(&manifest).unwrap();
    let mut d: Dispatcher<String, u32> = Dispatcher::new(pack, RetriggerPolicy::StopPrevious);
    assert_eq!(d.policy(), RetriggerPolicy::StopPrevious);

    let t1 = d.on_key_event(PlatformKey::KeyA).unwrap();
    assert_eq!(t1.stop, None);
    d.record_start(&t1.code, 1);

    let other = d.on_key_event(PlatformKey::KeyS).unwrap();
    assert_eq!(other.stop, None);
    d.record_start(&other.code, 5);

    let t2 = d.on_key_event(PlatformKey::KeyA).unwrap();
    assert_eq!(t2.code, "30");
    assert_eq!(t2.stop, Some(1));
    d.record_start(&t2.code, 2);

    let t3 = d.on_key_event(PlatformKey::KeyA).unwrap();
    assert_eq!(t3.stop, Some(2));
    let again = d.on_key_event(PlatformKey::KeyS).unwrap();
    assert_eq!(again.stop, Some(5));
}

#[test]
fn overlap_stops_nothing() {
    let manifest = Manifest { defines: vec![entry("30", path("a.wav"))] };
    let pack = load(&manifest).unwrap();
    let mut d: Dispatcher<String, u32> = Dispatcher::new(pack, RetriggerPolicy::Overlap);
    let t1 = d.on_key_event(PlatformKey::KeyA).unwrap();
    d.record_start(&t1.code, 1);
    let t2 = d.on_key_event(PlatformKey::KeyA).unwrap();
    d.record_start(&t2.code, 2);
    assert_eq!(t1.stop, None);
    assert_eq!(t2.stop, None);
    assert_eq!(d.pack().len(), 1);
}
