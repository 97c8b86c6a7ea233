use transcoder::assets::AssetDirectory;
use transcoder::error::CompressError;
use transcoder::preset::resolve;

#[test]
fn known_presets_resolve_to_nonempty_args() {
    for name in ["fast-mp4", "quality-mp4", "small-webm"] {
        let resolved = resolve(name).unwrap();
        assert!(!resolved.args.is_empty());
    }
}

#[test]
fn fast_mp4_targets_mp4_container() {
    let resolved = resolve("fast-mp4").unwrap();
    assert_eq!(resolved.extension, "mp4");
    let args: Vec<&str> = resolved.args.iter().map(|s| s.as_str()).collect();
    assert_eq!(
        args,
        ["-c:v", "libx264", "-preset", "veryfast", "-crf", "28", "-c:a", "aac"]
    );
}

#[test]
fn small_webm_targets_webm_container() {
    let resolved = resolve("small-webm").unwrap();
    assert_eq!(resolved.extension, "webm");
    assert_eq!(resolved.args[1], "libvpx-vp9");
}

#[test]
fn unknown_preset_is_rejected() {
    match resolve("no-such-preset") {
        Err(e) => assert_eq!(e, CompressError::UnknownPreset),
        Ok(_) => panic!("unknown preset must be rejected"),
    }
}

#[test]
fn unknown_preset_error_variant() {
    match resolve("") {
        Err(e) => assert_eq!(e, CompressError::UnknownPreset),
        Ok(_) => panic!("empty preset name must be rejected"),
    }
}

#[test]
fn error_messages_are_stable() {
    assert_eq!(CompressError::UnknownPreset.message(), "unknown preset");
    assert_eq!(CompressError::DirectoryUnavailable.message(), "asset directory unavailable");
    assert_eq!(CompressError::ProcessSpawnFailure.message(), "could not start the encoder process");
    assert_eq!(
        CompressError::EncoderRuntimeFailure.message(),
        "the encoder failed or produced no output"
    );
    assert_eq!(CompressError::Cancelled.message(), "the operation was cancelled");
}

#[test]
fn allocation_never_repeats_a_path() {
    let mut dir = AssetDirectory::new(b"/data/assets".to_vec());
    let first = dir.allocate_output_path(b"mp4");
    let second = dir.allocate_output_path(b"mp4");
    assert_ne!(first, second);
    let third = dir.allocate_output_path(b"webm");
    assert_ne!(first, third);
    assert_ne!(second, third);
}

#[test]
fn allocated_path_shape() {
    let mut dir = AssetDirectory::new(b"/data/assets".to_vec());
    let path = dir.allocate_output_path(b"mp4");
    assert!(path.starts_with(b"/data/assets/"));
    assert!(path.ends_with(b".mp4"));
    // root + '/' + 20 token digits + '.' + extension
    assert_eq!(path.len(), b"/data/assets".len() + 1 + 20 + 1 + 3);
    let second = dir.allocate_output_path(b"mp4");
    assert!(second.ends_with(b".mp4"));
}

#[test]
fn resumed_directory_starts_at_the_seed() {
    let mut dir = AssetDirectory::resume(b"/data/assets".to_vec(), 7);
    let path = dir.allocate_output_path(b"mp4");
    assert_eq!(path, b"/data/assets/00000000000000000007.mp4".to_vec());
    let mut fresh = AssetDirectory::new(b"/data/assets".to_vec());
    assert_ne!(fresh.allocate_output_path(b"mp4"), path);
}

#[test]
fn asset_dir_reports_its_root() {
    let dir = AssetDirectory::new(b"/data/assets".to_vec());
    assert_eq!(dir.get_asset_dir().as_slice(), b"/data/assets");
}
