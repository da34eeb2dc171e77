use kimcli::asset_pack::builtin_spritesheet_path;
use kimcli::asset_pack::ensure_builtin_pet;
use kimcli::asset_pack::pack_dir;
use kimcli::asset_pack::validate_cached_spritesheet;
use kimcli::asset_pack::PetAssetError;

const EXPECTED: (u32, u32) = (1536, 1872);

#[test]
fn ensure_builtin_pet_fails_without_a_remote_fetch_when_uncached() {
    let err = ensure_builtin_pet(
        "/tmp/home",
        "dewey.png",
        Err("No such file or directory (os error 2)".to_string()),
        EXPECTED,
    )
    .expect_err("no cached asset, no CDN fetch");
    let message = err.message();
    assert!(
        message.contains("does not download pet assets"),
        "unexpected error message: {message}"
    );
}

#[test]
fn ensure_builtin_pet_succeeds_when_already_cached() {
    ensure_builtin_pet("/tmp/home", "dewey.png", Ok(EXPECTED), EXPECTED)
        .expect("cached asset should validate without a fetch");
}

#[test]
fn spritesheets_live_in_the_versioned_pack() {
    assert_eq!(pack_dir("/h"), "/h/cache/tui-pets/v1");
    assert_eq!(builtin_spritesheet_path("/h/", "dewey.png"), "/h/cache/tui-pets/v1/assets/dewey.png");
}

#[test]
fn wrong_geometry_is_refused_with_both_sizes() {
    let err = validate_cached_spritesheet("/p.png", Ok((10, 20)), (1536, 1872)).unwrap_err();
    assert_eq!(
        err.message(),
        "invalid pet spritesheet dimensions for /p.png: expected 1536x1872, got 10x20"
    );
    let err = ensure_builtin_pet("/h", "x.png", Ok((10, 20)), (1536, 1872)).unwrap_err();
    assert_eq!(err, PetAssetError::NotCached { path: "/h/cache/tui-pets/v1/assets/x.png".to_string() });
    assert_eq!(
        err.message(),
        "built-in pet asset /h/cache/tui-pets/v1/assets/x.png is not cached locally; kimcli does not download pet assets from a remote CDN"
    );
}

#[test]
fn unreadable_spritesheet_reports_the_path() {
    let err = validate_cached_spritesheet("/p.png", Err("boom".to_string()), (1, 1)).unwrap_err();
    assert_eq!(err, PetAssetError::Read { path: "/p.png".to_string(), cause: "boom".to_string() });
    assert_eq!(err.message(), "read /p.png");
}
