//! Built-in pet assets and the cache that owns them.
//!
//! Built-in pet spritesheets are never fetched from a remote CDN: a built-in
//! pet is available only when a spritesheet with the expected geometry is
//! already present in the versioned cache under CODEX_HOME. Otherwise
//! selecting it fails with an error that callers report to the user as "the
//! asset is unavailable". Custom pets are not handled here.
use vstd::prelude::*;
use crate::paths::{join, join_spec};
use crate::text::{decimal_spec, push_decimal};

verus! {

broadcast use vstd::string::group_string_axioms;

/// The versioned cache directory of the pet pack: `<codex_home>/cache/tui-pets/v1`.
pub open spec fn pack_dir_spec(codex_home: Seq<char>) -> Seq<char> {
    join_spec(join_spec(codex_home, "cache/tui-pets"@), "v1"@)
}

/// Where a built-in spritesheet is cached: `<pack dir>/assets/<file>`.
pub open spec fn builtin_spritesheet_path_spec(codex_home: Seq<char>, file: Seq<char>) -> Seq<char> {
    join_spec(join_spec(pack_dir_spec(codex_home), "assets"@), file)
}

/// The versioned cache directory of the pet pack.
pub fn pack_dir(codex_home: &str) -> (r: String)
    ensures
        r@ == pack_dir_spec(codex_home@),
{
    let base = join(codex_home, "cache/tui-pets");
    join(base.as_str(), "v1")
}

/// Where the spritesheet `file` of a built-in pet is cached.
pub fn builtin_spritesheet_path(codex_home: &str, file: &str) -> (r: String)
    ensures
        r@ == builtin_spritesheet_path_spec(codex_home@, file@),
{
    let dir = pack_dir(codex_home);
    let assets = join(dir.as_str(), "assets");
    join(assets.as_str(), file)
}

/// Why a built-in pet asset is unavailable.
#[derive(Debug, PartialEq, Eq)]
pub enum PetAssetError {
    /// The image dimensions of the file could not be read.
    Read { path: String, cause: String },
    /// The spritesheet does not have the expected geometry.
    InvalidDimensions { path: String, expected: (u32, u32), actual: (u32, u32) },
    /// No valid spritesheet is cached, and none is downloaded.
    NotCached { path: String },
}

/// `<width>x<height>`.
pub open spec fn dimensions_text(d: (u32, u32)) -> Seq<char> {
    decimal_spec(d.0 as nat) + "x"@ + decimal_spec(d.1 as nat)
}

/// The message of an error, as it is shown to the user.
pub open spec fn pet_asset_error_message(e: PetAssetError) -> Seq<char> {
    match e {
        PetAssetError::Read { path, cause } => "read "@ + path@,
        PetAssetError::InvalidDimensions { path, expected, actual } =>
            "invalid pet spritesheet dimensions for "@ + path@ + ": expected "@
                + dimensions_text(expected) + ", got "@ + dimensions_text(actual),
        PetAssetError::NotCached { path } =>
            "built-in pet asset "@ + path@
                + " is not cached locally; kimcli does not download pet assets from a remote CDN"@,
    }
}

fn push_dimensions(s: &mut String, d: (u32, u32))
    ensures
        final(s)@ == old(s)@ + dimensions_text(d),
{
    push_decimal(s, d.0 as u64);
    s.append("x");
    push_decimal(s, d.1 as u64);
}

impl PetAssetError {
    /// The message shown to the user (the cause of a read error is kept in
    /// `cause` and is not part of the message).
    pub fn message(&self) -> (r: String)
        ensures
            r@ == pet_asset_error_message(*self),
    {
        match self {
            PetAssetError::Read { path, cause } => {
                let mut r = String::from_str("read ");
                r.append(path.as_str());
                r
            },
            PetAssetError::InvalidDimensions { path, expected, actual } => {
                let mut r = String::from_str("invalid pet spritesheet dimensions for ");
                r.append(path.as_str());
                r.append(": expected ");
                push_dimensions(&mut r, *expected);
                r.append(", got ");
                push_dimensions(&mut r, *actual);
                r
            },
            PetAssetError::NotCached { path } => {
                let mut r = String::from_str("built-in pet asset ");
                r.append(path.as_str());
                r.append(" is not cached locally; kimcli does not download pet assets from a remote CDN");
                r
            },
        }
    }
}

/// `e` says that no valid spritesheet is cached at `path`.
pub open spec fn is_not_cached_at(e: PetAssetError, path: Seq<char>) -> bool {
    match e {
        PetAssetError::NotCached { path: p } => p@ == path,
        _ => false,
    }
}

/// A cached spritesheet is valid when its dimensions could be read and are
/// exactly the expected ones.
pub open spec fn spritesheet_valid(dimensions: Result<(u32, u32), Seq<char>>, expected: (u32, u32)) -> bool {
    dimensions matches Ok(d) && d == expected
}

/// The view of a dimensions read: the dimensions, or the reader's message.
pub open spec fn dimensions_view(d: Result<(u32, u32), String>) -> Result<(u32, u32), Seq<char>> {
    match d {
        Ok(x) => Ok(x),
        Err(e) => Err(e@),
    }
}

/// Checks the spritesheet cached at `path`, given the dimensions read from it
/// (or the reader's message) and the expected spritesheet geometry.
pub fn validate_cached_spritesheet(
    path: &str,
    dimensions: Result<(u32, u32), String>,
    expected: (u32, u32),
) -> (r: Result<(), PetAssetError>)
    ensures
        r is Ok <==> spritesheet_valid(dimensions_view(dimensions), expected),
        match r {
            Ok(_) => true,
            Err(PetAssetError::Read { path: p, cause }) => p@ == path@ && dimensions_view(dimensions)
                == Err::<(u32, u32), Seq<char>>(cause@),
            Err(PetAssetError::InvalidDimensions { path: p, expected: x, actual }) => p@ == path@ && x
                == expected && dimensions_view(dimensions) == Ok::<(u32, u32), Seq<char>>(actual),
            Err(PetAssetError::NotCached { .. }) => false,
        },
{
    let (width, height) = match dimensions {
        Err(cause) => {
            return Err(PetAssetError::Read { path: String::from_str(path), cause });
        },
        Ok(d) => d,
    };
    if width != expected.0 || height != expected.1 {
        return Err(
            PetAssetError::InvalidDimensions {
                path: String::from_str(path),
                expected,
                actual: (width, height),
            },
        );
    }
    Ok(())
}

/// Ensures that a built-in pet's spritesheet is present and structurally
/// valid, given the dimensions read from the file at
/// `builtin_spritesheet_path(codex_home, spritesheet_file)`. Nothing is ever
/// downloaded: a missing or invalid spritesheet makes the asset unavailable.
pub fn ensure_builtin_pet(
    codex_home: &str,
    spritesheet_file: &str,
    dimensions: Result<(u32, u32), String>,
    expected: (u32, u32),
) -> (r: Result<(), PetAssetError>)
    ensures
        r is Ok <==> spritesheet_valid(dimensions_view(dimensions), expected),
        r matches Err(e) ==> is_not_cached_at(e, builtin_spritesheet_path_spec(codex_home@, spritesheet_file@)),
{
    let destination = builtin_spritesheet_path(codex_home, spritesheet_file);
    if validate_cached_spritesheet(destination.as_str(), dimensions, expected).is_ok() {
        return Ok(());
    }
    Err(PetAssetError::NotCached { path: destination })
}

/// A cached spritesheet is accepted exactly when its dimensions could be read
/// and both its width and its height are the expected ones; a sheet that is
/// right in one dimension only is refused.
pub proof fn law_spritesheet_needs_both_dimensions(
    dimensions: Result<(u32, u32), Seq<char>>,
    expected: (u32, u32),
)
    ensures
        spritesheet_valid(dimensions, expected) <==> (dimensions matches Ok(d) && d.0 == expected.0 && d.1
            == expected.1),
        dimensions matches Ok(d) ==> (d.0 != expected.0 || d.1 != expected.1 ==> !spritesheet_valid(
            dimensions,
            expected,
        )),
{
}

} // verus!
