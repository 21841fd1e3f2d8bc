//! Where files are kept.
//!
//! An override, which the environment may set, names a directory outright.
//! Without one the directory is the application's own within the platform's
//! directory for such files. Where neither is known there is no directory.

use crate::path;
use crate::path::FilePath;
use crate::text;
use vstd::prelude::*;
use vstd::utf8::*;

verus! {

/// Permissions of the media cache directory: its owner's only, because cached
/// media reveals what the user listens to.
pub const OWNER_ONLY: u32 = 0o700;

/// The application's directory, for an override and a platform directory.
pub open spec fn app_dir(
    override_path: Option<Seq<u8>>,
    platform: Option<Seq<u8>>,
) -> Option<Seq<u8>> {
    match override_path {
        Some(p) => Some(p),
        None => path::join_known(platform, "ferrosonic"@),
    }
}

/// The media cache directory, for an override and a platform directory.
pub open spec fn media_dir(
    override_path: Option<Seq<u8>>,
    platform: Option<Seq<u8>>,
) -> Option<Seq<u8>> {
    path::join_known(app_dir(override_path, platform), "media"@)
}

/// Calls `dirs::config_dir`, which finds the user's configuration directory
/// from the environment. What it returns depends on the environment and the
/// user database, so nothing is claimed of it.
#[verifier::external_body]
fn platform_config_dir() -> (r: Option<Vec<u8>>) {
    dirs::config_dir().map(|p| p.into_os_string().into_encoded_bytes())
}

/// Calls `dirs::cache_dir`, which finds the user's cache directory from the
/// environment. What it returns depends on the environment and the user
/// database, so nothing is claimed of it.
#[verifier::external_body]
fn platform_cache_dir() -> (r: Option<Vec<u8>>) {
    dirs::cache_dir().map(|p| p.into_os_string().into_encoded_bytes())
}

/// The path that `bytes` spells, if there are any.
fn as_path(bytes: Option<Vec<u8>>) -> (r: Option<FilePath>)
    ensures
        bytes is Some <==> r is Some,
        bytes is Some ==> (r->0)@ == (bytes->0)@,
{
    match bytes {
        Some(b) => Some(FilePath::new(b)),
        None => None,
    }
}

/// The path of the entry called `name` in `dir`, if that is known.
pub fn path_in(dir: Option<FilePath>, name: &str) -> (r: Option<FilePath>)
    ensures
        path::known(r) == path::join_known(path::known(dir), name@),
{
    match dir {
        Some(d) => Some(d.join_text(name)),
        None => None,
    }
}

/// The application's directory, given the override and the platform's
/// directory.
pub fn app_dir_from(
    override_path: Option<FilePath>,
    platform: Option<FilePath>,
) -> (r: Option<FilePath>)
    ensures
        path::known(r) == app_dir(path::known(override_path), path::known(platform)),
{
    match override_path {
        Some(p) => Some(p),
        None => path_in(platform, "ferrosonic"),
    }
}

/// The configuration directory: the override if there is one, else the
/// application's within the platform's.
pub fn config_dir(override_path: Option<FilePath>) -> (r: Option<FilePath>)
    ensures
        exists|platform: Option<Seq<u8>>|
            path::known(r) == #[trigger] app_dir(path::known(override_path), platform),
{
    let ghost given = path::known(override_path);
    if override_path.is_some() {
        let r = app_dir_from(override_path, None);
        assert(path::known(r) == app_dir(given, None));
        return r;
    }
    let platform = as_path(platform_config_dir());
    let ghost found = path::known(platform);
    let r = app_dir_from(override_path, platform);
    assert(path::known(r) == app_dir(given, found));
    r
}

/// Path of the configuration file.
pub fn config_file(override_path: Option<FilePath>) -> (r: Option<FilePath>)
    ensures
        exists|platform: Option<Seq<u8>>|
            path::known(r) == path::join_known(
                #[trigger] app_dir(path::known(override_path), platform),
                "config.toml"@,
            ),
{
    path_in(config_dir(override_path), "config.toml")
}

/// Path of the directory of the user's themes.
pub fn themes_dir(override_path: Option<FilePath>) -> (r: Option<FilePath>)
    ensures
        exists|platform: Option<Seq<u8>>|
            path::known(r) == path::join_known(
                #[trigger] app_dir(path::known(override_path), platform),
                "themes"@,
            ),
{
    path_in(config_dir(override_path), "themes")
}

/// Path of the log file of the daemon.
pub fn log_file(override_path: Option<FilePath>) -> (r: Option<FilePath>)
    ensures
        exists|platform: Option<Seq<u8>>|
            path::known(r) == path::join_known(
                #[trigger] app_dir(path::known(override_path), platform),
                "ferrosonic.log"@,
            ),
{
    path_in(config_dir(override_path), "ferrosonic.log")
}

/// Path of the persisted queue.
pub fn queue_file(override_path: Option<FilePath>) -> (r: Option<FilePath>)
    ensures
        exists|platform: Option<Seq<u8>>|
            path::known(r) == path::join_known(
                #[trigger] app_dir(path::known(override_path), platform),
                "queue.json"@,
            ),
{
    path_in(config_dir(override_path), "queue.json")
}

/// The cache directory: the override if there is one, else the application's
/// within the platform's.
///
/// Separate from [`config_dir`] because cached media is regenerable bulk data:
/// it can be deleted at any time without losing user state.
pub fn cache_dir(override_path: Option<FilePath>) -> (r: Option<FilePath>)
    ensures
        exists|platform: Option<Seq<u8>>|
            path::known(r) == #[trigger] app_dir(path::known(override_path), platform),
{
    let ghost given = path::known(override_path);
    if override_path.is_some() {
        let r = app_dir_from(override_path, None);
        assert(path::known(r) == app_dir(given, None));
        return r;
    }
    let platform = as_path(platform_cache_dir());
    let ghost found = path::known(platform);
    let r = app_dir_from(override_path, platform);
    assert(path::known(r) == app_dir(given, found));
    r
}

/// Directory of the cached media files, one per track.
pub fn media_cache_dir(override_path: Option<FilePath>) -> (r: Option<FilePath>)
    ensures
        exists|platform: Option<Seq<u8>>|
            path::known(r) == #[trigger] media_dir(path::known(override_path), platform),
{
    let ghost given = path::known(override_path);
    let dir = cache_dir(override_path);
    let ghost found = choose|platform: Option<Seq<u8>>|
        path::known(dir) == #[trigger] app_dir(given, platform);
    let r = path_in(dir, "media");
    assert(path::known(r) == media_dir(given, found));
    r
}

/// The name of the socket in a directory that users share.
pub open spec fn socket_name(uid: u32) -> Seq<char> {
    "ferrosonic-mpv-"@ + text::decimal(uid as nat) + ".sock"@
}

/// Path of the socket through which the player is controlled.
///
/// A runtime directory that exists is preferred: it belongs to one user.
/// Otherwise the user ID keeps two users on the same host from colliding in the
/// shared directory `temp_dir`.
pub open spec fn socket_path(
    runtime_dir: Option<Seq<u8>>,
    runtime_dir_exists: bool,
    temp_dir: Seq<u8>,
    uid: u32,
) -> Seq<u8> {
    if runtime_dir is Some && runtime_dir_exists {
        path::join(runtime_dir->0, encode_utf8("ferrosonic-mpv.sock"@))
    } else {
        path::join(temp_dir, encode_utf8(socket_name(uid)))
    }
}

/// Path of the socket through which the player is controlled.
pub fn mpv_socket_path(
    runtime_dir: Option<FilePath>,
    runtime_dir_exists: bool,
    temp_dir: &FilePath,
    uid: u32,
) -> (r: FilePath)
    ensures
        r@ == socket_path(path::known(runtime_dir), runtime_dir_exists, temp_dir@, uid),
{
    if let Some(rt) = runtime_dir {
        if runtime_dir_exists {
            return rt.join_text("ferrosonic-mpv.sock");
        }
    }
    let mut name = "ferrosonic-mpv-".to_owned();
    text::push_decimal(&mut name, uid as u64);
    name.append(".sock");
    temp_dir.join_text(name.as_str())
}

/// What stands at the path of a directory that is needed.
#[derive(Debug, Clone, Copy, PartialEq, Eq)]
pub enum Standing {
    /// Nothing, as far as can be seen.
    Nothing,
    /// A directory, or a link that leads to one.
    Directory,
    /// Something else, such as a regular file.
    Other,
}

/// Why there is no directory, and none can be created.
#[derive(Debug, Clone, Copy, PartialEq, Eq)]
pub enum DirError {
    /// The cache directory is not known.
    UnknownCache,
    /// The configuration directory is not known.
    UnknownConfig,
    /// Something that is no directory stands in its place.
    NotADirectory,
}

impl DirError {
    /// The words for this error.
    pub open spec fn words(&self) -> Seq<char> {
        match *self {
            DirError::UnknownCache => "Could not determine cache directory"@,
            DirError::UnknownConfig => "Could not determine config directory"@,
            DirError::NotADirectory => "Not a directory"@,
        }
    }

    /// The words for this error.
    pub fn message(&self) -> (r: String)
        ensures
            r@ == self.words(),
    {
        match self {
            DirError::UnknownCache => "Could not determine cache directory".to_owned(),
            DirError::UnknownConfig => "Could not determine config directory".to_owned(),
            DirError::NotADirectory => "Not a directory".to_owned(),
        }
    }
}

/// How a directory comes to exist.
#[derive(Debug, PartialEq, Eq)]
pub enum DirPlan {
    /// It does already.
    Existing(FilePath),
    /// It is created with the directories that lead to it, with these
    /// permissions where some are given.
    Create {
        /// The directory.
        dir: FilePath,
        /// Its permissions.
        mode: Option<u32>,
    },
}

/// How `dir` comes to exist, where `found` stands at its path: it is left as it
/// is where it is a directory, created where there is nothing, and refused where
/// something else is in its place. Where `dir` is not known, `unknown` says so.
pub open spec fn plan(
    dir: Option<FilePath>,
    found: Standing,
    mode: Option<u32>,
    unknown: DirError,
) -> Result<DirPlan, DirError> {
    match dir {
        Some(dir) => match found {
            Standing::Nothing => Ok(DirPlan::Create { dir, mode }),
            Standing::Directory => Ok(DirPlan::Existing(dir)),
            Standing::Other => Err(DirError::NotADirectory),
        },
        None => Err(unknown),
    }
}

/// How the media cache directory `dir` comes to exist, where `found` stands at
/// its path.
pub fn ensure_media_cache_dir(dir: Option<FilePath>, found: Standing) -> (r: Result<
    DirPlan,
    DirError,
>)
    ensures
        r == plan(dir, found, Some(OWNER_ONLY), DirError::UnknownCache),
{
    match dir {
        Some(dir) => match found {
            Standing::Nothing => Ok(DirPlan::Create { dir, mode: Some(OWNER_ONLY) }),
            Standing::Directory => Ok(DirPlan::Existing(dir)),
            Standing::Other => Err(DirError::NotADirectory),
        },
        None => Err(DirError::UnknownCache),
    }
}

/// How the configuration directory `dir` comes to exist, where `found` stands
/// at its path.
pub fn ensure_config_dir(dir: Option<FilePath>, found: Standing) -> (r: Result<DirPlan, DirError>)
    ensures
        r == plan(dir, found, None, DirError::UnknownConfig),
{
    match dir {
        Some(dir) => match found {
            Standing::Nothing => Ok(DirPlan::Create { dir, mode: None }),
            Standing::Directory => Ok(DirPlan::Existing(dir)),
            Standing::Other => Err(DirError::NotADirectory),
        },
        None => Err(DirError::UnknownConfig),
    }
}

/// The name of the socket in a shared directory names its user and is a single
/// path component.
proof fn socket_name_is_confined(uid: u32)
    ensures
        path::is_component(encode_utf8(socket_name(uid))),
        socket_name(uid).len() > 14,
        socket_name(uid)[14] == '-',
{
    reveal_strlit("ferrosonic-mpv-");
    reveal_strlit(".sock");
    let name = socket_name(uid);
    let digits = text::decimal(uid as nat);
    text::decimal_is_digits(uid as nat);
    assert forall|i: int| 0 <= i < name.len() implies '-' <= #[trigger] name[i] <= 'z' && name[i]
        != '/' by {
        if 15 <= i < 15 + digits.len() {
            assert(name[i] == digits[i - 15]);
        }
    }
    path::plain_text_is_component(name);
}

/// Two users never share a socket: not in a shared directory, and not where a
/// runtime directory is in use, provided that each user has their own.
pub proof fn users_have_their_own_sockets(
    runtime1: Option<Seq<u8>>,
    exists1: bool,
    temp1: Seq<u8>,
    uid1: u32,
    runtime2: Option<Seq<u8>>,
    exists2: bool,
    temp2: Seq<u8>,
    uid2: u32,
)
    requires
        uid1 != uid2,
        runtime1 is Some && exists1 && runtime2 is Some && exists2 ==> !path::same_path(
            runtime1->0,
            runtime2->0,
        ),
    ensures
        !path::same_path(
            socket_path(runtime1, exists1, temp1, uid1),
            socket_path(runtime2, exists2, temp2, uid2),
        ),
{
    let own = "ferrosonic-mpv.sock"@;
    reveal_strlit("ferrosonic-mpv.sock");
    path::plain_text_is_component(own);
    socket_name_is_confined(uid1);
    socket_name_is_confined(uid2);
    encode_utf8_decode_utf8(own);
    encode_utf8_decode_utf8(socket_name(uid1));
    encode_utf8_decode_utf8(socket_name(uid2));
    assert(own[14] == '.');
    assert(socket_name(uid1) != socket_name(uid2)) by {
        let d1 = text::decimal(uid1 as nat);
        let d2 = text::decimal(uid2 as nat);
        reveal_strlit("ferrosonic-mpv-");
        reveal_strlit(".sock");
        if socket_name(uid1) == socket_name(uid2) {
            assert(socket_name(uid1).subrange(15, 15 + d1.len() as int) =~= d1);
            assert(socket_name(uid2).subrange(15, 15 + d2.len() as int) =~= d2);
            assert(socket_name(uid1).len() == 15 + d1.len() + 5);
            assert(socket_name(uid2).len() == 15 + d2.len() + 5);
            text::decimal_is_injective(uid1 as nat, uid2 as nat);
        }
    }
    let in_runtime1 = runtime1 is Some && exists1;
    let in_runtime2 = runtime2 is Some && exists2;
    let dir1 = if in_runtime1 { runtime1->0 } else { temp1 };
    let dir2 = if in_runtime2 { runtime2->0 } else { temp2 };
    let name1 = encode_utf8(if in_runtime1 { own } else { socket_name(uid1) });
    let name2 = encode_utf8(if in_runtime2 { own } else { socket_name(uid2) });
    path::join_adds_a_component(dir1, name1);
    path::join_adds_a_component(dir2, name2);
    let c1 = path::components(dir1).push(name1);
    let c2 = path::components(dir2).push(name2);
    if c1 == c2 {
        assert(c1.last() == c2.last());
        assert(c1.drop_last() =~= path::components(dir1));
        assert(c2.drop_last() =~= path::components(dir2));
    }
}

} // verus!
