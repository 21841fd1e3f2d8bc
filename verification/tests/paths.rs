use ferrosonic::config::paths::{
    app_dir_from, cache_dir, config_dir, config_file, ensure_config_dir, ensure_media_cache_dir,
    log_file, media_cache_dir, mpv_socket_path, path_in, queue_file, themes_dir, DirError,
    DirPlan, Standing,
};
use ferrosonic::config::Config;
use ferrosonic::media_cache::MediaCache;
use ferrosonic::path::FilePath;
use std::path::{Path, PathBuf};

fn path(s: &str) -> FilePath {
    FilePath::from_text(s)
}

fn native(p: Option<FilePath>) -> Option<PathBuf> {
    p.map(|p| PathBuf::from(String::from_utf8(p.as_bytes().clone()).unwrap()))
}

#[test]
fn joining_agrees_with_the_standard_library() {
    for base in ["", "/", "a", "a/", "/a/b", "/a//", "."] {
        for name in ["x", "x/y", "", "/abs", "..", ".download-1"] {
            let joined = path(base).join_text(name);
            assert_eq!(
                String::from_utf8(joined.as_bytes().clone()).unwrap(),
                Path::new(base).join(name).to_str().unwrap()
            );
        }
    }
}

#[test]
fn an_override_names_the_directory() {
    let given = || Some(path("/over"));
    assert_eq!(config_dir(given()), given());
    assert_eq!(config_file(given()), Some(path("/over/config.toml")));
    assert_eq!(themes_dir(given()), Some(path("/over/themes")));
    assert_eq!(log_file(given()), Some(path("/over/ferrosonic.log")));
    assert_eq!(queue_file(given()), Some(path("/over/queue.json")));
    assert_eq!(cache_dir(given()), given());
    assert_eq!(media_cache_dir(given()), Some(path("/over/media")));
}

#[test]
fn the_platform_directory_is_the_fallback() {
    let config = dirs::config_dir().map(|p| p.join("ferrosonic"));
    let cache = dirs::cache_dir().map(|p| p.join("ferrosonic"));
    assert_eq!(native(config_dir(None)), config);
    assert_eq!(native(cache_dir(None)), cache);
    assert_eq!(
        native(config_file(None)),
        config.map(|p| p.join("config.toml"))
    );
    assert_eq!(
        native(media_cache_dir(None)),
        cache.map(|p| p.join("media"))
    );
}

#[test]
fn without_either_there_is_no_directory() {
    assert_eq!(app_dir_from(None, None), None);
    assert_eq!(
        app_dir_from(None, Some(path("/home/alice/.config"))),
        Some(path("/home/alice/.config/ferrosonic"))
    );
    assert_eq!(
        app_dir_from(Some(path("o")), Some(path("/home/alice/.config"))),
        Some(path("o"))
    );
    assert_eq!(path_in(None, "themes"), None);
}

#[test]
fn the_socket_prefers_an_existing_runtime_directory() {
    let tmp = path("/tmp");
    assert_eq!(
        mpv_socket_path(Some(path("/run/user/1000")), true, &tmp, 1000),
        path("/run/user/1000/ferrosonic-mpv.sock")
    );
    assert_eq!(
        mpv_socket_path(Some(path("/run/user/1000")), false, &tmp, 1000),
        path("/tmp/ferrosonic-mpv-1000.sock")
    );
    assert_eq!(
        mpv_socket_path(None, true, &tmp, 0),
        path("/tmp/ferrosonic-mpv-0.sock")
    );
}

#[test]
fn users_sharing_a_directory_have_their_own_sockets() {
    let tmp = path("/tmp");
    let own = |uid: u32| mpv_socket_path(None, false, &tmp, uid);
    for (a, b) in [(0, 1), (1, 10), (10, 100), (1000, 1001), (0, u32::MAX)] {
        assert_ne!(own(a), own(b));
    }
    assert_eq!(own(u32::MAX), path("/tmp/ferrosonic-mpv-4294967295.sock"));
    assert_ne!(mpv_socket_path(Some(path("/tmp")), true, &tmp, 1), own(2));
}

#[test]
fn paths_are_compared_by_components() {
    let spellings = [
        "", ".", "..", "/", "//", "/.", "./", "/..", "a", "./a", "././a", ".//a", "a/", "a/.", "a//",
        "a/b", "a//b", "a/./b", "a/b/", "a/b/.", "a/../b", "/a", "//a", "/./a", "/a/b", "/a//b",
        "/a/b/./", ".a", "a.", "..a", "a/..", "a/.b", "/r/a.dat", "/r//a.dat", "/r/./a.dat",
    ];
    for a in spellings {
        for b in spellings {
            let equal = Path::new(a) == Path::new(b);
            assert_eq!(path(a).same(&path(b)), equal, "{a:?} {b:?}");
            assert_eq!(path(a) == path(b), equal, "{a:?} {b:?}");
        }
    }
}

#[test]
fn directories_are_created_where_missing() {
    let dir = || Some(path("/over/media"));
    assert_eq!(
        ensure_media_cache_dir(dir(), Standing::Directory),
        Ok(DirPlan::Existing(path("/over/media")))
    );
    assert_eq!(
        ensure_media_cache_dir(dir(), Standing::Nothing),
        Ok(DirPlan::Create {
            dir: path("/over/media"),
            mode: Some(0o700)
        })
    );
    assert_eq!(
        ensure_config_dir(dir(), Standing::Directory),
        Ok(DirPlan::Existing(path("/over/media")))
    );
    assert_eq!(
        ensure_config_dir(dir(), Standing::Nothing),
        Ok(DirPlan::Create {
            dir: path("/over/media"),
            mode: None
        })
    );
    let e = ensure_media_cache_dir(None, Standing::Directory).unwrap_err();
    assert_eq!(e, DirError::UnknownCache);
    assert_eq!(e.message(), "Could not determine cache directory");
    let e = ensure_config_dir(None, Standing::Nothing).unwrap_err();
    assert_eq!(e, DirError::UnknownConfig);
    assert_eq!(e.message(), "Could not determine config directory");
}

#[test]
fn a_file_in_the_place_of_a_directory_is_an_error() {
    let dir = || Some(path("/over/media"));
    let e = ensure_media_cache_dir(dir(), Standing::Other).unwrap_err();
    assert_eq!(e, DirError::NotADirectory);
    assert_eq!(e.message(), "Not a directory");
    assert_eq!(
        ensure_config_dir(dir(), Standing::Other),
        Err(DirError::NotADirectory)
    );
}

#[test]
fn the_settings_decide_where_a_directory_is_known() {
    let on = Config {
        media_cache: true,
        media_cache_capacity_bytes: 77,
    };
    let c = MediaCache::from_config(&on, Some(path("/over")));
    assert!(c.is_enabled());
    assert_eq!(c.root(), &path("/over/media"));
    assert_eq!(c.capacity_bytes(), 77);
    let off = Config {
        media_cache: false,
        ..on
    };
    assert!(!MediaCache::from_config(&off, Some(path("/over"))).is_enabled());
    let c = MediaCache::from_config_in(&on, None);
    assert!(!c.is_enabled());
    assert!(c.root().is_empty());
    assert_eq!(c.capacity_bytes(), 0);
}
