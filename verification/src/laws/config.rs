//! Laws of paths and of where files are kept.

use crate::config::paths;
use crate::config::paths::{DirError, DirPlan, Standing};
use crate::laws::text;
use crate::path;
use crate::path::FilePath;
use vstd::prelude::*;
use vstd::utf8::*;

verus! {

/// A path gives back the bytes that it was made from, and is empty exactly if
/// they are; its copy has the same.
pub proof fn paths_keep_their_spelling(
    bytes: Vec<u8>,
    p: FilePath,
    read: &Vec<u8>,
    empty: bool,
    copy: FilePath,
)
    requires
        call_ensures(FilePath::new, (bytes,), p),
        call_ensures(FilePath::as_bytes, (&p,), read),
        call_ensures(FilePath::is_empty, (&p,), empty),
        call_ensures(FilePath::clone, (&p,), copy),
    ensures
        read@ == bytes@,
        empty <==> bytes@.len() == 0,
        copy@ == p@,
{
}

/// A path made from text holds the text in UTF-8.
pub proof fn paths_are_spelled_in_utf8(text: &str, p: FilePath, read: &Vec<u8>)
    requires
        call_ensures(FilePath::from_text, (text,), p),
        call_ensures(FilePath::as_bytes, (&p,), read),
    ensures
        read@ == encode_utf8(text@),
{
}

/// Joining: a name that begins with the byte 47 stands for itself. Any other
/// name comes last, the directory comes first, and between them stands nothing
/// if the directory is empty or ends in 47, else that byte once.
pub proof fn joining_puts_a_name_in_a_directory(dir: &FilePath, name: &[u8], r: FilePath)
    requires
        call_ensures(FilePath::join, (dir, name), r),
    ensures
        r@ == path::join(dir@, name@),
        name@.len() > 0 && name@[0] == 47 ==> r@ == name@,
        !(name@.len() > 0 && name@[0] == 47) ==> {
            &&& dir@.is_prefix_of(r@)
            &&& name@.is_suffix_of(r@)
            &&& if dir@.len() == 0 || dir@[dir@.len() - 1] == 47 {
                r@.len() == dir@.len() + name@.len()
            } else {
                r@.len() == dir@.len() + 1 + name@.len() && r@[dir@.len() as int] == 47
            }
        },
{
    let d = dir@;
    let n = name@;
    if !(n.len() > 0 && n[0] == 47) {
        assert(r@.subrange(0, d.len() as int) =~= d);
        assert(r@.subrange(r@.len() - n.len(), r@.len() as int) =~= n);
    }
}

/// Joining text joins its UTF-8 bytes.
pub proof fn joining_text_joins_its_bytes(
    dir: &FilePath,
    text: &str,
    bytes: &[u8],
    r: FilePath,
    q: FilePath,
)
    requires
        bytes@ == encode_utf8(text@),
        call_ensures(FilePath::join_text, (dir, text), r),
        call_ensures(FilePath::join, (dir, bytes), q),
    ensures
        r@ == q@,
{
}

/// The shortest spelling of a path, absolute or not, through `names`.
pub open spec fn spelled(absolute: bool, names: Seq<Seq<u8>>) -> Seq<u8>
    decreases names.len(),
{
    if names.len() == 0 {
        if absolute {
            seq![47u8]
        } else {
            Seq::empty()
        }
    } else {
        let front = spelled(absolute, names.drop_last());
        if names.len() == 1 {
            front + names.last()
        } else {
            front + seq![47u8] + names.last()
        }
    }
}

/// Whether every one of `names` is a name that counts: none is empty or holds
/// the byte 47, and none is `.`, but for the first one of a path that is not
/// absolute.
pub open spec fn are_names(absolute: bool, names: Seq<Seq<u8>>) -> bool {
    forall|i: int|
        0 <= i < names.len() ==> {
            &&& (#[trigger] names[i]).len() > 0
            &&& !names[i].contains(47)
            &&& names[i] != seq![46u8] || (i == 0 && !absolute)
        }
}

/// The components of the shortest spelling are its names, behind the root where
/// it is absolute.
proof fn components_of_spelled(absolute: bool, names: Seq<Seq<u8>>)
    requires
        are_names(absolute, names),
    ensures
        path::components(spelled(absolute, names)) == if absolute {
            seq![seq![47u8]] + names
        } else {
            names
        },
        names.len() > 0 ==> spelled(absolute, names).len() > 0 && spelled(absolute, names).last()
            != 47,
    decreases names.len(),
{
    let front = names.drop_last();
    if names.len() == 0 {
        if absolute {
            let p = seq![47u8];
            assert(p.drop_last() =~= Seq::<u8>::empty());
            assert(path::pieces(p.drop_last()) =~= seq![Seq::<u8>::empty()]);
            let two = path::pieces(p);
            assert(two =~= seq![Seq::<u8>::empty(), Seq::<u8>::empty()]);
            assert(two.drop_last() =~= seq![Seq::<u8>::empty()]);
            assert(path::counted(two.drop_last()) =~= seq![seq![47u8]]);
            assert(path::components(p) =~= seq![seq![47u8]]);
            assert(seq![seq![47u8]] + names =~= seq![seq![47u8]]);
        } else {
            assert(path::components(Seq::<u8>::empty()) =~= names);
        }
    } else {
        let base = spelled(absolute, front);
        let name = names.last();
        assert(name == names[names.len() - 1]);
        assert(are_names(absolute, front)) by {
            assert forall|i: int| 0 <= i < front.len() implies {
                &&& (#[trigger] front[i]).len() > 0
                &&& !front[i].contains(47)
                &&& front[i] != seq![46u8] || (i == 0 && !absolute)
            } by {
                assert(front[i] == names[i]);
            }
        }
        components_of_spelled(absolute, front);
        assert(name.contains(name[0]) && name.contains(name.last()));
        assert(spelled(absolute, names) =~= path::join(base, name));
        assert(spelled(absolute, names).last() == name.last());
        assert(front.push(name) =~= names);
        if name == seq![46u8] {
            assert(names =~= seq![name]);
            assert(base =~= Seq::empty());
            assert(spelled(absolute, names) =~= name);
            components_of_dot();
        } else {
            path::join_adds_a_component(base, name);
            assert((seq![seq![47u8]] + front).push(name) =~= seq![seq![47u8]] + names);
        }
    }
}

/// A path that is only `.` has that for its one component.
proof fn components_of_dot()
    ensures
        path::pieces(seq![46u8]) == seq![seq![46u8]],
        path::components(seq![46u8]) == seq![seq![46u8]],
{
    let dot = seq![46u8];
    let none = Seq::<u8>::empty();
    assert(dot.drop_last() =~= none);
    assert(path::pieces(none) =~= seq![none]);
    assert(none.push(46u8) =~= dot);
    assert(path::pieces(dot) =~= seq![dot]);
    assert(path::counted(seq![dot]) =~= seq![dot]);
}

/// Two paths in shortest spelling are equal exactly if both are absolute or both
/// are not, and they lead through the same names.
pub proof fn equal_paths_lead_through_the_same_names(
    a: &FilePath,
    absolute_a: bool,
    names_a: Seq<Seq<u8>>,
    b: &FilePath,
    absolute_b: bool,
    names_b: Seq<Seq<u8>>,
    r: bool,
)
    requires
        are_names(absolute_a, names_a),
        are_names(absolute_b, names_b),
        a@ == spelled(absolute_a, names_a),
        b@ == spelled(absolute_b, names_b),
        call_ensures(FilePath::same, (a, b), r),
    ensures
        r <==> absolute_a == absolute_b && names_a == names_b,
{
    components_of_spelled(absolute_a, names_a);
    components_of_spelled(absolute_b, names_b);
    let root = seq![seq![47u8]];
    if absolute_a && absolute_b {
        assert((root + names_a).skip(1) =~= names_a);
        assert((root + names_b).skip(1) =~= names_b);
    } else if absolute_a && r {
        assert((root + names_a)[0] == seq![47u8]);
        assert(names_b[0].contains(47)) by {
            assert(seq![47u8][0] == 47u8);
        }
    } else if absolute_b && r {
        assert((root + names_b)[0] == seq![47u8]);
        assert(names_a[0].contains(47)) by {
            assert(seq![47u8][0] == 47u8);
        }
    }
}

/// Two paths are `==` exactly if they are the same, in whichever order they are
/// asked about.
pub proof fn equality_is_being_the_same(a: &FilePath, b: &FilePath, r: bool, q: bool)
    requires
        call_ensures(FilePath::same, (a, b), r),
        call_ensures(FilePath::same, (b, a), q),
    ensures
        vstd::std_specs::cmp::PartialEqSpec::eq_spec(a, b) <==> r,
        r == q,
        r <==> path::same_path(a@, b@),
{
}

/// More behind a separator only adds to the pieces.
proof fn pieces_of_parts(a: Seq<u8>, b: Seq<u8>)
    ensures
        path::pieces(a + seq![47u8] + b) == path::pieces(a) + path::pieces(b),
    decreases b.len(),
{
    path::pieces_are_some(a);
    path::pieces_are_some(b);
    let p = a + seq![47u8] + b;
    if b.len() == 0 {
        assert(p.drop_last() =~= a);
        assert(p.last() == 47);
        assert(path::pieces(p) =~= path::pieces(a) + path::pieces(b));
    } else {
        let front = b.drop_last();
        path::pieces_are_some(front);
        pieces_of_parts(a, front);
        assert(p.drop_last() =~= a + seq![47u8] + front);
        assert(p.last() == b.last());
        assert(path::pieces(p) =~= path::pieces(a) + path::pieces(b));
    }
}

/// A piece behind the first one that is empty or `.` does not count.
proof fn idle_pieces_do_not_count(a: Seq<Seq<u8>>, idle: Seq<u8>, b: Seq<Seq<u8>>)
    requires
        a.len() > 0,
        idle.len() == 0 || idle == seq![46u8],
    ensures
        path::counted(a + seq![idle] + b) == path::counted(a + b),
    decreases b.len(),
{
    let all = a + seq![idle] + b;
    if b.len() == 0 {
        assert(all.drop_last() =~= a);
        assert(all.last() == idle);
        assert(a + b =~= a);
    } else {
        idle_pieces_do_not_count(a, idle, b.drop_last());
        assert(all.drop_last() =~= a + seq![idle] + b.drop_last());
        assert((a + b).drop_last() =~= a + b.drop_last());
        assert(all.last() == b.last() && (a + b).last() == b.last());
    }
}

/// A separator more, or a `.` between two, makes no difference to what a path
/// is equal to.
pub proof fn idle_bytes_make_no_difference(
    front: Seq<u8>,
    back: Seq<u8>,
    plain: &FilePath,
    doubled: &FilePath,
    dotted: &FilePath,
    r: bool,
    s: bool,
)
    requires
        plain@ == front + seq![47u8] + back,
        doubled@ == front + seq![47u8, 47u8] + back,
        dotted@ == front + seq![47u8, 46u8, 47u8] + back,
        call_ensures(FilePath::same, (plain, doubled), r),
        call_ensures(FilePath::same, (plain, dotted), s),
    ensures
        r,
        s,
{
    let a = path::pieces(front);
    let b = path::pieces(back);
    let none = Seq::<u8>::empty();
    let dot = seq![46u8];
    path::pieces_are_some(front);
    pieces_of_parts(front, back);
    pieces_of_parts(front, none);
    pieces_of_parts(front + seq![47u8] + none, back);
    assert(doubled@ =~= (front + seq![47u8] + none) + seq![47u8] + back);
    assert(path::pieces(none) =~= seq![none]);
    idle_pieces_do_not_count(a, none, b);
    pieces_of_parts(front, dot);
    pieces_of_parts(front + seq![47u8] + dot, back);
    assert(dotted@ =~= (front + seq![47u8] + dot) + seq![47u8] + back);
    components_of_dot();
    idle_pieces_do_not_count(a, dot, b);
}

/// A separator at the end makes no difference, nor does a `.` behind it.
pub proof fn idle_ends_make_no_difference(
    plain: &FilePath,
    ended: &FilePath,
    dotted: &FilePath,
    r: bool,
    s: bool,
)
    requires
        plain@.len() > 0,
        ended@ == plain@ + seq![47u8],
        dotted@ == plain@ + seq![47u8, 46u8],
        call_ensures(FilePath::same, (plain, ended), r),
        call_ensures(FilePath::same, (plain, dotted), s),
    ensures
        r,
        s,
{
    let a = path::pieces(plain@);
    let none = Seq::<u8>::empty();
    let dot = seq![46u8];
    let nothing = Seq::<Seq<u8>>::empty();
    path::pieces_are_some(plain@);
    pieces_of_parts(plain@, none);
    assert(ended@ =~= plain@ + seq![47u8] + none);
    assert(path::pieces(none) =~= seq![none]);
    idle_pieces_do_not_count(a, none, nothing);
    assert(a + seq![none] + nothing =~= a + seq![none]);
    assert(a + nothing =~= a);
    pieces_of_parts(plain@, dot);
    assert(dotted@ =~= plain@ + seq![47u8] + dot);
    components_of_dot();
    idle_pieces_do_not_count(a, dot, nothing);
    assert(a + seq![dot] + nothing =~= a + seq![dot]);
}

/// A `.` at the very beginning does count: it sets a path apart from the same
/// path without it.
pub proof fn a_leading_dot_counts(name: Seq<u8>, plain: &FilePath, dotted: &FilePath, r: bool)
    requires
        name.len() > 0,
        !name.contains(47),
        name != seq![46u8],
        plain@ == name,
        dotted@ == seq![46u8, 47u8] + name,
        call_ensures(FilePath::same, (plain, dotted), r),
    ensures
        !r,
{
    let none = Seq::<u8>::empty();
    let dot = seq![46u8];
    assert(name.contains(name[0]));
    path::join_adds_a_component(none, name);
    path::join_adds_a_component(dot, name);
    assert(path::join(none, name) =~= name);
    assert(path::join(dot, name) =~= dotted@);
    components_of_dot();
    assert(path::components(plain@).len() == 1);
    assert(path::components(dotted@).len() == 2);
}

/// Bytes are compared whole, and a prefix is compared with the beginning.
pub proof fn bytes_are_compared_one_by_one(a: &[u8], b: &[u8], same: bool, starts: bool)
    requires
        call_ensures(path::same_bytes, (a, b), same),
        call_ensures(path::starts_with, (a, b), starts),
    ensures
        same <==> a@.len() == b@.len() && forall|i: int| 0 <= i < a@.len() ==> a@[i] == b@[i],
        starts <==> b@.len() <= a@.len() && forall|i: int| 0 <= i < b@.len() ==> a@[i] == b@[i],
{
    if a@.len() == b@.len() && (forall|i: int| 0 <= i < a@.len() ==> a@[i] == b@[i]) {
        assert(a@ =~= b@);
    }
    if b@.len() <= a@.len() {
        if forall|i: int| 0 <= i < b@.len() ==> a@[i] == b@[i] {
            assert(a@.subrange(0, b@.len() as int) =~= b@);
        }
        if starts {
            assert forall|i: int| 0 <= i < b@.len() implies a@[i] == b@[i] by {
                assert(a@.subrange(0, b@.len() as int)[i] == a@[i]);
            }
        }
    }
}

/// Whether `p` is the path of the entry called `name` in the directory `dir`.
pub open spec fn is_in(p: Option<FilePath>, dir: Option<Seq<u8>>, name: &str) -> bool {
    match dir {
        Some(d) => p is Some && (p->0)@ == path::join(d, encode_utf8(name@)),
        None => p is None,
    }
}

/// The path of an entry is found in its directory where that is known, and
/// nowhere else.
pub proof fn entries_are_found_in_their_directory(
    dir: Option<FilePath>,
    name: &str,
    r: Option<FilePath>,
)
    requires
        call_ensures(paths::path_in, (dir, name), r),
    ensures
        dir is None <==> r is None,
        dir matches Some(d) ==> (r->0)@ == path::join(d@, encode_utf8(name@)),
{
}

/// An override names each directory outright, and what is kept in it lies in it
/// under its own name, whatever the platform says.
pub proof fn an_override_decides(
    over: FilePath,
    config_dir: Option<FilePath>,
    config_file: Option<FilePath>,
    themes_dir: Option<FilePath>,
    log_file: Option<FilePath>,
    queue_file: Option<FilePath>,
    cache_dir: Option<FilePath>,
    media_dir: Option<FilePath>,
)
    requires
        call_ensures(paths::config_dir, (Some(over),), config_dir),
        call_ensures(paths::config_file, (Some(over),), config_file),
        call_ensures(paths::themes_dir, (Some(over),), themes_dir),
        call_ensures(paths::log_file, (Some(over),), log_file),
        call_ensures(paths::queue_file, (Some(over),), queue_file),
        call_ensures(paths::cache_dir, (Some(over),), cache_dir),
        call_ensures(paths::media_cache_dir, (Some(over),), media_dir),
    ensures
        config_dir is Some && (config_dir->0)@ == over@,
        cache_dir is Some && (cache_dir->0)@ == over@,
        is_in(config_file, Some(over@), "config.toml"),
        is_in(themes_dir, Some(over@), "themes"),
        is_in(log_file, Some(over@), "ferrosonic.log"),
        is_in(queue_file, Some(over@), "queue.json"),
        is_in(media_dir, Some(over@), "media"),
{
}

/// Whether `r` lies under the application's own directory in some directory of
/// the platform, at `name` within it, or the platform knows no directory.
pub open spec fn is_in_app_dir(r: Option<FilePath>, name: &str) -> bool {
    r is None || exists|platform: Seq<u8>|
        (r->0)@ == path::join(
            #[trigger] path::join(platform, encode_utf8("ferrosonic"@)),
            encode_utf8(name@),
        )
}

/// Without an override everything lies in a directory called `ferrosonic` of the
/// platform's.
pub proof fn the_application_has_a_directory_of_its_own(
    config_dir: Option<FilePath>,
    config_file: Option<FilePath>,
    themes_dir: Option<FilePath>,
    log_file: Option<FilePath>,
    queue_file: Option<FilePath>,
    cache_dir: Option<FilePath>,
    media_dir: Option<FilePath>,
)
    requires
        call_ensures(paths::config_dir, (None,), config_dir),
        call_ensures(paths::config_file, (None,), config_file),
        call_ensures(paths::themes_dir, (None,), themes_dir),
        call_ensures(paths::log_file, (None,), log_file),
        call_ensures(paths::queue_file, (None,), queue_file),
        call_ensures(paths::cache_dir, (None,), cache_dir),
        call_ensures(paths::media_cache_dir, (None,), media_dir),
    ensures
        config_dir is Some ==> exists|platform: Seq<u8>|
            (config_dir->0)@ == #[trigger] path::join(platform, encode_utf8("ferrosonic"@)),
        cache_dir is Some ==> exists|platform: Seq<u8>|
            (cache_dir->0)@ == #[trigger] path::join(platform, encode_utf8("ferrosonic"@)),
        is_in_app_dir(config_file, "config.toml"),
        is_in_app_dir(themes_dir, "themes"),
        is_in_app_dir(log_file, "ferrosonic.log"),
        is_in_app_dir(queue_file, "queue.json"),
        is_in_app_dir(media_dir, "media"),
{
}

/// Given the override and the platform's directory, the override wins; without
/// it the directory called `ferrosonic` of the platform's is taken; and without
/// either there is none.
pub proof fn the_override_wins_over_the_platform(
    over: Option<FilePath>,
    platform: Option<FilePath>,
    r: Option<FilePath>,
)
    requires
        call_ensures(paths::app_dir_from, (over, platform), r),
    ensures
        over matches Some(o) ==> r is Some && (r->0)@ == o@,
        over is None ==> is_in(r, path::known(platform), "ferrosonic"),
        over is None && platform is None ==> r is None,
{
}

/// The socket lies in the runtime directory if there is one that exists.
/// Otherwise it lies in the temporary directory, and its name spells the user's
/// ID between `ferrosonic-mpv-` and `.sock`.
pub proof fn the_socket_is_the_users_own(
    runtime: Option<FilePath>,
    stands: bool,
    temp: &FilePath,
    uid: u32,
    r: FilePath,
)
    requires
        call_ensures(paths::mpv_socket_path, (runtime, stands, temp, uid), r),
    ensures
        runtime is Some && stands ==> r@ == path::join(
            (runtime->0)@,
            encode_utf8("ferrosonic-mpv.sock"@),
        ),
        runtime is None || !stands ==> exists|d: Seq<char>| #[trigger]
            text::spells(d, uid as int) && r@ == path::join(
                temp@,
                encode_utf8("ferrosonic-mpv-"@ + d + ".sock"@),
            ),
{
    text::decimal_spells(uid as nat);
    assert(text::spells(crate::text::decimal(uid as nat), uid as int));
}

/// A directory that is there is taken as it is. Where nothing is there it is to
/// be created: the media cache directory for its owner alone, that is with the
/// permissions 448, which are 700 in octal. Where something else is there, or no
/// directory is known, that is an error, and nothing is to be created.
pub proof fn directories_are_created_only_where_nothing_is(
    dir: Option<FilePath>,
    found: Standing,
    media: Result<DirPlan, DirError>,
    config: Result<DirPlan, DirError>,
)
    requires
        call_ensures(paths::ensure_media_cache_dir, (dir, found), media),
        call_ensures(paths::ensure_config_dir, (dir, found), config),
    ensures
        dir is None ==> media == Err::<DirPlan, DirError>(DirError::UnknownCache) && config
            == Err::<DirPlan, DirError>(DirError::UnknownConfig),
        dir matches Some(d) ==> {
            &&& found is Directory ==> media == Ok::<DirPlan, DirError>(DirPlan::Existing(d))
                && config == media
            &&& found is Nothing ==> media == Ok::<DirPlan, DirError>(
                DirPlan::Create { dir: d, mode: Some(448) },
            ) && config == Ok::<DirPlan, DirError>(DirPlan::Create { dir: d, mode: None })
            &&& found is Other ==> media is Err && config == media
        },
{
}

/// Each error about a directory has its words.
pub proof fn directory_errors_have_their_words(e: &DirError, r: String)
    requires
        call_ensures(DirError::message, (e,), r),
    ensures
        *e == DirError::UnknownCache ==> r@ == "Could not determine cache directory"@,
        *e == DirError::UnknownConfig ==> r@ == "Could not determine config directory"@,
        *e == DirError::NotADirectory ==> r@ == "Not a directory"@,
{
}

} // verus!
