//! The names of cached files.
//!
//! A song ID is hashed rather than used verbatim: IDs are opaque strings that
//! the server chooses and may contain `/`, `..`, or characters that the local
//! filesystem rejects. A hash makes every key a safe, fixed-width, single path
//! component.

use crate::path;
use crate::text;
use vstd::prelude::*;
use vstd::utf8::*;

verus! {

/// Extension used when the server reports no file suffix for a track.
pub const DEFAULT_SUFFIX: &'static str = "dat";

/// Prefix of the names of in-progress downloads, so that they are left out of
/// usage accounting and eviction and can be swept if a crash leaks them.
pub const TEMP_PREFIX: &'static str = ".download-";

/// Most characters that an extension has.
pub const SUFFIX_LIMIT: usize = 8;

/// Bytes in a digest of a song ID.
pub const DIGEST_LEN: usize = 16;

/// Whether `c` may stand in an extension: an ASCII letter or digit.
pub open spec fn is_safe(c: char) -> bool {
    ('0' <= c && c <= '9') || ('a' <= c && c <= 'z') || ('A' <= c && c <= 'Z')
}

/// `c` with an ASCII capital letter made small.
pub open spec fn lower(c: char) -> char {
    if 'A' <= c && c <= 'Z' {
        (c as nat + 32) as char
    } else {
        c
    }
}

/// The characters of `suffix` that may stand in an extension, in their order.
pub open spec fn safe_part(suffix: Seq<char>) -> Seq<char> {
    suffix.filter(|c: char| is_safe(c))
}

/// The first `SUFFIX_LIMIT` safe characters of `suffix`, made small.
pub open spec fn cleaned(suffix: Seq<char>) -> Seq<char> {
    let safe = safe_part(suffix);
    let kept = if safe.len() <= SUFFIX_LIMIT {
        safe
    } else {
        safe.take(SUFFIX_LIMIT as int)
    };
    kept.map_values(|c: char| lower(c))
}

/// The extension for a reported suffix.
pub open spec fn extension(suffix: Option<Seq<char>>) -> Seq<char> {
    match suffix {
        Some(s) => if cleaned(s).len() == 0 {
            DEFAULT_SUFFIX@
        } else {
            cleaned(s)
        },
        None => DEFAULT_SUFFIX@,
    }
}

/// The view of a suffix that the server may not have reported.
pub open spec fn reported(suffix: Option<&str>) -> Option<Seq<char>> {
    match suffix {
        Some(s) => Some(s@),
        None => None,
    }
}

/// The file name for a digest of a song ID and the suffix of the track.
pub open spec fn entry_name(digest: Seq<u8>, suffix: Option<Seq<char>>) -> Seq<char> {
    text::hex(digest).push('.') + extension(suffix)
}

/// Whether `name` is the name of an in-progress download.
pub open spec fn is_temp(name: Seq<u8>) -> bool {
    encode_utf8(TEMP_PREFIX@).is_prefix_of(name)
}

/// Whether `c` is a digit or a small letter.
pub open spec fn is_plain(c: char) -> bool {
    ('0' <= c && c <= '9') || ('a' <= c && c <= 'z')
}

/// What `md5::compute` returns for `data`: the MD5 digest of its bytes.
pub uninterp spec fn md5_of(data: Seq<u8>) -> Seq<u8>;

/// Calls `md5::compute`, whose result depends on the bytes of `data` alone;
/// that result is called `md5_of` here, and is `DIGEST_LEN` bytes long. Nothing
/// is claimed of which bytes they are.
#[verifier::external_body]
fn md5_digest(data: &[u8]) -> (digest: [u8; DIGEST_LEN])
    ensures
        digest@ == md5_of(data@),
{
    md5::compute(data).0
}

/// Whether `c` may stand in an extension.
fn is_safe_char(c: char) -> (r: bool)
    ensures
        r == is_safe(c),
{
    ('0' <= c && c <= '9') || ('a' <= c && c <= 'z') || ('A' <= c && c <= 'Z')
}

/// `c` made small.
fn lower_char(c: char) -> (r: char)
    requires
        is_safe(c),
    ensures
        r == lower(c),
{
    if 'A' <= c && c <= 'Z' {
        ((c as u8) + 32) as char
    } else {
        c
    }
}

/// The first `SUFFIX_LIMIT` safe characters of `s`, made small.
fn clean(s: &str) -> (out: String)
    ensures
        out@ == cleaned(s@),
{
    let mut out = String::new();
    let mut kept: usize = 0;
    let mut rest = s.chars();
    let ghost mut i: int = 0;
    while kept < SUFFIX_LIMIT
        invariant
            0 <= i <= s@.len(),
            vstd::std_specs::iter::IteratorSpec::remaining(&rest) == s@.skip(i),
            kept == out@.len(),
            kept == safe_part(s@.take(i)).len(),
            kept <= SUFFIX_LIMIT,
            out@ == safe_part(s@.take(i)).map_values(|c: char| lower(c)),
        ensures
            i == s@.len() || kept == SUFFIX_LIMIT,
        decreases s@.len() - i,
    {
        match rest.next() {
            Some(c) => {
                proof {
                    safe_part_step(s@, i);
                    assert(c == s@[i]);
                    assert(s@.skip(i).drop_first() =~= s@.skip(i + 1));
                    i = i + 1;
                }
                if is_safe_char(c) {
                    out.push(lower_char(c));
                    kept = kept + 1;
                }
                assert(out@ =~= safe_part(s@.take(i)).map_values(|c: char| lower(c)));
            },
            None => {
                break;
            },
        }
    }
    proof {
        safe_part_prefix(s@, i);
        assert(s@.take(s@.len() as int) =~= s@);
        assert(out@ =~= cleaned(s@));
    }
    out
}

/// Taking one more character adds it to the safe part exactly if it is safe.
proof fn safe_part_step(s: Seq<char>, i: int)
    requires
        0 <= i < s.len(),
    ensures
        safe_part(s.take(i + 1)) == if is_safe(s[i]) {
            safe_part(s.take(i)).push(s[i])
        } else {
            safe_part(s.take(i))
        },
{
    reveal(Seq::filter);
    assert(s.take(i + 1).drop_last() =~= s.take(i));
}

/// The safe part of a prefix is a prefix of the safe part.
proof fn safe_part_prefix(s: Seq<char>, i: int)
    requires
        0 <= i <= s.len(),
    ensures
        safe_part(s.take(i)).is_prefix_of(safe_part(s)),
{
    assert(s.take(i).is_prefix_of(s));
    s.take(i).lemma_filter_monotone(s, |c: char| is_safe(c));
}

/// Reduces a server-reported file suffix to a safe, bounded extension.
///
/// The extension is cosmetic for playback, but keeping the real one makes the
/// cache directory legible and helps the player with formats that have no
/// distinctive first bytes.
pub fn sanitize_suffix(suffix: Option<&str>) -> (r: String)
    ensures
        r@ == extension(reported(suffix)),
{
    let mut out = String::new();
    if let Some(s) = suffix {
        out = clean(s);
    }
    if out.as_str().is_empty() {
        DEFAULT_SUFFIX.to_owned()
    } else {
        out
    }
}

/// The digest that names the cached file of a song.
pub fn song_digest(song_id: &str) -> (digest: [u8; DIGEST_LEN])
    ensures
        digest@ == md5_of(encode_utf8(song_id@)),
{
    md5_digest(song_id.as_bytes())
}

/// The file name for a digest of a song ID and the suffix of the track.
pub fn entry_file_name(digest: &[u8; DIGEST_LEN], suffix: Option<&str>) -> (r: String)
    ensures
        r@ == entry_name(digest@, reported(suffix)),
{
    let mut out = text::hex_text(digest.as_slice());
    out.push('.');
    let suffix_text = sanitize_suffix(suffix);
    out.append(suffix_text.as_str());
    out
}

/// Whether `name` is the name of an in-progress download.
pub fn is_temp_name(name: &[u8]) -> (r: bool)
    ensures
        r == is_temp(name@),
{
    path::starts_with(name, TEMP_PREFIX.as_bytes())
}

/// An extension has between one and `SUFFIX_LIMIT` characters, all of them
/// digits or small letters, whatever the server reported.
pub proof fn extension_is_plain(suffix: Option<Seq<char>>)
    ensures
        1 <= extension(suffix).len() <= SUFFIX_LIMIT,
        forall|i: int|
            0 <= i < extension(suffix).len() ==> is_plain(#[trigger] extension(suffix)[i]),
{
    reveal_strlit("dat");
    if let Some(s) = suffix {
        let pred = |c: char| is_safe(c);
        assert forall|i: int| 0 <= i < cleaned(s).len() implies is_plain(
            #[trigger] cleaned(s)[i],
        ) by {
            s.lemma_filter_pred(pred, i);
            assert(is_safe(safe_part(s)[i]));
        }
    }
}

/// Sanitizing an extension again leaves it as it is.
pub proof fn sanitizing_is_idempotent(suffix: Option<Seq<char>>)
    ensures
        extension(Some(extension(suffix))) == extension(suffix),
{
    extension_is_plain(suffix);
    let e = extension(suffix);
    plain_text_is_safe(e);
    assert(e.map_values(|c: char| lower(c)) =~= e);
}

/// Nothing is left out of text made of digits and small letters.
pub proof fn plain_text_is_safe(s: Seq<char>)
    requires
        forall|i: int| 0 <= i < s.len() ==> is_plain(#[trigger] s[i]),
    ensures
        safe_part(s) == s,
    decreases s.len(),
{
    reveal(Seq::filter);
    if s.len() > 0 {
        plain_text_is_safe(s.drop_last());
        assert(is_plain(s[s.len() - 1]));
        assert(s.drop_last().push(s.last()) =~= s);
    }
}

/// Hexadecimal text holds digits and small letters only.
proof fn hex_is_plain(digest: Seq<u8>)
    ensures
        forall|i: int|
            0 <= i < text::hex(digest).len() ==> is_plain(#[trigger] text::hex(digest)[i]),
{
    assert forall|i: int| 0 <= i < text::hex(digest).len() implies is_plain(
        #[trigger] text::hex(digest)[i],
    ) by {
        let b = digest[i / 2] as nat;
        assert(b < 256);
        assert(b / 16 < 16 && b % 16 < 16);
    }
}

/// The name of a cached file is plain ASCII: twice as many hexadecimal digits
/// as the digest has bytes, a dot, and the extension.
pub proof fn entry_name_shape(digest: Seq<u8>, suffix: Option<Seq<char>>)
    ensures
        entry_name(digest, suffix).len() == 2 * digest.len() + 1 + extension(suffix).len(),
        forall|i: int|
            0 <= i < entry_name(digest, suffix).len() && i != 2 * digest.len() ==> is_plain(
                #[trigger] entry_name(digest, suffix)[i],
            ),
        entry_name(digest, suffix)[2 * digest.len() as int] == '.',
        is_ascii_chars(entry_name(digest, suffix)),
{
    hex_is_plain(digest);
    extension_is_plain(suffix);
    let name = entry_name(digest, suffix);
    let n: int = 2 * digest.len() as int;
    assert forall|i: int| 0 <= i < name.len() && i != n implies is_plain(#[trigger] name[i]) by {
        if i < n {
            assert(name[i] == text::hex(digest)[i]);
        } else {
            assert(name[i] == extension(suffix)[i - n - 1]);
        }
    }
    assert(name[n] == '.');
    assert forall|i: int| 0 <= i < name.len() implies '\0' <= #[trigger] name[i] <= '\u{7f}' by {
        if i != n {
            assert(is_plain(name[i]));
        }
    }
}

/// Whatever the song ID and the suffix, the name of a cached file is a single
/// path component, and is never taken for an in-progress download.
pub proof fn entry_name_is_confined(digest: Seq<u8>, suffix: Option<Seq<char>>)
    requires
        digest.len() == DIGEST_LEN,
    ensures
        path::is_component(encode_utf8(entry_name(digest, suffix))),
        !is_temp(encode_utf8(entry_name(digest, suffix))),
{
    let name = entry_name(digest, suffix);
    let bytes = encode_utf8(name);
    entry_name_shape(digest, suffix);
    assert forall|i: int| 0 <= i < name.len() implies '\0' < #[trigger] name[i] <= '\u{7f}'
        && name[i] != '/' by {
        if i != 2 * digest.len() {
            assert(is_plain(name[i]));
        }
    }
    path::plain_text_is_component(name);
    is_ascii_chars_encode_utf8(name);
    assert(is_plain(name[0]));
    assert(bytes[0] == name[0] as u8);
    let prefix = encode_utf8(TEMP_PREFIX@);
    reveal_strlit(".download-");
    assert(is_ascii_chars(TEMP_PREFIX@));
    is_ascii_chars_encode_utf8(TEMP_PREFIX@);
    assert(prefix[0] == TEMP_PREFIX@[0] as u8);
    if is_temp(bytes) {
        assert(bytes.subrange(0, prefix.len() as int)[0] == bytes[0]);
    }
}

/// Two tracks share a file name exactly if their IDs share a digest and their
/// suffixes an extension.
pub proof fn entry_names_agree(
    d1: Seq<u8>,
    s1: Option<Seq<char>>,
    d2: Seq<u8>,
    s2: Option<Seq<char>>,
)
    requires
        d1.len() == DIGEST_LEN,
        d2.len() == DIGEST_LEN,
    ensures
        entry_name(d1, s1) == entry_name(d2, s2) <==> d1 == d2 && extension(s1) == extension(s2),
{
    let a = entry_name(d1, s1);
    let b = entry_name(d2, s2);
    let n: int = 2 * DIGEST_LEN as int;
    assert(a.take(n) =~= text::hex(d1));
    assert(b.take(n) =~= text::hex(d2));
    assert(a.skip(n + 1) =~= extension(s1));
    assert(b.skip(n + 1) =~= extension(s2));
    if a == b {
        text::hex_is_injective(d1, d2);
    }
}

} // verus!
