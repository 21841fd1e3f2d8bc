//! Laws of the names of cached files.

use crate::media_cache::name;
use crate::media_cache::name::DIGEST_LEN;
use crate::text;
use vstd::prelude::*;
use vstd::utf8::*;

verus! {

/// Whether `c` is an ASCII letter or digit.
pub open spec fn is_alphanumeric(c: char) -> bool {
    48 <= c as int <= 57 || 65 <= c as int <= 90 || 97 <= c as int <= 122
}

/// A suffix that is missing, or holds no ASCII letter or digit, gives `dat`.
pub proof fn a_useless_suffix_gives_the_default(suffix: Option<&str>, r: String)
    requires
        call_ensures(name::sanitize_suffix, (suffix,), r),
        suffix matches Some(s) ==> forall|i: int|
            0 <= i < s@.len() ==> !is_alphanumeric(#[trigger] s@[i]),
    ensures
        r@ == seq!['d', 'a', 't'],
{
    reveal_strlit("dat");
    assert("dat"@ =~= seq!['d', 'a', 't']);
    if let Some(s) = suffix {
        s@.lemma_all_neg_filter_empty(|c: char| name::is_safe(c));
    }
}

/// A suffix of small letters and digits is kept as it is, up to eight
/// characters.
pub proof fn a_plain_suffix_is_kept(s: &str, r: String)
    requires
        call_ensures(name::sanitize_suffix, (Some(s),), r),
        s@.len() > 0,
        forall|i: int|
            0 <= i < s@.len() ==> is_alphanumeric(#[trigger] s@[i]) && !(65 <= s@[i] as int <= 90),
    ensures
        s@.len() <= 8 ==> r@ == s@,
        s@.len() > 8 ==> r@ == s@.take(8),
{
    name::plain_text_is_safe(s@);
    if s@.len() <= 8 {
        assert(r@ =~= s@);
    } else {
        assert(r@ =~= s@.take(8));
    }
}

/// The safe part of text in parts.
proof fn safe_part_of_parts(a: Seq<char>, c: char, b: Seq<char>)
    ensures
        name::safe_part(a + seq![c] + b) == name::safe_part(a) + if name::is_safe(c) {
            seq![c]
        } else {
            Seq::empty()
        } + name::safe_part(b),
        name::safe_part(a + b) == name::safe_part(a) + name::safe_part(b),
{
    let pred = |c: char| name::is_safe(c);
    Seq::filter_distributes_over_add(a + seq![c], b, pred);
    Seq::filter_distributes_over_add(a, seq![c], pred);
    Seq::filter_distributes_over_add(a, b, pred);
    reveal(Seq::filter);
    assert(seq![c].drop_last() =~= Seq::<char>::empty());
    assert(seq![c].drop_last().filter(pred) =~= Seq::<char>::empty());
    assert(seq![c].filter(pred) =~= if name::is_safe(c) {
        seq![c]
    } else {
        Seq::<char>::empty()
    });
}

/// A character that is no ASCII letter or digit makes no difference, wherever it
/// stands.
pub proof fn other_characters_are_left_out(
    front: Seq<char>,
    c: char,
    back: Seq<char>,
    with: &str,
    without: &str,
    r: String,
    q: String,
)
    requires
        !is_alphanumeric(c),
        with@ == front + seq![c] + back,
        without@ == front + back,
        call_ensures(name::sanitize_suffix, (Some(with),), r),
        call_ensures(name::sanitize_suffix, (Some(without),), q),
    ensures
        r@ == q@,
{
    safe_part_of_parts(front, c, back);
    assert(name::safe_part(with@) =~= name::safe_part(without@));
}

/// A capital letter counts as the small one, wherever it stands.
pub proof fn capitals_are_made_small(
    front: Seq<char>,
    capital: char,
    small: char,
    back: Seq<char>,
    with: &str,
    without: &str,
    r: String,
    q: String,
)
    requires
        65 <= capital as int <= 90,
        small as int == capital as int + 32,
        with@ == front + seq![capital] + back,
        without@ == front + seq![small] + back,
        call_ensures(name::sanitize_suffix, (Some(with),), r),
        call_ensures(name::sanitize_suffix, (Some(without),), q),
    ensures
        r@ == q@,
{
    safe_part_of_parts(front, capital, back);
    safe_part_of_parts(front, small, back);
    let a = name::safe_part(with@);
    let b = name::safe_part(without@);
    assert(name::lower(capital) == small && name::lower(small) == small);
    assert(a.len() == b.len());
    assert forall|i: int| 0 <= i < a.len() implies name::lower(#[trigger] a[i]) == name::lower(
        b[i],
    ) by {}
    assert(name::cleaned(with@) =~= name::cleaned(without@));
}

/// The digest of a song is the MD5 digest of the UTF-8 bytes of its ID.
pub proof fn songs_are_known_by_their_digest(song_id: &str, digest: [u8; DIGEST_LEN])
    requires
        call_ensures(name::song_digest, (song_id,), digest),
    ensures
        digest@ == name::md5_of(encode_utf8(song_id@)),
        digest@.len() == 16,
{
}

/// The name of a cached file is the digest in hexadecimal, a dot and the
/// sanitized suffix.
pub proof fn files_are_named_after_digest_and_suffix(
    digest: &[u8; DIGEST_LEN],
    bytes: &[u8],
    suffix: Option<&str>,
    hex: String,
    clean: String,
    r: String,
)
    requires
        bytes@ == digest@,
        call_ensures(text::hex_text, (bytes,), hex),
        call_ensures(name::sanitize_suffix, (suffix,), clean),
        call_ensures(name::entry_file_name, (digest, suffix), r),
    ensures
        r@ == hex@ + seq!['.'] + clean@,
        r@ == name::entry_name(digest@, name::reported(suffix)),
{
    assert(r@ =~= hex@ + seq!['.'] + clean@);
}

/// The bytes of `.download-`.
pub open spec fn download_bytes() -> Seq<u8> {
    seq![46u8, 100u8, 111u8, 119u8, 110u8, 108u8, 111u8, 97u8, 100u8, 45u8]
}

/// Whether `name` begins with `.download-`.
pub open spec fn is_download(name: Seq<u8>) -> bool {
    name.len() >= 10 && name.take(10) == download_bytes()
}

/// The names of in-progress downloads, and no others, begin with `.download-`.
pub proof fn temporaries_begin_so(name: Seq<u8>)
    ensures
        name::is_temp(name) <==> is_download(name),
{
    let prefix = ".download-"@;
    reveal_strlit(".download-");
    assert(is_ascii_chars(prefix));
    is_ascii_chars_encode_utf8(prefix);
    assert(encode_utf8(prefix) =~= download_bytes());
    if name.len() >= 10 {
        assert(name.take(10) =~= name.subrange(0, 10));
    }
}

/// A name is taken for that of an in-progress download exactly if it begins with
/// `.download-`.
pub proof fn downloads_are_known_by_their_name(bytes: &[u8], r: bool)
    requires
        call_ensures(name::is_temp_name, (bytes,), r),
    ensures
        r <==> is_download(bytes@),
{
    temporaries_begin_so(bytes@);
}

} // verus!
