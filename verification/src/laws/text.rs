//! Laws of decimal and hexadecimal text, of byte counts and of messages.

use crate::media_cache::error::{IoFailure, MediaCacheError};
use crate::media_cache::size;
use crate::text;
use vstd::prelude::*;

verus! {

/// The number that the decimal digits `d` spell.
pub open spec fn number(d: Seq<char>) -> int
    decreases d.len(),
{
    if d.len() == 0 {
        0
    } else {
        10 * number(d.drop_last()) + (d.last() as int - 48)
    }
}

/// Whether `d` spells `n` in decimal, without needless zeros.
pub open spec fn spells(d: Seq<char>, n: int) -> bool {
    &&& d.len() > 0
    &&& forall|i: int| 0 <= i < d.len() ==> 48 <= #[trigger] d[i] as int <= 57
    &&& d.len() > 1 ==> d[0] as int != 48
    &&& number(d) == n
}

/// The value of a small hexadecimal digit.
pub open spec fn hex_value(c: char) -> int {
    if 48 <= c as int <= 57 {
        c as int - 48
    } else if 97 <= c as int <= 102 {
        c as int - 87
    } else {
        -1
    }
}

/// What is appended for a number spells it.
pub proof fn decimal_spells(n: nat)
    ensures
        spells(text::decimal(n), n as int),
        n == 0 ==> text::decimal(n)[0] as int == 48,
        n > 0 ==> text::decimal(n)[0] as int != 48,
    decreases n,
{
    let d = text::decimal(n);
    if n >= 10 {
        decimal_spells(n / 10);
        assert(d.drop_last() =~= text::decimal(n / 10));
        assert(d.last() as int == 48 + n % 10);
        assert(d[0] == text::decimal(n / 10)[0]);
        assert forall|i: int| 0 <= i < d.len() implies 48 <= #[trigger] d[i] as int <= 57 by {
            if i < d.len() - 1 {
                assert(d[i] == text::decimal(n / 10)[i]);
            }
        }
    } else {
        assert(d.drop_last() =~= Seq::empty());
        assert(d.last() as int == 48 + n);
        assert(number(d.drop_last()) == 0);
    }
}

/// Appending a number appends its decimal digits, and nothing else changes.
pub proof fn numbers_are_appended_in_decimal(out: &mut String, n: u64)
    requires
        call_ensures(text::push_decimal, (out, n), ()),
    ensures
        exists|d: Seq<char>| #[trigger] spells(d, n as int) && final(out)@ == old(out)@ + d,
{
    decimal_spells(n as nat);
    assert(spells(text::decimal(n as nat), n as int));
}

/// Hexadecimal text has two small digits for each byte, which give the byte
/// back.
pub proof fn bytes_are_written_in_hexadecimal(bytes: &[u8], out: String)
    requires
        call_ensures(text::hex_text, (bytes,), out),
    ensures
        out@.len() == 2 * bytes@.len(),
        forall|k: int|
            0 <= k < bytes@.len() ==> {
                &&& 0 <= hex_value(out@[2 * k])
                &&& 0 <= hex_value(out@[2 * k + 1])
                &&& 16 * hex_value(out@[2 * k]) + hex_value(out@[2 * k + 1])
                    == #[trigger] bytes@[k]
            },
{
    assert forall|k: int| 0 <= k < bytes@.len() implies {
        &&& 0 <= hex_value(out@[2 * k])
        &&& 0 <= hex_value(out@[2 * k + 1])
        &&& 16 * hex_value(out@[2 * k]) + hex_value(out@[2 * k + 1]) == #[trigger] bytes@[k]
    } by {
        let b = bytes@[k] as nat;
        assert((2 * k) / 2 == k && (2 * k) % 2 == 0);
        assert((2 * k + 1) / 2 == k && (2 * k + 1) % 2 == 1);
        assert(out@[2 * k] == text::digit(b / 16));
        assert(out@[2 * k + 1] == text::digit(b % 16));
    }
}

/// Below 1073741824 bytes, a size reads as the whole megabytes of 1048576 bytes
/// that it holds; from there on as gigabytes with the tenths that it holds, none
/// of them rounded up.
pub proof fn sizes_read_as_what_they_hold(bytes: u64, r: String)
    requires
        call_ensures(size::format_size, (bytes,), r),
    ensures
        bytes < 1073741824 ==> exists|d: Seq<char>, n: int| #[trigger]
            spells(d, n) && r@ == d + seq![' ', 'M', 'B'] && n * 1048576 <= bytes < (n + 1)
                * 1048576,
        bytes >= 1073741824 ==> exists|d: Seq<char>, n: int, t: Seq<char>, k: int|
            #![trigger spells(d, n), spells(t, k)]
            spells(d, n) && spells(t, k) && t.len() == 1 && r@ == d + seq!['.'] + t + seq![
                ' ',
                'G',
                'B',
            ] && (10 * n + k) * 1073741824 <= 10 * bytes < (10 * n + k + 1) * 1073741824,
{
    reveal_strlit(" MB");
    reveal_strlit(" GB");
    reveal_strlit(".");
    assert(" MB"@ =~= seq![' ', 'M', 'B']);
    assert(" GB"@ =~= seq![' ', 'G', 'B']);
    assert("."@ =~= seq!['.']);
    if bytes < 1073741824 {
        let n: nat = bytes as nat / 1048576;
        decimal_spells(n);
        assert(spells(text::decimal(n), n as int));
    } else {
        let n: nat = bytes as nat / 1073741824;
        let k: nat = (bytes as nat % 1073741824) * 10 / 1073741824;
        assert(k < 10);
        decimal_spells(n);
        decimal_spells(k);
        assert(text::decimal(k).len() == 1);
        assert(spells(text::decimal(n), n as int) && spells(text::decimal(k), k as int));
    }
}

/// Each failure of the filesystem has its words, and only a stall is a timeout.
pub proof fn failures_have_their_words(f: &IoFailure, words: String, late: bool)
    requires
        call_ensures(IoFailure::message, (f,), words),
        call_ensures(IoFailure::is_timeout, (f,), late),
    ensures
        *f == IoFailure::Stalled ==> words@ == "media download stalled"@ && late,
        *f matches IoFailure::Reported(s) ==> words@ == s@ && !late,
{
}

/// Each error has its words, with the numbers of the error in decimal and in
/// their places.
pub proof fn errors_have_their_words(e: &MediaCacheError, r: String)
    requires
        call_ensures(MediaCacheError::message, (e,), r),
    ensures
        match *e {
            MediaCacheError::Disabled => r@ == "media cache is disabled"@,
            MediaCacheError::AlreadyInFlight => r@
                == "a download for this track is already in flight"@,
            MediaCacheError::Io(IoFailure::Stalled) => r@ == "media cache IO error: "@
                + "media download stalled"@,
            MediaCacheError::Io(IoFailure::Reported(s)) => r@ == "media cache IO error: "@ + s@,
            MediaCacheError::Http(s) => r@ == "media download failed: "@ + s@,
            MediaCacheError::Status(code) => exists|d: Seq<char>| #[trigger]
                spells(d, code as int) && r@ == "server returned HTTP "@ + d,
            MediaCacheError::Truncated { expected, got } => exists|d: Seq<char>, g: Seq<char>|
                #![trigger spells(d, expected as int), spells(g, got as int)]
                spells(d, expected as int) && spells(g, got as int) && r@
                    == "download truncated: expected "@ + d + " bytes, got "@ + g,
            MediaCacheError::TooLarge { size, capacity } => exists|d: Seq<char>, c: Seq<char>|
                #![trigger spells(d, size as int), spells(c, capacity as int)]
                spells(d, size as int) && spells(c, capacity as int) && r@ == "track is "@ + d
                    + " bytes, larger than the "@ + c + " byte cache"@,
            MediaCacheError::Cancelled => r@ == "download cancelled"@,
        },
{
    match *e {
        MediaCacheError::Status(code) => {
            decimal_spells(code as nat);
            assert(spells(text::decimal(code as nat), code as int));
        },
        MediaCacheError::Truncated { expected, got } => {
            decimal_spells(expected as nat);
            decimal_spells(got as nat);
            assert(spells(text::decimal(expected as nat), expected as int));
            assert(spells(text::decimal(got as nat), got as int));
        },
        MediaCacheError::TooLarge { size, capacity } => {
            decimal_spells(size as nat);
            decimal_spells(capacity as nat);
            assert(spells(text::decimal(size as nat), size as int));
            assert(spells(text::decimal(capacity as nat), capacity as int));
        },
        _ => {},
    }
}

} // verus!
