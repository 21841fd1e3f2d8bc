//! Human-readable byte counts.

use crate::text;
use vstd::prelude::*;

verus! {

/// Bytes in a megabyte.
pub const MB: u64 = 1048576;

/// Bytes in a gigabyte.
pub const GB: u64 = 1073741824;

/// Whole megabytes below a gigabyte; from there on gigabytes with one decimal,
/// cut off rather than rounded.
pub open spec fn size_text(bytes: nat) -> Seq<char> {
    if bytes >= GB {
        text::decimal(bytes / (GB as nat)) + "."@ + text::decimal(
            (bytes % (GB as nat)) * 10 / (GB as nat),
        ) + " GB"@
    } else {
        text::decimal(bytes / (MB as nat)) + " MB"@
    }
}

/// Human-readable byte count for UI readouts.
pub fn format_size(bytes: u64) -> (r: String)
    requires
        bytes * 10 <= u64::MAX,
    ensures
        r@ == size_text(bytes as nat),
{
    let mut out = String::new();
    if bytes >= GB {
        let tenths: u64 = bytes * 10 / GB;
        assert(tenths / 10 == bytes / GB);
        assert(tenths % 10 == (bytes % GB) * 10 / (GB as int));
        text::push_decimal(&mut out, tenths / 10);
        out.append(".");
        text::push_decimal(&mut out, tenths % 10);
        out.append(" GB");
    } else {
        text::push_decimal(&mut out, bytes / MB);
        out.append(" MB");
    }
    assert(out@ =~= size_text(bytes as nat));
    out
}

} // verus!
