//! Kernel uevents: what a datagram says of the USB power supply.

use vstd::prelude::*;
use vstd::slice::slice_subrange;
use vstd::string::*;

use crate::text::same_bytes;

verus! {

/// Whether a byte ends a field of a datagram: NUL or a line feed.
pub open spec fn is_separator(byte: u8) -> bool {
    byte == 0 || byte == 10
}

/// Whether the bytes from `start` up to `end` are one field of `data`: a longest
/// run without a separator. A run may be empty.
pub open spec fn is_field(data: Seq<u8>, start: int, end: int) -> bool {
    &&& 0 <= start <= end <= data.len()
    &&& start == 0 || is_separator(data[start - 1])
    &&& end == data.len() || is_separator(data[end])
    &&& forall|i: int| start <= i < end ==> !is_separator(#[trigger] data[i])
}

/// Whether some field of `data` is `text`.
pub open spec fn has_field(data: Seq<u8>, text: Seq<u8>) -> bool {
    exists|start: int, end: int|
        #[trigger] is_field(data, start, end) && data.subrange(start, end) == text
}

/// Whether the bytes from `start` up to `end` are a field that begins with
/// `prefix`.
pub open spec fn is_prefixed_field(
    data: Seq<u8>,
    prefix: Seq<u8>,
    start: int,
    end: int,
) -> bool {
    is_field(data, start, end) && prefix.is_prefix_of(data.subrange(start, end))
}

/// Whether some field of `data` begins with `prefix` and what follows the prefix
/// in the first such field is `value`.
pub open spec fn first_value_is(data: Seq<u8>, prefix: Seq<u8>, value: Seq<u8>) -> bool {
    exists|start: int, end: int|
        {
            &&& #[trigger] is_prefixed_field(data, prefix, start, end)
            &&& data.subrange(start, end) == prefix + value
            &&& forall|s: int, e: int|
                #[trigger] is_prefixed_field(data, prefix, s, e) ==> start <= s
        }
}

/// Whether a datagram tells that the USB power supply went offline: one field
/// names that supply, and the first field that gives the online state gives 0.
/// Bytes that are not text are in no such field.
pub open spec fn usb_offline(data: Seq<u8>) -> bool {
    &&& has_field(data, "POWER_SUPPLY_NAME=usb".spec_bytes())
    &&& first_value_is(data, "POWER_SUPPLY_ONLINE=".spec_bytes(), "0".spec_bytes())
}

/// Where the field that begins at `start` ends.
fn field_end(data: &[u8], start: usize) -> (end: usize)
    requires
        start <= data@.len(),
        start == 0 || is_separator(data@[start - 1]),
    ensures
        is_field(data@, start as int, end as int),
{
    let mut end: usize = start;
    while end < data.len() && data[end] != 0 && data[end] != 10
        invariant
            start <= end <= data@.len(),
            forall|i: int| start <= i < end ==> !is_separator(#[trigger] data@[i]),
        decreases data@.len() - end,
    {
        end += 1;
    }
    end
}

/// Whether `field` begins with `prefix`.
fn has_prefix(field: &[u8], prefix: &[u8]) -> (has: bool)
    ensures
        has == prefix@.is_prefix_of(field@),
{
    if field.len() < prefix.len() {
        return false;
    }
    let head = slice_subrange(field, 0, prefix.len());
    same_bytes(head, prefix)
}

/// A field is settled by where it begins, and between the ends of a field no
/// other field begins.
proof fn lemma_fields_apart(data: Seq<u8>, start: int, end: int, s: int, e: int)
    requires
        is_field(data, start, end),
        is_field(data, s, e),
    ensures
        s == start ==> e == end,
        !(start < s <= end),
{
    if start < s <= end {
        assert(!is_separator(data[s - 1]));
    }
    if s == start && e < end {
        assert(!is_separator(data[e]));
    }
    if s == start && end < e {
        assert(!is_separator(data[end]));
    }
}

/// Whether a datagram tells that the USB power supply went offline.
pub fn usb_went_offline(data: &[u8]) -> (offline: bool)
    ensures
        offline == usb_offline(data@),
{
    let name = "POWER_SUPPLY_NAME=usb".as_bytes();
    let prefix = "POWER_SUPPLY_ONLINE=".as_bytes();
    let zero = "0".as_bytes();
    let mut start: usize = 0;
    let mut named: bool = false;
    let mut valued: bool = false;
    let mut is_zero: bool = false;
    loop
        invariant
            start <= data@.len(),
            start == 0 || is_separator(data@[start - 1]),
            name@ == "POWER_SUPPLY_NAME=usb".spec_bytes(),
            prefix@ == "POWER_SUPPLY_ONLINE=".spec_bytes(),
            zero@ == "0".spec_bytes(),
            named == exists|s: int, e: int|
                s < start && #[trigger] is_field(data@, s, e) && data@.subrange(s, e) == name@,
            !valued ==> forall|s: int, e: int|
                #[trigger] is_prefixed_field(data@, prefix@, s, e) ==> start <= s,
            valued ==> exists|s: int, e: int|
                {
                    &&& s < start
                    &&& #[trigger] is_prefixed_field(data@, prefix@, s, e)
                    &&& is_zero == (data@.subrange(s, e) == prefix@ + zero@)
                    &&& forall|s2: int, e2: int|
                        #[trigger] is_prefixed_field(data@, prefix@, s2, e2) ==> s <= s2
                },
        decreases data@.len() - start,
    {
        let end = field_end(data, start);
        let field = slice_subrange(data, start, end);
        if same_bytes(field, name) {
            named = true;
        }
        if !valued && has_prefix(field, prefix) {
            valued = true;
            is_zero = same_bytes(slice_subrange(field, prefix.len(), field.len()), zero);
            proof {
                assert(is_prefixed_field(data@, prefix@, start as int, end as int));
                let rest = field@.subrange(prefix@.len() as int, field@.len() as int);
                assert(field@ == prefix@ + rest);
                if field@ == prefix@ + zero@ {
                    assert(rest == (prefix@ + zero@).subrange(
                        prefix@.len() as int,
                        (prefix@ + zero@).len() as int,
                    ));
                    assert(rest == zero@);
                }
            }
        }
        proof {
            assert forall|s: int, e: int| #[trigger] is_field(data@, s, e) && s <= end implies s
                < start || (s == start && e == end) by {
                lemma_fields_apart(data@, start as int, end as int, s, e);
            }
            assert(named == exists|s: int, e: int|
                s <= end && #[trigger] is_field(data@, s, e) && data@.subrange(s, e) == name@);
            assert(!valued ==> forall|s: int, e: int|
                #[trigger] is_prefixed_field(data@, prefix@, s, e) ==> end < s);
        }
        if end == data.len() {
            return named && valued && is_zero;
        }
        start = end + 1;
    }
}

} // verus!
