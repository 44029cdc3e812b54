//! What a datagram says, told from its fields.

use vstd::prelude::*;
use vstd::string::*;

verus! {

/// The fields of a datagram: what stands between NULs and line feeds.
pub open spec fn fields(data: Seq<u8>) -> Seq<Seq<u8>>
    decreases data.len(),
{
    if data.len() == 0 {
        seq![Seq::empty()]
    } else {
        let before = fields(data.drop_last());
        if data.last() == 0 || data.last() == 10 {
            before.push(Seq::empty())
        } else {
            before.drop_last().push(before.last().push(data.last()))
        }
    }
}

/// Where the fields of a datagram begin.
spec fn starts(data: Seq<u8>) -> Seq<int>
    decreases data.len(),
{
    if data.len() == 0 {
        seq![0]
    } else if data.last() == 0 || data.last() == 10 {
        starts(data.drop_last()).push(data.len() as int)
    } else {
        starts(data.drop_last())
    }
}

/// Whether the fields and where they begin are those that stand in the datagram.
spec fn are_fields(data: Seq<u8>) -> bool {
    let f = fields(data);
    let s = starts(data);
    &&& f.len() == s.len() > 0
    &&& s.last() + f.last().len() == data.len()
    &&& forall|i: int|
        0 <= i < f.len() ==> {
            &&& #[trigger] crate::uevent::is_field(data, s[i], s[i] + f[i].len())
            &&& data.subrange(s[i], s[i] + f[i].len()) == f[i]
        }
    &&& forall|i: int, j: int| 0 <= i < j < s.len() ==> #[trigger] s[i] < #[trigger] s[j]
    &&& forall|b: int, e: int| #[trigger]
        crate::uevent::is_field(data, b, e) ==> exists|i: int|
            0 <= i < f.len() && b == #[trigger] s[i] && e == s[i] + f[i].len()
}

proof fn lemma_field_before_separator(data: Seq<u8>, b: int, e: int)
    requires
        data.len() > 0,
        data.last() == 0 || data.last() == 10,
        b < data.len(),
    ensures
        crate::uevent::is_field(data, b, e) <==> crate::uevent::is_field(data.drop_last(), b, e),
        0 <= b <= e < data.len() ==> data.subrange(b, e) == data.drop_last().subrange(b, e),
{
    let rest = data.drop_last();
    if crate::uevent::is_field(data, b, e) {
        if e == data.len() {
            assert(!crate::uevent::is_separator(data[data.len() - 1]));
        }
        assert forall|i: int| b <= i < e implies !crate::uevent::is_separator(
            #[trigger] rest[i],
        ) by {
            assert(rest[i] == data[i]);
        }
    }
    if crate::uevent::is_field(rest, b, e) {
        assert forall|i: int| b <= i < e implies !crate::uevent::is_separator(
            #[trigger] data[i],
        ) by {
            assert(rest[i] == data[i]);
        }
    }
    if 0 <= b <= e < data.len() {
        assert(data.subrange(b, e) =~= rest.subrange(b, e));
    }
}

proof fn lemma_separator_begins_a_field(data: Seq<u8>)
    requires
        data.len() > 0,
        data.last() == 0 || data.last() == 10,
        are_fields(data.drop_last()),
    ensures
        are_fields(data),
{
    let rest = data.drop_last();
    let f = fields(data);
    let s = starts(data);
    let n = f.len() - 1;
    assert(s[n] == data.len());
    assert(data.subrange(s[n], s[n]) =~= f[n]);
    assert forall|i: int| 0 <= i < f.len() implies {
        &&& #[trigger] crate::uevent::is_field(data, s[i], s[i] + f[i].len())
        &&& data.subrange(s[i], s[i] + f[i].len()) == f[i]
    } by {
        if i < n {
            assert(s[i] == starts(rest)[i]);
            assert(f[i] == fields(rest)[i]);
            assert(crate::uevent::is_field(rest, s[i], s[i] + f[i].len()));
            lemma_field_before_separator(data, s[i], s[i] + f[i].len());
        }
    }
    assert forall|i: int, j: int| 0 <= i < j < s.len() implies #[trigger] s[i]
        < #[trigger] s[j] by {
        if j == n {
            assert(crate::uevent::is_field(
                rest,
                starts(rest)[i],
                starts(rest)[i] + fields(rest)[i].len(),
            ));
        } else {
            assert(s[i] == starts(rest)[i] && s[j] == starts(rest)[j]);
        }
    }
    assert forall|b: int, e: int| #[trigger] crate::uevent::is_field(data, b, e) implies exists|
        i: int,
    | 0 <= i < f.len() && b == #[trigger] s[i] && e == s[i] + f[i].len() by {
        if b < data.len() {
            lemma_field_before_separator(data, b, e);
            let i = choose|i: int|
                0 <= i < fields(rest).len() && b == #[trigger] starts(rest)[i] && e == starts(
                    rest,
                )[i] + fields(rest)[i].len();
            assert(s[i] == b && e == s[i] + f[i].len());
        } else {
            assert(b == s[n] && e == s[n] + f[n].len());
        }
    }
}

proof fn lemma_last_field_grows(data: Seq<u8>, b: int, e: int)
    requires
        data.len() > 0,
        !(data.last() == 0 || data.last() == 10),
    ensures
        e < data.len() - 1 ==> (crate::uevent::is_field(data, b, e) <==> crate::uevent::is_field(
            data.drop_last(),
            b,
            e,
        )),
        !crate::uevent::is_field(data, b, data.len() - 1),
        crate::uevent::is_field(data, b, data.len() as int) <==> crate::uevent::is_field(
            data.drop_last(),
            b,
            data.len() - 1,
        ),
{
    let rest = data.drop_last();
    let n = data.len() - 1;
    assert forall|i: int| 0 <= i < n implies #[trigger] rest[i] == data[i] by {}
    if crate::uevent::is_field(data, b, e) && e < n {
        assert forall|i: int| b <= i < e implies !crate::uevent::is_separator(
            #[trigger] rest[i],
        ) by {
            assert(rest[i] == data[i]);
        }
    }
    if crate::uevent::is_field(rest, b, e) && e < n {
        assert forall|i: int| b <= i < e implies !crate::uevent::is_separator(
            #[trigger] data[i],
        ) by {
            assert(rest[i] == data[i]);
        }
    }
    if crate::uevent::is_field(data, b, data.len() as int) {
        if b == data.len() {
            assert(crate::uevent::is_separator(data[b - 1]));
        }
        assert forall|i: int| b <= i < n implies !crate::uevent::is_separator(
            #[trigger] rest[i],
        ) by {
            assert(rest[i] == data[i]);
        }
    }
    if crate::uevent::is_field(rest, b, n) {
        assert forall|i: int| b <= i < data.len() implies !crate::uevent::is_separator(
            #[trigger] data[i],
        ) by {
            if i < n {
                assert(rest[i] == data[i]);
            }
        }
    }
}

proof fn lemma_byte_belongs_to_the_last_field(data: Seq<u8>)
    requires
        data.len() > 0,
        !(data.last() == 0 || data.last() == 10),
        are_fields(data.drop_last()),
    ensures
        are_fields(data),
{
    let rest = data.drop_last();
    let f = fields(data);
    let s = starts(data);
    let n = f.len() - 1;
    let before = fields(rest);
    assert(f[n] == before.last().push(data.last()));
    assert forall|i: int| 0 <= i < f.len() implies {
        &&& #[trigger] crate::uevent::is_field(data, s[i], s[i] + f[i].len())
        &&& data.subrange(s[i], s[i] + f[i].len()) == f[i]
    } by {
        assert(crate::uevent::is_field(rest, s[i], s[i] + before[i].len()));
        if i < n {
            assert(f[i] == before[i]);
            assert(s[i] < s[n]);
            lemma_earlier_field_ends_earlier(rest, i);
            lemma_last_field_grows(data, s[i], s[i] + f[i].len());
            assert(data.subrange(s[i], s[i] + f[i].len()) =~= rest.subrange(
                s[i],
                s[i] + f[i].len(),
            ));
        } else {
            lemma_last_field_grows(data, s[n], data.len() as int);
            assert(data.subrange(s[n], data.len() as int) =~= rest.subrange(
                s[n],
                rest.len() as int,
            ).push(data.last()));
        }
    }
    assert forall|b: int, e: int| #[trigger] crate::uevent::is_field(data, b, e) implies exists|
        i: int,
    | 0 <= i < f.len() && b == #[trigger] s[i] && e == s[i] + f[i].len() by {
        lemma_last_field_grows(data, b, e);
        let old_end = if e == data.len() {
            data.len() - 1
        } else {
            e
        };
        assert(crate::uevent::is_field(rest, b, old_end));
        let i = choose|i: int|
            0 <= i < before.len() && b == #[trigger] s[i] && old_end == s[i] + before[i].len();
        if i < n {
            lemma_earlier_field_ends_earlier(rest, i);
        }
        assert(b == s[i] && e == s[i] + f[i].len());
    }
}

proof fn lemma_earlier_field_ends_earlier(data: Seq<u8>, i: int)
    requires
        are_fields(data),
        0 <= i < fields(data).len() - 1,
    ensures
        starts(data)[i] + fields(data)[i].len() < data.len(),
{
    let f = fields(data);
    let s = starts(data);
    let n = f.len() - 1;
    assert(crate::uevent::is_field(data, s[i], s[i] + f[i].len()));
    assert(crate::uevent::is_field(data, s[n], s[n] + f[n].len()));
    assert(s[i] < s[n]);
    if s[i] + f[i].len() == data.len() {
        assert(crate::uevent::is_separator(data[s[n] - 1]));
    }
}

proof fn lemma_fields(data: Seq<u8>)
    ensures
        are_fields(data),
    decreases data.len(),
{
    if data.len() == 0 {
        let f = fields(data);
        let s = starts(data);
        assert(data.subrange(0, 0) =~= f[0]);
        assert forall|b: int, e: int| #[trigger] crate::uevent::is_field(data, b, e) implies exists|
            i: int,
        | 0 <= i < f.len() && b == #[trigger] s[i] && e == s[i] + f[i].len() by {
            assert(b == s[0] && e == s[0] + f[0].len());
        }
    } else {
        lemma_fields(data.drop_last());
        if data.last() == 0 || data.last() == 10 {
            lemma_separator_begins_a_field(data);
        } else {
            lemma_byte_belongs_to_the_last_field(data);
        }
    }
}

/// A datagram tells that the USB supply went offline exactly where one of its fields
/// names that supply and the first of its fields that gives an online state gives 0,
/// whatever else it holds and in whatever order.
pub proof fn datagrams_tell_by_their_fields(data: Seq<u8>)
    ensures
        crate::uevent::usb_offline(data) <==> {
            let name = "POWER_SUPPLY_NAME=usb".spec_bytes();
            let prefix = "POWER_SUPPLY_ONLINE=".spec_bytes();
            &&& fields(data).contains(name)
            &&& exists|i: int|
                #![trigger fields(data)[i]]
                0 <= i < fields(data).len() && fields(data)[i] == prefix + "0".spec_bytes()
                    && forall|j: int|
                    0 <= j < i ==> !prefix.is_prefix_of(#[trigger] fields(data)[j])
        },
{
    lemma_fields(data);
    let f = fields(data);
    let s = starts(data);
    let name = "POWER_SUPPLY_NAME=usb".spec_bytes();
    let prefix = "POWER_SUPPLY_ONLINE=".spec_bytes();
    let value = "0".spec_bytes();
    assert(crate::uevent::has_field(data, name) <==> f.contains(name)) by {
        if f.contains(name) {
            let i = choose|i: int| 0 <= i < f.len() && f[i] == name;
            assert(crate::uevent::is_field(data, s[i], s[i] + f[i].len()));
        }
    }
    if crate::uevent::first_value_is(data, prefix, value) {
        let (b, e) = choose|b: int, e: int|
            {
                &&& #[trigger] crate::uevent::is_prefixed_field(data, prefix, b, e)
                &&& data.subrange(b, e) == prefix + value
                &&& forall|b2: int, e2: int| #[trigger]
                    crate::uevent::is_prefixed_field(data, prefix, b2, e2) ==> b <= b2
            };
        assert(crate::uevent::is_field(data, b, e));
        let i = choose|i: int|
            0 <= i < f.len() && b == #[trigger] s[i] && e == s[i] + f[i].len();
        assert(f[i] == prefix + value) by {
            assert(crate::uevent::is_field(data, s[i], s[i] + f[i].len()));
        }
        assert forall|j: int| 0 <= j < i implies !prefix.is_prefix_of(#[trigger] f[j]) by {
            assert(crate::uevent::is_field(data, s[j], s[j] + f[j].len()));
            if prefix.is_prefix_of(f[j]) {
                assert(crate::uevent::is_prefixed_field(data, prefix, s[j], s[j] + f[j].len()));
                assert(s[j] < s[i]);
            }
        }
    }
    if exists|i: int|
        #![trigger f[i]]
        0 <= i < f.len() && f[i] == prefix + value && forall|j: int|
            0 <= j < i ==> !prefix.is_prefix_of(#[trigger] f[j]) {
        let i = choose|i: int|
            #![trigger f[i]]
            0 <= i < f.len() && f[i] == prefix + value && forall|j: int|
                0 <= j < i ==> !prefix.is_prefix_of(#[trigger] f[j]);
        assert(crate::uevent::is_field(data, s[i], s[i] + f[i].len()));
        assert(prefix.is_prefix_of(f[i])) by {
            assert(prefix =~= f[i].subrange(0, prefix.len() as int));
        }
        assert(crate::uevent::is_prefixed_field(data, prefix, s[i], s[i] + f[i].len()));
        assert forall|b2: int, e2: int| #[trigger]
            crate::uevent::is_prefixed_field(data, prefix, b2, e2) implies s[i] <= b2 by {
            assert(crate::uevent::is_field(data, b2, e2));
            let j = choose|j: int|
                0 <= j < f.len() && b2 == #[trigger] s[j] && e2 == s[j] + f[j].len();
            assert(crate::uevent::is_field(data, s[j], s[j] + f[j].len()));
            if j < i {
                assert(prefix.is_prefix_of(f[j]));
            }
        }
        assert(crate::uevent::first_value_is(data, prefix, value));
    }
}

} // verus!
