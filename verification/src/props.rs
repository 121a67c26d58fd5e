//! What an icon's properties say of it.

use crate::request::{Atoms, Reply, Request, ANY_TYPE};
use crate::text;
use crate::wire;
use vstd::prelude::*;
use vstd::string::*;

verus! {

/// `_XEMBED_INFO` flag: the client wants to be mapped.
pub const XEMBED_MAPPED: u32 = 1;

/// How much of `WM_CLASS` is read, in units of four bytes.
pub const CLASS_LENGTH: u32 = 256;

/// The request for an icon's `_XEMBED_INFO`: two words, the version and the
/// flags. The property has its own atom as its type, so any type will do.
pub open spec fn xembed_info_request(atoms: Atoms, icon: u32) -> Request {
    Request::GetProperty {
        window: icon,
        property: atoms.xembed_info,
        type_: ANY_TYPE,
        length: 2,
    }
}

/// The flags in an `_XEMBED_INFO` reply, if it holds any.
pub open spec fn xembed_flags(reply: Reply) -> Option<u32> {
    match reply {
        Reply::Property { format, value } => match wire::property_words(format, value@) {
            Some(words) => if words.len() >= 2 {
                Some(words[1])
            } else {
                None
            },
            None => None,
        },
        _ => None,
    }
}

/// Whether an `_XEMBED_INFO` reply asks for the icon to be shown. An icon that
/// does not say is shown.
pub open spec fn wants_mapped(reply: Reply) -> bool {
    match xembed_flags(reply) {
        Some(flags) => flags & XEMBED_MAPPED != 0,
        None => true,
    }
}

/// Where the first NUL stands from `from` on, or the end.
pub open spec fn first_nul(bytes: Seq<u8>, from: int) -> int
    decreases bytes.len() - from,
{
    if from < 0 || from >= bytes.len() {
        bytes.len() as int
    } else if bytes[from] == 0 {
        from
    } else {
        first_nul(bytes, from + 1)
    }
}

/// The first of the NUL-separated strings of `WM_CLASS`: the instance.
pub open spec fn class_instance(value: Seq<u8>) -> Seq<u8> {
    value.take(first_nul(value, 0))
}

/// The request for an icon's `WM_CLASS`.
pub open spec fn class_request(atoms: Atoms, icon: u32) -> Request {
    Request::GetProperty {
        window: icon,
        property: atoms.wm_class,
        type_: atoms.string,
        length: CLASS_LENGTH,
    }
}

/// The application id of an icon that gives no name for itself.
pub open spec fn anonymous_id(icon: u32) -> Seq<char> {
    "xembsni-"@ + text::hexadecimal(icon as nat, 8)
}

/// The application id that a `WM_CLASS` reply gives an icon.
pub open spec fn app_id_in(icon: u32, reply: Reply) -> Seq<char> {
    match reply {
        Reply::Property { format, value } => if class_instance(value@).len() > 0 {
            text::lossy_utf8(class_instance(value@))
        } else {
            anonymous_id(icon)
        },
        _ => anonymous_id(icon),
    }
}

/// Asks for an icon's `_XEMBED_INFO`.
pub fn ask_xembed_info(atoms: &Atoms, icon: u32) -> (request: Request)
    ensures
        request == xembed_info_request(*atoms, icon),
{
    Request::GetProperty {
        window: icon,
        property: atoms.xembed_info,
        type_: ANY_TYPE,
        length: 2,
    }
}

/// Reads the flags out of an `_XEMBED_INFO` reply.
pub fn read_xembed_info(reply: &Reply) -> (flags: Option<u32>)
    ensures
        flags == xembed_flags(*reply),
{
    match reply {
        Reply::Property { format, value } => match wire::value32(*format, value) {
            Some(words) => if words.len() >= 2 {
                Some(words[1])
            } else {
                None
            },
            None => None,
        },
        _ => None,
    }
}

/// Whether the icon is to be shown.
pub fn want_mapped(reply: &Reply) -> (want: bool)
    ensures
        want == wants_mapped(*reply),
{
    match read_xembed_info(reply) {
        Some(flags) => flags & XEMBED_MAPPED != 0,
        None => true,
    }
}

/// Asks for an icon's `WM_CLASS`.
pub fn ask_class(atoms: &Atoms, icon: u32) -> (request: Request)
    ensures
        request == class_request(*atoms, icon),
{
    Request::GetProperty {
        window: icon,
        property: atoms.wm_class,
        type_: atoms.string,
        length: CLASS_LENGTH,
    }
}

/// Derives an icon's application id from a `WM_CLASS` reply. An instance in valid
/// UTF-8 is taken as it is, and no id is empty.
pub fn read_app_id(icon: u32, reply: &Reply) -> (app_id: String)
    ensures
        app_id@ == app_id_in(icon, *reply),
        app_id@.len() > 0,
        reply matches Reply::Property { format, value } ==> (class_instance(value@).len() > 0
            && vstd::utf8::valid_utf8(class_instance(value@)) ==> app_id@
            == vstd::utf8::decode_utf8(class_instance(value@))),
{
    if let Reply::Property { format: _, value } = reply {
        let mut end: usize = 0;
        while end < value.len() && value[end] != 0
            invariant
                end <= value@.len(),
                first_nul(value@, 0) == first_nul(value@, end as int),
            decreases value@.len() - end,
        {
            end = end + 1;
        }
        assert(first_nul(value@, 0) == end);
        if end > 0 {
            let instance = vstd::slice::slice_subrange(value.as_slice(), 0, end);
            assert(instance@ =~= class_instance(value@));
            return text::from_utf8_lossy(instance);
        }
    }
    proof {
        reveal_strlit("xembsni-");
    }
    let mut id: String = "xembsni-".to_owned();
    id.append(text::hexadecimal_text(icon, 8).as_str());
    id
}

/// Icons without a name of their own get different application ids.
pub proof fn law_anonymous_ids_differ(icon: u32, other: u32)
    requires
        anonymous_id(icon) == anonymous_id(other),
    ensures
        icon == other,
{
    let a = text::hexadecimal(icon as nat, 8);
    let b = text::hexadecimal(other as nat, 8);
    let prefix = "xembsni-"@;
    assert((prefix + a).skip(prefix.len() as int) =~= a);
    assert((prefix + b).skip(prefix.len() as int) =~= b);
    assert(vstd::arithmetic::power::pow(16, 8) == 4294967296) by {
        reveal_with_fuel(vstd::arithmetic::power::pow, 9);
    }
    text::law_hexadecimal_is_injective(icon as nat, other as nat, 8);
}

/// An icon is shown unless the lowest bit of the second word of its `_XEMBED_INFO` is
/// clear: an icon without two such words is shown.
pub proof fn law_lowest_flag_decides(reply: Reply)
    ensures
        !(reply is Property) ==> wants_mapped(reply),
        reply matches Reply::Property { format, value } ==> {
            &&& format != 32 || value@.len() < 8 ==> wants_mapped(reply)
            &&& format == 32 && value@.len() >= 8 && vstd::endian::endianness() is Little
                ==> wants_mapped(reply) == (value@[4] % 2 == 1)
            &&& format == 32 && value@.len() >= 8 && vstd::endian::endianness() is Big
                ==> wants_mapped(reply) == (value@[7] % 2 == 1)
        },
{
    if let Reply::Property { format, value } = reply {
        if format == 32 && value@.len() >= 8 {
            wire::law_words_are_four_bytes_each(value@, 1);
            let flags = wire::native_words(value@)[1];
            assert((flags & 1 != 0) == (flags % 2 == 1)) by (bit_vector);
        }
    }
}

/// An application is known by what stands before the first NUL of its `WM_CLASS`, or
/// by all of it where there is none. Where nothing stands there, or no class could be
/// had, it is known by its window.
pub proof fn law_instance_names_application(icon: u32, reply: Reply, k: int)
    ensures
        reply matches Reply::Property { format, value } ==> {
            &&& 0 < k < value@.len() && value@[k] == 0 && (forall|j: int|
                0 <= j < k ==> #[trigger] value@[j] != 0) ==> app_id_in(icon, reply)
                == text::lossy_utf8(value@.subrange(0, k))
            &&& value@.len() > 0 && (forall|j: int|
                0 <= j < value@.len() ==> #[trigger] value@[j] != 0) ==> app_id_in(icon, reply)
                == text::lossy_utf8(value@)
            &&& value@.len() == 0 || value@[0] == 0 ==> app_id_in(icon, reply) == "xembsni-"@
                + text::hexadecimal(icon as nat, 8)
        },
        !(reply is Property) ==> app_id_in(icon, reply) == "xembsni-"@ + text::hexadecimal(
            icon as nat,
            8,
        ),
{
    if let Reply::Property { format, value } = reply {
        let bytes = value@;
        if 0 < k < bytes.len() && bytes[k] == 0 && forall|j: int|
            0 <= j < k ==> #[trigger] bytes[j] != 0 {
            lemma_first_nul(bytes, 0, k);
            assert(class_instance(bytes) =~= bytes.subrange(0, k));
        }
        if forall|j: int| 0 <= j < bytes.len() ==> #[trigger] bytes[j] != 0 {
            lemma_first_nul(bytes, 0, bytes.len() as int);
            assert(class_instance(bytes) =~= bytes);
        }
    }
}

/// The first NUL stands where no other stands before it.
proof fn lemma_first_nul(bytes: Seq<u8>, from: int, k: int)
    requires
        0 <= from <= k <= bytes.len(),
        k < bytes.len() ==> bytes[k] == 0,
        forall|j: int| from <= j < k ==> #[trigger] bytes[j] != 0,
    ensures
        first_nul(bytes, from) == k,
    decreases k - from,
{
    if from < k {
        assert(bytes[from] != 0);
        lemma_first_nul(bytes, from + 1, k);
    }
}

/// What is asked of an icon: two words of its `_XEMBED_INFO`, of whatever type, and up
/// to a kilobyte of its `WM_CLASS`, which is a string.
pub proof fn law_what_is_asked_of_an_icon(atoms: Atoms, icon: u32)
    ensures
        xembed_info_request(atoms, icon) == (Request::GetProperty {
            window: icon,
            property: atoms.xembed_info,
            type_: 0,
            length: 2,
        }),
        class_request(atoms, icon) == (Request::GetProperty {
            window: icon,
            property: atoms.wm_class,
            type_: atoms.string,
            length: 256,
        }),
{
}

} // verus!
