//! Numbers as they stand in the bytes of the X protocol.
//!
//! A client and its server agree on the byte order of the machine that the
//! client runs on, so the words of a property or of a client message are read
//! in that order. Image data comes in the order that the server names.

use vstd::prelude::*;
use x11rb::protocol::xproto::{ClientMessageData, GetPropertyReply};

verus! {

/// The number that `bytes` spell when the first byte is the least significant.
pub open spec fn little_endian(bytes: Seq<u8>) -> nat
    decreases bytes.len(),
{
    if bytes.len() == 0 {
        0
    } else {
        bytes.first() as nat + 256 * little_endian(bytes.drop_first())
    }
}

/// The number that `bytes` spell when the first byte is the most significant.
pub open spec fn big_endian(bytes: Seq<u8>) -> nat
    decreases bytes.len(),
{
    if bytes.len() == 0 {
        0
    } else {
        256 * big_endian(bytes.drop_last()) + bytes.last() as nat
    }
}

/// The number that `bytes` spell in the byte order of the machine.
pub open spec fn native_endian(bytes: Seq<u8>) -> nat {
    match vstd::endian::endianness() {
        vstd::endian::Endian::Little => little_endian(bytes),
        vstd::endian::Endian::Big => big_endian(bytes),
    }
}

/// The 32-bit words of `bytes` in the byte order of the machine. Up to three
/// bytes that are left over at the end do not count.
pub open spec fn native_words(bytes: Seq<u8>) -> Seq<u32> {
    Seq::new(
        bytes.len() / 4,
        |i: int| native_endian(bytes.subrange(4 * i, 4 * i + 4)) as u32,
    )
}

/// What a property reply of the given format holds as 32-bit words: nothing
/// unless the format is 32.
pub open spec fn property_words(format: u8, value: Seq<u8>) -> Option<Seq<u32>> {
    if format == 32 {
        Some(native_words(value))
    } else {
        None
    }
}

/// Calls `GetPropertyReply::value32` of x11rb and collects what it yields. The
/// claim is that it yields nothing at all unless the reply's format is 32, and
/// otherwise one word per four bytes of the value, each read in the byte order
/// of the machine, with an incomplete last word left out.
#[verifier::external_body]
pub(crate) fn value32(format: u8, value: &Vec<u8>) -> (words: Option<Vec<u32>>)
    ensures
        words is Some <==> property_words(format, value@) is Some,
        words matches Some(found) ==> found@ == property_words(format, value@)->0,
{
    let reply = GetPropertyReply {
        format,
        sequence: 0,
        length: 0,
        type_: 0,
        bytes_after: 0,
        value_len: 0,
        value: value.clone(),
    };
    let words: Option<Vec<u32>> = reply.value32().map(|found| found.collect());
    words
}

/// Calls `ClientMessageData::as_data32` of x11rb. The claim is that the twenty
/// bytes of a client message are read as five words, each in the byte order of
/// the machine.
#[verifier::external_body]
pub(crate) fn data32(raw: [u8; 20]) -> (words: [u32; 5])
    ensures
        words@ == native_words(raw@),
{
    ClientMessageData::from(raw).as_data32()
}

/// Three bytes, least significant first.
pub proof fn lemma_little_endian_3(bytes: Seq<u8>)
    requires
        bytes.len() == 3,
    ensures
        little_endian(bytes) == bytes[0] + 256 * bytes[1] + 65536 * bytes[2],
{
    reveal_with_fuel(little_endian, 4);
    let tail = bytes.drop_first();
    assert(tail[0] == bytes[1] && tail.drop_first()[0] == bytes[2]);
}

/// Four bytes, least significant first.
pub proof fn lemma_little_endian_4(bytes: Seq<u8>)
    requires
        bytes.len() == 4,
    ensures
        little_endian(bytes) == bytes[0] + 256 * bytes[1] + 65536 * bytes[2] + 16777216 * bytes[3],
{
    let tail = bytes.drop_first();
    lemma_little_endian_3(tail);
    assert(tail[0] == bytes[1] && tail[1] == bytes[2] && tail[2] == bytes[3]);
}

/// Three bytes, most significant first.
pub proof fn lemma_big_endian_3(bytes: Seq<u8>)
    requires
        bytes.len() == 3,
    ensures
        big_endian(bytes) == 65536 * bytes[0] + 256 * bytes[1] + bytes[2],
{
    reveal_with_fuel(big_endian, 4);
    let front = bytes.drop_last();
    assert(front.last() == bytes[1] && front.drop_last().last() == bytes[0]);
}

/// Four bytes, most significant first.
pub proof fn lemma_big_endian_4(bytes: Seq<u8>)
    requires
        bytes.len() == 4,
    ensures
        big_endian(bytes) == 16777216 * bytes[0] + 65536 * bytes[1] + 256 * bytes[2] + bytes[3],
{
    let front = bytes.drop_last();
    lemma_big_endian_3(front);
    assert(front[0] == bytes[0] && front[1] == bytes[1] && front[2] == bytes[2]);
}

/// Each four bytes are one word. The first of them counts least on a little-endian
/// machine and most on a big-endian one.
pub proof fn law_words_are_four_bytes_each(bytes: Seq<u8>, i: int)
    requires
        0 <= i,
        4 * i + 3 < bytes.len(),
    ensures
        native_words(bytes).len() == bytes.len() / 4,
        vstd::endian::endianness() is Little ==> native_words(bytes)[i] == bytes[4 * i] + 256
            * bytes[4 * i + 1] + 65536 * bytes[4 * i + 2] + 16777216 * bytes[4 * i + 3],
        vstd::endian::endianness() is Big ==> native_words(bytes)[i] == 16777216 * bytes[4 * i]
            + 65536 * bytes[4 * i + 1] + 256 * bytes[4 * i + 2] + bytes[4 * i + 3],
{
    let four = bytes.subrange(4 * i, 4 * i + 4);
    lemma_little_endian_4(four);
    lemma_big_endian_4(four);
    assert(four[0] == bytes[4 * i] && four[1] == bytes[4 * i + 1]);
    assert(four[2] == bytes[4 * i + 2] && four[3] == bytes[4 * i + 3]);
}

} // verus!
