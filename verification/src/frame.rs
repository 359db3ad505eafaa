//! Frames: one length-delimited unit of bytes on the transport. A frame is
//! a length prefix, a ChainPack unsigned integer, followed by that many
//! bytes of content.

use vstd::prelude::*;

verus! {

/// The length prefix at the start of `bytes`, as
/// `shvproto::ChainPackReader::read_uint_data` reads it: the number and the
/// count of bytes that it took, or nothing where no number can be read.
pub uninterp spec fn length_prefix(bytes: Seq<u8>) -> Option<(u64, usize)>;

/// The bytes that `shvproto::ChainPackWriter::write_uint_data` writes for
/// `length`.
pub uninterp spec fn prefix_bytes(length: u64) -> Seq<u8>;

/// Reads the length prefix with `shvproto::ChainPackReader::read_uint_data`
/// on a reader over `bytes`, and asks the reader's `position` for the
/// number of bytes taken. The contract names the result and claims that a
/// number, once read, took at least one byte and no more than there are.
#[verifier::external_body]
pub(crate) fn read_length(bytes: &[u8]) -> (r: Option<(u64, usize)>)
    ensures
        r == length_prefix(bytes@),
        r matches Some((_, used)) ==> 0 < used <= bytes@.len(),
{
    let mut source = bytes;
    let mut reader = shvproto::ChainPackReader::new(&mut source);
    match reader.read_uint_data() {
        Ok(length) => Some((length, reader.position())),
        Err(_) => None,
    }
}

/// Writes `length` with `shvproto::ChainPackWriter::write_uint_data` into
/// an empty buffer and returns the buffer. The contract names the result.
#[verifier::external_body]
pub(crate) fn write_length(length: u64) -> (bytes: Vec<u8>)
    ensures
        bytes@ == prefix_bytes(length),
{
    let mut bytes: Vec<u8> = Vec::new();
    let _ = shvproto::ChainPackWriter::new(&mut bytes).write_uint_data(length);
    bytes
}

/// What a chunk of inbound bytes holds.
#[derive(Debug, PartialEq)]
pub enum Framing {
    /// No frame length can be read, or it is zero.
    BadLength,
    /// The chunk is shorter than the length that it announces.
    Truncated,
    /// The content of the frame.
    Content(Vec<u8>),
}

/// Whether `r` is what `bytes` holds, given the length prefix read from
/// them: without a prefix, or with the length zero, `BadLength`; with fewer
/// bytes after the prefix than the length, `Truncated`; else the `length`
/// bytes that follow the prefix.
pub open spec fn is_framing(r: Framing, bytes: Seq<u8>, prefix: Option<(u64, usize)>) -> bool {
    match prefix {
        None => r is BadLength,
        Some((length, used)) => if length == 0 {
            r is BadLength
        } else if used + length > bytes.len() {
            r is Truncated
        } else {
            r matches Framing::Content(content) && content@ == bytes.subrange(
                used as int,
                used + length,
            )
        },
    }
}

/// Cuts the content out of a chunk whose length prefix has been read.
pub fn cut_frame(bytes: &[u8], prefix: Option<(u64, usize)>) -> (r: Framing)
    ensures
        is_framing(r, bytes@, prefix),
{
    let (length, used) = match prefix {
        None => {
            return Framing::BadLength;
        },
        Some(found) => found,
    };
    if length == 0 {
        return Framing::BadLength;
    }
    if used > bytes.len() {
        return Framing::Truncated;
    }
    let rest: usize = bytes.len() - used;
    if length > rest as u64 {
        return Framing::Truncated;
    }
    let end: usize = used + length as usize;
    let mut content: Vec<u8> = Vec::new();
    let mut i: usize = used;
    while i < end
        invariant
            used <= i <= end <= bytes@.len(),
            content@ == bytes@.subrange(used as int, i as int),
        decreases end - i,
    {
        content.push(bytes[i]);
        i += 1;
        assert(content@ =~= bytes@.subrange(used as int, i as int));
    }
    Framing::Content(content)
}

/// Reads one frame from a chunk of inbound bytes.
pub fn split_frame(bytes: &[u8]) -> (r: Framing)
    ensures
        is_framing(r, bytes@, length_prefix(bytes@)),
{
    let prefix = read_length(bytes);
    cut_frame(bytes, prefix)
}

/// Puts the length prefix before `content`: the frame to send.
pub fn frame(content: &[u8]) -> (bytes: Vec<u8>)
    ensures
        bytes@ == prefix_bytes(content@.len() as u64) + content@,
{
    let mut bytes = write_length(content.len() as u64);
    let ghost prefix = bytes@;
    let mut i: usize = 0;
    while i < content.len()
        invariant
            i <= content@.len(),
            bytes@ == prefix + content@.subrange(0, i as int),
        decreases content@.len() - i,
    {
        bytes.push(content[i]);
        i += 1;
        assert(bytes@ =~= prefix + content@.subrange(0, i as int));
    }
    assert(content@.subrange(0, i as int) =~= content@);
    bytes
}

} // verus!
