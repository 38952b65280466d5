use vstd::prelude::*;

verus! {

/// Capacity of every receive and read buffer; longer datagrams are
/// truncated to it.
pub const BUFFER_LEN: usize = 16384;

// ASCII codes of the bytes that the payload protocol uses.
pub const ASCII_P: u8 = 0x50;
pub const ASCII_I: u8 = 0x49;
pub const ASCII_N: u8 = 0x4E;
pub const ASCII_G: u8 = 0x47;
pub const ASCII_O: u8 = 0x4F;
pub const ASCII_SPACE: u8 = 0x20;
pub const ASCII_NEWLINE: u8 = 0x0A;
pub const ASCII_ZERO: u8 = 0x30;

/// The ASCII marker that opens a probe.
pub open spec fn ping_marker() -> Seq<u8> {
    seq![ASCII_P, ASCII_I, ASCII_N, ASCII_G]
}

/// The ASCII marker that opens a reply.
pub open spec fn pong_marker() -> Seq<u8> {
    seq![ASCII_P, ASCII_O, ASCII_N, ASCII_G]
}

/// Whether the first four bytes of a payload are `PING`.
pub open spec fn starts_with_ping(data: Seq<u8>) -> bool {
    data.len() >= 4 && data.take(4) == ping_marker()
}

/// The reply a listener owes to a payload: `PONG` followed by every byte
/// after the `PING` marker, or nothing when the payload is no probe.
pub open spec fn pong_reply_spec(data: Seq<u8>) -> Option<Seq<u8>> {
    if starts_with_ping(data) {
        Some(pong_marker() + data.skip(4))
    } else {
        None
    }
}

/// The decimal digits of `n` in ASCII, most significant first, without
/// leading zeros.
pub open spec fn decimal(n: nat) -> Seq<u8>
    decreases n,
{
    if n < 10 {
        seq![(ASCII_ZERO + n) as u8]
    } else {
        decimal(n / 10).push((ASCII_ZERO + n % 10) as u8)
    }
}

/// The probe with sequence number `n`: `PING `, then `n` in decimal.
pub open spec fn probe_payload(n: nat) -> Seq<u8> {
    ping_marker().push(ASCII_SPACE) + decimal(n)
}

/// A chunk with exactly one trailing newline byte removed, if it ends in
/// one.
pub open spec fn chomp_spec(chunk: Seq<u8>) -> Seq<u8> {
    if chunk.len() > 0 && chunk.last() == ASCII_NEWLINE {
        chunk.drop_last()
    } else {
        chunk
    }
}

/// Whether the payload opens with the `PING` marker.
pub fn is_ping(data: &[u8]) -> (r: bool)
    ensures
        r == starts_with_ping(data@),
{
    if data.len() < 4 {
        return false;
    }
    let r = data[0] == ASCII_P && data[1] == ASCII_I && data[2] == ASCII_N && data[3] == ASCII_G;
    assert(r == (data@.take(4) =~= ping_marker()));
    r
}

/// The reply to a received payload: `PONG` and the payload's bytes from
/// index 4 on, copied verbatim, when the payload starts with `PING`; no
/// reply otherwise.
pub fn pong_reply(data: &[u8]) -> (r: Option<Vec<u8>>)
    ensures
        r matches Some(v) ==> pong_reply_spec(data@) == Some(v@),
        r is None <==> pong_reply_spec(data@) is None,
{
    if !is_ping(data) {
        return None;
    }
    let mut reply: Vec<u8> = vec![ASCII_P, ASCII_O, ASCII_N, ASCII_G];
    let mut i: usize = 4;
    while i < data.len()
        invariant
            4 <= i <= data@.len(),
            reply@ == pong_marker() + data@.subrange(4, i as int),
        decreases data@.len() - i,
    {
        reply.push(data[i]);
        i = i + 1;
        assert(reply@ =~= pong_marker() + data@.subrange(4, i as int));
    }
    assert(data@.subrange(4, data@.len() as int) =~= data@.skip(4));
    Some(reply)
}

/// Appends the decimal digits of `n` to `out`.
fn push_decimal(n: u64, out: &mut Vec<u8>)
    ensures
        final(out)@ == old(out)@ + decimal(n as nat),
    decreases n,
{
    if n >= 10 {
        push_decimal(n / 10, out);
    }
    let digit: u8 = (n % 10) as u8;
    out.push(ASCII_ZERO + digit);
    assert(final(out)@ =~= old(out)@ + decimal(n as nat));
}

/// The probe payload `PING <n>`, with `n` in decimal.
pub fn probe(n: u64) -> (r: Vec<u8>)
    ensures
        r@ == probe_payload(n as nat),
{
    let mut out: Vec<u8> = vec![ASCII_P, ASCII_I, ASCII_N, ASCII_G, ASCII_SPACE];
    push_decimal(n, &mut out);
    assert(out@ =~= probe_payload(n as nat));
    out
}

/// The datagram to send for a chunk read from the input: the chunk with one
/// trailing newline byte dropped, if it ends in one.
pub fn chomp(chunk: &[u8]) -> (r: Vec<u8>)
    ensures
        r@ == chomp_spec(chunk@),
{
    let mut end: usize = chunk.len();
    if end > 0 && chunk[end - 1] == ASCII_NEWLINE {
        end = end - 1;
    }
    let mut out: Vec<u8> = Vec::new();
    let mut i: usize = 0;
    while i < end
        invariant
            i <= end <= chunk@.len(),
            out@ == chunk@.subrange(0, i as int),
        decreases end - i,
    {
        out.push(chunk[i]);
        i = i + 1;
        assert(out@ =~= chunk@.subrange(0, i as int));
    }
    assert(chomp_spec(chunk@) =~= chunk@.subrange(0, end as int));
    out
}

} // verus!
