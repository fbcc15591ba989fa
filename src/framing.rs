//! Wire format of the forwarding task: each IP packet travels on the transport
//! stream as one unit, a two-byte big-endian length followed by the packet.

use vstd::prelude::*;

verus! {

/// The largest packet a unit can carry.
pub const MAX_PACKET_LEN: usize = 65535;

/// Why a packet cannot be framed.
#[derive(Debug, Clone, Copy, PartialEq, Eq)]
pub enum FrameError {
    /// The packet is longer than `MAX_PACKET_LEN` bytes.
    PacketTooLarge,
}

/// The unit that carries `packet`.
pub open spec fn frame_of(packet: Seq<u8>) -> Seq<u8> {
    seq![(packet.len() / 256) as u8, (packet.len() % 256) as u8] + packet
}

/// The length announced by the two bytes that start a unit.
pub open spec fn announced_len(hi: u8, lo: u8) -> nat {
    (hi as nat) * 256 + (lo as nat)
}

/// The first unit at the start of `buf`, as the packet it carries and the number of
/// bytes it takes up; `None` while `buf` does not yet hold a whole unit.
pub open spec fn first_frame(buf: Seq<u8>) -> Option<(Seq<u8>, nat)> {
    if buf.len() < 2 {
        None
    } else {
        let n = announced_len(buf[0], buf[1]);
        if buf.len() < 2 + n {
            None
        } else {
            Some((buf.subrange(2, 2 + n as int), 2 + n))
        }
    }
}

/// Frames `packet` as one unit of the transport stream.
pub fn encode_frame(packet: &[u8]) -> (r: Result<Vec<u8>, FrameError>)
    ensures
        packet@.len() <= MAX_PACKET_LEN ==> r is Ok && r->Ok_0@ == frame_of(packet@),
        packet@.len() > MAX_PACKET_LEN ==> r == Err::<Vec<u8>, FrameError>(FrameError::PacketTooLarge),
{
    let len = packet.len();
    if len > MAX_PACKET_LEN {
        return Err(FrameError::PacketTooLarge);
    }
    let mut out: Vec<u8> = Vec::with_capacity(len + 2);
    out.push((len / 256) as u8);
    out.push((len % 256) as u8);
    let mut i: usize = 0;
    while i < len
        invariant
            len == packet@.len(),
            i <= len,
            out@ == seq![(len / 256) as u8, (len % 256) as u8] + packet@.subrange(0, i as int),
        decreases len - i,
    {
        out.push(packet[i]);
        assert(packet@.subrange(0, i as int + 1) =~= packet@.subrange(0, i as int).push(packet@[i as int]));
        i = i + 1;
    }
    assert(packet@.subrange(0, len as int) =~= packet@);
    Ok(out)
}

/// Reads the first unit at the start of `buf`: the packet it carries and the number
/// of bytes it takes up, or `None` while `buf` does not yet hold a whole unit.
pub fn decode_frame(buf: &[u8]) -> (r: Option<(Vec<u8>, usize)>)
    ensures
        match first_frame(buf@) {
            None => r is None,
            Some((p, n)) => r is Some && r->Some_0.0@ == p && r->Some_0.1 == n,
        },
{
    assert(buf@.subrange(0, buf@.len() as int) =~= buf@);
    decode_frame_at(buf, 0)
}

/// `decode_frame` on the bytes of `buf` from `start` on.
fn decode_frame_at(buf: &[u8], start: usize) -> (r: Option<(Vec<u8>, usize)>)
    requires
        start <= buf@.len(),
    ensures
        match first_frame(buf@.subrange(start as int, buf@.len() as int)) {
            None => r is None,
            Some((p, n)) => r is Some && r->Some_0.0@ == p && r->Some_0.1 == n,
        },
{
    let ghost rest = buf@.subrange(start as int, buf@.len() as int);
    let total = buf.len();
    if total - start < 2 {
        return None;
    }
    let n: usize = (buf[start] as usize) * 256 + (buf[start + 1] as usize);
    assert(n == announced_len(rest[0], rest[1]));
    if total - start - 2 < n {
        return None;
    }
    let mut packet: Vec<u8> = Vec::with_capacity(n);
    let mut i: usize = 0;
    while i < n
        invariant
            total == buf@.len(),
            start + 2 + n <= total,
            rest == buf@.subrange(start as int, buf@.len() as int),
            i <= n,
            packet@ == rest.subrange(2, 2 + i as int),
        decreases n - i,
    {
        packet.push(buf[start + 2 + i]);
        assert(rest.subrange(2, 2 + i as int + 1) =~= rest.subrange(2, 2 + i as int).push(rest[2 + i as int]));
        i = i + 1;
    }
    Some((packet, n + 2))
}

/// The whole units at the start of `buf`, in order, as the packets they carry, and
/// the bytes after them, which do not yet make a whole unit.
pub open spec fn frames_in(buf: Seq<u8>) -> (Seq<Seq<u8>>, Seq<u8>)
    decreases buf.len(),
{
    if buf.len() >= 2 && buf.len() >= 2 + announced_len(buf[0], buf[1]) {
        let n = 2 + announced_len(buf[0], buf[1]);
        let tail = frames_in(buf.subrange(n as int, buf.len() as int));
        (seq![buf.subrange(2, n as int)] + tail.0, tail.1)
    } else {
        (Seq::empty(), buf)
    }
}

proof fn lemma_frames_in_step(buf: Seq<u8>)
    ensures
        match first_frame(buf) {
            None => frames_in(buf) == (Seq::<Seq<u8>>::empty(), buf),
            Some((p, n)) => frames_in(buf) == (
                seq![p] + frames_in(buf.subrange(n as int, buf.len() as int)).0,
                frames_in(buf.subrange(n as int, buf.len() as int)).1,
            ),
        },
{
}

/// The bytes of `buf` from `start` on.
fn copy_tail(buf: &[u8], start: usize) -> (r: Vec<u8>)
    requires
        start <= buf@.len(),
    ensures
        r@ == buf@.subrange(start as int, buf@.len() as int),
{
    let total = buf.len();
    let mut r: Vec<u8> = Vec::with_capacity(total - start);
    let mut i: usize = start;
    while i < total
        invariant
            total == buf@.len(),
            start <= i <= total,
            r@ == buf@.subrange(start as int, i as int),
        decreases total - i,
    {
        r.push(buf[i]);
        assert(buf@.subrange(start as int, i as int + 1) =~= buf@.subrange(start as int, i as int).push(buf@[i as int]));
        i = i + 1;
    }
    r
}

/// The packets held in `v`, as byte sequences.
pub open spec fn packets_view(v: Seq<Vec<u8>>) -> Seq<Seq<u8>> {
    v.map_values(|p: Vec<u8>| p@)
}

/// Takes every whole unit out of the front of `pending`, as the packets they carry,
/// in order, and leaves in `pending` the bytes of the unit not yet complete.
pub fn drain_frames(pending: &mut Vec<u8>) -> (packets: Vec<Vec<u8>>)
    ensures
        packets_view(packets@) == frames_in(old(pending)@).0,
        final(pending)@ == frames_in(old(pending)@).1,
{
    let ghost orig = pending@;
    let total = pending.len();
    let mut packets: Vec<Vec<u8>> = Vec::new();
    let mut offset: usize = 0;
    assert(orig.subrange(0, total as int) =~= orig);
    assert(packets_view(packets@) + frames_in(orig).0 =~= frames_in(orig).0);
    loop
        invariant
            pending@ == orig,
            orig == old(pending)@,
            total == orig.len(),
            offset <= total,
            frames_in(orig).0 == packets_view(packets@) + frames_in(orig.subrange(offset as int, total as int)).0,
            frames_in(orig).1 == frames_in(orig.subrange(offset as int, total as int)).1,
        decreases total - offset,
    {
        let ghost rest = orig.subrange(offset as int, total as int);
        proof {
            lemma_frames_in_step(rest);
        }
        match decode_frame_at(pending.as_slice(), offset) {
            None => {
                let remainder = copy_tail(pending.as_slice(), offset);
                assert(remainder@ =~= rest);
                assert(frames_in(rest) == (Seq::<Seq<u8>>::empty(), rest));
                assert(packets_view(packets@) + Seq::<Seq<u8>>::empty() =~= packets_view(packets@));
                *pending = remainder;
                return packets;
            },
            Some((packet, used)) => {
                let ghost before = packets@;
                assert(rest.subrange(used as int, rest.len() as int) =~= orig.subrange(offset + used, total as int));
                packets.push(packet);
                assert(packets_view(packets@) =~= packets_view(before).push(packet@));
                let ghost next = orig.subrange(offset + used, total as int);
                assert(frames_in(rest).0 == seq![packet@] + frames_in(next).0);
                assert(packets_view(before) + (seq![packet@] + frames_in(next).0) =~= packets_view(packets@) + frames_in(next).0);
                offset = offset + used;
            },
        }
    }
}

/// A framed packet reads back as itself, whatever follows it on the stream, and the
/// reader consumes exactly its unit.
pub proof fn lemma_frame_round_trip(packet: Seq<u8>, rest: Seq<u8>)
    requires
        packet.len() <= MAX_PACKET_LEN,
    ensures
        first_frame(frame_of(packet) + rest) == Some((packet, packet.len() + 2)),
{
    let buf = frame_of(packet) + rest;
    let len = packet.len();
    assert(buf[0] == (len / 256) as u8);
    assert(buf[1] == (len % 256) as u8);
    assert(announced_len(buf[0], buf[1]) == len);
    assert(buf.subrange(2, 2 + len as int) =~= packet);
}

} // verus!
