use vstd::prelude::*;
use vstd::array::array_fill_for_copy_types;

use crate::anime_matrix::{AniMePane, AniMeStatusValue, PANE_LEN};

verus! {

/// Bytes in one USB packet to the display.
pub const PACKET_LEN: usize = 640;

/// One USB packet to the display.
pub type AniMePacket = [u8; 640];

/// How a frame is laid out over the two packets that carry it: each piece
/// gives where it starts in the frame, the packet (1 or 2) it goes to, where
/// it starts there, and its length. The pieces are the display's rows from
/// the top, in order; the row that crosses from the first packet into the
/// second is two pieces. Bytes that no piece covers stay zero.
///
/// The pieces tile the frame: each starts where the one before it ends in
/// the frame, and the lengths in the frame and in the packet agree. Where
/// the older row table disagreed with itself (rows 9, 16, 32 and 35 had
/// frame and packet ranges of unequal length, row 21 sent its 26 bytes to a
/// 3-byte range, and row 27 started at frame byte 758, one past the end of
/// row 26 and overlapping row 28), the pieces follow the neighbouring rows:
/// row 27 starts at 757, and row 21 is split between the two packets.
pub const PANE_PIECES: [(u16, u8, u16, u16); 56] = [
    (0, 1, 8, 32),
    (32, 1, 41, 33),
    (65, 1, 76, 33),
    (98, 1, 109, 33),
    (131, 1, 144, 33),
    (164, 1, 177, 33),
    (197, 1, 211, 33),
    (230, 1, 244, 32),
    (262, 1, 277, 32),
    (294, 1, 309, 31),
    (325, 1, 341, 31),
    (356, 1, 372, 30),
    (386, 1, 403, 30),
    (416, 1, 433, 29),
    (445, 1, 463, 29),
    (474, 1, 492, 28),
    (502, 1, 521, 28),
    (530, 1, 549, 27),
    (557, 1, 577, 27),
    (584, 1, 604, 26),
    (610, 1, 631, 3),
    (613, 2, 7, 23),
    (636, 2, 30, 25),
    (661, 2, 56, 25),
    (686, 2, 81, 24),
    (710, 2, 106, 24),
    (734, 2, 130, 23),
    (757, 2, 154, 23),
    (780, 2, 177, 22),
    (802, 2, 200, 22),
    (824, 2, 222, 21),
    (845, 2, 244, 21),
    (866, 2, 265, 20),
    (886, 2, 286, 20),
    (906, 2, 306, 19),
    (925, 2, 326, 19),
    (944, 2, 345, 18),
    (962, 2, 364, 18),
    (980, 2, 382, 17),
    (997, 2, 400, 17),
    (1014, 2, 417, 16),
    (1030, 2, 434, 16),
    (1046, 2, 450, 15),
    (1061, 2, 466, 15),
    (1076, 2, 481, 14),
    (1090, 2, 496, 14),
    (1104, 2, 510, 13),
    (1117, 2, 524, 13),
    (1130, 2, 537, 12),
    (1142, 2, 550, 12),
    (1154, 2, 562, 11),
    (1165, 2, 574, 11),
    (1176, 2, 585, 10),
    (1186, 2, 596, 10),
    (1196, 2, 606, 9),
    (1205, 2, 616, 9)
];

/// `part` written into `s` from index `at`.
pub open spec fn splice(s: Seq<u8>, at: int, part: Seq<u8>) -> Seq<u8> {
    s.take(at) + part + s.skip(at + part.len())
}

/// The packets after copying one piece of `pane` into them.
pub open spec fn copy_piece(pkts: (Seq<u8>, Seq<u8>), pane: Seq<u8>, piece: (u16, u8, u16, u16)) -> (Seq<u8>, Seq<u8>) {
    let part = pane.subrange(piece.0 as int, piece.0 + piece.3);
    if piece.1 == 1 {
        (splice(pkts.0, piece.2 as int, part), pkts.1)
    } else {
        (pkts.0, splice(pkts.1, piece.2 as int, part))
    }
}

/// The packets after copying the first `n` pieces of `pane` into two zeroed
/// packets.
pub open spec fn layout(pane: Seq<u8>, n: nat) -> (Seq<u8>, Seq<u8>)
    decreases n,
{
    if n == 0 {
        (Seq::new(PACKET_LEN as nat, |i: int| 0u8), Seq::new(PACKET_LEN as nat, |i: int| 0u8))
    } else {
        copy_piece(layout(pane, (n - 1) as nat), pane, PANE_PIECES@[n - 1])
    }
}

/// Every piece lies inside the frame and inside its packet.
proof fn lemma_piece_bounds(k: int)
    requires
        0 <= k < 56,
    ensures
        PANE_PIECES@[k].0 + PANE_PIECES@[k].3 <= PANE_LEN,
        PANE_PIECES@[k].2 + PANE_PIECES@[k].3 <= PACKET_LEN,
        PANE_PIECES@[k].1 == 1 || PANE_PIECES@[k].1 == 2,
{
    assert(
        k == 0 || k == 1 || k == 2 || k == 3 || k == 4 || k == 5 || k == 6 || k == 7
            || k == 8 || k == 9 || k == 10 || k == 11 || k == 12 || k == 13 || k == 14 || k == 15
            || k == 16 || k == 17 || k == 18 || k == 19 || k == 20 || k == 21 || k == 22 || k == 23
            || k == 24 || k == 25 || k == 26 || k == 27 || k == 28 || k == 29 || k == 30 || k == 31
            || k == 32 || k == 33 || k == 34 || k == 35 || k == 36 || k == 37 || k == 38 || k == 39
            || k == 40 || k == 41 || k == 42 || k == 43 || k == 44 || k == 45 || k == 46 || k == 47
            || k == 48 || k == 49 || k == 50 || k == 51 || k == 52 || k == 53 || k == 54 || k == 55
    );
}

/// Lays frames out over the packets that carry them.
pub struct AniMeParser;

impl AniMeParser {
    /// Lays a frame out over the two packets that carry it.
    pub fn packets_from_pane(pane: AniMePane) -> (r: (AniMePacket, AniMePacket))
        ensures
            (r.0@, r.1@) == layout(pane@, 56),
    {
        let mut packet1: AniMePacket = array_fill_for_copy_types(0u8);
        let mut packet2: AniMePacket = array_fill_for_copy_types(0u8);
        assert(packet1@ =~= layout(pane@, 0).0);
        assert(packet2@ =~= layout(pane@, 0).1);
        let mut k: usize = 0;
        while k < 56
            invariant
                0 <= k <= 56,
                (packet1@, packet2@) == layout(pane@, k as nat),
            decreases 56 - k,
        {
            proof {
                lemma_piece_bounds(k as int);
            }
            let (src, which, dst, len) = PANE_PIECES[k];
            let ghost before = (packet1@, packet2@);
            let ghost part = pane@.subrange(src as int, src + len);
            let mut i: usize = 0;
            while i < len as usize
                invariant
                    0 <= i <= len,
                    src + len <= PANE_LEN,
                    dst + len <= PACKET_LEN,
                    part == pane@.subrange(src as int, src + len),
                    which == 1 ==> packet1@ == splice(before.0, dst as int, part.take(i as int)) && packet2@ == before.1,
                    which != 1 ==> packet2@ == splice(before.1, dst as int, part.take(i as int)) && packet1@ == before.0,
                    before.0.len() == PACKET_LEN,
                    before.1.len() == PACKET_LEN,
                decreases len - i,
            {
                let v = pane[src as usize + i];
                if which == 1 {
                    packet1[dst as usize + i] = v;
                    assert(packet1@ =~= splice(before.0, dst as int, part.take(i + 1)));
                } else {
                    packet2[dst as usize + i] = v;
                    assert(packet2@ =~= splice(before.1, dst as int, part.take(i + 1)));
                }
                i = i + 1;
            }
            assert(part.take(len as int) =~= part);
            k = k + 1;
        }
        (packet1, packet2)
    }
}

pub const HANDSHAKE1_HEADER: [u8; 15] = [0x5e, 0x41, 0x53, 0x55, 0x53, 0x20, 0x54, 0x45, 0x43, 0x48, 0x2e, 0x49, 0x4e, 0x43, 0x2e];

pub const HANDSHAKE2_HEADER: [u8; 2] = [0x5e, 0xc2];

pub const HANDSHAKE3_HEADER: [u8; 3] = [0x5e, 0xc0, 0x04];

pub const TURNONOFF_HEADER: [u8; 3] = [0x5e, 0xc0, 0x04];

pub const TURNBOOTONOFF_HEADER: [u8; 3] = [0x5e, 0xc3, 0x01];

pub const APPLY_HEADER: [u8; 4] = [0x5e, 0xc4, 0x01, 0x80];

pub const FLUSH_HEADER: [u8; 3] = [0x5e, 0xc0, 0x03];

pub const PANE1_HEADER: [u8; 7] = [0x5e, 0xc0, 0x02, 0x01, 0x00, 0x73, 0x02];

pub const PANE2_HEADER: [u8; 7] = [0x5e, 0xc0, 0x02, 0x74, 0x02, 0x73, 0x02];

/// What is sent to the display.
pub enum AniMePacketType {
    /// The start-up handshake.
    Handshake,
    /// Turn the display on or off.
    TurnOnOff(AniMeStatusValue),
    /// Turn the boot and shutdown animation on or off.
    TurnBootOnOff(AniMeStatusValue),
    /// Show a frame.
    WritePane(AniMePane),
}

pub open spec fn zero_packet() -> Seq<u8> {
    Seq::new(PACKET_LEN as nat, |i: int| 0u8)
}

/// A zeroed packet that starts with `head`.
pub open spec fn headed(head: Seq<u8>) -> Seq<u8> {
    splice(zero_packet(), 0, head)
}

/// The packets, in order, that carry a message to the display.
pub open spec fn packets_of(t: AniMePacketType) -> Seq<Seq<u8>> {
    match t {
        AniMePacketType::Handshake => seq![
            headed(HANDSHAKE1_HEADER@),
            headed(HANDSHAKE2_HEADER@),
            headed(HANDSHAKE3_HEADER@),
        ],
        AniMePacketType::TurnOnOff(s) => seq![
            headed(TURNONOFF_HEADER@.push(if s == AniMeStatusValue::On { 0x03u8 } else { 0x00u8 })),
        ],
        AniMePacketType::TurnBootOnOff(s) => seq![
            headed(TURNBOOTONOFF_HEADER@.push(if s == AniMeStatusValue::On { 0x00u8 } else { 0x80u8 })),
            headed(APPLY_HEADER@),
        ],
        AniMePacketType::WritePane(p) => seq![
            splice(layout(p@, 56).0, 0, PANE1_HEADER@),
            splice(layout(p@, 56).1, 0, PANE2_HEADER@),
            headed(FLUSH_HEADER@),
        ],
    }
}

/// `p` with its first bytes replaced by `head`.
fn with_header(p: AniMePacket, head: &[u8]) -> (r: AniMePacket)
    requires
        head@.len() <= PACKET_LEN,
    ensures
        r@ == splice(p@, 0, head@),
{
    let mut p = p;
    let ghost start = p@;
    let mut i: usize = 0;
    while i < head.len()
        invariant
            head@.len() <= PACKET_LEN,
            start.len() == PACKET_LEN,
            0 <= i <= head@.len(),
            p@ == splice(start, 0, head@.take(i as int)),
        decreases head@.len() - i,
    {
        p[i] = head[i];
        i = i + 1;
        assert(p@ =~= splice(start, 0, head@.take(i as int)));
    }
    assert(head@.take(head@.len() as int) =~= head@);
    p
}

/// A zeroed packet that starts with `head`.
fn headed_packet(head: &[u8]) -> (r: AniMePacket)
    requires
        head@.len() <= PACKET_LEN,
    ensures
        r@ == headed(head@),
{
    let p: AniMePacket = array_fill_for_copy_types(0u8);
    assert(p@ =~= zero_packet());
    with_header(p, head)
}

impl AniMePacketType {
    /// The packets, in order, that carry the message to the display.
    pub fn packets(self) -> (r: Vec<AniMePacket>)
        ensures
            r@.map_values(|p: AniMePacket| p@) == packets_of(self),
    {
        let ghost t = self;
        let mut out: Vec<AniMePacket> = Vec::new();
        match self {
            AniMePacketType::Handshake => {
                out.push(headed_packet(HANDSHAKE1_HEADER.as_slice()));
                out.push(headed_packet(HANDSHAKE2_HEADER.as_slice()));
                out.push(headed_packet(HANDSHAKE3_HEADER.as_slice()));
            },
            AniMePacketType::TurnOnOff(status) => {
                let mut p = headed_packet(TURNONOFF_HEADER.as_slice());
                p[3] = if status.is_on() { 0x03 } else { 0x00 };
                proof {
                    let h = TURNONOFF_HEADER@.push(if status == AniMeStatusValue::On { 0x03u8 } else { 0x00u8 });
                    assert(p@ =~= headed(h));
                }
                out.push(p);
            },
            AniMePacketType::TurnBootOnOff(status) => {
                let mut p = headed_packet(TURNBOOTONOFF_HEADER.as_slice());
                p[3] = if status.is_on() { 0x00 } else { 0x80 };
                proof {
                    let h = TURNBOOTONOFF_HEADER@.push(if status == AniMeStatusValue::On { 0x00u8 } else { 0x80u8 });
                    assert(p@ =~= headed(h));
                }
                out.push(p);
                out.push(headed_packet(APPLY_HEADER.as_slice()));
            },
            AniMePacketType::WritePane(pane) => {
                let (p1, p2) = AniMeParser::packets_from_pane(pane);
                out.push(with_header(p1, PANE1_HEADER.as_slice()));
                out.push(with_header(p2, PANE2_HEADER.as_slice()));
                out.push(headed_packet(FLUSH_HEADER.as_slice()));
            },
        }
        assert(out@.map_values(|p: AniMePacket| p@) =~= packets_of(t));
        out
    }
}

} // verus!
