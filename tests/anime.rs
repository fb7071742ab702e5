use asusctl::anime_device::{AniMePacketType, AniMeParser, PACKET_LEN, PANE_PIECES};
use asusctl::anime_diagonal::{AniMeDiagonal, ANIME_DATA_LEN};
use asusctl::anime_matrix::{AniMeStatusValue, PANE_LEN};

fn numbered_pane() -> [u8; PANE_LEN] {
    let mut pane = [0u8; PANE_LEN];
    for (i, b) in pane.iter_mut().enumerate() {
        *b = (i % 251) as u8 + 1;
    }
    pane
}

#[test]
fn pane_pieces_cover_the_frame_once() {
    let mut next = 0usize;
    for (src, which, dst, len) in PANE_PIECES.iter() {
        assert_eq!(*src as usize, next);
        assert!(*which == 1 || *which == 2);
        assert!(*dst as usize + *len as usize <= PACKET_LEN);
        next += *len as usize;
    }
    assert_eq!(next, PANE_LEN);
}

#[test]
fn pane_layout_places_rows() {
    let pane = numbered_pane();
    let (p1, p2) = AniMeParser::packets_from_pane(pane);
    // First row: frame bytes 0..32 at 8..40 of the first packet.
    assert_eq!(&p1[8..40], &pane[0..32]);
    assert_eq!(p1[40], 0);
    assert_eq!(&p1[41..74], &pane[32..65]);
    // The row that crosses packets: three bytes end the first packet.
    assert_eq!(&p1[631..634], &pane[610..613]);
    assert!(p1[634..].iter().all(|b| *b == 0));
    assert_eq!(&p2[7..30], &pane[613..636]);
    // Last row.
    assert_eq!(&p2[616..625], &pane[1205..1214]);
    assert!(p2[625..].iter().all(|b| *b == 0));
    assert!(p1[..8].iter().all(|b| *b == 0));
    // Every frame byte lands somewhere.
    let landed = p1.iter().chain(p2.iter()).filter(|b| **b != 0).count();
    assert_eq!(landed, PANE_LEN);
}

#[test]
fn control_packets() {
    let hs = AniMePacketType::Handshake.packets();
    assert_eq!(hs.len(), 3);
    assert_eq!(&hs[0][..15], b"\x5eASUS TECH.INC.");
    assert_eq!(&hs[1][..3], &[0x5e, 0xc2, 0]);
    assert_eq!(&hs[2][..4], &[0x5e, 0xc0, 0x04, 0]);
    let on = AniMePacketType::TurnOnOff(AniMeStatusValue::On).packets();
    assert_eq!(on.len(), 1);
    assert_eq!(&on[0][..5], &[0x5e, 0xc0, 0x04, 0x03, 0]);
    let off = AniMePacketType::TurnOnOff(AniMeStatusValue::Off).packets();
    assert_eq!(off[0][3], 0x00);
    let boot = AniMePacketType::TurnBootOnOff(AniMeStatusValue::Off).packets();
    assert_eq!(boot.len(), 2);
    assert_eq!(&boot[0][..4], &[0x5e, 0xc3, 0x01, 0x80]);
    assert_eq!(&boot[1][..5], &[0x5e, 0xc4, 0x01, 0x80, 0]);
}

#[test]
fn write_pane_packets() {
    let pane = numbered_pane();
    let pk = AniMePacketType::WritePane(pane).packets();
    assert_eq!(pk.len(), 3);
    assert_eq!(&pk[0][..8], &[0x5e, 0xc0, 0x02, 0x01, 0x00, 0x73, 0x02, 0]);
    assert_eq!(&pk[0][8..40], &pane[0..32]);
    assert_eq!(&pk[1][..7], &[0x5e, 0xc0, 0x02, 0x74, 0x02, 0x73, 0x02]);
    assert_eq!(&pk[1][7..30], &pane[613..636]);
    assert_eq!(&pk[2][..4], &[0x5e, 0xc0, 0x03, 0]);
}

#[test]
fn diagonal_data_buffer() {
    let dark = AniMeDiagonal::new().to_data_buffer();
    assert_eq!(dark.get().len(), ANIME_DATA_LEN);
    assert!(dark.get().iter().all(|b| *b == 0));
    let mut img = AniMeDiagonal::new();
    // Column 2, three rows above the bottom: the first value of the first run.
    img.set(36 - 3 - 1, 2, 200);
    // Column 3 at the bottom row: the first value of the fifth run.
    img.set(35, 3, 100);
    let data = img.to_data_buffer();
    assert_eq!(data.get()[1], 200);
    assert_eq!(data.get()[136], 100);
    assert_eq!(data.get().iter().filter(|b| **b != 0).count(), 2);
}
