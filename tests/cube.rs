use cubalt::cube::Cube;
use cubalt::lane::{CornerLane, EdgeLane};
use cubalt::slot::{Corner, Edge};
use cubalt::types::{Cori, Eori};

fn edge_bytes(c: &Cube) -> Vec<u8> {
    c.edges().iter().map(|e| e.byte()).collect()
}

fn corner_bytes(c: &Cube) -> Vec<u8> {
    c.corners().iter().map(|x| x.byte()).collect()
}

#[test]
fn identity_pieces_at_home() {
    let c = Cube::identity();
    assert_eq!(c.edges().len(), 12);
    assert_eq!(c.corners().len(), 8);
    for (i, e) in c.edges().iter().enumerate() {
        assert_eq!(e.index() as usize, i);
        assert_eq!(e.orientation(), 0);
    }
    for (i, x) in c.corners().iter().enumerate() {
        assert_eq!(x.index() as usize, i);
        assert_eq!(x.orientation(), 0);
    }
    assert!(!c.parity());
    assert!(c.is_well_formed());
}

#[test]
fn identity_words() {
    let c = Cube::identity();
    assert_eq!(c.edge_lane().low_word(), 0x0706050403020100);
    assert_eq!(c.edge_lane().high_word(), 0x0000_0000_0B0A0908);
    assert_eq!(c.corner_lane().low_word(), 0x0706050403020100);
    assert_eq!(c.corner_lane().high_word(), 0);
}

#[test]
fn literal_round_trip() {
    let corners = 0x0203000105060704u64;
    let edges_high = 0x0000_0000_0809_0A0Bu64;
    let edges_low = 0x0405060700010203u64;
    let c = Cube::new(corners, edges_high, edges_low);
    assert_eq!(c.edge_lane().low_word(), edges_low);
    assert_eq!(c.edge_lane().high_word(), edges_high);
    assert_eq!(c.corner_lane().low_word(), corners);
    assert_eq!(c.corner_lane().high_word(), 0);
}

#[test]
fn literal_round_trip_keeps_spare_bytes() {
    let c = Cube::new(0x0706050403020100, 0xDEADBEEF_0B0A0908, 0x0706050403020100);
    assert_eq!(c.edge_lane().high_word(), 0xDEADBEEF_0B0A0908);
    assert_eq!(edge_bytes(&c), vec![0, 1, 2, 3, 4, 5, 6, 7, 8, 9, 10, 11]);
}

#[test]
fn raw_value_round_trip() {
    let v = [0x1111_2222_3333_4444u64, 0x5555_6666_7777_8888, 0x99AA_BBCC_DDEE_FF00, 0x0102_0304_0506_0708];
    let c = Cube::from_raw_m256(v);
    assert_eq!(c.edge_lane().low_word(), v[0]);
    assert_eq!(c.edge_lane().high_word(), v[1]);
    assert_eq!(c.corner_lane().low_word(), v[2]);
    assert_eq!(c.corner_lane().high_word(), v[3]);
    assert_eq!(edge_bytes(&c)[0], 0x44);
    assert_eq!(edge_bytes(&c)[11], 0x77);
    assert_eq!(corner_bytes(&c)[7], 0x99);
}

#[test]
fn literal_scenario_edges() {
    let c = Cube::new(0x0706050403020100, 0, 0x0B0A090807060504);
    assert_eq!(edge_bytes(&c), vec![4, 5, 6, 7, 8, 9, 10, 11, 0, 0, 0, 0]);
    assert_eq!(corner_bytes(&c), vec![0, 1, 2, 3, 4, 5, 6, 7]);
}

#[test]
fn edge_slot_write_shows_in_lane() {
    let mut c = Cube::identity();
    c.edges_mut()[9] = Edge(0x13);
    assert_eq!(c.edge_lane().high_word(), 0x0000_0000_0B0A1308);
    assert_eq!(c.edge_lane().low_word(), 0x0706050403020100);
    c.edges_mut()[2] = Edge(0x1A);
    assert_eq!(c.edge_lane().low_word(), 0x0706050403_1A_0100);
    assert_eq!(c.corner_lane().low_word(), 0x0706050403020100);
}

#[test]
fn corner_word_write_shows_in_corners() {
    let mut c = Cube::identity();
    c.corners_64_mut(0x0001020304050607);
    assert_eq!(corner_bytes(&c), vec![7, 6, 5, 4, 3, 2, 1, 0]);
    assert_eq!(c.corner_lane().low_word(), 0x0001020304050607);
    assert_eq!(edge_bytes(&c), vec![0, 1, 2, 3, 4, 5, 6, 7, 8, 9, 10, 11]);
}

#[test]
fn corner_slot_write_shows_in_lane() {
    let mut c = Cube::identity();
    c.corners_mut()[0] = Corner(0x21);
    c.corners_mut()[1] = Corner(0x10);
    assert_eq!(c.corner_lane().low_word(), 0x0706050403021021);
}

#[test]
fn lane_writes_replace_whole_lane() {
    let mut c = Cube::identity();
    *c.edge_lane_mut() = EdgeLane::from_words(0x0B0A090807060504, 0x0302_0100);
    assert_eq!(edge_bytes(&c), vec![4, 5, 6, 7, 8, 9, 10, 11, 0, 1, 2, 3]);
    *c.corner_lane_mut() = CornerLane::from_words(0x0001020304050607, 0);
    assert_eq!(corner_bytes(&c), vec![7, 6, 5, 4, 3, 2, 1, 0]);
    assert!(c.is_well_formed());
}

#[test]
fn spare_bytes_never_exposed() {
    let mut c = Cube::from_raw_m256([0x0706050403020100, 0xFFFF_FFFF_0B0A0908, 0x0706050403020100, u64::MAX]);
    assert_eq!(c.edges().len(), 12);
    assert_eq!(c.corners().len(), 8);
    assert_eq!(c.edges_mut().len(), 12);
    assert_eq!(c.corners_mut().len(), 8);
    assert_eq!(edge_bytes(&c), vec![0, 1, 2, 3, 4, 5, 6, 7, 8, 9, 10, 11]);
    assert_eq!(corner_bytes(&c), vec![0, 1, 2, 3, 4, 5, 6, 7]);
    assert!(c.is_well_formed());
    assert!(!c.parity());
}

#[test]
fn well_formed_literal_has_values_in_range() {
    let c = Cube::try_new(0x2716_0001_0203_0405, 0x0000_0000_0A0B_0809, 0x1716_0504_0302_0100).unwrap();
    for e in c.edges() {
        assert!(e.index() <= 11);
        assert!(e.orientation() <= 1);
    }
    for x in c.corners() {
        assert!(x.index() <= 7);
        assert!(x.orientation() <= 2);
    }
}

#[test]
fn try_new_accepts_identity_words() {
    let c = Cube::try_new(0x0706050403020100, 0x0B0A0908, 0x0706050403020100).unwrap();
    assert_eq!(edge_bytes(&c), vec![0, 1, 2, 3, 4, 5, 6, 7, 8, 9, 10, 11]);
    assert!(!c.parity());
}

#[test]
fn try_new_rejects_edge_index_out_of_range() {
    assert!(Cube::try_new(0x0706050403020100, 0x0C0A0908, 0x0706050403020100).is_none());
}

#[test]
fn try_new_rejects_repeated_edge_index() {
    assert!(Cube::try_new(0x0706050403020100, 0x0B0A0908, 0x0706050403020000).is_none());
    assert!(Cube::try_new(0x0706050403020100, 0x0B0A0908, 0x0706050403021000).is_none());
}

#[test]
fn try_new_rejects_edge_high_bits() {
    assert!(Cube::try_new(0x0706050403020100, 0x0B0A0908, 0x0706050403020120).is_none());
}

#[test]
fn try_new_rejects_undefined_corner_orientation() {
    // orientation 3 is an undefined packed value
    assert!(Cube::try_new(0x0706050403020130, 0x0B0A0908, 0x0706050403020100).is_none());
}

#[test]
fn try_new_rejects_corner_bit_three() {
    assert!(Cube::try_new(0x0706050403020108, 0x0B0A0908, 0x0706050403020100).is_none());
}

#[test]
fn try_new_rejects_repeated_corner_index() {
    assert!(Cube::try_new(0x0706050403020000, 0x0B0A0908, 0x0706050403020100).is_none());
    assert!(Cube::try_new(0x0706050403021000, 0x0B0A0908, 0x0706050403020100).is_none());
}

#[test]
fn unchecked_literal_keeps_malformed_bytes() {
    let c = Cube::new(0x0706050403020130, 0x0B0A0908, 0x07060504030201FF);
    assert_eq!(edge_bytes(&c)[0], 0xFF);
    assert_eq!(corner_bytes(&c)[0], 0x30);
    assert!(!c.is_well_formed());
}

#[test]
fn parity_of_one_swap_is_odd() {
    let mut c = Cube::identity();
    c.edges_mut()[0] = Edge(1);
    c.edges_mut()[1] = Edge(0);
    assert!(c.parity());
    assert!(c.parity());
    c.corners_mut()[6] = Corner(7);
    c.corners_mut()[7] = Corner(6);
    assert!(!c.parity());
}

#[test]
fn parity_ignores_orientation() {
    let mut c = Cube::identity();
    c.edges_mut()[0] = Edge(0x11);
    c.edges_mut()[1] = Edge(0x10);
    c.corners_mut()[3] = Corner(0x23);
    assert!(c.parity());
}

#[test]
fn parity_of_three_cycle_is_even() {
    let c = Cube::new(0x0706050403000201, 0x0B0A0908, 0x0706050403020100);
    assert!(!c.parity());
}

#[test]
fn parity_of_reversed_edges() {
    // twelve reversed: 66 inversions; eight reversed: 28 inversions
    let c = Cube::new(0x0001020304050607, 0x00010203, 0x0405060708090A0B);
    assert!(!c.parity());
    let d = Cube::new(0x0706050403020100, 0x00010203, 0x0405060708090A0B);
    assert!(!d.parity());
    let e = Cube::new(0x0706050403020100, 0x00010203, 0x040506070809_0B0A);
    assert!(e.parity());
}

#[test]
fn slot_fields() {
    assert_eq!(Edge(0x1B).index(), 11);
    assert_eq!(Edge(0x1B).orientation(), 1);
    assert!(Edge(0x1B).is_valid());
    assert!(!Edge(0x0C).is_valid());
    assert_eq!(Corner(0x25).index(), 5);
    assert_eq!(Corner(0x25).orientation(), 2);
    assert!(Corner(0x25).is_valid());
    assert_eq!(Corner(0x30).orientation(), 3);
    assert!(!Corner(0x30).is_valid());
    assert_eq!(Edge(3), Edge(3));
    assert_ne!(Corner(3), Corner(4));
}

#[test]
fn orientation_types_hold_values() {
    let e = Eori(1);
    let c = Cori(2);
    assert_eq!(e.0 + c.0, 3);
}
