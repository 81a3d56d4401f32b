use gridtile::geometry::GridPosition;
use gridtile::hotkey::{
    binding_for, decode, default_key_map, raw_token_for, registration_result, RegistrationError,
};

const ALL: [GridPosition; 9] = [
    GridPosition::TopLeft,
    GridPosition::Top,
    GridPosition::TopRight,
    GridPosition::Left,
    GridPosition::Middle,
    GridPosition::Right,
    GridPosition::BottomLeft,
    GridPosition::Bottom,
    GridPosition::BottomRight,
];

#[test]
fn tokens_are_labels_read_as_hex() {
    assert_eq!(raw_token_for(GridPosition::TopLeft), 0x746c);
    assert_eq!(raw_token_for(GridPosition::Top), 0x746d);
    assert_eq!(raw_token_for(GridPosition::TopRight), 0x7472);
    assert_eq!(raw_token_for(GridPosition::Left), 0x6d6c);
    assert_eq!(raw_token_for(GridPosition::Middle), 0x6d6d);
    assert_eq!(raw_token_for(GridPosition::Right), 0x6d72);
    assert_eq!(raw_token_for(GridPosition::BottomLeft), 0x626c);
    assert_eq!(raw_token_for(GridPosition::Bottom), 0x626d);
    assert_eq!(raw_token_for(GridPosition::BottomRight), 0x6272);
}

#[test]
fn decode_inverts_registration() {
    for p in ALL.iter() {
        assert_eq!(decode(raw_token_for(*p)), *p);
    }
}

#[test]
fn tokens_are_distinct() {
    for (i, p) in ALL.iter().enumerate() {
        for (j, q) in ALL.iter().enumerate() {
            if i != j {
                assert_ne!(raw_token_for(*p), raw_token_for(*q));
            }
        }
    }
}

#[test]
fn unknown_tokens_decode_to_middle() {
    for t in [0, 1, -1, 5, 0x746, 0x4142, 0x746c74, 0x7465, 0x746e, 0x6c74, 0x1746c, -0x746c, i32::MAX, i32::MIN, 65535, 65536] {
        assert_eq!(decode(t), GridPosition::Middle);
    }
}

#[test]
fn default_key_map_binds_each_cell() {
    let map = default_key_map();
    assert_eq!(map.len(), 9);
    let keys = [0x55u32, 0x49, 0x4F, 0x4A, 0x4B, 0x4C, 0x4D, 0xBC, 0xBE];
    for i in 0..9 {
        assert_eq!(map[i].position, ALL[i]);
        assert_eq!(map[i].key, keys[i]);
        assert_eq!(map[i].token, raw_token_for(ALL[i]));
        assert_eq!(decode(map[i].token), ALL[i]);
        assert_eq!(map[i], binding_for(ALL[i]));
    }
}

#[test]
fn registration_succeeds_when_every_key_is_taken() {
    let map = default_key_map();
    assert_eq!(registration_result(&map, &vec![true; 9]), Ok(()));
    assert_eq!(registration_result(&Vec::new(), &Vec::new()), Ok(()));
}

#[test]
fn registration_reports_first_refused_key() {
    let map = default_key_map();
    let mut accepted = vec![true; 9];
    accepted[7] = false;
    accepted[8] = false;
    assert_eq!(
        registration_result(&map, &accepted),
        Err(RegistrationError { position: GridPosition::Bottom, key: 0xBC })
    );
    accepted[0] = false;
    assert_eq!(
        registration_result(&map, &accepted),
        Err(RegistrationError { position: GridPosition::TopLeft, key: 0x55 })
    );
}
