use rfnm::{channel_flag_to_number, resolve_channel, Channel};

#[test]
fn single_bit_selector_resolves_to_its_index() {
    assert_eq!(channel_flag_to_number(Channel(1 << 2)), Some(2));
    assert_eq!(resolve_channel(Channel(1 << 2)), 2);
}

#[test]
fn every_mask_bit_resolves() {
    for i in 0..8u32 {
        assert_eq!(channel_flag_to_number(Channel(1 << i)), Some(i));
        assert_eq!(resolve_channel(Channel(1 << i)), i);
    }
}

#[test]
fn zero_selector_falls_back_to_zero() {
    assert_eq!(channel_flag_to_number(Channel(0)), None);
    assert_eq!(resolve_channel(Channel(0)), 0);
}

#[test]
fn multi_bit_selector_falls_back_to_zero() {
    assert_eq!(channel_flag_to_number(Channel(0b101)), None);
    assert_eq!(resolve_channel(Channel(0b101)), 0);
}

#[test]
fn highest_mask_bit_resolves_to_its_index() {
    assert_eq!(channel_flag_to_number(Channel(1 << 7)), Some(7));
    assert_eq!(resolve_channel(Channel(1 << 7)), 7);
}

#[test]
fn bit_beyond_the_mask_falls_back_to_zero() {
    assert_eq!(channel_flag_to_number(Channel(1 << 8)), None);
    assert_eq!(resolve_channel(Channel(1 << 8)), 0);
}
