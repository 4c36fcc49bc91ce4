use sdop_game::bit_array::{PossibleMoves, BIT_COUNT};

#[test]
fn empty_set_has_no_bits() {
    let moves = PossibleMoves::new();
    assert!(moves.is_empty());
    assert_eq!(moves.bit_count(), 16);
    assert_eq!(BIT_COUNT, 16);
    assert_eq!(moves.next_set_bit(0), None);
    assert!(moves.set_bits().is_empty());
    assert!(PossibleMoves::default().is_empty());
}

#[test]
fn set_and_clear_bits() {
    let mut moves = PossibleMoves::new();
    moves.set_bit(3, true);
    moves.set_bit(15, true);
    moves.set_bit(7, true);
    assert!(moves.get_bit(3));
    assert!(moves.get_bit(15));
    assert!(!moves.get_bit(4));
    assert_eq!(moves.set_bits(), vec![3, 7, 15]);
    moves.set_bit(7, false);
    assert!(!moves.get_bit(7));
    assert_eq!(moves.set_bits(), vec![3, 15]);
    assert!(!moves.is_empty());
}

#[test]
fn next_set_bit_finds_first_at_or_after() {
    let mut moves = PossibleMoves::new();
    moves.set_bit(2, true);
    moves.set_bit(9, true);
    assert_eq!(moves.next_set_bit(0), Some(2));
    assert_eq!(moves.next_set_bit(2), Some(2));
    assert_eq!(moves.next_set_bit(3), Some(9));
    assert_eq!(moves.next_set_bit(10), None);
    assert_eq!(moves.next_set_bit(100), None);
}
