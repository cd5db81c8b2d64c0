use ticket_store::bomb::DropBomb;

#[test]
#[allow(unused_mut)]
fn test_defused_drop_bomb() {
    let mut bomb = DropBomb::new();
    bomb.defuse();
    // The bomb should not panic when dropped
    // since it has been defused
}

#[test]
fn a_new_bomb_is_live() {
    let bomb = DropBomb::new();
    assert!(bomb.is_active());
    bomb.defuse();
}

#[test]
fn a_disarmed_bomb_is_not_live() {
    let mut bomb = DropBomb::new();
    bomb.disarm();
    assert!(!bomb.is_active());
    bomb.disarm();
    assert!(!bomb.is_active());
}
