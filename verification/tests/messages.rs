use onlinerpg::entity::PlayerId;
use onlinerpg::messages::{AttackRejectReason, ClientMessage};
use onlinerpg::world::{Position, Scalar};

#[test]
fn attack_rejections_have_wire_names() {
    assert_eq!(AttackRejectReason::InvalidTarget.as_str(), "invalid_target");
    assert_eq!(AttackRejectReason::OutOfRange.as_str(), "out_of_range");
    assert_eq!(AttackRejectReason::AttackerDead.as_str(), "attacker_dead");
    assert_eq!(AttackRejectReason::NotInGame.as_str(), "not_in_game");
}

#[test]
fn a_plain_move_replaces_the_queue() {
    let number = |value: f32| Scalar::from_bits(value.to_bits());
    let position = Position {
        x: number(1.0),
        y: number(2.0),
        z: number(3.0),
    };
    match ClientMessage::player_move(position, number(0.5), -2) {
        ClientMessage::PlayerMove {
            position,
            rotation,
            floor_level: -2,
            append: false,
        } => {
            assert_eq!(position.z.bits, 3.0f32.to_bits());
            assert_eq!(rotation.bits, 0.5f32.to_bits());
        }
        other => panic!("{other:?}"),
    }
}

#[test]
fn player_ids_wrap_their_number() {
    assert_eq!(PlayerId::from(7), PlayerId(7));
}
