use rgibberlink_core::hierarchical::{execute_command_payload, PayloadCommand};
use rgibberlink_core::hierarchical::{
    CommandChannel, CommandType, HierarchicalMessage, HierarchicalProtocolEngine, HierarchicalState, MilitaryRank,
};

#[test]
fn test_rank_levels() {
    assert_eq!(MilitaryRank::Private.level(), 1);
    assert_eq!(MilitaryRank::General.level(), 7);
    assert_eq!(MilitaryRank::from_level(4), Some(MilitaryRank::Captain));
    assert_eq!(MilitaryRank::from_level(0), None);
    assert_eq!(MilitaryRank::from_level(8), None);
    for level in 1..=7u8 {
        assert_eq!(MilitaryRank::from_level(level).unwrap().level(), level);
    }
}

#[test]
fn test_command_authority() {
    assert!(MilitaryRank::General.can_command(&MilitaryRank::Private));
    assert!(MilitaryRank::Captain.can_command(&MilitaryRank::Captain));
    assert!(!MilitaryRank::Sergeant.can_command(&MilitaryRank::Lieutenant));
}

#[test]
fn test_send_command_channels() {
    let mut general = HierarchicalProtocolEngine::new(MilitaryRank::General, 0);
    let (seq, msg, channel) = general.send_command(MilitaryRank::Private, CommandType::DirectOrder, vec![1], true, 9).unwrap();
    assert_eq!(seq, 0);
    assert_eq!(msg.target_rank, Some(MilitaryRank::Private));
    assert_eq!(channel, CommandChannel::Laser);
    let (seq2, _, _) = general.send_command(MilitaryRank::Colonel, CommandType::StatusUpdate, vec![], false, 10).unwrap();
    assert_eq!(seq2, 1);
    let mut sergeant = HierarchicalProtocolEngine::new(MilitaryRank::Sergeant, 0);
    assert!(sergeant.send_command(MilitaryRank::General, CommandType::DirectOrder, vec![], false, 0).is_err());
    let (_, _, ch) = sergeant.send_command(MilitaryRank::Private, CommandType::DirectOrder, vec![], false, 0).unwrap();
    assert_eq!(ch, CommandChannel::Ultrasound);
}

#[test]
fn test_presence_broadcast_interval() {
    let mut engine = HierarchicalProtocolEngine::new(MilitaryRank::Captain, 0);
    assert!(engine.broadcast_rank_presence(1000, 1000).is_none());
    let msg = engine.broadcast_rank_presence(5000, 5000).unwrap();
    assert_eq!(msg.payload, b"RANK_4".to_vec());
    assert_eq!(msg.command_type, CommandType::StatusUpdate);
    assert!(engine.broadcast_rank_presence(6000, 6000).is_none());
}

#[test]
fn test_order_acknowledged() {
    let mut private = HierarchicalProtocolEngine::new(MilitaryRank::Private, 0);
    let order = HierarchicalMessage {
        rank: MilitaryRank::Private,
        target_rank: Some(MilitaryRank::Private),
        sequence_id: 42,
        timestamp: 0,
        command_type: CommandType::DirectOrder,
        payload: vec![],
        ack_required: true,
    };
    let ack = private.receive_hierarchical_message(&order, 0, 1).unwrap().unwrap();
    assert_eq!(ack.command_type, CommandType::Acknowledgment);
    assert_eq!(ack.payload, b"ACK_42".to_vec());
    let emergency = HierarchicalMessage { command_type: CommandType::Emergency, ack_required: false, ..order };
    assert!(private.receive_hierarchical_message(&emergency, 0, 2).unwrap().is_none());
    assert_eq!(private.get_current_state(), HierarchicalState::EmergencyMode);
}

#[test]
fn test_superior_failover() {
    let mut captain = HierarchicalProtocolEngine::new(MilitaryRank::Captain, 0);
    captain.update_presence_list(MilitaryRank::General, [1u8; 16], true, 100);
    assert!(captain.is_superior_present(500));
    assert_eq!(captain.get_highest_rank_present(), Some(MilitaryRank::General));
    assert!(captain.check_superior_failover(500, 500).is_none());
    assert!(!captain.is_superior_present(2000));
    let _ = captain.check_superior_failover(6000, 6000);
    assert_eq!(captain.get_current_state(), HierarchicalState::ActiveCommand);
}

#[test]
fn test_coordinate_multi_device() {
    let colonel = HierarchicalProtocolEngine::new(MilitaryRank::Colonel, 0);
    let sent = colonel
        .coordinate_multi_device(&vec![MilitaryRank::Private, MilitaryRank::Sergeant], "PUSH CART 42 TO DOCK 7", 77)
        .unwrap();
    assert_eq!(sent.len(), 2);
    for ((seq, msg, channel), rank) in sent.iter().zip([MilitaryRank::Private, MilitaryRank::Sergeant]) {
        assert_eq!(*seq, 0);
        assert_eq!(msg.target_rank, Some(rank));
        assert_eq!(msg.command_type, CommandType::CoordinationOrder);
        assert_eq!(msg.payload, b"PUSH CART 42 TO DOCK 7".to_vec());
        assert!(msg.ack_required);
        assert_eq!(msg.timestamp, 77);
        assert_eq!(*channel, CommandChannel::Laser);
    }
    assert!(colonel.coordinate_multi_device(&vec![MilitaryRank::Private, MilitaryRank::General], "SYNC", 1).is_err());
    assert_eq!(colonel.coordinate_multi_device(&vec![], "SYNC", 1).unwrap().len(), 0);
}

#[test]
fn test_execute_command_payload() {
    assert_eq!(execute_command_payload(b"PUSH CART 42 TO DOCK 7"), PayloadCommand::PushCart);
    assert_eq!(execute_command_payload(b"SYNC CLOCKS"), PayloadCommand::Sync);
    assert_eq!(execute_command_payload(b"FOLLOW GREEN FLASHES"), PayloadCommand::FollowGreenFlashes);
    assert_eq!(execute_command_payload(b"FOLLOW GREEN FLASHES NOW"), PayloadCommand::Other);
    assert_eq!(execute_command_payload(b"PUSH"), PayloadCommand::Other);
    assert_eq!(execute_command_payload(b""), PayloadCommand::Other);
}

#[test]
fn test_rank_ordering() {
    assert!(MilitaryRank::Private < MilitaryRank::Sergeant);
    assert!(MilitaryRank::Colonel < MilitaryRank::General);
    assert!(MilitaryRank::Captain >= MilitaryRank::Captain);
    assert_eq!(MilitaryRank::General.max(MilitaryRank::Private), MilitaryRank::General);
    let mut ranks = vec![MilitaryRank::General, MilitaryRank::Private, MilitaryRank::Captain];
    ranks.sort();
    assert_eq!(ranks, vec![MilitaryRank::Private, MilitaryRank::Captain, MilitaryRank::General]);
}

#[test]
fn test_failover_announces_presence_when_due() {
    let mut captain = HierarchicalProtocolEngine::new(MilitaryRank::Captain, 0);
    let announcement = captain.check_superior_failover(6000, 77).unwrap();
    assert_eq!(announcement.rank, MilitaryRank::Captain);
    assert_eq!(announcement.target_rank, None);
    assert_eq!(announcement.sequence_id, 0);
    assert_eq!(announcement.timestamp, 77);
    assert_eq!(announcement.command_type, CommandType::StatusUpdate);
    assert_eq!(announcement.payload, b"RANK_4".to_vec());
    assert!(!announcement.ack_required);
    assert_eq!(captain.get_current_state(), HierarchicalState::ActiveCommand);
    assert!(captain.check_superior_failover(7000, 78).is_none());
    let next = captain.check_superior_failover(11000, 79).unwrap();
    assert_eq!(next.sequence_id, 1);
}
