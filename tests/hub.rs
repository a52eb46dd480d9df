use zkpoker::hub::{GameHubContract, HubError};
use zkpoker::poker::Address;

#[test]
fn start_game_ids_from_timestamp() {
    let mut hub = GameHubContract::new();
    let p1 = Address { key: [1; 32] };
    let p2 = Address { key: [2; 32] };
    let id = hub.start_game(p1, p2, 0x0102_0304_0506_0708);
    let mut expected = [0u8; 32];
    expected[..8].copy_from_slice(&[1, 2, 3, 4, 5, 6, 7, 8]);
    assert_eq!(id, expected);
    let g = hub.get_game(id).unwrap();
    assert_eq!(g.player1, p1);
    assert_eq!(g.player2, p2);
    assert_eq!(g.started_at, 0x0102_0304_0506_0708);
    assert!(g.is_active);
    assert_eq!(g.winner, None);
}

#[test]
fn end_game_records_winner() {
    let mut hub = GameHubContract::new();
    let p1 = Address { key: [1; 32] };
    let p2 = Address { key: [2; 32] };
    let id = hub.start_game(p1, p2, 500);
    assert_eq!(hub.end_game(id, Address { key: [3; 32] }, 600), Err(HubError::NotAPlayer));
    assert!(hub.get_game(id).unwrap().is_active);
    assert_eq!(hub.end_game([9; 32], p2, 600), Err(HubError::NotFound));
    hub.end_game(id, p2, 600).unwrap();
    let g = hub.get_game(id).unwrap();
    assert!(!g.is_active);
    assert_eq!(g.ended_at, 600);
    assert_eq!(g.winner, Some(p2));
}

#[test]
fn same_timestamp_replaces_match() {
    let mut hub = GameHubContract::new();
    let a = Address { key: [1; 32] };
    let b = Address { key: [2; 32] };
    let c = Address { key: [3; 32] };
    let id1 = hub.start_game(a, b, 7);
    let id2 = hub.start_game(a, c, 7);
    assert_eq!(id1, id2);
    assert_eq!(hub.games.len(), 1);
    assert_eq!(hub.get_game(id1).unwrap().player2, c);
    hub.start_game(a, b, 8);
    assert_eq!(hub.games.len(), 2);
    assert!(matches!(hub.get_game([0; 32]), Err(HubError::NotFound)));
}
