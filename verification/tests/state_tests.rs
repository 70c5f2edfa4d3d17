use physics::player_input::{select_input, take_frame_input, QueuedInput};
use physics::editor::drag::{drag_start, DragActionType};
use physics::editor::materials::{Materials, MaterialLookup};
use physics::editor::wm::WmSlot;
use physics::player_input::{player_move, InputSerial, PlayerKeys, PlayerMove};
use physics::resources::AppState;

fn no_keys() -> PlayerKeys {
    PlayerKeys {
        forward: false,
        backward: false,
        left: false,
        right: false,
        up: false,
        down: false,
        jump: false,
        walk: false,
    }
}

#[test]
fn app_state_toggles() {
    assert_eq!(AppState::default(), AppState::InGame);
    assert_eq!(AppState::InGame.toggled(), AppState::Editor);
    assert_eq!(AppState::Editor.toggled(), AppState::InGame);
    assert!(AppState::InGame.player_input_enabled(false));
    assert!(!AppState::Editor.player_input_enabled(false));
    assert!(AppState::Editor.player_input_enabled(true));
}

#[test]
fn running_and_walking_speeds() {
    let mut k = no_keys();
    k.forward = true;
    k.left = true;
    k.up = true;
    k.jump = true;
    assert_eq!(player_move(&k), PlayerMove { forward: 6, right: -6, up: 1, jump: true });
    k.walk = true;
    assert_eq!(player_move(&k), PlayerMove { forward: 2, right: -2, up: 1, jump: true });
    let mut k = no_keys();
    k.forward = true;
    k.backward = true;
    k.down = true;
    assert_eq!(player_move(&k), PlayerMove { forward: 0, right: 0, up: -1, jump: false });
}

#[test]
fn serials_count_up() {
    let mut s = InputSerial { next_serial: 0 };
    assert_eq!(s.take(), 0);
    assert_eq!(s.take(), 1);
    assert_eq!(s.next_serial, 2);
}

#[test]
fn slot_resizes_only_on_change_with_image() {
    let mut slot = WmSlot::new();
    assert!(!slot.check_resize(32, 32, true));
    assert!(!slot.check_resize(100, 50, false));
    assert_eq!((slot.width, slot.height), (32, 32));
    assert!(slot.check_resize(100, 50, true));
    assert_eq!((slot.width, slot.height), (100, 50));
    assert!(!slot.check_resize(100, 50, true));
}

#[test]
fn material_lookup_follows_link_then_cache() {
    let mut links = Materials::new();
    links.insert_link("appearance/wall".to_string(), "material/brick".to_string());
    let made = vec!["material/stone".to_string()];
    let defined = vec!["material/brick".to_string(), "material/stone".to_string()];
    match links.get("appearance/wall", &made, &defined) {
        MaterialLookup::Instantiate(n) => assert_eq!(n, "material/brick"),
        other => panic!("unexpected {:?}", other),
    }
    match links.get("material/stone", &made, &defined) {
        MaterialLookup::Cached(n) => assert_eq!(n, "material/stone"),
        other => panic!("unexpected {:?}", other),
    }
    assert!(matches!(links.get("material/none", &made, &defined), MaterialLookup::Unknown));
}


#[test]
fn drag_start_choices() {
    assert_eq!(drag_start(false, true, 6, vec![1], false), None);
    assert_eq!(
        drag_start(true, true, 6, vec![1, 4], false),
        Some(DragActionType::Face { affected_faces: vec![1, 4] })
    );
    assert_eq!(
        drag_start(true, true, 3, vec![], true),
        Some(DragActionType::WholeBrush { affected_faces: vec![0, 1, 2] })
    );
    assert_eq!(drag_start(true, false, 0, vec![], true), Some(DragActionType::NonBrush));
    assert_eq!(drag_start(true, false, 0, vec![], false), None);
}


#[test]
fn frame_input_is_taken_in_game_and_while_walking_in_editor() {
    let mut k = no_keys();
    k.forward = true;
    let mut serial = InputSerial { next_serial: 5 };
    let mut queue: Vec<QueuedInput<u8>> = Vec::new();
    take_frame_input(AppState::Editor, &k, 1u8, &mut serial, &mut queue);
    assert!(queue.is_empty());
    assert_eq!(serial.next_serial, 5);
    take_frame_input(AppState::InGame, &k, 2u8, &mut serial, &mut queue);
    assert_eq!(queue, vec![QueuedInput { serial: 5, movement: PlayerMove { forward: 6, right: 0, up: 0, jump: false }, look: 2u8 }]);
    k.walk = true;
    take_frame_input(AppState::Editor, &k, 3u8, &mut serial, &mut queue);
    assert_eq!(queue.len(), 2);
    assert_eq!(queue[1].serial, 6);
    assert_eq!(queue[1].movement.forward, 2);
    assert_eq!(serial.next_serial, 7);
}

#[test]
fn only_the_newest_unapplied_input_is_applied() {
    let mv = PlayerMove { forward: 0, right: 0, up: 0, jump: false };
    let mut last = None;
    let mut queue = vec![
        QueuedInput { serial: 1, movement: mv, look: () },
        QueuedInput { serial: 2, movement: mv, look: () },
    ];
    assert_eq!(select_input(&mut queue, &mut last).map(|i| i.serial), Some(2));
    assert!(queue.is_empty());
    assert_eq!(last, Some(2));
    let mut queue = vec![QueuedInput { serial: 2, movement: mv, look: () }];
    assert_eq!(select_input(&mut queue, &mut last), None);
    assert!(queue.is_empty());
    assert_eq!(last, Some(2));
    assert_eq!(select_input(&mut queue, &mut last), None);
}
