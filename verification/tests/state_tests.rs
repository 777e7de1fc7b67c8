use tamagotchi::state::{wait_budget, AppState, Command, Key, Marker};

fn ticks(s: &mut AppState, n: u64) {
    let mut i: u64 = 0;
    while i < n {
        s.on_tick();
        i += 1;
    }
}

#[test]
fn fresh_state_defaults() {
    let s = AppState::new();
    // Positions are stored in half-cells: (200, 100) draws as (100.0, 50.0).
    assert_eq!(s.position.x, 200);
    assert_eq!(s.position.y, 100);
    assert_eq!(s.playground.x, 10);
    assert_eq!(s.playground.y, 10);
    assert_eq!(s.playground.width, 200);
    assert_eq!(s.playground.height, 100);
    assert_eq!(s.hunger, 0);
    assert_eq!(s.happiness, 100);
    assert_eq!(s.tick_count, 0);
    assert_eq!(s.marker, Marker::Dot);
    assert!(s.is_well_formed());
}

#[test]
fn sixty_ticks_scenario() {
    let mut s = AppState::new();
    ticks(&mut s, 60);
    assert_eq!(s.hunger, 1);
    assert_eq!(s.happiness, 100);
    assert_eq!(s.marker, Marker::Dot);
    // Initial (100.0, 50.0) plus (60, -30), clamped: neither axis hits
    // a bound, giving (160.0, 20.0); in half-cells (320, 40).
    assert_eq!(s.position.x, 320);
    assert_eq!(s.position.y, 40);
    assert_eq!(s.tick_count, 60);
}

#[test]
fn hundred_twenty_ticks_scenario() {
    let mut s = AppState::new();
    ticks(&mut s, 120);
    assert_eq!(s.hunger, 2);
    assert_eq!(s.happiness, 99);
}

#[test]
fn thousand_left_moves_scenario() {
    let mut s = AppState::new();
    for _ in 0..1000 {
        let quit = s.handle_key(Key::Char('h'));
        assert!(!quit);
    }
    // From x = 100.0 with the left edge at 10.0: 20 half-cells.
    assert_eq!(s.position.x, 20);
    assert_eq!(s.position.y, 100);
}

#[test]
fn hunger_closed_form_instances() {
    let mut s = AppState::new();
    ticks(&mut s, 59);
    assert_eq!(s.hunger, 0);
    ticks(&mut s, 1);
    assert_eq!(s.hunger, 1);
    ticks(&mut s, 599);
    // 659 ticks in all: floor(659 / 60) == 10.
    assert_eq!(s.hunger, 10);
}

#[test]
fn hunger_saturates_at_hundred() {
    let mut s = AppState::new();
    ticks(&mut s, 6000);
    assert_eq!(s.hunger, 100);
    ticks(&mut s, 600);
    assert_eq!(s.hunger, 100);
}

#[test]
fn happiness_closed_form_instances() {
    let mut s = AppState::new();
    ticks(&mut s, 119);
    assert_eq!(s.happiness, 100);
    ticks(&mut s, 121);
    // 240 ticks in all: 100 - floor(240 / 120) == 98.
    assert_eq!(s.happiness, 98);
}

#[test]
fn happiness_floors_at_zero() {
    let mut s = AppState::new();
    ticks(&mut s, 12000);
    assert_eq!(s.happiness, 0);
    ticks(&mut s, 240);
    assert_eq!(s.happiness, 0);
}

#[test]
fn marker_cycles_every_hundred_eighty_ticks() {
    let mut s = AppState::new();
    ticks(&mut s, 179);
    assert_eq!(s.marker, Marker::Dot);
    ticks(&mut s, 1);
    assert_eq!(s.marker, Marker::Braille);
    ticks(&mut s, 180);
    assert_eq!(s.marker, Marker::Block);
    ticks(&mut s, 180);
    assert_eq!(s.marker, Marker::HalfBlock);
    ticks(&mut s, 180);
    assert_eq!(s.marker, Marker::Bar);
    ticks(&mut s, 180);
    assert_eq!(s.marker, Marker::Dot);
}

#[test]
fn marker_next_cycle_order() {
    assert_eq!(Marker::Dot.next(), Marker::Braille);
    assert_eq!(Marker::Braille.next(), Marker::Block);
    assert_eq!(Marker::Block.next(), Marker::HalfBlock);
    assert_eq!(Marker::HalfBlock.next(), Marker::Bar);
    assert_eq!(Marker::Bar.next(), Marker::Dot);
}

#[test]
fn key_map() {
    assert_eq!(AppState::command_of(Key::Up), Command::MoveUp);
    assert_eq!(AppState::command_of(Key::Down), Command::MoveDown);
    assert_eq!(AppState::command_of(Key::Left), Command::MoveLeft);
    assert_eq!(AppState::command_of(Key::Right), Command::MoveRight);
    assert_eq!(AppState::command_of(Key::Char('k')), Command::MoveUp);
    assert_eq!(AppState::command_of(Key::Char('j')), Command::MoveDown);
    assert_eq!(AppState::command_of(Key::Char('h')), Command::MoveLeft);
    assert_eq!(AppState::command_of(Key::Char('l')), Command::MoveRight);
    assert_eq!(AppState::command_of(Key::Char('q')), Command::Quit);
    assert_eq!(AppState::command_of(Key::Char('x')), Command::Nothing);
    assert_eq!(AppState::command_of(Key::Other), Command::Nothing);
}

#[test]
fn moves_step_one_whole_cell() {
    let mut s = AppState::new();
    s.handle_key(Key::Right);
    assert_eq!((s.position.x, s.position.y), (202, 100));
    s.handle_key(Key::Down);
    assert_eq!((s.position.x, s.position.y), (202, 102));
    s.handle_key(Key::Left);
    assert_eq!((s.position.x, s.position.y), (200, 102));
    s.handle_key(Key::Up);
    assert_eq!((s.position.x, s.position.y), (200, 100));
}

#[test]
fn quit_key_reports_and_changes_nothing() {
    let mut s = AppState::new();
    let quit = s.handle_key(Key::Char('q'));
    assert!(quit);
    assert_eq!((s.position.x, s.position.y), (200, 100));
    assert_eq!(s.tick_count, 0);
}

#[test]
fn unrecognized_key_is_a_no_op() {
    let mut s = AppState::new();
    let quit = s.handle_key(Key::Char('z'));
    assert!(!quit);
    assert_eq!((s.position.x, s.position.y), (200, 100));
    let quit2 = s.handle_key(Key::Other);
    assert!(!quit2);
    assert_eq!((s.position.x, s.position.y), (200, 100));
}

#[test]
fn right_boundary_moves_are_idempotent() {
    let mut s = AppState::new();
    for _ in 0..300 {
        s.handle_key(Key::Right);
    }
    // right edge minus the margin: (210 - 5) draws at 205.0, stored 410.
    assert_eq!(s.position.x, 410);
    s.handle_key(Key::Right);
    assert_eq!(s.position.x, 410);
}

#[test]
fn left_boundary_moves_are_idempotent() {
    let mut s = AppState::new();
    for _ in 0..300 {
        s.handle_key(Key::Left);
    }
    assert_eq!(s.position.x, 20);
    s.handle_key(Key::Left);
    assert_eq!(s.position.x, 20);
}

#[test]
fn bottom_boundary_moves_are_idempotent() {
    let mut s = AppState::new();
    for _ in 0..300 {
        s.handle_key(Key::Down);
    }
    // bottom edge minus the margin: (110 - 5) draws at 105.0, stored 210.
    assert_eq!(s.position.y, 210);
    s.handle_key(Key::Down);
    assert_eq!(s.position.y, 210);
}

#[test]
fn top_boundary_moves_are_idempotent() {
    let mut s = AppState::new();
    for _ in 0..300 {
        s.handle_key(Key::Up);
    }
    assert_eq!(s.position.y, 20);
    s.handle_key(Key::Up);
    assert_eq!(s.position.y, 20);
}

#[test]
fn position_stays_in_bounds_under_mixed_use() {
    let mut s = AppState::new();
    let keys = [
        Key::Left,
        Key::Left,
        Key::Up,
        Key::Right,
        Key::Down,
        Key::Char('h'),
        Key::Char('k'),
        Key::Char('j'),
        Key::Char('l'),
        Key::Other,
    ];
    for round in 0..500usize {
        s.handle_key(keys[round % keys.len()]);
        s.on_tick();
        assert!(s.position.x >= 20 && s.position.x <= 410);
        assert!(s.position.y >= 20 && s.position.y <= 210);
        assert!(s.is_well_formed());
    }
}

#[test]
fn wait_budget_floors_at_zero() {
    assert_eq!(wait_budget(16_000_000, 0), 16_000_000);
    assert_eq!(wait_budget(16_000_000, 1_000_000), 15_000_000);
    assert_eq!(wait_budget(16_000_000, 16_000_000), 0);
    assert_eq!(wait_budget(16_000_000, 40_000_000), 0);
}

#[test]
fn tick_counter_advances_by_one() {
    let mut s = AppState::new();
    s.on_tick();
    assert_eq!(s.tick_count, 1);
    s.on_tick();
    assert_eq!(s.tick_count, 2);
}
