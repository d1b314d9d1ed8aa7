use tomogotchi::app::{App, AppState};

fn buffer_of(app: &App) -> String {
    match &app.state {
        AppState::Naming { name_input } => name_input.iter().collect(),
        AppState::Running { .. } => panic!("expected the naming phase"),
    }
}

fn pet_name(app: &App) -> String {
    match &app.state {
        AppState::Running { pet, .. } => pet.name.clone(),
        AppState::Naming { .. } => panic!("expected the running phase"),
    }
}

fn pet_stats(app: &App) -> (u8, u8) {
    match &app.state {
        AppState::Running { pet, .. } => (pet.hunger, pet.happiness),
        AppState::Naming { .. } => panic!("expected the running phase"),
    }
}

fn last_action(app: &App) -> Option<(String, u64)> {
    match &app.state {
        AppState::Running { last_action, .. } => last_action.clone(),
        AppState::Naming { .. } => panic!("expected the running phase"),
    }
}

#[test]
fn test_new_app_is_naming() {
    let app = App::new();
    assert!(app.running);
    assert!(app.is_naming());
    assert_eq!(buffer_of(&app), "");
}

#[test]
fn test_input_char_appends() {
    let mut app = App::new();
    app.input_char('R');
    app.input_char('e');
    app.input_char('x');
    assert_eq!(buffer_of(&app), "Rex");
}

#[test]
fn test_input_char_stops_at_twenty() {
    let mut app = App::new();
    for _ in 0..20 {
        app.input_char('a');
    }
    assert_eq!(buffer_of(&app).chars().count(), 20);
    app.input_char('b');
    assert_eq!(buffer_of(&app).chars().count(), 20);
    assert_eq!(buffer_of(&app), "a".repeat(20));
}

#[test]
fn test_input_backspace_removes_last() {
    let mut app = App::new();
    app.input_char('R');
    app.input_char('e');
    app.input_char('x');
    app.input_backspace();
    assert_eq!(buffer_of(&app), "Re");
}

#[test]
fn test_input_backspace_on_empty_is_noop() {
    let mut app = App::new();
    app.input_backspace();
    assert_eq!(buffer_of(&app), "");
}

#[test]
fn test_confirm_empty_buffer_names_tomo() {
    let mut app = App::new();
    app.confirm_name();
    assert!(!app.is_naming());
    assert_eq!(pet_name(&app), "Tomo");
    assert_eq!(pet_stats(&app), (80, 80));
    assert!(last_action(&app).is_none());
}

#[test]
fn test_confirm_keeps_typed_name_untrimmed() {
    let mut app = App::new();
    app.input_char(' ');
    app.input_char('R');
    app.input_char('e');
    app.input_char('x');
    app.input_char(' ');
    app.confirm_name();
    assert_eq!(pet_name(&app), " Rex ");
}

#[test]
fn test_confirm_while_running_is_noop() {
    let mut app = App::new();
    app.confirm_name();
    app.feed(100);
    let stats = pet_stats(&app);
    app.confirm_name();
    assert_eq!(pet_name(&app), "Tomo");
    assert_eq!(pet_stats(&app), stats);
    assert!(last_action(&app).is_some());
}

#[test]
fn test_feed_and_play_in_naming_are_noops() {
    let mut app = App::new();
    app.input_char('R');
    app.feed(100);
    app.play(100);
    assert!(app.running);
    assert!(app.is_naming());
    assert_eq!(buffer_of(&app), "R");
}

#[test]
fn test_feed_sets_message_and_timestamp() {
    let mut app = App::new();
    app.confirm_name();
    app.feed(1234);
    assert_eq!(pet_stats(&app).0, 100);
    assert_eq!(last_action(&app), Some(("You fed Tomo!".to_string(), 1234)));
}

#[test]
fn test_play_sets_message_and_timestamp() {
    let mut app = App::new();
    app.confirm_name();
    app.play(777);
    assert_eq!(pet_stats(&app).1, 95);
    assert_eq!(
        last_action(&app),
        Some(("You played with Tomo!".to_string(), 777))
    );
}

#[test]
fn test_tick_decays_only_while_running() {
    let mut app = App::new();
    app.tick(0);
    assert!(app.is_naming());
    app.confirm_name();
    app.tick(250);
    assert_eq!(pet_stats(&app), (78, 79));
}

#[test]
fn test_message_expires_after_two_seconds() {
    let mut app = App::new();
    app.confirm_name();
    app.feed(1000);
    app.tick(2999);
    assert!(last_action(&app).is_some());
    app.tick(3000);
    assert!(last_action(&app).is_none());
}

#[test]
fn test_message_survives_early_ticks() {
    let mut app = App::new();
    app.confirm_name();
    app.play(500);
    app.tick(600);
    app.tick(1200);
    app.tick(2499);
    assert_eq!(
        last_action(&app),
        Some(("You played with Tomo!".to_string(), 500))
    );
    app.tick(2500);
    assert!(last_action(&app).is_none());
}

#[test]
fn test_quit_twice_is_idempotent() {
    let mut app = App::new();
    app.quit();
    assert!(!app.running);
    assert!(app.is_naming());
    app.quit();
    assert!(!app.running);
    assert!(app.is_naming());
}

#[test]
fn test_default_matches_new() {
    let app = App::default();
    assert!(app.running);
    assert!(app.is_naming());
    assert_eq!(buffer_of(&app), "");
}
