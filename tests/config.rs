use stl_thumb::config::{Config, ConfigError};
use stl_thumb::present::{after_round, next_action, PresentAction, WindowSignal};

#[test]
fn config_keeps_its_fields() {
    let c = Config::new("test_data/cube.stl".to_string(), "cube.png".to_string(), 1024, 768, false).unwrap();
    assert_eq!(c.stl_filename, "test_data/cube.stl");
    assert_eq!(c.img_filename, "cube.png");
    assert_eq!((c.width, c.height, c.visible), (1024, 768, false));
}

#[test]
fn config_refuses_empty_image() {
    let e = Config::new("a.stl".to_string(), "a.png".to_string(), 0, 768, true).unwrap_err();
    assert_eq!(e, ConfigError::EmptyImage { width: 0, height: 768 });
    let e = Config::new("a.stl".to_string(), "a.png".to_string(), 10, 0, true).unwrap_err();
    assert_eq!(e, ConfigError::EmptyImage { width: 10, height: 0 });
}

#[test]
fn presentation_stops_on_close() {
    assert!(!after_round(false, &vec![]));
    assert!(!after_round(false, &vec![WindowSignal::Other, WindowSignal::Other]));
    assert!(after_round(false, &vec![WindowSignal::Other, WindowSignal::CloseRequested]));
    assert!(after_round(true, &vec![WindowSignal::Other]));
}

#[test]
fn presentation_actions() {
    assert_eq!(next_action(true, false), PresentAction::Blit);
    assert_eq!(next_action(true, true), PresentAction::Stop);
    assert_eq!(next_action(false, false), PresentAction::Stop);
}
