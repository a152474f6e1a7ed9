use capture_core::ConfigError;
use capture_core::DeviceMatcher;

fn capture_card_patterns() -> Vec<String> {
    vec![
        String::from("^UGREEN HDMI Capture$"),
        String::from("^Live Gamer .*-Video$"),
    ]
}

#[test]
fn exact_capture_card_name_matches() {
    let m = DeviceMatcher::new(&capture_card_patterns()).unwrap();
    assert!(m.matches("UGREEN HDMI Capture"));
    assert!(m.matches("Live Gamer ULTRA-Video"));
}

#[test]
fn anchored_patterns_reject_longer_names() {
    let m = DeviceMatcher::new(&capture_card_patterns()).unwrap();
    assert!(!m.matches("UGREEN HDMI Capture 2"));
    assert!(!m.matches("My UGREEN HDMI Capture"));
    assert!(!m.matches("Live Gamer ULTRA-Audio"));
    assert!(!m.matches("Integrated Webcam"));
}

#[test]
fn first_matching_device_is_picked() {
    let m = DeviceMatcher::new(&capture_card_patterns()).unwrap();
    let names = vec![
        String::from("Integrated Webcam"),
        String::from("Live Gamer MINI-Video"),
        String::from("UGREEN HDMI Capture"),
    ];
    assert_eq!(m.find_first_match(&names), Some(1));
}

#[test]
fn no_matching_device_yields_none() {
    let m = DeviceMatcher::new(&capture_card_patterns()).unwrap();
    let names = vec![String::from("Integrated Webcam"), String::from("Virtual Camera")];
    assert_eq!(m.find_first_match(&names), None);
}

#[test]
fn empty_device_list_yields_none() {
    let m = DeviceMatcher::new(&capture_card_patterns()).unwrap();
    assert_eq!(m.find_first_match(&Vec::new()), None);
}

#[test]
fn invalid_pattern_is_rejected() {
    let patterns = vec![String::from("^Live Gamer [")];
    match DeviceMatcher::new(&patterns) {
        Err(e) => assert_eq!(e, ConfigError::InvalidPattern),
        Ok(_) => panic!("invalid pattern was accepted"),
    }
}
