use cairn_server::application::{ApplicationName, ApplicationNameError};
use cairn_server::paths::resolve;

#[test]
fn application_names_are_nonempty_without_whitespace_or_control() {
    let name = ApplicationName::new("cairn-server".to_string()).ok().expect("valid name");
    assert_eq!(name.as_str(), "cairn-server");
    assert_eq!(ApplicationName::new(String::new()).err(), Some(ApplicationNameError));
    assert_eq!(ApplicationName::new(" cairn".to_string()).err(), Some(ApplicationNameError));
    assert_eq!(ApplicationName::new("cairn server".to_string()).err(), Some(ApplicationNameError));
    assert_eq!(ApplicationName::new("cairn\u{a0}server".to_string()).err(), Some(ApplicationNameError));
    assert_eq!(ApplicationName::new("cairn\u{7f}".to_string()).err(), Some(ApplicationNameError));
    assert!(ApplicationName::new("cairné".to_string()).is_ok());
}

#[test]
fn relative_paths_join_the_base_and_absolute_paths_stay() {
    let mut empty = String::new();
    resolve(&mut empty, "/var/lib/cairn");
    assert_eq!(empty, "/var/lib/cairn/");
    let mut relative = "events.db".to_string();
    resolve(&mut relative, "/var/lib/cairn");
    assert_eq!(relative, "/var/lib/cairn/events.db");
    let mut absolute = "/srv/events.db".to_string();
    resolve(&mut absolute, "/var/lib/cairn");
    assert_eq!(absolute, "/srv/events.db");
}
