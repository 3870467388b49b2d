use reja::{select_profile, Profile};

fn entries() -> Vec<(String, Profile)> {
    vec![
        (
            "default".to_string(),
            Profile { model: "llama3".to_string(), system: Some("Be terse.".to_string()) },
        ),
        ("work".to_string(), Profile { model: "mistral".to_string(), system: None }),
        ("work".to_string(), Profile { model: "shadowed".to_string(), system: None }),
    ]
}

#[test]
fn a_requested_profile_is_found_by_name() {
    let p = select_profile(&entries(), Some("work".to_string())).unwrap();
    assert_eq!(p.model, "mistral");
    assert!(p.system.is_none());
}

#[test]
fn no_request_selects_the_default_profile() {
    let p = select_profile(&entries(), None).unwrap();
    assert_eq!(p.model, "llama3");
    assert_eq!(p.system.as_deref(), Some("Be terse."));
}

#[test]
fn a_missing_profile_is_reported_as_absent() {
    assert!(select_profile(&entries(), Some("gaming".to_string())).is_none());
    assert!(select_profile(&Vec::new(), None).is_none());
}

#[test]
fn the_first_entry_with_the_name_wins() {
    let p = select_profile(&entries(), Some("work".to_string())).unwrap();
    assert_eq!(p.model, "mistral");
}
