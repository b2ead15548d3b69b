use rustrt::Registry;

#[test]
fn registry_starts_empty() {
    let r: Registry<u32> = Registry::new();
    assert_eq!(r.get("white"), None);
    assert_eq!(r.get(""), None);
}

#[test]
fn registry_gives_back_what_was_registered() {
    let mut r: Registry<u32> = Registry::new();
    r.insert("white".to_string(), 1);
    r.insert("glass".to_string(), 2);
    assert_eq!(r.get("white"), Some(&1));
    assert_eq!(r.get("glass"), Some(&2));
    assert_eq!(r.get("Glass"), None);
    assert_eq!(r.get("whit"), None);
}

#[test]
fn registering_a_name_again_replaces_its_value() {
    let mut r: Registry<String> = Registry::new();
    r.insert("light".to_string(), "dim".to_string());
    r.insert("floor".to_string(), "wood".to_string());
    r.insert("light".to_string(), "bright".to_string());
    assert_eq!(r.get("light").map(|s| s.as_str()), Some("bright"));
    assert_eq!(r.get("floor").map(|s| s.as_str()), Some("wood"));
}
