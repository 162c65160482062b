use distill::identity::{resolve_identity, Identity};

fn some(s: &str) -> Option<String> {
    Some(s.to_string())
}

#[test]
fn fallback_identity_is_fixed() {
    let id = Identity::fallback();
    assert_eq!(id.name, "Distill");
    assert_eq!(id.email, "distill@example.com");
}

#[test]
fn configured_identity_is_used() {
    let id = resolve_identity(some("Ada Lovelace"), some("ada@example.org"));
    assert_eq!(id.name, "Ada Lovelace");
    assert_eq!(id.email, "ada@example.org");
}

#[test]
fn missing_name_or_email_falls_back() {
    for (name, email) in [
        (None, None),
        (some("Ada"), None),
        (None, some("ada@example.org")),
        (some(""), some("ada@example.org")),
        (some("Ada"), some("")),
        (some(""), some("")),
    ] {
        let id = resolve_identity(name.clone(), email.clone());
        assert_eq!(id.name, "Distill", "for {:?} {:?}", name, email);
        assert_eq!(id.email, "distill@example.com", "for {:?} {:?}", name, email);
    }
}

#[test]
fn configured_values_are_not_trimmed() {
    let id = resolve_identity(some(" Ada "), some(" "));
    assert_eq!(id.name, " Ada ");
    assert_eq!(id.email, " ");
}
