use user_store::{create_user, validate_email, User, UserRole};

fn is_unicode_white_space(c: char) -> bool {
    let n = c as u32;
    (0x09..=0x0D).contains(&n)
        || n == 0x20
        || n == 0x85
        || n == 0xA0
        || n == 0x1680
        || (0x2000..=0x200A).contains(&n)
        || n == 0x2028
        || n == 0x2029
        || n == 0x202F
        || n == 0x205F
        || n == 0x3000
}

#[test]
fn test_user_creation() {
    let user = create_user("John Doe".to_string(), "john@example.com".to_string());
    assert!(user.is_ok());
}

#[test]
fn created_user_is_active_and_has_no_id() {
    let user = create_user("John Doe".to_string(), "john@example.com".to_string()).unwrap();
    assert_eq!(user.id, 0);
    assert!(user.active);
    assert_eq!(user.name, "John Doe");
    assert_eq!(user.email, "john@example.com");
}

#[test]
fn created_user_keeps_the_name_untrimmed() {
    let user = create_user("  Ann \t".to_string(), "ann@example.org".to_string()).unwrap();
    assert_eq!(user.name, "  Ann \t");
    assert_eq!(user.email, "ann@example.org");
    assert_eq!(user.id, 0);
    assert!(user.active);
}

#[test]
fn empty_name_is_refused() {
    let outcome = create_user("".to_string(), "a@b.com".to_string());
    assert_eq!(outcome.unwrap_err(), "Name cannot be empty");
}

#[test]
fn blank_name_is_refused() {
    let outcome = create_user("   ".to_string(), "a@b.com".to_string());
    assert_eq!(outcome.unwrap_err(), "Name cannot be empty");
    let outcome = create_user(" \t\r\n\u{A0}\u{3000}".to_string(), "a@b.com".to_string());
    assert_eq!(outcome.unwrap_err(), "Name cannot be empty");
}

#[test]
fn name_is_examined_before_the_address() {
    let outcome = create_user(" ".to_string(), "not-an-email".to_string());
    assert_eq!(outcome.unwrap_err(), "Name cannot be empty");
}

#[test]
fn address_without_at_sign_is_refused() {
    let outcome = create_user("Bob".to_string(), "not-an-email".to_string());
    assert_eq!(outcome.unwrap_err(), "Invalid email format");
}

#[test]
fn address_needs_no_particular_shape() {
    assert!(create_user("Bob".to_string(), "a.b@c".to_string()).is_ok());
    assert!(create_user("Bob".to_string(), "a@b.c".to_string()).is_ok());
    let user = create_user("Bob".to_string(), "@.".to_string()).unwrap();
    assert_eq!(user.email, "@.");
}

#[test]
fn a_name_is_blank_exactly_when_all_of_it_is_white_space() {
    let mut white: u32 = 0;
    for n in 0..=0x10FFFF_u32 {
        if let Some(c) = char::from_u32(n) {
            let refused = create_user(c.to_string(), "a@b.c".to_string()).is_err();
            assert_eq!(refused, is_unicode_white_space(c), "U+{:04X}", n);
            if refused {
                white += 1;
            }
        }
    }
    assert_eq!(white, 25);
}

#[test]
fn white_space_around_a_name_does_not_make_it_blank() {
    for c in ['\t', '\n', '\u{0B}', '\u{0C}', '\r', ' ', '\u{85}', '\u{2028}', '\u{205F}'] {
        let name = format!("{}x{}", c, c);
        let user = create_user(name.clone(), "x@y.z".to_string()).unwrap();
        assert_eq!(user.name, name);
        let name = format!("{}{}", c, c);
        assert!(create_user(name, "x@y.z".to_string()).is_err());
    }
    assert!(create_user("\u{200B}".to_string(), "x@y.z".to_string()).is_ok());
    assert!(create_user("\u{180E}".to_string(), "x@y.z".to_string()).is_ok());
    assert!(create_user("\u{FEFF}".to_string(), "x@y.z".to_string()).is_ok());
}

#[test]
fn validate_email_asks_for_an_at_sign_and_a_dot() {
    assert!(validate_email("a@b.c"));
    assert!(validate_email("@."));
    assert!(!validate_email("abc"));
    assert!(!validate_email("a@b"));
    assert!(!validate_email("a.b"));
}

#[test]
fn validate_email_edge_cases() {
    assert!(!validate_email(""));
    assert!(!validate_email("@"));
    assert!(!validate_email("."));
    assert!(validate_email(".@"));
    assert!(validate_email("a..b@@c"));
    assert!(validate_email("\u{00E9}@\u{4E2D}.\u{6587}"));
    assert!(!validate_email("\u{FF20}\u{FF0E}"));
}

#[test]
fn user_clone_copies_every_field() {
    let user = User { id: 7, name: "Eve".to_string(), email: "e@v.e".to_string(), active: false };
    let copy = user.clone();
    assert_eq!(copy.id, 7);
    assert_eq!(copy.name, "Eve");
    assert_eq!(copy.email, "e@v.e");
    assert!(!copy.active);
    assert_eq!(user.name, "Eve");
}

#[test]
fn user_and_role_can_be_printed_for_debugging() {
    let user = User { id: 7, name: "Eve".to_string(), email: "e@v.e".to_string(), active: false };
    assert_eq!(
        format!("{:?}", user),
        "User { id: 7, name: \"Eve\", email: \"e@v.e\", active: false }"
    );
    assert_eq!(format!("{:?}", UserRole::Admin), "Admin");
    assert_eq!(format!("{:?}", UserRole::Editor), "Editor");
    assert_eq!(format!("{:?}", UserRole::Viewer), "Viewer");
}
