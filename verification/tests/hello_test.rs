use dtvmgr::hello::{sayhello, GreetingError};

#[test]
fn test_sayhello_with_gender_man() {
    let result = sayhello("John", Some("man"));
    assert!(result.is_ok());
    if let Ok(greeting) = result {
        assert_eq!(greeting, "Hi, Mr. John");
    }
}

#[test]
fn test_sayhello_with_gender_woman() {
    let result = sayhello("Alice", Some("woman"));
    assert!(result.is_ok());
    if let Ok(greeting) = result {
        assert_eq!(greeting, "Hi, Ms. Alice");
    }
}

#[test]
fn test_sayhello_with_gender_none() {
    let result = sayhello("Bob", None);
    assert!(result.is_ok());
    if let Ok(greeting) = result {
        assert_eq!(greeting, "Hi, Bob");
    }
}

#[test]
fn test_sayhello_with_gender_invalid() {
    let result = sayhello("Charlie", Some("other"));
    assert!(matches!(result, Err(GreetingError::InvalidGender(_))));
    if let Err(GreetingError::InvalidGender(gender)) = result {
        assert_eq!(gender, "other");
    }
}

#[test]
fn test_sayhello_with_gender_empty_string() {
    let result = sayhello("Dave", Some(""));
    assert!(matches!(result, Err(GreetingError::InvalidGender(_))));
    if let Err(GreetingError::InvalidGender(gender)) = result {
        assert_eq!(gender, "");
    }
}

#[test]
fn test_greeting_error_display() {
    assert_eq!(
        GreetingError::UnknownGender.to_string(),
        "gender not specified"
    );
    assert_eq!(
        GreetingError::InvalidGender(String::from("test")).to_string(),
        "invalid gender: test"
    );
}
