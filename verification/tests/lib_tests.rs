use helloworld::GreetingError;
use helloworld::Language;
use helloworld::get_supported_languages;
use helloworld::greet;
use helloworld::greet_formal;
use helloworld::greet_multilingual;
use helloworld::safe_greet;
use helloworld::safe_greet_multilingual;
use helloworld::validate_name;

#[test]
fn test_greet() {
    assert_eq!(greet("World"), "Hello, World!");
    assert_eq!(greet("Rust"), "Hello, Rust!");
}

#[test]
fn test_greet_formal() {
    assert_eq!(greet_formal("Smith", "Dr."), "Good day, Dr. Smith!");
    assert_eq!(greet_formal("Johnson", "Ms."), "Good day, Ms. Johnson!");
}

#[test]
fn test_greet_multilingual() {
    assert_eq!(greet_multilingual("World", "en"), "Hello, World!");
    assert_eq!(greet_multilingual("世界", "zh"), "你好, 世界!");
    assert_eq!(greet_multilingual("Mundo", "es"), "Hola, Mundo!");
    assert_eq!(greet_multilingual("Monde", "fr"), "Bonjour, Monde!");
    assert_eq!(greet_multilingual("Welt", "de"), "Hallo, Welt!");
}

#[test]
fn test_language_from_code() {
    assert_eq!(Language::from_code("zh"), Language::Chinese);
    assert_eq!(Language::from_code("es"), Language::Spanish);
    assert_eq!(Language::from_code("fr"), Language::French);
    assert_eq!(Language::from_code("de"), Language::German);
    assert_eq!(Language::from_code("unknown"), Language::English);
}

#[test]
fn test_get_supported_languages() {
    let languages = get_supported_languages();
    assert_eq!(languages.len(), 5);
    assert!(languages.contains(&Language::English));
    assert!(languages.contains(&Language::Chinese));
}

#[test]
fn test_empty_name() {
    assert_eq!(greet(""), "Hello, !");
    assert_eq!(greet_multilingual("", "zh"), "你好, !");
}

#[test]
fn test_validate_name() {
    assert!(validate_name("Alice").is_ok());
    assert!(validate_name("  Bob  ").is_ok());

    assert!(matches!(validate_name(""), Err(GreetingError::EmptyName)));
    assert!(matches!(validate_name("   "), Err(GreetingError::EmptyName)));

    let long_name = "A".repeat(101);
    assert!(matches!(validate_name(&long_name), Err(GreetingError::NameTooLong(_))));
}

#[test]
fn test_safe_greet() {
    assert_eq!(safe_greet("Alice").unwrap(), "Hello, Alice!");
    assert_eq!(safe_greet("  Bob  ").unwrap(), "Hello, Bob!");

    assert!(safe_greet("").is_err());
    assert!(safe_greet("   ").is_err());
}

#[test]
fn test_safe_greet_multilingual() {
    assert_eq!(safe_greet_multilingual("World", "en").unwrap(), "Hello, World!");
    assert_eq!(safe_greet_multilingual("世界", "zh").unwrap(), "你好, 世界!");

    assert!(safe_greet_multilingual("", "en").is_err());
    assert!(safe_greet_multilingual("   ", "zh").is_err());
}

#[test]
fn test_error_display() {
    let error = GreetingError::EmptyName;
    assert_eq!(error.message(), "Name cannot be empty");

    let error = GreetingError::InvalidLanguage("xyz".to_string());
    assert_eq!(error.message(), "Unsupported language code: xyz");

    let error = GreetingError::NameTooLong(150);
    assert_eq!(error.message(), "Name too long (150 characters), maximum is 100");
}
