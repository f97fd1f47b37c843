use regex::Regex;

#[test]
fn test_basic_matching() {
    let re = Regex::new(r"\d+").unwrap();
    assert!(re.is_match("abc123"));
    assert!(!re.is_match("abc"));
}

#[test]
fn test_capture_groups() {
    let re = Regex::new(r"(\d{4})-(\d{2})-(\d{2})").unwrap();
    let caps = re.captures("2024-12-25").unwrap();
    assert_eq!(&caps[1], "2024");
    assert_eq!(&caps[2], "12");
    assert_eq!(&caps[3], "25");
}

#[test]
fn test_replacement() {
    let re = Regex::new(r"\d+").unwrap();
    let result = re.replace("I have 2 apples", "X");
    assert_eq!(result, "I have X apples");
}
