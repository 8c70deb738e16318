use actix_web::http::StatusCode;
use golem_unlimited::engine::HttpStatus;
use golem_unlimited::text::{copy_strings, debug_list, has_string, join2, join3};

fn strings(items: &[&str]) -> Vec<String> {
    items.iter().map(|s| s.to_string()).collect()
}

#[test]
fn list_formatting_agrees_with_debug() {
    let lists = vec![
        strings(&[]),
        strings(&["gpu"]),
        strings(&["gpu", "fast"]),
        strings(&["a \"quoted\" tag", "back\\slash", "tab\there", "", "\u{fc}ber", "\u{7f}"]),
    ];
    for list in &lists {
        assert_eq!(debug_list(list), format!("{:?}", list));
    }
    assert_eq!(debug_list(&strings(&[])), "[]");
    assert_eq!(debug_list(&strings(&["a", "b", "c"])), "[\"a\", \"b\", \"c\"]");
}

#[test]
fn status_line_agrees_with_the_status_code() {
    for code in [100u16, 200, 204, 299, 301, 404, 418, 500, 599, 600, 999] {
        let status = HttpStatus::new(code).unwrap();
        let theirs = StatusCode::from_u16(code).unwrap();
        assert_eq!(status.to_string(), theirs.to_string());
        assert_eq!(status.is_success(), theirs.is_success());
        assert_eq!(status.as_u16(), theirs.as_u16());
    }
    assert_eq!(HttpStatus::new(404).unwrap().to_string(), "404 Not Found");
}

#[test]
fn joining_and_copying() {
    assert_eq!(join2("ab", "cd"), "abcd");
    assert_eq!(join3("a", "", "b"), "ab");
    let items = strings(&["x", "y"]);
    assert_eq!(copy_strings(&items), items);
    assert!(has_string(&items, &"y".to_string()));
    assert!(!has_string(&items, &"z".to_string()));
}
