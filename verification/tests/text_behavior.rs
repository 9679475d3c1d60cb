use maigret::text::file_extension_of;
use maigret::text::join_with_pipe;
use maigret::text::render_hundredths;
use maigret::text::str_contains;
use maigret::text::str_eq;
use maigret::text::substitute;

#[test]
fn substitute_replaces_single_placeholder() {
    assert_eq!(
        substitute("https://example.com/{}", "alice"),
        "https://example.com/alice"
    );
}

#[test]
fn substitute_replaces_every_placeholder() {
    assert_eq!(substitute("{}/{}", "bob"), "bob/bob");
}

#[test]
fn substitute_without_placeholder_keeps_template() {
    assert_eq!(substitute("https://example.com/user", "alice"), "https://example.com/user");
}

#[test]
fn substitute_handles_lone_brace() {
    assert_eq!(substitute("a{b}c{", "x"), "a{b}c{");
}

#[test]
fn substitute_handles_empty_username() {
    assert_eq!(substitute("u/{}", ""), "u/");
}

#[test]
fn str_contains_finds_inner_text() {
    assert!(str_contains("<html>User not found</html>", "User not found"));
    assert!(!str_contains("<html>all good</html>", "User not found"));
}

#[test]
fn str_contains_empty_needle_always_holds() {
    assert!(str_contains("anything", ""));
    assert!(str_contains("", ""));
}

#[test]
fn str_contains_needle_longer_than_haystack() {
    assert!(!str_contains("ab", "abc"));
}

#[test]
fn str_eq_compares_contents() {
    assert!(str_eq("same", "same"));
    assert!(!str_eq("same", "Same"));
    assert!(!str_eq("same", "sameer"));
}

#[test]
fn join_with_pipe_joins_parts() {
    let parts = vec![
        String::from("Not found"),
        String::from("Missing"),
        String::from("404"),
    ];
    assert_eq!(join_with_pipe(&parts), "Not found|Missing|404");
}

#[test]
fn join_with_pipe_single_part_is_unchanged() {
    let parts = vec![String::from("only")];
    assert_eq!(join_with_pipe(&parts), "only");
}

#[test]
fn join_with_pipe_empty_is_empty() {
    let parts: Vec<String> = Vec::new();
    assert_eq!(join_with_pipe(&parts), "");
}

#[test]
fn file_extension_ignores_query() {
    assert_eq!(
        file_extension_of("https://cdn.example.com/img/photo.jpg?size=big"),
        "jpg"
    );
    assert_eq!(file_extension_of("https://cdn.example.com/img/photo.png"), "png");
}

#[test]
fn file_extension_of_dotless_path_is_the_path() {
    assert_eq!(file_extension_of("no-dots-here?q=1"), "no-dots-here");
}

#[test]
fn file_extension_of_trailing_dot_is_empty() {
    assert_eq!(file_extension_of("archive.?q=1"), "");
}

#[test]
fn render_hundredths_formats_two_decimals() {
    assert_eq!(render_hundredths(85), "0.85");
    assert_eq!(render_hundredths(100), "1.00");
    assert_eq!(render_hundredths(5), "0.05");
    assert_eq!(render_hundredths(0), "0.00");
    assert_eq!(render_hundredths(60), "0.60");
}
