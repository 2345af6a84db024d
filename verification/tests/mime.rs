use wayland_clipboard_listener::mime::{
    contains, first_of_priority, has_image_type, is_image_type, is_text_list, negotiate,
    select_mimetype, IMAGE, TEXT,
};

fn list(items: &[&str]) -> Vec<String> {
    items.iter().map(|s| s.to_string()).collect()
}

#[test]
fn constants_are_the_protocol_strings() {
    assert_eq!(TEXT, "text/plain;charset=utf-8");
    assert_eq!(IMAGE, "image/");
}

#[test]
fn image_types_begin_with_image_slash() {
    assert!(is_image_type("image/png"));
    assert!(is_image_type("image/jpeg"));
    assert!(is_image_type("image/"));
    assert!(!is_image_type("image"));
    assert!(!is_image_type("imag"));
    assert!(!is_image_type("text/plain;charset=utf-8"));
    assert!(!is_image_type("ximage/png"));
    assert!(!is_image_type("Image/png"));
    assert!(!is_image_type(""));
}

#[test]
fn image_prefix_is_compared_by_characters() {
    assert!(is_image_type("image/\u{e9}t\u{e9}"));
    assert!(!is_image_type("\u{e9}mage/png"));
}

#[test]
fn contains_finds_exact_entries_only() {
    let l = list(&["a/b", "text/plain", "c/d"]);
    assert!(contains(&l, &"text/plain".to_string()));
    assert!(contains(&l, &"c/d".to_string()));
    assert!(!contains(&l, &"text".to_string()));
    assert!(!contains(&l, &"text/plain;charset=utf-8".to_string()));
    assert!(!contains(&list(&[]), &"a/b".to_string()));
}

#[test]
fn has_image_type_looks_at_every_entry() {
    assert!(has_image_type(&list(&["text/html", "image/png"])));
    assert!(has_image_type(&list(&["image/png", "text/html"])));
    assert!(!has_image_type(&list(&["text/html", "application/json"])));
    assert!(!has_image_type(&list(&[])));
}

#[test]
fn text_list_needs_the_text_type_and_no_image() {
    assert!(is_text_list(&list(&["text/plain;charset=utf-8"])));
    assert!(is_text_list(&list(&["text/html", "text/plain;charset=utf-8", "STRING"])));
    assert!(!is_text_list(&list(&[])));
    assert!(!is_text_list(&list(&["text/plain"])));
    assert!(!is_text_list(&list(&["text/plain;charset=utf-8", "image/png"])));
    assert!(!is_text_list(&list(&["image/png"])));
}

#[test]
fn fast_path_on_empty_list_is_text() {
    assert_eq!(select_mimetype(&list(&[])), "text/plain;charset=utf-8");
}

#[test]
fn fast_path_on_text_list_is_text() {
    assert_eq!(
        select_mimetype(&list(&["text/html", "text/plain;charset=utf-8"])),
        "text/plain;charset=utf-8"
    );
}

#[test]
fn fast_path_otherwise_is_the_first_advertised() {
    assert_eq!(select_mimetype(&list(&["image/png", "image/jpeg"])), "image/png");
    assert_eq!(select_mimetype(&list(&["text/html", "text/plain"])), "text/html");
    assert_eq!(
        select_mimetype(&list(&["text/plain;charset=utf-8", "image/bmp"])),
        "text/plain;charset=utf-8"
    );
    assert_eq!(
        select_mimetype(&list(&["text/html", "text/plain;charset=utf-8", "image/bmp"])),
        "text/html"
    );
}

#[test]
fn first_of_priority_follows_the_priority_order() {
    let mimes = list(&["image/png", "text/html", "image/jpeg"]);
    assert_eq!(
        first_of_priority(&list(&["image/jpeg", "image/png"]), &mimes),
        Some("image/jpeg".to_string())
    );
    assert_eq!(
        first_of_priority(&list(&["image/gif", "text/html", "image/png"]), &mimes),
        Some("text/html".to_string())
    );
    assert_eq!(first_of_priority(&list(&["image/gif"]), &mimes), None);
    assert_eq!(first_of_priority(&list(&[]), &mimes), None);
    assert_eq!(first_of_priority(&list(&["image/png"]), &list(&[])), None);
}

#[test]
fn negotiate_without_priority_is_the_fast_path() {
    assert_eq!(negotiate(&list(&["image/png"]), &None), "image/png");
    assert_eq!(negotiate(&list(&[]), &None), "text/plain;charset=utf-8");
    assert_eq!(
        negotiate(&list(&["text/html", "text/plain;charset=utf-8"]), &None),
        "text/plain;charset=utf-8"
    );
}

#[test]
fn negotiate_prefers_the_first_priority_entry_that_is_advertised() {
    let mimes = list(&["text/plain;charset=utf-8", "text/html"]);
    assert_eq!(
        negotiate(&mimes, &Some(list(&["text/html", "text/plain;charset=utf-8"]))),
        "text/html"
    );
    assert_eq!(
        negotiate(&mimes, &Some(list(&["image/png", "text/html"]))),
        "text/html"
    );
}

#[test]
fn negotiate_with_unmatched_priority_falls_through_to_text() {
    assert_eq!(
        negotiate(
            &list(&["text/plain;charset=utf-8"]),
            &Some(list(&["x-special/foo"]))
        ),
        "text/plain;charset=utf-8"
    );
}

#[test]
fn negotiate_with_unmatched_priority_falls_through_to_first() {
    assert_eq!(
        negotiate(&list(&["image/png", "image/bmp"]), &Some(list(&["x-special/foo"]))),
        "image/png"
    );
    assert_eq!(negotiate(&list(&["image/png"]), &Some(list(&[]))), "image/png");
}

#[test]
fn negotiate_picks_png_when_jpeg_is_preferred_but_absent() {
    assert_eq!(
        negotiate(&list(&["image/png"]), &Some(list(&["image/jpeg", "image/png"]))),
        "image/png"
    );
}

#[test]
fn negotiate_with_priority_on_empty_list_is_text() {
    assert_eq!(
        negotiate(&list(&[]), &Some(list(&["image/png"]))),
        "text/plain;charset=utf-8"
    );
}
