use news_letter::routes::login::login_form;

#[test]
fn error_flash_message_is_shown() {
    let page = login_form(&vec!["Authentication failed".to_string()]);
    assert!(page.contains("<p><i>Authentication failed</i></p>\n"));
    assert!(page.contains("<form action=\"/login\" method=\"post\">"));
}

#[test]
fn no_message_no_paragraph() {
    let page = login_form(&vec![]);
    assert!(!page.contains("<p><i>"));
    assert!(page.starts_with("\n        <!DOCTYPE html>\n<html lang=\"en\">"));
    assert!(page.ends_with("</html>\n        "));
    assert!(page.contains("<body>\n\n    <form"));
}

#[test]
fn messages_appear_in_order() {
    let page = login_form(&vec!["first".to_string(), "second".to_string()]);
    assert!(page.contains("<body>\n<p><i>first</i></p>\n<p><i>second</i></p>\n\n    <form"));
}
