use vstd::prelude::*;
use vstd::string::*;

verus! {

/// The page text before the flash messages.
pub open spec fn page_head() -> Seq<char> {
    "\n        <!DOCTYPE html>\n<html lang=\"en\">\n<head>\n    <meta http-equiv=\"content-type\" content=\"text/html;\" charset=\"UTF-8\">\n    <meta name=\"viewport\" content=\"width=device-width, initial-scale=1.0\">\n    <title>login</title>\n</head>\n<body>\n"@
}

/// The page text after the flash messages: the login form.
pub open spec fn page_tail() -> Seq<char> {
    "\n    <form action=\"/login\" method=\"post\">\n        <label>\n            Username\n            <input type=\"text\" placeholder=\"Enter Username\" name=\"username\" />\n        </label>\n        <label>\n            Password\n            <input type=\"password\" placeholder=\"Enter Password\" name=\"password\" />\n        </label>\n        <button type=\"submit\">Login</button>\n    </form>\n</body>\n</html>\n        "@
}

/// One flash message as the page shows it: in italics, on a line of its own.
pub open spec fn flash_line(message: Seq<char>) -> Seq<char> {
    "<p><i>"@ + message + "</i></p>\n"@
}

/// The flash messages as the page shows them, in order.
pub open spec fn flash_html(messages: Seq<Seq<char>>) -> Seq<char>
    decreases messages.len(),
{
    if messages.len() == 0 {
        Seq::empty()
    } else {
        flash_html(messages.drop_last()) + flash_line(messages.last())
    }
}

/// The login page showing `messages`.
pub open spec fn login_page(messages: Seq<Seq<char>>) -> Seq<char> {
    page_head() + flash_html(messages) + page_tail()
}

/// Whether `s` holds `fragment` at position `at`.
pub open spec fn holds_at(s: Seq<char>, at: int, fragment: Seq<char>) -> bool {
    0 <= at && at + fragment.len() <= s.len() && s.subrange(at, at + fragment.len()) == fragment
}

/// Law: whatever the flash messages, the page holds after them a form that
/// posts to `/login`, with an input named `username` and then an input
/// named `password`.
pub proof fn lemma_login_form_fields(messages: Seq<Seq<char>>)
    ensures
        ({
            let page = login_page(messages);
            let form_start: int = (page_head().len() + flash_html(messages).len()) as int;
            &&& page.subrange(0, page_head().len() as int) == page_head()
            &&& page.subrange(page_head().len() as int, form_start) == flash_html(messages)
            &&& holds_at(page, form_start + 5, "<form action=\"/login\" method=\"post\">"@)
            &&& holds_at(page, form_start + 139, "name=\"username\""@)
            &&& holds_at(page, form_start + 276, "name=\"password\""@)
        }),
{
    let tail = page_tail();
    reveal_strlit("\n    <form action=\"/login\" method=\"post\">\n        <label>\n            Username\n            <input type=\"text\" placeholder=\"Enter Username\" name=\"username\" />\n        </label>\n        <label>\n            Password\n            <input type=\"password\" placeholder=\"Enter Password\" name=\"password\" />\n        </label>\n        <button type=\"submit\">Login</button>\n    </form>\n</body>\n</html>\n        ");
    reveal_strlit("<form action=\"/login\" method=\"post\">");
    reveal_strlit("name=\"username\"");
    reveal_strlit("name=\"password\"");
    let page = login_page(messages);
    let k: int = (page_head().len() + flash_html(messages).len()) as int;
    assert(page.subrange(0, page_head().len() as int) =~= page_head());
    assert(page.subrange(page_head().len() as int, k) =~= flash_html(messages));
    assert(page.subrange(k + 5, k + 5 + 36) =~= tail.subrange(5, 41));
    assert(tail.subrange(5, 41) =~= "<form action=\"/login\" method=\"post\">"@);
    assert(page.subrange(k + 139, k + 139 + 15) =~= tail.subrange(139, 154));
    assert(tail.subrange(139, 154) =~= "name=\"username\""@);
    assert(page.subrange(k + 276, k + 276 + 15) =~= tail.subrange(276, 291));
    assert(tail.subrange(276, 291) =~= "name=\"password\""@);
}

/// The texts of some strings, in order.
pub open spec fn texts(strings: Seq<String>) -> Seq<Seq<char>> {
    strings.map_values(|s: String| s@)
}

/// The HTML of the login page: each incoming flash message (such as the
/// report of a failed authentication) in italics above the form.
pub fn login_form(flash_messages: &Vec<String>) -> (page: String)
    ensures
        page@ == login_page(texts(flash_messages@)),
{
    let mut error_html = String::new();
    let mut i: usize = 0;
    while i < flash_messages.len()
        invariant
            i <= flash_messages.len(),
            error_html@ == flash_html(texts(flash_messages@.subrange(0, i as int))),
        decreases flash_messages.len() - i,
    {
        error_html.append("<p><i>");
        error_html.append(flash_messages[i].as_str());
        error_html.append("</i></p>\n");
        proof {
            let done = texts(flash_messages@.subrange(0, i + 1));
            assert(done.drop_last() =~= texts(flash_messages@.subrange(0, i as int)));
            assert(done.last() == flash_messages@[i as int]@);
        }
        i = i + 1;
    }
    assert(flash_messages@.subrange(0, flash_messages@.len() as int) =~= flash_messages@);
    let mut page = String::from_str("\n        <!DOCTYPE html>\n<html lang=\"en\">\n<head>\n    <meta http-equiv=\"content-type\" content=\"text/html;\" charset=\"UTF-8\">\n    <meta name=\"viewport\" content=\"width=device-width, initial-scale=1.0\">\n    <title>login</title>\n</head>\n<body>\n");
    page.append(error_html.as_str());
    page.append("\n    <form action=\"/login\" method=\"post\">\n        <label>\n            Username\n            <input type=\"text\" placeholder=\"Enter Username\" name=\"username\" />\n        </label>\n        <label>\n            Password\n            <input type=\"password\" placeholder=\"Enter Password\" name=\"password\" />\n        </label>\n        <button type=\"submit\">Login</button>\n    </form>\n</body>\n</html>\n        ");
    page
}

} // verus!
