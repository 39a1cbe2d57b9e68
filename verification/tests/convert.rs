use editor_backend::convert::convert_markdown;

#[test]
fn heading_is_wrapped_in_h1() {
    let html = convert_markdown("# Title");
    assert_eq!(html, "<h1>Title</h1>");
    assert!(html.contains("<h1>") && html.contains("Title") && html.contains("</h1>"));
}

#[test]
fn empty_text_gives_empty_html() {
    assert_eq!(convert_markdown(""), "");
}

#[test]
fn plain_text_becomes_a_paragraph() {
    assert_eq!(convert_markdown("hello"), "<p>hello</p>");
}

#[test]
fn emphasis_is_rendered() {
    let html = convert_markdown("*a* and **b**");
    assert_eq!(html, "<p><em>a</em> and <strong>b</strong></p>");
    assert_ne!(html, "*a* and **b**");
}

#[test]
fn html_sensitive_characters_are_accepted() {
    assert_eq!(convert_markdown("<&\""), "<p>&lt;&amp;&quot;</p>");
    assert_eq!(convert_markdown("a < b & c"), "<p>a &lt; b &amp; c</p>");
}

#[test]
fn embedded_html_is_not_passed_through() {
    assert_eq!(
        convert_markdown("Hi, <i>venus</i>!"),
        "<p>Hi, &lt;i&gt;venus&lt;/i&gt;!</p>"
    );
}

#[test]
fn output_converts_again() {
    let first = convert_markdown("# Title");
    let second = convert_markdown(&first);
    assert_eq!(second, "&lt;h1&gt;Title&lt;/h1&gt;");
    let third = convert_markdown(&second);
    assert_eq!(third, "<p>&lt;h1&gt;Title&lt;/h1&gt;</p>");
}

#[test]
fn conversion_is_a_function_of_the_text() {
    let text = "1. one\n2. two\n\n> quote\n";
    assert_eq!(convert_markdown(text), convert_markdown(text));
    assert_eq!(
        convert_markdown(text),
        "<ol>\n<li>one</li>\n<li>two</li>\n</ol>\n<blockquote>\n<p>quote</p>\n</blockquote>\n"
    );
}

#[test]
fn unusual_input_is_accepted() {
    let nested = "[".repeat(200) + &"*_`<".repeat(200) + "\u{0}\r\n\t\u{feff}";
    let html = convert_markdown(&nested);
    assert!(!html.is_empty());
    let deep = "> ".repeat(300) + "- x";
    assert!(convert_markdown(&deep).contains("x"));
}
