use honeybee::html::{encode, encode_opt, encode_opt_prefix, encode_prefix, opt_val, HtmlStr};

#[test]
fn html() {
    assert_eq!(HtmlStr("<").to_string(), "&lt;");
    assert_eq!(HtmlStr(">").to_string(), "&gt;");
    assert_eq!(HtmlStr("&").to_string(), "&amp;");
    assert_eq!(HtmlStr("\"").to_string(), "&quot;");
    assert_eq!(HtmlStr("'").to_string(), "&#x27;");
    assert_eq!(
        HtmlStr("<script>XSS stuff</script>").to_string(),
        "&lt;script&gt;XSS stuff&lt;/script&gt;"
    );
}

#[test]
fn html_of_owned_and_optional_strings() {
    let s = "a&b".to_string();
    assert_eq!(HtmlStr(&s).to_string(), "a&amp;b");
    assert_eq!(HtmlStr(Some(&s)).to_string(), "a&amp;b");
    assert_eq!(HtmlStr(None::<&String>).to_string(), "");
    assert_eq!(HtmlStr("").to_string(), "");
    assert_eq!(HtmlStr("plain text 🔹").to_string(), "plain text 🔹");
    assert_eq!(encode("<<"), "&lt;&lt;");
    assert_eq!(encode_opt(&Some("x>y".to_string())), "x&gt;y");
    assert_eq!(encode_opt(&None), "");
}

#[test]
fn html_is_cut_before_it_is_escaped() {
    assert_eq!(HtmlStr("<b>bold</b>").with_len(4), "&lt;b&gt;b");
    assert_eq!(HtmlStr("abc").with_len(0), "");
    assert_eq!(HtmlStr("abc").with_len(3), "abc");
    assert_eq!(HtmlStr("abc").with_len(100), "abc");
    assert_eq!(encode_prefix("é'ü", 2), "é&#x27;");
    let s = "\"quoted\"".to_string();
    assert_eq!(HtmlStr(&s).with_len(1), "&quot;");
    assert_eq!(HtmlStr(Some(&s)).with_len(2), "&quot;q");
    assert_eq!(HtmlStr(None::<&String>).with_len(2), "");
    assert_eq!(encode_opt_prefix(&Some("a<b".to_string()), 2), "a&lt;");
    assert_eq!(encode_opt_prefix(&None, 2), "");
}

#[test]
fn optional_numbers() {
    assert_eq!(opt_val(None), "");
    assert_eq!(opt_val(Some(0)), "0");
    assert_eq!(opt_val(Some(7)), "7");
    assert_eq!(opt_val(Some(104)), "104");
    assert_eq!(opt_val(Some(u32::MAX)), "4294967295");
}
