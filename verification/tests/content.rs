use bytes::BytesMut;
use rstml_component::{FmtError, Html, HtmlContent, HtmlFormatter, RawText, SanitizeConfig, Sanitized};

fn contents(formatter: HtmlFormatter) -> String {
    let buffer = formatter.into_inner();
    String::from_utf8(buffer.as_ref().to_vec()).expect("invalid utf-8")
}

#[test]
fn strings_escape_in_text_context() {
    let mut formatter = HtmlFormatter::new(BytesMut::new());
    formatter.write_content("I have <html> & \"quotes\"").unwrap();
    assert_eq!(contents(formatter), "I have &lt;html&gt; &amp; \"quotes\"");
}

#[test]
fn attribute_values_escape_quotes() {
    let mut formatter = HtmlFormatter::new(BytesMut::new());
    formatter.write_attribute_name(b"title");
    formatter.write_attribute_value("say \"hi\" & 'bye'").unwrap();
    assert_eq!(contents(formatter), " title=\"say &quot;hi&quot; &amp; &apos;bye&apos;\"");
}

#[test]
fn empty_attribute_value_still_quotes() {
    // a value that writes one empty chunk still opens and closes the quotes
    let mut formatter = HtmlFormatter::new(BytesMut::new());
    formatter.write_attribute_name(b"class");
    formatter.write_attribute_value("").unwrap();
    assert_eq!(contents(formatter), " class=\"\"");
}

#[test]
fn unit_attribute_value_writes_nothing() {
    // the unit value writes no chunk, so not even `=""` appears
    let mut formatter = HtmlFormatter::new(BytesMut::new());
    formatter.write_attribute_name(b"disabled");
    formatter.write_attribute_value(()).unwrap();
    assert_eq!(contents(formatter), " disabled");
}

#[test]
fn raw_text_skips_escaping() {
    let mut formatter = HtmlFormatter::new(BytesMut::new());
    formatter.write_content(RawText::new("<b>bold</b>")).unwrap();
    assert_eq!(contents(formatter), "<b>bold</b>");
}

#[test]
fn options_render_when_present() {
    let mut formatter = HtmlFormatter::new(BytesMut::new());
    formatter.write_content(None::<&str>).unwrap();
    formatter.write_content(Some("yes")).unwrap();
    assert_eq!(contents(formatter), "yes");
}

#[test]
fn numbers_render_in_decimal() {
    let mut formatter = HtmlFormatter::new(BytesMut::new());
    formatter.write_content(0u8).unwrap();
    formatter.write_content(42u32).unwrap();
    formatter.write_content(u64::MAX).unwrap();
    formatter.write_content(-7i32).unwrap();
    formatter.write_content(i64::MIN).unwrap();
    formatter.write_content(true).unwrap();
    formatter.write_content(false).unwrap();
    assert_eq!(
        contents(formatter),
        format!("0{}{}{}{}{}{}", 42, u64::MAX, -7, i64::MIN, true, false)
    );
}

#[test]
fn extreme_wide_numbers_render() {
    let mut formatter = HtmlFormatter::new(BytesMut::new());
    formatter.write_content(u128::MAX).unwrap();
    formatter.write_content(i128::MIN).unwrap();
    assert_eq!(contents(formatter), format!("{}{}", u128::MAX, i128::MIN));
}

#[test]
fn numbers_render_as_attribute_values() {
    let mut formatter = HtmlFormatter::new(BytesMut::new());
    formatter.write_attribute_name(b"width");
    formatter.write_attribute_value(800u16).unwrap();
    assert_eq!(contents(formatter), " width=\"800\"");
}

#[test]
fn bytes_buffers_render_escaped() {
    let frozen = bytes::Bytes::from_static(b"a<b");
    let mut formatter = HtmlFormatter::new(BytesMut::new());
    formatter.write_content(frozen).unwrap();
    assert_eq!(contents(formatter), "a&lt;b");
}

#[test]
fn into_string_collects_the_output() {
    let out = HtmlContent::into_string("round & trip")
        .expect("formatting works and produces valid utf-8");
    assert_eq!(out, "round &amp; trip");
}

#[test]
fn into_bytes_freezes_the_output() {
    let frozen = HtmlContent::into_bytes("x<y").expect("formatting works");
    assert_eq!(frozen.as_ref(), b"x&lt;y");
}

#[test]
fn html_wrapper_delegates() {
    let wrapped = Html::from_fn("inner & outer");
    let mut formatter = HtmlFormatter::new(BytesMut::new());
    formatter.write_content(wrapped).unwrap();
    assert_eq!(contents(formatter), "inner &amp; outer");
}

#[test]
fn sanitized_strips_dangerous_markup() {
    // the default policy must actually rewrite the input: a script element
    // disappears, ordinary markup stays
    let dirty = "<b>fine</b><script>alert('no')</script>";
    let mut formatter = HtmlFormatter::new(BytesMut::new());
    formatter.write_content(Sanitized::new(dirty)).unwrap();
    let out = contents(formatter);
    assert!(out.contains("<b>fine</b>"), "kept safe markup: {out}");
    assert!(!out.contains("script"), "dropped the script element: {out}");
    assert!(!out.contains("alert"), "dropped the script body: {out}");
}

#[test]
fn sanitized_with_custom_policy() {
    // a policy allowing no elements at all keeps only the text
    let config = SanitizeConfig::new().tags(vec![]);
    let dirty = "<b>text</b>";
    let mut formatter = HtmlFormatter::new(BytesMut::new());
    formatter
        .write_content(Sanitized::new_with_sanitizer(dirty, config))
        .unwrap();
    let out = contents(formatter);
    assert_eq!(out, "text");

    // a policy allowing an attribute everywhere keeps it
    let config = SanitizeConfig::new().generic_attributes(vec!["id".to_string()]);
    let dirty = "<b id=\"keep\" onclick=\"drop()\">text</b>";
    let mut formatter = HtmlFormatter::new(BytesMut::new());
    formatter
        .write_content(Sanitized::new(dirty).with_sanitizer(config))
        .unwrap();
    let out = contents(formatter);
    assert_eq!(out, "<b id=\"keep\">text</b>");
}

#[test]
fn render_closures_are_content() {
    // a closure taking the formatter and handing it back renders as content
    let body = |mut f: HtmlFormatter| -> (HtmlFormatter, Result<(), FmtError>) {
        f.write_open_tag_start(b"p");
        f.write_open_tag_end();
        if let Err(e) = f.write_content("hi & bye") {
            return (f, Err(e));
        }
        f.write_end_tag(b"p");
        (f, Ok(()))
    };
    let mut formatter = HtmlFormatter::new(BytesMut::new());
    formatter.write_content(body).unwrap();
    assert_eq!(contents(formatter), "<p>hi &amp; bye</p>");
}
