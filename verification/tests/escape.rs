use rstml_component::escape::{attribute, text};

#[test]
fn text_escapes_angle_brackets_and_ampersand() {
    assert_eq!(text(b"a<b>c&d"), b"a&lt;b&gt;c&amp;d".to_vec());
    assert_eq!(text(b"'quotes' stay \"raw\""), b"'quotes' stay \"raw\"".to_vec());
    assert_eq!(text(b""), Vec::<u8>::new());
    assert_eq!(text(b"plain text"), b"plain text".to_vec());
}

#[test]
fn attribute_escapes_quotes_as_well() {
    assert_eq!(attribute(b"a<b>c&d"), b"a&lt;b&gt;c&amp;d".to_vec());
    assert_eq!(attribute(b"'single'"), b"&apos;single&apos;".to_vec());
    assert_eq!(attribute(b"\"double\""), b"&quot;double&quot;".to_vec());
    assert_eq!(attribute(b"mixed <&\"'>"), b"mixed &lt;&amp;&quot;&apos;&gt;".to_vec());
}
