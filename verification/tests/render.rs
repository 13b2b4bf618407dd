use ramhorns::Block;
use ramhorns::Content;
use ramhorns::HtmlEncoder;
use ramhorns::Template;
use ramhorns::Variable;

fn slot_dash_template() -> Template {
    Template::new(vec![Block::Slot, Block::Text(String::from("-"))])
}

#[test]
fn escaped_text_without_special_characters() {
    let mut enc = HtmlEncoder::new();
    "hi".render_escaped(&mut enc).unwrap();
    assert_eq!(enc.bytes().as_slice(), b"hi");
}

#[test]
fn escaped_and_unescaped_markup_text() {
    let mut enc = HtmlEncoder::new();
    "<b>".render_escaped(&mut enc).unwrap();
    assert_eq!(enc.bytes().as_slice(), b"&lt;b&gt;");

    let mut enc = HtmlEncoder::new();
    "<b>".render_unescaped(&mut enc).unwrap();
    assert_eq!(enc.bytes().as_slice(), b"<b>");
}

#[test]
fn escaping_covers_every_markup_byte() {
    let mut enc = HtmlEncoder::new();
    "a<b>c&d\"e".render_escaped(&mut enc).unwrap();
    assert_eq!(enc.bytes().as_slice(), b"a&lt;b&gt;c&amp;d&quot;e".as_slice());
}

#[test]
fn multi_byte_text_passes_through_escaping_unchanged() {
    let mut enc = HtmlEncoder::new();
    "caf\u{e9}<".render_escaped(&mut enc).unwrap();
    assert_eq!(enc.bytes().as_slice(), "caf\u{e9}&lt;".as_bytes());
}

#[test]
fn owned_string_renders_like_borrowed_text() {
    let owned = String::from("<b>");
    let mut enc = HtmlEncoder::new();
    owned.render_escaped(&mut enc).unwrap();
    assert_eq!(enc.bytes().as_slice(), b"&lt;b&gt;");

    let mut enc = HtmlEncoder::new();
    owned.render_unescaped(&mut enc).unwrap();
    assert_eq!(enc.bytes().as_slice(), b"<b>");
}

#[test]
fn markup_render_of_text_writes_through_the_markup_transform() {
    let mut enc = HtmlEncoder::new();
    "<b>".render_cmark(&mut enc).unwrap();
    assert_eq!(enc.bytes().as_slice(), b"<b>");
}

#[test]
fn markup_render_of_non_text_falls_back_to_escaped() {
    let mut enc = HtmlEncoder::new();
    true.render_cmark(&mut enc).unwrap();
    7u32.render_cmark(&mut enc).unwrap();
    assert_eq!(enc.bytes().as_slice(), b"true7");
}

#[test]
fn text_truthiness_and_capacity() {
    let tpl = Template::new(vec![]);
    assert!(!"".is_truthy());
    assert!("x".is_truthy());
    assert_eq!("hello".capacity_hint(&tpl), 5);
    assert_eq!(String::new().capacity_hint(&tpl), 0);
}

#[test]
fn booleans_render_their_tokens() {
    let mut enc = HtmlEncoder::new();
    true.render_escaped(&mut enc).unwrap();
    false.render_escaped(&mut enc).unwrap();
    assert_eq!(enc.bytes().as_slice(), b"truefalse");
    assert!(true.is_truthy());
    assert!(!false.is_truthy());
}

#[test]
fn integers_render_their_decimal_form() {
    let mut enc = HtmlEncoder::new();
    42u8.render_escaped(&mut enc).unwrap();
    assert_eq!(enc.bytes().as_slice(), b"42");

    let mut enc = HtmlEncoder::new();
    (-5i32).render_escaped(&mut enc).unwrap();
    assert_eq!(enc.bytes().as_slice(), b"-5");

    let mut enc = HtmlEncoder::new();
    0usize.render_escaped(&mut enc).unwrap();
    assert_eq!(enc.bytes().as_slice(), b"0");

    let mut enc = HtmlEncoder::new();
    u128::MAX.render_escaped(&mut enc).unwrap();
    assert_eq!(enc.bytes().as_slice(), u128::MAX.to_string().as_bytes());

    let mut enc = HtmlEncoder::new();
    i128::MIN.render_escaped(&mut enc).unwrap();
    assert_eq!(enc.bytes().as_slice(), i128::MIN.to_string().as_bytes());
}

#[test]
fn integer_truthiness_is_nonzero() {
    assert!(!0u64.is_truthy());
    assert!(!0i8.is_truthy());
    assert!(1u64.is_truthy());
    assert!((-1i64).is_truthy());
    assert!(255u8.is_truthy());
}

#[test]
fn unit_renders_nothing_and_is_truthy() {
    let mut enc = HtmlEncoder::new();
    ().render_escaped(&mut enc).unwrap();
    ().render_unescaped(&mut enc).unwrap();
    assert_eq!(enc.bytes().as_slice(), b"");
    assert!(().is_truthy());
}

#[test]
fn sequence_section_concatenates_elements_in_order() {
    let tpl = slot_dash_template();
    let mut enc = HtmlEncoder::new();
    vec![1u32, 2, 3].render_section(tpl.section(), &mut enc).unwrap();
    assert_eq!(enc.bytes().as_slice(), b"1-2-3-");
}

#[test]
fn borrowed_slice_section_matches_owned_vector() {
    let tpl = slot_dash_template();
    let items = [1u32, 2, 3];
    let mut enc = HtmlEncoder::new();
    (&items[..]).render_section(tpl.section(), &mut enc).unwrap();
    assert_eq!(enc.bytes().as_slice(), b"1-2-3-");
}

#[test]
fn empty_sequence_renders_no_section_and_inverse_once() {
    let tpl = slot_dash_template();
    let empty: Vec<u32> = vec![];
    let mut enc = HtmlEncoder::new();
    empty.render_section(tpl.section(), &mut enc).unwrap();
    assert_eq!(enc.bytes().as_slice(), b"");
    assert!(!empty.is_truthy());

    let text_tpl = Template::new(vec![Block::Text(String::from("none"))]);
    let mut enc = HtmlEncoder::new();
    empty.render_inverse(text_tpl.section(), &mut enc).unwrap();
    assert_eq!(enc.bytes().as_slice(), b"none");

    let mut enc = HtmlEncoder::new();
    false.render_inverse(text_tpl.section(), &mut enc).unwrap();
    assert_eq!(enc.bytes().as_slice(), b"none");
}

#[test]
fn nonempty_sequence_suppresses_inverse() {
    let text_tpl = Template::new(vec![Block::Text(String::from("none"))]);
    let mut enc = HtmlEncoder::new();
    vec![1u32].render_inverse(text_tpl.section(), &mut enc).unwrap();
    assert_eq!(enc.bytes().as_slice(), b"");
}

#[test]
fn absent_optional_renders_nothing() {
    let tpl = slot_dash_template();
    let absent: Option<u32> = None;
    let mut enc = HtmlEncoder::new();
    absent.render_escaped(&mut enc).unwrap();
    absent.render_section(tpl.section(), &mut enc).unwrap();
    assert_eq!(enc.bytes().as_slice(), b"");
    assert!(!absent.is_truthy());
}

#[test]
fn present_optional_delegates_to_payload() {
    let tpl = slot_dash_template();
    let present: Option<u32> = Some(7);
    let mut enc = HtmlEncoder::new();
    present.render_escaped(&mut enc).unwrap();
    assert_eq!(enc.bytes().as_slice(), b"7");

    let mut enc = HtmlEncoder::new();
    present.render_section(tpl.section(), &mut enc).unwrap();
    assert_eq!(enc.bytes().as_slice(), b"7-");
    assert!(present.is_truthy());
}

#[test]
fn present_optional_section_renders_even_a_falsy_payload() {
    let tpl = slot_dash_template();
    let present: Option<u32> = Some(0);
    let mut enc = HtmlEncoder::new();
    present.render_section(tpl.section(), &mut enc).unwrap();
    assert_eq!(enc.bytes().as_slice(), b"0-");
}

#[test]
fn fallible_value_treats_failure_as_absence() {
    let tpl = slot_dash_template();
    let good: Result<u32, String> = Ok(9);
    let bad: Result<u32, String> = Err(String::from("lost detail"));

    let mut enc = HtmlEncoder::new();
    good.render_section(tpl.section(), &mut enc).unwrap();
    assert_eq!(enc.bytes().as_slice(), b"9-");
    assert!(good.is_truthy());

    let mut enc = HtmlEncoder::new();
    bad.render_escaped(&mut enc).unwrap();
    bad.render_section(tpl.section(), &mut enc).unwrap();
    assert_eq!(enc.bytes().as_slice(), b"");
    assert!(!bad.is_truthy());
}

#[test]
fn conditional_section_renders_by_truthiness() {
    let text_tpl = Template::new(vec![Block::Text(String::from("X"))]);
    let mut enc = HtmlEncoder::new();
    true.render_section(text_tpl.section(), &mut enc).unwrap();
    assert_eq!(enc.bytes().as_slice(), b"X");

    let mut enc = HtmlEncoder::new();
    false.render_section(text_tpl.section(), &mut enc).unwrap();
    assert_eq!(enc.bytes().as_slice(), b"");
}

#[test]
fn capacity_hints_are_as_documented() {
    let tpl = Template::new(vec![]);
    assert_eq!(true.capacity_hint(&tpl), 5);
    assert_eq!(7u64.capacity_hint(&tpl), 5);
    assert_eq!("abc".capacity_hint(&tpl), 3);
    assert_eq!(().capacity_hint(&tpl), 0);
    assert_eq!(vec![1u32].capacity_hint(&tpl), 0);
    assert_eq!(Some("abcd").capacity_hint(&tpl), 4);
    assert_eq!(None::<&str>.capacity_hint(&tpl), 0);
}
