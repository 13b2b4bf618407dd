use ramhorns::Block;
use ramhorns::Content;
use ramhorns::FieldMap;
use ramhorns::HtmlEncoder;
use ramhorns::Template;
use ramhorns::Variable;

#[test]
fn present_field_is_found_whatever_the_hash_says() {
    let mut map: FieldMap<String> = FieldMap::new();
    map.insert(String::from("k"), String::from("<v>"));

    let mut enc = HtmlEncoder::new();
    let found = map.render_field_escaped(0, "k", &mut enc).unwrap();
    assert!(found);
    assert_eq!(enc.bytes().as_slice(), b"&lt;v&gt;");

    let mut enc = HtmlEncoder::new();
    let found = map.render_field_escaped(0xdead_beef, "k", &mut enc).unwrap();
    assert!(found);
    assert_eq!(enc.bytes().as_slice(), b"&lt;v&gt;");
}

#[test]
fn absent_field_is_reported_without_output() {
    let map: FieldMap<String> = FieldMap::new();
    let mut enc = HtmlEncoder::new();
    let found = map.render_field_escaped(7, "missing", &mut enc).unwrap();
    assert!(!found);
    assert_eq!(enc.bytes().as_slice(), b"");
}

#[test]
fn unescaped_field_render_skips_escaping() {
    let mut map: FieldMap<String> = FieldMap::new();
    map.insert(String::from("k"), String::from("<v>"));
    let mut enc = HtmlEncoder::new();
    let found = map.render_field_unescaped(1, "k", &mut enc).unwrap();
    assert!(found);
    assert_eq!(enc.bytes().as_slice(), b"<v>");
}

#[test]
fn later_insert_shadows_earlier_binding() {
    let mut map: FieldMap<u32> = FieldMap::new();
    map.insert(String::from("n"), 1);
    map.insert(String::from("n"), 2);
    let mut enc = HtmlEncoder::new();
    let found = map.render_field_escaped(0, "n", &mut enc).unwrap();
    assert!(found);
    assert_eq!(enc.bytes().as_slice(), b"2");
}

#[test]
fn absent_optional_field_in_conditional_block() {
    let block = Template::new(vec![Block::Text(String::from("X"))]);
    let mut map: FieldMap<Option<bool>> = FieldMap::new();
    map.insert(String::from("f"), None);

    let mut enc = HtmlEncoder::new();
    let found = map.render_field_section(0, "f", block.section(), &mut enc).unwrap();
    assert!(found);
    assert_eq!(enc.bytes().as_slice(), b"");
}

#[test]
fn present_optional_field_in_conditional_block() {
    let block = Template::new(vec![Block::Text(String::from("X"))]);
    let mut map: FieldMap<Option<bool>> = FieldMap::new();
    map.insert(String::from("f"), Some(true));

    let mut enc = HtmlEncoder::new();
    let found = map.render_field_section(0, "f", block.section(), &mut enc).unwrap();
    assert!(found);
    assert_eq!(enc.bytes().as_slice(), b"X");
}

#[test]
fn field_inverse_renders_for_falsy_values() {
    let block = Template::new(vec![Block::Text(String::from("empty"))]);
    let mut map: FieldMap<Vec<u32>> = FieldMap::new();
    map.insert(String::from("items"), vec![]);

    let mut enc = HtmlEncoder::new();
    let found = map.render_field_inverse(0, "items", block.section(), &mut enc).unwrap();
    assert!(found);
    assert_eq!(enc.bytes().as_slice(), b"empty");

    let mut enc = HtmlEncoder::new();
    let found = map.render_field_inverse(0, "absent", block.section(), &mut enc).unwrap();
    assert!(!found);
    assert_eq!(enc.bytes().as_slice(), b"");
}

#[test]
fn map_truthiness_and_scalar_render() {
    let mut map: FieldMap<u32> = FieldMap::new();
    assert!(!map.is_truthy());
    map.insert(String::from("a"), 1);
    assert!(map.is_truthy());

    let mut enc = HtmlEncoder::new();
    map.render_escaped(&mut enc).unwrap();
    assert_eq!(enc.bytes().as_slice(), b"");
}

#[test]
fn map_section_enters_by_truthiness() {
    let block = Template::new(vec![Block::Text(String::from("B"))]);
    let mut map: FieldMap<u32> = FieldMap::new();

    let mut enc = HtmlEncoder::new();
    map.render_section(block.section(), &mut enc).unwrap();
    assert_eq!(enc.bytes().as_slice(), b"");

    map.insert(String::from("a"), 1);
    let mut enc = HtmlEncoder::new();
    map.render_section(block.section(), &mut enc).unwrap();
    assert_eq!(enc.bytes().as_slice(), b"B");
}

#[test]
fn nested_map_field_section_uses_the_field_as_scope() {
    let block = Template::new(vec![
        Block::Text(String::from("[")),
        Block::Slot,
        Block::Text(String::from("]")),
    ]);
    let mut map: FieldMap<String> = FieldMap::new();
    map.insert(String::from("name"), String::from("<a>"));

    let mut enc = HtmlEncoder::new();
    let found = map.render_field_section(0, "name", block.section(), &mut enc).unwrap();
    assert!(found);
    assert_eq!(enc.bytes().as_slice(), b"[&lt;a&gt;]");
}

#[test]
fn map_get_and_len_observe_bindings() {
    let mut map: FieldMap<u32> = FieldMap::new();
    assert_eq!(map.len(), 0);
    assert!(map.get("a").is_none());
    map.insert(String::from("a"), 5);
    map.insert(String::from("b"), 6);
    assert_eq!(map.len(), 2);
    assert_eq!(map.get("a"), Some(&5));
    assert_eq!(map.get("b"), Some(&6));
    assert!(map.get("c").is_none());
}
