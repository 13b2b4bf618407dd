use ramhorns::Block;
use ramhorns::Content;
use ramhorns::LimitedEncoder;
use ramhorns::Template;
use ramhorns::Variable;

#[test]
fn sink_failure_aborts_a_sequence_render() {
    let tpl = Template::new(vec![Block::Slot, Block::Text(String::from("-"))]);
    let mut enc = LimitedEncoder::new(3);
    let result = vec![1u32, 2, 3].render_section(tpl.section(), &mut enc);
    assert!(result.is_err());
    assert_eq!(enc.bytes().as_slice(), b"1-2");
}

#[test]
fn sink_failure_surfaces_from_a_scalar_render() {
    let mut enc = LimitedEncoder::new(4);
    let result = "<b>".render_escaped(&mut enc);
    assert!(result.is_err());
    assert_eq!(enc.bytes().as_slice(), b"");
}

#[test]
fn sink_failure_surfaces_from_field_dispatch() {
    let tpl = Template::new(vec![Block::Text(String::from("abcdef"))]);
    let mut map: ramhorns::FieldMap<bool> = ramhorns::FieldMap::new();
    map.insert(String::from("f"), true);
    let mut enc = LimitedEncoder::new(2);
    let result = map.render_field_section(0, "f", tpl.section(), &mut enc);
    assert!(result.is_err());
    assert_eq!(enc.bytes().as_slice(), b"");
}

#[test]
fn writes_within_budget_succeed() {
    let mut enc = LimitedEncoder::new(16);
    "<b>".render_escaped(&mut enc).unwrap();
    7u32.render_escaped(&mut enc).unwrap();
    assert_eq!(enc.bytes().as_slice(), b"&lt;b&gt;7");
}
