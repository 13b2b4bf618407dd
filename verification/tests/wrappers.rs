use std::rc::Rc;
use std::sync::Arc;

use ramhorns::Block;
use ramhorns::Content;
use ramhorns::HtmlEncoder;
use ramhorns::Template;
use ramhorns::Variable;

fn rendered_escaped<C: Content>(value: &C) -> Vec<u8> {
    let mut enc = HtmlEncoder::new();
    value.render_escaped(&mut enc).unwrap();
    enc.bytes().clone()
}

fn rendered_section<C: Content>(value: &C, tpl: &Template) -> Vec<u8> {
    let mut enc = HtmlEncoder::new();
    value.render_section(tpl.section(), &mut enc).unwrap();
    enc.bytes().clone()
}

#[test]
fn boxed_value_renders_byte_identically() {
    let tpl = Template::new(vec![Block::Slot, Block::Text(String::from("!"))]);
    let plain = String::from("<x>");
    let boxed = Box::new(String::from("<x>"));
    assert_eq!(rendered_escaped(&plain), rendered_escaped(&boxed));
    assert_eq!(rendered_section(&plain, &tpl), rendered_section(&boxed, &tpl));
    assert_eq!(plain.is_truthy(), boxed.is_truthy());
    assert_eq!(plain.capacity_hint(&tpl), boxed.capacity_hint(&tpl));
}

#[test]
fn shared_owners_render_byte_identically() {
    let tpl = Template::new(vec![Block::Slot]);
    let plain = 42u64;
    let rc = Rc::new(42u64);
    let arc = Arc::new(42u64);
    assert_eq!(rendered_escaped(&plain), rendered_escaped(&rc));
    assert_eq!(rendered_escaped(&plain), rendered_escaped(&arc));
    assert_eq!(rendered_section(&plain, &tpl), rendered_section(&rc, &tpl));
    assert_eq!(rendered_section(&plain, &tpl), rendered_section(&arc, &tpl));
    assert_eq!(plain.is_truthy(), rc.is_truthy());
    assert_eq!(plain.is_truthy(), arc.is_truthy());
}

#[test]
fn reference_wrapper_renders_byte_identically() {
    let tpl = Template::new(vec![Block::Slot]);
    let plain = false;
    let by_ref = &plain;
    assert_eq!(rendered_escaped(&plain), rendered_escaped(&by_ref));
    assert_eq!(rendered_section(&plain, &tpl), rendered_section(&by_ref, &tpl));
    assert_eq!(plain.is_truthy(), by_ref.is_truthy());
}
