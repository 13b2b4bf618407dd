//! The ownership-transparent wrappers: references, exclusive owners
//! and shared owners all forward every operation unchanged to the
//! wrapped value, so a renderer treats a wrapped value and the value
//! itself identically.

use vstd::prelude::*;

use crate::content::Content;
use crate::content::Variable;
use crate::encoding::Encoder;
use crate::template::Block;
use crate::template::Section;
use crate::template::Template;

verus! {

impl<T: Variable> Variable for &T {
    open spec fn truthy(&self) -> bool {
        (**self).truthy()
    }

    open spec fn hint(&self, tpl: &Template) -> usize {
        (**self).hint(tpl)
    }

    open spec fn esc_model(&self) -> Seq<u8> {
        (**self).esc_model()
    }

    open spec fn unesc_model(&self) -> Seq<u8> {
        (**self).unesc_model()
    }

    open spec fn markup_text(&self) -> Option<Seq<u8>> {
        (**self).markup_text()
    }

    fn is_truthy(&self) -> (r: bool) {
        (**self).is_truthy()
    }

    fn capacity_hint(&self, tpl: &Template) -> (r: usize) {
        (**self).capacity_hint(tpl)
    }

    fn render_escaped<E: Encoder>(&self, encoder: &mut E) -> (r: Result<(), E::Error>) {
        (**self).render_escaped(encoder)
    }

    fn render_unescaped<E: Encoder>(&self, encoder: &mut E) -> (r: Result<(), E::Error>) {
        (**self).render_unescaped(encoder)
    }

    fn render_cmark<E: Encoder>(&self, encoder: &mut E) -> (r: Result<(), E::Error>) {
        (**self).render_cmark(encoder)
    }
}

impl<T: Content> Content for &T {
    open spec fn sect_model(&self, blocks: Seq<Block>) -> Seq<u8> {
        (**self).sect_model(blocks)
    }

    open spec fn inv_model(&self, blocks: Seq<Block>) -> Seq<u8> {
        (**self).inv_model(blocks)
    }

    open spec fn has_field(&self, name: Seq<u8>) -> bool {
        (**self).has_field(name)
    }

    open spec fn field_esc_model(&self, name: Seq<u8>) -> Seq<u8> {
        (**self).field_esc_model(name)
    }

    open spec fn field_unesc_model(&self, name: Seq<u8>) -> Seq<u8> {
        (**self).field_unesc_model(name)
    }

    open spec fn field_sect_model(&self, name: Seq<u8>, blocks: Seq<Block>) -> Seq<u8> {
        (**self).field_sect_model(name, blocks)
    }

    open spec fn field_inv_model(&self, name: Seq<u8>, blocks: Seq<Block>) -> Seq<u8> {
        (**self).field_inv_model(name, blocks)
    }

    fn render_section<E: Encoder>(&self, section: Section, encoder: &mut E) -> (r: Result<
        (),
        E::Error,
    >) {
        (**self).render_section(section, encoder)
    }

    fn render_inverse<E: Encoder>(&self, section: Section, encoder: &mut E) -> (r: Result<
        (),
        E::Error,
    >) {
        (**self).render_inverse(section, encoder)
    }

    fn render_field_escaped<E: Encoder>(&self, hash: u64, name: &str, encoder: &mut E) -> (r:
        Result<bool, E::Error>) {
        (**self).render_field_escaped(hash, name, encoder)
    }

    fn render_field_unescaped<E: Encoder>(&self, hash: u64, name: &str, encoder: &mut E) -> (r:
        Result<bool, E::Error>) {
        (**self).render_field_unescaped(hash, name, encoder)
    }

    fn render_field_section<E: Encoder>(
        &self,
        hash: u64,
        name: &str,
        section: Section,
        encoder: &mut E,
    ) -> (r: Result<bool, E::Error>) {
        (**self).render_field_section(hash, name, section, encoder)
    }

    fn render_field_inverse<E: Encoder>(
        &self,
        hash: u64,
        name: &str,
        section: Section,
        encoder: &mut E,
    ) -> (r: Result<bool, E::Error>) {
        (**self).render_field_inverse(hash, name, section, encoder)
    }
}

impl<T: Variable> Variable for Box<T> {
    open spec fn truthy(&self) -> bool {
        (**self).truthy()
    }

    open spec fn hint(&self, tpl: &Template) -> usize {
        (**self).hint(tpl)
    }

    open spec fn esc_model(&self) -> Seq<u8> {
        (**self).esc_model()
    }

    open spec fn unesc_model(&self) -> Seq<u8> {
        (**self).unesc_model()
    }

    open spec fn markup_text(&self) -> Option<Seq<u8>> {
        (**self).markup_text()
    }

    fn is_truthy(&self) -> (r: bool) {
        (**self).is_truthy()
    }

    fn capacity_hint(&self, tpl: &Template) -> (r: usize) {
        (**self).capacity_hint(tpl)
    }

    fn render_escaped<E: Encoder>(&self, encoder: &mut E) -> (r: Result<(), E::Error>) {
        (**self).render_escaped(encoder)
    }

    fn render_unescaped<E: Encoder>(&self, encoder: &mut E) -> (r: Result<(), E::Error>) {
        (**self).render_unescaped(encoder)
    }

    fn render_cmark<E: Encoder>(&self, encoder: &mut E) -> (r: Result<(), E::Error>) {
        (**self).render_cmark(encoder)
    }
}

impl<T: Content> Content for Box<T> {
    open spec fn sect_model(&self, blocks: Seq<Block>) -> Seq<u8> {
        (**self).sect_model(blocks)
    }

    open spec fn inv_model(&self, blocks: Seq<Block>) -> Seq<u8> {
        (**self).inv_model(blocks)
    }

    open spec fn has_field(&self, name: Seq<u8>) -> bool {
        (**self).has_field(name)
    }

    open spec fn field_esc_model(&self, name: Seq<u8>) -> Seq<u8> {
        (**self).field_esc_model(name)
    }

    open spec fn field_unesc_model(&self, name: Seq<u8>) -> Seq<u8> {
        (**self).field_unesc_model(name)
    }

    open spec fn field_sect_model(&self, name: Seq<u8>, blocks: Seq<Block>) -> Seq<u8> {
        (**self).field_sect_model(name, blocks)
    }

    open spec fn field_inv_model(&self, name: Seq<u8>, blocks: Seq<Block>) -> Seq<u8> {
        (**self).field_inv_model(name, blocks)
    }

    fn render_section<E: Encoder>(&self, section: Section, encoder: &mut E) -> (r: Result<
        (),
        E::Error,
    >) {
        (**self).render_section(section, encoder)
    }

    fn render_inverse<E: Encoder>(&self, section: Section, encoder: &mut E) -> (r: Result<
        (),
        E::Error,
    >) {
        (**self).render_inverse(section, encoder)
    }

    fn render_field_escaped<E: Encoder>(&self, hash: u64, name: &str, encoder: &mut E) -> (r:
        Result<bool, E::Error>) {
        (**self).render_field_escaped(hash, name, encoder)
    }

    fn render_field_unescaped<E: Encoder>(&self, hash: u64, name: &str, encoder: &mut E) -> (r:
        Result<bool, E::Error>) {
        (**self).render_field_unescaped(hash, name, encoder)
    }

    fn render_field_section<E: Encoder>(
        &self,
        hash: u64,
        name: &str,
        section: Section,
        encoder: &mut E,
    ) -> (r: Result<bool, E::Error>) {
        (**self).render_field_section(hash, name, section, encoder)
    }

    fn render_field_inverse<E: Encoder>(
        &self,
        hash: u64,
        name: &str,
        section: Section,
        encoder: &mut E,
    ) -> (r: Result<bool, E::Error>) {
        (**self).render_field_inverse(hash, name, section, encoder)
    }
}

impl<T: Variable> Variable for std::rc::Rc<T> {
    open spec fn truthy(&self) -> bool {
        (**self).truthy()
    }

    open spec fn hint(&self, tpl: &Template) -> usize {
        (**self).hint(tpl)
    }

    open spec fn esc_model(&self) -> Seq<u8> {
        (**self).esc_model()
    }

    open spec fn unesc_model(&self) -> Seq<u8> {
        (**self).unesc_model()
    }

    open spec fn markup_text(&self) -> Option<Seq<u8>> {
        (**self).markup_text()
    }

    fn is_truthy(&self) -> (r: bool) {
        (**self).is_truthy()
    }

    fn capacity_hint(&self, tpl: &Template) -> (r: usize) {
        (**self).capacity_hint(tpl)
    }

    fn render_escaped<E: Encoder>(&self, encoder: &mut E) -> (r: Result<(), E::Error>) {
        (**self).render_escaped(encoder)
    }

    fn render_unescaped<E: Encoder>(&self, encoder: &mut E) -> (r: Result<(), E::Error>) {
        (**self).render_unescaped(encoder)
    }

    fn render_cmark<E: Encoder>(&self, encoder: &mut E) -> (r: Result<(), E::Error>) {
        (**self).render_cmark(encoder)
    }
}

impl<T: Content> Content for std::rc::Rc<T> {
    open spec fn sect_model(&self, blocks: Seq<Block>) -> Seq<u8> {
        (**self).sect_model(blocks)
    }

    open spec fn inv_model(&self, blocks: Seq<Block>) -> Seq<u8> {
        (**self).inv_model(blocks)
    }

    open spec fn has_field(&self, name: Seq<u8>) -> bool {
        (**self).has_field(name)
    }

    open spec fn field_esc_model(&self, name: Seq<u8>) -> Seq<u8> {
        (**self).field_esc_model(name)
    }

    open spec fn field_unesc_model(&self, name: Seq<u8>) -> Seq<u8> {
        (**self).field_unesc_model(name)
    }

    open spec fn field_sect_model(&self, name: Seq<u8>, blocks: Seq<Block>) -> Seq<u8> {
        (**self).field_sect_model(name, blocks)
    }

    open spec fn field_inv_model(&self, name: Seq<u8>, blocks: Seq<Block>) -> Seq<u8> {
        (**self).field_inv_model(name, blocks)
    }

    fn render_section<E: Encoder>(&self, section: Section, encoder: &mut E) -> (r: Result<
        (),
        E::Error,
    >) {
        (**self).render_section(section, encoder)
    }

    fn render_inverse<E: Encoder>(&self, section: Section, encoder: &mut E) -> (r: Result<
        (),
        E::Error,
    >) {
        (**self).render_inverse(section, encoder)
    }

    fn render_field_escaped<E: Encoder>(&self, hash: u64, name: &str, encoder: &mut E) -> (r:
        Result<bool, E::Error>) {
        (**self).render_field_escaped(hash, name, encoder)
    }

    fn render_field_unescaped<E: Encoder>(&self, hash: u64, name: &str, encoder: &mut E) -> (r:
        Result<bool, E::Error>) {
        (**self).render_field_unescaped(hash, name, encoder)
    }

    fn render_field_section<E: Encoder>(
        &self,
        hash: u64,
        name: &str,
        section: Section,
        encoder: &mut E,
    ) -> (r: Result<bool, E::Error>) {
        (**self).render_field_section(hash, name, section, encoder)
    }

    fn render_field_inverse<E: Encoder>(
        &self,
        hash: u64,
        name: &str,
        section: Section,
        encoder: &mut E,
    ) -> (r: Result<bool, E::Error>) {
        (**self).render_field_inverse(hash, name, section, encoder)
    }
}

impl<T: Variable> Variable for std::sync::Arc<T> {
    open spec fn truthy(&self) -> bool {
        (**self).truthy()
    }

    open spec fn hint(&self, tpl: &Template) -> usize {
        (**self).hint(tpl)
    }

    open spec fn esc_model(&self) -> Seq<u8> {
        (**self).esc_model()
    }

    open spec fn unesc_model(&self) -> Seq<u8> {
        (**self).unesc_model()
    }

    open spec fn markup_text(&self) -> Option<Seq<u8>> {
        (**self).markup_text()
    }

    fn is_truthy(&self) -> (r: bool) {
        (**self).is_truthy()
    }

    fn capacity_hint(&self, tpl: &Template) -> (r: usize) {
        (**self).capacity_hint(tpl)
    }

    fn render_escaped<E: Encoder>(&self, encoder: &mut E) -> (r: Result<(), E::Error>) {
        (**self).render_escaped(encoder)
    }

    fn render_unescaped<E: Encoder>(&self, encoder: &mut E) -> (r: Result<(), E::Error>) {
        (**self).render_unescaped(encoder)
    }

    fn render_cmark<E: Encoder>(&self, encoder: &mut E) -> (r: Result<(), E::Error>) {
        (**self).render_cmark(encoder)
    }
}

impl<T: Content> Content for std::sync::Arc<T> {
    open spec fn sect_model(&self, blocks: Seq<Block>) -> Seq<u8> {
        (**self).sect_model(blocks)
    }

    open spec fn inv_model(&self, blocks: Seq<Block>) -> Seq<u8> {
        (**self).inv_model(blocks)
    }

    open spec fn has_field(&self, name: Seq<u8>) -> bool {
        (**self).has_field(name)
    }

    open spec fn field_esc_model(&self, name: Seq<u8>) -> Seq<u8> {
        (**self).field_esc_model(name)
    }

    open spec fn field_unesc_model(&self, name: Seq<u8>) -> Seq<u8> {
        (**self).field_unesc_model(name)
    }

    open spec fn field_sect_model(&self, name: Seq<u8>, blocks: Seq<Block>) -> Seq<u8> {
        (**self).field_sect_model(name, blocks)
    }

    open spec fn field_inv_model(&self, name: Seq<u8>, blocks: Seq<Block>) -> Seq<u8> {
        (**self).field_inv_model(name, blocks)
    }

    fn render_section<E: Encoder>(&self, section: Section, encoder: &mut E) -> (r: Result<
        (),
        E::Error,
    >) {
        (**self).render_section(section, encoder)
    }

    fn render_inverse<E: Encoder>(&self, section: Section, encoder: &mut E) -> (r: Result<
        (),
        E::Error,
    >) {
        (**self).render_inverse(section, encoder)
    }

    fn render_field_escaped<E: Encoder>(&self, hash: u64, name: &str, encoder: &mut E) -> (r:
        Result<bool, E::Error>) {
        (**self).render_field_escaped(hash, name, encoder)
    }

    fn render_field_unescaped<E: Encoder>(&self, hash: u64, name: &str, encoder: &mut E) -> (r:
        Result<bool, E::Error>) {
        (**self).render_field_unescaped(hash, name, encoder)
    }

    fn render_field_section<E: Encoder>(
        &self,
        hash: u64,
        name: &str,
        section: Section,
        encoder: &mut E,
    ) -> (r: Result<bool, E::Error>) {
        (**self).render_field_section(hash, name, section, encoder)
    }

    fn render_field_inverse<E: Encoder>(
        &self,
        hash: u64,
        name: &str,
        section: Section,
        encoder: &mut E,
    ) -> (r: Result<bool, E::Error>) {
        (**self).render_field_inverse(hash, name, section, encoder)
    }
}

} // verus!
