//! The text implementations of the content contract: borrowed and
//! owned strings. Text is truthy when non-empty, estimates its byte
//! length, renders escaped through the sink's escaping writer and
//! unescaped through its raw writer.

use vstd::prelude::*;

use crate::content::Content;
use crate::content::Variable;
use crate::content::render_field_absent;
use crate::content::render_inverse_by_truthiness;
use crate::content::render_section_by_truthiness;
use crate::encoding::Encoder;
use crate::encoding::escape_bytes;
use crate::template::Section;
use crate::template::Template;
use vstd::string::StringSliceAdditionalSpecFns;
use vstd::utf8::encode_utf8;

verus! {

impl Variable for &str {
    open spec fn truthy(&self) -> bool {
        self@.len() > 0
    }

    open spec fn hint(&self, tpl: &Template) -> usize {
        self.spec_bytes().len() as usize
    }

    open spec fn esc_model(&self) -> Seq<u8> {
        escape_bytes(self.spec_bytes())
    }

    open spec fn unesc_model(&self) -> Seq<u8> {
        self.spec_bytes()
    }

    /// Markup rendering of text delegates to the sink's markup
    /// transform, whose generated output is not escaped further.
    open spec fn markup_text(&self) -> Option<Seq<u8>> {
        Some(self.spec_bytes())
    }

    fn is_truthy(&self) -> (r: bool) {
        !self.is_empty()
    }

    fn capacity_hint(&self, tpl: &Template) -> (r: usize) {
        self.len()
    }

    fn render_escaped<E: Encoder>(&self, encoder: &mut E) -> (r: Result<(), E::Error>) {
        encoder.write_escaped(self)
    }

    fn render_unescaped<E: Encoder>(&self, encoder: &mut E) -> (r: Result<(), E::Error>) {
        encoder.write_unescaped(self)
    }

    fn render_cmark<E: Encoder>(&self, encoder: &mut E) -> (r: Result<(), E::Error>) {
        encoder.write_markup(self)
    }
}

impl Content for &str {
    fn render_section<E: Encoder>(&self, section: Section, encoder: &mut E) -> (r: Result<
        (),
        E::Error,
    >) {
        render_section_by_truthiness(self, section, encoder)
    }

    fn render_inverse<E: Encoder>(&self, section: Section, encoder: &mut E) -> (r: Result<
        (),
        E::Error,
    >) {
        render_inverse_by_truthiness(self, section, encoder)
    }

    fn render_field_escaped<E: Encoder>(&self, hash: u64, name: &str, encoder: &mut E) -> (r:
        Result<bool, E::Error>) {
        render_field_absent(encoder)
    }

    fn render_field_unescaped<E: Encoder>(&self, hash: u64, name: &str, encoder: &mut E) -> (r:
        Result<bool, E::Error>) {
        render_field_absent(encoder)
    }

    fn render_field_section<E: Encoder>(
        &self,
        hash: u64,
        name: &str,
        section: Section,
        encoder: &mut E,
    ) -> (r: Result<bool, E::Error>) {
        render_field_absent(encoder)
    }

    fn render_field_inverse<E: Encoder>(
        &self,
        hash: u64,
        name: &str,
        section: Section,
        encoder: &mut E,
    ) -> (r: Result<bool, E::Error>) {
        render_field_absent(encoder)
    }
}

impl Variable for String {
    open spec fn truthy(&self) -> bool {
        self@.len() > 0
    }

    open spec fn hint(&self, tpl: &Template) -> usize {
        encode_utf8(self@).len() as usize
    }

    open spec fn esc_model(&self) -> Seq<u8> {
        escape_bytes(encode_utf8(self@))
    }

    open spec fn unesc_model(&self) -> Seq<u8> {
        encode_utf8(self@)
    }

    /// Markup rendering of text delegates to the sink's markup
    /// transform, whose generated output is not escaped further.
    open spec fn markup_text(&self) -> Option<Seq<u8>> {
        Some(encode_utf8(self@))
    }

    fn is_truthy(&self) -> (r: bool) {
        !self.as_str().is_empty()
    }

    fn capacity_hint(&self, tpl: &Template) -> (r: usize) {
        self.as_str().len()
    }

    fn render_escaped<E: Encoder>(&self, encoder: &mut E) -> (r: Result<(), E::Error>) {
        encoder.write_escaped(self.as_str())
    }

    fn render_unescaped<E: Encoder>(&self, encoder: &mut E) -> (r: Result<(), E::Error>) {
        encoder.write_unescaped(self.as_str())
    }

    fn render_cmark<E: Encoder>(&self, encoder: &mut E) -> (r: Result<(), E::Error>) {
        encoder.write_markup(self.as_str())
    }
}

impl Content for String {
    fn render_section<E: Encoder>(&self, section: Section, encoder: &mut E) -> (r: Result<
        (),
        E::Error,
    >) {
        render_section_by_truthiness(self, section, encoder)
    }

    fn render_inverse<E: Encoder>(&self, section: Section, encoder: &mut E) -> (r: Result<
        (),
        E::Error,
    >) {
        render_inverse_by_truthiness(self, section, encoder)
    }

    fn render_field_escaped<E: Encoder>(&self, hash: u64, name: &str, encoder: &mut E) -> (r:
        Result<bool, E::Error>) {
        render_field_absent(encoder)
    }

    fn render_field_unescaped<E: Encoder>(&self, hash: u64, name: &str, encoder: &mut E) -> (r:
        Result<bool, E::Error>) {
        render_field_absent(encoder)
    }

    fn render_field_section<E: Encoder>(
        &self,
        hash: u64,
        name: &str,
        section: Section,
        encoder: &mut E,
    ) -> (r: Result<bool, E::Error>) {
        render_field_absent(encoder)
    }

    fn render_field_inverse<E: Encoder>(
        &self,
        hash: u64,
        name: &str,
        section: Section,
        encoder: &mut E,
    ) -> (r: Result<bool, E::Error>) {
        render_field_absent(encoder)
    }
}

} // verus!
