//! The scalar implementations of the content contract: boolean and
//! the integer family. A scalar is truthy when it is not zero (or is
//! `true`), estimates a fixed small capacity, and renders its usual
//! textual form, which never holds a markup-significant character.

use vstd::prelude::*;

use crate::content::Content;
use crate::content::Variable;
use crate::content::render_field_absent;
use crate::content::render_inverse_by_truthiness;
use crate::content::render_section_by_truthiness;
use crate::decimal::dec_bytes;
use crate::decimal::dec_bytes_signed;
use crate::encoding::Encoder;
use crate::template::Section;
use crate::template::Template;
use vstd::utf8::is_ascii_chars;
use vstd::utf8::is_ascii_chars_encode_utf8;
use vstd::string::StringSliceAdditionalSpecFns;

verus! {

/// The bytes of the literal token a boolean renders.
pub open spec fn bool_bytes(b: bool) -> Seq<u8> {
    if b {
        seq![116u8, 114u8, 117u8, 101u8]
    } else {
        seq![102u8, 97u8, 108u8, 115u8, 101u8]
    }
}

/// Writes the literal token for `b`; neither token holds a character
/// that needs escaping.
fn write_bool<E: Encoder>(b: bool, encoder: &mut E) -> (r: Result<(), E::Error>)
    ensures
        E::infallible() ==> r is Ok,
        r is Ok ==> final(encoder).out() == old(encoder).out() + bool_bytes(b),
{
    let s: &str = if b {
        "true"
    } else {
        "false"
    };
    proof {
        reveal_strlit("true");
        reveal_strlit("false");
        assert(is_ascii_chars(s@));
        is_ascii_chars_encode_utf8(s@);
        assert(s.spec_bytes() =~= bool_bytes(b));
    }
    encoder.write_unescaped(s)
}

impl Variable for bool {
    open spec fn truthy(&self) -> bool {
        *self
    }

    open spec fn hint(&self, tpl: &Template) -> usize {
        5
    }

    open spec fn esc_model(&self) -> Seq<u8> {
        bool_bytes(*self)
    }

    fn is_truthy(&self) -> (r: bool) {
        *self
    }

    fn capacity_hint(&self, tpl: &Template) -> (r: usize) {
        5
    }

    fn render_escaped<E: Encoder>(&self, encoder: &mut E) -> (r: Result<(), E::Error>) {
        write_bool(*self, encoder)
    }

    fn render_unescaped<E: Encoder>(&self, encoder: &mut E) -> (r: Result<(), E::Error>) {
        write_bool(*self, encoder)
    }

    fn render_cmark<E: Encoder>(&self, encoder: &mut E) -> (r: Result<(), E::Error>) {
        write_bool(*self, encoder)
    }
}

impl Content for bool {
    fn render_section<E: Encoder>(&self, section: Section, encoder: &mut E) -> (r: Result<
        (),
        E::Error,
    >) {
        render_section_by_truthiness(self, section, encoder)
    }

    fn render_inverse<E: Encoder>(&self, section: Section, encoder: &mut E) -> (r: Result<
        (),
        E::Error,
    >) {
        render_inverse_by_truthiness(self, section, encoder)
    }

    fn render_field_escaped<E: Encoder>(&self, hash: u64, name: &str, encoder: &mut E) -> (r:
        Result<bool, E::Error>) {
        render_field_absent(encoder)
    }

    fn render_field_unescaped<E: Encoder>(&self, hash: u64, name: &str, encoder: &mut E) -> (r:
        Result<bool, E::Error>) {
        render_field_absent(encoder)
    }

    fn render_field_section<E: Encoder>(
        &self,
        hash: u64,
        name: &str,
        section: Section,
        encoder: &mut E,
    ) -> (r: Result<bool, E::Error>) {
        render_field_absent(encoder)
    }

    fn render_field_inverse<E: Encoder>(
        &self,
        hash: u64,
        name: &str,
        section: Section,
        encoder: &mut E,
    ) -> (r: Result<bool, E::Error>) {
        render_field_absent(encoder)
    }
}

impl Variable for u8 {
    open spec fn truthy(&self) -> bool {
        *self != 0
    }

    open spec fn hint(&self, tpl: &Template) -> usize {
        5
    }

    open spec fn esc_model(&self) -> Seq<u8> {
        dec_bytes(*self as nat)
    }

    fn is_truthy(&self) -> (r: bool) {
        *self != 0
    }

    fn capacity_hint(&self, tpl: &Template) -> (r: usize) {
        5
    }

    fn render_escaped<E: Encoder>(&self, encoder: &mut E) -> (r: Result<(), E::Error>) {
        encoder.format_unsigned(*self as u128)
    }

    fn render_unescaped<E: Encoder>(&self, encoder: &mut E) -> (r: Result<(), E::Error>) {
        encoder.format_unsigned(*self as u128)
    }

    fn render_cmark<E: Encoder>(&self, encoder: &mut E) -> (r: Result<(), E::Error>) {
        encoder.format_unsigned(*self as u128)
    }
}

impl Content for u8 {
    fn render_section<E: Encoder>(&self, section: Section, encoder: &mut E) -> (r: Result<
        (),
        E::Error,
    >) {
        render_section_by_truthiness(self, section, encoder)
    }

    fn render_inverse<E: Encoder>(&self, section: Section, encoder: &mut E) -> (r: Result<
        (),
        E::Error,
    >) {
        render_inverse_by_truthiness(self, section, encoder)
    }

    fn render_field_escaped<E: Encoder>(&self, hash: u64, name: &str, encoder: &mut E) -> (r:
        Result<bool, E::Error>) {
        render_field_absent(encoder)
    }

    fn render_field_unescaped<E: Encoder>(&self, hash: u64, name: &str, encoder: &mut E) -> (r:
        Result<bool, E::Error>) {
        render_field_absent(encoder)
    }

    fn render_field_section<E: Encoder>(
        &self,
        hash: u64,
        name: &str,
        section: Section,
        encoder: &mut E,
    ) -> (r: Result<bool, E::Error>) {
        render_field_absent(encoder)
    }

    fn render_field_inverse<E: Encoder>(
        &self,
        hash: u64,
        name: &str,
        section: Section,
        encoder: &mut E,
    ) -> (r: Result<bool, E::Error>) {
        render_field_absent(encoder)
    }
}

impl Variable for u16 {
    open spec fn truthy(&self) -> bool {
        *self != 0
    }

    open spec fn hint(&self, tpl: &Template) -> usize {
        5
    }

    open spec fn esc_model(&self) -> Seq<u8> {
        dec_bytes(*self as nat)
    }

    fn is_truthy(&self) -> (r: bool) {
        *self != 0
    }

    fn capacity_hint(&self, tpl: &Template) -> (r: usize) {
        5
    }

    fn render_escaped<E: Encoder>(&self, encoder: &mut E) -> (r: Result<(), E::Error>) {
        encoder.format_unsigned(*self as u128)
    }

    fn render_unescaped<E: Encoder>(&self, encoder: &mut E) -> (r: Result<(), E::Error>) {
        encoder.format_unsigned(*self as u128)
    }

    fn render_cmark<E: Encoder>(&self, encoder: &mut E) -> (r: Result<(), E::Error>) {
        encoder.format_unsigned(*self as u128)
    }
}

impl Content for u16 {
    fn render_section<E: Encoder>(&self, section: Section, encoder: &mut E) -> (r: Result<
        (),
        E::Error,
    >) {
        render_section_by_truthiness(self, section, encoder)
    }

    fn render_inverse<E: Encoder>(&self, section: Section, encoder: &mut E) -> (r: Result<
        (),
        E::Error,
    >) {
        render_inverse_by_truthiness(self, section, encoder)
    }

    fn render_field_escaped<E: Encoder>(&self, hash: u64, name: &str, encoder: &mut E) -> (r:
        Result<bool, E::Error>) {
        render_field_absent(encoder)
    }

    fn render_field_unescaped<E: Encoder>(&self, hash: u64, name: &str, encoder: &mut E) -> (r:
        Result<bool, E::Error>) {
        render_field_absent(encoder)
    }

    fn render_field_section<E: Encoder>(
        &self,
        hash: u64,
        name: &str,
        section: Section,
        encoder: &mut E,
    ) -> (r: Result<bool, E::Error>) {
        render_field_absent(encoder)
    }

    fn render_field_inverse<E: Encoder>(
        &self,
        hash: u64,
        name: &str,
        section: Section,
        encoder: &mut E,
    ) -> (r: Result<bool, E::Error>) {
        render_field_absent(encoder)
    }
}

impl Variable for u32 {
    open spec fn truthy(&self) -> bool {
        *self != 0
    }

    open spec fn hint(&self, tpl: &Template) -> usize {
        5
    }

    open spec fn esc_model(&self) -> Seq<u8> {
        dec_bytes(*self as nat)
    }

    fn is_truthy(&self) -> (r: bool) {
        *self != 0
    }

    fn capacity_hint(&self, tpl: &Template) -> (r: usize) {
        5
    }

    fn render_escaped<E: Encoder>(&self, encoder: &mut E) -> (r: Result<(), E::Error>) {
        encoder.format_unsigned(*self as u128)
    }

    fn render_unescaped<E: Encoder>(&self, encoder: &mut E) -> (r: Result<(), E::Error>) {
        encoder.format_unsigned(*self as u128)
    }

    fn render_cmark<E: Encoder>(&self, encoder: &mut E) -> (r: Result<(), E::Error>) {
        encoder.format_unsigned(*self as u128)
    }
}

impl Content for u32 {
    fn render_section<E: Encoder>(&self, section: Section, encoder: &mut E) -> (r: Result<
        (),
        E::Error,
    >) {
        render_section_by_truthiness(self, section, encoder)
    }

    fn render_inverse<E: Encoder>(&self, section: Section, encoder: &mut E) -> (r: Result<
        (),
        E::Error,
    >) {
        render_inverse_by_truthiness(self, section, encoder)
    }

    fn render_field_escaped<E: Encoder>(&self, hash: u64, name: &str, encoder: &mut E) -> (r:
        Result<bool, E::Error>) {
        render_field_absent(encoder)
    }

    fn render_field_unescaped<E: Encoder>(&self, hash: u64, name: &str, encoder: &mut E) -> (r:
        Result<bool, E::Error>) {
        render_field_absent(encoder)
    }

    fn render_field_section<E: Encoder>(
        &self,
        hash: u64,
        name: &str,
        section: Section,
        encoder: &mut E,
    ) -> (r: Result<bool, E::Error>) {
        render_field_absent(encoder)
    }

    fn render_field_inverse<E: Encoder>(
        &self,
        hash: u64,
        name: &str,
        section: Section,
        encoder: &mut E,
    ) -> (r: Result<bool, E::Error>) {
        render_field_absent(encoder)
    }
}

impl Variable for u64 {
    open spec fn truthy(&self) -> bool {
        *self != 0
    }

    open spec fn hint(&self, tpl: &Template) -> usize {
        5
    }

    open spec fn esc_model(&self) -> Seq<u8> {
        dec_bytes(*self as nat)
    }

    fn is_truthy(&self) -> (r: bool) {
        *self != 0
    }

    fn capacity_hint(&self, tpl: &Template) -> (r: usize) {
        5
    }

    fn render_escaped<E: Encoder>(&self, encoder: &mut E) -> (r: Result<(), E::Error>) {
        encoder.format_unsigned(*self as u128)
    }

    fn render_unescaped<E: Encoder>(&self, encoder: &mut E) -> (r: Result<(), E::Error>) {
        encoder.format_unsigned(*self as u128)
    }

    fn render_cmark<E: Encoder>(&self, encoder: &mut E) -> (r: Result<(), E::Error>) {
        encoder.format_unsigned(*self as u128)
    }
}

impl Content for u64 {
    fn render_section<E: Encoder>(&self, section: Section, encoder: &mut E) -> (r: Result<
        (),
        E::Error,
    >) {
        render_section_by_truthiness(self, section, encoder)
    }

    fn render_inverse<E: Encoder>(&self, section: Section, encoder: &mut E) -> (r: Result<
        (),
        E::Error,
    >) {
        render_inverse_by_truthiness(self, section, encoder)
    }

    fn render_field_escaped<E: Encoder>(&self, hash: u64, name: &str, encoder: &mut E) -> (r:
        Result<bool, E::Error>) {
        render_field_absent(encoder)
    }

    fn render_field_unescaped<E: Encoder>(&self, hash: u64, name: &str, encoder: &mut E) -> (r:
        Result<bool, E::Error>) {
        render_field_absent(encoder)
    }

    fn render_field_section<E: Encoder>(
        &self,
        hash: u64,
        name: &str,
        section: Section,
        encoder: &mut E,
    ) -> (r: Result<bool, E::Error>) {
        render_field_absent(encoder)
    }

    fn render_field_inverse<E: Encoder>(
        &self,
        hash: u64,
        name: &str,
        section: Section,
        encoder: &mut E,
    ) -> (r: Result<bool, E::Error>) {
        render_field_absent(encoder)
    }
}

impl Variable for u128 {
    open spec fn truthy(&self) -> bool {
        *self != 0
    }

    open spec fn hint(&self, tpl: &Template) -> usize {
        5
    }

    open spec fn esc_model(&self) -> Seq<u8> {
        dec_bytes(*self as nat)
    }

    fn is_truthy(&self) -> (r: bool) {
        *self != 0
    }

    fn capacity_hint(&self, tpl: &Template) -> (r: usize) {
        5
    }

    fn render_escaped<E: Encoder>(&self, encoder: &mut E) -> (r: Result<(), E::Error>) {
        encoder.format_unsigned(*self as u128)
    }

    fn render_unescaped<E: Encoder>(&self, encoder: &mut E) -> (r: Result<(), E::Error>) {
        encoder.format_unsigned(*self as u128)
    }

    fn render_cmark<E: Encoder>(&self, encoder: &mut E) -> (r: Result<(), E::Error>) {
        encoder.format_unsigned(*self as u128)
    }
}

impl Content for u128 {
    fn render_section<E: Encoder>(&self, section: Section, encoder: &mut E) -> (r: Result<
        (),
        E::Error,
    >) {
        render_section_by_truthiness(self, section, encoder)
    }

    fn render_inverse<E: Encoder>(&self, section: Section, encoder: &mut E) -> (r: Result<
        (),
        E::Error,
    >) {
        render_inverse_by_truthiness(self, section, encoder)
    }

    fn render_field_escaped<E: Encoder>(&self, hash: u64, name: &str, encoder: &mut E) -> (r:
        Result<bool, E::Error>) {
        render_field_absent(encoder)
    }

    fn render_field_unescaped<E: Encoder>(&self, hash: u64, name: &str, encoder: &mut E) -> (r:
        Result<bool, E::Error>) {
        render_field_absent(encoder)
    }

    fn render_field_section<E: Encoder>(
        &self,
        hash: u64,
        name: &str,
        section: Section,
        encoder: &mut E,
    ) -> (r: Result<bool, E::Error>) {
        render_field_absent(encoder)
    }

    fn render_field_inverse<E: Encoder>(
        &self,
        hash: u64,
        name: &str,
        section: Section,
        encoder: &mut E,
    ) -> (r: Result<bool, E::Error>) {
        render_field_absent(encoder)
    }
}

impl Variable for usize {
    open spec fn truthy(&self) -> bool {
        *self != 0
    }

    open spec fn hint(&self, tpl: &Template) -> usize {
        5
    }

    open spec fn esc_model(&self) -> Seq<u8> {
        dec_bytes(*self as nat)
    }

    fn is_truthy(&self) -> (r: bool) {
        *self != 0
    }

    fn capacity_hint(&self, tpl: &Template) -> (r: usize) {
        5
    }

    fn render_escaped<E: Encoder>(&self, encoder: &mut E) -> (r: Result<(), E::Error>) {
        encoder.format_unsigned(*self as u128)
    }

    fn render_unescaped<E: Encoder>(&self, encoder: &mut E) -> (r: Result<(), E::Error>) {
        encoder.format_unsigned(*self as u128)
    }

    fn render_cmark<E: Encoder>(&self, encoder: &mut E) -> (r: Result<(), E::Error>) {
        encoder.format_unsigned(*self as u128)
    }
}

impl Content for usize {
    fn render_section<E: Encoder>(&self, section: Section, encoder: &mut E) -> (r: Result<
        (),
        E::Error,
    >) {
        render_section_by_truthiness(self, section, encoder)
    }

    fn render_inverse<E: Encoder>(&self, section: Section, encoder: &mut E) -> (r: Result<
        (),
        E::Error,
    >) {
        render_inverse_by_truthiness(self, section, encoder)
    }

    fn render_field_escaped<E: Encoder>(&self, hash: u64, name: &str, encoder: &mut E) -> (r:
        Result<bool, E::Error>) {
        render_field_absent(encoder)
    }

    fn render_field_unescaped<E: Encoder>(&self, hash: u64, name: &str, encoder: &mut E) -> (r:
        Result<bool, E::Error>) {
        render_field_absent(encoder)
    }

    fn render_field_section<E: Encoder>(
        &self,
        hash: u64,
        name: &str,
        section: Section,
        encoder: &mut E,
    ) -> (r: Result<bool, E::Error>) {
        render_field_absent(encoder)
    }

    fn render_field_inverse<E: Encoder>(
        &self,
        hash: u64,
        name: &str,
        section: Section,
        encoder: &mut E,
    ) -> (r: Result<bool, E::Error>) {
        render_field_absent(encoder)
    }
}

impl Variable for i8 {
    open spec fn truthy(&self) -> bool {
        *self != 0
    }

    open spec fn hint(&self, tpl: &Template) -> usize {
        5
    }

    open spec fn esc_model(&self) -> Seq<u8> {
        dec_bytes_signed(*self as int)
    }

    fn is_truthy(&self) -> (r: bool) {
        *self != 0
    }

    fn capacity_hint(&self, tpl: &Template) -> (r: usize) {
        5
    }

    fn render_escaped<E: Encoder>(&self, encoder: &mut E) -> (r: Result<(), E::Error>) {
        encoder.format_signed(*self as i128)
    }

    fn render_unescaped<E: Encoder>(&self, encoder: &mut E) -> (r: Result<(), E::Error>) {
        encoder.format_signed(*self as i128)
    }

    fn render_cmark<E: Encoder>(&self, encoder: &mut E) -> (r: Result<(), E::Error>) {
        encoder.format_signed(*self as i128)
    }
}

impl Content for i8 {
    fn render_section<E: Encoder>(&self, section: Section, encoder: &mut E) -> (r: Result<
        (),
        E::Error,
    >) {
        render_section_by_truthiness(self, section, encoder)
    }

    fn render_inverse<E: Encoder>(&self, section: Section, encoder: &mut E) -> (r: Result<
        (),
        E::Error,
    >) {
        render_inverse_by_truthiness(self, section, encoder)
    }

    fn render_field_escaped<E: Encoder>(&self, hash: u64, name: &str, encoder: &mut E) -> (r:
        Result<bool, E::Error>) {
        render_field_absent(encoder)
    }

    fn render_field_unescaped<E: Encoder>(&self, hash: u64, name: &str, encoder: &mut E) -> (r:
        Result<bool, E::Error>) {
        render_field_absent(encoder)
    }

    fn render_field_section<E: Encoder>(
        &self,
        hash: u64,
        name: &str,
        section: Section,
        encoder: &mut E,
    ) -> (r: Result<bool, E::Error>) {
        render_field_absent(encoder)
    }

    fn render_field_inverse<E: Encoder>(
        &self,
        hash: u64,
        name: &str,
        section: Section,
        encoder: &mut E,
    ) -> (r: Result<bool, E::Error>) {
        render_field_absent(encoder)
    }
}

impl Variable for i16 {
    open spec fn truthy(&self) -> bool {
        *self != 0
    }

    open spec fn hint(&self, tpl: &Template) -> usize {
        5
    }

    open spec fn esc_model(&self) -> Seq<u8> {
        dec_bytes_signed(*self as int)
    }

    fn is_truthy(&self) -> (r: bool) {
        *self != 0
    }

    fn capacity_hint(&self, tpl: &Template) -> (r: usize) {
        5
    }

    fn render_escaped<E: Encoder>(&self, encoder: &mut E) -> (r: Result<(), E::Error>) {
        encoder.format_signed(*self as i128)
    }

    fn render_unescaped<E: Encoder>(&self, encoder: &mut E) -> (r: Result<(), E::Error>) {
        encoder.format_signed(*self as i128)
    }

    fn render_cmark<E: Encoder>(&self, encoder: &mut E) -> (r: Result<(), E::Error>) {
        encoder.format_signed(*self as i128)
    }
}

impl Content for i16 {
    fn render_section<E: Encoder>(&self, section: Section, encoder: &mut E) -> (r: Result<
        (),
        E::Error,
    >) {
        render_section_by_truthiness(self, section, encoder)
    }

    fn render_inverse<E: Encoder>(&self, section: Section, encoder: &mut E) -> (r: Result<
        (),
        E::Error,
    >) {
        render_inverse_by_truthiness(self, section, encoder)
    }

    fn render_field_escaped<E: Encoder>(&self, hash: u64, name: &str, encoder: &mut E) -> (r:
        Result<bool, E::Error>) {
        render_field_absent(encoder)
    }

    fn render_field_unescaped<E: Encoder>(&self, hash: u64, name: &str, encoder: &mut E) -> (r:
        Result<bool, E::Error>) {
        render_field_absent(encoder)
    }

    fn render_field_section<E: Encoder>(
        &self,
        hash: u64,
        name: &str,
        section: Section,
        encoder: &mut E,
    ) -> (r: Result<bool, E::Error>) {
        render_field_absent(encoder)
    }

    fn render_field_inverse<E: Encoder>(
        &self,
        hash: u64,
        name: &str,
        section: Section,
        encoder: &mut E,
    ) -> (r: Result<bool, E::Error>) {
        render_field_absent(encoder)
    }
}

impl Variable for i32 {
    open spec fn truthy(&self) -> bool {
        *self != 0
    }

    open spec fn hint(&self, tpl: &Template) -> usize {
        5
    }

    open spec fn esc_model(&self) -> Seq<u8> {
        dec_bytes_signed(*self as int)
    }

    fn is_truthy(&self) -> (r: bool) {
        *self != 0
    }

    fn capacity_hint(&self, tpl: &Template) -> (r: usize) {
        5
    }

    fn render_escaped<E: Encoder>(&self, encoder: &mut E) -> (r: Result<(), E::Error>) {
        encoder.format_signed(*self as i128)
    }

    fn render_unescaped<E: Encoder>(&self, encoder: &mut E) -> (r: Result<(), E::Error>) {
        encoder.format_signed(*self as i128)
    }

    fn render_cmark<E: Encoder>(&self, encoder: &mut E) -> (r: Result<(), E::Error>) {
        encoder.format_signed(*self as i128)
    }
}

impl Content for i32 {
    fn render_section<E: Encoder>(&self, section: Section, encoder: &mut E) -> (r: Result<
        (),
        E::Error,
    >) {
        render_section_by_truthiness(self, section, encoder)
    }

    fn render_inverse<E: Encoder>(&self, section: Section, encoder: &mut E) -> (r: Result<
        (),
        E::Error,
    >) {
        render_inverse_by_truthiness(self, section, encoder)
    }

    fn render_field_escaped<E: Encoder>(&self, hash: u64, name: &str, encoder: &mut E) -> (r:
        Result<bool, E::Error>) {
        render_field_absent(encoder)
    }

    fn render_field_unescaped<E: Encoder>(&self, hash: u64, name: &str, encoder: &mut E) -> (r:
        Result<bool, E::Error>) {
        render_field_absent(encoder)
    }

    fn render_field_section<E: Encoder>(
        &self,
        hash: u64,
        name: &str,
        section: Section,
        encoder: &mut E,
    ) -> (r: Result<bool, E::Error>) {
        render_field_absent(encoder)
    }

    fn render_field_inverse<E: Encoder>(
        &self,
        hash: u64,
        name: &str,
        section: Section,
        encoder: &mut E,
    ) -> (r: Result<bool, E::Error>) {
        render_field_absent(encoder)
    }
}

impl Variable for i64 {
    open spec fn truthy(&self) -> bool {
        *self != 0
    }

    open spec fn hint(&self, tpl: &Template) -> usize {
        5
    }

    open spec fn esc_model(&self) -> Seq<u8> {
        dec_bytes_signed(*self as int)
    }

    fn is_truthy(&self) -> (r: bool) {
        *self != 0
    }

    fn capacity_hint(&self, tpl: &Template) -> (r: usize) {
        5
    }

    fn render_escaped<E: Encoder>(&self, encoder: &mut E) -> (r: Result<(), E::Error>) {
        encoder.format_signed(*self as i128)
    }

    fn render_unescaped<E: Encoder>(&self, encoder: &mut E) -> (r: Result<(), E::Error>) {
        encoder.format_signed(*self as i128)
    }

    fn render_cmark<E: Encoder>(&self, encoder: &mut E) -> (r: Result<(), E::Error>) {
        encoder.format_signed(*self as i128)
    }
}

impl Content for i64 {
    fn render_section<E: Encoder>(&self, section: Section, encoder: &mut E) -> (r: Result<
        (),
        E::Error,
    >) {
        render_section_by_truthiness(self, section, encoder)
    }

    fn render_inverse<E: Encoder>(&self, section: Section, encoder: &mut E) -> (r: Result<
        (),
        E::Error,
    >) {
        render_inverse_by_truthiness(self, section, encoder)
    }

    fn render_field_escaped<E: Encoder>(&self, hash: u64, name: &str, encoder: &mut E) -> (r:
        Result<bool, E::Error>) {
        render_field_absent(encoder)
    }

    fn render_field_unescaped<E: Encoder>(&self, hash: u64, name: &str, encoder: &mut E) -> (r:
        Result<bool, E::Error>) {
        render_field_absent(encoder)
    }

    fn render_field_section<E: Encoder>(
        &self,
        hash: u64,
        name: &str,
        section: Section,
        encoder: &mut E,
    ) -> (r: Result<bool, E::Error>) {
        render_field_absent(encoder)
    }

    fn render_field_inverse<E: Encoder>(
        &self,
        hash: u64,
        name: &str,
        section: Section,
        encoder: &mut E,
    ) -> (r: Result<bool, E::Error>) {
        render_field_absent(encoder)
    }
}

impl Variable for i128 {
    open spec fn truthy(&self) -> bool {
        *self != 0
    }

    open spec fn hint(&self, tpl: &Template) -> usize {
        5
    }

    open spec fn esc_model(&self) -> Seq<u8> {
        dec_bytes_signed(*self as int)
    }

    fn is_truthy(&self) -> (r: bool) {
        *self != 0
    }

    fn capacity_hint(&self, tpl: &Template) -> (r: usize) {
        5
    }

    fn render_escaped<E: Encoder>(&self, encoder: &mut E) -> (r: Result<(), E::Error>) {
        encoder.format_signed(*self as i128)
    }

    fn render_unescaped<E: Encoder>(&self, encoder: &mut E) -> (r: Result<(), E::Error>) {
        encoder.format_signed(*self as i128)
    }

    fn render_cmark<E: Encoder>(&self, encoder: &mut E) -> (r: Result<(), E::Error>) {
        encoder.format_signed(*self as i128)
    }
}

impl Content for i128 {
    fn render_section<E: Encoder>(&self, section: Section, encoder: &mut E) -> (r: Result<
        (),
        E::Error,
    >) {
        render_section_by_truthiness(self, section, encoder)
    }

    fn render_inverse<E: Encoder>(&self, section: Section, encoder: &mut E) -> (r: Result<
        (),
        E::Error,
    >) {
        render_inverse_by_truthiness(self, section, encoder)
    }

    fn render_field_escaped<E: Encoder>(&self, hash: u64, name: &str, encoder: &mut E) -> (r:
        Result<bool, E::Error>) {
        render_field_absent(encoder)
    }

    fn render_field_unescaped<E: Encoder>(&self, hash: u64, name: &str, encoder: &mut E) -> (r:
        Result<bool, E::Error>) {
        render_field_absent(encoder)
    }

    fn render_field_section<E: Encoder>(
        &self,
        hash: u64,
        name: &str,
        section: Section,
        encoder: &mut E,
    ) -> (r: Result<bool, E::Error>) {
        render_field_absent(encoder)
    }

    fn render_field_inverse<E: Encoder>(
        &self,
        hash: u64,
        name: &str,
        section: Section,
        encoder: &mut E,
    ) -> (r: Result<bool, E::Error>) {
        render_field_absent(encoder)
    }
}

impl Variable for isize {
    open spec fn truthy(&self) -> bool {
        *self != 0
    }

    open spec fn hint(&self, tpl: &Template) -> usize {
        5
    }

    open spec fn esc_model(&self) -> Seq<u8> {
        dec_bytes_signed(*self as int)
    }

    fn is_truthy(&self) -> (r: bool) {
        *self != 0
    }

    fn capacity_hint(&self, tpl: &Template) -> (r: usize) {
        5
    }

    fn render_escaped<E: Encoder>(&self, encoder: &mut E) -> (r: Result<(), E::Error>) {
        encoder.format_signed(*self as i128)
    }

    fn render_unescaped<E: Encoder>(&self, encoder: &mut E) -> (r: Result<(), E::Error>) {
        encoder.format_signed(*self as i128)
    }

    fn render_cmark<E: Encoder>(&self, encoder: &mut E) -> (r: Result<(), E::Error>) {
        encoder.format_signed(*self as i128)
    }
}

impl Content for isize {
    fn render_section<E: Encoder>(&self, section: Section, encoder: &mut E) -> (r: Result<
        (),
        E::Error,
    >) {
        render_section_by_truthiness(self, section, encoder)
    }

    fn render_inverse<E: Encoder>(&self, section: Section, encoder: &mut E) -> (r: Result<
        (),
        E::Error,
    >) {
        render_inverse_by_truthiness(self, section, encoder)
    }

    fn render_field_escaped<E: Encoder>(&self, hash: u64, name: &str, encoder: &mut E) -> (r:
        Result<bool, E::Error>) {
        render_field_absent(encoder)
    }

    fn render_field_unescaped<E: Encoder>(&self, hash: u64, name: &str, encoder: &mut E) -> (r:
        Result<bool, E::Error>) {
        render_field_absent(encoder)
    }

    fn render_field_section<E: Encoder>(
        &self,
        hash: u64,
        name: &str,
        section: Section,
        encoder: &mut E,
    ) -> (r: Result<bool, E::Error>) {
        render_field_absent(encoder)
    }

    fn render_field_inverse<E: Encoder>(
        &self,
        hash: u64,
        name: &str,
        section: Section,
        encoder: &mut E,
    ) -> (r: Result<bool, E::Error>) {
        render_field_absent(encoder)
    }
}

} // verus!
