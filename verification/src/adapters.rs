//! The optional and fallible adapters: content that wraps a possibly
//! absent or possibly failed inner value and delegates to it
//! conditionally. Absence and failure render nothing and are never an
//! error; the failure detail of a fallible value is not surfaced.

use vstd::prelude::*;

use crate::content::Content;
use crate::content::Variable;
use crate::content::render_field_absent;
use crate::content::render_inverse_by_truthiness;
use crate::content::render_nothing;
use crate::encoding::Encoder;
use crate::template::Block;
use crate::template::Section;
use crate::template::Template;
use crate::template::section_once_model;

verus! {

impl<T: Content> Variable for Option<T> {
    open spec fn truthy(&self) -> bool {
        self is Some
    }

    open spec fn hint(&self, tpl: &Template) -> usize {
        match self {
            Some(inner) => inner.hint(tpl),
            None => 0,
        }
    }

    open spec fn esc_model(&self) -> Seq<u8> {
        match self {
            Some(inner) => inner.esc_model(),
            None => Seq::empty(),
        }
    }

    open spec fn unesc_model(&self) -> Seq<u8> {
        match self {
            Some(inner) => inner.unesc_model(),
            None => Seq::empty(),
        }
    }

    fn is_truthy(&self) -> (r: bool) {
        self.is_some()
    }

    fn capacity_hint(&self, tpl: &Template) -> (r: usize) {
        match self {
            Some(inner) => inner.capacity_hint(tpl),
            None => 0,
        }
    }

    fn render_escaped<E: Encoder>(&self, encoder: &mut E) -> (r: Result<(), E::Error>)
        ensures
            self is None ==> r is Ok,
    {
        match self {
            Some(inner) => inner.render_escaped(encoder),
            None => render_nothing(encoder),
        }
    }

    fn render_unescaped<E: Encoder>(&self, encoder: &mut E) -> (r: Result<(), E::Error>)
        ensures
            self is None ==> r is Ok,
    {
        match self {
            Some(inner) => inner.render_unescaped(encoder),
            None => render_nothing(encoder),
        }
    }

    fn render_cmark<E: Encoder>(&self, encoder: &mut E) -> (r: Result<(), E::Error>)
        ensures
            self is None ==> r is Ok,
    {
        match self {
            Some(inner) => inner.render_escaped(encoder),
            None => render_nothing(encoder),
        }
    }
}

impl<T: Content> Content for Option<T> {
    open spec fn sect_model(&self, blocks: Seq<Block>) -> Seq<u8> {
        match self {
            Some(inner) => section_once_model(inner, blocks),
            None => Seq::empty(),
        }
    }

    fn render_section<E: Encoder>(&self, section: Section, encoder: &mut E) -> (r: Result<
        (),
        E::Error,
    >) {
        match self {
            Some(inner) => section.render_once(inner, encoder),
            None => render_nothing(encoder),
        }
    }

    fn render_inverse<E: Encoder>(&self, section: Section, encoder: &mut E) -> (r: Result<
        (),
        E::Error,
    >) {
        render_inverse_by_truthiness(self, section, encoder)
    }

    fn render_field_escaped<E: Encoder>(&self, hash: u64, name: &str, encoder: &mut E) -> (r:
        Result<bool, E::Error>) {
        render_field_absent(encoder)
    }

    fn render_field_unescaped<E: Encoder>(&self, hash: u64, name: &str, encoder: &mut E) -> (r:
        Result<bool, E::Error>) {
        render_field_absent(encoder)
    }

    fn render_field_section<E: Encoder>(
        &self,
        hash: u64,
        name: &str,
        section: Section,
        encoder: &mut E,
    ) -> (r: Result<bool, E::Error>) {
        render_field_absent(encoder)
    }

    fn render_field_inverse<E: Encoder>(
        &self,
        hash: u64,
        name: &str,
        section: Section,
        encoder: &mut E,
    ) -> (r: Result<bool, E::Error>) {
        render_field_absent(encoder)
    }
}

impl<T: Content, U> Variable for Result<T, U> {
    open spec fn truthy(&self) -> bool {
        self is Ok
    }

    open spec fn hint(&self, tpl: &Template) -> usize {
        match self {
            Ok(inner) => inner.hint(tpl),
            Err(_) => 0,
        }
    }

    open spec fn esc_model(&self) -> Seq<u8> {
        match self {
            Ok(inner) => inner.esc_model(),
            Err(_) => Seq::empty(),
        }
    }

    open spec fn unesc_model(&self) -> Seq<u8> {
        match self {
            Ok(inner) => inner.unesc_model(),
            Err(_) => Seq::empty(),
        }
    }

    fn is_truthy(&self) -> (r: bool) {
        self.is_ok()
    }

    fn capacity_hint(&self, tpl: &Template) -> (r: usize) {
        match self {
            Ok(inner) => inner.capacity_hint(tpl),
            Err(_) => 0,
        }
    }

    fn render_escaped<E: Encoder>(&self, encoder: &mut E) -> (r: Result<(), E::Error>)
        ensures
            self is Err ==> r is Ok,
    {
        match self {
            Ok(inner) => inner.render_escaped(encoder),
            Err(_) => render_nothing(encoder),
        }
    }

    fn render_unescaped<E: Encoder>(&self, encoder: &mut E) -> (r: Result<(), E::Error>)
        ensures
            self is Err ==> r is Ok,
    {
        match self {
            Ok(inner) => inner.render_unescaped(encoder),
            Err(_) => render_nothing(encoder),
        }
    }

    fn render_cmark<E: Encoder>(&self, encoder: &mut E) -> (r: Result<(), E::Error>)
        ensures
            self is Err ==> r is Ok,
    {
        match self {
            Ok(inner) => inner.render_escaped(encoder),
            Err(_) => render_nothing(encoder),
        }
    }
}

impl<T: Content, U> Content for Result<T, U> {
    open spec fn sect_model(&self, blocks: Seq<Block>) -> Seq<u8> {
        match self {
            Ok(inner) => section_once_model(inner, blocks),
            Err(_) => Seq::empty(),
        }
    }

    fn render_section<E: Encoder>(&self, section: Section, encoder: &mut E) -> (r: Result<
        (),
        E::Error,
    >) {
        match self {
            Ok(inner) => section.render_once(inner, encoder),
            Err(_) => render_nothing(encoder),
        }
    }

    fn render_inverse<E: Encoder>(&self, section: Section, encoder: &mut E) -> (r: Result<
        (),
        E::Error,
    >) {
        render_inverse_by_truthiness(self, section, encoder)
    }

    fn render_field_escaped<E: Encoder>(&self, hash: u64, name: &str, encoder: &mut E) -> (r:
        Result<bool, E::Error>) {
        render_field_absent(encoder)
    }

    fn render_field_unescaped<E: Encoder>(&self, hash: u64, name: &str, encoder: &mut E) -> (r:
        Result<bool, E::Error>) {
        render_field_absent(encoder)
    }

    fn render_field_section<E: Encoder>(
        &self,
        hash: u64,
        name: &str,
        section: Section,
        encoder: &mut E,
    ) -> (r: Result<bool, E::Error>) {
        render_field_absent(encoder)
    }

    fn render_field_inverse<E: Encoder>(
        &self,
        hash: u64,
        name: &str,
        section: Section,
        encoder: &mut E,
    ) -> (r: Result<bool, E::Error>) {
        render_field_absent(encoder)
    }
}

} // verus!
