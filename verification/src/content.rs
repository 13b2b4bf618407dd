//! The content capability contract: the operations a value implements
//! to be renderable by the template engine, together with the shared
//! behaviors most implementations fall back to.
//!
//! The contract is split in two. [`Variable`] holds the operations a
//! section needs of its scope value — truthiness, capacity estimation
//! and the three scalar renders — so that a section can be rendered
//! against any scope. [`Content`] extends it with the section and
//! field-dispatch operations. Every renderable type implements both.

use vstd::prelude::*;

use crate::encoding::Encoder;
use crate::template::Block;
use crate::template::Section;
use crate::template::Template;
use crate::template::section_once_model;
use vstd::string::StringSliceAdditionalSpecFns;

verus! {

/// The part of the content contract a section consults about its scope
/// value: truthiness, capacity estimation, and rendering the value as
/// a variable. Each executable operation is pinned to a
/// specification-level model, so a renderer generic over this trait
/// knows exactly what bytes a successful render appends to the sink.
///
/// The models default to the behavior of an unrecognized type: truthy,
/// no capacity information, nothing rendered as a variable.
pub trait Variable: Sized {
    /// Whether this value renders a conditional section (and
    /// suppresses an inverted one).
    open spec fn truthy(&self) -> bool {
        true
    }

    /// The advisory output-size estimate `capacity_hint` answers.
    open spec fn hint(&self, tpl: &Template) -> usize {
        0
    }

    /// The bytes an escaped render of this value appends.
    open spec fn esc_model(&self) -> Seq<u8> {
        Seq::empty()
    }

    /// The bytes an unescaped render of this value appends.
    open spec fn unesc_model(&self) -> Seq<u8> {
        self.esc_model()
    }

    /// The text this value hands to the sink's markup transform when
    /// rendered as markup. Text values render through the transform;
    /// every other value falls back to its escaped render.
    open spec fn markup_text(&self) -> Option<Seq<u8>> {
        None
    }

    /// Marks whether this content is truthy, deciding whether a
    /// conditional or inverted block renders.
    fn is_truthy(&self) -> (r: bool)
        ensures
            r == self.truthy(),
    ;

    /// How much output this value is likely to produce for `tpl`: an
    /// estimate for buffer pre-sizing, never a promise.
    fn capacity_hint(&self, tpl: &Template) -> (r: usize)
        ensures
            r == self.hint(tpl),
    ;

    /// Renders this value as a variable, escaping markup-significant
    /// characters.
    fn render_escaped<E: Encoder>(&self, encoder: &mut E) -> (r: Result<(), E::Error>)
        ensures
            E::infallible() ==> r is Ok,
            r is Ok ==> final(encoder).out() == old(encoder).out() + self.esc_model(),
    ;

    /// Renders this value as a variable without any escaping.
    fn render_unescaped<E: Encoder>(&self, encoder: &mut E) -> (r: Result<(), E::Error>)
        ensures
            E::infallible() ==> r is Ok,
            r is Ok ==> final(encoder).out() == old(encoder).out() + self.unesc_model(),
    ;

    /// Renders this value as a variable with markup processing: the
    /// sink's markup transform for text, the escaped render otherwise.
    fn render_cmark<E: Encoder>(&self, encoder: &mut E) -> (r: Result<(), E::Error>)
        ensures
            E::infallible() ==> r is Ok,
            r is Ok ==> final(encoder).out() == old(encoder).out() + (match self.markup_text() {
                Some(b) => E::markup(b),
                None => self.esc_model(),
            }),
    ;
}

/// The default section model: the blocks rendered once with `c` as the
/// scope when `c` is truthy, and nothing otherwise.
pub open spec fn sect_model_by_truthiness<C: Variable>(c: &C, blocks: Seq<Block>) -> Seq<u8> {
    if c.truthy() {
        section_once_model(c, blocks)
    } else {
        Seq::empty()
    }
}

/// The default inverted-section model: the blocks rendered once with
/// `c` as the scope when `c` is not truthy, and nothing otherwise.
pub open spec fn inv_model_by_truthiness<C: Variable>(c: &C, blocks: Seq<Block>) -> Seq<u8> {
    if !c.truthy() {
        section_once_model(c, blocks)
    } else {
        Seq::empty()
    }
}

/// The full content capability contract: everything a [`Variable`]
/// offers, together with section rendering and name-keyed field
/// dispatch.
///
/// The models default to the behavior of an unrecognized type: section
/// and inverse rendered once by truthiness, and no fields. A render
/// operation only ever fails with the sink's own failure, which it
/// hands back unchanged.
pub trait Content: Variable {
    /// The bytes a section render against this value appends.
    open spec fn sect_model(&self, blocks: Seq<Block>) -> Seq<u8> {
        sect_model_by_truthiness(self, blocks)
    }

    /// The bytes an inverted-section render against this value
    /// appends.
    open spec fn inv_model(&self, blocks: Seq<Block>) -> Seq<u8> {
        inv_model_by_truthiness(self, blocks)
    }

    /// Whether this value has a field of the given name (as UTF-8
    /// bytes).
    open spec fn has_field(&self, name: Seq<u8>) -> bool {
        false
    }

    /// The bytes an escaped render of the named field appends.
    open spec fn field_esc_model(&self, name: Seq<u8>) -> Seq<u8> {
        Seq::empty()
    }

    /// The bytes an unescaped render of the named field appends.
    open spec fn field_unesc_model(&self, name: Seq<u8>) -> Seq<u8> {
        Seq::empty()
    }

    /// The bytes a section render of the named field appends.
    open spec fn field_sect_model(&self, name: Seq<u8>, blocks: Seq<Block>) -> Seq<u8> {
        Seq::empty()
    }

    /// The bytes an inverted-section render of the named field appends.
    open spec fn field_inv_model(&self, name: Seq<u8>, blocks: Seq<Block>) -> Seq<u8> {
        Seq::empty()
    }

    /// Renders a section with this value as the new scope. A value
    /// that is not truthy renders nothing, which is never an error.
    fn render_section<E: Encoder>(&self, section: Section, encoder: &mut E) -> (r: Result<
        (),
        E::Error,
    >)
        ensures
            !self.truthy() ==> r is Ok,
            E::infallible() ==> r is Ok,
            r is Ok ==> final(encoder).out() == old(encoder).out() + self.sect_model(section@),
    ;

    /// Renders an inverted section with this value as the new scope. A
    /// truthy value renders nothing, which is never an error.
    fn render_inverse<E: Encoder>(&self, section: Section, encoder: &mut E) -> (r: Result<
        (),
        E::Error,
    >)
        ensures
            self.truthy() ==> r is Ok,
            E::infallible() ==> r is Ok,
            r is Ok ==> final(encoder).out() == old(encoder).out() + self.inv_model(section@),
    ;

    /// Renders a field by the hash or name of its field key, escaped.
    /// On success the boolean says whether the field exists; absence is
    /// not an error.
    fn render_field_escaped<E: Encoder>(&self, hash: u64, name: &str, encoder: &mut E) -> (r:
        Result<bool, E::Error>)
        ensures
            !self.has_field(name.spec_bytes()) ==> r is Ok,
            E::infallible() ==> r is Ok,
            r is Ok ==> r->Ok_0 == self.has_field(name.spec_bytes()),
            r is Ok ==> final(encoder).out() == old(encoder).out() + self.field_esc_model(
                name.spec_bytes(),
            ),
    ;

    /// Renders a field by the hash or name of its field key, without
    /// escaping. On success the boolean says whether the field exists.
    fn render_field_unescaped<E: Encoder>(&self, hash: u64, name: &str, encoder: &mut E) -> (r:
        Result<bool, E::Error>)
        ensures
            !self.has_field(name.spec_bytes()) ==> r is Ok,
            E::infallible() ==> r is Ok,
            r is Ok ==> r->Ok_0 == self.has_field(name.spec_bytes()),
            r is Ok ==> final(encoder).out() == old(encoder).out() + self.field_unesc_model(
                name.spec_bytes(),
            ),
    ;

    /// Renders a field by the hash or name of its field key, as a
    /// section. On success the boolean says whether the field exists.
    fn render_field_section<E: Encoder>(
        &self,
        hash: u64,
        name: &str,
        section: Section,
        encoder: &mut E,
    ) -> (r: Result<bool, E::Error>)
        ensures
            !self.has_field(name.spec_bytes()) ==> r is Ok,
            E::infallible() ==> r is Ok,
            r is Ok ==> r->Ok_0 == self.has_field(name.spec_bytes()),
            r is Ok ==> final(encoder).out() == old(encoder).out() + self.field_sect_model(
                name.spec_bytes(),
                section@,
            ),
    ;

    /// Renders a field by the hash or name of its field key, as an
    /// inverted section. On success the boolean says whether the field
    /// exists.
    fn render_field_inverse<E: Encoder>(
        &self,
        hash: u64,
        name: &str,
        section: Section,
        encoder: &mut E,
    ) -> (r: Result<bool, E::Error>)
        ensures
            !self.has_field(name.spec_bytes()) ==> r is Ok,
            E::infallible() ==> r is Ok,
            r is Ok ==> r->Ok_0 == self.has_field(name.spec_bytes()),
            r is Ok ==> final(encoder).out() == old(encoder).out() + self.field_inv_model(
                name.spec_bytes(),
                section@,
            ),
    ;
}

/// Renders nothing and succeeds: the scalar render of a value with no
/// scalar form.
pub fn render_nothing<E: Encoder>(encoder: &mut E) -> (r: Result<(), E::Error>)
    ensures
        r is Ok,
        final(encoder).out() == old(encoder).out() + Seq::<u8>::empty(),
{
    proof {
        assert(old(encoder).out() + Seq::<u8>::empty() =~= old(encoder).out());
    }
    Ok(())
}

/// Reports that no field of the given name exists, rendering nothing:
/// the field dispatch of non-associative content.
pub fn render_field_absent<E: Encoder>(encoder: &mut E) -> (r: Result<bool, E::Error>)
    ensures
        r is Ok,
        r->Ok_0 == false,
        final(encoder).out() == old(encoder).out() + Seq::<u8>::empty(),
{
    proof {
        assert(old(encoder).out() + Seq::<u8>::empty() =~= old(encoder).out());
    }
    Ok(false)
}

/// Renders `section` once with `c` as the new scope when `c` is
/// truthy, and nothing otherwise: the section behavior of every
/// non-container value.
pub fn render_section_by_truthiness<C: Variable, E: Encoder>(
    c: &C,
    section: Section,
    encoder: &mut E,
) -> (r: Result<(), E::Error>)
    ensures
        !c.truthy() ==> r is Ok,
        E::infallible() ==> r is Ok,
        r is Ok ==> final(encoder).out() == old(encoder).out() + sect_model_by_truthiness(
            c,
            section@,
        ),
{
    if c.is_truthy() {
        section.render_once(c, encoder)
    } else {
        proof {
            assert(old(encoder).out() + Seq::<u8>::empty() =~= old(encoder).out());
        }
        Ok(())
    }
}

/// Renders `section` once with `c` as the new scope when `c` is not
/// truthy, and nothing otherwise: the inverted-section behavior of
/// every non-container value.
pub fn render_inverse_by_truthiness<C: Variable, E: Encoder>(
    c: &C,
    section: Section,
    encoder: &mut E,
) -> (r: Result<(), E::Error>)
    ensures
        c.truthy() ==> r is Ok,
        E::infallible() ==> r is Ok,
        r is Ok ==> final(encoder).out() == old(encoder).out() + inv_model_by_truthiness(
            c,
            section@,
        ),
{
    if !c.is_truthy() {
        section.render_once(c, encoder)
    } else {
        proof {
            assert(old(encoder).out() + Seq::<u8>::empty() =~= old(encoder).out());
        }
        Ok(())
    }
}

impl Variable for () {
    fn is_truthy(&self) -> (r: bool) {
        true
    }

    fn capacity_hint(&self, tpl: &Template) -> (r: usize) {
        0
    }

    fn render_escaped<E: Encoder>(&self, encoder: &mut E) -> (r: Result<(), E::Error>)
        ensures
            r is Ok,
    {
        render_nothing(encoder)
    }

    fn render_unescaped<E: Encoder>(&self, encoder: &mut E) -> (r: Result<(), E::Error>)
        ensures
            r is Ok,
    {
        render_nothing(encoder)
    }

    fn render_cmark<E: Encoder>(&self, encoder: &mut E) -> (r: Result<(), E::Error>)
        ensures
            r is Ok,
    {
        render_nothing(encoder)
    }
}

impl Content for () {
    fn render_section<E: Encoder>(&self, section: Section, encoder: &mut E) -> (r: Result<
        (),
        E::Error,
    >) {
        render_section_by_truthiness(self, section, encoder)
    }

    fn render_inverse<E: Encoder>(&self, section: Section, encoder: &mut E) -> (r: Result<
        (),
        E::Error,
    >) {
        render_inverse_by_truthiness(self, section, encoder)
    }

    fn render_field_escaped<E: Encoder>(&self, hash: u64, name: &str, encoder: &mut E) -> (r:
        Result<bool, E::Error>) {
        render_field_absent(encoder)
    }

    fn render_field_unescaped<E: Encoder>(&self, hash: u64, name: &str, encoder: &mut E) -> (r:
        Result<bool, E::Error>) {
        render_field_absent(encoder)
    }

    fn render_field_section<E: Encoder>(
        &self,
        hash: u64,
        name: &str,
        section: Section,
        encoder: &mut E,
    ) -> (r: Result<bool, E::Error>) {
        render_field_absent(encoder)
    }

    fn render_field_inverse<E: Encoder>(
        &self,
        hash: u64,
        name: &str,
        section: Section,
        encoder: &mut E,
    ) -> (r: Result<bool, E::Error>) {
        render_field_absent(encoder)
    }
}

} // verus!
