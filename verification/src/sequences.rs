//! The sequence implementations of the content contract: owned and
//! borrowed ordered collections. A sequence is truthy when non-empty,
//! and a section render against it renders the section once per
//! element, in order, stopping at the first sink failure.

use vstd::prelude::*;

use crate::content::Content;
use crate::content::Variable;
use crate::content::render_field_absent;
use crate::content::render_inverse_by_truthiness;
use crate::content::render_nothing;
use crate::encoding::Encoder;
use crate::template::Block;
use crate::template::Section;
use crate::template::Template;
use crate::template::section_once_model;

verus! {

/// The bytes a section render against an ordered collection appends:
/// the concatenation of one render of the blocks per element, in the
/// collection's order.
pub open spec fn seq_section_model<C: Variable>(items: Seq<C>, blocks: Seq<Block>) -> Seq<u8>
    decreases items.len(),
{
    if items.len() == 0 {
        Seq::empty()
    } else {
        seq_section_model(items.drop_last(), blocks) + section_once_model(&items.last(), blocks)
    }
}

impl<T: Content> Variable for Vec<T> {
    open spec fn truthy(&self) -> bool {
        self@.len() > 0
    }

    fn is_truthy(&self) -> (r: bool) {
        self.len() != 0
    }

    fn capacity_hint(&self, tpl: &Template) -> (r: usize) {
        0
    }

    fn render_escaped<E: Encoder>(&self, encoder: &mut E) -> (r: Result<(), E::Error>)
        ensures
            r is Ok,
    {
        render_nothing(encoder)
    }

    fn render_unescaped<E: Encoder>(&self, encoder: &mut E) -> (r: Result<(), E::Error>)
        ensures
            r is Ok,
    {
        render_nothing(encoder)
    }

    fn render_cmark<E: Encoder>(&self, encoder: &mut E) -> (r: Result<(), E::Error>)
        ensures
            r is Ok,
    {
        render_nothing(encoder)
    }
}

impl<T: Content> Content for Vec<T> {
    open spec fn sect_model(&self, blocks: Seq<Block>) -> Seq<u8> {
        seq_section_model(self@, blocks)
    }

    fn render_section<E: Encoder>(&self, section: Section, encoder: &mut E) -> (r: Result<
        (),
        E::Error,
    >) {
        let n = self.len();
        let mut i: usize = 0;
        while i < n
            invariant
                n == self@.len(),
                i <= n,
                encoder.out() == old(encoder).out() + seq_section_model(
                    self@.take(i as int),
                    section@,
                ),
            decreases n - i,
        {
            let res = section.render_once(&self[i], encoder);
            if let Err(e) = res {
                return Err(e);
            }
            proof {
                assert(self@.take(i + 1).drop_last() =~= self@.take(i as int));
                assert(self@.take(i + 1).last() == self@[i as int]);
                assert(encoder.out() =~= old(encoder).out() + seq_section_model(
                    self@.take(i + 1),
                    section@,
                ));
            }
            i = i + 1;
        }
        proof {
            assert(self@.take(n as int) =~= self@);
        }
        Ok(())
    }

    fn render_inverse<E: Encoder>(&self, section: Section, encoder: &mut E) -> (r: Result<
        (),
        E::Error,
    >) {
        render_inverse_by_truthiness(self, section, encoder)
    }

    fn render_field_escaped<E: Encoder>(&self, hash: u64, name: &str, encoder: &mut E) -> (r:
        Result<bool, E::Error>) {
        render_field_absent(encoder)
    }

    fn render_field_unescaped<E: Encoder>(&self, hash: u64, name: &str, encoder: &mut E) -> (r:
        Result<bool, E::Error>) {
        render_field_absent(encoder)
    }

    fn render_field_section<E: Encoder>(
        &self,
        hash: u64,
        name: &str,
        section: Section,
        encoder: &mut E,
    ) -> (r: Result<bool, E::Error>) {
        render_field_absent(encoder)
    }

    fn render_field_inverse<E: Encoder>(
        &self,
        hash: u64,
        name: &str,
        section: Section,
        encoder: &mut E,
    ) -> (r: Result<bool, E::Error>) {
        render_field_absent(encoder)
    }
}

impl<T: Content> Variable for &[T] {
    open spec fn truthy(&self) -> bool {
        self@.len() > 0
    }

    fn is_truthy(&self) -> (r: bool) {
        self.len() != 0
    }

    fn capacity_hint(&self, tpl: &Template) -> (r: usize) {
        0
    }

    fn render_escaped<E: Encoder>(&self, encoder: &mut E) -> (r: Result<(), E::Error>)
        ensures
            r is Ok,
    {
        render_nothing(encoder)
    }

    fn render_unescaped<E: Encoder>(&self, encoder: &mut E) -> (r: Result<(), E::Error>)
        ensures
            r is Ok,
    {
        render_nothing(encoder)
    }

    fn render_cmark<E: Encoder>(&self, encoder: &mut E) -> (r: Result<(), E::Error>)
        ensures
            r is Ok,
    {
        render_nothing(encoder)
    }
}

impl<T: Content> Content for &[T] {
    open spec fn sect_model(&self, blocks: Seq<Block>) -> Seq<u8> {
        seq_section_model(self@, blocks)
    }

    fn render_section<E: Encoder>(&self, section: Section, encoder: &mut E) -> (r: Result<
        (),
        E::Error,
    >) {
        let n = self.len();
        let mut i: usize = 0;
        while i < n
            invariant
                n == self@.len(),
                i <= n,
                encoder.out() == old(encoder).out() + seq_section_model(
                    self@.take(i as int),
                    section@,
                ),
            decreases n - i,
        {
            let res = section.render_once(&self[i], encoder);
            if let Err(e) = res {
                return Err(e);
            }
            proof {
                assert(self@.take(i + 1).drop_last() =~= self@.take(i as int));
                assert(self@.take(i + 1).last() == self@[i as int]);
                assert(encoder.out() =~= old(encoder).out() + seq_section_model(
                    self@.take(i + 1),
                    section@,
                ));
            }
            i = i + 1;
        }
        proof {
            assert(self@.take(n as int) =~= self@);
        }
        Ok(())
    }

    fn render_inverse<E: Encoder>(&self, section: Section, encoder: &mut E) -> (r: Result<
        (),
        E::Error,
    >) {
        render_inverse_by_truthiness(self, section, encoder)
    }

    fn render_field_escaped<E: Encoder>(&self, hash: u64, name: &str, encoder: &mut E) -> (r:
        Result<bool, E::Error>) {
        render_field_absent(encoder)
    }

    fn render_field_unescaped<E: Encoder>(&self, hash: u64, name: &str, encoder: &mut E) -> (r:
        Result<bool, E::Error>) {
        render_field_absent(encoder)
    }

    fn render_field_section<E: Encoder>(
        &self,
        hash: u64,
        name: &str,
        section: Section,
        encoder: &mut E,
    ) -> (r: Result<bool, E::Error>) {
        render_field_absent(encoder)
    }

    fn render_field_inverse<E: Encoder>(
        &self,
        hash: u64,
        name: &str,
        section: Section,
        encoder: &mut E,
    ) -> (r: Result<bool, E::Error>) {
        render_field_absent(encoder)
    }
}

} // verus!
