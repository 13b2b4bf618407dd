//! The cross-cutting laws of the content contract, stated over the
//! render models that the executable operations are pinned to.

use vstd::prelude::*;

use crate::content::Content;
use crate::content::Variable;
use crate::fields::FieldMap;
use crate::fields::assoc_lookup;
use crate::sequences::seq_section_model;
use crate::template::Block;
use crate::template::Template;
use crate::template::section_once_model;

verus! {

/// Wrapping a value in an exclusive owner never alters truthiness,
/// capacity estimate, any render output, or any field-dispatch
/// outcome: every operation on the wrapper produces output identical
/// to the same operation on the wrapped value.
pub proof fn lemma_box_transparent<T: Content>(
    w: &Box<T>,
    tpl: &Template,
    blocks: Seq<Block>,
    name: Seq<u8>,
)
    ensures
        w.truthy() == (**w).truthy(),
        w.hint(tpl) == (**w).hint(tpl),
        w.esc_model() == (**w).esc_model(),
        w.unesc_model() == (**w).unesc_model(),
        w.markup_text() == (**w).markup_text(),
        w.sect_model(blocks) == (**w).sect_model(blocks),
        w.inv_model(blocks) == (**w).inv_model(blocks),
        w.has_field(name) == (**w).has_field(name),
        w.field_esc_model(name) == (**w).field_esc_model(name),
        w.field_unesc_model(name) == (**w).field_unesc_model(name),
        w.field_sect_model(name, blocks) == (**w).field_sect_model(name, blocks),
        w.field_inv_model(name, blocks) == (**w).field_inv_model(name, blocks),
{
}

/// Wrapping a value in a single-thread shared owner is render
/// transparent, as for the exclusive owner.
pub proof fn lemma_rc_transparent<T: Content>(
    w: &std::rc::Rc<T>,
    tpl: &Template,
    blocks: Seq<Block>,
    name: Seq<u8>,
)
    ensures
        w.truthy() == (**w).truthy(),
        w.hint(tpl) == (**w).hint(tpl),
        w.esc_model() == (**w).esc_model(),
        w.unesc_model() == (**w).unesc_model(),
        w.markup_text() == (**w).markup_text(),
        w.sect_model(blocks) == (**w).sect_model(blocks),
        w.inv_model(blocks) == (**w).inv_model(blocks),
        w.has_field(name) == (**w).has_field(name),
        w.field_esc_model(name) == (**w).field_esc_model(name),
        w.field_unesc_model(name) == (**w).field_unesc_model(name),
        w.field_sect_model(name, blocks) == (**w).field_sect_model(name, blocks),
        w.field_inv_model(name, blocks) == (**w).field_inv_model(name, blocks),
{
}

/// Wrapping a value in a thread-safe shared owner is render
/// transparent, as for the exclusive owner.
pub proof fn lemma_arc_transparent<T: Content>(
    w: &std::sync::Arc<T>,
    tpl: &Template,
    blocks: Seq<Block>,
    name: Seq<u8>,
)
    ensures
        w.truthy() == (**w).truthy(),
        w.hint(tpl) == (**w).hint(tpl),
        w.esc_model() == (**w).esc_model(),
        w.unesc_model() == (**w).unesc_model(),
        w.markup_text() == (**w).markup_text(),
        w.sect_model(blocks) == (**w).sect_model(blocks),
        w.inv_model(blocks) == (**w).inv_model(blocks),
        w.has_field(name) == (**w).has_field(name),
        w.field_esc_model(name) == (**w).field_esc_model(name),
        w.field_unesc_model(name) == (**w).field_unesc_model(name),
        w.field_sect_model(name, blocks) == (**w).field_sect_model(name, blocks),
        w.field_inv_model(name, blocks) == (**w).field_inv_model(name, blocks),
{
}

/// Taking a value by reference is render transparent, as for the
/// exclusive owner.
pub proof fn lemma_ref_transparent<T: Content>(
    w: &&T,
    tpl: &Template,
    blocks: Seq<Block>,
    name: Seq<u8>,
)
    ensures
        w.truthy() == (**w).truthy(),
        w.hint(tpl) == (**w).hint(tpl),
        w.esc_model() == (**w).esc_model(),
        w.unesc_model() == (**w).unesc_model(),
        w.markup_text() == (**w).markup_text(),
        w.sect_model(blocks) == (**w).sect_model(blocks),
        w.inv_model(blocks) == (**w).inv_model(blocks),
        w.has_field(name) == (**w).has_field(name),
        w.field_esc_model(name) == (**w).field_esc_model(name),
        w.field_unesc_model(name) == (**w).field_unesc_model(name),
        w.field_sect_model(name, blocks) == (**w).field_sect_model(name, blocks),
        w.field_inv_model(name, blocks) == (**w).field_inv_model(name, blocks),
{
}

/// A section rendered against an absent optional produces no bytes; a
/// section rendered against a present optional produces exactly one
/// render of the section's blocks with the payload as the scope.
pub proof fn lemma_option_section<T: Content>(opt: &Option<T>, blocks: Seq<Block>)
    ensures
        opt is None ==> opt.sect_model(blocks) == Seq::<u8>::empty(),
        opt is Some ==> opt.sect_model(blocks) == section_once_model(&opt->Some_0, blocks),
{
    match opt {
        Some(inner) => {
            assert(opt.sect_model(blocks) == section_once_model(inner, blocks));
        },
        None => {},
    }
}

/// The fallible adapter behaves exactly as the optional one, reading
/// success as presence: a failed value renders no section bytes, and
/// its failure detail is not surfaced.
pub proof fn lemma_result_section<T: Content, U>(res: &Result<T, U>, blocks: Seq<Block>)
    ensures
        res is Err ==> res.sect_model(blocks) == Seq::<u8>::empty(),
        res is Ok ==> res.sect_model(blocks) == section_once_model(&res->Ok_0, blocks),
{
    match res {
        Ok(inner) => {
            assert(res.sect_model(blocks) == section_once_model(inner, blocks));
        },
        Err(_) => {},
    }
}

/// A section rendered against a sequence produces the concatenation of
/// one render per element, in the sequence's order; the empty sequence
/// produces no bytes.
pub proof fn lemma_sequence_section_concat<T: Content>(items: &Vec<T>, blocks: Seq<Block>)
    ensures
        items@.len() == 0 ==> items.sect_model(blocks) == Seq::<u8>::empty(),
        items@.len() > 0 ==> items.sect_model(blocks) == seq_section_model(
            items@.drop_last(),
            blocks,
        ) + section_once_model(&items@.last(), blocks),
{
}

/// Rendering a block sequence without variable slots does not consult
/// the scope: any two scopes produce the same bytes.
pub proof fn lemma_text_blocks_scope_free<A: Variable, B: Variable>(
    a: &A,
    b: &B,
    blocks: Seq<Block>,
)
    requires
        forall|i: int| 0 <= i < blocks.len() ==> blocks[i] is Text,
    ensures
        section_once_model(a, blocks) == section_once_model(b, blocks),
    decreases blocks.len(),
{
    if blocks.len() > 0 {
        assert(blocks.drop_last().len() == blocks.len() - 1);
        lemma_text_blocks_scope_free(a, b, blocks.drop_last());
    }
}

/// The inverse render of an empty sequence is the inverse render of a
/// truthy-false scalar, for blocks made of literal text alone: both
/// scopes are falsy, so both render the blocks exactly once.
pub proof fn lemma_empty_sequence_inverse<T: Content>(items: &Vec<T>, blocks: Seq<Block>)
    requires
        items@.len() == 0,
        forall|i: int| 0 <= i < blocks.len() ==> blocks[i] is Text,
    ensures
        items.inv_model(blocks) == false.inv_model(blocks),
{
    lemma_text_blocks_scope_free(items, &false, blocks);
}

/// Field dispatch on a name-keyed map goes by the key's text alone: a
/// bound name is reported found and delegates to the bound value's
/// own render model, and an unbound name is reported absent with no
/// output — whatever hash the lookup site supplied, since no model
/// here mentions one.
pub proof fn lemma_map_field_dispatch<V: Content>(m: &FieldMap<V>, name: Seq<u8>, blocks: Seq<
    Block,
>)
    ensures
        m.has_field(name) == (assoc_lookup(m@, name) is Some),
        assoc_lookup(m@, name) matches Some(v) ==> {
            &&& m.field_esc_model(name) == v.esc_model()
            &&& m.field_unesc_model(name) == v.unesc_model()
            &&& m.field_sect_model(name, blocks) == v.sect_model(blocks)
            &&& m.field_inv_model(name, blocks) == v.inv_model(blocks)
        },
        assoc_lookup(m@, name) is None ==> {
            &&& m.field_esc_model(name) == Seq::<u8>::empty()
            &&& m.field_unesc_model(name) == Seq::<u8>::empty()
            &&& m.field_sect_model(name, blocks) == Seq::<u8>::empty()
            &&& m.field_inv_model(name, blocks) == Seq::<u8>::empty()
        },
{
}

} // verus!
