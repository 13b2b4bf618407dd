//! The pre-parsed template fragments that content is rendered against.
//!
//! A [`Template`] is a sequence of [`Block`]s, produced elsewhere by a
//! template compiler; this crate never parses text. A [`Section`]
//! borrows such a sequence and exposes the one operation the
//! content-binding layer needs: render every block once, against a
//! given scope value, into a given sink.

use vstd::prelude::*;

use crate::content::Variable;
use crate::encoding::Encoder;
use vstd::utf8::encode_utf8;

verus! {

/// One pre-parsed piece of a template block.
pub enum Block {
    /// Literal text, written to the sink exactly as it is.
    Text(String),
    /// The current scope value, rendered escaped.
    Slot,
    /// The current scope value, rendered without escaping.
    SlotUnescaped,
}

/// The bytes one block contributes when rendered with scope `c`.
pub open spec fn block_model<C: Variable>(c: &C, b: Block) -> Seq<u8> {
    match b {
        Block::Text(t) => encode_utf8(t@),
        Block::Slot => c.esc_model(),
        Block::SlotUnescaped => c.unesc_model(),
    }
}

/// The bytes a block sequence produces when rendered once with scope
/// `c`: the concatenation of each block's contribution, in order.
pub open spec fn section_once_model<C: Variable>(c: &C, blocks: Seq<Block>) -> Seq<u8>
    decreases blocks.len(),
{
    if blocks.len() == 0 {
        Seq::empty()
    } else {
        section_once_model(c, blocks.drop_last()) + block_model(c, blocks.last())
    }
}

/// A pre-parsed template. The content-binding layer never looks inside
/// one except to render its blocks or to answer capacity queries.
pub struct Template {
    blocks: Vec<Block>,
}

impl Template {
    /// The block sequence this template renders.
    pub closed spec fn blocks(&self) -> Seq<Block> {
        self.blocks@
    }

    /// A template made of the given pre-parsed blocks.
    pub fn new(blocks: Vec<Block>) -> (r: Template)
        ensures
            r.blocks() == blocks@,
    {
        Template { blocks }
    }

    /// The whole template as a renderable section.
    pub fn section<'s>(&'s self) -> (r: Section<'s>)
        ensures
            r@ == self.blocks(),
    {
        Section { blocks: self.blocks.as_slice() }
    }
}

/// A borrowed, pre-parsed template fragment bound to a pair of
/// delimiting tags, rendered zero or more times against successive
/// scopes.
#[derive(Clone, Copy)]
pub struct Section<'s> {
    blocks: &'s [Block],
}

impl<'s> View for Section<'s> {
    type V = Seq<Block>;

    closed spec fn view(&self) -> Seq<Block> {
        self.blocks@
    }
}

impl<'s> Section<'s> {
    /// Renders every block of this section once, with `content` as the
    /// scope, writing to `encoder`. The first sink failure aborts the
    /// render and is handed back unchanged.
    pub fn render_once<C: Variable, E: Encoder>(&self, content: &C, encoder: &mut E) -> (r: Result<
        (),
        E::Error,
    >)
        ensures
            self@.len() == 0 ==> r is Ok,
            E::infallible() ==> r is Ok,
            r is Ok ==> final(encoder).out() == old(encoder).out() + section_once_model(
                content,
                self@,
            ),
    {
        let n = self.blocks.len();
        let mut i: usize = 0;
        while i < n
            invariant
                n == self.blocks@.len(),
                i <= n,
                encoder.out() == old(encoder).out() + section_once_model(
                    content,
                    self.blocks@.take(i as int),
                ),
            decreases n - i,
        {
            let res = match &self.blocks[i] {
                Block::Text(t) => encoder.write_unescaped(t.as_str()),
                Block::Slot => content.render_escaped(encoder),
                Block::SlotUnescaped => content.render_unescaped(encoder),
            };
            if let Err(e) = res {
                return Err(e);
            }
            proof {
                let pre = self.blocks@.take(i as int);
                assert(self.blocks@.take(i + 1).drop_last() =~= pre);
                assert(self.blocks@.take(i + 1).last() == self.blocks@[i as int]);
                assert(encoder.out() =~= old(encoder).out() + section_once_model(
                    content,
                    self.blocks@.take(i + 1),
                ));
            }
            i = i + 1;
        }
        proof {
            assert(self.blocks@.take(n as int) =~= self.blocks@);
        }
        Ok(())
    }
}

} // verus!
