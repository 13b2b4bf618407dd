//! The associative implementation of the content contract: a
//! name-keyed map for dynamic data, rendered only through sections and
//! field lookups. Field dispatch ignores the supplied hash entirely —
//! the map holds no precomputed hash table — and compares by name.

use vstd::prelude::*;

use crate::content::Content;
use crate::content::Variable;
use crate::content::render_field_absent;
use crate::content::render_inverse_by_truthiness;
use crate::content::render_nothing;
use crate::content::render_section_by_truthiness;
use crate::encoding::Encoder;
use crate::template::Block;
use crate::template::Section;
use crate::template::Template;
use vstd::string::StringSliceAdditionalSpecFns;
use vstd::utf8::encode_utf8;

verus! {

/// The value an entry sequence associates with a name, given as the
/// name's UTF-8 bytes: the value of the latest entry whose key has
/// those bytes, or nothing.
pub open spec fn assoc_lookup<V>(entries: Seq<(String, V)>, name: Seq<u8>) -> Option<V>
    decreases entries.len(),
{
    if entries.len() == 0 {
        None
    } else if encode_utf8(entries.last().0@) == name {
        Some(entries.last().1)
    } else {
        assoc_lookup(entries.drop_last(), name)
    }
}

/// Appending an entry changes exactly the association of its own key.
pub proof fn lemma_assoc_lookup_push<V>(
    entries: Seq<(String, V)>,
    key: String,
    value: V,
    name: Seq<u8>,
)
    ensures
        assoc_lookup(entries.push((key, value)), name) == (if encode_utf8(key@) == name {
            Some(value)
        } else {
            assoc_lookup(entries, name)
        }),
{
    assert(entries.push((key, value)).drop_last() =~= entries);
}

/// Whether the UTF-8 bytes of two strings are the same.
fn str_bytes_eq(a: &str, b: &str) -> (r: bool)
    ensures
        r == (a.spec_bytes() == b.spec_bytes()),
{
    let ab = a.as_bytes();
    let bb = b.as_bytes();
    if ab.len() != bb.len() {
        return false;
    }
    let n = ab.len();
    let mut i: usize = 0;
    while i < n
        invariant
            n == ab@.len(),
            n == bb@.len(),
            i <= n,
            ab@ == a.spec_bytes(),
            bb@ == b.spec_bytes(),
            forall|j: int| 0 <= j < i ==> ab@[j] == bb@[j],
        decreases n - i,
    {
        if ab[i] != bb[i] {
            return false;
        }
        i = i + 1;
    }
    proof {
        assert(ab@ =~= bb@);
    }
    true
}

/// A string-keyed map for dynamic field dispatch. Entries keep their
/// insertion order; a later insert of an existing name shadows the
/// earlier one.
pub struct FieldMap<V> {
    entries: Vec<(String, V)>,
}

impl<V> View for FieldMap<V> {
    type V = Seq<(String, V)>;

    closed spec fn view(&self) -> Seq<(String, V)> {
        self.entries@
    }
}

impl<V> FieldMap<V> {
    /// An empty map.
    pub fn new() -> (r: FieldMap<V>)
        ensures
            r@ == Seq::<(String, V)>::empty(),
    {
        FieldMap { entries: Vec::new() }
    }

    /// How many entries the map holds, shadowed ones included.
    pub fn len(&self) -> (r: usize)
        ensures
            r == self@.len(),
    {
        self.entries.len()
    }

    /// Binds `name` to `value`, shadowing any earlier binding of the
    /// same name.
    pub fn insert(&mut self, name: String, value: V)
        ensures
            final(self)@ == old(self)@.push((name, value)),
    {
        self.entries.push((name, value));
    }

    /// The value bound to `name`, or nothing when the name is unbound.
    pub fn get<'a>(&'a self, name: &str) -> (r: Option<&'a V>)
        ensures
            match r {
                Some(v) => assoc_lookup(self@, name.spec_bytes()) == Some(*v),
                None => assoc_lookup(self@, name.spec_bytes()) is None,
            },
    {
        let mut i: usize = self.entries.len();
        proof {
            assert(self.entries@.take(i as int) =~= self.entries@);
        }
        while i > 0
            invariant
                i <= self.entries@.len(),
                assoc_lookup(self.entries@, name.spec_bytes()) == assoc_lookup(
                    self.entries@.take(i as int),
                    name.spec_bytes(),
                ),
            decreases i,
        {
            i = i - 1;
            proof {
                assert(self.entries@.take(i + 1).drop_last() =~= self.entries@.take(i as int));
                assert(self.entries@.take(i + 1).last() == self.entries@[i as int]);
            }
            if str_bytes_eq(self.entries[i].0.as_str(), name) {
                return Some(&self.entries[i].1);
            }
        }
        None
    }
}

impl<V: Content> Variable for FieldMap<V> {
    open spec fn truthy(&self) -> bool {
        self@.len() > 0
    }

    fn is_truthy(&self) -> (r: bool) {
        self.len() != 0
    }

    fn capacity_hint(&self, tpl: &Template) -> (r: usize) {
        0
    }

    fn render_escaped<E: Encoder>(&self, encoder: &mut E) -> (r: Result<(), E::Error>)
        ensures
            r is Ok,
    {
        render_nothing(encoder)
    }

    fn render_unescaped<E: Encoder>(&self, encoder: &mut E) -> (r: Result<(), E::Error>)
        ensures
            r is Ok,
    {
        render_nothing(encoder)
    }

    fn render_cmark<E: Encoder>(&self, encoder: &mut E) -> (r: Result<(), E::Error>)
        ensures
            r is Ok,
    {
        render_nothing(encoder)
    }
}

impl<V: Content> Content for FieldMap<V> {
    open spec fn has_field(&self, name: Seq<u8>) -> bool {
        assoc_lookup(self@, name) is Some
    }

    open spec fn field_esc_model(&self, name: Seq<u8>) -> Seq<u8> {
        match assoc_lookup(self@, name) {
            Some(v) => v.esc_model(),
            None => Seq::empty(),
        }
    }

    open spec fn field_unesc_model(&self, name: Seq<u8>) -> Seq<u8> {
        match assoc_lookup(self@, name) {
            Some(v) => v.unesc_model(),
            None => Seq::empty(),
        }
    }

    open spec fn field_sect_model(&self, name: Seq<u8>, blocks: Seq<Block>) -> Seq<u8> {
        match assoc_lookup(self@, name) {
            Some(v) => v.sect_model(blocks),
            None => Seq::empty(),
        }
    }

    open spec fn field_inv_model(&self, name: Seq<u8>, blocks: Seq<Block>) -> Seq<u8> {
        match assoc_lookup(self@, name) {
            Some(v) => v.inv_model(blocks),
            None => Seq::empty(),
        }
    }

    fn render_section<E: Encoder>(&self, section: Section, encoder: &mut E) -> (r: Result<
        (),
        E::Error,
    >) {
        render_section_by_truthiness(self, section, encoder)
    }

    fn render_inverse<E: Encoder>(&self, section: Section, encoder: &mut E) -> (r: Result<
        (),
        E::Error,
    >) {
        render_inverse_by_truthiness(self, section, encoder)
    }

    fn render_field_escaped<E: Encoder>(&self, hash: u64, name: &str, encoder: &mut E) -> (r:
        Result<bool, E::Error>) {
        match self.get(name) {
            Some(v) => match v.render_escaped(encoder) {
                Ok(()) => Ok(true),
                Err(e) => Err(e),
            },
            None => render_field_absent(encoder),
        }
    }

    fn render_field_unescaped<E: Encoder>(&self, hash: u64, name: &str, encoder: &mut E) -> (r:
        Result<bool, E::Error>) {
        match self.get(name) {
            Some(v) => match v.render_unescaped(encoder) {
                Ok(()) => Ok(true),
                Err(e) => Err(e),
            },
            None => render_field_absent(encoder),
        }
    }

    fn render_field_section<E: Encoder>(
        &self,
        hash: u64,
        name: &str,
        section: Section,
        encoder: &mut E,
    ) -> (r: Result<bool, E::Error>) {
        match self.get(name) {
            Some(v) => match v.render_section(section, encoder) {
                Ok(()) => Ok(true),
                Err(e) => Err(e),
            },
            None => render_field_absent(encoder),
        }
    }

    fn render_field_inverse<E: Encoder>(
        &self,
        hash: u64,
        name: &str,
        section: Section,
        encoder: &mut E,
    ) -> (r: Result<bool, E::Error>) {
        match self.get(name) {
            Some(v) => match v.render_inverse(section, encoder) {
                Ok(()) => Ok(true),
                Err(e) => Err(e),
            },
            None => render_field_absent(encoder),
        }
    }
}

} // verus!
