//! The output sink capability: escaping and formatting writers, the
//! only source of failure in this crate, together with one concrete
//! sink that buffers HTML-escaped bytes.

use vstd::prelude::*;

use crate::decimal::dec_bytes;
use crate::decimal::dec_bytes_signed;
use crate::decimal::push_decimal_signed;
use crate::decimal::push_decimal_unsigned;
use vstd::string::StringSliceAdditionalSpecFns;

verus! {

/// What an HTML-escaping writer emits for one byte of input. The four
/// markup-significant ASCII bytes become entity references; every other
/// byte, including every byte of a multi-byte UTF-8 scalar, passes
/// through unchanged.
pub open spec fn escape_byte(b: u8) -> Seq<u8> {
    if b == 60 {  // '<'
        seq![38u8, 108u8, 116u8, 59u8]
    } else if b == 62 {  // '>'
        seq![38u8, 103u8, 116u8, 59u8]
    } else if b == 38 {  // '&'
        seq![38u8, 97u8, 109u8, 112u8, 59u8]
    } else if b == 34 {  // '"'
        seq![38u8, 113u8, 117u8, 111u8, 116u8, 59u8]
    } else {
        seq![b]
    }
}

/// What an HTML-escaping writer emits for a byte sequence.
pub open spec fn escape_bytes(s: Seq<u8>) -> Seq<u8>
    decreases s.len(),
{
    if s.len() == 0 {
        Seq::empty()
    } else {
        escape_bytes(s.drop_last()) + escape_byte(s.last())
    }
}

/// Escaping distributes over appending one byte.
pub proof fn lemma_escape_bytes_push(s: Seq<u8>, b: u8)
    ensures
        escape_bytes(s.push(b)) == escape_bytes(s) + escape_byte(b),
{
    assert(s.push(b).drop_last() =~= s);
    assert(escape_bytes(s.push(b)) == escape_bytes(s) + escape_byte(b));
}

/// The output sink every render operation writes to. Its failure type
/// is opaque to this crate: a failed write aborts the render call that
/// made it, and the failure is handed back unchanged.
///
/// `out` is the sequence of bytes the sink has accepted so far; each
/// writer says what a successful call appends to it, and the writers
/// of an infallible sink always succeed.
pub trait Encoder {
    type Error;

    /// The bytes written to this sink so far.
    spec fn out(&self) -> Seq<u8>;

    /// Whether every writer of this sink always succeeds. A render
    /// operation against such a sink is itself guaranteed to succeed:
    /// the content-binding layer introduces no error conditions of its
    /// own.
    spec fn infallible() -> bool;

    /// What this sink's markup (e.g. CommonMark-to-HTML) transform
    /// emits for the given text bytes. The transform itself is an
    /// external collaborator; only its output model is named here.
    spec fn markup(s: Seq<u8>) -> Seq<u8>;

    /// Writes `s`, escaping markup-significant characters.
    fn write_escaped(&mut self, s: &str) -> (r: Result<(), Self::Error>)
        ensures
            Self::infallible() ==> r is Ok,
            r is Ok ==> final(self).out() == old(self).out() + escape_bytes(s.spec_bytes()),
    ;

    /// Writes `s` exactly as it is.
    fn write_unescaped(&mut self, s: &str) -> (r: Result<(), Self::Error>)
        ensures
            Self::infallible() ==> r is Ok,
            r is Ok ==> final(self).out() == old(self).out() + s.spec_bytes(),
    ;

    /// Writes `s` through the sink's markup transform; the generated
    /// markup is not escaped further.
    fn write_markup(&mut self, s: &str) -> (r: Result<(), Self::Error>)
        ensures
            Self::infallible() ==> r is Ok,
            r is Ok ==> final(self).out() == old(self).out() + Self::markup(s.spec_bytes()),
    ;

    /// Writes the decimal representation of `v`; digits are never
    /// markup-significant, so nothing is escaped.
    fn format_unsigned(&mut self, v: u128) -> (r: Result<(), Self::Error>)
        ensures
            Self::infallible() ==> r is Ok,
            r is Ok ==> final(self).out() == old(self).out() + dec_bytes(v as nat),
    ;

    /// Writes the decimal representation of `v`, sign included.
    fn format_signed(&mut self, v: i128) -> (r: Result<(), Self::Error>)
        ensures
            Self::infallible() ==> r is Ok,
            r is Ok ==> final(self).out() == old(self).out() + dec_bytes_signed(v as int),
    ;
}

/// Appends the escaped form of `s` to `buf`.
pub fn push_escaped_bytes(buf: &mut Vec<u8>, s: &str)
    ensures
        final(buf)@ == old(buf)@ + escape_bytes(s.spec_bytes()),
{
    let bytes = s.as_bytes();
    let n = bytes.len();
    let mut i: usize = 0;
    while i < n
        invariant
            n == bytes@.len(),
            i <= n,
            bytes@ == s.spec_bytes(),
            buf@ == old(buf)@ + escape_bytes(bytes@.take(i as int)),
        decreases n - i,
    {
        let b = bytes[i];
        if b == 60 {
            buf.push(38);
            buf.push(108);
            buf.push(116);
            buf.push(59);
        } else if b == 62 {
            buf.push(38);
            buf.push(103);
            buf.push(116);
            buf.push(59);
        } else if b == 38 {
            buf.push(38);
            buf.push(97);
            buf.push(109);
            buf.push(112);
            buf.push(59);
        } else if b == 34 {
            buf.push(38);
            buf.push(113);
            buf.push(117);
            buf.push(111);
            buf.push(116);
            buf.push(59);
        } else {
            buf.push(b);
        }
        proof {
            lemma_escape_bytes_push(bytes@.take(i as int), bytes@[i as int]);
            assert(bytes@.take(i + 1) =~= bytes@.take(i as int).push(bytes@[i as int]));
            assert(buf@ =~= old(buf)@ + escape_bytes(bytes@.take(i + 1)));
        }
        i = i + 1;
    }
    proof {
        assert(bytes@.take(n as int) =~= bytes@);
    }
}

/// Appends the bytes of `s` to `buf` exactly as they are.
pub fn push_str_bytes(buf: &mut Vec<u8>, s: &str)
    ensures
        final(buf)@ == old(buf)@ + s.spec_bytes(),
{
    let bytes = s.as_bytes();
    let n = bytes.len();
    let mut i: usize = 0;
    while i < n
        invariant
            n == bytes@.len(),
            i <= n,
            bytes@ == s.spec_bytes(),
            buf@ == old(buf)@ + bytes@.take(i as int),
        decreases n - i,
    {
        buf.push(bytes[i]);
        proof {
            assert(bytes@.take(i + 1) =~= bytes@.take(i as int).push(bytes@[i as int]));
            assert(buf@ =~= old(buf)@ + bytes@.take(i + 1));
        }
        i = i + 1;
    }
    proof {
        assert(bytes@.take(n as int) =~= bytes@);
    }
}

/// A sink that buffers its output in memory and never fails.
pub struct HtmlEncoder {
    buf: Vec<u8>,
}

impl HtmlEncoder {
    /// An empty sink.
    pub fn new() -> (r: HtmlEncoder)
        ensures
            r.out() == Seq::<u8>::empty(),
    {
        HtmlEncoder { buf: Vec::new() }
    }

    /// The bytes written so far.
    pub fn bytes(&self) -> (r: &Vec<u8>)
        ensures
            r@ == self.out(),
    {
        &self.buf
    }
}

impl Encoder for HtmlEncoder {
    type Error = ();

    closed spec fn out(&self) -> Seq<u8> {
        self.buf@
    }

    /// This sink buffers in memory and never fails.
    open spec fn infallible() -> bool {
        true
    }

    /// This sink carries no markup engine: markup text passes through
    /// as it is, unescaped.
    open spec fn markup(s: Seq<u8>) -> Seq<u8> {
        s
    }

    fn write_escaped(&mut self, s: &str) -> (r: Result<(), ()>)
        ensures
            r is Ok,
    {
        push_escaped_bytes(&mut self.buf, s);
        Ok(())
    }

    fn write_unescaped(&mut self, s: &str) -> (r: Result<(), ()>)
        ensures
            r is Ok,
    {
        push_str_bytes(&mut self.buf, s);
        Ok(())
    }

    fn write_markup(&mut self, s: &str) -> (r: Result<(), ()>)
        ensures
            r is Ok,
    {
        push_str_bytes(&mut self.buf, s);
        Ok(())
    }

    fn format_unsigned(&mut self, v: u128) -> (r: Result<(), ()>)
        ensures
            r is Ok,
    {
        push_decimal_unsigned(&mut self.buf, v);
        Ok(())
    }

    fn format_signed(&mut self, v: i128) -> (r: Result<(), ()>)
        ensures
            r is Ok,
    {
        push_decimal_signed(&mut self.buf, v);
        Ok(())
    }
}

/// A sink with a fixed byte budget, for destinations with bounded
/// room: a write whose whole output would push the total past the
/// budget fails, accepts nothing, and leaves the output as it was.
/// Render operations hand such a failure back unchanged, which is how
/// a render is cancelled part-way.
pub struct LimitedEncoder {
    buf: Vec<u8>,
    budget: usize,
}

impl LimitedEncoder {
    /// The byte budget this sink was made with.
    pub closed spec fn budget(&self) -> usize {
        self.budget
    }

    /// An empty sink that accepts at most `budget` bytes.
    pub fn new(budget: usize) -> (r: LimitedEncoder)
        ensures
            r.out() == Seq::<u8>::empty(),
            r.budget() == budget,
    {
        LimitedEncoder { buf: Vec::new(), budget }
    }

    /// The bytes written so far.
    pub fn bytes(&self) -> (r: &Vec<u8>)
        ensures
            r@ == self.out(),
    {
        &self.buf
    }

    /// Accepts `piece` whole when it fits the remaining budget, and
    /// fails without accepting anything otherwise.
    fn accept(&mut self, piece: Vec<u8>) -> (r: Result<(), ()>)
        ensures
            r is Ok <==> old(self).out().len() + piece@.len() <= old(self).budget(),
            r is Ok ==> final(self).out() == old(self).out() + piece@,
            r is Err ==> final(self).out() == old(self).out(),
            final(self).budget() == old(self).budget(),
    {
        let mut piece = piece;
        if piece.len() <= self.budget && self.buf.len() <= self.budget - piece.len() {
            self.buf.append(&mut piece);
            Ok(())
        } else {
            Err(())
        }
    }
}

impl Encoder for LimitedEncoder {
    type Error = ();

    closed spec fn out(&self) -> Seq<u8> {
        self.buf@
    }

    /// A write past the budget fails, so nothing is promised here.
    open spec fn infallible() -> bool {
        false
    }

    /// This sink carries no markup engine: markup text passes through
    /// as it is, unescaped.
    open spec fn markup(s: Seq<u8>) -> Seq<u8> {
        s
    }

    fn write_markup(&mut self, s: &str) -> (r: Result<(), ()>)
        ensures
            r is Ok <==> old(self).out().len() + s.spec_bytes().len() <= old(self).budget(),
            r is Err ==> final(self).out() == old(self).out(),
            final(self).budget() == old(self).budget(),
    {
        let mut piece: Vec<u8> = Vec::new();
        push_str_bytes(&mut piece, s);
        self.accept(piece)
    }

    fn write_escaped(&mut self, s: &str) -> (r: Result<(), ()>)
        ensures
            r is Ok <==> old(self).out().len() + escape_bytes(s.spec_bytes()).len() <= old(
                self,
            ).budget(),
            r is Err ==> final(self).out() == old(self).out(),
            final(self).budget() == old(self).budget(),
    {
        let mut piece: Vec<u8> = Vec::new();
        push_escaped_bytes(&mut piece, s);
        self.accept(piece)
    }

    fn write_unescaped(&mut self, s: &str) -> (r: Result<(), ()>)
        ensures
            r is Ok <==> old(self).out().len() + s.spec_bytes().len() <= old(self).budget(),
            r is Err ==> final(self).out() == old(self).out(),
            final(self).budget() == old(self).budget(),
    {
        let mut piece: Vec<u8> = Vec::new();
        push_str_bytes(&mut piece, s);
        self.accept(piece)
    }

    fn format_unsigned(&mut self, v: u128) -> (r: Result<(), ()>)
        ensures
            r is Ok <==> old(self).out().len() + dec_bytes(v as nat).len() <= old(self).budget(),
            r is Err ==> final(self).out() == old(self).out(),
            final(self).budget() == old(self).budget(),
    {
        let mut piece: Vec<u8> = Vec::new();
        push_decimal_unsigned(&mut piece, v);
        self.accept(piece)
    }

    fn format_signed(&mut self, v: i128) -> (r: Result<(), ()>)
        ensures
            r is Ok <==> old(self).out().len() + dec_bytes_signed(v as int).len() <= old(
                self,
            ).budget(),
            r is Err ==> final(self).out() == old(self).out(),
            final(self).budget() == old(self).budget(),
    {
        let mut piece: Vec<u8> = Vec::new();
        push_decimal_signed(&mut piece, v);
        self.accept(piece)
    }
}

} // verus!
