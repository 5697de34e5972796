use vstd::prelude::*;

verus! {

use crate::error::HciError;

/// The byte of `s` at index `i`, or zero past the end.
///
/// Reading a fixed-width integer from fewer bytes than its width yields the
/// value of the available bytes with the missing high bytes taken as zero,
/// so the decoding specifications are phrased over this total lookup.
pub open spec fn byte_at(s: Seq<u8>, i: int) -> u8 {
    if 0 <= i < s.len() {
        s[i]
    } else {
        0
    }
}

/// How many bytes a read of width `w` consumes from `s`: the full width, or
/// whatever is left when the source is shorter.
pub open spec fn consumed_len(s: Seq<u8>, w: int) -> int {
    if s.len() < w {
        s.len() as int
    } else {
        w
    }
}

/// A 16-bit value from two bytes, least-significant byte first.
pub open spec fn le_u16(b0: u8, b1: u8) -> u16 {
    (b0 as u16) | ((b1 as u16) << 8)
}

/// A 32-bit value from four bytes, least-significant byte first.
pub open spec fn le_u32(b0: u8, b1: u8, b2: u8, b3: u8) -> u32 {
    (b0 as u32) | ((b1 as u32) << 8) | ((b2 as u32) << 16) | ((b3 as u32) << 24)
}

/// A 64-bit value from eight bytes, least-significant byte first.
pub open spec fn le_u64(b0: u8, b1: u8, b2: u8, b3: u8, b4: u8, b5: u8, b6: u8, b7: u8) -> u64 {
    (b0 as u64) | ((b1 as u64) << 8) | ((b2 as u64) << 16) | ((b3 as u64) << 24)
        | ((b4 as u64) << 32) | ((b5 as u64) << 40) | ((b6 as u64) << 48) | ((b7 as u64) << 56)
}

/// A source of bytes for decoding: a buffer and a cursor that only moves
/// forward.
pub struct Reader {
    data: Vec<u8>,
    pos: usize,
}

impl Reader {
    /// The whole underlying buffer.
    pub closed spec fn all(&self) -> Seq<u8> {
        self.data@
    }

    /// How many bytes have been consumed so far.
    pub closed spec fn pos(&self) -> int {
        self.pos as int
    }

    /// The bytes not yet consumed.
    pub open spec fn rest(&self) -> Seq<u8> {
        self.all().skip(self.pos())
    }

    /// The cursor never points past the end of the buffer.
    pub open spec fn wf(&self) -> bool {
        0 <= self.pos() <= self.all().len()
    }

    /// A reader over `data`, positioned at its start.
    pub fn new(data: Vec<u8>) -> (r: Reader)
        ensures
            r.wf(),
            r.all() == data@,
            r.pos() == 0,
    {
        Reader { data, pos: 0 }
    }

    /// How many bytes are left to read.
    pub fn remaining(&self) -> (n: usize)
        requires
            self.wf(),
        ensures
            n as int == self.rest().len(),
    {
        self.data.len() - self.pos
    }

    /// Consume one byte, or report that none is left.
    pub fn next(&mut self) -> (o: Option<u8>)
        requires
            old(self).wf(),
        ensures
            final(self).wf(),
            final(self).all() == old(self).all(),
            if old(self).rest().len() > 0 {
                o == Some(old(self).rest()[0]) && final(self).pos() == old(self).pos() + 1
            } else {
                o == None::<u8> && final(self).pos() == old(self).pos()
            },
    {
        if self.pos < self.data.len() {
            let b: u8 = self.data[self.pos];
            self.pos = self.pos + 1;
            Some(b)
        } else {
            None
        }
    }

    /// Consume and return every byte that is left.
    pub fn take_rest(&mut self) -> (v: Vec<u8>)
        requires
            old(self).wf(),
        ensures
            final(self).wf(),
            final(self).all() == old(self).all(),
            final(self).pos() == old(self).all().len(),
            v@ == old(self).rest(),
    {
        let mut v: Vec<u8> = Vec::new();
        proof {
            assert(v@ =~= old(self).all().subrange(old(self).pos(), old(self).pos()));
        }
        while self.pos < self.data.len()
            invariant
                self.wf(),
                self.all() == old(self).all(),
                old(self).pos() <= self.pos(),
                v@ == old(self).all().subrange(old(self).pos(), self.pos()),
            decreases self.all().len() - self.pos(),
        {
            v.push(self.data[self.pos]);
            self.pos = self.pos + 1;
            proof {
                assert(v@ =~= old(self).all().subrange(old(self).pos(), self.pos()));
            }
        }
        proof {
            assert(v@ =~= old(self).rest());
        }
        v
    }
}

/// A value that can be decoded from the front of a byte source,
/// least-significant byte first.
///
/// `parse_spec` is the meaning of the decoding: given the bytes that remain,
/// it names the decoded value and the count of bytes consumed, or the error.
/// `read_from` must behave exactly as `parse_spec` says. The fixed-width
/// integer decodings never fail: a source shorter than the width yields the
/// available bytes (high bytes zero) and a consumed count below the width,
/// which callers needing the full width must check.
pub trait ReadFrom: Sized {
    /// What decoding yields on a given byte sequence.
    spec fn parse_spec(s: Seq<u8>) -> Result<(Self, int), HciError>;

    /// Decode one value from the front of `r`.
    fn read_from(r: &mut Reader) -> (res: Result<(Self, usize), HciError>)
        requires
            old(r).wf(),
        ensures
            final(r).wf(),
            final(r).all() == old(r).all(),
            final(r).pos() >= old(r).pos(),
            match res {
                Ok(p) => Self::parse_spec(old(r).rest()) == Ok::<(Self, int), HciError>((p.0, p.1 as int))
                    && final(r).pos() == old(r).pos() + p.1,
                Err(e) => Self::parse_spec(old(r).rest()) == Err::<(Self, int), HciError>(e),
            },
    ;
}

/// Decoding driven from the source's side: `r.read_as::<V>()` decodes a `V`
/// from the front of `r`.
pub trait ReadAs {
    /// The bytes the source still holds.
    spec fn source(&self) -> Seq<u8>;

    /// The source's well-formedness.
    spec fn source_wf(&self) -> bool;

    /// Decode one `V` from the front of this source.
    fn read_as<V: ReadFrom>(&mut self) -> (res: Result<(V, usize), HciError>)
        requires
            old(self).source_wf(),
        ensures
            final(self).source_wf(),
            match res {
                Ok(p) => V::parse_spec(old(self).source()) == Ok::<(V, int), HciError>((p.0, p.1 as int))
                    && final(self).source() == old(self).source().skip(p.1 as int),
                Err(e) => V::parse_spec(old(self).source()) == Err::<(V, int), HciError>(e),
            },
    ;
}

impl ReadAs for Reader {
    open spec fn source(&self) -> Seq<u8> {
        self.rest()
    }

    open spec fn source_wf(&self) -> bool {
        self.wf()
    }

    fn read_as<V: ReadFrom>(&mut self) -> (res: Result<(V, usize), HciError>) {
        let res = V::read_from(self);
        proof {
            if res is Ok {
                assert(self.rest() =~= old(self).rest().skip(res->Ok_0.1 as int));
            }
        }
        res
    }
}

impl ReadFrom for u8 {
    open spec fn parse_spec(s: Seq<u8>) -> Result<(u8, int), HciError> {
        Ok((byte_at(s, 0), consumed_len(s, 1)))
    }

    fn read_from(r: &mut Reader) -> (res: Result<(u8, usize), HciError>) {
        match r.next() {
            Some(b) => Ok((b, 1)),
            None => Ok((0, 0)),
        }
    }
}

impl ReadFrom for u16 {
    open spec fn parse_spec(s: Seq<u8>) -> Result<(u16, int), HciError> {
        Ok((le_u16(byte_at(s, 0), byte_at(s, 1)), consumed_len(s, 2)))
    }

    fn read_from(r: &mut Reader) -> (res: Result<(u16, usize), HciError>) {
        let (b0, n0): (u8, usize) = match r.next() {
            Some(b) => (b, 1),
            None => (0, 0),
        };
        let (b1, n1): (u8, usize) = match r.next() {
            Some(b) => (b, 1),
            None => (0, 0),
        };
        Ok(((b0 as u16) | ((b1 as u16) << 8), n0 + n1))
    }
}

impl ReadFrom for u32 {
    open spec fn parse_spec(s: Seq<u8>) -> Result<(u32, int), HciError> {
        Ok((le_u32(byte_at(s, 0), byte_at(s, 1), byte_at(s, 2), byte_at(s, 3)), consumed_len(s, 4)))
    }

    fn read_from(r: &mut Reader) -> (res: Result<(u32, usize), HciError>) {
        let (b0, n0): (u8, usize) = match r.next() {
            Some(b) => (b, 1),
            None => (0, 0),
        };
        let (b1, n1): (u8, usize) = match r.next() {
            Some(b) => (b, 1),
            None => (0, 0),
        };
        let (b2, n2): (u8, usize) = match r.next() {
            Some(b) => (b, 1),
            None => (0, 0),
        };
        let (b3, n3): (u8, usize) = match r.next() {
            Some(b) => (b, 1),
            None => (0, 0),
        };
        let v: u32 = (b0 as u32) | ((b1 as u32) << 8) | ((b2 as u32) << 16) | ((b3 as u32) << 24);
        Ok((v, n0 + n1 + n2 + n3))
    }
}

impl ReadFrom for u64 {
    open spec fn parse_spec(s: Seq<u8>) -> Result<(u64, int), HciError> {
        Ok((
            le_u64(
                byte_at(s, 0), byte_at(s, 1), byte_at(s, 2), byte_at(s, 3),
                byte_at(s, 4), byte_at(s, 5), byte_at(s, 6), byte_at(s, 7),
            ),
            consumed_len(s, 8),
        ))
    }

    fn read_from(r: &mut Reader) -> (res: Result<(u64, usize), HciError>) {
        let (b0, n0): (u8, usize) = match r.next() {
            Some(b) => (b, 1),
            None => (0, 0),
        };
        let (b1, n1): (u8, usize) = match r.next() {
            Some(b) => (b, 1),
            None => (0, 0),
        };
        let (b2, n2): (u8, usize) = match r.next() {
            Some(b) => (b, 1),
            None => (0, 0),
        };
        let (b3, n3): (u8, usize) = match r.next() {
            Some(b) => (b, 1),
            None => (0, 0),
        };
        let (b4, n4): (u8, usize) = match r.next() {
            Some(b) => (b, 1),
            None => (0, 0),
        };
        let (b5, n5): (u8, usize) = match r.next() {
            Some(b) => (b, 1),
            None => (0, 0),
        };
        let (b6, n6): (u8, usize) = match r.next() {
            Some(b) => (b, 1),
            None => (0, 0),
        };
        let (b7, n7): (u8, usize) = match r.next() {
            Some(b) => (b, 1),
            None => (0, 0),
        };
        let v: u64 = (b0 as u64) | ((b1 as u64) << 8) | ((b2 as u64) << 16) | ((b3 as u64) << 24)
            | ((b4 as u64) << 32) | ((b5 as u64) << 40) | ((b6 as u64) << 48) | ((b7 as u64) << 56);
        Ok((v, n0 + n1 + n2 + n3 + n4 + n5 + n6 + n7))
    }
}

/// A sink of bytes for encoding.
pub struct Writer {
    buf: Vec<u8>,
}

impl View for Writer {
    type V = Seq<u8>;

    closed spec fn view(&self) -> Seq<u8> {
        self.buf@
    }
}

impl Writer {
    /// An empty sink.
    pub fn new() -> (w: Writer)
        ensures
            w@ == Seq::<u8>::empty(),
    {
        let w = Writer { buf: Vec::new() };
        proof {
            assert(w@ =~= Seq::<u8>::empty());
        }
        w
    }

    /// Append one byte.
    pub fn push(&mut self, b: u8)
        ensures
            final(self)@ == old(self)@.push(b),
    {
        self.buf.push(b);
    }

    /// The bytes written so far, as an owned buffer.
    pub fn into_vec(self) -> (v: Vec<u8>)
        ensures
            v@ == self@,
    {
        self.buf
    }
}

/// A value that can be encoded as bytes, least-significant byte first.
///
/// `encoding` is the meaning: the exact byte sequence the value turns into.
/// Writing into a `Writer` cannot fail; the `Result` carries the number of
/// bytes written, mirroring the width of the encoded value.
pub trait WriteTo: Sized {
    /// The bytes this value encodes to.
    spec fn encoding(self) -> Seq<u8>;

    /// Append this value's encoding to `w`.
    fn write_to(self, w: &mut Writer) -> (res: Result<usize, HciError>)
        ensures
            final(w)@ == old(w)@ + self.encoding(),
            res == Ok::<usize, HciError>(self.encoding().len() as usize),
    ;

    /// This value's encoding in a freshly allocated buffer.
    fn bytes(self) -> (res: Result<Vec<u8>, HciError>)
        ensures
            match res {
                Ok(v) => v@ == self.encoding(),
                Err(_) => false,
            },
        default_ensures
            match res {
                Ok(v) => v@ == self.encoding(),
                Err(_) => false,
            },
    {
        let mut w = Writer::new();
        let ghost enc = self.encoding();
        match self.write_to(&mut w) {
            Ok(_) => {
                let v = w.into_vec();
                proof {
                    assert(v@ =~= enc);
                }
                Ok(v)
            },
            Err(e) => Err(e),
        }
    }
}

/// Encoding driven from the sink's side: `w.write_as(v)` appends `v`'s
/// encoding to `w`.
pub trait WriteAs {
    /// The bytes the sink holds so far.
    spec fn sink(&self) -> Seq<u8>;

    /// Append `value`'s encoding to this sink.
    fn write_as<T: WriteTo>(&mut self, value: T) -> (res: Result<usize, HciError>)
        ensures
            final(self).sink() == old(self).sink() + value.encoding(),
            res == Ok::<usize, HciError>(value.encoding().len() as usize),
    ;
}

impl WriteAs for Writer {
    open spec fn sink(&self) -> Seq<u8> {
        self@
    }

    fn write_as<T: WriteTo>(&mut self, value: T) -> (res: Result<usize, HciError>) {
        let ghost venc = value.encoding();
        let res = value.write_to(self);
        proof {
            assert(self.sink() == self@);
            assert(old(self).sink() == old(self)@);
            assert(self.sink() == old(self).sink() + venc);
        }
        res
    }
}

impl WriteTo for u8 {
    open spec fn encoding(self) -> Seq<u8> {
        seq![self]
    }

    fn write_to(self, w: &mut Writer) -> (res: Result<usize, HciError>) {
        w.push(self);
        proof {
            assert(w@ =~= old(w)@ + self.encoding());
        }
        Ok(1)
    }
}

impl WriteTo for u16 {
    open spec fn encoding(self) -> Seq<u8> {
        seq![(self & 0xff) as u8, ((self >> 8) & 0xff) as u8]
    }

    fn write_to(self, w: &mut Writer) -> (res: Result<usize, HciError>) {
        w.push((self & 0xff) as u8);
        w.push(((self >> 8) & 0xff) as u8);
        proof {
            assert(w@ =~= old(w)@ + self.encoding());
        }
        Ok(2)
    }
}

impl WriteTo for u32 {
    open spec fn encoding(self) -> Seq<u8> {
        seq![
            (self & 0xff) as u8,
            ((self >> 8) & 0xff) as u8,
            ((self >> 16) & 0xff) as u8,
            ((self >> 24) & 0xff) as u8,
        ]
    }

    fn write_to(self, w: &mut Writer) -> (res: Result<usize, HciError>) {
        w.push((self & 0xff) as u8);
        w.push(((self >> 8) & 0xff) as u8);
        w.push(((self >> 16) & 0xff) as u8);
        w.push(((self >> 24) & 0xff) as u8);
        proof {
            assert(w@ =~= old(w)@ + self.encoding());
        }
        Ok(4)
    }
}

impl WriteTo for u64 {
    open spec fn encoding(self) -> Seq<u8> {
        seq![
            (self & 0xff) as u8,
            ((self >> 8) & 0xff) as u8,
            ((self >> 16) & 0xff) as u8,
            ((self >> 24) & 0xff) as u8,
            ((self >> 32) & 0xff) as u8,
            ((self >> 40) & 0xff) as u8,
            ((self >> 48) & 0xff) as u8,
            ((self >> 56) & 0xff) as u8,
        ]
    }

    fn write_to(self, w: &mut Writer) -> (res: Result<usize, HciError>) {
        w.push((self & 0xff) as u8);
        w.push(((self >> 8) & 0xff) as u8);
        w.push(((self >> 16) & 0xff) as u8);
        w.push(((self >> 24) & 0xff) as u8);
        w.push(((self >> 32) & 0xff) as u8);
        w.push(((self >> 40) & 0xff) as u8);
        w.push(((self >> 48) & 0xff) as u8);
        w.push(((self >> 56) & 0xff) as u8);
        proof {
            assert(w@ =~= old(w)@ + self.encoding());
        }
        Ok(8)
    }
}

impl WriteTo for u128 {
    open spec fn encoding(self) -> Seq<u8> {
        seq![
            (self & 0xff) as u8,
            ((self >> 8) & 0xff) as u8,
            ((self >> 16) & 0xff) as u8,
            ((self >> 24) & 0xff) as u8,
            ((self >> 32) & 0xff) as u8,
            ((self >> 40) & 0xff) as u8,
            ((self >> 48) & 0xff) as u8,
            ((self >> 56) & 0xff) as u8,
            ((self >> 64) & 0xff) as u8,
            ((self >> 72) & 0xff) as u8,
            ((self >> 80) & 0xff) as u8,
            ((self >> 88) & 0xff) as u8,
            ((self >> 96) & 0xff) as u8,
            ((self >> 104) & 0xff) as u8,
            ((self >> 112) & 0xff) as u8,
            ((self >> 120) & 0xff) as u8,
        ]
    }

    fn write_to(self, w: &mut Writer) -> (res: Result<usize, HciError>) {
        w.push((self & 0xff) as u8);
        w.push(((self >> 8) & 0xff) as u8);
        w.push(((self >> 16) & 0xff) as u8);
        w.push(((self >> 24) & 0xff) as u8);
        w.push(((self >> 32) & 0xff) as u8);
        w.push(((self >> 40) & 0xff) as u8);
        w.push(((self >> 48) & 0xff) as u8);
        w.push(((self >> 56) & 0xff) as u8);
        w.push(((self >> 64) & 0xff) as u8);
        w.push(((self >> 72) & 0xff) as u8);
        w.push(((self >> 80) & 0xff) as u8);
        w.push(((self >> 88) & 0xff) as u8);
        w.push(((self >> 96) & 0xff) as u8);
        w.push(((self >> 104) & 0xff) as u8);
        w.push(((self >> 112) & 0xff) as u8);
        w.push(((self >> 120) & 0xff) as u8);
        proof {
            assert(w@ =~= old(w)@ + self.encoding());
        }
        Ok(16)
    }
}

/// Encoding a value and decoding the bytes back yields the value again and
/// consumes exactly its width: two bytes for a 16-bit value.
pub proof fn lemma_u16_round_trip(v: u16)
    ensures
        u16::parse_spec(v.encoding()) == Ok::<(u16, int), HciError>((v, 2)),
{
    let s = v.encoding();
    assert(le_u16((v & 0xff) as u8, ((v >> 8) & 0xff) as u8) == v) by (bit_vector);
}

/// Encoding a value and decoding the bytes back yields the value again and
/// consumes exactly its width: four bytes for a 32-bit value.
pub proof fn lemma_u32_round_trip(v: u32)
    ensures
        u32::parse_spec(v.encoding()) == Ok::<(u32, int), HciError>((v, 4)),
{
    let s = v.encoding();
    assert(le_u32(
        (v & 0xff) as u8,
        ((v >> 8) & 0xff) as u8,
        ((v >> 16) & 0xff) as u8,
        ((v >> 24) & 0xff) as u8,
    ) == v) by (bit_vector);
}

/// Encoding a value and decoding the bytes back yields the value again and
/// consumes exactly its width: eight bytes for a 64-bit value.
pub proof fn lemma_u64_round_trip(v: u64)
    ensures
        u64::parse_spec(v.encoding()) == Ok::<(u64, int), HciError>((v, 8)),
{
    let s = v.encoding();
    assert(le_u64(
        (v & 0xff) as u8,
        ((v >> 8) & 0xff) as u8,
        ((v >> 16) & 0xff) as u8,
        ((v >> 24) & 0xff) as u8,
        ((v >> 32) & 0xff) as u8,
        ((v >> 40) & 0xff) as u8,
        ((v >> 48) & 0xff) as u8,
        ((v >> 56) & 0xff) as u8,
    ) == v) by (bit_vector);
}

/// Encoding a value and decoding the bytes back yields the value again and
/// consumes exactly its width: one byte for an 8-bit value.
pub proof fn lemma_u8_round_trip(v: u8)
    ensures
        u8::parse_spec(v.encoding()) == Ok::<(u8, int), HciError>((v, 1)),
{
}

} // verus!
