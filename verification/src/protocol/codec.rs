//! The codec contract: the five operations that define how a type crosses
//! the boundary, and their round-trip law.
//!
//! `lift` and `lower` convert between a value and its ABI value. `read` and
//! `write` convert between a value and its bytes in a buffer, and
//! `allocation_size` tells how many bytes `write` takes. Reading what was
//! written gives the value back and consumes exactly its bytes, so composite
//! values decode one after the other without length hints.

use vstd::prelude::*;
use crate::protocol::handle_map::{HandleError, HandleMap};
use crate::protocol::vtable_guard::VtableGuard;

verus! {

/// The eight bytes of `x`, most significant first.
pub open spec fn be_bytes(x: u64) -> Seq<u8> {
    seq![
        (x >> 56) as u8,
        ((x >> 48) & 0xff) as u8,
        ((x >> 40) & 0xff) as u8,
        ((x >> 32) & 0xff) as u8,
        ((x >> 24) & 0xff) as u8,
        ((x >> 16) & 0xff) as u8,
        ((x >> 8) & 0xff) as u8,
        (x & 0xff) as u8,
    ]
}

/// The number whose eight bytes, most significant first, open `b`.
pub open spec fn from_be_bytes(b: Seq<u8>) -> u64 {
    (b[0] as u64) << 56 | (b[1] as u64) << 48 | (b[2] as u64) << 40 | (b[3] as u64) << 32 | (
    b[4] as u64) << 24 | (b[5] as u64) << 16 | (b[6] as u64) << 8 | (b[7] as u64)
}

/// Eight bytes decode to the number that they encode.
pub proof fn lemma_be_round_trip(x: u64, rest: Seq<u8>)
    ensures
        be_bytes(x).len() == 8,
        from_be_bytes(be_bytes(x) + rest) == x,
{
    let b = be_bytes(x) + rest;
    assert(b[0] == (x >> 56) as u8);
    assert(b[1] == ((x >> 48) & 0xff) as u8);
    assert(b[2] == ((x >> 40) & 0xff) as u8);
    assert(b[3] == ((x >> 32) & 0xff) as u8);
    assert(b[4] == ((x >> 24) & 0xff) as u8);
    assert(b[5] == ((x >> 16) & 0xff) as u8);
    assert(b[6] == ((x >> 8) & 0xff) as u8);
    assert(b[7] == (x & 0xff) as u8);
    assert((((x >> 56) as u8) as u64) << 56 | ((((x >> 48) & 0xff) as u8) as u64) << 48 | ((((x
        >> 40) & 0xff) as u8) as u64) << 40 | ((((x >> 32) & 0xff) as u8) as u64) << 32 | ((((x
        >> 24) & 0xff) as u8) as u64) << 24 | ((((x >> 16) & 0xff) as u8) as u64) << 16 | ((((x
        >> 8) & 0xff) as u8) as u64) << 8 | (((x & 0xff) as u8) as u64) == x) by (bit_vector);
}

/// Appends the eight bytes of `x`, most significant first.
pub fn write_u64(x: u64, buf: &mut Vec<u8>)
    ensures
        final(buf)@ == old(buf)@ + be_bytes(x),
{
    buf.push((x >> 56) as u8);
    buf.push(((x >> 48) & 0xff) as u8);
    buf.push(((x >> 40) & 0xff) as u8);
    buf.push(((x >> 32) & 0xff) as u8);
    buf.push(((x >> 24) & 0xff) as u8);
    buf.push(((x >> 16) & 0xff) as u8);
    buf.push(((x >> 8) & 0xff) as u8);
    buf.push((x & 0xff) as u8);
    assert(buf@ =~= old(buf)@ + be_bytes(x));
}

/// Reads eight bytes at `offset`, most significant first, or nothing where
/// the buffer holds fewer.
pub fn read_u64(buf: &Vec<u8>, offset: usize) -> (r: Option<u64>)
    ensures
        r is Some <==> offset + 8 <= buf@.len(),
        r matches Some(x) ==> x == from_be_bytes(buf@.skip(offset as int)),
{
    if buf.len() < 8 || offset > buf.len() - 8 {
        return None;
    }
    let ghost b = buf@.skip(offset as int);
    assert(forall|i: int| 0 <= i < 8 ==> b[i] == buf@[offset + i]);
    let x = (buf[offset] as u64) << 56 | (buf[offset + 1] as u64) << 48 | (buf[offset + 2] as u64)
        << 40 | (buf[offset + 3] as u64) << 32 | (buf[offset + 4] as u64) << 24 | (buf[offset
        + 5] as u64) << 16 | (buf[offset + 6] as u64) << 8 | (buf[offset + 7] as u64);
    Some(x)
}

/// A type with a codec. The round-trip law is part of the contract: an
/// implementation is accepted only with its proof.
pub trait Codec: Sized {
    /// The ABI value of the type.
    type Raw;

    /// The ABI value that `self` is lowered to.
    spec fn lowered(&self) -> Self::Raw;

    /// The value that `raw` is lifted to.
    spec fn lifted(raw: Self::Raw) -> Self;

    /// The bytes that `self` is written as.
    spec fn wire(&self) -> Seq<u8>;

    /// The value at the start of `bytes` and the number of bytes that it
    /// takes, where `bytes` starts with a value.
    spec fn parsed(bytes: Seq<u8>) -> Option<(Self, nat)>;

    /// The round-trip law: lifting what was lowered gives the value back,
    /// and reading what was written gives the value back and consumes
    /// exactly its bytes, whatever follows them.
    proof fn lemma_round_trip(value: Self, rest: Seq<u8>)
        ensures
            Self::lifted(value.lowered()) == value,
            Self::parsed(value.wire() + rest) == Some((value, value.wire().len())),
            value.wire().len() <= usize::MAX,
    ;

    /// Encodes the value as its ABI value.
    fn lower(&self) -> (raw: Self::Raw)
        ensures
            raw == self.lowered(),
    ;

    /// Decodes an ABI value.
    fn lift(raw: Self::Raw) -> (value: Self)
        ensures
            value == Self::lifted(raw),
    ;

    /// The exact number of bytes that `write` takes.
    fn allocation_size(&self) -> (n: usize)
        ensures
            n == self.wire().len(),
    ;

    /// Appends the bytes of the value to `buf` and returns their number.
    fn write(&self, buf: &mut Vec<u8>) -> (n: usize)
        ensures
            final(buf)@ == old(buf)@ + self.wire(),
            n == self.wire().len(),
    ;

    /// Decodes the value that starts at `offset` and tells how many bytes it
    /// takes; nothing where no value starts there.
    fn read(buf: &Vec<u8>, offset: usize) -> (r: Option<(Self, usize)>)
        ensures
            offset > buf@.len() ==> r is None,
            offset <= buf@.len() ==> match Self::parsed(buf@.skip(offset as int)) {
                Some((value, n)) => r == Some((value, n as usize)) && offset + n <= buf@.len(),
                None => r is None,
            },
    ;
}

impl Codec for i64 {
    type Raw = i64;

    open spec fn lowered(&self) -> i64 {
        *self
    }

    open spec fn lifted(raw: i64) -> i64 {
        raw
    }

    open spec fn wire(&self) -> Seq<u8> {
        be_bytes(*self as u64)
    }

    open spec fn parsed(bytes: Seq<u8>) -> Option<(i64, nat)> {
        if bytes.len() >= 8 {
            Some((from_be_bytes(bytes) as i64, 8nat))
        } else {
            None
        }
    }

    proof fn lemma_round_trip(value: i64, rest: Seq<u8>) {
        lemma_be_round_trip(value as u64, rest);
        assert(((value as u64) as i64) == value) by (bit_vector);
    }

    fn lower(&self) -> i64 {
        *self
    }

    fn lift(raw: i64) -> i64 {
        raw
    }

    fn allocation_size(&self) -> usize {
        8
    }

    fn write(&self, buf: &mut Vec<u8>) -> usize {
        write_u64(*self as u64, buf);
        8
    }

    fn read(buf: &Vec<u8>, offset: usize) -> Option<(i64, usize)> {
        match read_u64(buf, offset) {
            Some(x) => Some((x as i64, 8)),
            None => None,
        }
    }
}

/// A custom type: a wrapper with one field, the value of its builtin type.
/// Its codec hands every operation to the builtin's codec and wraps or
/// unwraps the value around it.
#[derive(Debug)]
pub struct Custom<B> {
    pub value: B,
}

impl<B: Codec> Codec for Custom<B> {
    type Raw = B::Raw;

    open spec fn lowered(&self) -> B::Raw {
        self.value.lowered()
    }

    open spec fn lifted(raw: B::Raw) -> Custom<B> {
        Custom { value: B::lifted(raw) }
    }

    open spec fn wire(&self) -> Seq<u8> {
        self.value.wire()
    }

    open spec fn parsed(bytes: Seq<u8>) -> Option<(Custom<B>, nat)> {
        match B::parsed(bytes) {
            Some((value, n)) => Some((Custom { value }, n)),
            None => None,
        }
    }

    proof fn lemma_round_trip(value: Custom<B>, rest: Seq<u8>) {
        B::lemma_round_trip(value.value, rest);
    }

    fn lower(&self) -> B::Raw {
        self.value.lower()
    }

    fn lift(raw: B::Raw) -> Custom<B> {
        Custom { value: B::lift(raw) }
    }

    fn allocation_size(&self) -> usize {
        self.value.allocation_size()
    }

    fn write(&self, buf: &mut Vec<u8>) -> usize {
        self.value.write(buf)
    }

    fn read(buf: &Vec<u8>, offset: usize) -> Option<(Custom<B>, usize)> {
        match B::read(buf, offset) {
            Some((value, n)) => Some((Custom { value }, n)),
            None => None,
        }
    }
}

/// Lowers a value and lifts it again: the value comes back.
pub fn lower_then_lift<C: Codec>(value: &C) -> (back: C)
    ensures
        back == *value,
{
    proof {
        C::lemma_round_trip(*value, Seq::empty());
    }
    C::lift(value.lower())
}

/// Writes a value into a fresh buffer and reads it back: the value comes
/// back, and the bytes consumed are those that `allocation_size` announced.
pub fn write_then_read<C: Codec>(value: &C) -> (back: Option<(C, usize)>)
    ensures
        back == Some((*value, value.wire().len() as usize)),
{
    let mut buf: Vec<u8> = Vec::new();
    let written = value.write(&mut buf);
    proof {
        C::lemma_round_trip(*value, Seq::empty());
        assert(buf@ =~= value.wire() + Seq::<u8>::empty());
        assert(buf@.skip(0) =~= buf@);
    }
    C::read(&buf, 0)
}

/// The codec of a callback interface: objects cross the boundary as handles
/// of a handle table, and a handle takes eight bytes in a buffer.
pub struct CallbackConverter<T> {
    handles: HandleMap<T>,
    guard: VtableGuard,
}

impl<T> CallbackConverter<T> {
    /// The live handles and their objects.
    pub closed spec fn objects(&self) -> Map<u64, T> {
        self.handles@
    }

    /// True when the vtable is registered.
    pub closed spec fn registered(&self) -> bool {
        self.guard@
    }

    /// The handle that the next `lower` issues.
    pub closed spec fn next_handle(&self) -> u64 {
        self.handles.next_handle()
    }

    /// The handle table is well-formed.
    pub closed spec fn wf(&self) -> bool {
        self.handles.wf()
    }

    /// The converter of an interface of which no object has crossed the
    /// boundary yet.
    pub fn new() -> (converter: Self)
        ensures
            converter.wf(),
            converter.objects() == Map::<u64, T>::empty(),
            !converter.registered(),
    {
        CallbackConverter { handles: HandleMap::new(), guard: VtableGuard::new() }
    }

    /// The number of bytes that a handle takes in a buffer.
    pub fn allocation_size(&self) -> (n: usize)
        ensures
            n == 8,
    {
        8
    }

    /// Hands `value` to native code: registers it under a fresh handle. The
    /// second component of the answer tells whether the caller has to
    /// register the vtable first, which is so on the first call only.
    pub fn lower(&mut self, value: T) -> (r: Result<(u64, bool), HandleError>)
        requires
            old(self).wf(),
        ensures
            final(self).wf(),
            final(self).registered(),
            r is Ok <==> old(self).next_handle() < u64::MAX,
            r matches Ok((h, register)) ==> h != 0 && !old(self).objects().contains_key(h)
                && final(self).objects() == old(self).objects().insert(h, value) && register
                == !old(self).registered(),
            r matches Err(e) ==> e == HandleError::Exhausted && final(self).objects() == old(self).objects(),
    {
        let register = self.guard.ensure_initialized();
        match self.handles.insert(value) {
            Ok(h) => Ok((h, register)),
            Err(e) => Err(e),
        }
    }

    /// The object behind a handle that native code presents. An unknown
    /// handle is an error of that call.
    pub fn lift(&self, handle: u64) -> (r: Result<&T, HandleError>)
        ensures
            r is Ok <==> self.objects().contains_key(handle),
            r matches Ok(v) ==> *v == self.objects()[handle],
            r matches Err(e) ==> e == HandleError::UnknownHandle,
    {
        self.handles.get(handle)
    }

    /// Releases a handle. Releasing it again changes nothing.
    pub fn free(&mut self, handle: u64)
        requires
            old(self).wf(),
        ensures
            final(self).wf(),
            final(self).objects() == old(self).objects().remove(handle),
            final(self).registered() == old(self).registered(),
    {
        let _ = self.handles.remove(handle);
    }

    /// Lowers `value` and appends its handle to `buf`. Returns the number of
    /// bytes written, which is `allocation_size`, and whether the vtable has
    /// to be registered first.
    pub fn write(&mut self, value: T, buf: &mut Vec<u8>) -> (r: Result<(usize, bool), HandleError>)
        requires
            old(self).wf(),
        ensures
            final(self).wf(),
            final(self).registered(),
            r is Ok <==> old(self).next_handle() < u64::MAX,
            r matches Ok((n, register)) ==> n == 8 && register == !old(self).registered()
                && final(buf)@ == old(buf)@ + be_bytes(old(self).next_handle()) && final(self).objects() == old(self).objects().insert(old(self).next_handle(), value),
            r matches Err(e) ==> e == HandleError::Exhausted && final(buf)@ == old(buf)@ && final(self).objects() == old(self).objects(),
    {
        let register = self.guard.ensure_initialized();
        match self.handles.insert(value) {
            Ok(h) => {
                write_u64(h, buf);
                Ok((8, register))
            },
            Err(e) => Err(e),
        }
    }

    /// Reads the handle at `offset` and resolves its object. Returns the
    /// object and the number of bytes consumed.
    pub fn read(&self, buf: &Vec<u8>, offset: usize) -> (r: Result<(&T, usize), HandleError>)
        ensures
            r is Ok <==> offset + 8 <= buf@.len() && self.objects().contains_key(
                from_be_bytes(buf@.skip(offset as int)),
            ),
            r matches Ok((v, n)) ==> n == 8 && *v == self.objects()[from_be_bytes(
                buf@.skip(offset as int),
            )],
            r matches Err(e) ==> e == HandleError::UnknownHandle,
    {
        match read_u64(buf, offset) {
            Some(h) => match self.handles.get(h) {
                Ok(v) => Ok((v, 8)),
                Err(e) => Err(e),
            },
            None => Err(HandleError::UnknownHandle),
        }
    }
}

/// The round-trip law of a callback interface: the handle that `lower`
/// issued lifts to the object, and the bytes that `write` appended read back
/// as the object and take `allocation_size` bytes.
pub proof fn lemma_callback_round_trip<T>(objects: Map<u64, T>, handle: u64, value: T, rest: Seq<u8>)
    ensures
        objects.insert(handle, value).contains_key(handle),
        objects.insert(handle, value)[handle] == value,
        objects.insert(handle, value)[from_be_bytes(be_bytes(handle) + rest)] == value,
        be_bytes(handle).len() == 8,
{
    lemma_be_round_trip(handle, rest);
}

} // verus!
