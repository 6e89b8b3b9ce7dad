//! A fixed-capacity staging area for one line of display text.

use vstd::prelude::*;
use vstd::slice::slice_subrange;
use vstd::string::StringSliceAdditionalSpecFns;
use vstd::utf8::{partial_valid_utf8, partial_valid_utf8_extend_ascii_block, valid_utf8};

verus! {

/// Number of bytes a [`FmtBuf`] can hold.
pub const CAPACITY: usize = 64;

/// How many more bytes fit into a buffer that holds `held`.
pub open spec fn room(held: Seq<u8>) -> nat {
    if held.len() <= CAPACITY {
        (CAPACITY - held.len()) as nat
    } else {
        0
    }
}

/// What a buffer holding `held` holds after `text` is written to it: as much
/// of `text` as still fits is appended, the rest is dropped.
pub open spec fn appended(held: Seq<u8>, text: Seq<u8>) -> Seq<u8> {
    if text.len() <= room(held) {
        held + text
    } else {
        held + text.take(room(held) as int)
    }
}

/// The error of `core::str::from_utf8`. Nothing is read from it.
#[verifier::external_type_specification]
#[verifier::external_body]
pub struct ExUtf8Error(core::str::Utf8Error);

/// `core::str::from_utf8` succeeds exactly on well-formed UTF-8, and the
/// string slice it then returns is made of the very bytes it was given.
pub assume_specification[ core::str::from_utf8 ](v: &[u8]) -> (r: Result<
    &str,
    core::str::Utf8Error,
>)
    ensures
        r is Ok <==> valid_utf8(v@),
        r matches Ok(s) ==> s.spec_bytes() == v@,
;

/// An append-only byte buffer of [`CAPACITY`] bytes with a write cursor.
///
/// Writing never fails: what does not fit is silently dropped. Resetting
/// moves the cursor back to the start and leaves the memory as it is.
pub struct FmtBuf {
    buf: [u8; 64],
    ptr: usize,
}

impl View for FmtBuf {
    type V = Seq<u8>;

    /// The bytes written since the last reset, in order.
    closed spec fn view(&self) -> Seq<u8> {
        self.buf@.take(self.ptr as int)
    }
}

impl FmtBuf {
    #[verifier::type_invariant]
    spec fn inv(self) -> bool {
        self.ptr <= CAPACITY
    }

    /// All [`CAPACITY`] bytes of the buffer's memory: those held, and behind
    /// them whatever earlier writes left there.
    pub closed spec fn memory(&self) -> Seq<u8> {
        self.buf@
    }

    /// An empty buffer, its memory zeroed.
    pub fn new() -> (buf: Self)
        ensures
            buf@ == Seq::<u8>::empty(),
            buf.memory() == Seq::new(CAPACITY as nat, |i: int| 0u8),
    {
        let buf = Self { buf: [0; 64], ptr: 0 };
        assert(buf.buf@ =~= Seq::new(CAPACITY as nat, |i: int| 0u8));
        buf
    }

    /// Forgets what was written. Only the cursor moves: the memory is left
    /// as it is.
    pub fn reset(&mut self)
        ensures
            final(self)@ == Seq::<u8>::empty(),
            final(self).memory() == old(self).memory(),
    {
        self.ptr = 0;
    }

    /// The bytes held.
    pub fn as_bytes(&self) -> (bytes: &[u8])
        ensures
            bytes@ == self@,
            bytes@.len() <= CAPACITY,
    {
        proof {
            use_type_invariant(self);
        }
        slice_subrange(self.buf.as_slice(), 0, self.ptr)
    }

    /// The bytes held, as text, where they are text.
    pub fn text(&self) -> (text: Option<&str>)
        ensures
            text is Some <==> valid_utf8(self@),
            text matches Some(t) ==> t.spec_bytes() == self@,
    {
        match core::str::from_utf8(self.as_bytes()) {
            Ok(text) => Some(text),
            Err(_) => None,
        }
    }

    /// The bytes held, as text.
    pub fn as_str(&self) -> (text: &str)
        requires
            valid_utf8(self@),
        ensures
            text.spec_bytes() == self@,
    {
        core::str::from_utf8(self.as_bytes()).unwrap()
    }

    /// Appends as much of `bytes` as still fits. The memory behind what is
    /// then held is left as it is.
    pub(crate) fn write_bytes(&mut self, bytes: &[u8])
        ensures
            final(self)@ == appended(old(self)@, bytes@),
            final(self)@.len() <= CAPACITY,
            final(self).memory() == final(self)@ + old(self).memory().skip(
                final(self)@.len() as int,
            ),
    {
        proof {
            use_type_invariant(&*self);
        }
        let rest_len: usize = 64 - self.ptr;
        let len: usize = if rest_len < bytes.len() {
            rest_len
        } else {
            bytes.len()
        };
        let mut i: usize = 0;
        while i < len
            invariant
                i <= len,
                len <= bytes@.len(),
                self.ptr == old(self).ptr,
                self.ptr + len <= CAPACITY,
                self.buf@.take(self.ptr + i) == old(self)@ + bytes@.take(i as int),
                self.buf@.skip(self.ptr + i) == old(self).buf@.skip(self.ptr + i),
            decreases len - i,
        {
            let ghost before = self.buf@;
            self.buf[self.ptr + i] = bytes[i];
            i += 1;
            assert(self.buf@.take(self.ptr + i) =~= before.take(self.ptr + i - 1).push(
                bytes@[i - 1],
            ));
            assert(bytes@.take(i as int) =~= bytes@.take(i - 1).push(bytes@[i - 1]));
            assert(self.buf@.skip(self.ptr + i) =~= before.skip(self.ptr + i - 1).skip(1));
            assert(old(self).buf@.skip(self.ptr + i) =~= old(self).buf@.skip(self.ptr + i - 1).skip(
                1,
            ));
        }
        self.ptr += len;
        assert(self.buf@ =~= self.buf@.take(self.ptr as int) + self.buf@.skip(self.ptr as int));
    }

    /// Appends as much of `s` as still fits. What does not fit is dropped
    /// without notice, even where that splits a character. The memory behind
    /// what is then held is left as it is.
    pub fn write_str(&mut self, s: &str)
        ensures
            final(self)@ == appended(old(self)@, s.spec_bytes()),
            final(self)@.len() <= CAPACITY,
            final(self).memory() == final(self)@ + old(self).memory().skip(
                final(self)@.len() as int,
            ),
    {
        self.write_bytes(s.as_bytes())
    }
}

/// What a fresh buffer holds after the texts of `writes` are written to it
/// one after the other.
pub open spec fn written(writes: Seq<Seq<u8>>) -> Seq<u8>
    decreases writes.len(),
{
    if writes.len() == 0 {
        Seq::empty()
    } else {
        appended(written(writes.drop_last()), writes.last())
    }
}

/// The texts of `writes` joined end to end.
pub open spec fn joined(writes: Seq<Seq<u8>>) -> Seq<u8>
    decreases writes.len(),
{
    if writes.len() == 0 {
        Seq::empty()
    } else {
        joined(writes.drop_last()) + writes.last()
    }
}

/// Whatever is written, and in however many pieces, the buffer never holds
/// more than [`CAPACITY`] bytes, and what it holds is the start of all that
/// was written: everything while it fits, the first [`CAPACITY`] bytes once it
/// does not.
pub proof fn lemma_writes_keep_the_first_bytes(writes: Seq<Seq<u8>>)
    ensures
        written(writes).len() <= CAPACITY,
        joined(writes).len() <= CAPACITY ==> written(writes) == joined(writes),
        joined(writes).len() > CAPACITY ==> written(writes) == joined(writes).take(CAPACITY as int),
    decreases writes.len(),
{
    if writes.len() > 0 {
        let earlier = writes.drop_last();
        lemma_writes_keep_the_first_bytes(earlier);
        let held = written(earlier);
        let text = writes.last();
        if joined(earlier).len() > CAPACITY {
            assert(text.take(0) =~= Seq::<u8>::empty());
            assert(held + Seq::<u8>::empty() =~= held);
            assert(joined(writes).take(CAPACITY as int) =~= joined(earlier).take(CAPACITY as int));
        } else if joined(writes).len() > CAPACITY {
            assert(joined(writes).take(CAPACITY as int) =~= held + text.take(
                CAPACITY - held.len(),
            ));
        }
    }
}

/// Writing two texts one after the other leaves what writing them joined
/// as one text leaves.
pub proof fn lemma_appended_twice(held: Seq<u8>, first: Seq<u8>, second: Seq<u8>)
    ensures
        appended(appended(held, first), second) == appended(held, first + second),
{
    let both = first + second;
    if first.len() <= room(held) {
        if second.len() <= room(held + first) {
            assert((held + first) + second =~= held + both);
        } else {
            assert((held + first) + second.take(room(held + first) as int) =~= held + both.take(
                room(held) as int,
            ));
        }
    } else {
        let kept = first.take(room(held) as int);
        assert(second.take(0) =~= Seq::<u8>::empty());
        assert((held + kept) + Seq::<u8>::empty() =~= held + kept);
        assert(both.take(room(held) as int) =~= kept);
        if second.len() == 0 {
            assert((held + kept) + second =~= held + kept);
        }
    }
}

/// One write of more than [`CAPACITY`] bytes to an empty buffer leaves
/// exactly its first [`CAPACITY`] bytes there.
pub proof fn lemma_long_write_is_cut(text: Seq<u8>)
    requires
        text.len() > CAPACITY,
    ensures
        appended(Seq::empty(), text) == text.take(CAPACITY as int),
{
    assert(Seq::<u8>::empty() + text.take(CAPACITY as int) =~= text.take(CAPACITY as int));
}

/// Bytes that are all ASCII characters are well-formed UTF-8.
pub proof fn lemma_ascii_is_text(bytes: Seq<u8>)
    requires
        forall|i: int| 0 <= i < bytes.len() ==> bytes[i] <= 0x7f,
    ensures
        valid_utf8(bytes),
{
    assert(bytes.subrange(0, 0) =~= Seq::<u8>::empty());
    assert(partial_valid_utf8(bytes, 0));
    partial_valid_utf8_extend_ascii_block(bytes, 0, bytes.len() as int);
    assert(bytes.subrange(0, bytes.len() as int) =~= bytes);
}

} // verus!
