use vstd::prelude::*;
use vstd::slice::slice_subrange;
use vstd::string::StringSliceAdditionalSpecFns;
use vstd::utf8::{decode_utf8, encode_utf8, valid_utf8};

verus! {

broadcast use vstd::utf8::encode_utf8_valid_utf8, vstd::utf8::encode_utf8_decode_utf8,
    vstd::utf8::decode_utf8_encode_utf8, vstd::utf8::valid_utf8_concat;

/// Encoding a concatenation gives the concatenation of the encodings.
pub proof fn lemma_encode_utf8_concat(a: Seq<char>, b: Seq<char>)
    ensures
        encode_utf8(a + b) == encode_utf8(a) + encode_utf8(b),
    decreases a.len(),
{
    if a.len() == 0 {
        assert(a + b =~= b);
        assert(encode_utf8(a) =~= Seq::<u8>::empty());
        assert(encode_utf8(a) + encode_utf8(b) =~= encode_utf8(b));
    } else {
        assert((a + b).drop_first() =~= a.drop_first() + b);
        assert((a + b)[0] == a[0]);
        lemma_encode_utf8_concat(a.drop_first(), b);
        assert(encode_utf8(a + b) =~= encode_utf8(a) + encode_utf8(b));
    }
}

/// Relies on `std::str::from_utf8`: a byte slice that is valid UTF-8 is
/// accepted, and the resulting `str` has exactly those bytes.
#[verifier::external_body]
fn utf8_text(b: &[u8]) -> (r: Option<&str>)
    ensures
        valid_utf8(b@) <==> r is Some,
        r matches Some(s) ==> s.spec_bytes() == b@,
{
    std::str::from_utf8(b).ok()
}

/// A string held in a buffer of `N` bytes, with no heap allocation.
#[derive(Debug, Clone, Copy)]
pub struct ConstString<const N: usize> {
    data: [u8; N],
    len: usize,
}

impl<const N: usize> View for ConstString<N> {
    type V = Seq<char>;

    /// The text held.
    closed spec fn view(&self) -> Seq<char> {
        decode_utf8(self.bytes())
    }
}

impl<const N: usize> ConstString<N> {
    /// The whole buffer, used and unused bytes alike.
    pub closed spec fn buffer(&self) -> Seq<u8> {
        self.data@
    }

    /// The bytes in use: the UTF-8 encoding of the text.
    pub closed spec fn bytes(&self) -> Seq<u8> {
        self.data@.subrange(0, self.len as int)
    }

    /// The bytes in use fit the buffer and form valid UTF-8.
    pub closed spec fn wf(&self) -> bool {
        &&& self.len <= N
        &&& valid_utf8(self.bytes())
    }

    /// This value is what appending the bytes `s` to `prev` leaves: the bytes
    /// in use are those of `prev` followed by `s`, and the rest of the buffer
    /// is as it was in `prev`.
    pub open spec fn appended_from(&self, prev: Self, s: Seq<u8>) -> bool {
        &&& self.bytes() == prev.bytes() + s
        &&& self.buffer() == prev.bytes() + s + prev.buffer().subrange(
            (prev.bytes().len() + s.len()) as int,
            N as int,
        )
    }

    /// Appending `a` and then `b` leaves the same value as appending `a`
    /// followed by `b` in one go.
    pub proof fn lemma_appends_compose(
        x0: Self,
        x1: Self,
        x2: Self,
        y1: Self,
        a: Seq<u8>,
        b: Seq<u8>,
    )
        requires
            x0.wf(),
            x1.wf(),
            x2.wf(),
            y1.wf(),
            x1.appended_from(x0, a),
            x2.appended_from(x1, b),
            y1.appended_from(x0, a + b),
        ensures
            x2 == y1,
    {
        broadcast use vstd::array::axiom_array_ext_equal, vstd::array::array_len_matches_n;

        let k = (x0.bytes().len() + a.len()) as int;
        assert(x1.buffer().subrange(k + b.len(), N as int) =~= x0.buffer().subrange(
            k + b.len(),
            N as int,
        ));
        assert(x2.buffer() =~= y1.buffer());
        assert(x2.data =~= y1.data);
    }

    /// An empty string over a zero-filled buffer.
    pub fn new() -> (r: Self)
        ensures
            r.wf(),
            r@ == Seq::<char>::empty(),
            r.bytes() == Seq::<u8>::empty(),
            r.buffer() == Seq::new(N as nat, |i: int| 0u8),
    {
        let r = ConstString { data: [0u8; N], len: 0 };
        assert(r.bytes() =~= Seq::<u8>::empty());
        assert(r.buffer() =~= Seq::new(N as nat, |i: int| 0u8));
        r
    }

    /// Appends `s` when its bytes fit in what is left of the buffer; otherwise
    /// leaves the string as it was and reports that `s` is too long.
    pub fn push_str(&mut self, s: &str) -> (r: Result<(), &'static str>)
        requires
            old(self).wf(),
        ensures
            final(self).wf(),
            r is Ok <==> old(self).bytes().len() + s.spec_bytes().len() <= N,
            r is Ok ==> final(self).bytes() == old(self).bytes() + s.spec_bytes(),
            r is Ok ==> final(self)@ == old(self)@ + s@,
            r is Ok ==> final(self).appended_from(*old(self), s.spec_bytes()),
            r matches Err(e) ==> *final(self) == *old(self) && e@ == "String too long for buffer"@,
    {
        let bytes = s.as_bytes();
        if bytes.len() > N - self.len {
            return Err("String too long for buffer");
        }
        proof {
            vstd::utf8::is_char_boundary_start_end_of_seq(s.spec_bytes());
        }
        if !s.is_char_boundary(0) {
            return Err("Invalid UTF-8 sequence");
        }
        let ghost before = self.bytes();
        let ghost buf_before = self.buffer();
        let ghost text_before = self@;
        let start = self.len;
        let mut i: usize = 0;
        while i < bytes.len()
            invariant
                self.len == start,
                start + bytes@.len() <= N,
                i <= bytes@.len(),
                self.data@.subrange(0, start as int) == before,
                self.data@.subrange(start as int, start + i) == bytes@.subrange(0, i as int),
                self.data@.len() == N,
                buf_before.len() == N,
                self.data@.subrange(start + i, N as int) == buf_before.subrange(start + i, N as int),
            decreases bytes@.len() - i,
        {
            let ghost prev = self.data@;
            self.data[start + i] = bytes[i];
            assert(self.data@.subrange(0, start as int) =~= prev.subrange(0, start as int));
            assert(self.data@.subrange(start as int, start + i + 1) =~= bytes@.subrange(0, i + 1));
            assert forall|j: int| start + i + 1 <= j < N implies self.data@[j] == buf_before[j] by {
                assert(prev.subrange(start + i, N as int)[j - start - i] == prev[j]);
                assert(buf_before.subrange(start + i, N as int)[j - start - i] == buf_before[j]);
            }
            assert(self.data@.subrange(start + i + 1, N as int) =~= buf_before.subrange(
                start + i + 1,
                N as int,
            ));
            i = i + 1;
        }
        self.len = start + bytes.len();
        proof {
            assert(bytes@.subrange(0, bytes@.len() as int) =~= bytes@);
            assert(self.bytes() =~= before + bytes@);
            assert(self.data@ =~= self.data@.subrange(0, self.len as int) + self.data@.subrange(
                self.len as int,
                N as int,
            ));
            lemma_encode_utf8_concat(text_before, s@);
        }
        Ok(())
    }

    /// The text held, as a string slice over the bytes in use.
    pub fn as_str(&self) -> (r: &str)
        requires
            self.wf(),
        ensures
            r@ == self@,
            r.spec_bytes() == self.bytes(),
    {
        let used = slice_subrange(self.data.as_slice(), 0, self.len);
        match utf8_text(used) {
            Some(t) => t,
            None => {
                assert(false);
                ""
            },
        }
    }
}

} // verus!
