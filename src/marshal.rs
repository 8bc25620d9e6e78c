use vstd::prelude::*;
use vstd::utf8::{decode_utf8, encode_utf8, valid_utf8};
use num_complex::Complex;
use crate::complex::pairs_of;
use crate::context::{flag_after, readable, refused_before_read, DSSContext};
use crate::error::{fails_with, DSSError, ErrorKind};

verus! {

/// The complex values a float buffer holds, as (real, imaginary) pairs, or
/// `None` where the buffer cannot hold complex values. A buffer of exactly one
/// element is the engine's way of saying "no data".
pub open spec fn decode_complex<T>(buf: Seq<T>) -> Option<Seq<(T, T)>> {
    if buf.len() == 1 {
        Some(Seq::empty())
    } else if buf.len() % 2 == 0 {
        Some(Seq::new(buf.len() / 2, |i: int| (buf[2 * i], buf[2 * i + 1])))
    } else {
        None
    }
}

/// What decoding `buf` as complex values gave: the pairs of `decode_complex`,
/// or a marshaling error where it has none.
pub open spec fn complex_outcome<T>(buf: Seq<T>, r: Result<Vec<Complex<T>>, DSSError>) -> bool {
    match r {
        Ok(v) => decode_complex(buf) == Some(pairs_of(v@)) && v@.len() == (if buf.len() == 1 {
            0
        } else {
            buf.len() / 2
        }),
        Err(e) => decode_complex(buf) is None && e.kind == ErrorKind::Marshaling,
    }
}

/// What decoding `buf` as one complex value gave: its two elements, or a
/// marshaling error where it does not hold exactly two.
pub open spec fn complex_scalar_outcome<T>(buf: Seq<T>, r: Result<Complex<T>, DSSError>) -> bool {
    match r {
        Ok(c) => buf.len() == 2 && c.re == buf[0] && c.im == buf[1],
        Err(e) => buf.len() != 2 && e.kind == ErrorKind::Marshaling,
    }
}

/// `texts` are the texts that the byte strings `bytes` read as, in order.
pub open spec fn texts_match(bytes: Seq<Vec<u8>>, texts: Seq<String>) -> bool {
    texts.len() == bytes.len() && forall|i: int|
        0 <= i < bytes.len() ==> #[trigger] texts[i]@ == text_of(bytes[i]@)
}

/// What `String::from_utf8_lossy` makes of bytes that are not valid UTF-8.
pub uninterp spec fn lossy_text(b: Seq<u8>) -> Seq<char>;

/// The text a byte string reads as: its UTF-8 decoding where it is valid UTF-8,
/// with replacement characters otherwise.
pub open spec fn text_of(b: Seq<u8>) -> Seq<char> {
    if valid_utf8(b) {
        decode_utf8(b)
    } else {
        lossy_text(b)
    }
}

/// The null-terminated byte string handed to the engine for a text.
pub open spec fn c_text(s: Seq<char>) -> Seq<u8> {
    encode_utf8(s).push(0u8)
}

/// A text can cross the boundary only if its bytes hold no NUL.
pub open spec fn passable(s: Seq<char>) -> bool {
    !encode_utf8(s).contains(0u8)
}

/// The bytes of a null-terminated string: everything before its first NUL.
pub open spec fn c_content(b: Seq<u8>) -> Seq<u8>
    decreases b.len(),
{
    if b.len() == 0 || b[0] == 0 {
        Seq::empty()
    } else {
        seq![b[0]] + c_content(b.drop_first())
    }
}

/// Relies on `String::from_utf8_lossy`: valid UTF-8 comes back as the text it
/// encodes, and other bytes are replaced as a function of the bytes alone.
#[verifier::external_body]
fn text_from_bytes(b: &[u8]) -> (r: String)
    ensures
        valid_utf8(b@) ==> r@ == decode_utf8(b@),
        !valid_utf8(b@) ==> r@ == lossy_text(b@),
{
    String::from_utf8_lossy(b).into_owned()
}

/// Copies a slice into an owned vector.
fn snapshot<T: Copy>(data: &[T]) -> (r: Vec<T>)
    ensures
        r@ == data@,
{
    let mut out: Vec<T> = Vec::with_capacity(data.len());
    let mut i: usize = 0;
    while i < data.len()
        invariant
            i <= data.len(),
            out@ == data@.subrange(0, i as int),
        decreases data.len() - i,
    {
        out.push(data[i]);
        i = i + 1;
    }
    out
}

/// Decodes the float buffer as complex values, pairing elements `2i` and
/// `2i + 1` as real and imaginary parts. One element means no data; any
/// other odd length is refused.
fn complex_values<T: Copy>(data: &[T]) -> (r: Result<Vec<Complex<T>>, DSSError>)
    ensures
        r is Ok <==> decode_complex(data@) is Some,
        r matches Ok(v) ==> decode_complex(data@) == Some(pairs_of(v@)),
        r matches Ok(v) ==> v@.len() == (if data@.len() == 1 {
            0
        } else {
            data@.len() / 2
        }),
        r is Err ==> fails_with(r, ErrorKind::Marshaling),
{
    let n = data.len();
    let mut out: Vec<Complex<T>> = Vec::new();
    if n == 1 {
        proof {
            assert(pairs_of(out@) =~= Seq::<(T, T)>::empty());
        }
        return Ok(out);
    }
    if n % 2 != 0 {
        return Err(DSSError::raised(ErrorKind::Marshaling, "Odd element count for complex data"));
    }
    let half = n / 2;
    let ghost expect = Seq::new(data@.len() / 2, |i: int| (data@[2 * i], data@[2 * i + 1]));
    let mut k: usize = 0;
    while k < half
        invariant
            n == data.len(),
            half == n / 2,
            n % 2 == 0,
            k <= half,
            expect == Seq::new(data@.len() / 2, |i: int| (data@[2 * i], data@[2 * i + 1])),
            pairs_of(out@) =~= expect.subrange(0, k as int),
        decreases half - k,
    {
        let c = Complex::new(data[2 * k], data[2 * k + 1]);
        let ghost before = out@;
        out.push(c);
        proof {
            assert(out@ =~= before.push(c));
            assert(pairs_of(out@) =~= pairs_of(before).push((c.re, c.im)));
            assert(expect[k as int] == (c.re, c.im));
            assert(expect.subrange(0, k + 1) =~= expect.subrange(0, k as int).push(
                expect[k as int],
            ));
        }
        k = k + 1;
    }
    proof {
        assert(expect.subrange(0, half as int) =~= expect);
    }
    Ok(out)
}

/// Decodes the float buffer as one complex value; exactly two elements are
/// required.
fn complex_value<T: Copy>(data: &[T]) -> (r: Result<Complex<T>, DSSError>)
    ensures
        r is Ok <==> data@.len() == 2,
        r matches Ok(c) ==> c.re == data@[0] && c.im == data@[1],
        r is Err ==> fails_with(r, ErrorKind::Marshaling),
{
    if data.len() != 2 {
        return Err(DSSError::raised(ErrorKind::Marshaling, "Got invalid data for a complex number"));
    }
    Ok(Complex::new(data[0], data[1]))
}

/// Owned texts from the bytes of the engine's null-terminated strings
/// (each without its terminator), in the engine's order.
fn texts_from(data: &[Vec<u8>]) -> (r: Vec<String>)
    ensures
        r@.len() == data@.len(),
        forall|i: int| 0 <= i < data@.len() ==> #[trigger] r@[i]@ == text_of(data@[i]@),
{
    let mut out: Vec<String> = Vec::with_capacity(data.len());
    let mut i: usize = 0;
    while i < data.len()
        invariant
            i <= data.len(),
            out@.len() == i,
            forall|j: int| 0 <= j < i ==> #[trigger] out@[j]@ == text_of(data@[j]@),
        decreases data.len() - i,
    {
        let s = text_from_bytes(data[i].as_slice());
        out.push(s);
        i = i + 1;
    }
    out
}

impl DSSContext {
    /// Turns an element count that the engine reported for a buffer at
    /// address `data` into the number of elements that may be read there.
    /// A negative count, or elements claimed at a null address, is refused.
    pub fn checked_len(count: i32, data: usize) -> (r: Result<usize, DSSError>)
        ensures
            r is Ok <==> (count >= 0 && (count > 0 ==> data != 0)),
            r matches Ok(n) ==> n == count,
            r is Err ==> fails_with(r, ErrorKind::Marshaling),
    {
        if count < 0 {
            Err(DSSError::raised(ErrorKind::Marshaling, "Negative element count in result buffer"))
        } else if count > 0 && data == 0 {
            Err(DSSError::raised(ErrorKind::Marshaling, "Null data in a non-empty result buffer"))
        } else {
            Ok(count as usize)
        }
    }

    /// The checks that come before reading a result buffer after an engine
    /// call: the error flag is consumed first, then the element count the
    /// engine reported for the buffer at address `data` is validated. `Ok`
    /// gives the number of elements that may be read.
    pub fn checked_read(&self, flag: &mut i32, description: String, count: i32, data: usize) -> (r:
        Result<usize, DSSError>)
        ensures
            !readable(self.state(), *old(flag), count, data) ==> refused_before_read(
                self.state(),
                *old(flag),
                description@,
                r,
            ),
            readable(self.state(), *old(flag), count, data) ==> r == Ok::<usize, DSSError>(
                count as usize,
            ),
            *final(flag) == flag_after(self.state(), *old(flag)),
    {
        self.DSSError(flag, description)?;
        DSSContext::checked_len(count, data)
    }

    /// Runs the checks, then `read` with the element count, and only then.
    fn fetch<R, F: FnOnce(usize) -> R>(
        &self,
        flag: &mut i32,
        description: String,
        count: i32,
        data: usize,
        read: F,
    ) -> (r: Result<R, DSSError>)
        requires
            readable(self.state(), *old(flag), count, data) ==> read.requires((count as usize,)),
        ensures
            !readable(self.state(), *old(flag), count, data) ==> refused_before_read(
                self.state(),
                *old(flag),
                description@,
                r,
            ),
            readable(self.state(), *old(flag), count, data) ==> r is Ok && read.ensures(
                (count as usize,),
                r->Ok_0,
            ),
            *final(flag) == flag_after(self.state(), *old(flag)),
    {
        let n = self.checked_read(flag, description, count, data)?;
        Ok(read(n))
    }

    /// Owned copy of the float buffer after an engine call. `flag` is the
    /// handle's error flag and `description` the engine's text for it; `count`
    /// and `data` are what the engine reported for the buffer, and `read` views
    /// that many elements of it. The buffer is read only once the checks pass.
    pub fn GetFloat64ArrayGR<'a, T: Copy + 'a, F: FnOnce(usize) -> &'a [T]>(
        &self,
        flag: &mut i32,
        description: String,
        count: i32,
        data: usize,
        read: F,
    ) -> (r: Result<Vec<T>, DSSError>)
        requires
            readable(self.state(), *old(flag), count, data) ==> read.requires((count as usize,)),
        ensures
            !readable(self.state(), *old(flag), count, data) ==> refused_before_read(
                self.state(),
                *old(flag),
                description@,
                r,
            ),
            readable(self.state(), *old(flag), count, data) ==> exists|s: &[T]|
                #[trigger] read.ensures((count as usize,), s) && r is Ok && r->Ok_0@ == s@,
            *final(flag) == flag_after(self.state(), *old(flag)),
    {
        let s = self.fetch(flag, description, count, data, read)?;
        Ok(snapshot(s))
    }

    /// Owned copy of the integer buffer after an engine call; see
    /// `GetFloat64ArrayGR` for the parameters.
    pub fn GetInt32ArrayGR<'a, F: FnOnce(usize) -> &'a [i32]>(
        &self,
        flag: &mut i32,
        description: String,
        count: i32,
        data: usize,
        read: F,
    ) -> (r: Result<Vec<i32>, DSSError>)
        requires
            readable(self.state(), *old(flag), count, data) ==> read.requires((count as usize,)),
        ensures
            !readable(self.state(), *old(flag), count, data) ==> refused_before_read(
                self.state(),
                *old(flag),
                description@,
                r,
            ),
            readable(self.state(), *old(flag), count, data) ==> exists|s: &[i32]|
                #[trigger] read.ensures((count as usize,), s) && r is Ok && r->Ok_0@ == s@,
            *final(flag) == flag_after(self.state(), *old(flag)),
    {
        let s = self.fetch(flag, description, count, data, read)?;
        Ok(snapshot(s))
    }

    /// Owned copy of the byte buffer, an opaque binary blob, after an engine
    /// call; see `GetFloat64ArrayGR` for the parameters.
    pub fn GetInt8ArrayGR<'a, F: FnOnce(usize) -> &'a [i8]>(
        &self,
        flag: &mut i32,
        description: String,
        count: i32,
        data: usize,
        read: F,
    ) -> (r: Result<Vec<i8>, DSSError>)
        requires
            readable(self.state(), *old(flag), count, data) ==> read.requires((count as usize,)),
        ensures
            !readable(self.state(), *old(flag), count, data) ==> refused_before_read(
                self.state(),
                *old(flag),
                description@,
                r,
            ),
            readable(self.state(), *old(flag), count, data) ==> exists|s: &[i8]|
                #[trigger] read.ensures((count as usize,), s) && r is Ok && r->Ok_0@ == s@,
            *final(flag) == flag_after(self.state(), *old(flag)),
    {
        let s = self.fetch(flag, description, count, data, read)?;
        Ok(snapshot(s))
    }

    /// The float buffer decoded as complex values after an engine call,
    /// elements `2i` and `2i + 1` being real and imaginary parts. One element
    /// means no data; any other odd length is refused. See `GetFloat64ArrayGR`
    /// for the parameters.
    pub fn GetComplexArrayGR<'a, T: Copy + 'a, F: FnOnce(usize) -> &'a [T]>(
        &self,
        flag: &mut i32,
        description: String,
        count: i32,
        data: usize,
        read: F,
    ) -> (r: Result<Vec<Complex<T>>, DSSError>)
        requires
            readable(self.state(), *old(flag), count, data) ==> read.requires((count as usize,)),
        ensures
            !readable(self.state(), *old(flag), count, data) ==> refused_before_read(
                self.state(),
                *old(flag),
                description@,
                r,
            ),
            readable(self.state(), *old(flag), count, data) ==> exists|s: &[T]|
                #[trigger] read.ensures((count as usize,), s) && complex_outcome(s@, r),
            *final(flag) == flag_after(self.state(), *old(flag)),
    {
        let s = self.fetch(flag, description, count, data, read)?;
        complex_values(s)
    }

    /// The float buffer decoded as one complex value after an engine call;
    /// exactly two elements are required. See `GetFloat64ArrayGR` for the
    /// parameters.
    pub fn GetComplexSimpleGR<'a, T: Copy + 'a, F: FnOnce(usize) -> &'a [T]>(
        &self,
        flag: &mut i32,
        description: String,
        count: i32,
        data: usize,
        read: F,
    ) -> (r: Result<Complex<T>, DSSError>)
        requires
            readable(self.state(), *old(flag), count, data) ==> read.requires((count as usize,)),
        ensures
            !readable(self.state(), *old(flag), count, data) ==> refused_before_read(
                self.state(),
                *old(flag),
                description@,
                r,
            ),
            readable(self.state(), *old(flag), count, data) ==> exists|s: &[T]|
                #[trigger] read.ensures((count as usize,), s) && complex_scalar_outcome(s@, r),
            *final(flag) == flag_after(self.state(), *old(flag)),
    {
        let s = self.fetch(flag, description, count, data, read)?;
        complex_value(s)
    }

    /// Owned texts after an engine call that returned `count` strings at
    /// address `data`, in the engine's order. `read` gives the bytes of that
    /// many null-terminated strings, each without its terminator; it runs only
    /// once the checks pass. See `GetFloat64ArrayGR` for the other parameters.
    pub fn GetStringArray<F: FnOnce(usize) -> Vec<Vec<u8>>>(
        &self,
        flag: &mut i32,
        description: String,
        count: i32,
        data: usize,
        read: F,
    ) -> (r: Result<Vec<String>, DSSError>)
        requires
            readable(self.state(), *old(flag), count, data) ==> read.requires((count as usize,)),
        ensures
            !readable(self.state(), *old(flag), count, data) ==> refused_before_read(
                self.state(),
                *old(flag),
                description@,
                r,
            ),
            readable(self.state(), *old(flag), count, data) ==> exists|b: Vec<Vec<u8>>|
                #[trigger] read.ensures((count as usize,), b) && r is Ok && texts_match(
                    b@,
                    r->Ok_0@,
                ),
            *final(flag) == flag_after(self.state(), *old(flag)),
    {
        let b = self.fetch(flag, description, count, data, read)?;
        Ok(texts_from(b.as_slice()))
    }

    /// Null-terminated byte strings for a sequence of texts, in order, ready to
    /// be pointed at for the length of one engine call. A text whose bytes hold
    /// a NUL cannot be passed and is refused.
    pub fn PrepareStringArray(values: &[String]) -> (r: Result<Vec<Vec<u8>>, DSSError>)
        ensures
            r is Ok <==> forall|i: int| 0 <= i < values@.len() ==> passable(#[trigger] values@[i]@),
            r matches Ok(v) ==> v@.len() == values@.len() && forall|i: int|
                0 <= i < values@.len() ==> #[trigger] v@[i]@ == c_text(values@[i]@),
            r is Err ==> fails_with(r, ErrorKind::Marshaling),
    {
        let mut out: Vec<Vec<u8>> = Vec::with_capacity(values.len());
        let mut i: usize = 0;
        while i < values.len()
            invariant
                i <= values.len(),
                out@.len() == i,
                forall|j: int| 0 <= j < i ==> passable(#[trigger] values@[j]@),
                forall|j: int| 0 <= j < i ==> #[trigger] out@[j]@ == c_text(values@[j]@),
            decreases values.len() - i,
        {
            let bytes = values[i].as_str().as_bytes();
            let mut c: Vec<u8> = Vec::new();
            let mut k: usize = 0;
            while k < bytes.len()
                invariant
                    i < values@.len(),
                    k <= bytes.len(),
                    bytes@ == encode_utf8(values@[i as int]@),
                    c@ == bytes@.subrange(0, k as int),
                    !bytes@.subrange(0, k as int).contains(0u8),
                decreases bytes.len() - k,
            {
                if bytes[k] == 0 {
                    proof {
                        assert(bytes@[k as int] == 0u8);
                        assert(encode_utf8(values@[i as int]@).contains(0u8));
                        assert(!passable(values@[i as int]@));
                    }
                    return Err(DSSError::raised(ErrorKind::Marshaling, "Text holds a NUL byte"));
                }
                c.push(bytes[k]);
                k = k + 1;
                proof {
                    assert(bytes@.subrange(0, k as int) =~= bytes@.subrange(0, k - 1) .push(bytes@[k - 1]));
                }
            }
            proof {
                assert(bytes@.subrange(0, k as int) =~= bytes@);
            }
            c.push(0u8);
            out.push(c);
            i = i + 1;
        }
        Ok(out)
    }
}

/// A NUL-free byte string followed by its terminator reads back as itself.
pub proof fn lemma_c_content_of_terminated(b: Seq<u8>)
    requires
        !b.contains(0u8),
    ensures
        c_content(b.push(0u8)) == b,
    decreases b.len(),
{
    if b.len() == 0 {
        assert(b.push(0u8)[0] == 0u8);
    } else {
        assert(b[0] != 0u8) by {
            if b[0] == 0u8 {
                assert(b.contains(0u8));
            }
        }
        let rest = b.drop_first();
        assert(!rest.contains(0u8)) by {
            if rest.contains(0u8) {
                let j = choose|j: int| 0 <= j < rest.len() && rest[j] == 0u8;
                assert(b[j + 1] == 0u8);
            }
        }
        lemma_c_content_of_terminated(rest);
        assert(b.push(0u8).drop_first() =~= rest.push(0u8));
        assert(seq![b[0]] + rest =~= b);
    }
}

/// Texts passed in as null-terminated strings and read back from those strings
/// come back the same, in the same order.
pub proof fn lemma_text_array_round_trip(values: Seq<Seq<char>>)
    requires
        forall|i: int| 0 <= i < values.len() ==> passable(#[trigger] values[i]),
    ensures
        values.map_values(|s: Seq<char>| text_of(c_content(c_text(s)))) == values,
{
    assert forall|i: int| 0 <= i < values.len() implies #[trigger] text_of(
        c_content(c_text(values[i])),
    ) == values[i] by {
        let s = values[i];
        assert(passable(s));
        lemma_c_content_of_terminated(encode_utf8(s));
        vstd::utf8::encode_utf8_valid_utf8(s);
        vstd::utf8::encode_utf8_decode_utf8(s);
    }
    assert(values.map_values(|s: Seq<char>| text_of(c_content(c_text(s)))) =~= values);
}

/// A float buffer of length `2k` decodes to exactly `k` complex values, the
/// `i`-th being `(buf[2i], buf[2i + 1])`.
pub proof fn lemma_complex_decode_pairs<T>(buf: Seq<T>, k: nat)
    requires
        buf.len() == 2 * k,
    ensures
        decode_complex(buf) matches Some(v) && v.len() == k && forall|i: int|
            0 <= i < k ==> #[trigger] v[i] == (buf[2 * i], buf[2 * i + 1]),
{
}

/// A float buffer of exactly one element decodes to no complex values.
pub proof fn lemma_complex_decode_sentinel<T>(buf: Seq<T>)
    requires
        buf.len() == 1,
    ensures
        decode_complex(buf) == Some(Seq::<(T, T)>::empty()),
{
}

} // verus!
