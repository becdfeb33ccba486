use vstd::prelude::*;
use vstd::string::StringSliceAdditionalSpecFns;
use vstd::std_specs::cmp::PartialEqSpec;
use vstd::utf8::*;

verus! {

/// The smallest capacity that a string allocates: there is no point in smaller buffers.
pub const MIN_NON_ZERO_CAP: usize = 8;

/// No byte of `bytes` is the nul byte.
pub open spec fn has_no_nul(bytes: Seq<u8>) -> bool {
    forall|i: int| 0 <= i < bytes.len() ==> bytes[i] != 0u8
}

/// No character of `chars` is the nul character.
pub open spec fn has_no_nul_char(chars: Seq<char>) -> bool {
    forall|i: int| 0 <= i < chars.len() ==> chars[i] != '\0'
}

proof fn lemma_scalar_bytes_not_nul(v: u32)
    requires
        is_scalar(v),
        v != 0,
    ensures
        has_no_nul(encode_scalar(v)),
{
    assert(v <= 0x7F && v != 0 ==> (v & 0x7F) as u8 != 0u8) by (bit_vector);
    assert((0xC0u8 | ((v >> 6u32) & 0x1Fu32) as u8) != 0u8) by (bit_vector);
    assert((0xE0u8 | ((v >> 12u32) & 0x0Fu32) as u8) != 0u8) by (bit_vector);
    assert((0xF0u8 | ((v >> 18u32) & 0x7u32) as u8) != 0u8) by (bit_vector);
    assert((0x80u8 | (v & 0x3Fu32) as u8) != 0u8) by (bit_vector);
    assert((0x80u8 | ((v >> 6u32) & 0x3Fu32) as u8) != 0u8) by (bit_vector);
    assert((0x80u8 | ((v >> 12u32) & 0x3Fu32) as u8) != 0u8) by (bit_vector);
}

/// The UTF-8 encoding of characters other than the nul character holds no nul byte.
pub proof fn lemma_no_nul_char_encoding(chars: Seq<char>)
    requires
        has_no_nul_char(chars),
    ensures
        has_no_nul(encode_utf8(chars)),
    decreases chars.len(),
{
    if chars.len() > 0 {
        let c = chars[0];
        char_is_scalar(c);
        assert(c != '\0');
        assert((c as u32) != 0) by {
            if (c as u32) == 0 {
                char_u32_cast(c, 0u32);
                char_u32_cast('\0', 0u32);
            }
        }
        lemma_scalar_bytes_not_nul(c as u32);
        lemma_no_nul_char_encoding(chars.drop_first());
        let head = encode_scalar(c as u32);
        let tail = encode_utf8(chars.drop_first());
        assert(encode_utf8(chars) == head + tail);
        assert forall|i: int| 0 <= i < (head + tail).len() implies (head + tail)[i] != 0u8 by {
            if i < head.len() {
                assert((head + tail)[i] == head[i]);
            } else {
                assert((head + tail)[i] == tail[i - head.len()]);
            }
        }
    }
}

/// The capacity of a string of `len` bytes and capacity `capacity` after it reserved
/// room for `additional` more bytes (the nul terminator not counted).
pub open spec fn reserved_capacity(len: int, capacity: int, additional: int) -> int {
    if additional < capacity - len {
        capacity
    } else {
        vstd::math::max(
            MIN_NON_ZERO_CAP as int,
            vstd::math::max(2 * capacity, len + additional + 1),
        )
    }
}

/// Reserving `additional` bytes does not overflow `usize`.
pub open spec fn reserve_fits(len: int, capacity: int, additional: int) -> bool {
    ||| additional < capacity - len
    ||| (len + additional + 1 <= usize::MAX && 2 * capacity <= usize::MAX)
}

/// The capacity of a string of `len` bytes and capacity `capacity` after it was shrunk
/// with the lower bound `min_capacity`.
pub open spec fn shrunk_capacity(len: int, capacity: int, min_capacity: int) -> int {
    let lower = vstd::math::max(len + 1, min_capacity);
    if capacity <= lower {
        capacity
    } else {
        lower
    }
}

/// The capacity of a string built from `len` bytes pushed onto an empty string.
pub open spec fn fresh_capacity(len: int) -> int {
    if len == 0 {
        0
    } else {
        reserved_capacity(0, 0, len)
    }
}

/// A UTF-8-encoded growable string buffer suitable for FFI with Rofi.
///
/// In contrast to the standard library's string type, this string
/// cannot contain any intermediary nul bytes and is always nul-terminated.
/// Its capacity follows its own growth policy: it counts the nul terminator,
/// is zero until the string first allocates, and is otherwise always greater
/// than the length.
pub struct String {
    /// The content, followed by exactly one nul byte.
    buf: Vec<u8>,
    /// The capacity in bytes, nul terminator included.
    capacity: usize,
}

impl View for String {
    type V = Seq<u8>;

    /// The content bytes, without the nul terminator.
    closed spec fn view(&self) -> Seq<u8> {
        if self.buf@.len() == 0 {
            Seq::empty()
        } else {
            self.buf@.drop_last()
        }
    }
}

proof fn lemma_nul_is_utf8()
    ensures
        valid_utf8(seq![0u8]),
{
    reveal_with_fuel(valid_utf8, 2);
    assert(seq![0u8].subrange(1, 1) =~= Seq::<u8>::empty());
}

proof fn lemma_empty_is_utf8()
    ensures
        valid_utf8(Seq::<u8>::empty()),
{
}

/// `std::str::from_utf8`: on bytes that are well-formed UTF-8 it succeeds and
/// returns a string slice over those very bytes.
#[verifier::external_body]
fn utf8_str(bytes: &[u8]) -> (s: &str)
    requires
        valid_utf8(bytes@),
    ensures
        s.spec_bytes() == bytes@,
{
    match std::str::from_utf8(bytes) {
        Ok(s) => s,
        Err(_) => "",
    }
}

impl String {
    /// The string is well formed: its buffer holds the content and one nul byte,
    /// the content is UTF-8 without nul bytes, and the capacity covers the buffer.
    pub closed spec fn wf(&self) -> bool {
        &&& self.buf@.len() >= 1
        &&& self.buf@.last() == 0u8
        &&& has_no_nul(self@)
        &&& valid_utf8(self@)
        &&& if self.capacity == 0 {
            self.buf@.len() == 1
        } else {
            self.buf@.len() <= self.capacity
        }
    }

    /// The capacity of the string in bytes, nul terminator included.
    pub closed spec fn spec_capacity(&self) -> int {
        self.capacity as int
    }

    /// What every well-formed string satisfies, in terms of its view and capacity.
    pub proof fn lemma_wf(&self)
        requires
            self.wf(),
        ensures
            has_no_nul(self@),
            valid_utf8(self@),
            self.spec_capacity() == 0 ==> self@.len() == 0,
            self.spec_capacity() != 0 ==> self@.len() < self.spec_capacity(),
            self.spec_capacity() <= usize::MAX,
    {
    }

    /// Create a new empty string.
    pub fn new() -> (s: Self)
        ensures
            s.wf(),
            s@ == Seq::<u8>::empty(),
            s.spec_capacity() == 0,
    {
        let mut buf: Vec<u8> = Vec::new();
        buf.push(0u8);
        let s = String { buf, capacity: 0 };
        proof {
            assert(s@ =~= Seq::<u8>::empty());
            lemma_empty_is_utf8();
        }
        s
    }

    /// Create a new empty string with at least the specified capacity.
    pub fn with_capacity(capacity: usize) -> (s: Self)
        requires
            capacity < usize::MAX,
        ensures
            s.wf(),
            s@ == Seq::<u8>::empty(),
            s.spec_capacity() == reserved_capacity(0, 0, capacity as int),
            s.spec_capacity() > capacity,
    {
        let mut this = Self::new();
        this.reserve(capacity);
        this
    }

    /// Get the length of the string in bytes, excluding the nul terminator.
    pub fn len(&self) -> (n: usize)
        requires
            self.wf(),
        ensures
            n == self@.len(),
    {
        self.buf.len() - 1
    }

    /// Retrieve whether the string is empty or not.
    pub fn is_empty(&self) -> (b: bool)
        requires
            self.wf(),
        ensures
            b == (self@.len() == 0),
    {
        self.len() == 0
    }

    /// Obtain the current capacity of the string.
    ///
    /// If the value is zero, no allocation has been made yet.
    pub fn capacity(&self) -> (c: usize)
        ensures
            c == self.spec_capacity(),
    {
        self.capacity
    }

    /// Extract a string slice containing the entire string,
    /// excluding the nul terminator.
    pub fn as_str(&self) -> (s: &str)
        requires
            self.wf(),
        ensures
            s.spec_bytes() == self@,
    {
        let len = self.buf.len() - 1;
        let content = vstd::slice::slice_subrange(self.buf.as_slice(), 0, len);
        proof {
            assert(content@ =~= self@);
        }
        utf8_str(content)
    }

    /// Extract a string slice containing the entire string,
    /// including the nul terminator.
    pub fn as_str_nul(&self) -> (s: &str)
        requires
            self.wf(),
        ensures
            s.spec_bytes() == self@.push(0u8),
    {
        proof {
            lemma_nul_is_utf8();
            valid_utf8_concat(self@, seq![0u8]);
            assert(self@ + seq![0u8] =~= self.buf@);
            assert(self@.push(0u8) =~= self.buf@);
        }
        utf8_str(self.buf.as_slice())
    }

    /// Construct a string from a buffer that holds `len` content bytes followed by
    /// a nul byte, together with the capacity that the buffer is accounted for.
    ///
    /// The content must be valid UTF-8 without nul bytes, and the capacity must be
    /// nonzero and greater than `len`.
    pub fn from_raw_parts(bytes: Vec<u8>, len: usize, capacity: usize) -> (s: Self)
        requires
            capacity != 0,
            len < capacity,
            bytes@.len() == len + 1,
            bytes@[len as int] == 0u8,
            has_no_nul(bytes@.subrange(0, len as int)),
            valid_utf8(bytes@.subrange(0, len as int)),
        ensures
            s.wf(),
            s@ == bytes@.subrange(0, len as int),
            s.spec_capacity() == capacity,
    {
        let s = String { buf: bytes, capacity };
        proof {
            assert(s@ =~= bytes@.subrange(0, len as int));
        }
        s
    }

    /// Take ownership of the string, giving back its bytes
    /// followed by the nul terminator.
    pub fn into_raw(self) -> (bytes: Vec<u8>)
        requires
            self.wf(),
        ensures
            bytes@ == self@.push(0u8),
    {
        proof {
            assert(self@.push(0u8) =~= self.buf@);
        }
        self.buf
    }

    /// Reserve `n` bytes of free space in the string.
    ///
    /// `n` doesn't include the nul terminator,
    /// meaning `.reserve(5)` will reserve enough capacity
    /// to push five more bytes of content.
    /// This means that `.reserve(0)` will allocate space for one byte on an empty string.
    pub fn reserve(&mut self, n: usize)
        requires
            old(self).wf(),
            reserve_fits(old(self)@.len() as int, old(self).spec_capacity(), n as int),
        ensures
            final(self).wf(),
            final(self)@ == old(self)@,
            final(self).spec_capacity() == reserved_capacity(
                old(self)@.len() as int,
                old(self).spec_capacity(),
                n as int,
            ),
    {
        let len = self.buf.len() - 1;
        // Use less-than to take into account the nul byte.
        if n < self.capacity - len {
            return ;
        }
        let min_capacity = len + n + 1;
        let doubled = self.capacity * 2;
        let mut new_capacity = if doubled > min_capacity {
            doubled
        } else {
            min_capacity
        };
        if new_capacity < MIN_NON_ZERO_CAP {
            new_capacity = MIN_NON_ZERO_CAP;
        }
        self.buf.reserve(new_capacity - self.buf.len());
        self.capacity = new_capacity;
    }

    /// Push a string onto the end of this string.
    ///
    /// The pushed string must not contain nul bytes.
    pub fn push_str(&mut self, s: &str)
        requires
            old(self).wf(),
            has_no_nul_char(s@),
            s.spec_bytes().len() == 0 || reserve_fits(
                old(self)@.len() as int,
                old(self).spec_capacity(),
                s.spec_bytes().len() as int,
            ),
        ensures
            final(self).wf(),
            final(self)@ == old(self)@ + s.spec_bytes(),
            final(self).spec_capacity() == if s.spec_bytes().len() == 0 {
                old(self).spec_capacity()
            } else {
                reserved_capacity(
                    old(self)@.len() as int,
                    old(self).spec_capacity(),
                    s.spec_bytes().len() as int,
                )
            },
    {
        proof {
            lemma_no_nul_char_encoding(s@);
        }
        let bytes = s.as_bytes();
        if bytes.len() == 0 {
            proof {
                assert(old(self)@ + s.spec_bytes() =~= old(self)@);
            }
            return ;
        }
        self.reserve(bytes.len());
        let ghost content = self@;
        let ghost cap = self.capacity;
        self.buf.pop();
        assert(self.buf@ =~= content);
        let mut i: usize = 0;
        while i < bytes.len()
            invariant
                i <= bytes@.len(),
                self.buf@ == content + bytes@.subrange(0, i as int),
                self.capacity == cap,
                content.len() + bytes@.len() < cap,
            decreases bytes@.len() - i,
        {
            self.buf.push(bytes[i]);
            i = i + 1;
            assert(self.buf@ =~= content + bytes@.subrange(0, i as int));
        }
        self.buf.push(0u8);
        proof {
            assert(bytes@.subrange(0, bytes@.len() as int) =~= bytes@);
            assert(self@ =~= content + bytes@);
            encode_utf8_valid_utf8(s@);
            valid_utf8_concat(content, bytes@);
        }
    }

    /// Shrinks the capacity of this string with a lower bound.
    ///
    /// The capacity will remain at least as large as both the length and the supplied value.
    ///
    /// If the current capacity is `<=` than the lower limit, this is a no-op.
    pub fn shrink_to(&mut self, min_capacity: usize)
        requires
            old(self).wf(),
        ensures
            final(self).wf(),
            final(self)@ == old(self)@,
            final(self).spec_capacity() == shrunk_capacity(
                old(self)@.len() as int,
                old(self).spec_capacity(),
                min_capacity as int,
            ),
    {
        let len = self.buf.len() - 1;
        let lower = if len + 1 > min_capacity {
            len + 1
        } else {
            min_capacity
        };
        if self.capacity <= lower {
            return ;
        }
        self.capacity = lower;
    }

    /// Shrinks the capacity of this string to match its length,
    /// plus one for the nul terminator.
    pub fn shrink_to_fit(&mut self)
        requires
            old(self).wf(),
        ensures
            final(self).wf(),
            final(self)@ == old(self)@,
            final(self).spec_capacity() == shrunk_capacity(
                old(self)@.len() as int,
                old(self).spec_capacity(),
                0,
            ),
    {
        self.shrink_to(0);
    }

    /// Truncate this string, removing all its contents.
    ///
    /// This does not touch the string's capacity.
    pub fn clear(&mut self)
        requires
            old(self).wf(),
        ensures
            final(self).wf(),
            final(self)@ == Seq::<u8>::empty(),
            final(self).spec_capacity() == old(self).spec_capacity(),
    {
        if self.len() > 0 {
            self.buf.clear();
            self.buf.push(0u8);
        }
        proof {
            assert(self@ =~= Seq::<u8>::empty());
            lemma_empty_is_utf8();
        }
    }

    /// Create a string holding a copy of `s`.
    ///
    /// `s` must not contain nul bytes.
    pub fn from_str(s: &str) -> (r: Self)
        requires
            has_no_nul_char(s@),
            s.spec_bytes().len() < usize::MAX,
        ensures
            r.wf(),
            r@ == s.spec_bytes(),
            r.spec_capacity() == fresh_capacity(s.spec_bytes().len() as int),
    {
        let mut this = Self::new();
        this.push_str(s);
        proof {
            assert(Seq::<u8>::empty() + s.spec_bytes() =~= s.spec_bytes());
        }
        this
    }
}


impl Default for String {
    /// A new empty string.
    fn default() -> (s: Self)
        ensures
            s.wf(),
            s@ == Seq::<u8>::empty(),
            s.spec_capacity() == 0,
    {
        Self::new()
    }
}

impl Clone for String {
    /// A copy of the string, with the capacity that a fresh string of the
    /// same content has.
    fn clone(&self) -> (s: Self)
        ensures
            self.wf() ==> {
                &&& s.wf()
                &&& s@ == self@
                &&& s.spec_capacity() == fresh_capacity(self@.len() as int)
            },
    {
        let buf = self.buf.clone();
        proof {
            assert(buf@ =~= self.buf@);
        }
        let n = buf.len();
        let capacity = if n <= 1 {
            0
        } else if n < MIN_NON_ZERO_CAP {
            MIN_NON_ZERO_CAP
        } else {
            n
        };
        String { buf, capacity }
    }
}

impl String {
    /// The number of content bytes, for any string.
    pub(crate) fn content_len(&self) -> (n: usize)
        ensures
            n == self@.len(),
    {
        if self.buf.len() == 0 {
            0
        } else {
            self.buf.len() - 1
        }
    }

    /// The content byte at `index`, for any string.
    pub(crate) fn content_byte(&self, index: usize) -> (b: u8)
        requires
            index < self@.len(),
        ensures
            b == self@[index as int],
    {
        self.buf[index]
    }
}

impl PartialEq for String {
    fn eq(&self, other: &Self) -> (equal: bool) {
        let n = self.content_len();
        if n != other.content_len() {
            return false;
        }
        let mut i: usize = 0;
        while i < n
            invariant
                n == self@.len(),
                n == other@.len(),
                i <= n,
                forall|j: int| 0 <= j < i ==> self@[j] == other@[j],
            decreases n - i,
        {
            assert(self@[i as int] == self.buf@[i as int]);
            assert(other@[i as int] == other.buf@[i as int]);
            if self.buf[i] != other.buf[i] {
                return false;
            }
            i = i + 1;
        }
        proof {
            assert(self@ =~= other@);
        }
        true
    }
}

impl vstd::std_specs::cmp::PartialEqSpecImpl for String {
    open spec fn obeys_eq_spec() -> bool {
        true
    }

    open spec fn eq_spec(&self, other: &Self) -> bool {
        self@ == other@
    }
}

impl Eq for String {

}

proof fn lemma_encode_utf8_concat(a: Seq<char>, b: Seq<char>)
    ensures
        encode_utf8(a + b) == encode_utf8(a) + encode_utf8(b),
    decreases a.len(),
{
    if a.len() == 0 {
        assert(a + b =~= b);
        assert(encode_utf8(a) + encode_utf8(b) =~= encode_utf8(b));
    } else {
        assert((a + b)[0] == a[0]);
        assert((a + b).drop_first() =~= a.drop_first() + b);
        lemma_encode_utf8_concat(a.drop_first(), b);
        let head = encode_scalar(a[0] as u32);
        assert(encode_utf8(a + b) == head + encode_utf8(a.drop_first() + b));
        assert(head + (encode_utf8(a.drop_first()) + encode_utf8(b)) =~= (head + encode_utf8(
            a.drop_first(),
        )) + encode_utf8(b));
    }
}

/// A nul character encodes to a nul byte, so text whose UTF-8 encoding holds no nul
/// byte holds no nul character: with [`lemma_no_nul_char_encoding`], the two ways
/// of saying "no nul" agree.
pub proof fn lemma_no_nul_encoding_char(chars: Seq<char>)
    requires
        has_no_nul(encode_utf8(chars)),
    ensures
        has_no_nul_char(chars),
{
    if !has_no_nul_char(chars) {
        let i = choose|i: int| 0 <= i < chars.len() && chars[i] == '\0';
        let prefix = chars.subrange(0, i);
        let rest = chars.subrange(i, chars.len() as int);
        assert(chars =~= prefix + rest);
        lemma_encode_utf8_concat(prefix, rest);
        assert(rest[0] == '\0');
        assert(('\0' as u32) == 0u32);
        assert(encode_scalar(0u32) =~= seq![0u8]) by {
            assert((0u32 & 0x7Fu32) as u8 == 0u8) by (bit_vector);
        }
        assert(encode_utf8(rest) == encode_scalar(0u32) + encode_utf8(rest.drop_first()));
        let k = encode_utf8(prefix).len() as int;
        assert(encode_utf8(chars)[k] == encode_utf8(rest)[0]);
    }
}

/// Pushing text onto a string appends it character for character: `requires` holds
/// what `as_str` ensures of the text read back after `push_str`.
pub proof fn lemma_push_str_reads_back(before: &str, text: &str, read: &str)
    requires
        read.spec_bytes() == before.spec_bytes() + text.spec_bytes(),
    ensures
        read@ == before@ + text@,
{
    lemma_encode_utf8_concat(before@, text@);
    encode_utf8_decode_utf8(read@);
    encode_utf8_decode_utf8(before@ + text@);
}

/// Two strings are equal exactly when their contents have the same length and the
/// same byte at every position; capacity plays no part.
pub proof fn lemma_eq_is_content_equality(a: String, b: String)
    ensures
        PartialEqSpec::eq_spec(&a, &b) <==> (a@.len() == b@.len() && forall|j: int|
            0 <= j < a@.len() ==> a@[j] == b@[j]),
        PartialEqSpec::eq_spec(&a, &a),
        PartialEqSpec::eq_spec(&a, &b) == PartialEqSpec::eq_spec(&b, &a),
{
    if a@.len() == b@.len() && forall|j: int| 0 <= j < a@.len() ==> a@[j] == b@[j] {
        assert(a@ =~= b@);
    }
}

/// Reserving `additional` bytes leaves room for at least that many more bytes
/// besides the nul terminator, never lowers the capacity, and always allocates.
pub proof fn lemma_reserve_makes_room(len: int, capacity: int, additional: int)
    requires
        0 <= additional,
        (capacity == 0 && len == 0) || (0 <= len < capacity),
    ensures
        reserved_capacity(len, capacity, additional) > len + additional,
        reserved_capacity(len, capacity, additional) >= capacity,
        reserved_capacity(len, capacity, additional) >= MIN_NON_ZERO_CAP || reserved_capacity(
            len,
            capacity,
            additional,
        ) == capacity,
{
}

/// Shrinking never raises the capacity, never goes below the supplied bound unless
/// the capacity already was below it, keeps room for the content and its nul
/// terminator, and leaves an unallocated string unallocated.
pub proof fn lemma_shrink_bounds(len: int, capacity: int, min_capacity: int)
    requires
        0 <= min_capacity,
        (capacity == 0 && len == 0) || (0 <= len < capacity),
    ensures
        shrunk_capacity(len, capacity, min_capacity) <= capacity,
        shrunk_capacity(len, capacity, min_capacity) >= vstd::math::min(capacity, min_capacity),
        capacity != 0 ==> shrunk_capacity(len, capacity, min_capacity) > len,
        (shrunk_capacity(len, capacity, min_capacity) == 0) == (capacity == 0),
{
}

/// Shrinking to fit an allocated string leaves exactly room for its content and
/// the nul terminator.
pub proof fn lemma_shrink_to_fit_exact(len: int, capacity: int)
    requires
        0 <= len < capacity,
    ensures
        shrunk_capacity(len, capacity, 0) == len + 1,
{
}

} // verus!
