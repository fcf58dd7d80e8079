//! Text marshaler: converts internal text (owned bytes) into
//! independently owned, null-terminated buffers, and back.

use vstd::prelude::*;
use crate::error::BoundaryError;
use crate::error::ErrorChannel;

verus! {

/// True when `bytes` holds no premature terminator, so it can be
/// marshaled into a null-terminated buffer without truncation.
pub open spec fn text_wf(bytes: Seq<u8>) -> bool {
    forall|i: int| 0 <= i < bytes.len() ==> bytes[i] != 0u8
}

/// One caller-owned, null-terminated text buffer: the flat form of a
/// single text value crossing the boundary.
#[derive(Debug)]
pub struct TextBuf {
    bytes: Vec<u8>,
}

impl TextBuf {
    /// The text the buffer carries: every byte before the terminator.
    pub closed spec fn content(self) -> Seq<u8> {
        self.bytes@.take(self.bytes@.len() - 1)
    }

    /// Well-formed: ends in a terminator and holds none earlier.
    pub closed spec fn wf(self) -> bool {
        &&& self.bytes@.len() >= 1
        &&& self.bytes@.last() == 0u8
        &&& text_wf(self.content())
    }

    /// Heap blocks the buffer owns; the release protocol visits each
    /// exactly once.
    pub open spec fn allocations(self) -> nat {
        1
    }

    /// The raw buffer, terminator included.
    pub fn raw_bytes(&self) -> (r: &Vec<u8>)
        ensures
            self.wf() ==> r@ == self.content().push(0u8),
    {
        proof {
            if self.wf() {
                assert(self.content().push(0u8) =~= self.bytes@);
            }
        }
        &self.bytes
    }
}

/// Whether `needle` occurs in `hay` starting at offset `k`.
pub open spec fn text_contains_at(hay: Seq<u8>, needle: Seq<u8>, k: int) -> bool {
    0 <= k && k + needle.len() <= hay.len() && hay.subrange(k, k + needle.len() as int) == needle
}

/// Whether `needle` occurs contiguously somewhere in `hay`.
pub open spec fn text_contains(hay: Seq<u8>, needle: Seq<u8>) -> bool {
    exists|k: int| text_contains_at(hay, needle, k)
}

/// Whether two byte texts hold the same bytes.
pub fn bytes_eq(a: &Vec<u8>, b: &Vec<u8>) -> (r: bool)
    ensures
        r == (a@ == b@),
{
    if a.len() != b.len() {
        return false;
    }
    let n = a.len();
    let mut i: usize = 0;
    while i < n
        invariant
            n == a@.len(),
            n == b@.len(),
            i <= n,
            forall|j: int| 0 <= j < i ==> a@[j] == b@[j],
        decreases n - i,
    {
        if a[i] != b[i] {
            return false;
        }
        i = i + 1;
    }
    proof {
        assert(a@ =~= b@);
    }
    true
}

/// An owned copy of a byte text.
pub fn copy_bytes(src: &Vec<u8>) -> (r: Vec<u8>)
    ensures
        r@ == src@,
{
    let c = src.clone();
    proof {
        assert(c@ =~= src@);
    }
    c
}

/// Marshal one internal text value into an independently owned,
/// null-terminated buffer.  Internal text never embeds a premature
/// terminator, so marshaling cannot fail.
pub fn marshal_text(text: &Vec<u8>) -> (buf: TextBuf)
    requires
        text_wf(text@),
    ensures
        buf.wf(),
        buf.content() == text@,
{
    let mut bytes: Vec<u8> = Vec::new();
    let n = text.len();
    let mut i: usize = 0;
    while i < n
        invariant
            n == text@.len(),
            i <= n,
            bytes@ == text@.take(i as int),
        decreases n - i,
    {
        bytes.push(text[i]);
        proof {
            assert(bytes@ =~= text@.take(i + 1));
        }
        i = i + 1;
    }
    proof {
        assert(bytes@ =~= text@);
    }
    bytes.push(0u8);
    let buf = TextBuf { bytes };
    proof {
        assert(buf.content() =~= text@);
    }
    buf
}

/// Release one text buffer, returning the number of heap blocks the
/// release visited.
pub fn free_string(buf: TextBuf) -> (n: usize)
    ensures
        n == buf.allocations(),
{
    let TextBuf { bytes: _ } = buf;
    1
}

/// A continuation byte of a multi-byte scalar.
pub open spec fn utf8_cont(b: u8) -> bool {
    0x80 <= b < 0xC0
}

/// The length of the well-formed scalar encoding starting at `i`, or
/// zero when the bytes at `i` start no well-formed scalar.
pub open spec fn utf8_step(s: Seq<u8>, i: int) -> int {
    let b0 = s[i];
    if b0 < 0x80 {
        1
    } else if 0xC2 <= b0 <= 0xDF {
        if i + 1 < s.len() && utf8_cont(s[i + 1]) {
            2
        } else {
            0
        }
    } else if b0 == 0xE0 {
        if i + 2 < s.len() && 0xA0 <= s[i + 1] < 0xC0 && utf8_cont(s[i + 2]) {
            3
        } else {
            0
        }
    } else if 0xE1 <= b0 <= 0xEC || b0 == 0xEE || b0 == 0xEF {
        if i + 2 < s.len() && utf8_cont(s[i + 1]) && utf8_cont(s[i + 2]) {
            3
        } else {
            0
        }
    } else if b0 == 0xED {
        if i + 2 < s.len() && 0x80 <= s[i + 1] < 0xA0 && utf8_cont(s[i + 2]) {
            3
        } else {
            0
        }
    } else if b0 == 0xF0 {
        if i + 3 < s.len() && 0x90 <= s[i + 1] < 0xC0 && utf8_cont(s[i + 2]) && utf8_cont(
            s[i + 3],
        ) {
            4
        } else {
            0
        }
    } else if 0xF1 <= b0 <= 0xF3 {
        if i + 3 < s.len() && utf8_cont(s[i + 1]) && utf8_cont(s[i + 2]) && utf8_cont(s[i + 3]) {
            4
        } else {
            0
        }
    } else if b0 == 0xF4 {
        if i + 3 < s.len() && 0x80 <= s[i + 1] < 0x90 && utf8_cont(s[i + 2]) && utf8_cont(
            s[i + 3],
        ) {
            4
        } else {
            0
        }
    } else {
        0
    }
}

/// Whether the bytes from `i` on partition into well-formed scalar
/// encodings.
pub open spec fn utf8_valid_from(s: Seq<u8>, i: int) -> bool
    decreases s.len() - i,
{
    if i >= s.len() {
        true
    } else {
        let n = utf8_step(s, i);
        if n <= 0 {
            false
        } else {
            utf8_valid_from(s, i + n)
        }
    }
}

/// Well-formed text: the byte sequence is a well-formed encoding of
/// scalar values.
pub open spec fn is_well_formed_text(s: Seq<u8>) -> bool {
    utf8_valid_from(s, 0)
}

/// Decide well-formedness of a byte text.
pub fn validate_text(bytes: &Vec<u8>) -> (r: bool)
    ensures
        r == is_well_formed_text(bytes@),
{
    let n = bytes.len();
    let mut i: usize = 0;
    while i < n
        invariant
            n == bytes@.len(),
            i <= n,
            is_well_formed_text(bytes@) == utf8_valid_from(bytes@, i as int),
        decreases n - i,
    {
        let b0 = bytes[i];
        let step: usize = if b0 < 0x80 {
            1
        } else if 0xC2 <= b0 && b0 <= 0xDF {
            if n - i > 1 && 0x80 <= bytes[i + 1] && bytes[i + 1] < 0xC0 {
                2
            } else {
                0
            }
        } else if b0 == 0xE0 {
            if n - i > 2 && 0xA0 <= bytes[i + 1] && bytes[i + 1] < 0xC0 && 0x80 <= bytes[i + 2]
                && bytes[i + 2] < 0xC0 {
                3
            } else {
                0
            }
        } else if (0xE1 <= b0 && b0 <= 0xEC) || b0 == 0xEE || b0 == 0xEF {
            if n - i > 2 && 0x80 <= bytes[i + 1] && bytes[i + 1] < 0xC0 && 0x80 <= bytes[i + 2]
                && bytes[i + 2] < 0xC0 {
                3
            } else {
                0
            }
        } else if b0 == 0xED {
            if n - i > 2 && 0x80 <= bytes[i + 1] && bytes[i + 1] < 0xA0 && 0x80 <= bytes[i + 2]
                && bytes[i + 2] < 0xC0 {
                3
            } else {
                0
            }
        } else if b0 == 0xF0 {
            if n - i > 3 && 0x90 <= bytes[i + 1] && bytes[i + 1] < 0xC0 && 0x80 <= bytes[i + 2]
                && bytes[i + 2] < 0xC0 && 0x80 <= bytes[i + 3] && bytes[i + 3] < 0xC0 {
                4
            } else {
                0
            }
        } else if 0xF1 <= b0 && b0 <= 0xF3 {
            if n - i > 3 && 0x80 <= bytes[i + 1] && bytes[i + 1] < 0xC0 && 0x80 <= bytes[i + 2]
                && bytes[i + 2] < 0xC0 && 0x80 <= bytes[i + 3] && bytes[i + 3] < 0xC0 {
                4
            } else {
                0
            }
        } else if b0 == 0xF4 {
            if n - i > 3 && 0x80 <= bytes[i + 1] && bytes[i + 1] < 0x90 && 0x80 <= bytes[i + 2]
                && bytes[i + 2] < 0xC0 && 0x80 <= bytes[i + 3] && bytes[i + 3] < 0xC0 {
                4
            } else {
                0
            }
        } else {
            0
        };
        proof {
            assert(step == utf8_step(bytes@, i as int));
        }
        if step == 0 {
            return false;
        }
        i = i + step;
    }
    true
}

/// The position of the first terminator at or after `i`; the length
/// when there is none.
pub open spec fn first_nul(s: Seq<u8>, i: int) -> int
    decreases s.len() - i,
{
    if i >= s.len() {
        s.len() as int
    } else if s[i] == 0 {
        i
    } else {
        first_nul(s, i + 1)
    }
}

/// Unmarshal caller-supplied bytes back into internal text: the text
/// ends at the first terminator, and must decode as well-formed
/// text.  A buffer with no terminator, or whose text is not
/// well-formed, is a caller contract violation: the call fails with
/// the malformed-text condition, recorded in the channel.
pub fn unmarshal_text(chan: &mut ErrorChannel, bytes: &Vec<u8>) -> (r: Result<
    Vec<u8>,
    BoundaryError,
>)
    ensures
        ({
            let k = first_nul(bytes@, 0);
            match r {
                Ok(t) => {
                    &&& k < bytes@.len()
                    &&& is_well_formed_text(bytes@.take(k))
                    &&& t@ == bytes@.take(k)
                    &&& final(chan).state() == old(chan).state()
                },
                Err(e) => {
                    &&& e == BoundaryError::MalformedText
                    &&& (k == bytes@.len() || !is_well_formed_text(bytes@.take(k)))
                    &&& final(chan).state() matches Some(m) && m.len() > 0
                },
            }
        }),
{
    let n = bytes.len();
    let mut i: usize = 0;
    while i < n && bytes[i] != 0
        invariant
            n == bytes@.len(),
            i <= n,
            first_nul(bytes@, 0) == first_nul(bytes@, i as int),
        decreases n - i,
    {
        i = i + 1;
    }
    if i == n {
        chan.update_last_error(malformed_message());
        return Err(BoundaryError::MalformedText);
    }
    proof {
        assert(first_nul(bytes@, 0) == i as int);
    }
    let mut content: Vec<u8> = Vec::new();
    let mut j: usize = 0;
    while j < i
        invariant
            j <= i,
            i < n,
            n == bytes@.len(),
            content@ == bytes@.take(j as int),
        decreases i - j,
    {
        content.push(bytes[j]);
        proof {
            assert(content@ =~= bytes@.take(j + 1));
        }
        j = j + 1;
    }
    if validate_text(&content) {
        Ok(content)
    } else {
        chan.update_last_error(malformed_message());
        Err(BoundaryError::MalformedText)
    }
}

/// The reason text recorded for a malformed caller-supplied buffer.
fn malformed_message() -> (m: Vec<u8>)
    ensures
        m@.len() > 0,
{
    let mut m: Vec<u8> = Vec::new();
    // the ASCII bytes of "malformed text"
    m.push(109u8);
    m.push(97u8);
    m.push(108u8);
    m.push(102u8);
    m.push(111u8);
    m.push(114u8);
    m.push(109u8);
    m.push(101u8);
    m.push(100u8);
    m.push(32u8);
    m.push(116u8);
    m.push(101u8);
    m.push(120u8);
    m.push(116u8);
    m
}

} // verus!
