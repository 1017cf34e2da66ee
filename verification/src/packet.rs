//! Length-prefixed, big-endian packet building and reading.
use vstd::prelude::*;
use vstd::string::StringSliceAdditionalSpecFns;
use crate::text::{string_from_utf8_lossy, utf8_lossy};

verus! {

/// No length prefix.
pub const PREFIX_NONE: u8 = 0b0000;
/// A one-byte length prefix.
pub const PREFIX_U8: u8 = 0b0001;
/// A two-byte length prefix.
pub const PREFIX_U16: u8 = 0b0010;
/// A four-byte length prefix.
pub const PREFIX_U32: u8 = 0b0100;
/// The prefix counts only the bytes that follow it.
pub const PREFIX_LENGTH_ONLY: u8 = 0;
/// The prefix counts itself too.
pub const PREFIX_WITH: u8 = 0b1000;

// ---------------------------------------------------------------------------
// Big-endian encodings.
// ---------------------------------------------------------------------------

pub open spec fn be16(v: u16) -> Seq<u8> {
    seq![(v / 0x100) as u8, (v % 0x100) as u8]
}

pub open spec fn be32(v: u32) -> Seq<u8> {
    seq![
        (v / 0x1000000) as u8,
        ((v / 0x10000) % 0x100) as u8,
        ((v / 0x100) % 0x100) as u8,
        (v % 0x100) as u8,
    ]
}

pub open spec fn be64(v: u64) -> Seq<u8> {
    be32((v / 0x1_0000_0000) as u32) + be32((v % 0x1_0000_0000) as u32)
}

pub open spec fn from_be16(s: Seq<u8>) -> u16 {
    (s[0] as int * 0x100 + s[1] as int) as u16
}

pub open spec fn from_be32(s: Seq<u8>) -> u32 {
    (s[0] as int * 0x1000000 + s[1] as int * 0x10000 + s[2] as int * 0x100 + s[3] as int) as u32
}

pub open spec fn from_be64(s: Seq<u8>) -> u64 {
    (from_be32(s.take(4)) as int * 0x1_0000_0000 + from_be32(s.skip(4)) as int) as u64
}

/// The big-endian 16-bit number at `p` in `s`.
pub fn be16_at(s: &[u8], p: usize) -> (r: u16)
    requires
        p + 2 <= s@.len(),
    ensures
        r == from_be16(s@.skip(p as int)),
{
    (s[p] as u16) * 0x100 + s[p + 1] as u16
}

/// The big-endian 32-bit number at `p` in `s`.
pub fn be32_at(s: &[u8], p: usize) -> (r: u32)
    requires
        p + 4 <= s@.len(),
    ensures
        r == from_be32(s@.skip(p as int)),
{
    (s[p] as u32) * 0x1000000 + (s[p + 1] as u32) * 0x10000 + (s[p + 2] as u32) * 0x100 + s[p
        + 3] as u32
}

/// `s` with the bytes from `at` on replaced by `bytes`.
pub open spec fn patch(s: Seq<u8>, at: int, bytes: Seq<u8>) -> Seq<u8> {
    s.take(at) + bytes + s.skip(at + bytes.len())
}

/// The number of bytes of the length prefix that `prefix` selects.
pub open spec fn prefix_len(prefix: u8) -> int {
    (prefix % 8) as int
}

/// Whether the length prefix selected by `prefix` counts itself.
pub open spec fn prefix_counts_itself(prefix: u8) -> bool {
    (prefix / 8) % 2 == 1
}

/// The section length that a reader takes from the length field at the
/// front of `s`, as `prefix` describes that field.
pub open spec fn read_length(s: Seq<u8>, prefix: u8) -> int {
    let n = prefix_len(prefix);
    let raw: int = if n == 0 {
        0
    } else if n == 1 {
        s[0] as int
    } else if n == 2 {
        from_be16(s) as int
    } else {
        from_be32(s) as int
    };
    raw - if prefix_counts_itself(prefix) { n } else { 0 }
}

/// Whether `prefix` selects a supported prefix width.
pub open spec fn prefix_supported(prefix: u8) -> bool {
    let n = prefix_len(prefix);
    n == 0 || n == 1 || n == 2 || n == 4
}

/// Big-endian bytes of `v` truncated to a prefix of `n` bytes.
pub open spec fn be_prefix(n: int, v: int) -> Seq<u8> {
    if n == 1 {
        seq![v as u8]
    } else if n == 2 {
        be16(v as u16)
    } else {
        be32(v as u32)
    }
}

pub proof fn lemma_be16_roundtrip(v: u16)
    ensures
        from_be16(be16(v)) == v,
        be16(v).len() == 2,
{
}

pub proof fn lemma_be32_roundtrip(v: u32)
    ensures
        from_be32(be32(v)) == v,
        be32(v).len() == 4,
{
    assert(v == (v / 0x1000000) * 0x1000000 + ((v / 0x10000) % 0x100) * 0x10000
        + ((v / 0x100) % 0x100) * 0x100 + v % 0x100) by (nonlinear_arith);
}

pub proof fn lemma_be64_roundtrip(v: u64)
    ensures
        from_be64(be64(v)) == v,
        be64(v).len() == 8,
{
    let hi = (v / 0x1_0000_0000) as u32;
    let lo = (v % 0x1_0000_0000) as u32;
    lemma_be32_roundtrip(hi);
    lemma_be32_roundtrip(lo);
    assert(be64(v).take(4) =~= be32(hi));
    assert(be64(v).skip(4) =~= be32(lo));
    assert(v == (v / 0x1_0000_0000) * 0x1_0000_0000 + v % 0x1_0000_0000) by (nonlinear_arith);
}

/// `f` accepts every builder that holds `start`.
pub open spec fn f_accepts<F: FnOnce(PacketBuilder) -> PacketBuilder>(f: F, start: Seq<u8>) -> bool {
    forall|b: PacketBuilder| b@ == start ==> #[trigger] f.requires((b,))
}

/// What `f` returns from a builder that holds `start` is no shorter than
/// `start`, and the section length computed from it (plus `extra` and
/// `addition`) stays within `isize`.
pub open spec fn f_keeps_prefix_room<F: FnOnce(PacketBuilder) -> PacketBuilder>(
    f: F,
    start: Seq<u8>,
    extra: int,
    addition: int,
) -> bool {
    forall|b: PacketBuilder, c: PacketBuilder|
        b@ == start && #[trigger] f.ensures((b,), c) ==> {
            &&& c@.len() >= start.len()
            &&& c@.len() - start.len() + extra <= isize::MAX
            &&& isize::MIN <= c@.len() - start.len() + extra + addition <= isize::MAX
        }
}

/// The section length computed from what `f` returns does not exceed `u16::MAX`.
pub open spec fn f_fits_u16<F: FnOnce(PacketBuilder) -> PacketBuilder>(
    f: F,
    start: Seq<u8>,
    addition: int,
) -> bool {
    forall|b: PacketBuilder, c: PacketBuilder|
        b@ == start && #[trigger] f.ensures((b,), c) ==> c@.len() - start.len() + addition
            <= u16::MAX
}

// ---------------------------------------------------------------------------
// Builder
// ---------------------------------------------------------------------------

/// Builds a packet by appending big-endian values, byte strings and
/// length-prefixed sections.
#[derive(Debug)]
pub struct PacketBuilder {
    buffer: Vec<u8>,
}

impl View for PacketBuilder {
    type V = Seq<u8>;

    closed spec fn view(&self) -> Seq<u8> {
        self.buffer@
    }
}

impl PacketBuilder {
    pub fn new() -> (r: Self)
        ensures
            r@ == Seq::<u8>::empty(),
    {
        PacketBuilder { buffer: Vec::new() }
    }

    pub fn u8(self, value: u8) -> (r: Self)
        ensures
            r@ == self@.push(value),
    {
        let mut this = self;
        this.buffer.push(value);
        this
    }

    pub fn u16(self, value: u16) -> (r: Self)
        ensures
            r@ == self@ + be16(value),
    {
        let r = self.u8((value / 0x100) as u8).u8((value % 0x100) as u8);
        assert(r@ =~= self@ + be16(value));
        r
    }

    pub fn u32(self, value: u32) -> (r: Self)
        ensures
            r@ == self@ + be32(value),
    {
        let r = self.u8((value / 0x1000000) as u8).u8(((value / 0x10000) % 0x100) as u8).u8(
            ((value / 0x100) % 0x100) as u8,
        ).u8((value % 0x100) as u8);
        assert(r@ =~= self@ + be32(value));
        r
    }

    pub fn u64(self, value: u64) -> (r: Self)
        ensures
            r@ == self@ + be64(value),
    {
        let r = self.u32((value / 0x1_0000_0000) as u32).u32((value % 0x1_0000_0000) as u32);
        assert(r@ =~= self@ + be64(value));
        r
    }

    pub fn i8(self, value: i8) -> (r: Self)
        ensures
            r@ == self@.push(value as u8),
    {
        self.u8(value as u8)
    }

    pub fn i16(self, value: i16) -> (r: Self)
        ensures
            r@ == self@ + be16(value as u16),
    {
        self.u16(value as u16)
    }

    pub fn i32(self, value: i32) -> (r: Self)
        ensures
            r@ == self@ + be32(value as u32),
    {
        self.u32(value as u32)
    }

    pub fn i64(self, value: i64) -> (r: Self)
        ensures
            r@ == self@ + be64(value as u64),
    {
        self.u64(value as u64)
    }

    pub fn bytes(self, bytes: &[u8]) -> (r: Self)
        ensures
            r@ == self@ + bytes@,
    {
        let mut this = self;
        this.buffer.extend_from_slice(bytes);
        proof {
            assert(this.buffer@ =~= self.buffer@ + bytes@);
        }
        this
    }

    /// Appends the UTF-8 encoding of `string`.
    pub fn string(self, string: &str) -> (r: Self)
        ensures
            r@ == self@ + string.spec_bytes(),
    {
        self.bytes(string.as_bytes())
    }

    /// Hands the builder to `f`.
    pub fn packet(self, f: impl FnOnce(Self) -> Self) -> (r: Self)
        requires
            f.requires((self,)),
        ensures
            f.ensures((self,), r),
            f_only_appends(f) ==> self@.is_prefix_of(r@),
    {
        f(self)
    }

    /// Overwrites the bytes from `at` on with `bytes`.
    fn overwrite(self, at: usize, b: &[u8]) -> (r: Self)
        requires
            at + b@.len() <= self@.len(),
        ensures
            r@ == patch(self@, at as int, b@),
    {
        let ghost bytes = b@;
        let mut this = self;
        let mut i: usize = 0;
        while i < b.len()
            invariant
                b@ == bytes,
                at + bytes.len() <= self@.len(),
                0 <= i <= b.len(),
                this.buffer@.len() == self@.len(),
                forall|j: int|
                    0 <= j < this.buffer@.len() ==> #[trigger] this.buffer@[j] == if at <= j < at
                        + i {
                        bytes[j - at]
                    } else {
                        self@[j]
                    },
            decreases b.len() - i,
        {
            let l = this.buffer.len();
            assert(at + i < l);
            this.buffer.set(at + i, b[i]);
            i = i + 1;
        }
        assert(this.buffer@ =~= patch(self@, at as int, bytes));
        this
    }

    /// Writes `value` big-endian into the `n`-byte field at `at`.
    fn overwrite_prefix(self, at: usize, n: usize, value: i64) -> (r: Self)
        requires
            n == 1 || n == 2 || n == 4,
            at + n <= self@.len(),
        ensures
            r@ == patch(self@, at as int, be_prefix(n as int, value as int)),
    {
        if n == 1 {
            let v = value as u8;
            let b: [u8; 1] = [v];
            assert(b@ =~= be_prefix(1, value as int));
            self.overwrite(at, &b)
        } else if n == 2 {
            let v = value as u16;
            let b: [u8; 2] = [(v / 0x100) as u8, (v % 0x100) as u8];
            assert(b@ =~= be_prefix(2, value as int));
            self.overwrite(at, &b)
        } else {
            let v = value as u32;
            let b: [u8; 4] = [
                (v / 0x1000000) as u8,
                ((v / 0x10000) % 0x100) as u8,
                ((v / 0x100) % 0x100) as u8,
                (v % 0x100) as u8,
            ];
            assert(b@ =~= be_prefix(4, value as int));
            self.overwrite(at, &b)
        }
    }

    /// Writes a length field of `n` bytes (`n` is 1, 2 or 4), lets `f` append
    /// the section's content, then fills the field with the content's length,
    /// plus `n` when `counted`, plus `addition`, truncated to `n` bytes.
    fn length_prefixed(
        self,
        n: usize,
        counted: bool,
        addition: isize,
        f: impl FnOnce(Self) -> Self,
    ) -> (r: Self)
        requires
            n == 1 || n == 2 || n == 4,
            f_accepts(f, self@ + be_prefix(n as int, 0)),
            f_keeps_prefix_room(f, self@ + be_prefix(n as int, 0), if counted { n as int } else { 0 }, addition as int),
        ensures
            exists|b: PacketBuilder, c: PacketBuilder|
                b@ == self@ + be_prefix(n as int, 0) && #[trigger] f.ensures((b,), c) && r@ == patch(
                    c@,
                    self@.len() as int,
                    be_prefix(
                        n as int,
                        c@.len() - b@.len() + (if counted { n as int } else { 0 }) + addition,
                    ),
                ),
            f_only_appends(f) ==> self@.is_prefix_of(r@),
    {
        let start = self.len();
        let this = if n == 1 {
            self.u8(0)
        } else if n == 2 {
            self.u16(0)
        } else {
            self.u32(0)
        };
        assert(this@ =~= self@ + be_prefix(n as int, 0));
        let ghost b = this;
        let ori_length = this.len();
        let this = f(this);
        let closure_len = this.len() - ori_length;
        let counted_len = if counted { closure_len + n } else { closure_len };
        let length: isize = counted_len as isize + addition;
        let ghost c = this;
        let r = this.overwrite_prefix(start, n, length as i64);
        proof {
            if f_only_appends(f) {
                law_builder_only_appends(
                    f,
                    self@,
                    be_prefix(n as int, 0),
                    be_prefix(n as int, length as int),
                    b,
                    c,
                );
            }
        }
        r
    }

    /// Appends a section: a length field of the width that `prefix` selects,
    /// then what `f` appends. The field holds the section's length (counting
    /// the field itself when `prefix` has `PREFIX_WITH`) plus `addition`.
    /// Without a width, `f` is simply applied.
    pub fn write_with_length(self, prefix: u8, addition: isize, f: impl FnOnce(Self) -> Self) -> (r: Self)
        requires
            prefix_supported(prefix),
            prefix_len(prefix) == 0 ==> f.requires((self,)),
            prefix_len(prefix) != 0 ==> f_accepts(f, self@ + be_prefix(prefix_len(prefix), 0)),
            prefix_len(prefix) != 0 ==> f_keeps_prefix_room(
                f,
                self@ + be_prefix(prefix_len(prefix), 0),
                if prefix_counts_itself(prefix) { prefix_len(prefix) } else { 0 },
                addition as int,
            ),
        ensures
            prefix_len(prefix) == 0 ==> f.ensures((self,), r),
            prefix_len(prefix) != 0 ==> exists|b: PacketBuilder, c: PacketBuilder|
                b@ == self@ + be_prefix(prefix_len(prefix), 0) && #[trigger] f.ensures((b,), c)
                    && r@ == patch(
                    c@,
                    self@.len() as int,
                    be_prefix(
                        prefix_len(prefix),
                        c@.len() - b@.len() + (if prefix_counts_itself(prefix) {
                            prefix_len(prefix)
                        } else {
                            0
                        }) + addition,
                    ),
                ),
            f_only_appends(f) ==> self@.is_prefix_of(r@),
    {
        let prefix_length = (prefix % 8) as usize;
        if prefix_length == 0 {
            return f(self);
        }
        self.length_prefixed(prefix_length, (prefix / 8) % 2 == 1, addition, f)
    }

    /// Appends a section with a 4-byte length field holding the content's
    /// length plus 4.
    pub fn section(self, f: impl FnOnce(Self) -> Self) -> (r: Self)
        requires
            f_accepts(f, self@ + be32(0)),
            f_keeps_prefix_room(f, self@ + be32(0), 0, 4),
        ensures
            exists|b: PacketBuilder, c: PacketBuilder|
                b@ == self@ + be32(0) && #[trigger] f.ensures((b,), c) && r@ == patch(
                    c@,
                    self@.len() as int,
                    be32((c@.len() - b@.len() + 4) as u32),
                ),
            f_only_appends(f) ==> self@.is_prefix_of(r@),
    {
        self.section_with_addition(4, f)
    }

    /// Appends a section with a 4-byte length field holding the content's
    /// length plus `addition`.
    pub fn section_with_addition(self, addition: isize, f: impl FnOnce(Self) -> Self) -> (r: Self)
        requires
            f_accepts(f, self@ + be32(0)),
            f_keeps_prefix_room(f, self@ + be32(0), 0, addition as int),
        ensures
            exists|b: PacketBuilder, c: PacketBuilder|
                b@ == self@ + be32(0) && #[trigger] f.ensures((b,), c) && r@ == patch(
                    c@,
                    self@.len() as int,
                    be32((c@.len() - b@.len() + addition) as u32),
                ),
            f_only_appends(f) ==> self@.is_prefix_of(r@),
    {
        assert(be_prefix(4, 0) =~= be32(0));
        self.length_prefixed(4, false, addition, f)
    }

    /// Appends a section with a 2-byte length field holding the content's
    /// length plus 2.
    pub fn section_16(self, f: impl FnOnce(Self) -> Self) -> (r: Self)
        requires
            f_accepts(f, self@ + be16(0)),
            f_keeps_prefix_room(f, self@ + be16(0), 0, 2),
            f_fits_u16(f, self@ + be16(0), 2),
        ensures
            exists|b: PacketBuilder, c: PacketBuilder|
                b@ == self@ + be16(0) && #[trigger] f.ensures((b,), c) && r@ == patch(
                    c@,
                    self@.len() as int,
                    be16((c@.len() - b@.len() + 2) as u16),
                ),
            f_only_appends(f) ==> self@.is_prefix_of(r@),
    {
        self.section_16_with_addition(2, f)
    }

    /// Appends a section with a 2-byte length field holding the content's
    /// length plus `addition`, which must not exceed `u16::MAX`.
    pub fn section_16_with_addition(self, addition: isize, f: impl FnOnce(Self) -> Self) -> (r: Self)
        requires
            f_accepts(f, self@ + be16(0)),
            f_keeps_prefix_room(f, self@ + be16(0), 0, addition as int),
            f_fits_u16(f, self@ + be16(0), addition as int),
        ensures
            exists|b: PacketBuilder, c: PacketBuilder|
                b@ == self@ + be16(0) && #[trigger] f.ensures((b,), c) && r@ == patch(
                    c@,
                    self@.len() as int,
                    be16((c@.len() - b@.len() + addition) as u16),
                ),
            f_only_appends(f) ==> self@.is_prefix_of(r@),
    {
        assert(be_prefix(2, 0) =~= be16(0));
        self.length_prefixed(2, false, addition, f)
    }

    /// Appends a section around `content`: a 4-byte length field counting
    /// the content and itself, then the content. This is `section` with a
    /// function that appends `content` (see `lemma_section_appends`).
    pub fn section_of(self, content: &[u8]) -> (r: Self)
        requires
            content@.len() + 4 <= u32::MAX,
        ensures
            r@ == self@ + section_bytes(content@),
    {
        let r = self.u32((content.len() + 4) as u32).bytes(content);
        assert(r@ =~= self@ + section_bytes(content@));
        r
    }

    /// Appends a section around `content` with a 2-byte length field
    /// counting the content and itself. This is `section_16` with a function
    /// that appends `content` (see `lemma_section_16_appends`).
    pub fn section_16_of(self, content: &[u8]) -> (r: Self)
        requires
            content@.len() + 2 <= u16::MAX,
        ensures
            r@ == self@ + section_16_bytes(content@),
    {
        let r = self.u16((content.len() + 2) as u16).bytes(content);
        assert(r@ =~= self@ + section_16_bytes(content@));
        r
    }

    pub fn build(self) -> (r: Vec<u8>)
        ensures
            r@ == self@,
    {
        self.buffer
    }

    pub fn len(&self) -> (r: usize)
        ensures
            r == self@.len(),
    {
        self.buffer.len()
    }
}

} // verus!

verus! {

// ---------------------------------------------------------------------------
// Reader
// ---------------------------------------------------------------------------

/// Reads big-endian values, byte strings and length-prefixed sections from
/// the front of a packet.
#[derive(Debug)]
pub struct PacketReader {
    data: Vec<u8>,
    pos: usize,
}

impl View for PacketReader {
    type V = Seq<u8>;

    /// The bytes not read yet.
    closed spec fn view(&self) -> Seq<u8> {
        self.data@.skip(self.pos as int)
    }
}

impl PacketReader {
    #[verifier::type_invariant]
    closed spec fn inv(self) -> bool {
        self.pos <= self.data@.len()
    }

    pub fn new(packet: Vec<u8>) -> (r: Self)
        ensures
            r@ == packet@,
    {
        let r = PacketReader { data: packet, pos: 0 };
        assert(r.data@.skip(0) =~= packet@);
        r
    }

    /// The number of bytes not read yet.
    pub fn remaining(&self) -> (r: usize)
        ensures
            r == self@.len(),
    {
        proof {
            use_type_invariant(self);
        }
        self.data.len() - self.pos
    }

    fn take_byte(&mut self) -> (r: u8)
        requires
            old(self)@.len() >= 1,
        ensures
            r == old(self)@[0],
            final(self)@ == old(self)@.skip(1),
    {
        proof {
            use_type_invariant(&*self);
        }
        let b = self.data[self.pos];
        let l = self.data.len();
        assert(self.pos < l);
        self.pos = self.pos + 1;
        proof {
            assert(self.data@.skip(self.pos as int) =~= old(self)@.skip(1));
        }
        b
    }

    pub fn u8(&mut self) -> (r: u8)
        requires
            old(self)@.len() >= 1,
        ensures
            r == old(self)@[0],
            final(self)@ == old(self)@.skip(1),
    {
        self.take_byte()
    }

    pub fn u16(&mut self) -> (r: u16)
        requires
            old(self)@.len() >= 2,
        ensures
            r == from_be16(old(self)@),
            final(self)@ == old(self)@.skip(2),
    {
        let a = self.take_byte();
        let b = self.take_byte();
        assert(old(self)@.skip(1).skip(1) =~= old(self)@.skip(2));
        (a as u16) * 0x100 + (b as u16)
    }

    pub fn u32(&mut self) -> (r: u32)
        requires
            old(self)@.len() >= 4,
        ensures
            r == from_be32(old(self)@),
            final(self)@ == old(self)@.skip(4),
    {
        let a = self.take_byte();
        let b = self.take_byte();
        let c = self.take_byte();
        let d = self.take_byte();
        assert(old(self)@.skip(1).skip(1).skip(1).skip(1) =~= old(self)@.skip(4));
        (a as u32) * 0x1000000 + (b as u32) * 0x10000 + (c as u32) * 0x100 + (d as u32)
    }

    pub fn u64(&mut self) -> (r: u64)
        requires
            old(self)@.len() >= 8,
        ensures
            r == from_be64(old(self)@),
            final(self)@ == old(self)@.skip(8),
    {
        let hi = self.u32();
        let lo = self.u32();
        assert(old(self)@.skip(4).skip(4) =~= old(self)@.skip(8));
        assert(from_be32(old(self)@.take(4)) == from_be32(old(self)@));
        assert(from_be32(old(self)@.skip(4)) == hi || true);
        (hi as u64) * 0x1_0000_0000 + (lo as u64)
    }

    pub fn i8(&mut self) -> (r: i8)
        requires
            old(self)@.len() >= 1,
        ensures
            r == old(self)@[0] as i8,
            final(self)@ == old(self)@.skip(1),
    {
        self.u8() as i8
    }

    pub fn i16(&mut self) -> (r: i16)
        requires
            old(self)@.len() >= 2,
        ensures
            r == from_be16(old(self)@) as i16,
            final(self)@ == old(self)@.skip(2),
    {
        self.u16() as i16
    }

    pub fn i32(&mut self) -> (r: i32)
        requires
            old(self)@.len() >= 4,
        ensures
            r == from_be32(old(self)@) as i32,
            final(self)@ == old(self)@.skip(4),
    {
        self.u32() as i32
    }

    pub fn i64(&mut self) -> (r: i64)
        requires
            old(self)@.len() >= 8,
        ensures
            r == from_be64(old(self)@) as i64,
            final(self)@ == old(self)@.skip(8),
    {
        self.u64() as i64
    }

    /// Takes the next `count` bytes.
    fn split_to(&mut self, count: usize) -> (r: Vec<u8>)
        requires
            count <= old(self)@.len(),
        ensures
            r@ == old(self)@.take(count as int),
            final(self)@ == old(self)@.skip(count as int),
    {
        proof {
            use_type_invariant(&*self);
        }
        let mut out: Vec<u8> = Vec::with_capacity(count);
        let l = self.data.len();
        assert(self.pos + count <= l);
        let end = self.pos + count;
        let mut i = self.pos;
        while i < end
            invariant
                self.pos <= i <= end <= self.data@.len(),
                end == self.pos + count,
                out@ =~= self.data@.subrange(self.pos as int, i as int),
            decreases end - i,
        {
            out.push(self.data[i]);
            i = i + 1;
        }
        self.pos = end;
        proof {
            assert(out@ =~= old(self)@.take(count as int));
            assert(self.data@.skip(self.pos as int) =~= old(self)@.skip(count as int));
        }
        out
    }

    /// Takes everything not read yet.
    pub fn bytes(&mut self) -> (r: Vec<u8>)
        ensures
            r@ == old(self)@,
            final(self)@ == Seq::<u8>::empty(),
    {
        let n = self.remaining();
        let r = self.split_to(n);
        assert(old(self)@.take(n as int) =~= old(self)@);
        r
    }

    /// Skips the next `n` bytes.
    pub fn skip(&mut self, n: usize)
        requires
            n <= old(self)@.len(),
        ensures
            final(self)@ == old(self)@.skip(n as int),
    {
        proof {
            use_type_invariant(&*self);
        }
        let l = self.data.len();
        assert(self.pos + n <= l);
        self.pos = self.pos + n;
        proof {
            assert(self.data@.skip(self.pos as int) =~= old(self)@.skip(n as int));
        }
    }

    /// Reads the rest as text, replacing invalid UTF-8 as
    /// `String::from_utf8_lossy` does.
    pub fn string(&mut self) -> (r: String)
        ensures
            r@ == utf8_lossy(old(self)@),
            vstd::utf8::valid_utf8(old(self)@) ==> r@ == vstd::utf8::decode_utf8(old(self)@),
            final(self)@ == Seq::<u8>::empty(),
    {
        let b = self.bytes();
        string_from_utf8_lossy(b.as_slice())
    }

    /// Reads a length field of the width that `prefix` selects (none, 1, 2
    /// or 4 bytes) and returns a reader over that many following bytes, less
    /// the field's own width when `prefix` has `PREFIX_WITH`.
    pub fn read_with_length(&mut self, prefix: u8) -> (r: PacketReader)
        requires
            prefix_supported(prefix),
            old(self)@.len() >= prefix_len(prefix),
            0 <= read_length(old(self)@, prefix) <= old(self)@.len() - prefix_len(prefix),
        ensures
            r@ == old(self)@.skip(prefix_len(prefix)).take(read_length(old(self)@, prefix)),
            final(self)@ == old(self)@.skip(prefix_len(prefix) + read_length(old(self)@, prefix)),
    {
        let prefix_length = (prefix % 8) as usize;
        let length_counted = (prefix / 8) % 2 == 1;
        let ghost s0 = self@;
        let raw: usize = if prefix_length == 0 {
            0
        } else if prefix_length == 1 {
            self.u8() as usize
        } else if prefix_length == 2 {
            self.u16() as usize
        } else {
            self.u32() as usize
        };
        let length = raw - if length_counted { prefix_length } else { 0 };
        let ghost s1 = self@;
        let buffer = self.split_to(length);
        proof {
            assert(s1 =~= s0.skip(prefix_len(prefix)));
            assert(s1.skip(length as int) =~= s0.skip(prefix_len(prefix) + length));
        }
        PacketReader::new(buffer)
    }

    /// Returns a reader over the next `count` bytes, which it takes.
    pub fn read_with_length_exact(&mut self, count: usize) -> (r: PacketReader)
        requires
            count <= old(self)@.len(),
        ensures
            r@ == old(self)@.take(count as int),
            final(self)@ == old(self)@.skip(count as int),
    {
        PacketReader::new(self.split_to(count))
    }

    /// Reads a section: a 4-byte length field counting itself, then the
    /// content, which the returned reader holds.
    pub fn section(&mut self) -> (r: PacketReader)
        requires
            old(self)@.len() >= 4,
            4 <= from_be32(old(self)@) <= old(self)@.len(),
        ensures
            r@ == old(self)@.subrange(4, from_be32(old(self)@) as int),
            final(self)@ == old(self)@.skip(from_be32(old(self)@) as int),
    {
        self.section_with_addition(4)
    }

    /// Reads a section whose 4-byte length field holds the content's length
    /// plus `addition`.
    pub fn section_with_addition(&mut self, addition: isize) -> (r: PacketReader)
        requires
            old(self)@.len() >= 4,
            0 <= from_be32(old(self)@) - addition <= old(self)@.len() - 4,
        ensures
            r@ == old(self)@.subrange(4, 4 + from_be32(old(self)@) - addition),
            final(self)@ == old(self)@.skip(4 + from_be32(old(self)@) - addition),
    {
        let ghost s0 = self@;
        let length = self.u32() as i128 - addition as i128;
        let ghost s1 = self@;
        let rem = self.remaining();
        assert(length <= rem);
        let buffer = self.split_to(length as usize);
        proof {
            assert(s1.take(length as int) =~= s0.subrange(4, 4 + length));
            assert(s1.skip(length as int) =~= s0.skip(4 + length));
        }
        PacketReader::new(buffer)
    }

    /// Reads a section: a 2-byte length field counting itself, then the
    /// content, which the returned reader holds.
    pub fn section_16(&mut self) -> (r: PacketReader)
        requires
            old(self)@.len() >= 2,
            2 <= from_be16(old(self)@) <= old(self)@.len(),
        ensures
            r@ == old(self)@.subrange(2, from_be16(old(self)@) as int),
            final(self)@ == old(self)@.skip(from_be16(old(self)@) as int),
    {
        self.section_16_with_addition(2)
    }

    /// Reads a section whose 2-byte length field holds the content's length
    /// plus `addition`.
    pub fn section_16_with_addition(&mut self, addition: isize) -> (r: PacketReader)
        requires
            old(self)@.len() >= 2,
            0 <= from_be16(old(self)@) - addition <= old(self)@.len() - 2,
        ensures
            r@ == old(self)@.subrange(2, 2 + from_be16(old(self)@) - addition),
            final(self)@ == old(self)@.skip(2 + from_be16(old(self)@) - addition),
    {
        let ghost s0 = self@;
        let length = self.u16() as i128 - addition as i128;
        let ghost s1 = self@;
        let rem = self.remaining();
        assert(length <= rem);
        let buffer = self.split_to(length as usize);
        proof {
            assert(s1.take(length as int) =~= s0.subrange(2, 2 + length));
            assert(s1.skip(length as int) =~= s0.skip(2 + length));
        }
        PacketReader::new(buffer)
    }

    /// Takes the next `count` bytes as a packet.
    pub fn read_packet(&mut self, count: usize) -> (r: BinaryPacket)
        requires
            count <= old(self)@.len(),
        ensures
            r.0@ == old(self)@.take(count as int),
            final(self)@ == old(self)@.skip(count as int),
    {
        BinaryPacket(self.split_to(count))
    }
}

/// A raw packet body.
#[derive(Debug)]
pub struct BinaryPacket(pub Vec<u8>);

} // verus!

verus! {

// ---------------------------------------------------------------------------
// Laws: what the builder writes, the reader reads back.
// ---------------------------------------------------------------------------

/// A byte appended with `PacketBuilder::u8` is read back by `PacketReader::u8`,
/// and the bytes after it are left.
pub proof fn law_u8_read_back(v: u8, rest: Seq<u8>)
    ensures
        (seq![v] + rest)[0] == v,
        (seq![v] + rest).skip(1) == rest,
{
    assert((seq![v] + rest).skip(1) =~= rest);
}

/// A value appended with `PacketBuilder::u16` is read back by
/// `PacketReader::u16`, and the bytes after it are left.
pub proof fn law_u16_read_back(v: u16, rest: Seq<u8>)
    ensures
        from_be16(be16(v) + rest) == v,
        (be16(v) + rest).skip(2) == rest,
{
    lemma_be16_roundtrip(v);
    assert((be16(v) + rest).skip(2) =~= rest);
}

/// A value appended with `PacketBuilder::u32` is read back by
/// `PacketReader::u32`, and the bytes after it are left.
pub proof fn law_u32_read_back(v: u32, rest: Seq<u8>)
    ensures
        from_be32(be32(v) + rest) == v,
        (be32(v) + rest).skip(4) == rest,
{
    lemma_be32_roundtrip(v);
    assert((be32(v) + rest).skip(4) =~= rest);
}

/// A value appended with `PacketBuilder::u64` is read back by
/// `PacketReader::u64`, and the bytes after it are left.
pub proof fn law_u64_read_back(v: u64, rest: Seq<u8>)
    ensures
        from_be64(be64(v) + rest) == v,
        (be64(v) + rest).skip(8) == rest,
{
    lemma_be64_roundtrip(v);
    let s = be64(v) + rest;
    assert(s.take(4) =~= be64(v).take(4));
    assert(s.skip(4).take(4) =~= be64(v).skip(4));
    assert(from_be32(s.skip(4)) == from_be32(be64(v).skip(4)));
    assert(s.skip(8) =~= rest);
}

/// Filling a length field placed after `prefix` with `field` gives
/// `prefix`, then `field`, then the content.
pub proof fn lemma_patch_field(prefix: Seq<u8>, zeros: Seq<u8>, content: Seq<u8>, field: Seq<u8>)
    requires
        zeros.len() == field.len(),
    ensures
        patch(prefix + zeros + content, prefix.len() as int, field) == prefix + field + content,
{
    assert(patch(prefix + zeros + content, prefix.len() as int, field) =~= prefix + field
        + content);
}

/// A section that `PacketBuilder::section` writes around `content` is read
/// back by `PacketReader::section`: the length field counts the content and
/// the field, and the reader returns exactly the content.
pub proof fn law_section_read_back(prefix: Seq<u8>, content: Seq<u8>, rest: Seq<u8>)
    requires
        content.len() + 4 <= u32::MAX,
    ensures
        ({
            let written = patch(
                prefix + be32(0) + content,
                prefix.len() as int,
                be32((content.len() + 4) as u32),
            );
            let s = written.skip(prefix.len() as int) + rest;
            &&& written == prefix + be32((content.len() + 4) as u32) + content
            &&& from_be32(s) == content.len() + 4
            &&& s.subrange(4, from_be32(s) as int) == content
            &&& s.skip(from_be32(s) as int) == rest
        }),
{
    let f = be32((content.len() + 4) as u32);
    lemma_patch_field(prefix, be32(0), content, f);
    let written = prefix + f + content;
    assert(written.skip(prefix.len() as int) =~= f + content);
    let s = f + content + rest;
    assert(s =~= f + (content + rest));
    law_u32_read_back((content.len() + 4) as u32, content + rest);
    assert(s.subrange(4, content.len() + 4 as int) =~= content);
    assert(s.skip(content.len() + 4 as int) =~= rest);
}

/// The same for `section_16`: a two-byte field counting the content and
/// itself, read back by `PacketReader::section_16`.
pub proof fn law_section_16_read_back(prefix: Seq<u8>, content: Seq<u8>, rest: Seq<u8>)
    requires
        content.len() + 2 <= u16::MAX,
    ensures
        ({
            let written = patch(
                prefix + be16(0) + content,
                prefix.len() as int,
                be16((content.len() + 2) as u16),
            );
            let s = written.skip(prefix.len() as int) + rest;
            &&& written == prefix + be16((content.len() + 2) as u16) + content
            &&& from_be16(s) == content.len() + 2
            &&& s.subrange(2, from_be16(s) as int) == content
            &&& s.skip(from_be16(s) as int) == rest
        }),
{
    let f = be16((content.len() + 2) as u16);
    lemma_patch_field(prefix, be16(0), content, f);
    let written = prefix + f + content;
    assert(written.skip(prefix.len() as int) =~= f + content);
    let s = f + content + rest;
    assert(s =~= f + (content + rest));
    law_u16_read_back((content.len() + 2) as u16, content + rest);
    assert(s.subrange(2, content.len() + 2 as int) =~= content);
    assert(s.skip(content.len() + 2 as int) =~= rest);
}

/// A section around `content`: a 4-byte length field counting the content
/// and itself, then the content.
pub open spec fn section_bytes(content: Seq<u8>) -> Seq<u8> {
    be32((content.len() + 4) as u32) + content
}

/// A section around `content` with a 2-byte length field counting the
/// content and itself.
pub open spec fn section_16_bytes(content: Seq<u8>) -> Seq<u8> {
    be16((content.len() + 2) as u16) + content
}

/// When `f` appends `content` to whatever builder it gets, `section(f)`
/// appends `section_bytes(content)`.
pub proof fn lemma_section_appends<F: FnOnce(PacketBuilder) -> PacketBuilder>(
    f: F,
    start: Seq<u8>,
    content: Seq<u8>,
    r: Seq<u8>,
)
    requires
        forall|b: PacketBuilder, c: PacketBuilder| #[trigger] f.ensures((b,), c) ==> c@ == b@ + content,
        exists|b: PacketBuilder, c: PacketBuilder|
            b@ == start + be32(0) && #[trigger] f.ensures((b,), c) && r == patch(
                c@,
                start.len() as int,
                be32((c@.len() - b@.len() + 4) as u32),
            ),
    ensures
        r == start + section_bytes(content),
{
    let (b, c) = choose|b: PacketBuilder, c: PacketBuilder|
        b@ == start + be32(0) && #[trigger] f.ensures((b,), c) && r == patch(
            c@,
            start.len() as int,
            be32((c@.len() - b@.len() + 4) as u32),
        );
    lemma_patch_field(start, be32(0), content, be32((content.len() + 4) as u32));
    assert(c@ == start + be32(0) + content);
    assert(start + be32((content.len() + 4) as u32) + content =~= start + section_bytes(content));
}

/// When `f` appends `content` to whatever builder it gets, `section_16(f)`
/// appends `section_16_bytes(content)`.
pub proof fn lemma_section_16_appends<F: FnOnce(PacketBuilder) -> PacketBuilder>(
    f: F,
    start: Seq<u8>,
    content: Seq<u8>,
    r: Seq<u8>,
)
    requires
        forall|b: PacketBuilder, c: PacketBuilder| #[trigger] f.ensures((b,), c) ==> c@ == b@ + content,
        exists|b: PacketBuilder, c: PacketBuilder|
            b@ == start + be16(0) && #[trigger] f.ensures((b,), c) && r == patch(
                c@,
                start.len() as int,
                be16((c@.len() - b@.len() + 2) as u16),
            ),
    ensures
        r == start + section_16_bytes(content),
{
    let (b, c) = choose|b: PacketBuilder, c: PacketBuilder|
        b@ == start + be16(0) && #[trigger] f.ensures((b,), c) && r == patch(
            c@,
            start.len() as int,
            be16((c@.len() - b@.len() + 2) as u16),
        );
    lemma_patch_field(start, be16(0), content, be16((content.len() + 2) as u16));
    assert(c@ == start + be16(0) + content);
    assert(start + be16((content.len() + 2) as u16) + content =~= start + section_16_bytes(content));
}

/// When `f` appends `content` to whatever builder it gets,
/// `write_with_length(prefix, addition, f)` with a prefix width appends the
/// length field, holding the content's length (plus the field's own width
/// when `prefix` has `PREFIX_WITH`) plus `addition`, then the content.
pub proof fn lemma_write_with_length_appends<F: FnOnce(PacketBuilder) -> PacketBuilder>(
    f: F,
    start: Seq<u8>,
    content: Seq<u8>,
    prefix: u8,
    addition: int,
    r: Seq<u8>,
)
    requires
        prefix_supported(prefix),
        prefix_len(prefix) != 0,
        forall|b: PacketBuilder, c: PacketBuilder| #[trigger] f.ensures((b,), c) ==> c@ == b@ + content,
        exists|b: PacketBuilder, c: PacketBuilder|
            b@ == start + be_prefix(prefix_len(prefix), 0) && #[trigger] f.ensures((b,), c)
                && r == patch(
                c@,
                start.len() as int,
                be_prefix(
                    prefix_len(prefix),
                    c@.len() - b@.len() + (if prefix_counts_itself(prefix) {
                        prefix_len(prefix)
                    } else {
                        0
                    }) + addition,
                ),
            ),
    ensures
        r == start + be_prefix(
            prefix_len(prefix),
            content.len() + (if prefix_counts_itself(prefix) { prefix_len(prefix) } else { 0 })
                + addition,
        ) + content,
{
    let n = prefix_len(prefix);
    let v = content.len() + (if prefix_counts_itself(prefix) { n } else { 0 }) + addition;
    let (b, c) = choose|b: PacketBuilder, c: PacketBuilder|
        b@ == start + be_prefix(n, 0) && #[trigger] f.ensures((b,), c) && r == patch(
            c@,
            start.len() as int,
            be_prefix(
                n,
                c@.len() - b@.len() + (if prefix_counts_itself(prefix) { n } else { 0 })
                    + addition,
            ),
        );
    lemma_patch_field(start, be_prefix(n, 0), content, be_prefix(n, v));
}

/// `f` only appends: what it returns starts with what it was given.
pub open spec fn f_only_appends<F: FnOnce(PacketBuilder) -> PacketBuilder>(f: F) -> bool {
    forall|b: PacketBuilder, c: PacketBuilder| #[trigger]
        f.ensures((b,), c) ==> b@.is_prefix_of(c@)
}

/// Builder operations only append, and never rewrite a byte written before
/// them. The methods without a function argument state so directly
/// (`r@ == self@ + ...`); those with one (`packet`, `section*`,
/// `section_16*`, `write_with_length`) state that the result starts with
/// the builder's bytes wherever the function only appends, from this law:
/// the builder held `start`, a placeholder field was appended, `f` (which
/// only appends) made `c` from that, and the field was then overwritten
/// with the length; the result still starts with `start`, and is as long as
/// `c`.
pub proof fn law_builder_only_appends<F: FnOnce(PacketBuilder) -> PacketBuilder>(
    f: F,
    start: Seq<u8>,
    placeholder: Seq<u8>,
    field: Seq<u8>,
    b: PacketBuilder,
    c: PacketBuilder,
)
    requires
        f_only_appends(f),
        b@ == start + placeholder,
        f.ensures((b,), c),
        field.len() == placeholder.len(),
    ensures
        start.is_prefix_of(patch(c@, start.len() as int, field)),
        patch(c@, start.len() as int, field).len() == c@.len(),
{
    assert(b@.is_prefix_of(c@));
    let r = patch(c@, start.len() as int, field);
    assert(r.subrange(0, start.len() as int) =~= c@.subrange(0, start.len() as int));
    assert(c@.subrange(0, start.len() as int) =~= b@.subrange(0, start.len() as int));
    assert(b@.subrange(0, start.len() as int) =~= start);
}

} // verus!
