use vstd::prelude::*;

verus! {

/// Mask of the seven value bits of a VarInt byte.
pub const SEGMENT_BITS: u8 = 0x7F;

/// Bit that marks every VarInt byte but the last.
pub const CONTINUE_BIT: u8 = 0x80;

/// Longest VarInt encoding, in bytes.
pub const VARINT_MAX_LEN: usize = 5;

/// Why a wire value could not be decoded.
#[derive(Debug, Clone, Copy, PartialEq, Eq, Structural)]
pub enum CodecError {
    /// The input ended before the value did.
    Truncated,
    /// Five VarInt bytes all carried the continuation bit.
    VarIntTooLong,
    /// A length prefix was negative or does not fit what follows it.
    InvalidLength,
    /// A string's bytes are not UTF-8.
    InvalidUtf8,
}

// ---------------------------------------------------------------------------
// The mathematical model of the wire formats.
// ---------------------------------------------------------------------------
/// Whether `b` carries the continuation bit.
pub open spec fn continues(b: u8) -> bool {
    b >= 0x80
}

/// Number of bytes of the VarInt at the start of `bytes`, looking at no more
/// than `limit` bytes: up to and including the first byte without the
/// continuation bit.
pub open spec fn varint_scan(bytes: Seq<u8>, limit: nat) -> Option<nat>
    decreases limit,
{
    if limit == 0 || bytes.len() == 0 {
        None
    } else if !continues(bytes[0]) {
        Some(1)
    } else {
        match varint_scan(bytes.skip(1), (limit - 1) as nat) {
            Some(n) => Some(n + 1),
            None => None,
        }
    }
}

/// Number of bytes of the VarInt at the start of `bytes`, if it ends within
/// the first five bytes.
pub open spec fn varint_size(bytes: Seq<u8>) -> Option<nat> {
    varint_scan(bytes, 5)
}

/// The unbounded number whose seven-bit groups, low group first, are the low
/// bits of `bytes`.
pub open spec fn varint_sum(bytes: Seq<u8>) -> nat
    decreases bytes.len(),
{
    if bytes.len() == 0 {
        0
    } else {
        (bytes[0] % 128) as nat + 128 * varint_sum(bytes.skip(1))
    }
}

/// The 32-bit signed value that the VarInt encoding `bytes` stands for.
pub open spec fn varint_value(bytes: Seq<u8>) -> i32 {
    ((varint_sum(bytes) % 0x1_0000_0000) as u32) as i32
}

/// What decoding a VarInt from the start of `bytes` gives: the value and the
/// number of bytes it takes, or why there is none.
pub open spec fn varint_read(bytes: Seq<u8>) -> Result<(i32, nat), CodecError> {
    match varint_size(bytes) {
        Some(n) => Ok((varint_value(bytes.take(n as int)), n)),
        None => if bytes.len() >= 5 {
            Err(CodecError::VarIntTooLong)
        } else {
            Err(CodecError::Truncated)
        },
    }
}

/// The shortest encoding of an unsigned 32-bit quantity, low group first.
pub open spec fn varint_encode_nat(v: nat) -> Seq<u8>
    decreases v,
{
    if v < 128 {
        seq![v as u8]
    } else {
        seq![(v % 128 + 128) as u8] + varint_encode_nat(v / 128)
    }
}

/// The encoding of `x`: its 32 bits read as unsigned, so that a negative
/// number takes five bytes.
pub open spec fn varint_encode(x: i32) -> Seq<u8> {
    varint_encode_nat((x as u32) as nat)
}

/// `data` is exactly one complete VarInt and it stands for `value`.
pub open spec fn is_varint_of(data: Seq<u8>, value: i32) -> bool {
    varint_read(data) == Ok::<(i32, nat), CodecError>((value, data.len()))
}

/// The wire form of a string: the VarInt byte length, then the UTF-8 bytes.
pub open spec fn var_string_encode(s: Seq<char>) -> Seq<u8> {
    varint_encode(encode_utf8_len(s) as i32) + vstd::utf8::encode_utf8(s)
}

/// Length in bytes of the UTF-8 form of `s`.
pub open spec fn encode_utf8_len(s: Seq<char>) -> nat {
    vstd::utf8::encode_utf8(s).len()
}

/// What decoding a string from the start of `bytes` gives: its characters and
/// the number of bytes it takes, or why there is none.
pub open spec fn var_string_read(bytes: Seq<u8>) -> Result<(Seq<char>, nat), CodecError> {
    match varint_read(bytes) {
        Err(e) => Err(e),
        Ok((len, n)) => if len < 0 {
            Err(CodecError::InvalidLength)
        } else if bytes.len() < n + len {
            Err(CodecError::Truncated)
        } else if !vstd::utf8::valid_utf8(bytes.subrange(n as int, n + len)) {
            Err(CodecError::InvalidUtf8)
        } else {
            Ok((vstd::utf8::decode_utf8(bytes.subrange(n as int, n + len)), n + len as nat))
        },
    }
}

/// The wire form of an unsigned 16-bit integer: two bytes, high byte first.
pub open spec fn ushort_encode(v: u16) -> Seq<u8> {
    seq![(v / 256) as u8, (v % 256) as u8]
}

/// What decoding an unsigned 16-bit integer from the start of `bytes` gives.
pub open spec fn ushort_read(bytes: Seq<u8>) -> Result<u16, CodecError> {
    if bytes.len() < 2 {
        Err(CodecError::Truncated)
    } else {
        Ok((bytes[0] as nat * 256 + bytes[1] as nat) as u16)
    }
}

// ---------------------------------------------------------------------------
// Lemmas on the model.
// ---------------------------------------------------------------------------
/// 128 to the power `n`: the weight of the `n`-th seven-bit group.
pub open spec fn pow128(n: nat) -> nat
    decreases n,
{
    if n == 0 {
        1
    } else {
        128 * pow128((n - 1) as nat)
    }
}

proof fn lemma_pow128_values()
    ensures
        pow128(4) == 0x1000_0000,
        pow128(5) == 0x8_0000_0000,
{
    assert(pow128(0) == 1);
    assert(pow128(1) == 128);
    assert(pow128(2) == 0x4000);
    assert(pow128(3) == 0x20_0000);
    assert(pow128(4) == 0x1000_0000);
    assert(pow128(5) == 0x8_0000_0000);
}

proof fn lemma_encode_nat_len(v: nat, k: nat)
    requires
        v < pow128(k),
        k >= 1,
    ensures
        1 <= varint_encode_nat(v).len() <= k,
    decreases v,
{
    if v >= 128 {
        assert(v / 128 < pow128((k - 1) as nat));
        lemma_encode_nat_len(v / 128, (k - 1) as nat);
    }
}

proof fn lemma_encode_nat_decodes(v: nat, rest: Seq<u8>, limit: nat)
    requires
        varint_encode_nat(v).len() <= limit,
    ensures
        varint_scan(varint_encode_nat(v) + rest, limit) == Some(varint_encode_nat(v).len()),
        varint_sum(varint_encode_nat(v)) == v,
    decreases v,
{
    let e = varint_encode_nat(v);
    if v >= 128 {
        let tail = varint_encode_nat(v / 128);
        assert(e[0] % 128 == v % 128);
        assert(v == v % 128 + 128 * (v / 128));
        assert(e.skip(1) =~= tail);
        assert((e + rest).skip(1) =~= tail + rest);
        lemma_encode_nat_decodes(v / 128, rest, (limit - 1) as nat);
        assert(varint_sum(e) == (e[0] % 128) as nat + 128 * varint_sum(e.skip(1)));
    } else {
        assert(e.skip(1).len() == 0);
        assert(varint_sum(e.skip(1)) == 0);
        assert(varint_sum(e) == (e[0] % 128) as nat + 128 * varint_sum(e.skip(1)));
    }
}

/// Decoding the encoding of `x`, followed by anything, gives `x` back and
/// takes exactly the encoding's bytes, of which there are one to five.
pub proof fn lemma_varint_round_trip(x: i32, rest: Seq<u8>)
    ensures
        varint_read(varint_encode(x) + rest) == Ok::<(i32, nat), CodecError>(
            (x, varint_encode(x).len()),
        ),
        1 <= varint_encode(x).len() <= 5,
{
    let v = (x as u32) as nat;
    lemma_pow128_values();
    lemma_encode_nat_len(v, 5);
    lemma_encode_nat_decodes(v, rest, 5);
    let e = varint_encode(x);
    assert((e + rest).take(e.len() as int) =~= e);
    assert(((x as u32) as i32) == x) by (bit_vector);
    assert(v % 0x1_0000_0000 == v);
}

/// Five bytes that all carry the continuation bit are no VarInt, whatever
/// follows them: decoding fails with a length error.
pub proof fn lemma_varint_too_long(bytes: Seq<u8>)
    requires
        bytes.len() >= 5,
        forall|i: int| 0 <= i < 5 ==> continues(#[trigger] bytes[i]),
    ensures
        varint_read(bytes) == Err::<(i32, nat), CodecError>(CodecError::VarIntTooLong),
{
    assert(bytes.skip(1).skip(1) =~= bytes.skip(2));
    assert(bytes.skip(2).skip(1) =~= bytes.skip(3));
    assert(bytes.skip(3).skip(1) =~= bytes.skip(4));
    assert(bytes.skip(4).skip(1) =~= bytes.skip(5));
    assert(varint_scan(bytes.skip(5), 0) == None::<nat>);
    assert(varint_scan(bytes.skip(4), 1) == None::<nat>);
    assert(varint_scan(bytes.skip(3), 2) == None::<nat>);
    assert(varint_scan(bytes.skip(2), 3) == None::<nat>);
    assert(varint_scan(bytes.skip(1), 4) == None::<nat>);
}

/// The encoding of `x` is a complete VarInt that stands for `x`.
pub proof fn lemma_varint_encode_valid(x: i32)
    ensures
        is_varint_of(varint_encode(x), x),
{
    lemma_varint_round_trip(x, Seq::empty());
    assert(varint_encode(x) + Seq::<u8>::empty() =~= varint_encode(x));
}

/// A string's wire form decodes to the same characters, whatever follows it,
/// as long as its byte length fits a VarInt.
pub proof fn lemma_var_string_round_trip(s: Seq<char>, rest: Seq<u8>)
    requires
        encode_utf8_len(s) <= i32::MAX,
    ensures
        var_string_read(var_string_encode(s) + rest) == Ok::<(Seq<char>, nat), CodecError>(
            (s, var_string_encode(s).len()),
        ),
{
    let len = encode_utf8_len(s) as i32;
    let body = vstd::utf8::encode_utf8(s);
    let prefix = varint_encode(len);
    let all = var_string_encode(s) + rest;
    assert(all =~= prefix + (body + rest));
    lemma_varint_round_trip(len, body + rest);
    assert(all.subrange(prefix.len() as int, prefix.len() + len) =~= body);
    vstd::utf8::encode_utf8_valid_utf8(s);
    vstd::utf8::encode_utf8_decode_utf8(s);
}

/// Decoding the wire form of `v` gives `v` back.
pub proof fn lemma_ushort_round_trip(v: u16, rest: Seq<u8>)
    ensures
        ushort_read(ushort_encode(v) + rest) == Ok::<u16, CodecError>(v),
{
}

/// The UTF-8 form of a string takes at most four bytes per character.
pub proof fn lemma_utf8_len_bound(s: Seq<char>)
    ensures
        encode_utf8_len(s) <= 4 * s.len(),
    decreases s.len(),
{
    if s.len() > 0 {
        lemma_utf8_len_bound(s.drop_first());
    }
}

/// The wire form of a string of at most a thousand characters is at most a
/// little over four thousand bytes.
pub proof fn lemma_short_string_encode(s: Seq<char>)
    requires
        s.len() <= 1000,
    ensures
        encode_utf8_len(s) <= 4000,
        var_string_encode(s).len() <= 4005,
{
    lemma_utf8_len_bound(s);
    lemma_varint_round_trip(encode_utf8_len(s) as i32, Seq::empty());
    assert(varint_encode(encode_utf8_len(s) as i32) + Seq::<u8>::empty() =~= varint_encode(
        encode_utf8_len(s) as i32,
    ));
}

// ---------------------------------------------------------------------------
// Byte helpers.
// ---------------------------------------------------------------------------
/// A fresh vector holding `data[from..to]`.
pub fn copy_range(data: &[u8], from: usize, to: usize) -> (r: Vec<u8>)
    requires
        from <= to <= data@.len(),
    ensures
        r@ == data@.subrange(from as int, to as int),
{
    let mut r: Vec<u8> = Vec::with_capacity(to - from);
    let mut i: usize = from;
    while i < to
        invariant
            from <= i <= to <= data@.len(),
            r@ == data@.subrange(from as int, i as int),
        decreases to - i,
    {
        r.push(data[i]);
        i = i + 1;
    }
    r
}

/// A fresh vector with the same bytes as `v`.
pub fn copy_vec(v: &Vec<u8>) -> (r: Vec<u8>)
    ensures
        r@ == v@,
{
    let r = copy_range(v.as_slice(), 0, v.len());
    assert(v@.subrange(0, v@.len() as int) =~= v@);
    r
}

// ---------------------------------------------------------------------------
// VarInt
// ---------------------------------------------------------------------------
/// What a `VarInt` stands for: its value and the bytes it was read from or
/// written as.
pub struct VarIntView {
    pub value: i32,
    pub data: Seq<u8>,
}

/// A decoded or encoded VarInt that keeps its exact bytes, which need not be
/// the shortest encoding of its value.
#[derive(Debug)]
pub struct VarInt {
    value: i32,
    data: Vec<u8>,
}

impl View for VarInt {
    type V = VarIntView;

    closed spec fn view(&self) -> VarIntView {
        VarIntView { value: self.value, data: self.data@ }
    }
}

impl VarInt {
    #[verifier::type_invariant]
    spec fn well_formed(self) -> bool {
        is_varint_of(self.data@, self.value)
    }

    pub fn get_int(&self) -> (r: i32)
        ensures
            r == self@.value,
    {
        self.value
    }

    /// A copy of the bytes; `self` stays usable.
    pub fn get_data(&self) -> (r: Vec<u8>)
        ensures
            r@ == self@.data,
            is_varint_of(self@.data, self@.value),
    {
        proof {
            use_type_invariant(self);
        }
        copy_vec(&self.data)
    }

    /// The bytes, taken out of `self`.
    pub fn move_data(self) -> (r: Vec<u8>)
        ensures
            r@ == self@.data,
    {
        self.data
    }

    /// Number of bytes of the encoding.
    pub fn len(&self) -> (r: usize)
        ensures
            r == self@.data.len(),
            1 <= r <= 5,
            is_varint_of(self@.data, self@.value),
    {
        proof {
            use_type_invariant(self);
            lemma_varint_scan_take(self.data@, self.data@.len(), 5);
        }
        self.data.len()
    }

    /// Decodes the VarInt that starts at `data[pos]`; returns its value and
    /// the number of bytes it takes.
    pub fn read(data: &[u8], pos: usize) -> (r: Result<(i32, usize), CodecError>)
        requires
            pos <= data@.len(),
        ensures
            match (r, varint_read(data@.skip(pos as int))) {
                (Ok((v, n)), Ok((sv, sn))) => v == sv && n == sn,
                (Err(e), Err(se)) => e == se,
                _ => false,
            },
            match r {
                Ok((v, n)) => 1 <= n <= 5 && pos + n <= data@.len(),
                Err(_) => true,
            },
    {
        let ghost rest = data@.skip(pos as int);
        let dlen: usize = data.len();
        let avail: usize = dlen - pos;
        // Find where the VarInt ends.
        let mut i: usize = 0;
        let mut end: usize = 0;
        assert(rest.skip(0) =~= rest);
        while end == 0
            invariant
                rest == data@.skip(pos as int),
                dlen == data@.len(),
                avail == rest.len(),
                pos + avail == data@.len(),
                i <= 5,
                i <= avail,
                end == 0 ==> i < 5 && forall|j: int| 0 <= j < i ==> continues(#[trigger] rest[j]),
                end == 0 ==> varint_size(rest) == match varint_scan(
                    rest.skip(i as int),
                    (5 - i) as nat,
                ) {
                    Some(n) => Some((n + i) as nat),
                    None => None,
                },
                end != 0 ==> 1 <= end <= 5 && end <= avail && varint_size(rest) == Some(
                    end as nat,
                ),
            decreases 5 - i + (if end == 0 { 1int } else { 0int }),
        {
            if i >= avail {
                proof {
                    assert(varint_scan(rest.skip(i as int), (5 - i) as nat) == None::<nat>);
                }
                return Err(CodecError::Truncated);
            }
            let b = data[pos + i];
            proof {
                assert(rest.skip(i as int)[0] == b);
                assert(rest.skip(i as int).skip(1) =~= rest.skip(i + 1));
            }
            if b & CONTINUE_BIT == 0 {
                assert(b & 0x80u8 == 0u8 ==> b < 0x80u8) by (bit_vector);
                end = i + 1;
            } else {
                assert(b & 0x80u8 != 0u8 ==> b >= 0x80u8) by (bit_vector);
                i = i + 1;
                if i >= VARINT_MAX_LEN {
                    proof {
                        assert(varint_scan(rest.skip(i as int), 0) == None::<nat>);
                    }
                    return Err(CodecError::VarIntTooLong);
                }
            }
        }
        // Fold the groups, last byte first.
        let ghost enc = rest.take(end as int);
        let mut value: u64 = 0;
        let mut j: usize = end;
        while j > 0
            invariant
                enc == rest.take(end as int),
                rest == data@.skip(pos as int),
                dlen == data@.len(),
                pos + end <= data@.len(),
                end <= 5,
                j <= end,
                value == varint_sum(enc.skip(j as int)),
                value < pow128((end - j) as nat),
            decreases j,
        {
            let b = data[pos + j - 1];
            proof {
                let s = enc.skip(j - 1);
                assert(s[0] == b);
                assert(s.skip(1) =~= enc.skip(j as int));
                assert(pow128((end - j) as nat) <= pow128(4)) by {
                    lemma_pow128_mono((end - j) as nat, 4);
                }
                lemma_pow128_values();
            }
            value = (b % 128) as u64 + 128 * value;
            j = j - 1;
        }
        proof {
            assert(enc.skip(0) =~= enc);
        }
        let v = ((value % 0x1_0000_0000) as u32) as i32;
        Ok((v, end))
    }

    /// Decodes the VarInt that starts at `data[pos]`, keeping its bytes.
    pub fn parse(data: &[u8], pos: usize) -> (r: Result<VarInt, CodecError>)
        requires
            pos <= data@.len(),
        ensures
            match (r, varint_read(data@.skip(pos as int))) {
                (Ok(v), Ok((sv, sn))) => {
                    &&& v@.value == sv
                    &&& pos + sn <= data@.len()
                    &&& v@.data == data@.subrange(pos as int, pos + sn)
                },
                (Err(e), Err(se)) => e == se,
                _ => false,
            },
    {
        let dlen: usize = data.len();
        match VarInt::read(data, pos) {
            Ok((value, n)) => {
                let bytes = copy_range(data, pos, pos + n);
                proof {
                    let rest = data@.skip(pos as int);
                    assert(bytes@ =~= rest.take(n as int));
                    lemma_varint_size_take(rest, n as nat);
                }
                Ok(VarInt { value, data: bytes })
            },
            Err(e) => Err(e),
        }
    }

    /// The VarInt of `num`, in its shortest encoding.
    pub fn from(num: i32) -> (r: VarInt)
        ensures
            r@.value == num,
            r@.data == varint_encode(num),
    {
        let data = VarInt::write_varint(num);
        proof {
            lemma_varint_encode_valid(num);
        }
        VarInt { value: num, data }
    }

    /// The shortest encoding of `num`: seven bits per byte, low group first,
    /// with the continuation bit on all but the last byte.
    pub fn write_varint(num: i32) -> (r: Vec<u8>)
        ensures
            r@ == varint_encode(num),
    {
        let mut v: u32 = num as u32;
        let mut out: Vec<u8> = Vec::new();
        while v >= 128
            invariant
                out@ + varint_encode_nat(v as nat) == varint_encode(num),
            decreases v,
        {
            let byte: u8 = ((v & (SEGMENT_BITS as u32)) | (CONTINUE_BIT as u32)) as u8;
            assert(((v & 0x7fu32) | 0x80u32) == v % 128 + 128) by (bit_vector);
            assert((v >> 7u32) == v / 128) by (bit_vector);
            let ghost before = out@;
            out.push(byte);
            proof {
                assert(varint_encode_nat(v as nat) =~= seq![byte] + varint_encode_nat((v / 128) as nat));
                assert(before + varint_encode_nat(v as nat) =~= out@ + varint_encode_nat((v / 128) as nat));
            }
            v = v >> 7;
        }
        out.push(v as u8);
        assert(out@ =~= varint_encode(num));
        out
    }
}

proof fn lemma_pow128_mono(a: nat, b: nat)
    requires
        a <= b,
    ensures
        pow128(a) <= pow128(b),
    decreases b,
{
    if a < b {
        lemma_pow128_mono(a, (b - 1) as nat);
    }
}

/// A VarInt found at the start of `bytes` is found in its own bytes as well.
proof fn lemma_varint_size_take(bytes: Seq<u8>, n: nat)
    requires
        varint_size(bytes) == Some(n),
    ensures
        is_varint_of(bytes.take(n as int), varint_value(bytes.take(n as int))),
{
    lemma_varint_scan_take(bytes, n, 5);
    assert(bytes.take(n as int).take(n as int) =~= bytes.take(n as int));
}

proof fn lemma_varint_scan_take(bytes: Seq<u8>, n: nat, limit: nat)
    requires
        varint_scan(bytes, limit) == Some(n),
    ensures
        varint_scan(bytes.take(n as int), limit) == Some(n),
        n <= bytes.len(),
        1 <= n <= limit,
    decreases limit,
{
    if continues(bytes[0]) {
        let m = (n - 1) as nat;
        lemma_varint_scan_take(bytes.skip(1), m, (limit - 1) as nat);
        assert(bytes.take(n as int).skip(1) =~= bytes.skip(1).take(m as int));
    }
}

// ---------------------------------------------------------------------------
// VarString
// ---------------------------------------------------------------------------
/// Relies on `String::from_utf8`: it fails exactly on bytes that are not
/// UTF-8, and otherwise holds the characters that the bytes encode.
#[verifier::external_body]
fn string_from_utf8(bytes: Vec<u8>) -> (r: Option<String>)
    ensures
        match r {
            Some(s) => vstd::utf8::valid_utf8(bytes@) && s@ == vstd::utf8::decode_utf8(bytes@),
            None => !vstd::utf8::valid_utf8(bytes@),
        },
{
    String::from_utf8(bytes).ok()
}

/// The wire form of `s`, when its byte length fits a VarInt.
fn encode_string(s: &String) -> (r: Option<Vec<u8>>)
    ensures
        match r {
            Some(v) => encode_utf8_len(s@) <= i32::MAX && v@ == var_string_encode(s@),
            None => encode_utf8_len(s@) > i32::MAX,
        },
{
    let bytes: &[u8] = s.as_str().as_bytes();
    let n: usize = bytes.len();
    if n > i32::MAX as usize {
        return None;
    }
    let mut out = VarInt::from(n as i32).move_data();
    let mut body = copy_range(bytes, 0, n);
    out.append(&mut body);
    proof {
        assert(bytes@.subrange(0, n as int) =~= bytes@);
    }
    Some(out)
}

/// A string as the protocol carries it: its byte length as a VarInt, then
/// its UTF-8 bytes.
#[derive(Debug)]
pub struct VarString {
    value: String,
}

impl View for VarString {
    type V = Seq<char>;

    closed spec fn view(&self) -> Seq<char> {
        self.value@
    }
}

impl VarString {
    pub fn get_value(&self) -> (r: String)
        ensures
            r@ == self@,
    {
        self.value.clone()
    }

    /// The wire form, taking `self`; `None` when the byte length does not fit
    /// a VarInt.
    pub fn move_data(self) -> (r: Option<Vec<u8>>)
        ensures
            match r {
                Some(v) => encode_utf8_len(self@) <= i32::MAX && v@ == var_string_encode(self@),
                None => encode_utf8_len(self@) > i32::MAX,
            },
    {
        encode_string(&self.value)
    }

    /// The wire form; `None` when the byte length does not fit a VarInt.
    pub fn get_data(&self) -> (r: Option<Vec<u8>>)
        ensures
            match r {
                Some(v) => encode_utf8_len(self@) <= i32::MAX && v@ == var_string_encode(self@),
                None => encode_utf8_len(self@) > i32::MAX,
            },
    {
        encode_string(&self.value)
    }

    pub fn from(string: String) -> (r: VarString)
        ensures
            r@ == string@,
    {
        VarString { value: string }
    }

    /// Decodes the string that starts at `data[pos]`; returns it and the
    /// number of bytes it takes.
    pub fn parse(data: &[u8], pos: usize) -> (r: Result<(VarString, usize), CodecError>)
        requires
            pos <= data@.len(),
        ensures
            match (r, var_string_read(data@.skip(pos as int))) {
                (Ok((v, n)), Ok((sv, sn))) => v@ == sv && n == sn,
                (Err(e), Err(se)) => e == se,
                _ => false,
            },
            match r {
                Ok((v, n)) => pos + n <= data@.len(),
                Err(_) => true,
            },
    {
        let ghost rest = data@.skip(pos as int);
        let dlen: usize = data.len();
        let (length, n) = match VarInt::read(data, pos) {
            Ok(x) => x,
            Err(e) => return Err(e),
        };
        if length < 0 {
            return Err(CodecError::InvalidLength);
        }
        let start: usize = pos + n;
        if dlen - start < length as usize {
            return Err(CodecError::Truncated);
        }
        let end: usize = start + length as usize;
        let bytes = copy_range(data, start, end);
        proof {
            assert(bytes@ =~= rest.subrange(n as int, n + length));
        }
        match string_from_utf8(bytes) {
            Some(value) => Ok((VarString { value }, n + length as usize)),
            None => Err(CodecError::InvalidUtf8),
        }
    }
}

// ---------------------------------------------------------------------------
// UShort
// ---------------------------------------------------------------------------
/// An unsigned 16-bit integer with its two big-endian bytes.
pub struct UShort {
    value: u16,
    data: Vec<u8>,
}

impl View for UShort {
    type V = u16;

    closed spec fn view(&self) -> u16 {
        self.value
    }
}

impl UShort {
    #[verifier::type_invariant]
    spec fn well_formed(self) -> bool {
        self.data@ == ushort_encode(self.value)
    }

    pub fn get_value(&self) -> (r: u16)
        ensures
            r == self@,
    {
        self.value
    }

    pub fn get_data(&self) -> (r: Vec<u8>)
        ensures
            r@ == ushort_encode(self@),
    {
        proof {
            use_type_invariant(self);
        }
        copy_vec(&self.data)
    }

    /// Decodes the two bytes at `data[pos]`.
    pub fn parse(data: &[u8], pos: usize) -> (r: Result<UShort, CodecError>)
        requires
            pos <= data@.len(),
        ensures
            match (r, ushort_read(data@.skip(pos as int))) {
                (Ok(v), Ok(sv)) => v@ == sv,
                (Err(e), Err(se)) => e == se,
                _ => false,
            },
    {
        if data.len() - pos < 2 {
            return Err(CodecError::Truncated);
        }
        let hi = data[pos];
        let lo = data[pos + 1];
        let value: u16 = (hi as u16) * 256 + lo as u16;
        let data = vec![hi, lo];
        proof {
            assert(data@ =~= ushort_encode(value));
        }
        Ok(UShort { value, data })
    }

    pub fn from(short: u16) -> (r: UShort)
        ensures
            r@ == short,
    {
        let data = vec![(short / 256) as u8, (short % 256) as u8];
        proof {
            assert(data@ =~= ushort_encode(short));
        }
        UShort { value: short, data }
    }
}

} // verus!
