use vstd::prelude::*;
use vstd::string::StringExecFns;
use vstd::slice::slice_subrange;
use vstd::slice::slice_to_vec;
use vstd::utf8::{valid_utf8, decode_utf8};

verus! {

/// A Protobuf varint is at most this many bytes long.
pub const PROTOBUF_VARINT_MAX_LENGTH: usize = 10;

#[verifier::external_type_specification]
#[verifier::external_body]
pub struct ExDecodeError(prost::DecodeError);

/// The LEB128 varint at the front of `s`, read from its `i`-th byte on:
/// the value those bytes hold (seven bits each, least significant first)
/// and the index just after the varint. A byte with its high bit clear ends
/// the varint; at most ten bytes are read, and the tenth must be `0` or `1`
/// (a larger value doesn't fit in 64 bits).
pub open spec fn spec_leb128_from(s: Seq<u8>, i: nat) -> Option<(nat, nat)>
    decreases 10 - i,
{
    if i >= 10 || i >= s.len() {
        None
    } else if s[i as int] < 0x80 {
        if i == 9 && s[i as int] >= 2 {
            None
        } else {
            Some((s[i as int] as nat, i + 1))
        }
    } else {
        match spec_leb128_from(s, i + 1) {
            None => None,
            Some((v, n)) => Some(((s[i as int] - 0x80) as nat + 128 * v, n)),
        }
    }
}

/// The LEB128 varint at the front of `s`: its value and how many bytes it
/// takes.
pub open spec fn spec_leb128(s: Seq<u8>) -> Option<(nat, nat)> {
    spec_leb128_from(s, 0)
}

/// A varint read from the `i`-th byte on ends after it, within the first ten
/// bytes and within `s`.
pub proof fn lemma_leb128_bounds(s: Seq<u8>, i: nat)
    ensures
        spec_leb128_from(s, i) matches Some((v, n)) ==> i < n <= 10 && n <= s.len(),
    decreases 10 - i,
{
    if i < 10 && i < s.len() && s[i as int] >= 0x80 {
        lemma_leb128_bounds(s, i + 1);
    }
}

/// Calls `prost::encoding::decode_varint` on `bytes`: the value and the
/// number of bytes left after the varint.
///
/// The contract claims that the call decodes the LEB128 varint at the front
/// of the bytes as `spec_leb128` states it, and fails exactly when there is
/// none (the crate's `decode_varint_slice` and `decode_varint_slow` both read
/// at most ten bytes and refuse a tenth byte above `1`).
#[verifier::external_body]
fn prost_decode_varint(bytes: &[u8]) -> (r: Result<(u64, usize), prost::DecodeError>)
    ensures
        match spec_leb128(bytes@) {
            Some((v, n)) => r matches Ok((x, rest)) && x == v && rest == bytes@.len() - n,
            None => r is Err,
        },
{
    let mut buf: &[u8] = bytes;
    match prost::encoding::decode_varint(&mut buf) {
        Ok(v) => Ok((v, buf.len())),
        Err(e) => Err(e),
    }
}

/// Calls `prost::decode_length_delimiter` on `bytes`.
///
/// The contract claims that the call decodes the LEB128 varint at the front
/// of the bytes (through `decode_varint`), and fails when there is none or
/// when its value is larger than `usize::MAX`.
#[verifier::external_body]
fn prost_decode_length_delimiter(bytes: &[u8]) -> (r: Result<usize, prost::DecodeError>)
    ensures
        match spec_leb128(bytes@) {
            Some((v, n)) => if v <= usize::MAX {
                r == Ok::<usize, prost::DecodeError>(v as usize)
            } else {
                r is Err
            },
            None => r is Err,
        },
{
    prost::decode_length_delimiter(bytes)
}

/// What decoding a length delimiter from `bytes` gives, as
/// `prost::decode_length_delimiter` does: the LEB128 varint's value, when
/// there is one and it fits in `usize`.
pub open spec fn spec_length_delimiter(bytes: Seq<u8>) -> Option<usize> {
    match spec_leb128(bytes) {
        Some((v, n)) => if v <= usize::MAX {
            Some(v as usize)
        } else {
            None
        },
        None => None,
    }
}

/// Errors while reading a wharf stream.
#[derive(Debug, Clone, PartialEq, Eq)]
pub enum StreamError {
    /// The stream ended before the bytes that were asked for.
    UnexpectedEof,
    /// A varint is malformed.
    InvalidVarint,
    /// A length delimiter couldn't be decoded.
    InvalidLengthDelimiter,
    /// A field key is larger than `u32::MAX`.
    InvalidKey,
    /// A field key carries the tag `0`.
    InvalidTag,
    /// A field has a wire type this decoder doesn't accept.
    InvalidWireType,
    /// A length-delimited field is longer than what remains.
    BufferUnderflow,
    /// A group ends with the end key of another field number, or an end key
    /// comes with no group open.
    UnexpectedEndGroup,
    /// Groups are nested deeper than the decoder allows.
    RecursionLimit,
    /// A known field of a message was encoded with the wrong wire type, or
    /// holds a value its type doesn't allow (a string that isn't UTF-8).
    InvalidMessage,
}

/// The text that describes a stream error.
pub open spec fn stream_error_message(e: StreamError) -> Seq<char> {
    match e {
        StreamError::UnexpectedEof => "Couldn't read from reader into buffer! The stream ended too early"@,
        StreamError::InvalidVarint => "invalid varint"@,
        StreamError::InvalidLengthDelimiter => "Couldn't decode the length delimiter!"@,
        StreamError::InvalidKey => "invalid key value"@,
        StreamError::InvalidTag => "invalid tag value: 0"@,
        StreamError::InvalidWireType => "invalid wire type value"@,
        StreamError::BufferUnderflow => "buffer underflow"@,
        StreamError::UnexpectedEndGroup => "unexpected end group tag"@,
        StreamError::RecursionLimit => "recursion limit reached"@,
        StreamError::InvalidMessage => "invalid message: a field has the wrong wire type or value"@,
    }
}

impl StreamError {
    /// The text that describes the error.
    pub fn message(&self) -> (r: String)
        ensures
            r@ == stream_error_message(*self),
    {
        let text = match self {
            StreamError::UnexpectedEof => "Couldn't read from reader into buffer! The stream ended too early",
            StreamError::InvalidVarint => "invalid varint",
            StreamError::InvalidLengthDelimiter => "Couldn't decode the length delimiter!",
            StreamError::InvalidKey => "invalid key value",
            StreamError::InvalidTag => "invalid tag value: 0",
            StreamError::InvalidWireType => "invalid wire type value",
            StreamError::BufferUnderflow => "buffer underflow",
            StreamError::UnexpectedEndGroup => "unexpected end group tag",
            StreamError::RecursionLimit => "recursion limit reached",
            StreamError::InvalidMessage => "invalid message: a field has the wrong wire type or value",
        };
        String::from_str(text)
    }
}

/// An in-memory byte stream that is read from front to back.
pub struct ByteReader {
    data: Vec<u8>,
    pos: usize,
}

impl ByteReader {
    /// The bytes that haven't been read yet.
    pub closed spec fn remaining(&self) -> Seq<u8> {
        self.data@.subrange(self.pos as int, self.data@.len() as int)
    }

    pub closed spec fn wf(&self) -> bool {
        self.pos <= self.data@.len()
    }

    /// A reader positioned at the start of `data`.
    pub fn new(data: Vec<u8>) -> (r: ByteReader)
        ensures
            r.wf(),
            r.remaining() == data@,
    {
        let r = ByteReader { data, pos: 0 };
        proof {
            assert(r.remaining() =~= r.data@);
        }
        r
    }

    /// The number of bytes that haven't been read yet.
    pub fn remaining_len(&self) -> (n: usize)
        requires
            self.wf(),
        ensures
            n == self.remaining().len(),
    {
        self.data.len() - self.pos
    }

    /// Whether every byte has been read.
    pub fn is_at_end(&self) -> (b: bool)
        requires
            self.wf(),
        ensures
            b == (self.remaining().len() == 0),
    {
        self.pos == self.data.len()
    }

    /// Reads exactly `n` bytes, or fails when fewer than `n` remain (and then
    /// reads nothing).
    pub fn read_exact(&mut self, n: usize) -> (r: Result<Vec<u8>, StreamError>)
        requires
            old(self).wf(),
        ensures
            final(self).wf(),
            n <= old(self).remaining().len() ==> r is Ok && r->Ok_0@ == old(self).remaining().take(
                n as int,
            ) && final(self).remaining() == old(self).remaining().skip(n as int),
            n > old(self).remaining().len() ==> r == Err::<Vec<u8>, StreamError>(
                StreamError::UnexpectedEof,
            ) && final(self).remaining() == old(self).remaining(),
    {
        if n > self.data.len() - self.pos {
            return Err(StreamError::UnexpectedEof);
        }
        let end = self.pos + n;
        let v = slice_to_vec(slice_subrange(self.data.as_slice(), self.pos, end));
        proof {
            assert(v@ =~= old(self).remaining().take(n as int));
        }
        self.pos = end;
        proof {
            assert(self.remaining() =~= old(self).remaining().skip(n as int));
        }
        Ok(v)
    }

    /// Reads every byte that is left.
    pub fn read_rest(&mut self) -> (r: Vec<u8>)
        requires
            old(self).wf(),
        ensures
            final(self).wf(),
            r@ == old(self).remaining(),
            final(self).remaining() == Seq::<u8>::empty(),
    {
        let end = self.data.len();
        let v = slice_to_vec(slice_subrange(self.data.as_slice(), self.pos, end));
        self.pos = end;
        proof {
            assert(self.remaining() =~= Seq::<u8>::empty());
        }
        v
    }

    /// Reads one byte.
    pub fn read_byte(&mut self) -> (r: Result<u8, StreamError>)
        requires
            old(self).wf(),
        ensures
            final(self).wf(),
            old(self).remaining().len() > 0 ==> r == Ok::<u8, StreamError>(old(self).remaining()[0])
                && final(self).remaining() == old(self).remaining().skip(1),
            old(self).remaining().len() == 0 ==> r == Err::<u8, StreamError>(
                StreamError::UnexpectedEof,
            ) && final(self).remaining() == old(self).remaining(),
    {
        if self.pos >= self.data.len() {
            return Err(StreamError::UnexpectedEof);
        }
        let b = self.data[self.pos];
        self.pos = self.pos + 1;
        proof {
            assert(self.remaining() =~= old(self).remaining().skip(1));
        }
        Ok(b)
    }
}

/// How many bytes a length delimiter takes when it is read byte by byte from
/// `s`, starting at index `i`: reading stops after a byte whose high bit is
/// clear, or after ten bytes. `None` when `s` ends first.
pub open spec fn delimiter_span(s: Seq<u8>, i: nat) -> Option<nat>
    decreases 10 - i,
{
    if i >= 10 {
        Some(10)
    } else if i >= s.len() {
        None
    } else if s[i as int] < 0x80 {
        Some(i + 1)
    } else {
        delimiter_span(s, i + 1)
    }
}

/// The ten-byte buffer handed to the decoder: the first `k` bytes of `s`,
/// then zeros.
pub open spec fn padded_delimiter(s: Seq<u8>, k: nat) -> Seq<u8> {
    s.take(k as int) + Seq::new((10 - k) as nat, |_i: int| 0u8)
}

/// What reading a length delimiter from `s` gives: the length and the
/// number of bytes consumed.
pub open spec fn spec_read_length_delimiter(s: Seq<u8>) -> Result<(usize, nat), StreamError> {
    match delimiter_span(s, 0) {
        None => Err(StreamError::UnexpectedEof),
        Some(k) => match spec_length_delimiter(padded_delimiter(s, k)) {
            None => Err(StreamError::InvalidLengthDelimiter),
            Some(len) => Ok((len, k)),
        },
    }
}

proof fn lemma_delimiter_span_bounds(s: Seq<u8>, i: nat)
    requires
        i <= 10,
    ensures
        delimiter_span(s, i) matches Some(k) ==> i <= k <= 10 && (i < 10 ==> i < k) && (i <= s.len()
            ==> k <= s.len()),
    decreases 10 - i,
{
    if i < 10 && i < s.len() && s[i as int] >= 0x80 {
        lemma_delimiter_span_bounds(s, i + 1);
    }
}

/// Reads a Protobuf length delimiter (a varint of at most ten bytes) and
/// consumes its bytes.
pub fn read_length_delimiter(reader: &mut ByteReader) -> (r: Result<usize, StreamError>)
    requires
        old(reader).wf(),
    ensures
        final(reader).wf(),
        match spec_read_length_delimiter(old(reader).remaining()) {
            Ok((len, k)) => r == Ok::<usize, StreamError>(len) && final(reader).remaining()
                == old(reader).remaining().skip(k as int),
            Err(e) => r == Err::<usize, StreamError>(e),
        },
{
    let ghost s = reader.remaining();
    let mut varint: Vec<u8> = vec![0u8, 0u8, 0u8, 0u8, 0u8, 0u8, 0u8, 0u8, 0u8, 0u8];
    let mut i: usize = 0;
    proof {
        lemma_delimiter_span_bounds(s, 0);
    }
    while i < PROTOBUF_VARINT_MAX_LENGTH
        invariant_except_break
            i < 10,
            varint@.len() == 10,
            reader.wf(),
            reader.remaining() == s.skip(i as int),
            i <= s.len(),
            forall|j: int| 0 <= j < i ==> varint@[j] == s[j],
            forall|j: int| i <= j < 10 ==> varint@[j] == 0,
            forall|j: int| 0 <= j < i ==> s[j] >= 0x80,
            delimiter_span(s, 0) == delimiter_span(s, i as nat),
        invariant
            varint@.len() == 10,
            reader.wf(),
            s == old(reader).remaining(),
        ensures
            match delimiter_span(s, 0) {
                None => false,
                Some(k) => varint@ == padded_delimiter(s, k) && reader.remaining() == s.skip(
                    k as int,
                ),
            },
        decreases 10 - i,
    {
        let b = match reader.read_byte() {
            Ok(b) => b,
            Err(e) => {
                proof {
                    assert(e == StreamError::UnexpectedEof);
                    assert(delimiter_span(s, i as nat) == None::<nat>);
                    assert(spec_read_length_delimiter(s) == Err::<(usize, nat), StreamError>(
                        StreamError::UnexpectedEof,
                    ));
                }
                return Err(e);
            },
        };
        varint.set(i, b);
        proof {
            assert(reader.remaining() =~= s.skip(i + 1));
        }
        if b < 0x80 {
            proof {
                assert(delimiter_span(s, i as nat) == Some((i + 1) as nat));
                assert(varint@ =~= padded_delimiter(s, (i + 1) as nat));
            }
            break;
        }
        i = i + 1;
        if i == PROTOBUF_VARINT_MAX_LENGTH {
            proof {
                assert(delimiter_span(s, 10) == Some(10nat));
                assert(varint@ =~= padded_delimiter(s, 10));
            }
            break;
        }
    }
    match prost_decode_length_delimiter(varint.as_slice()) {
        Ok(len) => Ok(len),
        Err(_) => Err(StreamError::InvalidLengthDelimiter),
    }
}

/// What reading one length-delimited message from `s` gives: the message's
/// bytes and the number of bytes consumed.
pub open spec fn spec_read_delimited(s: Seq<u8>) -> Result<(Seq<u8>, nat), StreamError> {
    match spec_read_length_delimiter(s) {
        Err(e) => Err(e),
        Ok((len, k)) => if k + len <= s.len() {
            Ok((s.subrange(k as int, k + len), (k + len) as nat))
        } else {
            Err(StreamError::UnexpectedEof)
        },
    }
}

/// A length-delimited message takes at least one byte and no more than
/// what is there.
pub proof fn lemma_read_delimited_progress(s: Seq<u8>)
    ensures
        spec_read_delimited(s) matches Ok((m, n)) ==> 1 <= n <= s.len() && m.len() < n,
{
    lemma_delimiter_span_bounds(s, 0);
}

/// Reads a length delimiter and then that many bytes: the encoded bytes of
/// one length-delimited Protobuf message.
pub fn read_delimited(reader: &mut ByteReader) -> (r: Result<Vec<u8>, StreamError>)
    requires
        old(reader).wf(),
    ensures
        final(reader).wf(),
        match spec_read_delimited(old(reader).remaining()) {
            Ok((m, n)) => r is Ok && r->Ok_0@ == m && final(reader).remaining() == old(
                reader,
            ).remaining().skip(n as int),
            Err(e) => r == Err::<Vec<u8>, StreamError>(e),
        },
{
    let ghost s = reader.remaining();
    let len = read_length_delimiter(reader)?;
    let ghost k = spec_read_length_delimiter(s)->Ok_0.1;
    proof {
        lemma_delimiter_span_bounds(s, 0);
    }
    let bytes = match reader.read_exact(len) {
        Ok(b) => b,
        Err(e) => {
            return Err(e);
        },
    };
    proof {
        assert(bytes@ =~= s.subrange(k as int, k + len));
        assert(reader.remaining() =~= s.skip(k + len));
    }
    Ok(bytes)
}

/// The value of one encoded Protobuf field, by wire type.
#[derive(Debug, Clone, PartialEq, Eq)]
pub enum WireValue {
    Varint(u64),
    Fixed64(u64),
    LengthDelimited(Vec<u8>),
    Fixed32(u32),
    /// A group, whose contents are skipped.
    Group,
}

/// The mathematical form of a [`WireValue`].
pub enum SpecWireValue {
    Varint(u64),
    Fixed64(u64),
    LengthDelimited(Seq<u8>),
    Fixed32(u32),
    Group,
}

impl View for WireValue {
    type V = SpecWireValue;

    open spec fn view(&self) -> SpecWireValue {
        match self {
            WireValue::Varint(v) => SpecWireValue::Varint(*v),
            WireValue::Fixed64(v) => SpecWireValue::Fixed64(*v),
            WireValue::LengthDelimited(b) => SpecWireValue::LengthDelimited(b@),
            WireValue::Fixed32(v) => SpecWireValue::Fixed32(*v),
            WireValue::Group => SpecWireValue::Group,
        }
    }
}

/// One field of an encoded Protobuf message.
#[derive(Debug, Clone, PartialEq, Eq)]
pub struct WireField {
    pub number: u32,
    pub value: WireValue,
}

/// The mathematical form of a [`WireField`].
pub struct SpecWireField {
    pub number: u32,
    pub value: SpecWireValue,
}

impl View for WireField {
    type V = SpecWireField;

    open spec fn view(&self) -> SpecWireField {
        SpecWireField { number: self.number, value: self.value@ }
    }
}

/// The views of a sequence of fields.
pub open spec fn fields_view(fs: Seq<WireField>) -> Seq<SpecWireField> {
    fs.map_values(|f: WireField| f@)
}

/// Little-endian value of four bytes.
pub open spec fn le_u32(b: Seq<u8>) -> u32 {
    (b[0] as int + 256 * (b[1] as int) + 65536 * (b[2] as int) + 16777216 * (b[3] as int)) as u32
}

/// Little-endian value of eight bytes.
pub open spec fn le_u64(b: Seq<u8>) -> u64 {
    (le_u32(b) as int + 4294967296 * (le_u32(b.subrange(4, 8)) as int)) as u64
}

/// Reads a varint at the front of `s`: its value and how many bytes it takes.
pub open spec fn spec_varint(s: Seq<u8>) -> Option<(u64, nat)> {
    match spec_leb128(s) {
        Some((v, n)) => Some((v as u64, n)),
        None => None,
    }
}

/// Reads the value of a field of wire type `wt` at the front of `s`: the
/// value and how many bytes it takes.
pub open spec fn spec_field_value(wt: u64, s: Seq<u8>) -> Result<(SpecWireValue, nat), StreamError> {
    if wt == 0 {
        match spec_varint(s) {
            Some((v, n)) => Ok((SpecWireValue::Varint(v), n)),
            None => Err(StreamError::InvalidVarint),
        }
    } else if wt == 1 {
        if s.len() >= 8 {
            Ok((SpecWireValue::Fixed64(le_u64(s.take(8))), 8))
        } else {
            Err(StreamError::BufferUnderflow)
        }
    } else if wt == 2 {
        match spec_varint(s) {
            Some((len, n)) => if len <= s.len() - n {
                Ok((SpecWireValue::LengthDelimited(s.subrange(n as int, n + len)), (n + len) as nat))
            } else {
                Err(StreamError::BufferUnderflow)
            },
            None => Err(StreamError::InvalidVarint),
        }
    } else if wt == 5 {
        if s.len() >= 4 {
            Ok((SpecWireValue::Fixed32(le_u32(s.take(4))), 4))
        } else {
            Err(StreamError::BufferUnderflow)
        }
    } else {
        Err(StreamError::InvalidWireType)
    }
}

/// How many nested decodes a message decode allows: `prost::RECURSION_LIMIT`.
pub const RECURSION_LIMIT: u64 = 100;

/// Reads a field key at the front of `s`: the field number, the wire type
/// and how many bytes the key takes.
pub closed spec fn spec_key(s: Seq<u8>) -> Result<(u32, u64, nat), StreamError> {
    match spec_varint(s) {
        None => Err(StreamError::InvalidVarint),
        Some((key, n)) => if key > u32::MAX {
            Err(StreamError::InvalidKey)
        } else if key / 8 == 0 {
            Err(StreamError::InvalidTag)
        } else {
            Ok(((key / 8) as u32, key % 8, n))
        },
    }
}

/// Skips the contents of a group numbered `tag` that start at `pos` in `s`,
/// as prost's `skip_field` does when `count` nested decodes are left: each
/// inner field is skipped with one fewer (none left is an error), inner
/// groups recursively, until the end key of the same number. The position
/// just after that end key.
pub closed spec fn spec_group_end(s: Seq<u8>, pos: nat, tag: u32, count: nat) -> Result<nat, StreamError>
    decreases s.len() - pos,
{
    if pos >= s.len() {
        Err(StreamError::InvalidVarint)
    } else {
        match spec_key(s.skip(pos as int)) {
            Err(e) => Err(e),
            Ok((num, wt, n)) => if n == 0 || n > s.len() - pos {
                Err(StreamError::InvalidVarint)
            } else if wt == 4 {
                if num == tag {
                    Ok(pos + n)
                } else {
                    Err(StreamError::UnexpectedEndGroup)
                }
            } else if count <= 1 {
                Err(StreamError::RecursionLimit)
            } else if wt == 3 {
                match spec_group_end(s, pos + n, num, (count - 1) as nat) {
                    Err(e) => Err(e),
                    Ok(p) => if p <= pos || p > s.len() {
                        Err(StreamError::InvalidVarint)
                    } else {
                        spec_group_end(s, p, tag, count)
                    },
                }
            } else {
                match spec_field_value(wt, s.skip((pos + n) as int)) {
                    Err(e) => Err(e),
                    Ok((_, m)) => if m > s.len() - pos - n {
                        Err(StreamError::BufferUnderflow)
                    } else {
                        spec_group_end(s, pos + n + m, tag, count)
                    },
                }
            },
        }
    }
}

/// A group that is skipped ends after its start and within the bytes.
pub proof fn lemma_group_end_advances(s: Seq<u8>, pos: nat, tag: u32, count: nat)
    ensures
        spec_group_end(s, pos, tag, count) matches Ok(p) ==> pos < p <= s.len(),
    decreases s.len() - pos,
{
    if pos < s.len() {
        match spec_key(s.skip(pos as int)) {
            Ok((num, wt, n)) => {
                if n > 0 && n <= s.len() - pos && wt != 4 && count > 1 {
                    if wt == 3 {
                        lemma_group_end_advances(s, pos + n, num, (count - 1) as nat);
                        match spec_group_end(s, pos + n, num, (count - 1) as nat) {
                            Ok(p) => {
                                if p > pos && p <= s.len() {
                                    lemma_group_end_advances(s, p, tag, count);
                                }
                            },
                            Err(_) => {},
                        }
                    } else {
                        match spec_field_value(wt, s.skip((pos + n) as int)) {
                            Ok((_, m)) => {
                                if m <= s.len() - pos - n {
                                    lemma_group_end_advances(s, pos + n + m, tag, count);
                                }
                            },
                            Err(_) => {},
                        }
                    }
                }
            },
            Err(_) => {},
        }
    }
}

/// Reads one field (key and value) at the front of `s`, within a message
/// decode that has `count` nested decodes left: the field and how many
/// bytes it takes. A group's contents are skipped, as prost skips them.
pub closed spec fn spec_field(s: Seq<u8>, count: nat) -> Result<(SpecWireField, nat), StreamError> {
    match spec_key(s) {
        Err(e) => Err(e),
        Ok((num, wt, n)) => if wt == 3 {
            if count == 0 {
                Err(StreamError::RecursionLimit)
            } else {
                match spec_group_end(s, n, num, count) {
                    Err(e) => Err(e),
                    Ok(p) => Ok((SpecWireField { number: num, value: SpecWireValue::Group }, p)),
                }
            }
        } else {
            match spec_field_value(wt, s.skip(n as int)) {
                Err(e) => Err(e),
                Ok((v, m)) => Ok((SpecWireField { number: num, value: v }, n + m)),
            }
        },
    }
}

/// The fields of the encoded message `s`, from index `pos` on, in order,
/// in a decode with `count` nested decodes left.
pub closed spec fn spec_fields_from(s: Seq<u8>, pos: nat, count: nat) -> Result<Seq<SpecWireField>, StreamError>
    decreases s.len() - pos,
{
    if pos >= s.len() {
        Ok(seq![])
    } else {
        match spec_field(s.skip(pos as int), count) {
            Err(e) => Err(e),
            Ok((f, n)) => if n == 0 || n > s.len() - pos {
                Err(StreamError::InvalidVarint)
            } else {
                match spec_fields_from(s, pos + n, count) {
                    Err(e) => Err(e),
                    Ok(rest) => Ok(seq![f] + rest),
                }
            },
        }
    }
}

/// The fields of an encoded message decoded with `count` nested decodes
/// left, in order.
pub open spec fn spec_fields_at(s: Seq<u8>, count: nat) -> Result<Seq<SpecWireField>, StreamError> {
    spec_fields_from(s, 0, count)
}

/// The fields of the encoded message `s`, decoded on its own, in order.
pub open spec fn spec_fields(s: Seq<u8>) -> Result<Seq<SpecWireField>, StreamError> {
    spec_fields_at(s, RECURSION_LIMIT as nat)
}

/// The fields of the encoded message `s`, decoded as a message embedded in
/// another one (one nested decode fewer left), in order.
pub open spec fn spec_embedded_fields(s: Seq<u8>) -> Result<Seq<SpecWireField>, StreamError> {
    spec_fields_at(s, (RECURSION_LIMIT - 1) as nat)
}

/// What [`spec_key`] states: a varint key, refused when it is larger than
/// `u32::MAX` or carries the field number `0`, split into the field number
/// and the wire type.
pub proof fn lemma_key(s: Seq<u8>)
    ensures
        spec_key(s) == match spec_varint(s) {
            None => Err(StreamError::InvalidVarint),
            Some((key, n)) => if key > u32::MAX {
                Err(StreamError::InvalidKey)
            } else if key / 8 == 0 {
                Err(StreamError::InvalidTag)
            } else {
                Ok(((key / 8) as u32, key % 8, n))
            },
        },
{
}

/// What [`spec_field`] states: a key, then a value of its wire type, or, for
/// a group, its contents skipped down to the matching end key.
pub proof fn lemma_field(s: Seq<u8>, count: nat)
    ensures
        spec_field(s, count) == match spec_key(s) {
            Err(e) => Err(e),
            Ok((num, wt, n)) => if wt == 3 {
                if count == 0 {
                    Err(StreamError::RecursionLimit)
                } else {
                    match spec_group_end(s, n, num, count) {
                        Err(e) => Err(e),
                        Ok(p) => Ok((SpecWireField { number: num, value: SpecWireValue::Group }, p)),
                    }
                }
            } else {
                match spec_field_value(wt, s.skip(n as int)) {
                    Err(e) => Err(e),
                    Ok((v, m)) => Ok((SpecWireField { number: num, value: v }, n + m)),
                }
            },
        },
{
}

/// What [`spec_group_end`] states for the contents of a group that start at
/// `pos`: the next key ends the group when it is the matching end key;
/// otherwise its field is skipped (with one nested decode fewer) and the
/// group goes on.
pub proof fn lemma_group_end(s: Seq<u8>, pos: nat, tag: u32, count: nat)
    ensures
        spec_group_end(s, pos, tag, count) == (if pos >= s.len() {
            Err(StreamError::InvalidVarint)
        } else {
            match spec_key(s.skip(pos as int)) {
                Err(e) => Err(e),
                Ok((num, wt, n)) => if n == 0 || n > s.len() - pos {
                    Err(StreamError::InvalidVarint)
                } else if wt == 4 {
                    if num == tag {
                        Ok(pos + n)
                    } else {
                        Err(StreamError::UnexpectedEndGroup)
                    }
                } else if count <= 1 {
                    Err(StreamError::RecursionLimit)
                } else if wt == 3 {
                    match spec_group_end(s, pos + n, num, (count - 1) as nat) {
                        Err(e) => Err(e),
                        Ok(p) => if p <= pos || p > s.len() {
                            Err(StreamError::InvalidVarint)
                        } else {
                            spec_group_end(s, p, tag, count)
                        },
                    }
                } else {
                    match spec_field_value(wt, s.skip((pos + n) as int)) {
                        Err(e) => Err(e),
                        Ok((_, m)) => if m > s.len() - pos - n {
                            Err(StreamError::BufferUnderflow)
                        } else {
                            spec_group_end(s, pos + n + m, tag, count)
                        },
                    }
                },
            }
        }),
{
}

/// What [`spec_fields_from`] states: no fields once the message is read,
/// otherwise the field at `pos` followed by the fields after it.
pub proof fn lemma_fields_from(s: Seq<u8>, pos: nat, count: nat)
    ensures
        spec_fields_from(s, pos, count) == (if pos >= s.len() {
            Ok(seq![])
        } else {
            match spec_field(s.skip(pos as int), count) {
                Err(e) => Err(e),
                Ok((f, n)) => if n == 0 || n > s.len() - pos {
                    Err(StreamError::InvalidVarint)
                } else {
                    match spec_fields_from(s, pos + n, count) {
                        Err(e) => Err(e),
                        Ok(rest) => Ok(seq![f] + rest),
                    }
                },
            }
        }),
{
}

/// An empty message has no fields.
pub proof fn lemma_empty_message_has_no_fields(count: nat)
    ensures
        spec_fields_at(Seq::<u8>::empty(), count) == Ok::<Seq<SpecWireField>, StreamError>(seq![]),
{
}

/// Decodes a varint at the front of `bytes`: its value and its length.
fn read_varint(bytes: &[u8]) -> (r: Option<(u64, usize)>)
    ensures
        r matches Some((v, n)) ==> spec_varint(bytes@) == Some((v, n as nat)) && 1 <= n <= bytes@.len(),
        r is None ==> spec_varint(bytes@) is None,
{
    proof {
        lemma_leb128_bounds(bytes@, 0);
    }
    match prost_decode_varint(bytes) {
        Ok((v, rest)) => Some((v, bytes.len() - rest)),
        Err(_) => None,
    }
}

/// Reads four little-endian bytes.
fn read_le_u32(b: &[u8]) -> (r: u32)
    requires
        b@.len() >= 4,
    ensures
        r == le_u32(b@),
{
    (b[0] as u32) + 256 * (b[1] as u32) + 65536 * (b[2] as u32) + 16777216 * (b[3] as u32)
}

/// Reads eight little-endian bytes.
fn read_le_u64(b: &[u8]) -> (r: u64)
    requires
        b@.len() >= 8,
    ensures
        r == le_u64(b@),
{
    let lo = read_le_u32(b);
    let hi_slice = slice_subrange(b, 4, 8);
    let hi = read_le_u32(hi_slice);
    proof {
        assert(hi_slice@ =~= b@.subrange(4, 8));
    }
    (lo as u64) + 4294967296 * (hi as u64)
}

/// Decodes a field key at the front of `bytes`.
fn read_key(bytes: &[u8]) -> (r: Result<(u32, u64, usize), StreamError>)
    ensures
        match spec_key(bytes@) {
            Ok((num, wt, n)) => r matches Ok((a, b, c)) && a == num && b == wt && c == n,
            Err(e) => r == Err::<(u32, u64, usize), StreamError>(e),
        },
        r matches Ok((_, wt, n)) ==> 1 <= n <= bytes@.len() && wt < 8,
{
    let (key, n) = match read_varint(bytes) {
        Some(x) => x,
        None => {
            return Err(StreamError::InvalidVarint);
        },
    };
    if key > 0xFFFF_FFFF {
        return Err(StreamError::InvalidKey);
    }
    if key / 8 == 0 {
        return Err(StreamError::InvalidTag);
    }
    Ok(((key / 8) as u32, key % 8, n))
}

/// Decodes the value of a field of wire type `wt` (not a group) at the
/// front of `rest`.
fn read_value(wt: u64, rest: &[u8]) -> (r: Result<(WireValue, usize), StreamError>)
    ensures
        match spec_field_value(wt, rest@) {
            Ok((v, m)) => r is Ok && r->Ok_0.0@ == v && r->Ok_0.1 == m,
            Err(e) => r == Err::<(WireValue, usize), StreamError>(e),
        },
        r matches Ok((_, m)) ==> m <= rest@.len(),
{
    if wt == 0 {
        match read_varint(rest) {
            Some((v, m)) => Ok((WireValue::Varint(v), m)),
            None => Err(StreamError::InvalidVarint),
        }
    } else if wt == 1 {
        if rest.len() >= 8 {
            let v = read_le_u64(rest);
            proof {
                assert(le_u64(rest@) == le_u64(rest@.take(8))) by {
                    assert(rest@.take(8).subrange(4, 8) =~= rest@.subrange(4, 8));
                }
            }
            Ok((WireValue::Fixed64(v), 8))
        } else {
            Err(StreamError::BufferUnderflow)
        }
    } else if wt == 2 {
        match read_varint(rest) {
            Some((len, m)) => {
                if len <= (rest.len() - m) as u64 {
                    let end = m + len as usize;
                    let data = slice_to_vec(slice_subrange(rest, m, end));
                    proof {
                        assert(data@ =~= rest@.subrange(m as int, m + len));
                    }
                    Ok((WireValue::LengthDelimited(data), end))
                } else {
                    Err(StreamError::BufferUnderflow)
                }
            },
            None => Err(StreamError::InvalidVarint),
        }
    } else if wt == 5 {
        if rest.len() >= 4 {
            let v = read_le_u32(rest);
            proof {
                assert(le_u32(rest@) == le_u32(rest@.take(4)));
            }
            Ok((WireValue::Fixed32(v), 4))
        } else {
            Err(StreamError::BufferUnderflow)
        }
    } else {
        Err(StreamError::InvalidWireType)
    }
}

/// Skips the contents of a group numbered `tag` that start at `pos`, with
/// `count` nested decodes left; gives the position after its end key.
fn skip_group(bytes: &[u8], pos: usize, tag: u32, count: u64) -> (r: Result<usize, StreamError>)
    requires
        pos <= bytes@.len(),
    ensures
        match spec_group_end(bytes@, pos as nat, tag, count as nat) {
            Ok(p) => r matches Ok(q) && q == p,
            Err(e) => r == Err::<usize, StreamError>(e),
        },
    decreases bytes@.len() - pos,
{
    let mut p = pos;
    loop
        invariant
            pos <= p <= bytes@.len(),
            spec_group_end(bytes@, pos as nat, tag, count as nat) == spec_group_end(
                bytes@,
                p as nat,
                tag,
                count as nat,
            ),
        decreases bytes@.len() - p,
    {
        if p >= bytes.len() {
            return Err(StreamError::InvalidVarint);
        }
        let rest = slice_subrange(bytes, p, bytes.len());
        proof {
            assert(rest@ =~= bytes@.skip(p as int));
        }
        let (num, wt, n) = match read_key(rest) {
            Ok(k) => k,
            Err(e) => {
                return Err(e);
            },
        };
        if wt == 4 {
            if num == tag {
                return Ok(p + n);
            } else {
                return Err(StreamError::UnexpectedEndGroup);
            }
        }
        if count <= 1 {
            return Err(StreamError::RecursionLimit);
        }
        if wt == 3 {
            let q = match skip_group(bytes, p + n, num, count - 1) {
                Ok(q) => q,
                Err(e) => {
                    return Err(e);
                },
            };
            proof {
                lemma_group_end_advances(bytes@, (p + n) as nat, num, (count - 1) as nat);
            }
            p = q;
        } else {
            let value_bytes = slice_subrange(bytes, p + n, bytes.len());
            proof {
                assert(value_bytes@ =~= bytes@.skip(p + n));
            }
            let m = match read_value(wt, value_bytes) {
                Ok((_, m)) => m,
                Err(e) => {
                    return Err(e);
                },
            };
            p = p + n + m;
        }
    }
}

/// Decodes one field at the front of `bytes`, with `count` nested decodes
/// left.
fn read_field(bytes: &[u8], count: u64) -> (r: Result<(WireField, usize), StreamError>)
    ensures
        match spec_field(bytes@, count as nat) {
            Ok((f, n)) => r is Ok && r->Ok_0.0@ == f && r->Ok_0.1 == n,
            Err(e) => r == Err::<(WireField, usize), StreamError>(e),
        },
        r matches Ok((f, n)) ==> 1 <= n <= bytes@.len(),
{
    let (number, wt, n) = match read_key(bytes) {
        Ok(k) => k,
        Err(e) => {
            return Err(e);
        },
    };
    if wt == 3 {
        if count == 0 {
            return Err(StreamError::RecursionLimit);
        }
        let p = match skip_group(bytes, n, number, count) {
            Ok(p) => p,
            Err(e) => {
                return Err(e);
            },
        };
        proof {
            lemma_group_end_advances(bytes@, n as nat, number, count as nat);
        }
        Ok((WireField { number, value: WireValue::Group }, p))
    } else {
        let rest = slice_subrange(bytes, n, bytes.len());
        proof {
            assert(rest@ =~= bytes@.skip(n as int));
        }
        let (value, m) = match read_value(wt, rest) {
            Ok(x) => x,
            Err(e) => {
                return Err(e);
            },
        };
        Ok((WireField { number, value }, n + m))
    }
}

/// Splits an encoded message, decoded with `count` nested decodes left,
/// into its fields, in order.
fn parse_fields_at(bytes: &[u8], count: u64) -> (r: Result<Vec<WireField>, StreamError>)
    ensures
        match spec_fields_at(bytes@, count as nat) {
            Ok(fs) => r is Ok && fields_view(r->Ok_0@) == fs,
            Err(e) => r == Err::<Vec<WireField>, StreamError>(e),
        },
{
    let mut fields: Vec<WireField> = Vec::new();
    let mut pos: usize = 0;
    while pos < bytes.len()
        invariant
            pos <= bytes@.len(),
            spec_fields_at(bytes@, count as nat) == match spec_fields_from(bytes@, pos as nat, count as nat) {
                Ok(rest) => Ok(fields_view(fields@) + rest),
                Err(e) => Err::<Seq<SpecWireField>, StreamError>(e),
            },
        decreases bytes@.len() - pos,
    {
        let rest = slice_subrange(bytes, pos, bytes.len());
        proof {
            assert(rest@ =~= bytes@.skip(pos as int));
        }
        let (f, n) = match read_field(rest, count) {
            Ok(x) => x,
            Err(e) => {
                return Err(e);
            },
        };
        let ghost old_fields = fields@;
        fields.push(f);
        proof {
            assert(fields_view(fields@) =~= fields_view(old_fields) + seq![f@]);
            match spec_fields_from(bytes@, (pos + n) as nat, count as nat) {
                Ok(r2) => {
                    assert(fields_view(old_fields) + (seq![f@] + r2) =~= fields_view(fields@)
                        + r2);
                },
                Err(_) => {},
            }
        }
        pos = pos + n;
    }
    proof {
        assert(fields_view(fields@) + seq![] =~= fields_view(fields@));
    }
    Ok(fields)
}

/// Splits an encoded message, decoded on its own, into its fields, in order.
/// The contents of groups are skipped.
pub fn parse_fields(bytes: &[u8]) -> (r: Result<Vec<WireField>, StreamError>)
    ensures
        match spec_fields(bytes@) {
            Ok(fs) => r is Ok && fields_view(r->Ok_0@) == fs,
            Err(e) => r == Err::<Vec<WireField>, StreamError>(e),
        },
{
    parse_fields_at(bytes, RECURSION_LIMIT)
}

/// Splits an encoded message embedded in another one into its fields, in
/// order. The contents of groups are skipped.
pub fn parse_embedded_fields(bytes: &[u8]) -> (r: Result<Vec<WireField>, StreamError>)
    ensures
        match spec_embedded_fields(bytes@) {
            Ok(fs) => r is Ok && fields_view(r->Ok_0@) == fs,
            Err(e) => r == Err::<Vec<WireField>, StreamError>(e),
        },
{
    parse_fields_at(bytes, RECURSION_LIMIT - 1)
}


/// Decodes `bytes` as UTF-8 text.
///
/// Wraps `String::from_utf8`, which the standard library documents as failing
/// exactly when the bytes are not valid UTF-8 and otherwise holding the text
/// they encode.
#[verifier::external_body]
fn string_from_utf8(bytes: Vec<u8>) -> (r: Option<String>)
    ensures
        r is Some <==> valid_utf8(bytes@),
        r matches Some(t) ==> t@ == decode_utf8(bytes@),
{
    String::from_utf8(bytes).ok()
}

/// The contents of a sequence of byte vectors.
pub open spec fn bytes_views(v: Seq<Vec<u8>>) -> Seq<Seq<u8>> {
    v.map_values(|b: Vec<u8>| b@)
}

/// Whether every field numbered `num` in `fs` is a varint.
pub open spec fn all_varint(fs: Seq<SpecWireField>, num: u32) -> bool {
    forall|j: int| 0 <= j < fs.len() && fs[j].number == num ==> fs[j].value is Varint
}

/// Whether every field numbered `num` in `fs` is length-delimited.
pub open spec fn all_delimited(fs: Seq<SpecWireField>, num: u32) -> bool {
    forall|j: int| 0 <= j < fs.len() && fs[j].number == num ==> fs[j].value is LengthDelimited
}

/// The value of the last varint field numbered `num`, or `0` when there is
/// none (a scalar field that occurs more than once keeps its last value).
pub open spec fn last_varint(fs: Seq<SpecWireField>, num: u32) -> u64
    decreases fs.len(),
{
    if fs.len() == 0 {
        0
    } else if fs.last().number == num && fs.last().value is Varint {
        fs.last().value->Varint_0
    } else {
        last_varint(fs.drop_last(), num)
    }
}

/// The payloads of the length-delimited fields numbered `num`, in order.
pub open spec fn occurrences(fs: Seq<SpecWireField>, num: u32) -> Seq<Seq<u8>>
    decreases fs.len(),
{
    if fs.len() == 0 {
        seq![]
    } else if fs.last().number == num && fs.last().value is LengthDelimited {
        occurrences(fs.drop_last(), num).push(fs.last().value->LengthDelimited_0)
    } else {
        occurrences(fs.drop_last(), num)
    }
}

/// The payload of the last length-delimited field numbered `num`, or no
/// bytes when there is none.
pub open spec fn last_delimited(fs: Seq<SpecWireField>, num: u32) -> Seq<u8> {
    let occ = occurrences(fs, num);
    if occ.len() == 0 {
        seq![]
    } else {
        occ.last()
    }
}

/// The value of a varint field: its last occurrence, or `0`. An occurrence
/// with another wire type makes the message invalid.
pub fn varint_field(fs: &Vec<WireField>, num: u32) -> (r: Result<u64, StreamError>)
    ensures
        r == (if all_varint(fields_view(fs@), num) {
            Ok::<u64, StreamError>(last_varint(fields_view(fs@), num))
        } else {
            Err::<u64, StreamError>(StreamError::InvalidMessage)
        }),
{
    let ghost view = fields_view(fs@);
    let mut value: u64 = 0;
    let mut i: usize = 0;
    while i < fs.len()
        invariant
            i <= fs@.len(),
            view == fields_view(fs@),
            view.len() == fs@.len(),
            value == last_varint(view.take(i as int), num),
            all_varint(view.take(i as int), num),
        decreases fs@.len() - i,
    {
        let f = &fs[i];
        proof {
            assert(view[i as int] == f@);
            assert(view.take(i + 1).drop_last() =~= view.take(i as int));
        }
        if f.number == num {
            match &f.value {
                WireValue::Varint(v) => {
                    value = *v;
                },
                _ => {
                    proof {
                        assert(!all_varint(view, num));
                    }
                    return Err(StreamError::InvalidMessage);
                },
            }
        }
        i = i + 1;
    }
    proof {
        assert(view.take(i as int) =~= view);
    }
    Ok(value)
}

/// The payloads of a length-delimited field, in the order they occur. An
/// occurrence with another wire type makes the message invalid.
pub fn delimited_fields(fs: &Vec<WireField>, num: u32) -> (r: Result<Vec<Vec<u8>>, StreamError>)
    ensures
        all_delimited(fields_view(fs@), num) ==> r is Ok && bytes_views(r->Ok_0@)
            == occurrences(fields_view(fs@), num),
        !all_delimited(fields_view(fs@), num) ==> r == Err::<Vec<Vec<u8>>, StreamError>(
            StreamError::InvalidMessage,
        ),
{
    let ghost view = fields_view(fs@);
    let mut out: Vec<Vec<u8>> = Vec::new();
    let mut i: usize = 0;
    while i < fs.len()
        invariant
            i <= fs@.len(),
            view == fields_view(fs@),
            view.len() == fs@.len(),
            bytes_views(out@) == occurrences(view.take(i as int), num),
            all_delimited(view.take(i as int), num),
        decreases fs@.len() - i,
    {
        let f = &fs[i];
        proof {
            assert(view[i as int] == f@);
            assert(view.take(i + 1).drop_last() =~= view.take(i as int));
        }
        if f.number == num {
            match &f.value {
                WireValue::LengthDelimited(b) => {
                    let ghost before = out@;
                    out.push(b.clone());
                    proof {
                        assert(bytes_views(out@) =~= bytes_views(before).push(b@));
                    }
                },
                _ => {
                    proof {
                        assert(!all_delimited(view, num));
                    }
                    return Err(StreamError::InvalidMessage);
                },
            }
        }
        i = i + 1;
    }
    proof {
        assert(view.take(i as int) =~= view);
    }
    Ok(out)
}

/// The value of a `bytes` field: its last occurrence, or no bytes.
pub fn bytes_field(fs: &Vec<WireField>, num: u32) -> (r: Result<Vec<u8>, StreamError>)
    ensures
        all_delimited(fields_view(fs@), num) ==> r is Ok && r->Ok_0@ == last_delimited(
            fields_view(fs@),
            num,
        ),
        !all_delimited(fields_view(fs@), num) ==> r == Err::<Vec<u8>, StreamError>(
            StreamError::InvalidMessage,
        ),
{
    let mut occ = delimited_fields(fs, num)?;
    let ghost occ_view = bytes_views(occ@);
    match occ.pop() {
        Some(b) => {
            proof {
                assert(occ_view.last() == b@);
            }
            Ok(b)
        },
        None => Ok(Vec::new()),
    }
}

/// Whether every payload is valid UTF-8.
pub open spec fn all_utf8(occ: Seq<Seq<u8>>) -> bool {
    forall|j: int| 0 <= j < occ.len() ==> valid_utf8(#[trigger] occ[j])
}

/// The text of a `string` field numbered `num`: its last occurrence, or the
/// empty string. `None` when an occurrence isn't length-delimited or isn't
/// UTF-8.
pub open spec fn string_value(fs: Seq<SpecWireField>, num: u32) -> Option<Seq<char>> {
    if all_delimited(fs, num) && all_utf8(occurrences(fs, num)) {
        Some(decode_utf8(last_delimited(fs, num)))
    } else {
        None
    }
}

/// The value of a `string` field: its last occurrence, or the empty string.
/// Every occurrence must be valid UTF-8.
pub fn string_field(fs: &Vec<WireField>, num: u32) -> (r: Result<String, StreamError>)
    ensures
        all_delimited(fields_view(fs@), num) && all_utf8(occurrences(fields_view(fs@), num))
            ==> r is Ok && r->Ok_0@ == decode_utf8(last_delimited(fields_view(fs@), num)),
        !(all_delimited(fields_view(fs@), num) && all_utf8(occurrences(fields_view(fs@), num)))
            ==> r == Err::<String, StreamError>(StreamError::InvalidMessage),
{
    let occ = delimited_fields(fs, num)?;
    let ghost occ_view = bytes_views(occ@);
    proof {
        assert(all_delimited(fields_view(fs@), num));
        assert(occ_view == occurrences(fields_view(fs@), num));
    }
    let mut text = String::new();
    proof {
        assert(decode_utf8(seq![]) =~= text@) by {
            reveal_with_fuel(decode_utf8, 1);
        }
    }
    let mut i: usize = 0;
    while i < occ.len()
        invariant
            i <= occ@.len(),
            occ_view == bytes_views(occ@),
            occ_view == occurrences(fields_view(fs@), num),
            forall|j: int| 0 <= j < i ==> valid_utf8(#[trigger] occ_view[j]),
            i == 0 ==> text@ == decode_utf8(seq![]),
            i > 0 ==> text@ == decode_utf8(occ_view[i - 1]),
        decreases occ@.len() - i,
    {
        match string_from_utf8(occ[i].clone()) {
            Some(t) => {
                text = t;
            },
            None => {
                proof {
                    assert(!valid_utf8(occ_view[i as int]));
                    assert(!all_utf8(occurrences(fields_view(fs@), num)));
                }
                return Err(StreamError::InvalidMessage);
            },
        }
        i = i + 1;
    }
    Ok(text)
}


/// The fields of an embedded message that is sent in several pieces: each
/// piece is decoded as an embedded message and their fields are joined in order (this is how a
/// singular embedded message that occurs more than once is merged). `None`
/// when a piece doesn't decode.
pub open spec fn concat_fields(occ: Seq<Seq<u8>>) -> Option<Seq<SpecWireField>>
    decreases occ.len(),
{
    if occ.len() == 0 {
        Some(seq![])
    } else {
        match concat_fields(occ.drop_last()) {
            None => None,
            Some(front) => match spec_embedded_fields(occ.last()) {
                Ok(back) => Some(front + back),
                Err(_) => None,
            },
        }
    }
}

/// The fields of an embedded singular message numbered `num`: `None` when the
/// field is absent, otherwise the fields of all its occurrences, in order.
pub fn nested_fields(fs: &Vec<WireField>, num: u32) -> (r: Result<Option<Vec<WireField>>, StreamError>)
    ensures
        !all_delimited(fields_view(fs@), num) ==> r == Err::<Option<Vec<WireField>>, StreamError>(
            StreamError::InvalidMessage,
        ),
        all_delimited(fields_view(fs@), num) && occurrences(fields_view(fs@), num).len() == 0 ==> r
            == Ok::<Option<Vec<WireField>>, StreamError>(None),
        all_delimited(fields_view(fs@), num) && occurrences(fields_view(fs@), num).len() > 0 ==> (
        match concat_fields(occurrences(fields_view(fs@), num)) {
            None => r == Err::<Option<Vec<WireField>>, StreamError>(StreamError::InvalidMessage),
            Some(nf) => r matches Ok(Some(v)) && fields_view(v@) == nf,
        }),
{
    let occ = delimited_fields(fs, num)?;
    let ghost occ_view = bytes_views(occ@);
    proof {
        assert(all_delimited(fields_view(fs@), num));
    }
    if occ.len() == 0 {
        return Ok(None);
    }
    let mut out: Vec<WireField> = Vec::new();
    let mut i: usize = 0;
    proof {
        assert(occ_view.take(0) =~= seq![]);
        assert(fields_view(out@) =~= seq![]);
    }
    while i < occ.len()
        invariant
            i <= occ@.len(),
            occ_view == bytes_views(occ@),
            occ_view == occurrences(fields_view(fs@), num),
            all_delimited(fields_view(fs@), num),
            occ_view.len() > 0,
            concat_fields(occ_view.take(i as int)) == Some(fields_view(out@)),
        decreases occ@.len() - i,
    {
        proof {
            assert(occ_view.take(i + 1).drop_last() =~= occ_view.take(i as int));
            assert(occ_view.take(i + 1).last() == occ@[i as int]@);
        }
        let mut part = match parse_embedded_fields(occ[i].as_slice()) {
            Ok(p) => p,
            Err(_) => {
                proof {
                    lemma_concat_fields_none(occ_view, (i + 1) as nat);
                }
                return Err(StreamError::InvalidMessage);
            },
        };
        let ghost before = fields_view(out@);
        let ghost added = fields_view(part@);
        out.append(&mut part);
        proof {
            assert(fields_view(out@) =~= before + added);
        }
        i = i + 1;
    }
    proof {
        assert(occ_view.take(i as int) =~= occ_view);
    }
    Ok(Some(out))
}

/// When a prefix of the pieces fails to decode, so do all the pieces.
proof fn lemma_concat_fields_none(occ: Seq<Seq<u8>>, k: nat)
    requires
        k <= occ.len(),
        concat_fields(occ.take(k as int)) is None,
    ensures
        concat_fields(occ) is None,
    decreases occ.len() - k,
{
    if k < occ.len() {
        assert(occ.take((k + 1) as int).drop_last() =~= occ.take(k as int));
        lemma_concat_fields_none(occ, k + 1);
    } else {
        assert(occ.take(k as int) =~= occ);
    }
}


/// A length delimiter takes between one and ten bytes, and no more bytes
/// than the stream holds.
pub proof fn length_delimiter_spans_one_to_ten_bytes(s: Seq<u8>)
    ensures
        spec_read_length_delimiter(s) matches Ok((len, k)) ==> 1 <= k <= 10 && k <= s.len(),
{
    lemma_delimiter_span_bounds(s, 0);
}

} // verus!
