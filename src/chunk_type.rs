use vstd::prelude::*;
use vstd::std_specs::convert::TryFromSpecImpl;
use vstd::string::StringSliceAdditionalSpecFns;
use vstd::utf8::{
    decode_utf8, encode_utf8, encode_utf8_decode_utf8, encode_utf8_valid_utf8, is_ascii_chars,
    is_ascii_chars_encode_utf8, valid_utf8,
};

verus! {

/// An ASCII uppercase letter, `A` to `Z`.
pub open spec fn is_upper(b: u8) -> bool {
    65 <= b <= 90
}

/// An ASCII lowercase letter, `a` to `z`.
pub open spec fn is_lower(b: u8) -> bool {
    97 <= b <= 122
}

/// An ASCII letter, upper or lower case.
pub open spec fn is_letter(b: u8) -> bool {
    is_upper(b) || is_lower(b)
}

/// Every byte of `b` is an ASCII letter.
pub open spec fn all_letters(b: Seq<u8>) -> bool {
    forall|i: int| 0 <= i < b.len() ==> is_letter(#[trigger] b[i])
}

/// Why a byte sequence or a text is not accepted as a chunk type.
#[derive(Clone, Copy, Debug, PartialEq, Eq, Structural)]
pub enum ChunkTypeError {
    /// The text is not exactly four bytes long.
    WrongLength,
    /// At least one of the four bytes is not an ASCII letter.
    NonAlphabetic,
}

/// A four-byte code that tags a chunk. Each property is carried by the case
/// of one byte: critical (byte 0 uppercase), public (byte 1 uppercase),
/// reserved bit valid (byte 2 uppercase), safe to copy (byte 3 lowercase).
#[derive(Clone, Copy, Debug)]
pub struct ChunkType {
    chunk: [u8; 4],
}

impl View for ChunkType {
    type V = [u8; 4];

    closed spec fn view(&self) -> [u8; 4] {
        self.chunk
    }
}

/// The chunk type built from `b` holds exactly `b`.
pub broadcast proof fn lemma_of_view(b: [u8; 4])
    ensures
        #[trigger] ChunkType::of(b)@ == b,
{
}

impl ChunkType {
    /// The chunk type that holds exactly the bytes `b` (see `lemma_of_view`).
    pub closed spec fn of(b: [u8; 4]) -> ChunkType {
        ChunkType { chunk: b }
    }

    /// What checked construction from bytes yields: success exactly when
    /// every byte is an ASCII letter.
    pub open spec fn spec_from_bytes(b: [u8; 4]) -> Result<ChunkType, ChunkTypeError> {
        if all_letters(b@) {
            Ok(ChunkType::of(b))
        } else {
            Err(ChunkTypeError::NonAlphabetic)
        }
    }

    /// What construction from a text with UTF-8 encoding `t` yields.
    pub open spec fn spec_from_text(t: Seq<u8>) -> Result<ChunkType, ChunkTypeError> {
        if t.len() != 4 {
            Err(ChunkTypeError::WrongLength)
        } else if all_letters(t) {
            Ok(ChunkType::of([t[0], t[1], t[2], t[3]]))
        } else {
            Err(ChunkTypeError::NonAlphabetic)
        }
    }

    /// Stores the four bytes as they are, without checking them; the caller
    /// vouches for them.
    pub fn new(chunk: [u8; 4]) -> (r: ChunkType)
        ensures
            r@ == chunk,
    {
        ChunkType { chunk }
    }

    /// The four bytes, unchanged.
    pub fn bytes(&self) -> (r: [u8; 4])
        ensures
            r == self@,
    {
        self.chunk
    }

    /// Byte 2 is uppercase.
    pub fn is_reserved_bit_valid(&self) -> (r: bool)
        ensures
            r == is_upper(self@[2]),
    {
        is_ascii_uppercase(self.chunk[2])
    }

    /// Every byte is an ASCII letter and the reserved bit is valid. Checked
    /// construction asks only for letters, on purpose: a code whose byte 2 is
    /// lowercase can be built, and callers that need the stricter check apply
    /// this one.
    pub fn is_valid(&self) -> (r: bool)
        ensures
            r == (all_letters(self@@) && is_upper(self@[2])),
    {
        let condition1 = self.is_reserved_bit_valid();
        let condition2 = self.is_alphabetic();
        condition1 && condition2
    }

    /// Byte 0 is uppercase: a reader must understand the chunk.
    pub fn is_critical(&self) -> (r: bool)
        ensures
            r == is_upper(self@[0]),
    {
        is_ascii_uppercase(self.chunk[0])
    }

    /// Byte 1 is uppercase.
    pub fn is_public(&self) -> (r: bool)
        ensures
            r == is_upper(self@[1]),
    {
        is_ascii_uppercase(self.chunk[1])
    }

    /// Byte 3 is lowercase: a tool that does not know the chunk may copy it.
    pub fn is_safe_to_copy(&self) -> (r: bool)
        ensures
            r == is_lower(self@[3]),
    {
        is_ascii_lowercase(self.chunk[3])
    }

    /// Every byte is an ASCII letter.
    pub fn is_alphabetic(&self) -> (r: bool)
        ensures
            r == all_letters(self@@),
    {
        let mut i: usize = 0;
        while i < 4
            invariant
                i <= 4,
                all_letters(self@@.subrange(0, i as int)),
            decreases 4 - i,
        {
            if !is_ascii_alphabetic(self.chunk[i]) {
                assert(!is_letter(self@@[i as int]));
                return false;
            }
            assert(self@@.subrange(0, i + 1) =~= self@@.subrange(0, i as int).push(self@@[i as int]));
            i = i + 1;
        }
        assert(self@@.subrange(0, 4) =~= self@@);
        true
    }

    /// Reads a code from text: the text must be four bytes long in UTF-8, and
    /// each byte an ASCII letter. The case is kept as given.
    pub fn from_str(s: &str) -> (r: Result<ChunkType, ChunkTypeError>)
        ensures
            r == ChunkType::spec_from_text(s.spec_bytes()),
    {
        let b: &[u8] = s.as_bytes();
        if b.len() != 4 {
            return Err(ChunkTypeError::WrongLength);
        }
        let new_chunk = ChunkType::new([b[0], b[1], b[2], b[3]]);
        if new_chunk.is_alphabetic() {
            Ok(new_chunk)
        } else {
            Err(ChunkTypeError::NonAlphabetic)
        }
    }

    /// The four bytes read as UTF-8 text, in order and case. A code built
    /// unchecked from bytes that are not UTF-8 has no text; one of letters
    /// always has (`lemma_letters_text`).
    pub fn to_string(&self) -> (r: String)
        requires
            valid_utf8(self@@),
        ensures
            r@ == decode_utf8(self@@),
    {
        let v: Vec<u8> = vec![self.chunk[0], self.chunk[1], self.chunk[2], self.chunk[3]];
        assert(v@ =~= self@@);
        match string_from_utf8(v) {
            Some(t) => t,
            None => String::new(),
        }
    }
}

impl std::str::FromStr for ChunkType {
    type Err = ChunkTypeError;

    fn from_str(s: &str) -> (r: Result<ChunkType, ChunkTypeError>) {
        ChunkType::from_str(s)
    }
}

/// Relies on `String::from_utf8`: it succeeds exactly when the bytes are
/// valid UTF-8, and the text it then returns is those bytes decoded.
#[verifier::external_body]
fn string_from_utf8(bytes: Vec<u8>) -> (r: Option<String>)
    ensures
        r is Some <==> valid_utf8(bytes@),
        r matches Some(t) ==> t@ == decode_utf8(bytes@),
{
    String::from_utf8(bytes).ok()
}

impl PartialEq for ChunkType {
    /// Byte for byte, so case counts.
    fn eq(&self, other: &ChunkType) -> (r: bool) {
        let mut i: usize = 0;
        while i < 4
            invariant
                i <= 4,
                forall|j: int| 0 <= j < i ==> self@[j] == other@[j],
            decreases 4 - i,
        {
            if self.chunk[i] != other.chunk[i] {
                return false;
            }
            i = i + 1;
        }
        assert(self@ =~= other@);
        true
    }
}

impl Eq for ChunkType {
}

impl vstd::std_specs::cmp::PartialEqSpecImpl for ChunkType {
    open spec fn obeys_eq_spec() -> bool {
        true
    }

    open spec fn eq_spec(&self, other: &ChunkType) -> bool {
        self@ == other@
    }
}

impl TryFrom<[u8; 4]> for ChunkType {
    type Error = ChunkTypeError;

    /// Accepts the bytes exactly when each is an ASCII letter.
    fn try_from(value: [u8; 4]) -> (r: Result<ChunkType, ChunkTypeError>) {
        let new_chunk = ChunkType::new(value);
        if new_chunk.is_alphabetic() {
            Ok(new_chunk)
        } else {
            Err(ChunkTypeError::NonAlphabetic)
        }
    }
}

impl TryFromSpecImpl<[u8; 4]> for ChunkType {
    open spec fn obeys_try_from_spec() -> bool {
        true
    }

    open spec fn try_from_spec(value: [u8; 4]) -> Result<ChunkType, ChunkTypeError> {
        ChunkType::spec_from_bytes(value)
    }
}

fn is_ascii_uppercase(b: u8) -> (r: bool)
    ensures
        r == is_upper(b),
{
    65 <= b && b <= 90
}

fn is_ascii_lowercase(b: u8) -> (r: bool)
    ensures
        r == is_lower(b),
{
    97 <= b && b <= 122
}

fn is_ascii_alphabetic(b: u8) -> (r: bool)
    ensures
        r == is_letter(b),
{
    is_ascii_uppercase(b) || is_ascii_lowercase(b)
}

/// Two codes with the same bytes are the same code.
pub broadcast proof fn lemma_view_injective(a: ChunkType, b: ChunkType)
    ensures
        #![trigger a@, b@]
        a@ == b@ ==> a == b,
{
}

/// The facts about views that callers outside this module reason with.
pub broadcast group group_chunk_type_lemmas {
    lemma_of_view,
    lemma_view_injective,
}

/// ASCII letters are valid UTF-8, and their text is one character per byte.
pub proof fn lemma_letters_text(b: Seq<u8>)
    requires
        all_letters(b),
    ensures
        valid_utf8(b),
        decode_utf8(b) == b.map_values(|x: u8| x as char),
{
    let chars = b.map_values(|x: u8| x as char);
    assert(is_ascii_chars(chars));
    is_ascii_chars_encode_utf8(chars);
    assert(encode_utf8(chars) =~= b);
    encode_utf8_valid_utf8(chars);
    encode_utf8_decode_utf8(chars);
}

/// Four ASCII letters are accepted by checked construction from bytes, and
/// the code built holds them unchanged.
pub proof fn lemma_letters_accepted(b: [u8; 4])
    requires
        all_letters(b@),
    ensures
        ChunkType::spec_from_bytes(b) is Ok,
        ChunkType::spec_from_bytes(b)->Ok_0@ == b,
{
}

/// Four bytes of which one is not an ASCII letter are refused by checked
/// construction from bytes, as non-alphabetic.
pub proof fn lemma_non_letter_refused(b: [u8; 4])
    requires
        !all_letters(b@),
    ensures
        ChunkType::spec_from_bytes(b) == Err::<ChunkType, ChunkTypeError>(
            ChunkTypeError::NonAlphabetic,
        ),
{
}

/// A text of four ASCII letters is read into a code whose text is the one
/// read, in the same case.
pub proof fn lemma_text_round_trip(s: &str)
    requires
        s.spec_bytes().len() == 4,
        all_letters(s.spec_bytes()),
    ensures
        ChunkType::spec_from_text(s.spec_bytes()) is Ok,
        valid_utf8(ChunkType::spec_from_text(s.spec_bytes())->Ok_0@@),
        decode_utf8(ChunkType::spec_from_text(s.spec_bytes())->Ok_0@@) == s@,
{
    let t = s.spec_bytes();
    let c = ChunkType::spec_from_text(t)->Ok_0;
    assert(c@@ =~= t);
    encode_utf8_valid_utf8(s@);
    encode_utf8_decode_utf8(s@);
}

} // verus!
