//! Whole-file parsing: the metadata block, the search for the first data
//! frame, and the scan over the run of frames that follows it.

use vstd::arithmetic::div_mod::{lemma_fundamental_div_mod, lemma_fundamental_div_mod_converse_div};
use vstd::prelude::*;
use vstd::utf8::{decode_utf8, pop_first_scalar, valid_utf8};

use crate::checksum::{fletcher16, lemma_fletcher16_closed_form, spec_fletcher16};
use crate::frame::{
    frame_decodes, le_u16, parse_frame, u16_le, Frame, PAYLOAD_V0, PAYLOAD_V1,
    PAYLOAD_V2,
};

verus! {

// ---------------------------------------------------------------------------
// Types
// ---------------------------------------------------------------------------

/// Why a byte buffer is not a readable log.
#[derive(Debug, PartialEq, Eq)]
pub enum ParseError {
    /// The buffer is shorter than the metadata block.
    FileTooSmall,
    /// The buffer does not start with `MD`.
    BadMagic,
    /// No data frame could be read.
    NoDataFrames,
    /// The first data frame has a version this reader does not know.
    UnsupportedVersion { version: u8 },
}

/// The character of decimal digit `d`.
pub open spec fn digit_char(d: int) -> char {
    (0x30 + d) as char
}

/// Decimal notation of `n`, most significant digit first, without leading zeros.
pub open spec fn decimal(n: nat) -> Seq<char>
    decreases n,
{
    if n < 10 {
        seq![digit_char(n as int)]
    } else {
        decimal(n / 10).push(digit_char((n % 10) as int))
    }
}

/// Value of a string of decimal digits, most significant first.
pub open spec fn digits_value(s: Seq<char>) -> int
    decreases s.len(),
{
    if s.len() == 0 {
        0
    } else {
        digits_value(s.drop_last()) * 10 + (s.last() as int - 0x30)
    }
}

/// The decimal notation of `n` is made of the characters `0` to `9`, has no
/// leading zero (unless `n` is 0), has one digit below 10, at most two below
/// 100 and at most three below 1000, and reads back as `n`.
pub proof fn lemma_decimal_reads_back(n: nat)
    ensures
        forall|i: int| 0 <= i < decimal(n).len() ==> '0' <= #[trigger] decimal(n)[i] <= '9',
        n > 0 ==> decimal(n)[0] != '0',
        n < 10 ==> decimal(n).len() == 1,
        n < 100 ==> decimal(n).len() <= 2,
        n < 1000 ==> decimal(n).len() <= 3,
        digits_value(decimal(n)) == n,
    decreases n,
{
    let d = decimal(n);
    if n >= 10 {
        lemma_decimal_reads_back(n / 10);
        assert(d.drop_last() =~= decimal(n / 10));
        assert(d[0] == decimal(n / 10)[0]);
        assert(digits_value(d) == digits_value(decimal(n / 10)) * 10 + (n % 10));
    } else {
        assert(d.drop_last() =~= Seq::<char>::empty());
        assert(digits_value(d) == digits_value(Seq::<char>::empty()) * 10 + n);
    }
}

/// Human-readable description of a parse error.
pub open spec fn message_text(e: ParseError) -> Seq<char> {
    match e {
        ParseError::FileTooSmall => "File too small to contain header"@,
        ParseError::BadMagic => "Bad magic: expected 'MD' header"@,
        ParseError::NoDataFrames => "No valid data frames found"@,
        ParseError::UnsupportedVersion { version } => "Unsupported data frame version: "@ + decimal(
            version as nat,
        ),
    }
}

fn digit_str(d: u8) -> (r: &'static str)
    requires
        d < 10,
    ensures
        r@ == seq![digit_char(d as int)],
{
    proof {
        reveal_strlit("0");
        reveal_strlit("1");
        reveal_strlit("2");
        reveal_strlit("3");
        reveal_strlit("4");
        reveal_strlit("5");
        reveal_strlit("6");
        reveal_strlit("7");
        reveal_strlit("8");
        reveal_strlit("9");
    }
    match d {
        0 => "0",
        1 => "1",
        2 => "2",
        3 => "3",
        4 => "4",
        5 => "5",
        6 => "6",
        7 => "7",
        8 => "8",
        _ => "9",
    }
}

fn push_decimal(s: &mut String, v: u8)
    ensures
        final(s)@ == old(s)@ + decimal(v as nat),
{
    let ghost start = s@;
    if v >= 100 {
        s.append(digit_str(v / 100));
    }
    if v >= 10 {
        s.append(digit_str((v / 10) % 10));
    }
    s.append(digit_str(v % 10));
    proof {
        let n = v as nat;
        if n >= 100 {
            assert(decimal(n / 100) == seq![digit_char((n / 100) as int)]);
            assert(n / 10 / 10 == n / 100);
            assert(decimal(n / 10) == decimal(n / 100).push(digit_char((n / 10 % 10) as int)));
        } else if n >= 10 {
            assert(decimal(n / 10) == seq![digit_char((n / 10) as int)]);
        }
        assert(s@ =~= start + decimal(n));
    }
}

impl ParseError {
    /// Human-readable description of the error.
    pub fn message(&self) -> (s: String)
        ensures
            s@ == message_text(*self),
    {
        match self {
            ParseError::FileTooSmall => String::from_str("File too small to contain header"),
            ParseError::BadMagic => String::from_str("Bad magic: expected 'MD' header"),
            ParseError::NoDataFrames => String::from_str("No valid data frames found"),
            ParseError::UnsupportedVersion { version } => {
                let mut s = String::from_str("Unsupported data frame version: ");
                push_decimal(&mut s, *version);
                s
            },
        }
    }
}

/// Options controlling parse behavior.
pub struct ParseOptions {
    /// Validate Fletcher 16 checksums on each frame. Default: true.
    pub validate_checksums: bool,
    /// If true, skip frames with bad checksums instead of including them. Default: false.
    pub skip_bad_checksums: bool,
}

impl Default for ParseOptions {
    fn default() -> (r: Self)
        ensures
            r.validate_checksums,
            !r.skip_bad_checksums,
    {
        ParseOptions { validate_checksums: true, skip_bad_checksums: false }
    }
}

/// Parsed log: metadata header + sequence of data frames.
pub struct OnFlightFile {
    pub header: FileHeader,
    pub frames: Vec<Frame>,
    /// Number of frames that failed checksum validation (0 if not validated).
    pub checksum_errors: usize,
}

/// File-level metadata written once at the start of the log.
#[derive(Debug, Clone)]
pub struct FileHeader {
    /// Meta data format version.
    pub version: u8,
    /// OnFlight Hub serial number (6 bytes).
    pub serial_number: [u8; 6],
    /// Aircraft tail number (from configuration).
    pub tail_number: String,
    /// Pilot name (from configuration).
    pub pilot_name: String,
    /// Aircraft type (from configuration).
    pub aircraft_type: String,
}

// ---------------------------------------------------------------------------
// Layout
// ---------------------------------------------------------------------------

/// Length of the metadata payload.
pub const META_PAYLOAD_LEN: usize = 54;

/// Length of the whole metadata block: magic, version, length, payload, checksum.
pub const META_TOTAL_LEN: usize = 60;

/// Bytes of a data frame outside its payload: `BF`, version, length, checksum.
pub const FRAME_OVERHEAD: usize = 6;

/// Payload length of a data frame of `version`, for the versions this reader knows.
pub open spec fn spec_payload_len(version: u8) -> Option<int> {
    if version == 0 {
        Some(PAYLOAD_V0 as int)
    } else if version == 1 {
        Some(PAYLOAD_V1 as int)
    } else if version == 2 {
        Some(PAYLOAD_V2 as int)
    } else {
        None
    }
}

/// Total length of a data frame of a known `version`.
pub open spec fn frame_size(version: u8) -> int {
    FRAME_OVERHEAD + spec_payload_len(version).unwrap()
}

// ---------------------------------------------------------------------------
// Metadata strings
// ---------------------------------------------------------------------------

/// What `String::from_utf8_lossy` makes of `bytes`: the decoded text, with each
/// invalid sequence replaced by U+FFFD.
pub uninterp spec fn utf8_lossy(bytes: Seq<u8>) -> Seq<char>;

/// Calls `String::from_utf8_lossy` and takes ownership of the text.
/// Trusted: the text is the function's result on these bytes, and, where the
/// bytes are valid UTF-8, it is their decoding (as the function's documentation
/// states). Nothing is claimed of the replacement of invalid sequences.
#[verifier::external_body]
fn decode_lossy(bytes: &[u8]) -> (s: String)
    ensures
        s@ == utf8_lossy(bytes@),
        valid_utf8(bytes@) ==> s@ == decode_utf8(bytes@),
{
    String::from_utf8_lossy(bytes).into_owned()
}

/// Index of the first NUL byte of `b` at or after `i`, or `b.len()` if there is none.
pub open spec fn nul_index_from(b: Seq<u8>, i: int) -> int
    decreases b.len() - i,
{
    if i >= b.len() {
        b.len() as int
    } else if b[i] == 0 {
        i
    } else {
        nul_index_from(b, i + 1)
    }
}

/// The bytes of a NUL-terminated (or field-filling) string stored in `b`.
pub open spec fn cstring_bytes(b: Seq<u8>) -> Seq<u8> {
    b.subrange(0, nul_index_from(b, 0))
}

/// Text of a NUL-terminated (or field-filling) string stored in `b`: the decoding
/// of its bytes when they are valid UTF-8, their lossy decoding otherwise.
pub open spec fn cstring_text(b: Seq<u8>) -> Seq<char> {
    let pre = cstring_bytes(b);
    if valid_utf8(pre) {
        decode_utf8(pre)
    } else {
        utf8_lossy(pre)
    }
}

/// ASCII bytes are valid UTF-8 and decode to the characters with the same codes.
pub proof fn lemma_ascii_decodes(bytes: Seq<u8>)
    requires
        forall|i: int| 0 <= i < bytes.len() ==> bytes[i] < 0x80,
    ensures
        valid_utf8(bytes),
        decode_utf8(bytes) == Seq::new(bytes.len(), |i: int| bytes[i] as char),
    decreases bytes.len(),
{
    if bytes.len() > 0 {
        let b = bytes[0];
        assert((b & 0x7F) as u32 == b as u32) by (bit_vector)
            requires
                b < 0x80,
        ;
        let rest = bytes.subrange(1, bytes.len() as int);
        lemma_ascii_decodes(rest);
        assert(pop_first_scalar(bytes) == rest);
        assert(decode_utf8(bytes) =~= Seq::new(bytes.len(), |i: int| bytes[i] as char));
    }
}

proof fn lemma_nul_index_prefix(s: Seq<u8>, rest: Seq<u8>, i: int)
    requires
        0 <= i <= s.len(),
        forall|j: int| 0 <= j < s.len() ==> s[j] != 0,
    ensures
        nul_index_from(s + seq![0u8] + rest, i) == s.len(),
        nul_index_from(s, i) == s.len(),
    decreases s.len() - i,
{
    let b = s + seq![0u8] + rest;
    if i < s.len() {
        assert(b[i] == s[i]);
        lemma_nul_index_prefix(s, rest, i + 1);
    } else {
        assert(b[i] == 0);
    }
}

/// A NUL-padded field reads as the bytes strictly before its first NUL: a field
/// holding NUL-free bytes `s`, then a NUL, then anything, reads exactly as `s`
/// alone does, that is, as the decoding of `s` when it is valid UTF-8 (so a
/// field that starts with NUL reads as the empty text) and as the lossy
/// decoding of `s` otherwise.
pub proof fn lemma_cstring_stops_at_nul(s: Seq<u8>, rest: Seq<u8>)
    requires
        forall|j: int| 0 <= j < s.len() ==> s[j] != 0,
    ensures
        cstring_text(s + seq![0u8] + rest) == cstring_text(s),
        valid_utf8(s) ==> cstring_text(s + seq![0u8] + rest) == decode_utf8(s),
        !valid_utf8(s) ==> cstring_text(s + seq![0u8] + rest) == utf8_lossy(s),
        s.len() == 0 ==> cstring_text(s + seq![0u8] + rest).len() == 0,
{
    lemma_nul_index_prefix(s, rest, 0);
    let b = s + seq![0u8] + rest;
    assert(b.subrange(0, s.len() as int) =~= s);
    assert(s.subrange(0, s.len() as int) =~= s);
    if s.len() == 0 {
        assert(valid_utf8(s));
        assert(decode_utf8(s) =~= Seq::<char>::empty());
    }
}

/// Read the string stored in a fixed-width, NUL-padded field.
pub fn read_cstring(data: &[u8]) -> (s: String)
    ensures
        s@ == cstring_text(data@),
        s@ == utf8_lossy(cstring_bytes(data@)),
{
    let n = data.len();
    let mut end: usize = 0;
    while end < n && data[end] != 0
        invariant
            n == data@.len(),
            end <= n,
            nul_index_from(data@, 0) == nul_index_from(data@, end as int),
        decreases n - end,
    {
        end = end + 1;
    }
    decode_lossy(&data[0..end])
}

/// `h` is the metadata header stored in the first bytes of `d`.
pub open spec fn header_decodes(h: FileHeader, d: Seq<u8>) -> bool {
    &&& h.version == d[2]
    &&& h.serial_number@ == d.subrange(4, 10)
    &&& h.tail_number@ == cstring_text(d.subrange(10, 22))
    &&& h.pilot_name@ == cstring_text(d.subrange(22, 46))
    &&& h.aircraft_type@ == cstring_text(d.subrange(46, 58))
}

/// Layout of the metadata header against the buffer: the metadata version is
/// byte 2, the serial number bytes 4..10, and the tail number, pilot name and
/// aircraft type are read from the NUL-padded fields at 10..22, 22..46 and 46..58.
pub proof fn lemma_header_layout(h: FileHeader, d: Seq<u8>)
    requires
        header_decodes(h, d),
        d.len() >= META_TOTAL_LEN,
    ensures
        h.version == d[2],
        forall|i: int| 0 <= i < 6 ==> h.serial_number@[i] == d[4 + i],
        h.tail_number@ == cstring_text(d.subrange(10, 22)),
        h.pilot_name@ == cstring_text(d.subrange(22, 46)),
        h.aircraft_type@ == cstring_text(d.subrange(46, 58)),
{
    assert forall|i: int| 0 <= i < 6 implies h.serial_number@[i] == d[4 + i] by {
        assert(h.serial_number@[i] == d.subrange(4, 10)[i]);
    }
}

// ---------------------------------------------------------------------------
// Locating the first frame
// ---------------------------------------------------------------------------

/// `BF`, a known version, and that version's payload length start at `i`.
pub open spec fn is_frame_header_at(d: Seq<u8>, i: int) -> bool {
    &&& d[i] == 0x42
    &&& d[i + 1] == 0x46
    &&& spec_payload_len(d[i + 2]) == Some(d[i + 3] as int)
}

/// Where the search for the first frame starts: after the metadata block,
/// or at 0 when the buffer holds nothing beyond it.
pub open spec fn search_start(d: Seq<u8>) -> int {
    if d.len() > META_TOTAL_LEN {
        META_TOTAL_LEN as int
    } else {
        0
    }
}

/// Where the search for the first frame ends (exclusive).
pub open spec fn search_end(d: Seq<u8>) -> int {
    if d.len() >= 4 {
        d.len() - 4
    } else {
        0
    }
}

/// The first frame header at or after `i`, before the end of the search.
pub open spec fn first_frame_from(d: Seq<u8>, i: int) -> Option<int>
    decreases search_end(d) - i,
{
    if i >= search_end(d) {
        None
    } else if is_frame_header_at(d, i) {
        Some(i)
    } else {
        first_frame_from(d, i + 1)
    }
}

/// The first frame header of the log.
pub open spec fn first_frame(d: Seq<u8>) -> Option<int> {
    first_frame_from(d, search_start(d))
}


/// The first frame header found from `i` on lies in the search window, and no
/// position before it in the window holds a frame header; when none is found,
/// no position from `i` to the end of the window holds one.
pub proof fn lemma_first_frame_from(d: Seq<u8>, i: int)
    ensures
        first_frame_from(d, i) matches Some(k) ==> {
            &&& i <= k < search_end(d)
            &&& is_frame_header_at(d, k)
            &&& forall|j: int| i <= j < k ==> !is_frame_header_at(d, j)
        },
        first_frame_from(d, i) is None ==> forall|j: int|
            i <= j < search_end(d) ==> !is_frame_header_at(d, j),
    decreases search_end(d) - i,
{
    if i < search_end(d) && !is_frame_header_at(d, i) {
        lemma_first_frame_from(d, i + 1);
    }
}

/// Sizes fixed by the format: a 60-byte metadata block; frames of versions 0, 1
/// and 2 with payloads of 143, 155 and 184 bytes and 6 bytes around each
/// payload (149, 161 and 190 in all); no other version is known.
pub proof fn lemma_format_sizes()
    ensures
        META_TOTAL_LEN == 60,
        spec_payload_len(0) == Some(143int),
        spec_payload_len(1) == Some(155int),
        spec_payload_len(2) == Some(184int),
        forall|v: u8| v > 2 ==> spec_payload_len(v) is None,
        frame_size(0) == 149,
        frame_size(1) == 161,
        frame_size(2) == 190,
{
}

/// The first frame, stated against the buffer: the earliest offset `i`, from 60
/// on when the buffer is longer than the 60-byte metadata block (from 0
/// otherwise) and below `len - 4`, where the bytes are `B`, `F`, a version 0, 1
/// or 2, and that version's payload length 143, 155 or 184. When there is
/// none, no offset in that window holds such bytes.
pub proof fn lemma_first_frame_layout(d: Seq<u8>)
    ensures
        first_frame(d) matches Some(i) ==> {
            &&& (if d.len() > 60 { 60 <= i } else { 0 <= i })
            &&& i < d.len() - 4
            &&& d[i] == 0x42 && d[i + 1] == 0x46 && (d[i + 2] == 0 && d[i + 3] == 143 || d[i + 2] == 1 && d[i + 3] == 155 || d[i + 2] == 2 && d[i + 3] == 184)
            &&& forall|j: int|
                #![trigger d[j]]
                (if d.len() > 60 { 60 <= j } else { 0 <= j }) && j < i ==> !(d[j] == 0x42 && d[j + 1] == 0x46 && (d[j + 2] == 0 && d[j + 3] == 143 || d[j + 2] == 1 && d[j + 3] == 155 || d[j + 2] == 2 && d[j + 3] == 184))
        },
        first_frame(d) is None ==> forall|j: int|
            #![trigger d[j]]
            (if d.len() > 60 { 60 <= j } else { 0 <= j }) && j < d.len() - 4 ==> !(d[j] == 0x42 && d[j + 1] == 0x46 && (d[j + 2] == 0 && d[j + 3] == 143 || d[j + 2] == 1 && d[j + 3] == 155 || d[j + 2] == 2 && d[j + 3] == 184)),
{
    lemma_first_frame_from(d, search_start(d));
    assert forall|j: int|
        #![trigger d[j]]
        0 <= j && j + 3 < d.len() implies (is_frame_header_at(d, j) <==> (d[j] == 0x42 && d[j + 1] == 0x46 && (d[j + 2] == 0 && d[j + 3] == 143 || d[j + 2] == 1 && d[j + 3] == 155 || d[j + 2] == 2 && d[j + 3] == 184))) by {}
    if let Some(i) = first_frame(d) {
        assert forall|j: int|
            #![trigger d[j]]
            (if d.len() > 60 { 60 <= j } else { 0 <= j }) && j < i implies !(d[j] == 0x42 && d[j + 1] == 0x46 && (d[j + 2] == 0 && d[j + 3] == 143 || d[j + 2] == 1 && d[j + 3] == 155 || d[j + 2] == 2 && d[j + 3] == 184)) by {
            assert(!is_frame_header_at(d, j));
        }
    } else {
        assert forall|j: int|
            #![trigger d[j]]
            (if d.len() > 60 { 60 <= j } else { 0 <= j }) && j < d.len() - 4 implies !(d[j] == 0x42 && d[j + 1] == 0x46 && (d[j + 2] == 0 && d[j + 3] == 143 || d[j + 2] == 1 && d[j + 3] == 155 || d[j + 2] == 2 && d[j + 3] == 184)) by {
            assert(!is_frame_header_at(d, j));
        }
    }
}

/// Payload length of a data frame of `version`, for the versions this reader knows.
pub fn payload_len(version: u8) -> (r: Option<usize>)
    ensures
        r matches Some(n) ==> spec_payload_len(version) == Some(n as int),
        r is None ==> spec_payload_len(version) is None,
{
    match version {
        0 => Some(PAYLOAD_V0),
        1 => Some(PAYLOAD_V1),
        2 => Some(PAYLOAD_V2),
        _ => None,
    }
}

/// Offset of the first data frame header after the metadata block.
pub fn find_first_frame(data: &[u8]) -> (r: Option<usize>)
    ensures
        r matches Some(i) ==> first_frame(data@) == Some(i as int),
        r is None ==> first_frame(data@) is None,
{
    let start = if data.len() > META_TOTAL_LEN {
        META_TOTAL_LEN
    } else {
        0
    };
    let end = data.len().saturating_sub(4);
    let mut i = start;
    while i < end
        invariant
            end == search_end(data@),
            start <= i,
            first_frame(data@) == first_frame_from(data@, i as int),
        decreases end - i,
    {
        if data[i] == 0x42 && data[i + 1] == 0x46 {
            let expected = payload_len(data[i + 2]);
            if let Some(n) = expected {
                if data[i + 3] as usize == n {
                    return Some(i);
                }
            }
        }
        i = i + 1;
    }
    None
}

// ---------------------------------------------------------------------------
// Scanning the run of frames
// ---------------------------------------------------------------------------

/// The `k`-th frame-sized slot after `start`.
pub open spec fn slot(d: Seq<u8>, start: int, size: int, k: int) -> Seq<u8> {
    d.subrange(start + k * size, start + (k + 1) * size)
}

/// Number of whole frame-sized slots between `start` and the end of the buffer.
pub open spec fn slot_count(d: Seq<u8>, start: int, size: int) -> int {
    (d.len() - start) / size
}

/// The slot begins with the `BF` frame marker.
pub open spec fn marked(raw: Seq<u8>) -> bool {
    raw[0] == 0x42 && raw[1] == 0x46
}

/// The checksum stored in the last two bytes of the slot matches its other bytes.
pub open spec fn checksum_matches(raw: Seq<u8>) -> bool {
    le_u16(raw, raw.len() - 2) == spec_fletcher16(raw.subrange(0, raw.len() - 2))
}

/// A slot's checksum matches exactly when its last two bytes are the low and
/// then the high byte of the Fletcher 16 checksum of all the bytes before them.
pub proof fn lemma_checksum_bytes(raw: Seq<u8>)
    requires
        raw.len() >= 2,
    ensures
        checksum_matches(raw) <==> {
            &&& raw[raw.len() - 2] == spec_fletcher16(raw.subrange(0, raw.len() - 2)) % 256
            &&& raw[raw.len() - 1] == spec_fletcher16(raw.subrange(0, raw.len() - 2)) / 256
        },
{
    let body = raw.subrange(0, raw.len() - 2);
    lemma_fletcher16_closed_form(body);
    let c = spec_fletcher16(body);
    let lo = raw[raw.len() - 2] as int;
    let hi = raw[raw.len() - 1] as int;
    assert(c == (c / 256) * 256 + c % 256) by (nonlinear_arith);
    assert(lo + 256 * hi == c <==> lo == c % 256 && hi == c / 256) by (nonlinear_arith)
        requires
            0 <= lo < 256,
            0 <= hi < 256,
            c == (c / 256) * 256 + c % 256,
            0 <= c % 256 < 256,
    ;
}

/// Index of the first slot at or after `k` without the frame marker, or the slot count.
pub open spec fn run_end_from(d: Seq<u8>, start: int, size: int, k: int) -> int
    decreases slot_count(d, start, size) - k,
{
    if k >= slot_count(d, start, size) {
        slot_count(d, start, size)
    } else if !marked(slot(d, start, size, k)) {
        k
    } else {
        run_end_from(d, start, size, k + 1)
    }
}

/// Number of consecutive marked slots from `start`: the frames that are read.
pub open spec fn run_len(d: Seq<u8>, start: int, size: int) -> int {
    run_end_from(d, start, size, 0)
}

/// A read slot is kept unless checksums are validated, bad ones skipped, and its checksum is bad.
pub open spec fn keeps(raw: Seq<u8>, validate: bool, skip: bool) -> bool {
    !(validate && skip && !checksum_matches(raw))
}

/// Indices, in order, of the slots among the first `n` that become frames.
pub open spec fn kept_slots(
    d: Seq<u8>,
    start: int,
    size: int,
    validate: bool,
    skip: bool,
    n: int,
) -> Seq<int>
    decreases n,
{
    if n <= 0 {
        Seq::empty()
    } else {
        let prev = kept_slots(d, start, size, validate, skip, n - 1);
        if keeps(slot(d, start, size, n - 1), validate, skip) {
            prev.push(n - 1)
        } else {
            prev
        }
    }
}

/// Number of slots among the first `n` whose checksum is found bad (0 when not validated).
pub open spec fn bad_slots(d: Seq<u8>, start: int, size: int, validate: bool, n: int) -> int
    decreases n,
{
    if n <= 0 {
        0
    } else {
        bad_slots(d, start, size, validate, n - 1) + if validate && !checksum_matches(
            slot(d, start, size, n - 1),
        ) {
            1int
        } else {
            0int
        }
    }
}

/// The frames are exactly the decodings of the kept slots, in order.
#[verifier::opaque]
pub open spec fn frames_decode(
    frames: Seq<Frame>,
    d: Seq<u8>,
    start: int,
    version: u8,
    kept: Seq<int>,
) -> bool {
    let size = frame_size(version);
    &&& frames.len() == kept.len()
    &&& forall|j: int|
        0 <= j < frames.len() ==> frame_decodes(
            #[trigger] frames[j],
            slot(d, start, size, kept[j]).subrange(4, size),
            version,
        )
}

/// What `parse` gives for the log `d` once the metadata block has been accepted
/// and the first frame found at `start`.
pub open spec fn scan_result(
    r: Result<OnFlightFile, ParseError>,
    d: Seq<u8>,
    start: int,
    validate: bool,
    skip: bool,
) -> bool {
    let version = d[start + 2];
    let size = frame_size(version);
    let n = run_len(d, start, size);
    let kept = kept_slots(d, start, size, validate, skip, n);
    if kept.len() == 0 {
        r == Err::<OnFlightFile, ParseError>(ParseError::NoDataFrames)
    } else {
        &&& r is Ok
        &&& header_decodes(r->Ok_0.header, d)
        &&& frames_decode(r->Ok_0.frames@, d, start, version, kept)
        &&& r->Ok_0.checksum_errors == bad_slots(d, start, size, validate, n)
    }
}


proof fn lemma_frames_decode_push(
    frames: Seq<Frame>,
    f: Frame,
    d: Seq<u8>,
    start: int,
    version: u8,
    kept: Seq<int>,
    k: int,
)
    requires
        frames_decode(frames, d, start, version, kept),
        frame_decodes(f, slot(d, start, frame_size(version), k).subrange(4, frame_size(version)), version),
    ensures
        frames_decode(frames.push(f), d, start, version, kept.push(k)),
{
    reveal(frames_decode);
    let size = frame_size(version);
    assert forall|j: int| 0 <= j < frames.push(f).len() implies frame_decodes(
        #[trigger] frames.push(f)[j],
        slot(d, start, size, kept.push(k)[j]).subrange(4, size),
        version,
    ) by {
        if j < frames.len() {
            assert(frames.push(f)[j] == frames[j]);
        }
    }
}

proof fn lemma_frames_decode_empty(d: Seq<u8>, start: int, version: u8)
    ensures
        frames_decode(Seq::empty(), d, start, version, Seq::empty()),
{
    reveal(frames_decode);
}

/// Checksum bookkeeping of the scan over the first `n` read slots. The kept
/// slots are distinct, increasing and among the first `n`; without validation
/// no checksum error is counted; unless bad frames are skipped, every read slot
/// becomes a frame, in order; when they are skipped, every read slot either
/// becomes a frame or is counted as a checksum error, never both, and every
/// kept slot carries a matching checksum.
pub proof fn lemma_scan_accounting(
    d: Seq<u8>,
    start: int,
    size: int,
    validate: bool,
    skip: bool,
    n: int,
)
    requires
        n >= 0,
    ensures
        ({
            let kept = kept_slots(d, start, size, validate, skip, n);
            let bad = bad_slots(d, start, size, validate, n);
            &&& 0 <= bad <= n
            &&& kept.len() <= n
            &&& forall|j: int| 0 <= j < kept.len() ==> 0 <= #[trigger] kept[j] < n
            &&& forall|j: int, k: int| 0 <= j < k < kept.len() ==> #[trigger] kept[j] < #[trigger] kept[k]
            &&& !validate ==> bad == 0
            &&& !(validate && skip) ==> kept.len() == n && forall|j: int| 0 <= j < n ==> #[trigger] kept[j] == j
            &&& validate && skip ==> kept.len() + bad == n
            &&& validate && skip ==> forall|j: int| 0 <= j < kept.len() ==> checksum_matches(
                #[trigger] slot(d, start, size, kept[j]),
            )
        }),
    decreases n,
{
    if n > 0 {
        lemma_scan_accounting(d, start, size, validate, skip, n - 1);
        let prev = kept_slots(d, start, size, validate, skip, n - 1);
        let kept = kept_slots(d, start, size, validate, skip, n);
        if keeps(slot(d, start, size, n - 1), validate, skip) {
            assert forall|j: int| 0 <= j < prev.len() implies kept[j] == prev[j] by {}
        }
    }
}

proof fn lemma_first_frame_extend(d: Seq<u8>, t: Seq<u8>, i: int)
    requires
        d.len() > META_TOTAL_LEN,
        0 <= i,
        first_frame_from(d, i) is Some,
    ensures
        first_frame_from(d + t, i) == first_frame_from(d, i),
    decreases search_end(d) - i,
{
    let e = d + t;
    if i < search_end(d) {
        assert(e[i] == d[i] && e[i + 1] == d[i + 1] && e[i + 2] == d[i + 2] && e[i + 3] == d[i + 3]);
        if !is_frame_header_at(d, i) {
            lemma_first_frame_extend(d, t, i + 1);
        }
    }
}

proof fn lemma_scan_extend(d: Seq<u8>, t: Seq<u8>, start: int, size: int, validate: bool, skip: bool, n: int)
    requires
        0 <= n <= slot_count(d, start, size),
        forall|k: int| 0 <= k < slot_count(d, start, size) ==> slot(d + t, start, size, k) == slot(d, start, size, k),
    ensures
        kept_slots(d + t, start, size, validate, skip, n) == kept_slots(d, start, size, validate, skip, n),
        bad_slots(d + t, start, size, validate, n) == bad_slots(d, start, size, validate, n),
    decreases n,
{
    if n > 0 {
        lemma_scan_extend(d, t, start, size, validate, skip, n - 1);
    }
}

proof fn lemma_run_extend(d: Seq<u8>, t: Seq<u8>, start: int, size: int, k: int)
    requires
        0 <= k,
        slot_count(d + t, start, size) == slot_count(d, start, size),
        forall|j: int| 0 <= j < slot_count(d, start, size) ==> slot(d + t, start, size, j) == slot(d, start, size, j),
    ensures
        run_end_from(d + t, start, size, k) == run_end_from(d, start, size, k),
    decreases slot_count(d, start, size) - k,
{
    if k < slot_count(d, start, size) {
        lemma_run_extend(d, t, start, size, k + 1);
    }
}

/// Bytes after the last whole frame are ignored. Appending to a log fewer bytes
/// than it takes to complete one more frame moves neither the first frame nor
/// anything the scan reads, keeps or counts, so `parse` owes the same result for
/// the longer buffer as for the shorter one.
pub proof fn lemma_trailing_bytes_ignored(d: Seq<u8>, t: Seq<u8>, validate: bool, skip: bool)
    requires
        d.len() > META_TOTAL_LEN,
        first_frame(d) matches Some(start) && (d.len() - start) % frame_size(d[start + 2]) + t.len()
            < frame_size(d[start + 2]),
    ensures
        first_frame(d + t) == first_frame(d),
        forall|r: Result<OnFlightFile, ParseError>|
            #![trigger scan_result(r, d + t, first_frame(d).unwrap(), validate, skip)]
            scan_result(r, d + t, first_frame(d).unwrap(), validate, skip) == scan_result(
                r,
                d,
                first_frame(d).unwrap(),
                validate,
                skip,
            ),
{
    let e = d + t;
    let start = first_frame(d).unwrap();
    lemma_first_frame_extend(d, t, search_start(d));
    lemma_first_frame_from(d, search_start(d));
    let version = d[start + 2];
    let size = frame_size(version);
    assert(e[start + 2] == version);
    let len = d.len() - start;
    let q = len / size;
    let rem = len % size;
    lemma_fundamental_div_mod(len, size);
    assert(q * size + rem == len) by (nonlinear_arith)
        requires
            len == size * q + rem,
    ;
    lemma_fundamental_div_mod_converse_div(len + t.len(), size, q, rem + t.len());
    assert(slot_count(e, start, size) == q);
    assert forall|k: int| 0 <= k < q implies slot(e, start, size, k) == slot(d, start, size, k) by {
        assert((k + 1) * size <= q * size) by (nonlinear_arith)
            requires
                0 <= k < q,
                size > 0,
        ;
        assert(k * size >= 0) by (nonlinear_arith)
            requires
                0 <= k,
                size > 0,
        ;
        assert(k * size + size == (k + 1) * size) by (nonlinear_arith);
        let lo = start + k * size;
        let hi = start + (k + 1) * size;
        assert(0 <= lo <= hi <= d.len());
        assert(e.subrange(lo, hi) =~= d.subrange(lo, hi));
    }
    lemma_run_extend(d, t, start, size, 0);
    let n = run_len(d, start, size);
    lemma_run_bound(d, start, size, 0);
    lemma_scan_extend(d, t, start, size, validate, skip, n);
    lemma_scan_accounting(d, start, size, validate, skip, n);
    let kept = kept_slots(d, start, size, validate, skip, n);
    assert forall|r: Result<OnFlightFile, ParseError>|
        #![trigger scan_result(r, e, start, validate, skip)]
        scan_result(r, e, start, validate, skip) == scan_result(r, d, start, validate, skip) by {
        reveal(frames_decode);
        if r is Ok {
            let h = r->Ok_0.header;
            assert(e.subrange(4, 10) =~= d.subrange(4, 10));
            assert(e.subrange(10, 22) =~= d.subrange(10, 22));
            assert(e.subrange(22, 46) =~= d.subrange(22, 46));
            assert(e.subrange(46, 58) =~= d.subrange(46, 58));
            assert(e[2] == d[2]);
        }
    }
}

proof fn lemma_run_bound(d: Seq<u8>, start: int, size: int, k: int)
    requires
        0 <= k <= slot_count(d, start, size),
    ensures
        k <= run_end_from(d, start, size, k) <= slot_count(d, start, size),
    decreases slot_count(d, start, size) - k,
{
    if k < slot_count(d, start, size) {
        lemma_run_bound(d, start, size, k + 1);
    }
}

/// Every offset from `start` on that is a whole number of slots past it, and
/// below `end`, holds the `B`, `F` frame marker.
pub open spec fn markers_before(d: Seq<u8>, start: int, size: int, end: int) -> bool {
    forall|o: int|
        #![trigger d[o]]
        start <= o < end && (o - start) % size == 0 ==> d[o] == 0x42 && d[o + 1] == 0x46
}

proof fn lemma_slot_offset(start: int, size: int, k: int, o: int)
    requires
        size > 0,
        0 <= k,
        start + k * size <= o < start + (k + 1) * size,
        (o - start) % size == 0,
    ensures
        o == start + k * size,
{
    let x = o - start;
    lemma_fundamental_div_mod(x, size);
    let q = x / size;
    assert(x == size * q);
    assert(q <= k - 1 ==> size * q <= size * k - size) by (nonlinear_arith)
        requires
            size > 0,
    ;
    assert(q >= k + 1 ==> size * q >= size * k + size) by (nonlinear_arith)
        requires
            size > 0,
    ;
    assert(size * k == k * size && size * (k + 1) == (k + 1) * size && (k + 1) * size == k * size
        + size) by (nonlinear_arith);
    assert(q == k);
    assert(size * q == k * size) by (nonlinear_arith)
        requires
            q == k,
    ;
}

proof fn lemma_run_from_layout(d: Seq<u8>, start: int, size: int, k: int)
    requires
        0 <= start <= d.len(),
        size >= 2,
        0 <= k <= slot_count(d, start, size),
        markers_before(d, start, size, start + k * size),
    ensures
        ({
            let n = run_end_from(d, start, size, k);
            &&& k <= n <= slot_count(d, start, size)
            &&& markers_before(d, start, size, start + n * size)
            &&& n < slot_count(d, start, size) ==> !(d[start + n * size] == 0x42 && d[start + n * size
                + 1] == 0x46)
        }),
    decreases slot_count(d, start, size) - k,
{
    let count = slot_count(d, start, size);
    if k < count {
        assert((k + 1) * size <= count * size) by (nonlinear_arith)
            requires
                k < count,
                size > 0,
        ;
        assert(count * size <= d.len() - start) by (nonlinear_arith)
            requires
                count == (d.len() - start) / size,
                size > 0,
                d.len() - start >= 0,
        ;
        assert(k * size + size == (k + 1) * size && k * size >= 0) by (nonlinear_arith)
            requires
                k >= 0,
                size > 0,
        ;
        let raw = slot(d, start, size, k);
        assert(raw[0] == d[start + k * size] && raw[1] == d[start + k * size + 1]);
        if marked(raw) {
            assert forall|o: int|
                #![trigger d[o]]
                start <= o < start + (k + 1) * size && (o - start) % size == 0 implies d[o] == 0x42
                && d[o + 1] == 0x46 by {
                if o >= start + k * size {
                    lemma_slot_offset(start, size, k, o);
                }
            }
            assert(markers_before(d, start, size, start + (k + 1) * size));
            lemma_run_from_layout(d, start, size, k + 1);
        }
    }
}

/// The frames read are consecutive frame-sized slots from the first frame on:
/// every slot before the end of the run begins with `B`, `F`, the run ends at
/// the first slot that does not (or at the last whole slot), and it never
/// reaches past the end of the buffer.
pub proof fn lemma_run_layout(d: Seq<u8>, start: int, size: int)
    requires
        0 <= start <= d.len(),
        size >= 2,
    ensures
        ({
            let n = run_len(d, start, size);
            &&& 0 <= n
            &&& start + n * size <= d.len()
            &&& forall|o: int|
                #![trigger d[o]]
                start <= o < start + n * size && (o - start) % size == 0 ==> d[o] == 0x42 && d[o
                    + 1] == 0x46
            &&& start + (n + 1) * size <= d.len() ==> !(d[start + n * size] == 0x42 && d[start + n
                * size + 1] == 0x46)
        }),
{
    lemma_run_from_layout(d, start, size, 0);
    let n = run_len(d, start, size);
    let count = slot_count(d, start, size);
    assert(n * size <= count * size) by (nonlinear_arith)
        requires
            0 <= n <= count,
            size > 0,
    ;
    assert(count * size <= d.len() - start) by (nonlinear_arith)
        requires
            count == (d.len() - start) / size,
            size > 0,
            d.len() - start >= 0,
    ;
    if start + (n + 1) * size <= d.len() {
        assert(n + 1 <= count) by (nonlinear_arith)
            requires
                start + (n + 1) * size <= d.len(),
                count == (d.len() - start) / size,
                size > 0,
        ;
    }
}

/// Each frame decodes from the bytes of its slot after the slot's 4-byte frame
/// header: bytes `start + k * size + 4 .. start + (k + 1) * size` for slot `k`.
pub proof fn lemma_frame_payload_layout(
    frames: Seq<Frame>,
    d: Seq<u8>,
    start: int,
    version: u8,
    kept: Seq<int>,
)
    requires
        frames_decode(frames, d, start, version, kept),
        spec_payload_len(version) is Some,
        0 <= start,
        forall|j: int| 0 <= j < kept.len() ==> 0 <= #[trigger] kept[j] && start + (kept[j] + 1) * frame_size(version) <= d.len(),
    ensures
        frames.len() == kept.len(),
        forall|j: int|
            0 <= j < frames.len() ==> frame_decodes(
                #[trigger] frames[j],
                d.subrange(start + kept[j] * frame_size(version) + 4, start + (kept[j] + 1) * frame_size(version)),
                version,
            ),
{
    reveal(frames_decode);
    let size = frame_size(version);
    assert forall|j: int| 0 <= j < frames.len() implies frame_decodes(
        #[trigger] frames[j],
        d.subrange(start + kept[j] * size + 4, start + (kept[j] + 1) * size),
        version,
    ) by {
        let k = kept[j];
        assert(k * size + size == (k + 1) * size && k * size >= 0) by (nonlinear_arith)
            requires
                k >= 0,
                size > 0,
        ;
        assert(slot(d, start, size, k).subrange(4, size) =~= d.subrange(start + k * size + 4, start + (k + 1) * size));
    }
}

/// Parse an `.onflight` binary data log.
#[verifier::rlimit(50)]
pub fn parse(data: &[u8], opts: &ParseOptions) -> (r: Result<OnFlightFile, ParseError>)
    ensures
        data@.len() < META_TOTAL_LEN <==> r == Err::<OnFlightFile, ParseError>(
            ParseError::FileTooSmall,
        ),
        r == Err::<OnFlightFile, ParseError>(ParseError::BadMagic) <==> (data@.len()
            >= META_TOTAL_LEN && !(data@[0] == 0x4d && data@[1] == 0x44)),
        !(r matches Err(ParseError::UnsupportedVersion { .. })),
        r matches Ok(file) ==> file.frames@.len() > 0,
        r matches Ok(file) ==> (!opts.validate_checksums ==> file.checksum_errors == 0),
        data@.len() >= META_TOTAL_LEN && data@[0] == 0x4d && data@[1] == 0x44 ==> match first_frame(
            data@,
        ) {
            None => r == Err::<OnFlightFile, ParseError>(ParseError::NoDataFrames),
            Some(start) => scan_result(
                r,
                data@,
                start,
                opts.validate_checksums,
                opts.skip_bad_checksums,
            ),
        },
{
    if data.len() < META_TOTAL_LEN {
        return Err(ParseError::FileTooSmall);
    }
    if data[0] != 0x4d || data[1] != 0x44 {
        return Err(ParseError::BadMagic);
    }
    // Meta data

    let serial: [u8; 6] = [data[4], data[5], data[6], data[7], data[8], data[9]];
    assert(serial@ =~= data@.subrange(4, 10));
    let tail = &data[10..22];
    let pilot = &data[22..46];
    let aircraft = &data[46..58];
    let header = FileHeader {
        version: data[2],
        serial_number: serial,
        tail_number: read_cstring(tail),
        pilot_name: read_cstring(pilot),
        aircraft_type: read_cstring(aircraft),
    };
    // Find first data frame

    let frame_start = match find_first_frame(data) {
        Some(s) => s,
        None => return Err(ParseError::NoDataFrames),
    };
    let ghost start = frame_start as int;
    proof {
        lemma_first_frame_from(data@, search_start(data@));
    }
    let version = data[frame_start + 2];
    let payload = match payload_len(version) {
        Some(n) => n,
        None => return Err(ParseError::UnsupportedVersion { version }),
    };
    let fsize = FRAME_OVERHEAD + payload;
    assert(fsize == frame_size(version));

    // Parse frames
    let data_section = &data[frame_start..data.len()];
    let max_frames = data_section.len() / fsize;
    assert(max_frames == slot_count(data@, start, fsize as int));
    let mut frames: Vec<Frame> = Vec::with_capacity(max_frames);
    let mut checksum_errors: usize = 0;
    let ghost validate = opts.validate_checksums;
    let ghost skip = opts.skip_bad_checksums;
    let ghost size = fsize as int;
    let mut i: usize = 0;
    proof {
        lemma_frames_decode_empty(data@, start, version);
    }
    while i < max_frames
        invariant
            0 <= start <= data@.len(),
            data_section@ == data@.subrange(start, data@.len() as int),
            max_frames == slot_count(data@, start, size),
            max_frames == data_section@.len() as int / fsize as int,
            fsize == size,
            size == frame_size(version),
            size >= FRAME_OVERHEAD + PAYLOAD_V0,
            validate == opts.validate_checksums,
            skip == opts.skip_bad_checksums,
            i <= max_frames,
            run_len(data@, start, size) == run_end_from(data@, start, size, i as int),
            checksum_errors <= i,
            checksum_errors == bad_slots(data@, start, size, validate, i as int),
            frames_decode(
                frames@,
                data@,
                start,
                version,
                kept_slots(data@, start, size, validate, skip, i as int),
            ),
        ensures
            run_len(data@, start, size) == i,
            checksum_errors == bad_slots(data@, start, size, validate, i as int),
            frames_decode(
                frames@,
                data@,
                start,
                version,
                kept_slots(data@, start, size, validate, skip, i as int),
            ),
        decreases max_frames - i,
    {
        assert((i + 1) * fsize <= data_section@.len() as int) by (nonlinear_arith)
            requires
                i < max_frames,
                max_frames == data_section@.len() as int / fsize as int,
                fsize > 0,
        ;
        assert(i * fsize + fsize == (i + 1) * fsize) by (nonlinear_arith);
        assert(i * fsize + fsize <= data_section.len());
        let lo = i * fsize;
        let hi = lo + fsize;
        let raw = &data_section[lo..hi];
        assert(raw@ =~= slot(data@, start, size, i as int));

        if raw[0] != 0x42 || raw[1] != 0x46 {
            break;
        }
        let ghost kept_before = kept_slots(data@, start, size, validate, skip, i as int);
        let mut keep = true;
        if opts.validate_checksums {
            let ck_offset = fsize - 2;
            let expected = u16_le(raw, ck_offset);
            let covered = &raw[0..ck_offset];
            let computed = fletcher16(covered);
            if expected != computed {
                checksum_errors = checksum_errors + 1;
                if opts.skip_bad_checksums {
                    keep = false;
                }
            }
        }
        if keep {
            let p = &raw[4..fsize];
            let f = parse_frame(p, version);
            let ghost frames_before = frames@;
            frames.push(f);
            proof {
                lemma_frames_decode_push(frames_before, f, data@, start, version, kept_before, i as int);
            }
        }
        i = i + 1;
    }

    proof {
        reveal(frames_decode);
        lemma_scan_accounting(data@, start, size, validate, skip, i as int);
    }
    if frames.len() == 0 {
        return Err(ParseError::NoDataFrames);
    }
    Ok(OnFlightFile { header, frames, checksum_errors })
}

} // verus!
