use rustc_serialize::json::{encode, Decoder, Json};
use rustc_serialize::Decodable;
use vstd::prelude::*;
use vstd::string::StringSliceAdditionalSpecFns;
use vstd::utf8::encode_utf8;

verus! {

/// Most bytes that a text may have to be parsed.
pub const MAX_JSON_BYTES: usize = 65535;

/// Most arrays and objects that may be open at once in a text to be parsed.
pub const MAX_JSON_DEPTH: usize = 128;

/// Most digits that the exponent of a number may have in a text to be
/// parsed.
pub const MAX_EXPONENT_DIGITS: usize = 9;

/// Where a walk over the bytes of a JSON text stands.
#[derive(Clone, Copy)]
pub struct JsonScan {
    /// The walk is inside a string.
    pub in_string: bool,
    /// Inside a string, the last byte was a backslash that escapes the next.
    pub escaped: bool,
    /// The number of arrays and objects that are open.
    pub depth: usize,
    /// Outside strings, the last bytes were an `e` or `E`, perhaps a sign
    /// and digits.
    pub in_exponent: bool,
    /// A sign may follow: the last byte was the `e` or `E`.
    pub sign_allowed: bool,
    /// The number of digits after the `e` or `E`.
    pub digits: usize,
    /// Nothing so far was nested too deeply, and no exponent was too long.
    pub safe: bool,
}

impl JsonScan {
    /// The walk before the first byte.
    pub open spec fn start() -> JsonScan {
        JsonScan {
            in_string: false,
            escaped: false,
            depth: 0,
            in_exponent: false,
            sign_allowed: false,
            digits: 0,
            safe: true,
        }
    }

    /// The walk with no exponent under way.
    pub open spec fn plain(self) -> JsonScan {
        JsonScan { in_exponent: false, sign_allowed: false, digits: 0, ..self }
    }

    /// The walk one byte further. Inside a string only the closing quote
    /// and the backslash count. Outside, a quote opens a string; an opening
    /// bracket or brace goes one level down, and is one too many where 128
    /// levels are open; a closing one goes up; and an `e` or `E` starts an
    /// exponent, whose tenth digit is one too many.
    pub open spec fn step(self, byte: u8) -> JsonScan {
        if self.in_string {
            if self.escaped {
                JsonScan { escaped: false, ..self }
            } else if byte == 0x5c {
                JsonScan { escaped: true, ..self }
            } else if byte == 0x22 {
                JsonScan { in_string: false, ..self }
            } else {
                self
            }
        } else if byte == 0x22 {
            JsonScan { in_string: true, ..self.plain() }
        } else if byte == 0x5b || byte == 0x7b {
            if self.depth >= 128 {
                JsonScan { safe: false, ..self.plain() }
            } else {
                JsonScan { depth: (self.depth + 1) as usize, ..self.plain() }
            }
        } else if byte == 0x5d || byte == 0x7d {
            if self.depth > 0 {
                JsonScan { depth: (self.depth - 1) as usize, ..self.plain() }
            } else {
                self.plain()
            }
        } else if byte == 0x65 || byte == 0x45 {
            JsonScan { in_exponent: true, sign_allowed: true, digits: 0, ..self }
        } else if (byte == 0x2b || byte == 0x2d) && self.in_exponent && self.sign_allowed {
            JsonScan { sign_allowed: false, ..self }
        } else if 0x30 <= byte <= 0x39 && self.in_exponent {
            if self.digits >= 9 {
                JsonScan { sign_allowed: false, safe: false, ..self }
            } else {
                JsonScan { sign_allowed: false, digits: (self.digits + 1) as usize, ..self }
            }
        } else {
            self.plain()
        }
    }

    /// The walk over all of `bytes`.
    pub open spec fn over(bytes: Seq<u8>) -> JsonScan
        decreases bytes.len(),
    {
        if bytes.len() == 0 {
            JsonScan::start()
        } else {
            JsonScan::over(bytes.drop_last()).step(bytes.last())
        }
    }

    /// Goes one byte further.
    pub fn advance(self, byte: u8) -> (next: JsonScan)
        ensures
            next == self.step(byte),
    {
        let plain = JsonScan { in_exponent: false, sign_allowed: false, digits: 0, ..self };
        if self.in_string {
            if self.escaped {
                JsonScan { escaped: false, ..self }
            } else if byte == 0x5c {
                JsonScan { escaped: true, ..self }
            } else if byte == 0x22 {
                JsonScan { in_string: false, ..self }
            } else {
                self
            }
        } else if byte == 0x22 {
            JsonScan { in_string: true, ..plain }
        } else if byte == 0x5b || byte == 0x7b {
            if self.depth >= MAX_JSON_DEPTH {
                JsonScan { safe: false, ..plain }
            } else {
                JsonScan { depth: self.depth + 1, ..plain }
            }
        } else if byte == 0x5d || byte == 0x7d {
            if self.depth > 0 {
                JsonScan { depth: self.depth - 1, ..plain }
            } else {
                plain
            }
        } else if byte == 0x65 || byte == 0x45 {
            JsonScan { in_exponent: true, sign_allowed: true, digits: 0, ..self }
        } else if (byte == 0x2b || byte == 0x2d) && self.in_exponent && self.sign_allowed {
            JsonScan { sign_allowed: false, ..self }
        } else if 0x30 <= byte && byte <= 0x39 && self.in_exponent {
            if self.digits >= MAX_EXPONENT_DIGITS {
                JsonScan { sign_allowed: false, safe: false, ..self }
            } else {
                JsonScan { sign_allowed: false, digits: self.digits + 1, ..self }
            }
        } else {
            plain
        }
    }
}

/// True of the texts that can be handed to the parser: they have at most
/// 65535 bytes, at no place more than 128 arrays and objects are open, and
/// no number has an exponent of more than nine digits. Brackets and digits
/// inside strings do not count.
pub open spec fn json_safe(text: Seq<char>) -> bool {
    &&& encode_utf8(text).len() <= 65535
    &&& JsonScan::over(encode_utf8(text)).safe
}

/// Tells whether `text` can be handed to the parser.
pub fn is_json_safe(text: &str) -> (safe: bool)
    ensures
        safe == json_safe(text@),
{
    let bytes = text.as_bytes();
    let size = bytes.len();
    if size > MAX_JSON_BYTES {
        return false;
    }
    let mut scan = JsonScan {
        in_string: false,
        escaped: false,
        depth: 0,
        in_exponent: false,
        sign_allowed: false,
        digits: 0,
        safe: true,
    };
    let mut index: usize = 0;
    while index < size
        invariant
            index <= size,
            size == bytes@.len(),
            scan == JsonScan::over(bytes@.take(index as int)),
        decreases size - index,
    {
        proof {
            let next = bytes@.take(index + 1);
            assert(next.drop_last() =~= bytes@.take(index as int));
            assert(next.last() == bytes@[index as int]);
        }
        scan = scan.advance(bytes[index]);
        index += 1;
    }
    assert(bytes@.take(size as int) =~= bytes@);
    scan.safe
}

/// What `rustc_serialize` reads as an unsigned 32-bit number from the member
/// `key` of the JSON object written in `text`; `None` where `text` is no JSON,
/// is no object, has no such member, or the member does not decode as `u32`.
/// It stands for a reading only of texts that can be handed to the parser.
pub uninterp spec fn json_member_u32(text: Seq<char>, key: Seq<char>) -> Option<u32>;

/// What `rustc_serialize` reads as a boolean from the member `key` of the JSON
/// object written in `text`; `None` where any step of that fails.
pub uninterp spec fn json_member_bool(text: Seq<char>, key: Seq<char>) -> Option<bool>;

/// What `rustc_serialize` reads as a string from the member `key` of the JSON
/// object written in `text`; `None` where any step of that fails.
pub uninterp spec fn json_member_string(text: Seq<char>, key: Seq<char>) -> Option<Seq<char>>;

/// The JSON string literal, quotes included, that `rustc_serialize` writes for
/// `text`.
pub uninterp spec fn json_string_literal(text: Seq<char>) -> Seq<char>;

/// Parses `text` with `Json::from_str`, looks `key` up with `Json::find` and
/// decodes the member found with `u32::decode` on a `json::Decoder`, which is
/// what the decoder derived for a struct does for a field of type `u32`.
/// `Json::from_str` does not return on every text: it calls itself once for
/// each array or object that is open, adds up the digits of an exponent in
/// a `usize` without a test, and keeps the keys of the open objects in a
/// buffer that it indexes with 16 bits. `requires` leaves those texts out.
/// Nothing is claimed of the value but that it depends on `text` and `key`
/// alone.
#[verifier::external_body]
pub(crate) fn read_u32_member(text: &str, key: &str) -> (value: Option<u32>)
    requires
        json_safe(text@),
    ensures
        value == json_member_u32(text@, key@),
{
    let document = Json::from_str(text).ok()?;
    let member = document.find(key)?.clone();
    u32::decode(&mut Decoder::new(member)).ok()
}

/// Parses `text` with `Json::from_str`, looks `key` up with `Json::find` and
/// decodes the member found with `bool::decode` on a `json::Decoder`, as the
/// derived decoder does for a field of type `bool`. `requires` leaves out
/// the texts on which `Json::from_str` does not return. Nothing is claimed
/// of the value but that it depends on `text` and `key` alone.
#[verifier::external_body]
pub(crate) fn read_bool_member(text: &str, key: &str) -> (value: Option<bool>)
    requires
        json_safe(text@),
    ensures
        value == json_member_bool(text@, key@),
{
    let document = Json::from_str(text).ok()?;
    let member = document.find(key)?.clone();
    bool::decode(&mut Decoder::new(member)).ok()
}

/// Parses `text` with `Json::from_str`, looks `key` up with `Json::find` and
/// decodes the member found with `String::decode` on a `json::Decoder`, as
/// the derived decoder does for a field of type `String`. `requires` leaves
/// out the texts on which `Json::from_str` does not return. Nothing is
/// claimed of the value but that it depends on `text` and `key` alone.
#[verifier::external_body]
pub(crate) fn read_string_member(text: &str, key: &str) -> (value: Option<String>)
    requires
        json_safe(text@),
    ensures
        value is Some <==> json_member_string(text@, key@) is Some,
        value is Some ==> value->0@ == json_member_string(text@, key@)->0,
{
    let document = Json::from_str(text).ok()?;
    let member = document.find(key)?.clone();
    String::decode(&mut Decoder::new(member)).ok()
}

/// Encodes `text` with `json::encode`, which writes a string as one quoted
/// and escaped JSON literal. Nothing is claimed of the literal but that it
/// depends on `text` alone.
#[verifier::external_body]
pub(crate) fn quote(text: &String) -> (literal: String)
    ensures
        literal@ == json_string_literal(text@),
{
    encode(text).unwrap()
}

} // verus!
