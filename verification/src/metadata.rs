//! The crop geometry that accompanies a stored image, and how it is read
//! from the string metadata of the stored object.

use vstd::prelude::*;
use vstd::hash_map::StringHashMap;
use vstd::string::{StringExecFns, StringSliceAdditionalSpecFns};
use vstd::utf8::encode_utf8;

verus! {

/// The crop rectangle requested for an image, in pixels.
///
/// `x1` and `y1` are the left and top edge of the rectangle,
/// `portrait_width` and `portrait_hight` its extent.
#[derive(Clone, Copy, Debug, PartialEq, Eq, Structural)]
pub struct ImageMetadata {
    pub portrait_hight: u32,
    pub portrait_width: u32,
    pub x1: u32,
    pub y1: u32,
}

/// Why no geometry could be read from an object's metadata.
#[derive(Clone, Debug, PartialEq, Eq)]
pub enum MetadataError {
    /// The metadata has no entry under this key.
    MissingField(String),
    /// The entry under this key (first) holds this text (second), which is
    /// not a decimal number that fits 32 bits.
    InvalidField(String, String),
}

/// A `MetadataError` with its texts as sequences of characters.
pub enum MetadataFault {
    MissingField(Seq<char>),
    InvalidField(Seq<char>, Seq<char>),
}

impl View for MetadataError {
    type V = MetadataFault;

    open spec fn view(&self) -> MetadataFault {
        match self {
            MetadataError::MissingField(name) => MetadataFault::MissingField(name@),
            MetadataError::InvalidField(name, raw) => MetadataFault::InvalidField(name@, raw@),
        }
    }
}

impl MetadataFault {
    /// The fault in words.
    pub open spec fn message_text(self) -> Seq<char> {
        match self {
            MetadataFault::MissingField(name) => "missing metadata field "@ + name,
            MetadataFault::InvalidField(name, raw) => "metadata field "@ + name
                + " is not a number: "@ + raw,
        }
    }
}

impl MetadataError {
    /// The error in words, for a log or a diagnostic.
    pub fn message(&self) -> (text: String)
        ensures
            text@ == self@.message_text(),
    {
        match self {
            MetadataError::MissingField(name) => String::from_str("missing metadata field ").concat(
                name.as_str(),
            ),
            MetadataError::InvalidField(name, raw) => String::from_str("metadata field ").concat(
                name.as_str(),
            ).concat(" is not a number: ").concat(raw.as_str()),
        }
    }
}

/// The metadata key of the crop height.
pub const HEIGHT_KEY: &'static str = "portraithight";

/// The metadata key of the crop width.
pub const WIDTH_KEY: &'static str = "portraitwidth";

/// The metadata key of the left edge of the crop rectangle.
pub const X_KEY: &'static str = "x1";

/// The metadata key of the top edge of the crop rectangle.
pub const Y_KEY: &'static str = "y1";

/// `b` is one of the ASCII digits `0` to `9`.
pub open spec fn is_digit(b: u8) -> bool {
    0x30 <= b <= 0x39
}

/// Every byte of `text` is an ASCII digit.
pub open spec fn all_digits(text: Seq<u8>) -> bool {
    forall|i: int| 0 <= i < text.len() ==> is_digit(#[trigger] text[i])
}

/// The number that the digits of `text` write in base ten.
pub open spec fn digits_value(text: Seq<u8>) -> nat
    decreases text.len(),
{
    if text.len() == 0 {
        0
    } else {
        digits_value(text.drop_last()) * 10 + (text.last() - 0x30) as nat
    }
}

/// `text` without the one `+` sign that may stand in front of the digits.
pub open spec fn unsigned_part(text: Seq<u8>) -> Seq<u8> {
    if text.len() > 0 && text[0] == 0x2b {
        text.subrange(1, text.len() as int)
    } else {
        text
    }
}

/// The number that `text` writes: an optional `+`, then one or more ASCII
/// digits and nothing else, with a value of at most `u32::MAX`. Any other
/// text writes no number.
pub open spec fn parse_decimal(text: Seq<u8>) -> Option<u32> {
    let digits = unsigned_part(text);
    if digits.len() > 0 && all_digits(digits) && digits_value(digits) <= u32::MAX {
        Some(digits_value(digits) as u32)
    } else {
        None
    }
}

/// A prefix of a run of digits writes no larger a number than the run.
proof fn lemma_prefix_value(text: Seq<u8>, n: int)
    requires
        0 <= n <= text.len(),
    ensures
        digits_value(text.subrange(0, n)) <= digits_value(text),
    decreases text.len(),
{
    if n == text.len() {
        assert(text.subrange(0, n) =~= text);
    } else {
        lemma_prefix_value(text.drop_last(), n);
        assert(text.drop_last().subrange(0, n) =~= text.subrange(0, n));
    }
}

/// Reads a decimal number of at most 32 bits from `text`.
pub fn parse_u32(text: &str) -> (value: Option<u32>)
    ensures
        value == parse_decimal(text.spec_bytes()),
{
    let bytes = text.as_bytes();
    let n = bytes.len();
    let start: usize = if n > 0 && bytes[0] == 0x2b {
        1
    } else {
        0
    };
    if start == n {
        return None;
    }
    let ghost digits = unsigned_part(bytes@);
    assert(digits =~= bytes@.subrange(start as int, n as int));
    let mut value: u64 = 0;
    let mut i: usize = start;
    while i < n
        invariant
            start <= i <= n,
            n == bytes@.len(),
            bytes@ == text.spec_bytes(),
            digits == unsigned_part(bytes@),
            digits == bytes@.subrange(start as int, n as int),
            all_digits(digits.subrange(0, i - start)),
            value == digits_value(digits.subrange(0, i - start)),
            value <= u32::MAX,
        decreases n - i,
    {
        let b = bytes[i];
        let ghost before = digits.subrange(0, i - start);
        let ghost after = digits.subrange(0, i - start + 1);
        assert(after.drop_last() =~= before);
        assert(after.last() == b);
        if b < 0x30 || b > 0x39 {
            assert(!is_digit(digits[i - start]));
            return None;
        }
        value = value * 10 + (b - 0x30) as u64;
        if value > 0xffff_ffff {
            proof {
                if all_digits(digits) {
                    lemma_prefix_value(digits, i - start + 1);
                }
            }
            return None;
        }
        i = i + 1;
    }
    assert(digits.subrange(0, n - start) =~= digits);
    Some(value as u32)
}

/// The number that the characters of `text` write, taken by their bytes.
pub open spec fn parse_text(text: Seq<char>) -> Option<u32> {
    parse_decimal(encode_utf8(text))
}

/// The number under `key`, or the fault of a text that writes none. Meant
/// for a key that `map` holds.
pub open spec fn field_of(map: Map<Seq<char>, String>, key: Seq<char>) -> Result<
    u32,
    MetadataFault,
> {
    match parse_text(map[key]@) {
        Some(value) => Ok(value),
        None => Err(MetadataFault::InvalidField(key, map[key]@)),
    }
}

/// The first of the four keys, in the order height, width, x, y, that `map`
/// does not hold.
pub open spec fn first_missing(
    map: Map<Seq<char>, String>,
    height_key: Seq<char>,
    width_key: Seq<char>,
    x_key: Seq<char>,
    y_key: Seq<char>,
) -> Option<Seq<char>> {
    if !map.contains_key(height_key) {
        Some(height_key)
    } else if !map.contains_key(width_key) {
        Some(width_key)
    } else if !map.contains_key(x_key) {
        Some(x_key)
    } else if !map.contains_key(y_key) {
        Some(y_key)
    } else {
        None
    }
}

/// The geometry that `map` describes under the four keys.
///
/// A key that `map` does not hold is reported before any text is read: the
/// fault names the first such key. With all four present the texts are read
/// in the order height, width, x, y, and the first that writes no number is
/// reported with its key. Only if all four write a number is there a
/// geometry, and it holds exactly those numbers.
pub open spec fn geometry_of(
    map: Map<Seq<char>, String>,
    height_key: Seq<char>,
    width_key: Seq<char>,
    x_key: Seq<char>,
    y_key: Seq<char>,
) -> Result<ImageMetadata, MetadataFault> {
    match first_missing(map, height_key, width_key, x_key, y_key) {
        Some(key) => Err(MetadataFault::MissingField(key)),
        None => match field_of(map, height_key) {
            Err(fault) => Err(fault),
            Ok(portrait_hight) => match field_of(map, width_key) {
                Err(fault) => Err(fault),
                Ok(portrait_width) => match field_of(map, x_key) {
                    Err(fault) => Err(fault),
                    Ok(x1) => match field_of(map, y_key) {
                        Err(fault) => Err(fault),
                        Ok(y1) => Ok(ImageMetadata { portrait_hight, portrait_width, x1, y1 }),
                    },
                },
            },
        },
    }
}

/// A result of reading the geometry, with the texts of its error as
/// sequences of characters.
pub open spec fn outcome_view(result: Result<ImageMetadata, MetadataError>) -> Result<
    ImageMetadata,
    MetadataFault,
> {
    match result {
        Ok(geometry) => Ok(geometry),
        Err(error) => Err(error@),
    }
}

/// The entry of `metadata` under `key`.
pub(crate) fn entry<'a>(metadata: &'a StringHashMap<String>, key: &str) -> (found: Result<
    &'a String,
    MetadataError,
>)
    ensures
        match found {
            Ok(text) => metadata@.contains_key(key@) && *text == metadata@[key@],
            Err(error) => !metadata@.contains_key(key@) && error@ == MetadataFault::MissingField(
                key@,
            ),
        },
{
    match metadata.get(key) {
        Some(text) => Ok(text),
        None => Err(MetadataError::MissingField(key.to_owned())),
    }
}

/// The number that `text`, found under `key`, writes.
fn number(key: &str, text: &String) -> (read: Result<u32, MetadataError>)
    ensures
        match read {
            Ok(value) => parse_text(text@) == Some(value),
            Err(error) => parse_text(text@).is_none() && error@ == MetadataFault::InvalidField(
                key@,
                text@,
            ),
        },
{
    match parse_u32(text.as_str()) {
        Some(value) => Ok(value),
        None => Err(MetadataError::InvalidField(key.to_owned(), text.clone())),
    }
}

/// Reads the geometry that `metadata` holds under the four given keys.
pub fn read_geometry(
    metadata: &StringHashMap<String>,
    height_key: &str,
    width_key: &str,
    x_key: &str,
    y_key: &str,
) -> (result: Result<ImageMetadata, MetadataError>)
    ensures
        outcome_view(result) == geometry_of(metadata@, height_key@, width_key@, x_key@, y_key@),
{
    let height_text = match entry(metadata, height_key) {
        Ok(text) => text,
        Err(error) => {
            return Err(error);
        },
    };
    let width_text = match entry(metadata, width_key) {
        Ok(text) => text,
        Err(error) => {
            return Err(error);
        },
    };
    let x_text = match entry(metadata, x_key) {
        Ok(text) => text,
        Err(error) => {
            return Err(error);
        },
    };
    let y_text = match entry(metadata, y_key) {
        Ok(text) => text,
        Err(error) => {
            return Err(error);
        },
    };
    let portrait_hight = match number(height_key, height_text) {
        Ok(value) => value,
        Err(error) => {
            return Err(error);
        },
    };
    let portrait_width = match number(width_key, width_text) {
        Ok(value) => value,
        Err(error) => {
            return Err(error);
        },
    };
    let x1 = match number(x_key, x_text) {
        Ok(value) => value,
        Err(error) => {
            return Err(error);
        },
    };
    let y1 = match number(y_key, y_text) {
        Ok(value) => value,
        Err(error) => {
            return Err(error);
        },
    };
    Ok(ImageMetadata { portrait_hight, portrait_width, x1, y1 })
}

impl ImageMetadata {
    /// Reads the geometry from the metadata of a stored object, under the
    /// keys `HEIGHT_KEY`, `WIDTH_KEY`, `X_KEY` and `Y_KEY`.
    pub fn new(metadata: &StringHashMap<String>) -> (result: Result<Self, MetadataError>)
        ensures
            outcome_view(result) == geometry_of(
                metadata@,
                HEIGHT_KEY@,
                WIDTH_KEY@,
                X_KEY@,
                Y_KEY@,
            ),
    {
        read_geometry(metadata, HEIGHT_KEY, WIDTH_KEY, X_KEY, Y_KEY)
    }
}

/// A mapping that lacks any of the four keys yields no geometry: the result
/// is `MissingField`, it names a key that the mapping lacks, and every key
/// that comes before it in the order height, width, x, y is present.
pub proof fn lemma_missing_field_is_reported(
    map: Map<Seq<char>, String>,
    height_key: Seq<char>,
    width_key: Seq<char>,
    x_key: Seq<char>,
    y_key: Seq<char>,
)
    requires
        !map.contains_key(height_key) || !map.contains_key(width_key) || !map.contains_key(x_key)
            || !map.contains_key(y_key),
    ensures
        geometry_of(map, height_key, width_key, x_key, y_key) matches Err(
            MetadataFault::MissingField(key),
        ) && !map.contains_key(key) && (key == height_key || (map.contains_key(height_key) && (key
            == width_key || (map.contains_key(width_key) && (key == x_key || (map.contains_key(
            x_key,
        ) && key == y_key)))))),
{
}

/// A geometry is never filled in part: where one is read, the mapping holds
/// all four keys, and each field is the number written under its key.
pub proof fn lemma_geometry_is_complete(
    map: Map<Seq<char>, String>,
    height_key: Seq<char>,
    width_key: Seq<char>,
    x_key: Seq<char>,
    y_key: Seq<char>,
)
    ensures
        geometry_of(map, height_key, width_key, x_key, y_key) matches Ok(geometry) ==> {
            &&& map.contains_key(height_key)
            &&& map.contains_key(width_key)
            &&& map.contains_key(x_key)
            &&& map.contains_key(y_key)
            &&& parse_text(map[height_key]@) == Some(geometry.portrait_hight)
            &&& parse_text(map[width_key]@) == Some(geometry.portrait_width)
            &&& parse_text(map[x_key]@) == Some(geometry.x1)
            &&& parse_text(map[y_key]@) == Some(geometry.y1)
        },
{
}

} // verus!
