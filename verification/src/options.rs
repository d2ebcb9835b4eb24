//! Codec families, typed codec options, and the configuration handed to the
//! codec: an ordered list of key/value assignments.

use vstd::prelude::*;
use vstd::string::*;

verus! {

/// The codec families a session can decode.
#[derive(Clone, Copy, Debug, PartialEq, Eq, Structural)]
pub enum CodecType {
    H264,
    HEVC,
}

/// The platform's name for the media type of a codec family.
pub open spec fn mime_of(codec_type: CodecType) -> Seq<char> {
    match codec_type {
        CodecType::H264 => "video/avc"@,
        CodecType::HEVC => "video/hevc"@,
    }
}

impl CodecType {
    /// The media type under which the platform knows this codec family.
    pub fn mime_type(self) -> (mime: &'static str)
        ensures
            mime@ == mime_of(self),
    {
        match self {
            CodecType::H264 => "video/avc",
            CodecType::HEVC => "video/hevc",
        }
    }
}

/// A typed value of a codec option.
///
/// A floating point value is held as the 32 bits of its IEEE 754 encoding,
/// which is what reaches the codec unchanged.
#[derive(Debug, PartialEq, Eq)]
pub enum MediacodecDataType {
    Float(u32),
    Int32(i32),
    Int64(i64),
    String(String),
}

/// What a [`MediacodecDataType`] holds.
pub enum OptionValue {
    Float(u32),
    Int32(i32),
    Int64(i64),
    Text(Seq<char>),
}

impl View for MediacodecDataType {
    type V = OptionValue;

    open spec fn view(&self) -> OptionValue {
        match self {
            MediacodecDataType::Float(bits) => OptionValue::Float(*bits),
            MediacodecDataType::Int32(value) => OptionValue::Int32(*value),
            MediacodecDataType::Int64(value) => OptionValue::Int64(*value),
            MediacodecDataType::String(text) => OptionValue::Text(text@),
        }
    }
}

impl Clone for MediacodecDataType {
    fn clone(&self) -> (copy: MediacodecDataType)
        ensures
            copy@ == self@,
    {
        match self {
            MediacodecDataType::Float(bits) => MediacodecDataType::Float(*bits),
            MediacodecDataType::Int32(value) => MediacodecDataType::Int32(*value),
            MediacodecDataType::Int64(value) => MediacodecDataType::Int64(*value),
            MediacodecDataType::String(text) => MediacodecDataType::String(text.clone()),
        }
    }
}

/// The key of one configuration entry: one of the three keys every
/// configuration carries, or a key named by the caller.
#[derive(Debug, PartialEq, Eq)]
pub enum FormatKey {
    Mime,
    Width,
    Height,
    Custom(String),
}

/// What a [`FormatKey`] holds.
pub enum KeyName {
    Mime,
    Width,
    Height,
    Custom(Seq<char>),
}

impl View for FormatKey {
    type V = KeyName;

    open spec fn view(&self) -> KeyName {
        match self {
            FormatKey::Mime => KeyName::Mime,
            FormatKey::Width => KeyName::Width,
            FormatKey::Height => KeyName::Height,
            FormatKey::Custom(name) => KeyName::Custom(name@),
        }
    }
}

impl Clone for FormatKey {
    fn clone(&self) -> (copy: FormatKey)
        ensures
            copy@ == self@,
    {
        match self {
            FormatKey::Mime => FormatKey::Mime,
            FormatKey::Width => FormatKey::Width,
            FormatKey::Height => FormatKey::Height,
            FormatKey::Custom(name) => FormatKey::Custom(name.clone()),
        }
    }
}

/// One assignment of the configuration: the codec's key space is a map, so a
/// later entry replaces an earlier one with the same key.
#[derive(Debug, PartialEq, Eq)]
pub struct FormatEntry {
    pub key: FormatKey,
    pub value: MediacodecDataType,
}

impl View for FormatEntry {
    type V = (KeyName, OptionValue);

    open spec fn view(&self) -> (KeyName, OptionValue) {
        (self.key@, self.value@)
    }
}

impl Clone for FormatEntry {
    fn clone(&self) -> (copy: FormatEntry)
        ensures
            copy@ == self@,
    {
        FormatEntry { key: self.key.clone(), value: self.value.clone() }
    }
}

/// A pixel dimension as the platform takes it: the same 32 bits, signed.
pub open spec fn dimension_of(pixels: u32) -> i32 {
    if pixels <= i32::MAX {
        pixels as i32
    } else {
        (pixels - 0x1_0000_0000) as i32
    }
}

/// The caller's options as plain values, in the caller's order.
pub open spec fn options_of(extra_options: Seq<(String, MediacodecDataType)>) -> Seq<
    (Seq<char>, OptionValue),
> {
    extra_options.map_values(|option: (String, MediacodecDataType)| (option.0@, option.1@))
}

/// The entries a list of configuration assignments holds, in order.
pub open spec fn entries_of(format: Seq<FormatEntry>) -> Seq<(KeyName, OptionValue)> {
    format.map_values(|entry: FormatEntry| entry@)
}

/// The configuration of a session: media type, width and height, then every
/// option of the caller in the caller's order.
pub open spec fn format_of(
    codec_type: CodecType,
    video_size: (u32, u32),
    extra_options: Seq<(Seq<char>, OptionValue)>,
) -> Seq<(KeyName, OptionValue)> {
    seq![
        (KeyName::Mime, OptionValue::Text(mime_of(codec_type))),
        (KeyName::Width, OptionValue::Int32(dimension_of(video_size.0))),
        (KeyName::Height, OptionValue::Int32(dimension_of(video_size.1))),
    ] + extra_options.map_values(
        |option: (Seq<char>, OptionValue)| (KeyName::Custom(option.0), option.1),
    )
}

/// The form in which the bytes of a key or of a text value cross into the
/// platform: the bytes, then one null byte. Bytes that hold a null byte have
/// no such form, since the platform would read them as a shorter text.
pub open spec fn terminated_of(bytes: Seq<u8>) -> Option<Seq<u8>> {
    if bytes.contains(0u8) {
        None
    } else {
        Some(bytes.push(0u8))
    }
}

/// Converts a key or a text value to its null-terminated form, if it has one.
pub fn null_terminated(text: &str) -> (form: Option<Vec<u8>>)
    ensures
        match form {
            Some(bytes) => terminated_of(text.spec_bytes()) == Some(bytes@),
            None => terminated_of(text.spec_bytes()) is None,
        },
{
    let bytes = text.as_bytes();
    let mut form: Vec<u8> = Vec::new();
    let mut next: usize = 0;
    while next < bytes.len()
        invariant
            bytes@ == text.spec_bytes(),
            next <= bytes@.len(),
            form@ == bytes@.take(next as int),
            !form@.contains(0u8),
        decreases bytes@.len() - next,
    {
        let byte = bytes[next];
        if byte == 0 {
            assert(text.spec_bytes()[next as int] == 0u8);
            return None;
        }
        proof {
            assert(bytes@.take(next + 1) == form@.push(byte));
        }
        form.push(byte);
        next = next + 1;
    }
    proof {
        assert(bytes@.take(next as int) == bytes@);
    }
    form.push(0);
    Some(form)
}

/// Converts a pixel dimension to the signed value the platform takes.
pub fn platform_dimension(pixels: u32) -> (dimension: i32)
    ensures
        dimension == dimension_of(pixels),
{
    let dimension: i32 = #[verifier::truncate] (pixels as i32);
    assert(dimension == dimension_of(pixels)) by (bit_vector)
        requires
            dimension == pixels as i32,
    ;
    dimension
}

/// Builds the configuration of a session.
pub fn build_format(
    codec_type: CodecType,
    video_size: (u32, u32),
    extra_options: &[(String, MediacodecDataType)],
) -> (format: Vec<FormatEntry>)
    ensures
        entries_of(format@) == format_of(codec_type, video_size, options_of(extra_options@)),
        format@.len() == 3 + extra_options@.len(),
{
    let mut format: Vec<FormatEntry> = Vec::new();
    format.push(
        FormatEntry {
            key: FormatKey::Mime,
            value: MediacodecDataType::String(codec_type.mime_type().to_owned()),
        },
    );
    format.push(
        FormatEntry {
            key: FormatKey::Width,
            value: MediacodecDataType::Int32(platform_dimension(video_size.0)),
        },
    );
    format.push(
        FormatEntry {
            key: FormatKey::Height,
            value: MediacodecDataType::Int32(platform_dimension(video_size.1)),
        },
    );
    let mut next: usize = 0;
    while next < extra_options.len()
        invariant
            next <= extra_options.len(),
            format.len() == 3 + next,
            entries_of(format@) == format_of(
                codec_type,
                video_size,
                options_of(extra_options@.take(next as int)),
            ),
        decreases extra_options.len() - next,
    {
        let option = &extra_options[next];
        let entry = FormatEntry { key: FormatKey::Custom(option.0.clone()), value: option.1.clone() };
        proof {
            let seen = options_of(extra_options@.take(next as int));
            let added = (extra_options@[next as int].0@, extra_options@[next as int].1@);
            assert(options_of(extra_options@.take(next + 1)) =~= seen.push(added));
            assert(format_of(codec_type, video_size, seen.push(added)) =~= format_of(
                codec_type,
                video_size,
                seen,
            ).push((KeyName::Custom(added.0), added.1)));
            assert(entries_of(format@.push(entry)) =~= entries_of(format@).push(entry@));
        }
        format.push(entry);
        next = next + 1;
    }
    proof {
        assert(extra_options@.take(next as int) == extra_options@);
    }
    format
}

} // verus!
