//! Default implementations of the two encoding strategies.
//!
//! [`DefaultPubSubEncoder`] writes the record as one JSON object with the
//! fixed keys `level`, `args`, `target`, `module_path`, `file` and `line`,
//! in that order; an absent optional field is rendered as an explicit JSON
//! `null`, never omitted, so subscribers see a stable schema.
//!
//! [`DefaultStreamEncoder`] writes the record as six named byte fields with a
//! fixed key set (`args`, `file`, `level`, `line`, `module_path`, `target`,
//! in that order), so that stream consumers see a stable schema. Text fields
//! are the UTF-8 bytes of their value; an absent optional field and the
//! numeric `line` field are rendered as the empty byte string, never omitted.

use vstd::prelude::*;
use vstd::utf8::encode_utf8;

use crate::digits::dec_chars;
use crate::digits::dec_string;
use crate::encoders::PubSubEncoder;
use crate::encoders::StreamEncoder;
use crate::json::json_string;
use crate::json::json_string_of;
use crate::level::level_chars;
use crate::level::level_str;
use crate::record::LogRecord;
use crate::record::LogRecordView;

verus! {

/// The JSON rendering of an optional text field: a JSON string literal, or
/// the explicit `null` marker when the field is absent.
pub open spec fn opt_json_chars(text: Option<Seq<char>>) -> Seq<char> {
    match text {
        Some(chars) => json_string_of(chars),
        None => "null"@,
    }
}

/// The JSON rendering of the optional source line: a decimal number, or the
/// explicit `null` marker when the line is unknown.
pub open spec fn opt_line_chars(line: Option<u32>) -> Seq<char> {
    match line {
        Some(n) => dec_chars(n as nat),
        None => "null"@,
    }
}

/// The exact JSON object the default pub/sub encoder produces: the fixed
/// keys in order, the level as its upper-case name, text fields as JSON
/// strings, absent fields as `null`, the line as a plain number.
pub open spec fn pubsub_json(record: LogRecordView) -> Seq<char> {
    "{\"level\":\""@ + level_chars(record.level) + "\",\"args\":"@ + json_string_of(record.args)
        + ",\"target\":"@ + json_string_of(record.target) + ",\"module_path\":"@ + opt_json_chars(
        record.module,
    ) + ",\"file\":"@ + opt_json_chars(record.file) + ",\"line\":"@ + opt_line_chars(record.line)
        + "}"@
}

/// Appends the JSON rendering of an optional text field: the escaped string
/// literal, or `null`.
fn append_opt_json(out: &mut String, text: &Option<String>)
    ensures
        final(out)@ == old(out)@ + opt_json_chars(
            match *text {
                Some(ref chars) => Some(chars@),
                None => None,
            },
        ),
{
    match text {
        Some(text) => {
            let rendered = json_string(text.as_str());
            out.append(rendered.as_str());
        },
        None => out.append("null"),
    }
}

/// Default pub/sub encoding: the record as one JSON object under a fixed key
/// set, absent values rendered as `null`.
#[derive(Debug)]
pub struct DefaultPubSubEncoder {}

impl DefaultPubSubEncoder {
    pub fn new() -> (encoder: DefaultPubSubEncoder) {
        DefaultPubSubEncoder {}
    }
}

impl PubSubEncoder for DefaultPubSubEncoder {
    /// Encodes the record as the UTF-8 bytes of exactly the JSON object
    /// [`pubsub_json`] describes.
    fn encode(&self, record: &LogRecord) -> (payload: Vec<u8>)
        ensures
            payload@ == encode_utf8(pubsub_json(record@)),
    {
        let mut out = String::new();
        out.append("{\"level\":\"");
        out.append(level_str(record.level));
        out.append("\",\"args\":");
        let args = json_string(record.args.as_str());
        out.append(args.as_str());
        out.append(",\"target\":");
        let target = json_string(record.target.as_str());
        out.append(target.as_str());
        out.append(",\"module_path\":");
        append_opt_json(&mut out, &record.module);
        out.append(",\"file\":");
        append_opt_json(&mut out, &record.file);
        out.append(",\"line\":");
        match record.line {
            Some(n) => {
                let digits = dec_string(n);
                out.append(digits.as_str());
            },
            None => out.append("null"),
        }
        out.append("}");
        proof {
            assert(out@ =~= pubsub_json(record@));
        }
        out.as_str().as_bytes_vec()
    }
}

/// The byte rendering of an optional text field: the UTF-8 bytes of the
/// text, or empty when the field is absent.
pub open spec fn opt_text_bytes(text: Option<Seq<char>>) -> Seq<u8> {
    match text {
        Some(chars) => encode_utf8(chars),
        None => Seq::<u8>::empty(),
    }
}

/// The exact field list the default stream encoder produces: the fixed keys
/// in order, each with the byte rendering of its record field. The `line`
/// key is always present and always empty, keeping the key set stable.
pub open spec fn stream_fields(record: LogRecordView) -> Seq<(Seq<char>, Seq<u8>)> {
    seq![
        ("args"@, encode_utf8(record.args)),
        ("file"@, opt_text_bytes(record.file)),
        ("level"@, encode_utf8(level_chars(record.level))),
        ("line"@, Seq::<u8>::empty()),
        ("module_path"@, opt_text_bytes(record.module)),
        ("target"@, encode_utf8(record.target)),
    ]
}

/// Renders an optional text field as bytes: the text's UTF-8 bytes, or an
/// empty vector when absent.
fn opt_text_bytes_vec(text: &Option<String>) -> (bytes: Vec<u8>)
    ensures
        bytes@ == opt_text_bytes(match *text {
            Some(ref chars) => Some(chars@),
            None => None,
        }),
{
    match text {
        Some(text) => text.as_str().as_bytes_vec(),
        None => Vec::new(),
    }
}

/// Default stream encoding: one field per record attribute under a fixed key
/// set, absent values rendered as empty bytes.
#[derive(Debug)]
pub struct DefaultStreamEncoder {}

impl DefaultStreamEncoder {
    pub fn new() -> (encoder: DefaultStreamEncoder) {
        DefaultStreamEncoder {}
    }
}

impl StreamEncoder for DefaultStreamEncoder {
    /// Encodes the record as exactly the field list [`stream_fields`]
    /// describes.
    fn encode(&self, record: &LogRecord) -> (fields: Vec<(String, Vec<u8>)>)
        ensures
            fields.deep_view() == stream_fields(record@),
    {
        let mut fields: Vec<(String, Vec<u8>)> = Vec::new();
        fields.push((String::from_str("args"), record.args.as_str().as_bytes_vec()));
        fields.push((String::from_str("file"), opt_text_bytes_vec(&record.file)));
        fields.push((String::from_str("level"), level_str(record.level).as_bytes_vec()));
        fields.push((String::from_str("line"), Vec::new()));
        fields.push((String::from_str("module_path"), opt_text_bytes_vec(&record.module)));
        fields.push((String::from_str("target"), record.target.as_str().as_bytes_vec()));
        proof {
            assert(fields.deep_view() =~~= stream_fields(record@));
        }
        fields
    }
}

} // verus!
