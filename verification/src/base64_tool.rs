//! The Base64 tool: encodes text to standard Base64 and decodes Base64 text
//! back, through the `base64` crate's standard engine.

use vstd::prelude::*;
use base64::Engine;
use crate::registry::{Mode, ProcessError, ProcessErrorKind, ProcessResult, Tool};
use crate::textops::{is_space_char, trim_spec, trim_str, str_eq};
use vstd::utf8::{decode_utf8, valid_utf8};

verus! {

/// What `STANDARD.encode` returns on the given bytes.
pub uninterp spec fn b64_of(bytes: Seq<u8>) -> Seq<char>;

/// What `STANDARD.decode` returns on the given text: the bytes when the text
/// is canonical standard Base64, nothing otherwise.
pub uninterp spec fn b64_decoded(s: Seq<char>) -> Option<Seq<u8>>;

/// The message `STANDARD.decode`'s error displays for the given text.
pub uninterp spec fn b64_error_text(s: Seq<char>) -> Seq<char>;

/// The message `String::from_utf8`'s error displays for the given bytes.
pub uninterp spec fn utf8_error_text(bytes: Seq<u8>) -> Seq<char>;

/// Relies on `base64::engine::general_purpose::STANDARD.encode`: standard
/// alphabet with `=` padding.  The result is a function of the bytes alone;
/// its characters come from the 65-character Base64 alphabet, so none is
/// whitespace; empty input gives empty output and only that; and strict
/// decoding returns exactly the encoded bytes.  The call panics only when
/// the encoded length overflows `usize`, which no real slice (at most
/// `isize::MAX` bytes) can cause.
#[verifier::external_body]
fn b64_encode(bytes: &[u8]) -> (r: String)
    ensures
        r@ == b64_of(bytes@),
        b64_decoded(r@) == Some(bytes@),
        forall|i: int| 0 <= i < r@.len() ==> !is_space_char(#[trigger] r@[i]),
        bytes@.len() == 0 <==> r@.len() == 0,
{
    base64::engine::general_purpose::STANDARD.encode(bytes)
}

/// Relies on `base64::engine::general_purpose::STANDARD.decode`: strict
/// standard-alphabet decoding that requires canonical padding.  Success and
/// result depend on the text alone; the error case hands back what the
/// crate's `DecodeError` displays.
#[verifier::external_body]
fn b64_decode(s: &str) -> (r: Result<Vec<u8>, String>)
    ensures
        match r {
            Ok(v) => b64_decoded(s@) == Some(v@),
            Err(m) => b64_decoded(s@) is None && m@ == b64_error_text(s@),
        },
{
    match base64::engine::general_purpose::STANDARD.decode(s.as_bytes()) {
        Ok(v) => Ok(v),
        Err(e) => Err(format!("{e}")),
    }
}

/// Relies on `String::from_utf8`: rebuilds the string exactly when the bytes
/// are valid UTF-8; vstd's `valid_utf8` and `decode_utf8` state which bytes
/// qualify and what comes back.  The error case hands back what
/// `FromUtf8Error` displays.
#[verifier::external_body]
fn utf8_string(bytes: Vec<u8>) -> (r: Result<String, String>)
    ensures
        match r {
            Ok(t) => valid_utf8(bytes@) && t@ == decode_utf8(bytes@),
            Err(m) => !valid_utf8(bytes@) && m@ == utf8_error_text(bytes@),
        },
{
    match String::from_utf8(bytes) {
        Ok(t) => Ok(t),
        Err(e) => Err(format!("{e}")),
    }
}

/// What the Base64 tool returns: `encode` maps the input's UTF-8 bytes to
/// Base64; `decode` trims the input, accepts blank input as empty output,
/// and otherwise decodes and re-reads the bytes as UTF-8; any other mode is
/// unsupported.
pub open spec fn base64_process_spec(mode: Seq<char>, input: Seq<char>, r: ProcessResult) -> bool {
    if mode == ("encode")@ {
        match r {
            Ok(t) => t@ == b64_of(vstd::utf8::encode_utf8(input)),
            Err(_) => false,
        }
    } else if mode == ("decode")@ {
        let t = trim_spec(input);
        if t.len() == 0 {
            match r {
                Ok(o) => o@ == Seq::<char>::empty(),
                Err(_) => false,
            }
        } else {
            match r {
                Ok(o) => b64_decoded(t) matches Some(bytes) && valid_utf8(bytes) && o@
                    == decode_utf8(bytes),
                Err(e) => e.kind == ProcessErrorKind::Decode && (match b64_decoded(t) {
                    Some(bytes) => !valid_utf8(bytes) && e.message@ == ("UTF-8 解析失败: ")@
                        + utf8_error_text(bytes),
                    None => e.message@ == ("Base64 解码失败: ")@ + b64_error_text(t),
                }),
            }
        }
    } else {
        match r {
            Ok(_) => false,
            Err(e) => e.kind == ProcessErrorKind::Unsupported && e.message@ == ("不支持的模式")@,
        }
    }
}

/// The Base64 encode/decode tool.
#[derive(Clone, Copy)]
pub struct Base64Tool;

impl Tool for Base64Tool {
    open spec fn spec_id(&self) -> Seq<char> {
        ("b64")@
    }

    open spec fn spec_name(&self) -> Seq<char> {
        ("Base64 工具")@
    }

    open spec fn spec_modes(&self) -> Seq<(Seq<char>, Seq<char>)> {
        seq![(("encode")@, ("Encode（编码）")@), (("decode")@, ("Decode（解码）")@)]
    }

    open spec fn spec_default_mode(&self) -> Seq<char> {
        ("encode")@
    }

    open spec fn process_spec(&self, mode: Seq<char>, input: Seq<char>, r: ProcessResult) -> bool {
        base64_process_spec(mode, input, r)
    }

    fn id(&self) -> (r: &'static str) {
        "b64"
    }

    fn name(&self) -> (r: &'static str) {
        "Base64 工具"
    }

    fn modes(&self) -> (r: Vec<Mode>) {
        let mut v: Vec<Mode> = Vec::new();
        v.push(Mode { id: "encode", label: "Encode（编码）" });
        v.push(Mode { id: "decode", label: "Decode（解码）" });
        v
    }

    fn default_mode(&self) -> (r: &'static str) {
        "encode"
    }

    fn process(&self, mode_id: &str, input: &str) -> (r: ProcessResult) {
        if str_eq(mode_id, "encode") {
            let bs = input.as_bytes();
            Ok(b64_encode(bs))
        } else if str_eq(mode_id, "decode") {
            let t = trim_str(input);
            if t.is_empty() {
                Ok(String::new())
            } else {
                match b64_decode(t) {
                    Ok(bytes) => {
                        match utf8_string(bytes) {
                            Ok(s) => Ok(s),
                            Err(m) => {
                                let mut msg = String::from_str("UTF-8 解析失败: ");
                                msg.append(m.as_str());
                                Err(ProcessError { kind: ProcessErrorKind::Decode, message: msg })
                            },
                        }
                    },
                    Err(m) => {
                        let mut msg = String::from_str("Base64 解码失败: ");
                        msg.append(m.as_str());
                        Err(ProcessError { kind: ProcessErrorKind::Decode, message: msg })
                    },
                }
            }
        } else {
            Err(
                ProcessError {
                    kind: ProcessErrorKind::Unsupported,
                    message: String::from_str("不支持的模式"),
                },
            )
        }
    }
}

} // verus!
