//! The command envelope's reply side: navigating a parsed reply to the
//! expected `service.operation` path and separating the three
//! protocol-level outcomes — a missing section, an embedded
//! (code, message) failure, and a malformed payload.

use vstd::prelude::*;

use crate::error::{ProtocolError, SectionError};
use crate::json::{spec_as_int, spec_as_text, spec_get, JsonNode, JsonVal, get, get_int, get_text};

verus! {

/// The member name that carries an embedded error code.
pub open spec fn err_code_key() -> Seq<char> {
    "err_code"@
}

/// The member name that carries an embedded error message.
pub open spec fn err_msg_key() -> Seq<char> {
    "err_msg"@
}

/// The embedded failure of a section or payload: its code and message,
/// when a non-zero `err_code` member is present.
pub open spec fn spec_stub_error(v: JsonVal) -> Option<(int, Seq<char>)> {
    match spec_as_int(spec_get(v, err_code_key())) {
        Some(c) => if c != 0 {
            Some((
                c,
                match spec_as_text(spec_get(v, err_msg_key())) {
                    Some(m) => m,
                    None => Seq::empty(),
                },
            ))
        } else {
            None
        },
        None => None,
    }
}

/// What navigating a reply to `service.operation` should find.
pub enum OutcomeSpec {
    /// The operation's payload, with no embedded failure.
    Payload(JsonVal),
    /// The top-level service key is absent.
    Missing,
    /// An embedded failure, at the section or at the payload.
    Stub(int, Seq<char>),
    /// The reply's shape does not fit the request.
    Malformed,
}

/// Navigates a reply document to `service.operation`: the service key
/// must exist (else the feature is missing), the section and the
/// payload must not carry an embedded failure, and both levels must be
/// objects of the expected shape.
pub open spec fn spec_extract(doc: JsonVal, service: Seq<char>, operation: Seq<char>) -> OutcomeSpec {
    if !(doc is Obj) {
        OutcomeSpec::Malformed
    } else {
        match spec_get(doc, service) {
            Option::None => OutcomeSpec::Missing,
            Option::Some(sec) => match spec_stub_error(sec) {
                Some((c, m)) => OutcomeSpec::Stub(c, m),
                None => match spec_get(sec, operation) {
                    Option::None => OutcomeSpec::Malformed,
                    Option::Some(p) => match spec_stub_error(p) {
                        Some((c, m)) => OutcomeSpec::Stub(c, m),
                        None => OutcomeSpec::Payload(p),
                    },
                },
            },
        }
    }
}

/// Reads the embedded failure of one node, exactly as
/// [`spec_stub_error`] states it.
pub(crate) fn stub_error(v: &JsonNode) -> (r: Option<(i64, String)>)
    ensures
        match r {
            Some((c, m)) => spec_stub_error(v.deep()) == Some((c as int, m@)),
            None => spec_stub_error(v.deep()) is None,
        },
{
    match get_int(v, "err_code") {
        Some(c) => {
            if c != 0 {
                match get_text(v, "err_msg") {
                    Some(m) => Some((c, m.clone())),
                    None => Some((c, String::new())),
                }
            } else {
                None
            }
        },
        None => None,
    }
}

/// Builds the library's section-failure value from an embedded code and
/// message, refusing codes outside the device's 16-bit range.
pub(crate) fn stub_to_error(c: i64, m: String) -> (r: ProtocolError)
    ensures
        match r {
            ProtocolError::SectionError(se) => i16::MIN <= c <= i16::MAX
                && se.err_code as int == c as int && se.err_msg@ == m@,
            ProtocolError::DecodeError => !(i16::MIN <= c <= i16::MAX),
            _ => false,
        },
{
    if c >= i16::MIN as i64 && c <= i16::MAX as i64 {
        ProtocolError::SectionError(SectionError { err_code: c as i16, err_msg: m })
    } else {
        ProtocolError::DecodeError
    }
}

/// Navigates a reply to the payload of `service.operation`, separating
/// the three protocol-level outcomes.
pub fn extract<'a>(doc: &'a JsonNode, service: &str, operation: &str)
    -> (r: Result<&'a JsonNode, ProtocolError>)
    ensures
        match r {
            Ok(p) => spec_extract(doc.deep(), service@, operation@) == OutcomeSpec::Payload(p.deep()),
            Err(ProtocolError::MissingSection) =>
                spec_extract(doc.deep(), service@, operation@) == OutcomeSpec::Missing,
            Err(ProtocolError::SectionError(se)) =>
                spec_extract(doc.deep(), service@, operation@)
                    == OutcomeSpec::Stub(se.err_code as int, se.err_msg@),
            Err(ProtocolError::DecodeError) =>
                spec_extract(doc.deep(), service@, operation@) is Malformed
                || (spec_extract(doc.deep(), service@, operation@) matches OutcomeSpec::Stub(c, _)
                    && !(i16::MIN <= c <= i16::MAX)),
        },
{
    let is_obj = match doc {
        JsonNode::Obj(_) => true,
        _ => false,
    };
    if !is_obj {
        return Err(ProtocolError::DecodeError);
    }
    let sec = match get(doc, service) {
        Some(s) => s,
        None => { return Err(ProtocolError::MissingSection); },
    };
    match stub_error(sec) {
        Some((c, m)) => { return Err(stub_to_error(c, m)); },
        None => {},
    }
    let payload = match get(sec, operation) {
        Some(p) => p,
        None => { return Err(ProtocolError::DecodeError); },
    };
    match stub_error(payload) {
        Some((c, m)) => { return Err(stub_to_error(c, m)); },
        None => {},
    }
    Ok(payload)
}

/// Navigates a reply to the payload of `service.operation` and hands
/// the payload out by value, with the same outcome separation as
/// [`extract`].
pub fn extract_owned(doc: JsonNode, service: &str, operation: &str)
    -> (r: Result<JsonNode, ProtocolError>)
    ensures
        match r {
            Ok(p) => spec_extract(doc.deep(), service@, operation@) == OutcomeSpec::Payload(p.deep()),
            Err(ProtocolError::MissingSection) =>
                spec_extract(doc.deep(), service@, operation@) == OutcomeSpec::Missing,
            Err(ProtocolError::SectionError(se)) =>
                spec_extract(doc.deep(), service@, operation@)
                    == OutcomeSpec::Stub(se.err_code as int, se.err_msg@),
            Err(ProtocolError::DecodeError) =>
                spec_extract(doc.deep(), service@, operation@) is Malformed
                || (spec_extract(doc.deep(), service@, operation@) matches OutcomeSpec::Stub(c, _)
                    && !(i16::MIN <= c <= i16::MAX)),
        },
{
    let ghost v = doc.deep();
    let mut members = match doc {
        JsonNode::Obj(m) => m,
        _ => { return Err(ProtocolError::DecodeError); },
    };
    proof {
        assert(v == JsonVal::Obj(crate::json::deep_members(members@)));
    }
    let sec = match crate::json::take_member(&mut members, service) {
        Some(s) => s,
        None => { return Err(ProtocolError::MissingSection); },
    };
    let ghost sv = sec.deep();
    proof {
        assert(spec_get(v, service@) == Some(sv));
    }
    match stub_error(&sec) {
        Some((c, m)) => { return Err(stub_to_error(c, m)); },
        None => {},
    }
    let mut sec_members = match sec {
        JsonNode::Obj(m) => m,
        _ => { return Err(ProtocolError::DecodeError); },
    };
    proof {
        assert(sv == JsonVal::Obj(crate::json::deep_members(sec_members@)));
    }
    let payload = match crate::json::take_member(&mut sec_members, operation) {
        Some(p) => p,
        None => { return Err(ProtocolError::DecodeError); },
    };
    match stub_error(&payload) {
        Some((c, m)) => Err(stub_to_error(c, m)),
        None => Ok(payload),
    }
}

/// Checks the reply to a plain command: the payload at
/// `service.operation` must carry `err_code` 0.
pub fn check_command_reply(doc: &JsonNode, service: &str, operation: &str)
    -> (r: Result<(), ProtocolError>)
    ensures
        match r {
            Ok(()) => spec_extract(doc.deep(), service@, operation@) matches OutcomeSpec::Payload(p)
                && spec_as_int(spec_get(p, err_code_key())) == Some(0int),
            Err(ProtocolError::MissingSection) =>
                spec_extract(doc.deep(), service@, operation@) == OutcomeSpec::Missing,
            Err(ProtocolError::SectionError(se)) =>
                spec_extract(doc.deep(), service@, operation@)
                    == OutcomeSpec::Stub(se.err_code as int, se.err_msg@),
            Err(ProtocolError::DecodeError) =>
                spec_extract(doc.deep(), service@, operation@) is Malformed
                || (spec_extract(doc.deep(), service@, operation@) matches OutcomeSpec::Stub(c, _)
                    && !(i16::MIN <= c <= i16::MAX))
                || (spec_extract(doc.deep(), service@, operation@) matches OutcomeSpec::Payload(p)
                    && spec_as_int(spec_get(p, err_code_key())) != Some(0int)),
        },
{
    let payload = match extract(doc, service, operation) {
        Ok(p) => p,
        Err(e) => { return Err(e); },
    };
    match get_int(payload, "err_code") {
        Some(c) => {
            if c == 0 {
                Ok(())
            } else {
                // Unreachable in fact: a non-zero code was already a stub.
                Err(ProtocolError::DecodeError)
            }
        },
        None => Err(ProtocolError::DecodeError),
    }
}

} // verus!
