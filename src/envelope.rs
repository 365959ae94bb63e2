//! The status wrapper around every JSON response.
use vstd::prelude::*;
use crate::error::Error;
use crate::json::{find, member, position, str_field, u64_field, Json};
use crate::text::str_eq;

verus! {

/// One decoded server reply.
#[derive(Debug)]
pub enum Envelope {
    /// The server succeeded; the payload is absent for an empty result.
    Success(Option<Json>),
    /// The server reported a failure.
    Failure { code: u64, message: String },
}

/// Fields of the wrapper that describe the reply rather than carry its payload.
pub open spec fn is_meta_key(k: Seq<char>) -> bool {
    k == "status"@ || k == "version"@ || k == "type"@ || k == "serverVersion"@
        || k == "openSubsonic"@
}

/// The payload among the wrapper's fields: the last field that is not a meta field.
/// A well-formed reply has at most one such field, so for it the choice does not
/// depend on the order of the fields.
pub open spec fn payload(fields: Seq<(String, Json)>) -> Option<Json>
    decreases fields.len(),
{
    if fields.len() == 0 {
        None
    } else if !is_meta_key(fields.last().0@) {
        Some(fields.last().1)
    } else {
        payload(fields.drop_last())
    }
}

/// What decoding a top-level object yields.
pub open spec fn spec_decode(top: Json) -> Result<Envelope, Error> {
    match member(top, "subsonic-response"@) {
        Some(Json::Object(fields)) => {
            let inner = Json::Object(fields);
            match str_field(inner, "status"@) {
                Some(s) => if s@ == "ok"@ {
                    Ok(Envelope::Success(payload(fields@)))
                } else if s@ == "failed"@ {
                    match member(inner, "error"@) {
                        Some(e) => match (u64_field(e, "code"@), str_field(e, "message"@)) {
                            (Some(code), Some(message)) => Ok(
                                Envelope::Failure { code, message },
                            ),
                            _ => Err(Error::MalformedEnvelope),
                        },
                        None => Err(Error::MalformedEnvelope),
                    }
                } else {
                    Err(Error::MalformedEnvelope)
                },
                None => Err(Error::MalformedEnvelope),
            }
        },
        _ => Err(Error::MalformedEnvelope),
    }
}

fn meta_key(k: &str) -> (r: bool)
    ensures
        r == is_meta_key(k@),
{
    str_eq(k, "status") || str_eq(k, "version") || str_eq(k, "type") || str_eq(
        k,
        "serverVersion",
    ) || str_eq(k, "openSubsonic")
}

/// Takes the payload out of the wrapper's fields.
fn take_payload(fields: Vec<(String, Json)>) -> (r: Option<Json>)
    ensures
        r == payload(fields@),
{
    let mut rest = fields;
    let ghost all = rest@;
    let mut i: usize = rest.len();
    assert(all.subrange(0, i as int) =~= all);
    while i > 0
        invariant
            i <= all.len(),
            rest@ == all,
            all == fields@,
            payload(all) == payload(all.subrange(0, i as int)),
        decreases i,
    {
        assert(all.subrange(0, i as int).drop_last() =~= all.subrange(0, i - 1));
        if !meta_key(rest[i - 1].0.as_str()) {
            let ghost e = all[i - 1];
            assert(all.subrange(0, i as int).last() == e);
            let (_, v) = rest.remove(i - 1);
            assert(v == e.1);
            return Some(v);
        }
        i = i - 1;
    }
    assert(all.subrange(0, 0) =~= Seq::<(String, Json)>::empty());
    None
}

/// Reads the code and message of a failure.
fn failure(e: &Json) -> (r: Result<Envelope, Error>)
    ensures
        r == match (u64_field(*e, "code"@), str_field(*e, "message"@)) {
            (Some(code), Some(message)) => Ok(Envelope::Failure { code, message }),
            _ => Err(Error::MalformedEnvelope),
        },
{
    match (e.u64_field("code"), e.str_field("message")) {
        (Ok(code), Ok(message)) => Ok(Envelope::Failure { code, message }),
        _ => Err(Error::MalformedEnvelope),
    }
}

/// Decodes a top-level response object into success with its payload, or the
/// failure that the server reported.
pub fn decode(top: Json) -> (r: Result<Envelope, Error>)
    ensures
        r == spec_decode(top),
{
    let fields = match top {
        Json::Object(fields) => fields,
        _ => return Err(Error::MalformedEnvelope),
    };
    let mut fields = fields;
    let i = match position(&fields, "subsonic-response") {
        Some(i) => i,
        None => return Err(Error::MalformedEnvelope),
    };
    let ghost whole = fields@;
    let (_, inner) = fields.remove(i);
    assert(inner == whole[i as int].1);
    let inner_fields = match inner {
        Json::Object(f) => f,
        _ => return Err(Error::MalformedEnvelope),
    };
    let status = match position(&inner_fields, "status") {
        Some(k) => match &inner_fields[k].1 {
            Json::Str(s) => s.clone(),
            _ => return Err(Error::MalformedEnvelope),
        },
        None => return Err(Error::MalformedEnvelope),
    };
    if str_eq(status.as_str(), "ok") {
        Ok(Envelope::Success(take_payload(inner_fields)))
    } else if str_eq(status.as_str(), "failed") {
        match find(&inner_fields, "error") {
            Some(e) => failure(e),
            None => Err(Error::MalformedEnvelope),
        }
    } else {
        Err(Error::MalformedEnvelope)
    }
}

impl Envelope {
    /// The payload of a success, or the server's failure as an error.
    pub fn into_payload(self) -> (r: Result<Option<Json>, Error>)
        ensures
            r == match self {
                Envelope::Success(p) => Ok(p),
                Envelope::Failure { code, message } => Err(Error::Server { code, message }),
            },
    {
        match self {
            Envelope::Success(p) => Ok(p),
            Envelope::Failure { code, message } => Err(Error::Server { code, message }),
        }
    }
}


/// Decoding a top-level object gives success with the payload exactly when the
/// status is `ok`; the reported failure when it is `failed` with a code and a
/// message; and `MalformedEnvelope` for every other shape.
pub proof fn lemma_decode_exhaustive(top: Json)
    ensures
        spec_decode(top) is Ok || spec_decode(top) == Err::<Envelope, Error>(
            Error::MalformedEnvelope,
        ),
        (spec_decode(top) matches Ok(Envelope::Success(_))) <==> (member(
            top,
            "subsonic-response"@,
        ) matches Some(Json::Object(_)) && str_field(
            member(top, "subsonic-response"@)->0,
            "status"@,
        ) matches Some(s) && s@ == "ok"@),
        (spec_decode(top) matches Ok(Envelope::Failure { .. })) ==> str_field(
            member(top, "subsonic-response"@)->0,
            "status"@,
        )->0@ == "failed"@,
        ({
            let inner = member(top, "subsonic-response"@)->0;
            let e = member(inner, "error"@)->0;
            (member(top, "subsonic-response"@) matches Some(Json::Object(_)) && str_field(
                inner,
                "status"@,
            ) matches Some(s) && s@ == "failed"@ && member(inner, "error"@) is Some
                && u64_field(e, "code"@) is Some && str_field(e, "message"@) is Some)
                ==> spec_decode(top) == Ok::<Envelope, Error>(
                Envelope::Failure {
                    code: u64_field(e, "code"@)->0,
                    message: str_field(e, "message"@)->0,
                },
            )
        }),
{
    reveal_strlit("ok");
    reveal_strlit("failed");
    assert("ok"@.len() != "failed"@.len());
}

} // verus!
