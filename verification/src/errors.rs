//! Structured errors and the multi-shape error envelope.
//!
//! Server endpoints report application errors through a single decodable
//! envelope that may carry its human-readable reason in one of several
//! alternative fields: a direct `message`, a direct `title`, a nested list
//! of further envelopes, or a bare success flag. An envelope with none of
//! these fields present means "no error".

use vstd::prelude::*;

verus! {

/// The result of one API operation.
pub type ApiResult<T> = Result<T, ApiError>;

/// The error taxonomy of the client.
#[derive(Debug)]
pub enum ApiError {
    /// The transport or a token-dependent operation could not be set up:
    /// either headers could not be built from the credential, or a
    /// token-carrying request was attempted before any token was obtained.
    SetupFailed,
    /// A network or transport-level failure.
    RequestError { reason: String },
    /// The server accepted the request but reported an application error
    /// through the error envelope.
    Roblox { status_code: u16, reason: String },
    /// The body matched neither the error envelope nor the target type.
    ParseJson { reason: String },
}

/// The display form of an error.
pub open spec fn spec_describe_error(e: ApiError) -> Seq<char> {
    match e {
        ApiError::SetupFailed => "Authorization failed. Check your .ROBLOSECURITY cookie."@,
        ApiError::RequestError { reason } => "Request Error"@,
        ApiError::Roblox { status_code, reason } => "Roblox error ("@ + crate::text::spec_decimal(
            status_code as int,
        ) + ") : "@ + reason@,
        ApiError::ParseJson { reason } => "Failed to parse JSON response: "@ + reason@,
    }
}

impl ApiError {
    /// Render the error for display.
    pub fn describe(&self) -> (s: String)
        ensures
            s@ == spec_describe_error(*self),
    {
        match self {
            ApiError::SetupFailed => String::from_str(
                "Authorization failed. Check your .ROBLOSECURITY cookie.",
            ),
            ApiError::RequestError { reason } => String::from_str("Request Error"),
            ApiError::Roblox { status_code, reason } => {
                let mut s = String::from_str("Roblox error (");
                let code = crate::text::u64_to_string(*status_code as u64);
                s.append(code.as_str());
                s.append(") : ");
                s.append(reason.as_str());
                proof {
                    assert(s@ =~= spec_describe_error(*self));
                }
                s
            },
            ApiError::ParseJson { reason } => {
                let mut s = String::from_str("Failed to parse JSON response: ");
                s.append(reason.as_str());
                s
            },
        }
    }
}

/// The error envelope: every field optional, presence of any of them
/// meaning the body is an error report rather than a payload.
#[derive(Debug)]
pub struct RobloxApiErrorResponse {
    /// Most errors include a `message` property.
    pub message: Option<String>,
    /// Some error models carry a `title` property instead.
    pub title: Option<String>,
    /// Older endpoints nest a list of further envelopes.
    pub errors: Option<Vec<RobloxApiErrorResponse>>,
    /// Some responses carry only a success flag.
    pub success: Option<bool>,
}

/// An envelope is empty when none of its alternative fields is present.
pub open spec fn spec_is_empty(e: RobloxApiErrorResponse) -> bool {
    e.message is None && e.title is None && e.errors is None && e.success is None
}

/// The resolved reason of an envelope: the direct message, else the direct
/// title, else the first reason found in the nested envelope list,
/// depth-first, first match wins.
pub open spec fn spec_reason(e: RobloxApiErrorResponse) -> Option<Seq<char>>
    decreases e,
{
    if e.message is Some {
        Some(e.message->0@)
    } else if e.title is Some {
        Some(e.title->0@)
    } else if e.errors is Some {
        spec_first_reason(e.errors->0@)
    } else {
        None
    }
}

/// The first resolved reason among a sequence of envelopes, if any.
pub open spec fn spec_first_reason(es: Seq<RobloxApiErrorResponse>) -> Option<Seq<char>>
    decreases es,
{
    if es.len() == 0 {
        None
    } else {
        match spec_reason(es[0]) {
            Some(r) => Some(r),
            None => spec_first_reason(es.drop_first()),
        }
    }
}

/// The view of an optional owned string.
pub open spec fn opt_string_view(o: Option<String>) -> Option<Seq<char>> {
    match o {
        Some(s) => Some(s@),
        None => None,
    }
}

impl RobloxApiErrorResponse {
    /// Whether the envelope carries no error indication at all.
    pub fn is_empty(&self) -> (r: bool)
        ensures
            r == spec_is_empty(*self),
    {
        self.message.is_none() && self.title.is_none() && self.errors.is_none()
            && self.success.is_none()
    }

    /// Resolve the envelope's reason: message, else title, else the first
    /// reason of the nested envelopes, recursively.
    pub fn reason(&self) -> (r: Option<String>)
        ensures
            opt_string_view(r) == spec_reason(*self),
        decreases *self,
    {
        match &self.message {
            Some(m) => Some(m.clone()),
            None => match &self.title {
                Some(t) => Some(t.clone()),
                None => match &self.errors {
                    Some(es) => {
                        let mut i: usize = 0;
                        while i < es.len()
                            invariant
                                i <= es@.len(),
                                self.errors matches Some(v) && v@ == es@,
                                self.message is None,
                                self.title is None,
                                forall|j: int| 0 <= j < i ==> spec_reason(es@[j]) is None,
                            decreases es@.len() - i,
                        {
                            proof {
                                assert(decreases_to!(*self => self.errors));
                                assert(decreases_to!(self.errors => self.errors->0));
                                assert(decreases_to!(self.errors->0 => es@));
                                assert(decreases_to!(es@ => es@[i as int]));
                            }
                            let r = es[i].reason();
                            if r.is_some() {
                                proof {
                                    lemma_first_reason_at(es@, i as int);
                                }
                                return r;
                            }
                            i = i + 1;
                        }
                        proof {
                            lemma_first_reason_none(es@);
                        }
                        None
                    },
                    None => None,
                },
            },
        }
    }
}

/// Error envelope priority: a direct message wins over everything, a
/// direct title wins over the nested list, and the nested list is searched
/// depth-first only when both direct fields are absent.
pub proof fn lemma_reason_priority(e: RobloxApiErrorResponse)
    ensures
        e.message is Some ==> spec_reason(e) == Some(e.message->0@),
        e.message is None && e.title is Some ==> spec_reason(e) == Some(e.title->0@),
        e.message is None && e.title is None && e.errors is Some ==> spec_reason(e)
            == spec_first_reason(e.errors->0@),
        e.message is None && e.title is None && e.errors is None ==> spec_reason(e) is None,
{
}

/// If every envelope before position `i` resolves to no reason and the one
/// at `i` resolves to some reason, that is the first reason of the list.
proof fn lemma_first_reason_at(es: Seq<RobloxApiErrorResponse>, i: int)
    requires
        0 <= i < es.len(),
        forall|j: int| 0 <= j < i ==> spec_reason(es[j]) is None,
        spec_reason(es[i]) is Some,
    ensures
        spec_first_reason(es) == spec_reason(es[i]),
    decreases i,
{
    if i > 0 {
        lemma_first_reason_at(es.drop_first(), i - 1);
    }
}

/// A list of envelopes none of which resolves to a reason has no first
/// reason.
proof fn lemma_first_reason_none(es: Seq<RobloxApiErrorResponse>)
    requires
        forall|j: int| 0 <= j < es.len() ==> spec_reason(es[j]) is None,
    ensures
        spec_first_reason(es) is None,
    decreases es.len(),
{
    if es.len() > 0 {
        lemma_first_reason_none(es.drop_first());
    }
}

} // verus!
