//! The receiver of actuator commands: who may command, what is answered, and
//! which origins a browser may call from.

use crate::text::same_text;
use vstd::prelude::*;

verus! {

/// What a client can ask the receiver to do.
#[derive(Clone, Copy, Debug, PartialEq, Eq)]
pub enum Action {
    FeederActivate,
    DoorOpen,
    DoorClose,
}

/// The answer to a request: the HTTP status code, and the status and
/// message of the body.
#[derive(Debug)]
pub struct ApiResponse {
    pub code: u16,
    pub status: String,
    pub message: String,
}

/// How long the feeder runs where a request names no duration, in
/// milliseconds.
pub const DEFAULT_FEED_MS: u64 = 2500;

/// Whether a request may command: it presents a key, and the key is the
/// expected one.
pub fn authorized(presented: Option<&str>, expected_key: &str) -> (r: bool)
    ensures
        r == (presented matches Some(key) && key@ == expected_key@),
{
    match presented {
        Some(key) => same_text(key, expected_key),
        None => false,
    }
}

/// How long the feeder runs for a request, in milliseconds.
pub fn feed_duration(requested: Option<u64>) -> (ms: u64)
    ensures
        ms == match requested {
            Some(ms) => ms,
            None => DEFAULT_FEED_MS,
        },
{
    match requested {
        Some(ms) => ms,
        None => DEFAULT_FEED_MS,
    }
}

impl Action {
    /// The route of the action.
    pub fn route(self) -> (route: &'static str)
        ensures
            route@ == match self {
                Action::FeederActivate => "/actuators/feeder/activate"@,
                Action::DoorOpen => "/actuators/door/open"@,
                Action::DoorClose => "/actuators/door/close"@,
            },
    {
        match self {
            Action::FeederActivate => "/actuators/feeder/activate",
            Action::DoorOpen => "/actuators/door/open",
            Action::DoorClose => "/actuators/door/close",
        }
    }

    /// What is answered when the action is done.
    pub open spec fn done(self) -> Seq<char> {
        match self {
            Action::FeederActivate => "feeder activated"@,
            Action::DoorOpen => "door opened"@,
            Action::DoorClose => "door closed"@,
        }
    }

    fn done_message(self) -> (message: String)
        ensures
            message@ == self.done(),
    {
        match self {
            Action::FeederActivate => "feeder activated".to_owned(),
            Action::DoorOpen => "door opened".to_owned(),
            Action::DoorClose => "door closed".to_owned(),
        }
    }
}

/// Decides whether a request goes on to the driver. A request that may not
/// command is answered at once: 401, `error`, `unauthorized`.
pub fn refusal(presented: Option<&str>, expected_key: &str) -> (r: Option<ApiResponse>)
    ensures
        r is None <==> (presented matches Some(key) && key@ == expected_key@),
        r matches Some(response) ==> response.code == 401 && response.status@ == "error"@
            && response.message@ == "unauthorized"@,
{
    if authorized(presented, expected_key) {
        None
    } else {
        Some(
            ApiResponse {
                code: 401,
                status: "error".to_owned(),
                message: "unauthorized".to_owned(),
            },
        )
    }
}

/// The answer once the driver has run the action: 200, `ok` and what was
/// done, or 500, `error` and what the driver reported.
pub fn outcome_response(action: Action, outcome: Result<(), String>) -> (response: ApiResponse)
    ensures
        match outcome {
            Ok(_) => response.code == 200 && response.status@ == "ok"@ && response.message@
                == action.done(),
            Err(cause) => response.code == 500 && response.status@ == "error"@ && response.message@
                == cause@,
        },
{
    match outcome {
        Ok(_) => ApiResponse {
            code: 200,
            status: "ok".to_owned(),
            message: action.done_message(),
        },
        Err(cause) => ApiResponse { code: 500, status: "error".to_owned(), message: cause },
    }
}

/// From which origins a browser may call the receiver.
#[derive(Debug)]
pub enum AllowedOrigin {
    Any,
    Exact(String),
}

/// Whether `text` can be the value of an HTTP header: it holds no control
/// character but the tab.
pub open spec fn is_header_value(text: Seq<char>) -> bool {
    forall|i: int|
        0 <= i < text.len() ==> (#[trigger] text[i]) == '\t' || (text[i] as u32 >= 32 && text[i] as u32
            != 127)
}

/// Asks `http::HeaderValue::from_str` whether it takes `text`. It does so
/// exactly when every byte of the text is a tab or at least 32 and not 127;
/// the bytes of a character beyond ASCII are all above 127.
#[verifier::external_body]
fn header_accepts(text: &str) -> (r: bool)
    ensures
        r == is_header_value(text@),
{
    axum::http::HeaderValue::from_str(text).is_ok()
}

/// The origins that the setting of the allowed origin gives: the one it
/// names, where it names one that can be a header value; any origin where it
/// is absent, empty, a star, or no header value.
pub fn allowed_origin(configured: Option<&str>) -> (r: AllowedOrigin)
    ensures
        match configured {
            Some(origin) => if origin@.len() > 0 && origin@ != "*"@ && is_header_value(origin@) {
                r matches AllowedOrigin::Exact(exact) && exact@ == origin@
            } else {
                r is Any
            },
            None => r is Any,
        },
{
    match configured {
        Some(origin) => {
            proof {
                reveal_strlit("");
                if origin@.len() == 0 {
                    assert(origin@ =~= ""@);
                }
            }
            if !same_text(origin, "") && !same_text(origin, "*") && header_accepts(origin) {
                AllowedOrigin::Exact(origin.to_owned())
            } else {
                AllowedOrigin::Any
            }
        },
        None => AllowedOrigin::Any,
    }
}

} // verus!
