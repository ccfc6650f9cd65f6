//! The failures that an operation of this crate can report.

use vstd::prelude::*;
use vstd::string::*;

verus! {

/// The header that carries the key.
#[derive(Debug, Clone, Copy, PartialEq, Eq, Structural)]
pub enum CredentialHeader {
    /// `authorization`, of the bearer scheme.
    Authorization,
    /// `x-api-key`.
    ApiKey,
}

/// The operations that talk to a service.
#[derive(Debug, Clone, Copy, PartialEq, Eq, Structural)]
pub enum Operation {
    ChatCompletion,
    ModelListing,
    Transcription,
}

/// Why an operation failed.
#[derive(Debug, Clone, PartialEq, Eq)]
pub enum ClientError {
    /// The API key holds a character that no HTTP header value may hold:
    /// the header that refused it, and the reason as the header layer words
    /// it.
    InvalidCredentialEncoding { header: CredentialHeader, detail: String },
    /// The HTTP client could not be constructed, with the reason as the HTTP
    /// layer words it.
    ClientConstructionFailure { detail: String },
    /// The request never produced an HTTP status.
    TransportFailure,
    /// The remote service answered `operation` with a status outside
    /// 200..=299. The message is the body of the answer or, where
    /// `service_message` is set, the service's own message taken out of it.
    ApiFailure { operation: Operation, status: u16, message: String, service_message: bool },
    /// The service answered `operation` with success, but the body has an
    /// unknown shape.
    ResponseShapeMismatch { operation: Operation },
    /// No API key was configured for an operation that needs one.
    MissingCredential,
    /// The audio could not be framed as a WAV container.
    AudioEncodingFailure,
}

impl ClientError {
    /// Whether this is the refusal of the key by `header` for the reason
    /// `detail`.
    pub open spec fn is_invalid_credential(self, header: CredentialHeader, detail: Seq<char>) -> bool {
        match self {
            ClientError::InvalidCredentialEncoding { header: h, detail: d } => h == header && d@
                == detail,
            _ => false,
        }
    }

    /// Whether this is the failure to construct a client for the reason
    /// `detail`.
    pub open spec fn is_construction_failure(self, detail: Seq<char>) -> bool {
        match self {
            ClientError::ClientConstructionFailure { detail: d } => d@ == detail,
            _ => false,
        }
    }

    /// Whether this is the failure that the service reported to `operation`
    /// with `status` and the body `body`.
    pub open spec fn is_api_failure(self, operation: Operation, status: u16, body: Seq<char>) -> bool {
        match self {
            ClientError::ApiFailure { operation: o, status: s, message: m, service_message: q } => o
                == operation && s == status && m@ == body && !q,
            _ => false,
        }
    }

    /// Whether this is the failure that the service reported to `operation`
    /// with `status` and its own message `message`.
    pub open spec fn is_service_failure(
        self,
        operation: Operation,
        status: u16,
        message: Seq<char>,
    ) -> bool {
        match self {
            ClientError::ApiFailure { operation: o, status: s, message: m, service_message: q } => o
                == operation && s == status && m@ == message && q,
            _ => false,
        }
    }

    /// Whether this is the unknown shape of an answer to `operation`.
    pub open spec fn is_shape_mismatch(self, operation: Operation) -> bool {
        match self {
            ClientError::ResponseShapeMismatch { operation: o } => o == operation,
            _ => false,
        }
    }
}

/// Whether `status` is an HTTP success status.
pub open spec fn is_success(status: u16) -> bool {
    200 <= status && status < 300
}

/// Tests whether `status` is an HTTP success status.
pub fn status_is_success(status: u16) -> (ok: bool)
    ensures
        ok == is_success(status),
{
    200 <= status && status < 300
}

/// The digit `d` as text.
pub open spec fn digit_text(d: nat) -> Seq<char> {
    if d == 0 {
        "0"@
    } else if d == 1 {
        "1"@
    } else if d == 2 {
        "2"@
    } else if d == 3 {
        "3"@
    } else if d == 4 {
        "4"@
    } else if d == 5 {
        "5"@
    } else if d == 6 {
        "6"@
    } else if d == 7 {
        "7"@
    } else if d == 8 {
        "8"@
    } else {
        "9"@
    }
}

/// `n` in decimal, without leading zeros.
pub open spec fn decimal(n: nat) -> Seq<char>
    decreases n,
{
    if n < 10 {
        digit_text(n)
    } else {
        decimal(n / 10) + digit_text(n % 10)
    }
}

fn digit_str(d: u16) -> (text: &'static str)
    requires
        d < 10,
    ensures
        text@ == digit_text(d as nat),
{
    if d == 0 {
        "0"
    } else if d == 1 {
        "1"
    } else if d == 2 {
        "2"
    } else if d == 3 {
        "3"
    } else if d == 4 {
        "4"
    } else if d == 5 {
        "5"
    } else if d == 6 {
        "6"
    } else if d == 7 {
        "7"
    } else if d == 8 {
        "8"
    } else {
        "9"
    }
}

/// Writes a status in decimal.
pub fn status_text(status: u16) -> (text: String)
    ensures
        text@ == decimal(status as nat),
    decreases status,
{
    if status < 10 {
        String::from_str(digit_str(status))
    } else {
        status_text(status / 10).concat(digit_str(status % 10))
    }
}

/// The sentence that tells a user of the failure `error`. A failure that the
/// service reported names the status and carries the service's own words.
pub open spec fn description(error: ClientError) -> Seq<char> {
    match error {
        ClientError::InvalidCredentialEncoding { header, detail } => match header {
            CredentialHeader::Authorization => "Invalid authorization header value: "@ + detail@,
            CredentialHeader::ApiKey => "Invalid API key header value: "@ + detail@,
        },
        ClientError::ClientConstructionFailure { detail } => "Failed to build HTTP client: "@
            + detail@,
        ClientError::TransportFailure => "HTTP request failed"@,
        ClientError::ApiFailure { operation, status, message, service_message } => match operation {
            _ if service_message => "OpenAI API Error ("@ + decimal(status as nat) + "): "@
                + message@,
            Operation::ChatCompletion => "API request failed with status "@ + decimal(
                status as nat,
            ) + ": "@ + message@,
            Operation::ModelListing => "Model list request failed ("@ + decimal(status as nat)
                + "): "@ + message@,
            Operation::Transcription => "Cloud transcription failed ("@ + decimal(status as nat)
                + "): "@ + message@,
        },
        ClientError::ResponseShapeMismatch { operation } => match operation {
            Operation::ChatCompletion => "Failed to parse API response"@,
            Operation::ModelListing => "Failed to parse response"@,
            Operation::Transcription => "Failed to parse cloud transcription response"@,
        },
        ClientError::MissingCredential =>
            "OpenAI API key is missing. Please add it in the Advanced settings."@,
        ClientError::AudioEncodingFailure => "Failed to encode audio as WAV"@,
    }
}

impl ClientError {
    /// Describes the failure for a user.
    pub fn describe(&self) -> (text: String)
        ensures
            text@ == description(*self),
    {
        match self {
            ClientError::InvalidCredentialEncoding { header, detail } => match header {
                CredentialHeader::Authorization => String::from_str(
                    "Invalid authorization header value: ",
                ).concat(detail.as_str()),
                CredentialHeader::ApiKey => String::from_str(
                    "Invalid API key header value: ",
                ).concat(detail.as_str()),
            },
            ClientError::ClientConstructionFailure { detail } => String::from_str(
                "Failed to build HTTP client: ",
            ).concat(detail.as_str()),
            ClientError::TransportFailure => String::from_str("HTTP request failed"),
            ClientError::ApiFailure { operation, status, message, service_message } => {
                let number = status_text(*status);
                if *service_message {
                    return String::from_str("OpenAI API Error (").concat(number.as_str()).concat(
                        "): ",
                    ).concat(message.as_str());
                }
                match operation {
                    Operation::ChatCompletion => String::from_str(
                        "API request failed with status ",
                    ).concat(number.as_str()).concat(": ").concat(message.as_str()),
                    Operation::ModelListing => String::from_str(
                        "Model list request failed (",
                    ).concat(number.as_str()).concat("): ").concat(message.as_str()),
                    Operation::Transcription => String::from_str(
                        "Cloud transcription failed (",
                    ).concat(number.as_str()).concat("): ").concat(message.as_str()),
                }
            },
            ClientError::ResponseShapeMismatch { operation } => match operation {
                Operation::ChatCompletion => String::from_str("Failed to parse API response"),
                Operation::ModelListing => String::from_str("Failed to parse response"),
                Operation::Transcription => String::from_str(
                    "Failed to parse cloud transcription response",
                ),
            },
            ClientError::MissingCredential => String::from_str(
                "OpenAI API key is missing. Please add it in the Advanced settings.",
            ),
            ClientError::AudioEncodingFailure => String::from_str("Failed to encode audio as WAV"),
        }
    }
}

} // verus!
