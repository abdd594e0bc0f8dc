use vstd::prelude::*;
use vstd::string::StringExecFns;

verus! {

// ---------------------------------------------------------------------------
// Foreign failure types
//
// The application classifies failures coming from the hex codec, the HTTP
// client, the JSON (de)serializer, the logger and the standard I/O layer.
// Their error types are opaque here; the classification only ever reads the
// diagnostic text they carry.
// ---------------------------------------------------------------------------

#[verifier::external_type_specification]
#[verifier::external_body]
pub struct ExFromHexError(hex::FromHexError);

#[verifier::external_type_specification]
#[verifier::external_body]
pub struct ExReqwestError(reqwest::Error);

#[verifier::external_type_specification]
#[verifier::external_body]
pub struct ExSerdeJsonError(serde_json::Error);

#[verifier::external_type_specification]
#[verifier::external_body]
pub struct ExSetLoggerError(log::SetLoggerError);

#[verifier::external_type_specification]
#[verifier::external_body]
pub struct ExIoError(std::io::Error);

/// The display text of a hex-decoding failure.
pub uninterp spec fn hex_error_text(e: hex::FromHexError) -> Seq<char>;

/// Relies on the `Display` impl of `hex::FromHexError`: the text is a pure
/// function of the error value (one fixed message per variant, with the
/// offending character and its position interpolated).
#[verifier::external_body]
fn hex_error_string(e: &hex::FromHexError) -> (r: String)
    ensures
        r@ == hex_error_text(*e),
{
    format!("{}", e)
}

/// The display text of an HTTP client failure.
pub uninterp spec fn reqwest_error_text(e: reqwest::Error) -> Seq<char>;

/// Relies on the `Display` impl of `reqwest::Error`: the text is a pure
/// function of the error value (a fixed label per error kind, plus the
/// stored status code and URL when present).
#[verifier::external_body]
fn reqwest_error_string(e: &reqwest::Error) -> (r: String)
    ensures
        r@ == reqwest_error_text(*e),
{
    format!("{}", e)
}

/// Relies on the `Display` impl of `serde_json::Error` only to produce some
/// diagnostic text. Nothing is claimed of its content: a JSON error arising
/// from a reader can wrap an I/O error, whose text the operating system
/// supplies and may phrase differently from machine to machine.
#[verifier::external_body]
fn serde_json_error_string(e: &serde_json::Error) -> (r: String) {
    format!("{}", e)
}

/// Relies on the `Display` impl of `std::io::Error` only to produce some
/// diagnostic text. Nothing is claimed of its content: for raw OS errors the
/// text comes from the operating system and may differ between machines.
#[verifier::external_body]
fn io_error_string(e: &std::io::Error) -> (r: String) {
    format!("{}", e)
}

/// The debug text of a logger-initialization failure.
pub open spec fn logger_error_text() -> Seq<char> {
    "SetLoggerError(())"@
}

/// Relies on the derived `Debug` impl of `log::SetLoggerError`, a tuple
/// struct with a single unit field: its debug text is always
/// `SetLoggerError(())`.
#[verifier::external_body]
fn logger_error_string(e: &log::SetLoggerError) -> (r: String)
    ensures
        r@ == logger_error_text(),
{
    format!("{:?}", e)
}

// ---------------------------------------------------------------------------
// The error taxonomy
// ---------------------------------------------------------------------------

/// The one error type of the application: a closed tagged union with one
/// variant per failure origin. Each variant carries the diagnostic text of
/// the failure it classifies; `Custom` carries a message that application
/// code authored itself.
pub enum AppError {
    Custom(String),
    IOError(String),
    HexError(String),
    ReqwestError(String),
    LoggerError(String),
    SerdeJsonError(String),
    NoneError(String),
}

/// The text carried by an error, whatever its variant.
pub open spec fn payload_text(e: AppError) -> Seq<char> {
    match e {
        AppError::Custom(m) => m@,
        AppError::IOError(m) => m@,
        AppError::HexError(m) => m@,
        AppError::ReqwestError(m) => m@,
        AppError::LoggerError(m) => m@,
        AppError::SerdeJsonError(m) => m@,
        AppError::NoneError(m) => m@,
    }
}

/// The payload text of an absent-optional failure, which carries no foreign
/// error value and reports the structural name of the absence.
pub open spec fn none_error_text() -> Seq<char> {
    "NoneError"@
}

// ---------------------------------------------------------------------------
// The presentation layer, specified
// ---------------------------------------------------------------------------

/// The fixed sign-off line that closes every rendered message except the
/// logger one.
pub open spec fn sign_off_text() -> Seq<char> {
    "\u{2714} Exiting, goodbye!\n"@
}

/// What precedes the payload text in a rendered message: a blank line and a
/// marked category label (bare for `Custom`, whose message speaks for
/// itself).
pub open spec fn render_prefix(e: AppError) -> Seq<char> {
    match e {
        AppError::Custom(_) => "\n"@,
        AppError::IOError(_) => "\n\u{2718} I/O Error!\n\u{2718} "@,
        AppError::HexError(_) => "\n\u{2718} Hex Error!\n\u{2718} "@,
        AppError::ReqwestError(_) => "\n\u{2718} HTTP Reqwest Error!\n\u{2718} "@,
        AppError::LoggerError(_) => "\n\u{2718} Logger Error!\n\u{2718} "@,
        AppError::SerdeJsonError(_) => "\n\u{2718} Serde-Json Error!\n\u{2718} "@,
        AppError::NoneError(_) => "\n\u{2718} Nothing to unwrap!\n\u{2718} "@,
    }
}

/// What follows the payload text in a rendered message: the sign-off line,
/// preceded for the HTTP variant by a line of retry guidance. Every variant
/// closes with the sign-off: sign-off presence is uniform across the
/// taxonomy.
pub open spec fn render_suffix(e: AppError) -> Seq<char> {
    match e {
        AppError::ReqwestError(_) => "\n\u{2718} Please check your node & port settings and retry.\n"@
            + sign_off_text(),
        _ => "\n"@ + sign_off_text(),
    }
}

/// The full rendered message of an error: its category prefix, its payload
/// text, and its closing lines.
pub open spec fn render_text(e: AppError) -> Seq<char> {
    render_prefix(e) + payload_text(e) + render_suffix(e)
}

/// The constant short label that `description` returns for every variant.
pub open spec fn description_text() -> Seq<char> {
    "\n\u{2718} Program Error!\n"@
}

// ---------------------------------------------------------------------------
// The error type's operations
// ---------------------------------------------------------------------------

impl AppError {
    /// Classifies a hex-decoding failure, keeping its full diagnostic text.
    pub fn from_hex_error(e: hex::FromHexError) -> (r: AppError)
        ensures
            r matches AppError::HexError(m) && m@ == hex_error_text(e),
    {
        AppError::HexError(hex_error_string(&e))
    }

    /// Classifies an HTTP client failure, keeping its full diagnostic text.
    pub fn from_reqwest_error(e: reqwest::Error) -> (r: AppError)
        ensures
            r matches AppError::ReqwestError(m) && m@ == reqwest_error_text(e),
    {
        AppError::ReqwestError(reqwest_error_string(&e))
    }

    /// Classifies a JSON (de)serialization failure. The diagnostic text is
    /// whatever the serializer reports; its content is not pinned down, since
    /// part of it can come from the operating system.
    pub fn from_serde_json_error(e: serde_json::Error) -> (r: AppError)
        ensures
            r is SerdeJsonError,
    {
        AppError::serde_json_error_from_text(serde_json_error_string(&e))
    }

    /// Wraps already-extracted JSON diagnostic text in its variant, keeping
    /// the text whole.
    pub fn serde_json_error_from_text(m: String) -> (r: AppError)
        ensures
            r == AppError::SerdeJsonError(m),
    {
        AppError::SerdeJsonError(m)
    }

    /// Classifies an I/O failure. The diagnostic text is whatever the I/O
    /// layer reports; its content is not pinned down, since for raw OS errors
    /// it comes from the operating system.
    pub fn from_io_error(e: std::io::Error) -> (r: AppError)
        ensures
            r is IOError,
    {
        AppError::io_error_from_text(io_error_string(&e))
    }

    /// Wraps already-extracted I/O diagnostic text in its variant, keeping
    /// the text whole.
    pub fn io_error_from_text(m: String) -> (r: AppError)
        ensures
            r == AppError::IOError(m),
    {
        AppError::IOError(m)
    }

    /// Classifies a logger-initialization failure, keeping its structural
    /// text.
    pub fn from_logger_error(e: log::SetLoggerError) -> (r: AppError)
        ensures
            r matches AppError::LoggerError(m) && m@ == logger_error_text(),
    {
        AppError::LoggerError(logger_error_string(&e))
    }

    /// Classifies an attempt to use an absent optional value, which carries
    /// no foreign error; the payload is the structural name of the absence.
    pub fn from_none() -> (r: AppError)
        ensures
            r matches AppError::NoneError(m) && m@ == none_error_text(),
    {
        AppError::NoneError("NoneError".to_owned())
    }

    /// Renders the error as the terminal-facing, symbol-annotated message.
    pub fn render(&self) -> (r: String)
        ensures
            r@ == render_text(*self),
    {
        match self {
            AppError::Custom(m) => {
                let mut s = "\n".to_owned();
                s.append(m.as_str());
                s.append("\n");
                s.append("\u{2714} Exiting, goodbye!\n");
                proof {
                    assert(s@ =~= render_text(*self));
                }
                s
            },
            AppError::IOError(m) => {
                let mut s = "\n\u{2718} I/O Error!\n\u{2718} ".to_owned();
                s.append(m.as_str());
                s.append("\n");
                s.append("\u{2714} Exiting, goodbye!\n");
                proof {
                    assert(s@ =~= render_text(*self));
                }
                s
            },
            AppError::HexError(m) => {
                let mut s = "\n\u{2718} Hex Error!\n\u{2718} ".to_owned();
                s.append(m.as_str());
                s.append("\n");
                s.append("\u{2714} Exiting, goodbye!\n");
                proof {
                    assert(s@ =~= render_text(*self));
                }
                s
            },
            AppError::ReqwestError(m) => {
                let mut s = "\n\u{2718} HTTP Reqwest Error!\n\u{2718} ".to_owned();
                s.append(m.as_str());
                s.append("\n\u{2718} Please check your node & port settings and retry.\n");
                s.append("\u{2714} Exiting, goodbye!\n");
                proof {
                    assert(s@ =~= render_text(*self));
                }
                s
            },
            AppError::LoggerError(m) => {
                let mut s = "\n\u{2718} Logger Error!\n\u{2718} ".to_owned();
                s.append(m.as_str());
                s.append("\n");
                s.append("\u{2714} Exiting, goodbye!\n");
                proof {
                    assert(s@ =~= render_text(*self));
                }
                s
            },
            AppError::SerdeJsonError(m) => {
                let mut s = "\n\u{2718} Serde-Json Error!\n\u{2718} ".to_owned();
                s.append(m.as_str());
                s.append("\n");
                s.append("\u{2714} Exiting, goodbye!\n");
                proof {
                    assert(s@ =~= render_text(*self));
                }
                s
            },
            AppError::NoneError(m) => {
                let mut s = "\n\u{2718} Nothing to unwrap!\n\u{2718} ".to_owned();
                s.append(m.as_str());
                s.append("\n");
                s.append("\u{2714} Exiting, goodbye!\n");
                proof {
                    assert(s@ =~= render_text(*self));
                }
                s
            },
        }
    }

    /// A fixed short label for generic error-reporting contexts; the same
    /// string whatever the variant.
    pub fn description(&self) -> (r: &'static str)
        ensures
            r@ == description_text(),
    {
        "\n\u{2718} Program Error!\n"
    }
}

// ---------------------------------------------------------------------------
// Laws of the presentation layer
// ---------------------------------------------------------------------------

/// `needle` occurs contiguously somewhere inside `hay`.
pub open spec fn contains_seq(hay: Seq<char>, needle: Seq<char>) -> bool {
    exists|i: int|
        0 <= i && i + needle.len() <= hay.len() && #[trigger] hay.subrange(i, i + needle.len())
            == needle
}

/// Law: the rendered message of any error contains the error's payload text
/// as a contiguous substring, whatever the variant.
pub proof fn lemma_render_contains_payload(e: AppError)
    ensures
        contains_seq(render_text(e), payload_text(e)),
{
    let p = render_prefix(e);
    let m = payload_text(e);
    let i = p.len() as int;
    assert(render_text(e).subrange(i, i + m.len()) =~= m);
}

/// Law: rendering a custom error reproduces the custom message verbatim
/// inside the rendered text.
pub proof fn lemma_render_custom_contains_message(msg: String)
    ensures
        contains_seq(render_text(AppError::Custom(msg)), msg@),
{
    lemma_render_contains_payload(AppError::Custom(msg));
}

/// Law: an error that classifies a hex-decoding failure renders with the
/// hex decoder's own message text inside the rendered message.
pub proof fn lemma_render_shows_hex_text(a: AppError, e: hex::FromHexError)
    requires
        a matches AppError::HexError(m) && m@ == hex_error_text(e),
    ensures
        contains_seq(render_text(a), hex_error_text(e)),
{
    lemma_render_contains_payload(a);
}

/// Law: an error that classifies an HTTP client failure renders with the
/// HTTP client's own message text inside the rendered message.
pub proof fn lemma_render_shows_reqwest_text(a: AppError, e: reqwest::Error)
    requires
        a matches AppError::ReqwestError(m) && m@ == reqwest_error_text(e),
    ensures
        contains_seq(render_text(a), reqwest_error_text(e)),
{
    lemma_render_contains_payload(a);
}

/// Law: an error that classifies a logger-initialization failure renders
/// with the logger error's structural text inside the rendered message.
pub proof fn lemma_render_shows_logger_text(a: AppError)
    requires
        a matches AppError::LoggerError(m) && m@ == logger_error_text(),
    ensures
        contains_seq(render_text(a), logger_error_text()),
{
    lemma_render_contains_payload(a);
}

} // verus!
