//! Error handling.
//!
//! Every failure the library surfaces is one of four kinds: a generic I/O
//! failure, a truncated header, or a diagnostic from one of the two codecs.
//! An error renders as a single line with a fixed prefix naming its kind,
//! and the two I/O-derived kinds expose the wrapped failure as their cause.

use vstd::prelude::*;
use vstd::std_specs::convert::FromSpec;

verus! {

/// `std::io::Error` is opaque to the verifier; this declaration lets error
/// values carry one through unchanged.
#[verifier::external_type_specification]
#[verifier::external_body]
pub struct ExIoError(std::io::Error);

/// Relies on `std::io::Error`'s `Display` implementation, reached through
/// `ToString::to_string`. The rendering runs the wrapped payload's own
/// `Display` code, which std lets depend on ambient state (and, for OS
/// errors, on the platform's message tables), so nothing is claimed of the
/// text that comes back.
#[verifier::external_body]
fn io_error_text(e: &std::io::Error) -> String {
    e.to_string()
}

/// Library errors.
#[derive(Debug)]
pub enum Error {
    /// I/O error.
    IOError(std::io::Error),
    /// Not enough bytes to complete header
    HeaderTooShort(std::io::Error),
    /// LZMA error.
    LZMAError(String),
    /// XZ error.
    XZError(String),
}

/// Library result alias.
pub type Result<T> = core::result::Result<T, Error>;

/// The single line an error renders to: a fixed prefix naming its kind,
/// followed verbatim by the stored message, or — for the two I/O-derived
/// kinds — by `inner`, the text the wrapped failure rendered itself to.
pub open spec fn display_line_of(e: Error, inner: Seq<char>) -> Seq<char> {
    match e {
        Error::IOError(_) => "io error: "@ + inner,
        Error::HeaderTooShort(_) => "header too short: "@ + inner,
        Error::LZMAError(m) => "lzma error: "@ + m@,
        Error::XZError(m) => "xz error: "@ + m@,
    }
}

/// The cause of an error: the wrapped I/O failure for the two I/O-derived
/// kinds; the codec kinds are terminal in the cause chain.
pub open spec fn source_of(e: Error) -> Option<std::io::Error> {
    match e {
        Error::IOError(io) => Some(io),
        Error::HeaderTooShort(io) => Some(io),
        Error::LZMAError(_) => None,
        Error::XZError(_) => None,
    }
}

/// The line reported for a generic I/O failure whose own rendering is
/// `text`: the fixed prefix, then `text` verbatim.
pub fn render_io_line(text: &str) -> (r: String)
    ensures
        r@ == "io error: "@ + text@,
{
    String::from_str("io error: ").concat(text)
}

/// The line reported for a truncated header, given the text `text` that the
/// revealing I/O failure rendered itself to: the fixed prefix, then `text`
/// verbatim.
pub fn render_header_line(text: &str) -> (r: String)
    ensures
        r@ == "header too short: "@ + text@,
{
    String::from_str("header too short: ").concat(text)
}

impl Error {
    /// Render the error as a single human-readable line: for every variant
    /// the line is `display_line_of` applied to some rendering of the
    /// wrapped failure — which pins the codec lines exactly, and pins the
    /// I/O-derived lines up to the text that failure's own `Display` code
    /// produced on this call.
    pub fn to_display_string(&self) -> (r: String)
        ensures
            exists|t: Seq<char>| r@ == display_line_of(*self, t),
    {
        match self {
            Error::IOError(e) => {
                let text = io_error_text(e);
                let line = render_io_line(text.as_str());
                proof {
                    assert(line@ == display_line_of(*self, text@));
                }
                line
            },
            Error::HeaderTooShort(e) => {
                let text = io_error_text(e);
                let line = render_header_line(text.as_str());
                proof {
                    assert(line@ == display_line_of(*self, text@));
                }
                line
            },
            Error::LZMAError(m) => {
                let line = String::from_str("lzma error: ").concat(m.as_str());
                proof {
                    assert(line@ == display_line_of(*self, m@));
                }
                line
            },
            Error::XZError(m) => {
                let line = String::from_str("xz error: ").concat(m.as_str());
                proof {
                    assert(line@ == display_line_of(*self, m@));
                }
                line
            },
        }
    }

    /// The wrapped I/O failure, when this error carries one; the codec kinds
    /// report no cause.
    pub fn source(&self) -> (r: Option<&std::io::Error>)
        ensures
            (r matches Some(c) ==> source_of(*self) == Some(*c)),
            (r is None ==> source_of(*self) is None),
    {
        match self {
            Error::IOError(e) => Some(e),
            Error::HeaderTooShort(e) => Some(e),
            Error::LZMAError(_) => None,
            Error::XZError(_) => None,
        }
    }
}

impl From<std::io::Error> for Error {
    /// The conversion applied at error-propagation points: a raw I/O failure
    /// becomes `IOError`, wrapped unchanged.
    fn from(e: std::io::Error) -> (r: Error) {
        Error::IOError(e)
    }
}

impl vstd::std_specs::convert::FromSpecImpl<std::io::Error> for Error {
    open spec fn obeys_from_spec() -> bool {
        true
    }

    open spec fn from_spec(e: std::io::Error) -> Error {
        Error::IOError(e)
    }
}

/// For an error that wraps an I/O failure, cause-lookup reports exactly that
/// failure, and whatever text `t` the failure renders itself to is what
/// stands after the prefix, verbatim, in the error's own display line.
pub proof fn lemma_cause_matches_display(e: Error, t: Seq<char>)
    requires
        e is IOError || e is HeaderTooShort,
    ensures
        e matches Error::IOError(io) ==> source_of(e) == Some(io) && display_line_of(e, t)
            == "io error: "@ + t,
        e matches Error::HeaderTooShort(io) ==> source_of(e) == Some(io) && display_line_of(e, t)
            == "header too short: "@ + t,
{
}

/// Codec failures are terminal in the cause chain: for every message,
/// including the empty one, cause-lookup reports nothing.
pub proof fn lemma_codec_failures_have_no_cause(m: String)
    ensures
        source_of(Error::LZMAError(m)) is None,
        source_of(Error::XZError(m)) is None,
{
}

/// Round trip: converting a raw I/O failure and then looking up the cause
/// hands back that very failure, unchanged — so any text it renders itself
/// to is the original failure's own, with no information lost on the way.
pub proof fn lemma_conversion_preserves_cause(io: std::io::Error)
    ensures
        Error::from_spec(io) == Error::IOError(io),
        source_of(Error::from_spec(io)) == Some(io),
{
}

/// The rendered line is determined by the error value and the wrapped
/// failure's rendered text alone: two lines built from the same value and
/// the same cause text agree.
pub proof fn lemma_display_deterministic(e: Error, t: Seq<char>, r1: Seq<char>, r2: Seq<char>)
    requires
        r1 == display_line_of(e, t),
        r2 == display_line_of(e, t),
    ensures
        r1 == r2,
{
}

/// Cause-lookup is determined by the error value alone: any two lookups on
/// the same value agree.
pub proof fn lemma_source_deterministic(e: Error, r1: Option<std::io::Error>, r2: Option<std::io::Error>)
    requires
        r1 == source_of(e),
        r2 == source_of(e),
    ensures
        r1 == r2,
{
}

/// An empty codec message still renders to a well-formed line: the bare
/// prefix, whatever text stands in the unused cause slot.
pub proof fn lemma_empty_message_renders_prefix(m: String, t: Seq<char>)
    requires
        m@ == Seq::<char>::empty(),
    ensures
        display_line_of(Error::LZMAError(m), t) == "lzma error: "@,
        display_line_of(Error::XZError(m), t) == "xz error: "@,
{
    assert(display_line_of(Error::LZMAError(m), t) =~= "lzma error: "@);
    assert(display_line_of(Error::XZError(m), t) =~= "xz error: "@);
}

} // verus!
