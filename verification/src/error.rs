//! Unified error type for the toolkit.
//!
//! Every fallible operation in the crate reports one of these variants; the
//! category and recoverability queries let callers decide whether to abort a
//! frame or keep polling.

use vstd::prelude::*;
use vstd::string::*;

verus! {

/// `std::io::Error` carried by the `Io` variant; opaque to verification.
#[verifier::external_type_specification]
#[verifier::external_body]
pub struct ExIoError(std::io::Error);

/// Error type covering every failure the toolkit reports.
#[derive(Debug)]
pub enum Error {
    /// Platform-specific initialization failed
    PlatformInit(String),
    /// Window creation or manipulation failed
    WindowError(String),
    /// Event system error
    EventError(String),
    /// Drawing or rendering error
    DrawingError(String),
    /// Widget-related error
    WidgetError(String),
    /// Layout computation error
    LayoutError(String),
    /// Resource loading error (fonts, images, and the like)
    ResourceError(String),
    /// Invalid operation or state
    InvalidOperation(String),
    /// Generic framework error
    Framework(String),
    /// I/O-related error
    Io(std::io::Error),
    /// Platform-specific error code with its origin and description
    PlatformSpecific { platform: String, code: i32, message: String },
}

impl Error {
    /// Create a new platform initialization error.
    pub fn platform_init(msg: &str) -> (e: Error)
        ensures
            e matches Error::PlatformInit(m) && m@ == msg@,
    {
        Error::PlatformInit(msg.to_owned())
    }

    /// Create a new window error.
    pub fn window(msg: &str) -> (e: Error)
        ensures
            e matches Error::WindowError(m) && m@ == msg@,
    {
        Error::WindowError(msg.to_owned())
    }

    /// Create a new event error.
    pub fn event(msg: &str) -> (e: Error)
        ensures
            e matches Error::EventError(m) && m@ == msg@,
    {
        Error::EventError(msg.to_owned())
    }

    /// Create a new drawing error.
    pub fn drawing(msg: &str) -> (e: Error)
        ensures
            e matches Error::DrawingError(m) && m@ == msg@,
    {
        Error::DrawingError(msg.to_owned())
    }

    /// Create a new widget error.
    pub fn widget(msg: &str) -> (e: Error)
        ensures
            e matches Error::WidgetError(m) && m@ == msg@,
    {
        Error::WidgetError(msg.to_owned())
    }

    /// Create a new layout error.
    pub fn layout(msg: &str) -> (e: Error)
        ensures
            e matches Error::LayoutError(m) && m@ == msg@,
    {
        Error::LayoutError(msg.to_owned())
    }

    /// Create a new resource error.
    pub fn resource(msg: &str) -> (e: Error)
        ensures
            e matches Error::ResourceError(m) && m@ == msg@,
    {
        Error::ResourceError(msg.to_owned())
    }

    /// Create a new invalid operation error.
    pub fn invalid_operation(msg: &str) -> (e: Error)
        ensures
            e matches Error::InvalidOperation(m) && m@ == msg@,
    {
        Error::InvalidOperation(msg.to_owned())
    }

    /// Create a new framework error.
    pub fn framework(msg: &str) -> (e: Error)
        ensures
            e matches Error::Framework(m) && m@ == msg@,
    {
        Error::Framework(msg.to_owned())
    }

    /// Create a new platform-specific error.
    pub fn platform_specific(platform: &str, code: i32, message: &str) -> (e: Error)
        ensures
            e matches Error::PlatformSpecific { platform: p, code: c, message: m }
                && p@ == platform@ && c == code && m@ == message@,
    {
        Error::PlatformSpecific {
            platform: platform.to_owned(),
            code,
            message: message.to_owned(),
        }
    }

    /// The category this error falls under, as a short name.
    pub open spec fn spec_category(&self) -> Seq<char> {
        match self {
            Error::PlatformInit(_) => "Platform Initialization"@,
            Error::WindowError(_) => "Window"@,
            Error::EventError(_) => "Event System"@,
            Error::DrawingError(_) => "Drawing"@,
            Error::WidgetError(_) => "Widget"@,
            Error::LayoutError(_) => "Layout"@,
            Error::ResourceError(_) => "Resource"@,
            Error::InvalidOperation(_) => "Invalid Operation"@,
            Error::Framework(_) => "Framework"@,
            Error::Io(_) => "I/O"@,
            Error::PlatformSpecific { .. } => "Platform Specific"@,
        }
    }

    /// Get the error category as a string.
    pub fn category(&self) -> (r: &'static str)
        ensures
            r@ == self.spec_category(),
    {
        match self {
            Error::PlatformInit(_) => "Platform Initialization",
            Error::WindowError(_) => "Window",
            Error::EventError(_) => "Event System",
            Error::DrawingError(_) => "Drawing",
            Error::WidgetError(_) => "Widget",
            Error::LayoutError(_) => "Layout",
            Error::ResourceError(_) => "Resource",
            Error::InvalidOperation(_) => "Invalid Operation",
            Error::Framework(_) => "Framework",
            Error::Io(_) => "I/O",
            Error::PlatformSpecific { .. } => "Platform Specific",
        }
    }

    /// Whether a caller may reasonably continue after this error.
    pub open spec fn spec_is_recoverable(&self) -> bool {
        match self {
            Error::PlatformInit(_) => false,
            Error::Framework(_) => false,
            Error::PlatformSpecific { code, .. } => *code >= 0,
            _ => true,
        }
    }

    /// Check if this error is recoverable: platform initialization and
    /// framework errors are fatal, and negative platform codes are typically
    /// fatal as well.
    pub fn is_recoverable(&self) -> (r: bool)
        ensures
            r == self.spec_is_recoverable(),
    {
        match self {
            Error::PlatformInit(_) => false,
            Error::WindowError(_) => true,
            Error::EventError(_) => true,
            Error::DrawingError(_) => true,
            Error::WidgetError(_) => true,
            Error::LayoutError(_) => true,
            Error::ResourceError(_) => true,
            Error::InvalidOperation(_) => true,
            Error::Framework(_) => false,
            Error::Io(_) => true,
            Error::PlatformSpecific { code, .. } => *code >= 0,
        }
    }
}

} // verus!

verus! {

/// Relies on the standard `Display` rendering of `std::io::Error`; the text
/// depends on the error value and is not specified further.
#[verifier::external_body]
fn io_error_text(err: &std::io::Error) -> String {
    format!("{}", err)
}

impl Error {
    /// A human-readable description: the category's prefix, then the detail
    /// message. The I/O variant's text comes from the carried error.
    pub fn message(&self) -> (r: String)
        ensures
            self matches Error::PlatformInit(m) ==> r@ == "Platform initialization failed: "@
                + m@,
            self matches Error::WindowError(m) ==> r@ == "Window error: "@ + m@,
            self matches Error::EventError(m) ==> r@ == "Event system error: "@ + m@,
            self matches Error::DrawingError(m) ==> r@ == "Drawing error: "@ + m@,
            self matches Error::WidgetError(m) ==> r@ == "Widget error: "@ + m@,
            self matches Error::LayoutError(m) ==> r@ == "Layout error: "@ + m@,
            self matches Error::ResourceError(m) ==> r@ == "Resource error: "@ + m@,
            self matches Error::InvalidOperation(m) ==> r@ == "Invalid operation: "@ + m@,
            self matches Error::Framework(m) ==> r@ == "Framework error: "@ + m@,
            self is Io ==> exists|t: Seq<char>| r@ == "I/O error: "@ + t,
            self matches Error::PlatformSpecific { platform, code, message } ==> r@
                == "Platform error ("@ + platform@ + "): "@ + message@ + " (code: "@
                + crate::strutil::spec_decimal_i64(code as int) + ")"@,
    {
        match self {
            Error::PlatformInit(m) => {
                let mut s = String::from_str("Platform initialization failed: ");
                s.append(m.as_str());
                s
            },
            Error::WindowError(m) => {
                let mut s = String::from_str("Window error: ");
                s.append(m.as_str());
                s
            },
            Error::EventError(m) => {
                let mut s = String::from_str("Event system error: ");
                s.append(m.as_str());
                s
            },
            Error::DrawingError(m) => {
                let mut s = String::from_str("Drawing error: ");
                s.append(m.as_str());
                s
            },
            Error::WidgetError(m) => {
                let mut s = String::from_str("Widget error: ");
                s.append(m.as_str());
                s
            },
            Error::LayoutError(m) => {
                let mut s = String::from_str("Layout error: ");
                s.append(m.as_str());
                s
            },
            Error::ResourceError(m) => {
                let mut s = String::from_str("Resource error: ");
                s.append(m.as_str());
                s
            },
            Error::InvalidOperation(m) => {
                let mut s = String::from_str("Invalid operation: ");
                s.append(m.as_str());
                s
            },
            Error::Framework(m) => {
                let mut s = String::from_str("Framework error: ");
                s.append(m.as_str());
                s
            },
            Error::Io(err) => {
                let mut s = String::from_str("I/O error: ");
                let t = io_error_text(err);
                s.append(t.as_str());
                s
            },
            Error::PlatformSpecific { platform, code, message } => {
                let mut s = String::from_str("Platform error (");
                s.append(platform.as_str());
                s.append("): ");
                s.append(message.as_str());
                s.append(" (code: ");
                let digits = crate::strutil::i64_to_string(*code as i64);
                s.append(digits.as_str());
                s.append(")");
                s
            },
        }
    }
}

impl From<std::io::Error> for Error {
    /// Wrap an I/O error.
    fn from(err: std::io::Error) -> (r: Error) {
        Error::Io(err)
    }
}

impl vstd::std_specs::convert::FromSpecImpl<std::io::Error> for Error {
    open spec fn obeys_from_spec() -> bool {
        true
    }

    open spec fn from_spec(err: std::io::Error) -> Error {
        Error::Io(err)
    }
}

/// A Win32 error code with its rendered description.
#[derive(Debug, Clone)]
pub struct WindowsError {
    pub code: u32,
    pub message: String,
}

impl WindowsError {
    /// Wrap a Win32 error code, rendering its generic description.
    pub fn new(code: u32) -> (e: WindowsError)
        ensures
            e.code == code,
            e.message@ == "Windows error code: "@ + crate::strutil::spec_decimal(code as nat),
    {
        let message = get_windows_error_message(code);
        WindowsError { code, message }
    }

    /// The raw error code.
    pub fn code(&self) -> (r: u32)
        ensures
            r == self.code,
    {
        self.code
    }

    /// The rendered description, with the code appended.
    pub fn text(&self) -> (r: String)
        ensures
            r@ == self.message@ + " (code: "@ + crate::strutil::spec_decimal(self.code as nat)
                + ")"@,
    {
        let mut s = self.message.clone();
        s.append(" (code: ");
        let digits = crate::strutil::u64_to_string(self.code as u64);
        s.append(digits.as_str());
        s.append(")");
        s
    }
}

/// A generic description for a Win32 error code.
pub fn get_windows_error_message(code: u32) -> (r: String)
    ensures
        r@ == "Windows error code: "@ + crate::strutil::spec_decimal(code as nat),
{
    let mut s = String::from_str("Windows error code: ");
    let digits = crate::strutil::u64_to_string(code as u64);
    s.append(digits.as_str());
    s
}

} // verus!
