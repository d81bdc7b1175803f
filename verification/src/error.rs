//! The failures that the bundle tools report.
use vstd::prelude::*;
use vstd::string::*;

verus! {

/// The classes of failures.
#[derive(Clone, Copy, Debug, PartialEq, Eq, Structural)]
pub enum ErrorClass {
    SchemaVersionMismatch,
    HashMismatch,
    RebuildMismatch,
    RebuildFailed,
    PlatformUnsupported,
    TraceAgentMismatch,
    ReplayMismatch,
    ReplayUnsupported,
    SignatureVerifyFailed,
    /// A failure outside the named classes.
    Other,
}

/// What every message of the class starts with.
pub open spec fn class_prefix(class: ErrorClass) -> Seq<char> {
    match class {
        ErrorClass::SchemaVersionMismatch => "BundleSchemaVersionMismatch: "@,
        ErrorClass::HashMismatch => "BundleHashMismatch: "@,
        ErrorClass::RebuildMismatch => "BundleRebuildMismatch: "@,
        ErrorClass::RebuildFailed => "BundleRebuildFailed: "@,
        ErrorClass::PlatformUnsupported => "BundlePlatformUnsupported: "@,
        ErrorClass::TraceAgentMismatch => "BundleTraceAgentMismatch: "@,
        ErrorClass::ReplayMismatch => "BundleReplayMismatch: "@,
        ErrorClass::ReplayUnsupported => "BundleReplayUnsupported: "@,
        ErrorClass::SignatureVerifyFailed => "BundleSignatureVerifyFailed: "@,
        ErrorClass::Other => ""@,
    }
}

/// A failure: its class, and the message that names the class first.
#[derive(Debug)]
pub struct BundleError {
    pub class: ErrorClass,
    pub message: String,
}

impl BundleError {
    /// The failure is of this class and says `detail`.
    pub open spec fn says(self, class: ErrorClass, detail: Seq<char>) -> bool {
        &&& self.class == class
        &&& self.message@ == class_prefix(class) + detail
    }

    /// A failure of the class that says `detail`.
    pub fn new(class: ErrorClass, detail: &str) -> (error: BundleError)
        ensures
            error.says(class, detail@),
    {
        let prefix: &'static str = match class {
            ErrorClass::SchemaVersionMismatch => "BundleSchemaVersionMismatch: ",
            ErrorClass::HashMismatch => "BundleHashMismatch: ",
            ErrorClass::RebuildMismatch => "BundleRebuildMismatch: ",
            ErrorClass::RebuildFailed => "BundleRebuildFailed: ",
            ErrorClass::PlatformUnsupported => "BundlePlatformUnsupported: ",
            ErrorClass::TraceAgentMismatch => "BundleTraceAgentMismatch: ",
            ErrorClass::ReplayMismatch => "BundleReplayMismatch: ",
            ErrorClass::ReplayUnsupported => "BundleReplayUnsupported: ",
            ErrorClass::SignatureVerifyFailed => "BundleSignatureVerifyFailed: ",
            ErrorClass::Other => "",
        };
        let mut message: String = String::from_str(prefix);
        message.append(detail);
        BundleError { class, message }
    }
}

} // verus!
