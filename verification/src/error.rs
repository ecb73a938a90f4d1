//! The ways in which registration and synthesis fail.
use vstd::prelude::*;
use vstd::string::StringExecFns;
use crate::text::{append_decimal, decimal_text};

verus! {

/// A failure of registration or synthesis. Each is terminal for the build.
#[derive(Debug, Clone, PartialEq, Eq)]
pub enum Error {
    /// The method's configuration is not exactly one `opcode = <u8 literal>`.
    MalformedAttribute,
    /// Another method has already claimed this opcode.
    DuplicateOpcode { opcode: u8 },
    /// A parameter of the named method is not bound by a simple identifier.
    UnsupportedParameterPattern { method: String },
    /// A method was declared after the entry point had been synthesized.
    RegistrationAfterClose,
    /// The entry point had already been synthesized.
    EntryAlreadySynthesized,
}

impl Error {
    /// The text of [`Error::message`]. A duplicate opcode is named by its
    /// decimal numeral, an unsupported parameter by its method.
    pub open spec fn message_text(&self) -> Seq<char> {
        match self {
            Error::MalformedAttribute => "expected exactly one argument `opcode = <u8>`"@,
            Error::DuplicateOpcode { opcode } => "opcodes needs to be unique per contract (`"@
                + decimal_text(*opcode as nat) + "` already exists)"@,
            Error::UnsupportedParameterPattern { method } =>
                "You have to use simple identifiers for delegated method parameters ("@ + method@
                + ")"@,
            Error::RegistrationAfterClose =>
                "::main already called; methods need to be declared first."@,
            Error::EntryAlreadySynthesized => "::main already called; it can be declared only once."@,
        }
    }

    /// A message for the person who reads the build's output.
    pub fn message(&self) -> (m: String)
        ensures
            m@ == self.message_text(),
    {
        match self {
            Error::MalformedAttribute => String::from_str(
                "expected exactly one argument `opcode = <u8>`",
            ),
            Error::DuplicateOpcode { opcode } => {
                let mut m = String::from_str("opcodes needs to be unique per contract (`");
                append_decimal(&mut m, *opcode);
                m.append("` already exists)");
                m
            },
            Error::UnsupportedParameterPattern { method } => {
                let mut m = String::from_str(
                    "You have to use simple identifiers for delegated method parameters (",
                );
                m.append(method.as_str());
                m.append(")");
                m
            },
            Error::RegistrationAfterClose => String::from_str(
                "::main already called; methods need to be declared first.",
            ),
            Error::EntryAlreadySynthesized => String::from_str(
                "::main already called; it can be declared only once.",
            ),
        }
    }
}

} // verus!
