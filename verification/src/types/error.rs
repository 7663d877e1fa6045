//! Error types.
use vstd::prelude::*;

verus! {

/// Error from a `TryFrom` or `FromStr` implementation.
#[derive(Clone, Debug)]
pub struct ConversionError(String);

impl ConversionError {
    pub closed spec fn text(&self) -> Seq<char> {
        self.0@
    }

    /// An error with the given message.
    pub fn new(message: &str) -> (r: Self)
        ensures
            r.text() == message@,
    {
        ConversionError(String::from_str(message))
    }

    /// The message of the error, as it displays.
    pub fn message(&self) -> (r: &str)
        ensures
            r@ == self.text(),
    {
        self.0.as_str()
    }
}

impl From<&'static str> for ConversionError {
    /// An error with the given message.
    fn from(value: &'static str) -> (r: Self)
        ensures
            r.text() == value@,
    {
        ConversionError(String::from_str(value))
    }
}

/// Verus's model of `String` does not tell two strings with the same text
/// apart, so no single value can be named here as the result: the conversion
/// is described by the `ensures` of its `from`, by the text of the message.
impl vstd::std_specs::convert::FromSpecImpl<&'static str> for ConversionError {
    open spec fn obeys_from_spec() -> bool {
        false
    }

    closed spec fn from_spec(v: &'static str) -> Self {
        choose|e: ConversionError| e.text() == v@
    }
}

impl From<String> for ConversionError {
    fn from(value: String) -> (r: Self) {
        ConversionError(value)
    }
}

impl vstd::std_specs::convert::FromSpecImpl<String> for ConversionError {
    open spec fn obeys_from_spec() -> bool {
        true
    }

    closed spec fn from_spec(v: String) -> Self {
        ConversionError(v)
    }
}

} // verus!
