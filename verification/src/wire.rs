//! The one protocol-specific notion the writer knows: a wire-type tag,
//! named so the emitted guard can reference the runtime library's constant
//! for it.
use vstd::prelude::*;

verus! {

/// A wire-type tag: how a serialized message field's bytes are encoded.
/// The writer only ever needs the tag's name, to interpolate into an
/// emitted comparison.
#[derive(Clone, Copy, PartialEq, Eq, Debug)]
pub enum WireType {
    WireTypeVarint,
    WireTypeFixed64,
    WireTypeLengthDelimited,
    WireTypeStartGroup,
    WireTypeEndGroup,
    WireTypeFixed32,
}

impl WireType {
    /// The tag's name, as the runtime library spells it.
    pub open spec fn spec_name(self) -> Seq<char> {
        match self {
            WireType::WireTypeVarint => "WireTypeVarint"@,
            WireType::WireTypeFixed64 => "WireTypeFixed64"@,
            WireType::WireTypeLengthDelimited => "WireTypeLengthDelimited"@,
            WireType::WireTypeStartGroup => "WireTypeStartGroup"@,
            WireType::WireTypeEndGroup => "WireTypeEndGroup"@,
            WireType::WireTypeFixed32 => "WireTypeFixed32"@,
        }
    }

    /// The tag's name as a borrowed string.
    pub fn name(&self) -> (r: &'static str)
        ensures
            r@ == self.spec_name(),
    {
        match self {
            WireType::WireTypeVarint => "WireTypeVarint",
            WireType::WireTypeFixed64 => "WireTypeFixed64",
            WireType::WireTypeLengthDelimited => "WireTypeLengthDelimited",
            WireType::WireTypeStartGroup => "WireTypeStartGroup",
            WireType::WireTypeEndGroup => "WireTypeEndGroup",
            WireType::WireTypeFixed32 => "WireTypeFixed32",
        }
    }
}

} // verus!
