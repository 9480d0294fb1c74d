use vstd::prelude::*;

verus! {

/// The kind of value that a characteristic holds, as the wire names it.
#[derive(Clone, Copy, Debug, PartialEq, Eq, Structural)]
pub enum Format {
    String,
    Bool,
    Float,
    UInt8,
    UInt16,
    UInt32,
    UInt64,
    Int32,
    Tlv8,
    Data,
}

impl Format {
    /// The name of the format on the wire.
    pub open spec fn wire_name(self) -> Seq<char> {
        match self {
            Format::String => "string"@,
            Format::Bool => "bool"@,
            Format::Float => "float"@,
            Format::UInt8 => "uint8"@,
            Format::UInt16 => "uint16"@,
            Format::UInt32 => "uint32"@,
            Format::UInt64 => "uint64"@,
            Format::Int32 => "int32"@,
            Format::Tlv8 => "tlv8"@,
            Format::Data => "data"@,
        }
    }

    /// The name of the format on the wire.
    pub fn as_str(&self) -> (s: &'static str)
        ensures
            s@ == self.wire_name(),
    {
        match self {
            Format::String => "string",
            Format::Bool => "bool",
            Format::Float => "float",
            Format::UInt8 => "uint8",
            Format::UInt16 => "uint16",
            Format::UInt32 => "uint32",
            Format::UInt64 => "uint64",
            Format::Int32 => "int32",
            Format::Tlv8 => "tlv8",
            Format::Data => "data",
        }
    }

    /// No two formats share a wire name.
    pub proof fn lemma_wire_name_injective(a: Format, b: Format)
        requires
            a.wire_name() == b.wire_name(),
        ensures
            a == b,
    {
        reveal_strlit("string");
        reveal_strlit("bool");
        reveal_strlit("float");
        reveal_strlit("uint8");
        reveal_strlit("uint16");
        reveal_strlit("uint32");
        reveal_strlit("uint64");
        reveal_strlit("int32");
        reveal_strlit("tlv8");
        reveal_strlit("data");
        assert("string"@[0] == 's');
        assert("bool"@[0] == 'b');
        assert("float"@[0] == 'f');
        assert("uint8"@[0] == 'u' && "uint8"@.len() == 5);
        assert("uint16"@[0] == 'u' && "uint16"@[4] == '1' && "uint16"@.len() == 6);
        assert("uint32"@[0] == 'u' && "uint32"@[4] == '3' && "uint32"@.len() == 6);
        assert("uint64"@[0] == 'u' && "uint64"@[4] == '6' && "uint64"@.len() == 6);
        assert("int32"@[0] == 'i');
        assert("tlv8"@[0] == 't');
        assert("data"@[0] == 'd');
    }
}

impl Default for Format {
    /// A characteristic is a string unless it says otherwise.
    fn default() -> (f: Format)
        ensures
            f == Format::String,
    {
        Format::String
    }
}

} // verus!
