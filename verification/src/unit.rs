use vstd::prelude::*;

verus! {

/// The physical unit of a numeric characteristic.
#[derive(Clone, Copy, Debug, PartialEq, Eq, Structural)]
pub enum Unit {
    Percentage,
    ArcDegrees,
    Celsius,
    Lux,
    Seconds,
}

impl Unit {
    /// The name of the unit on the wire.
    pub open spec fn wire_name(self) -> Seq<char> {
        match self {
            Unit::Percentage => "percentage"@,
            Unit::ArcDegrees => "arcdegrees"@,
            Unit::Celsius => "celsius"@,
            Unit::Lux => "lux"@,
            Unit::Seconds => "seconds"@,
        }
    }

    /// The name of the unit on the wire.
    pub fn as_str(&self) -> (s: &'static str)
        ensures
            s@ == self.wire_name(),
    {
        match self {
            Unit::Percentage => "percentage",
            Unit::ArcDegrees => "arcdegrees",
            Unit::Celsius => "celsius",
            Unit::Lux => "lux",
            Unit::Seconds => "seconds",
        }
    }

    /// No two units share a wire name.
    pub proof fn lemma_wire_name_injective(a: Unit, b: Unit)
        requires
            a.wire_name() == b.wire_name(),
        ensures
            a == b,
    {
        reveal_strlit("percentage");
        reveal_strlit("arcdegrees");
        reveal_strlit("celsius");
        reveal_strlit("lux");
        reveal_strlit("seconds");
        assert("percentage"@[0] == 'p');
        assert("arcdegrees"@[0] == 'a');
        assert("celsius"@[0] == 'c');
        assert("lux"@[0] == 'l');
        assert("seconds"@[0] == 's');
    }
}

} // verus!
