use vstd::prelude::*;

verus! {

/// What a controller may do with a characteristic.
#[derive(Clone, Copy, Debug, PartialEq, Eq, Structural)]
pub enum Perm {
    PairedRead,
    PairedWrite,
    Events,
    AdditionalAuthorization,
    TimedWrite,
    Hidden,
}

impl Perm {
    /// The name of the permission on the wire.
    pub open spec fn wire_name(self) -> Seq<char> {
        match self {
            Perm::PairedRead => "pr"@,
            Perm::PairedWrite => "pw"@,
            Perm::Events => "ev"@,
            Perm::AdditionalAuthorization => "aa"@,
            Perm::TimedWrite => "tw"@,
            Perm::Hidden => "hd"@,
        }
    }

    /// The name of the permission on the wire.
    pub fn as_str(&self) -> (s: &'static str)
        ensures
            s@ == self.wire_name(),
    {
        match self {
            Perm::PairedRead => "pr",
            Perm::PairedWrite => "pw",
            Perm::Events => "ev",
            Perm::AdditionalAuthorization => "aa",
            Perm::TimedWrite => "tw",
            Perm::Hidden => "hd",
        }
    }

    /// No two permissions share a wire name.
    pub proof fn lemma_wire_name_injective(a: Perm, b: Perm)
        requires
            a.wire_name() == b.wire_name(),
        ensures
            a == b,
    {
        reveal_strlit("pr");
        reveal_strlit("pw");
        reveal_strlit("ev");
        reveal_strlit("aa");
        reveal_strlit("tw");
        reveal_strlit("hd");
        assert("pr"@[0] == 'p' && "pr"@[1] == 'r');
        assert("pw"@[0] == 'p' && "pw"@[1] == 'w');
        assert("ev"@[0] == 'e');
        assert("aa"@[0] == 'a');
        assert("tw"@[0] == 't');
        assert("hd"@[0] == 'h');
    }
}

} // verus!
