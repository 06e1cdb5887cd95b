//! Account addresses.

use vstd::prelude::*;
use anchor_lang::Id;

verus! {

/// Number of bytes in an address.
pub const PUBKEY_BYTES: usize = 32;

/// The address of an account or a program: thirty-two bytes.
#[derive(Clone, Copy, Debug)]
pub struct Pubkey {
    pub bytes: [u8; 32],
}

impl View for Pubkey {
    type V = Seq<u8>;

    open spec fn view(&self) -> Seq<u8> {
        self.bytes@
    }
}

impl PartialEq for Pubkey {
    fn eq(&self, other: &Self) -> (r: bool) {
        let mut i: usize = 0;
        while i < 32
            invariant
                i <= 32,
                forall|j: int| 0 <= j < i ==> self.bytes[j] == other.bytes[j],
            decreases 32 - i,
        {
            if self.bytes[i] != other.bytes[i] {
                return false;
            }
            i += 1;
        }
        assert(self.bytes =~= other.bytes);
        true
    }
}

impl Eq for Pubkey {}

impl vstd::std_specs::cmp::PartialEqSpecImpl for Pubkey {
    open spec fn obeys_eq_spec() -> bool {
        true
    }

    open spec fn eq_spec(&self, other: &Self) -> bool {
        *self == *other
    }
}

impl Pubkey {
    /// The address made of the given bytes.
    pub fn new_from_array(bytes: [u8; 32]) -> (k: Pubkey)
        ensures
            k.bytes == bytes,
    {
        Pubkey { bytes }
    }

    /// The bytes of the address.
    pub fn to_bytes(&self) -> (b: [u8; 32])
        ensures
            b == self.bytes,
    {
        self.bytes
    }

    /// The address of the ledger's system program, which also stands for the
    /// native asset where a mint is expected: every byte of it is zero.
    pub open spec fn spec_system() -> Pubkey {
        Pubkey {
            bytes: [
                0u8, 0u8, 0u8, 0u8, 0u8, 0u8, 0u8, 0u8,
                0u8, 0u8, 0u8, 0u8, 0u8, 0u8, 0u8, 0u8,
                0u8, 0u8, 0u8, 0u8, 0u8, 0u8, 0u8, 0u8,
                0u8, 0u8, 0u8, 0u8, 0u8, 0u8, 0u8, 0u8,
            ],
        }
    }

    /// The address of the system program.
    #[verifier::when_used_as_spec(spec_system)]
    pub fn system() -> (id: Pubkey)
        ensures
            id == Pubkey::spec_system(),
    {
        let id = system_program_id();
        proof {
            assert(Pubkey::spec_system()@ =~= Seq::new(32, |i: int| 0u8));
            lemma_pubkey_ext(id, Pubkey::spec_system());
        }
        id
    }

    /// Whether this is the address of the system program.
    pub open spec fn spec_is_system(&self) -> bool {
        *self == Pubkey::spec_system()
    }

    /// Whether this is the address of the system program.
    #[verifier::when_used_as_spec(spec_is_system)]
    pub fn is_system(&self) -> (r: bool)
        ensures
            r == self.spec_is_system(),
    {
        *self == Pubkey::system()
    }
}

/// Two addresses with the same bytes are the same address.
pub proof fn lemma_pubkey_ext(a: Pubkey, b: Pubkey)
    requires
        a@ == b@,
    ensures
        a == b,
{
    assert(a.bytes =~= b.bytes);
}

/// `anchor_lang::system_program::System::id()`: the address of the system
/// program. Its text form is thirty-two times the digit that base 58 writes
/// for zero, so every one of its bytes is zero.
#[verifier::external_body]
pub(crate) fn system_program_id() -> (id: Pubkey)
    ensures
        id@ == Seq::new(32, |i: int| 0u8),
{
    Pubkey { bytes: anchor_lang::system_program::System::id().to_bytes() }
}

} // verus!
