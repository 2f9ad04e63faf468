//! Account addresses.

use vstd::prelude::*;

verus! {

/// The 32-byte address of an account.
#[derive(Clone, Copy, Debug)]
pub struct Pubkey {
    pub bytes: [u8; 32],
}

impl View for Pubkey {
    type V = Seq<u8>;

    open spec fn view(&self) -> Seq<u8> {
        self.bytes@
    }
}

/// Thirty-two zero bytes.
pub const ZERO_BYTES: [u8; 32] = [
    0, 0, 0, 0, 0, 0, 0, 0, 0, 0, 0, 0, 0, 0, 0, 0, 0, 0, 0, 0, 0, 0, 0, 0, 0, 0, 0, 0, 0, 0, 0, 0,
];

/// The address whose bytes are all zero. It stands for "none".
pub open spec fn no_key() -> Pubkey {
    Pubkey { bytes: ZERO_BYTES }
}

/// Two addresses with the same bytes are the same.
pub proof fn lemma_key_ext(a: Pubkey, b: Pubkey)
    requires
        a@ == b@,
    ensures
        a == b,
{
    assert(a.bytes =~= b.bytes);
}

impl PartialEq for Pubkey {
    fn eq(&self, other: &Self) -> (r: bool) {
        let mut i: usize = 0;
        while i < 32
            invariant
                i <= 32,
                forall|j: int| 0 <= j < i ==> self.bytes[j] == other.bytes[j],
            decreases 32 - i,
        {
            if self.bytes[i] != other.bytes[i] {
                return false;
            }
            i = i + 1;
        }
        assert(self.bytes =~= other.bytes);
        true
    }
}

impl Eq for Pubkey {

}

impl vstd::std_specs::cmp::PartialEqSpecImpl for Pubkey {
    open spec fn obeys_eq_spec() -> bool {
        true
    }

    open spec fn eq_spec(&self, other: &Self) -> bool {
        *self == *other
    }
}

impl Default for Pubkey {
    fn default() -> (r: Pubkey)
        ensures
            r == no_key(),
    {
        Pubkey { bytes: ZERO_BYTES }
    }
}

impl Pubkey {
    /// The address that the 32 bytes of `data` from `at` on spell.
    pub fn read(data: &[u8], at: usize) -> (r: Pubkey)
        requires
            at + 32 <= data@.len(),
        ensures
            r@ == data@.subrange(at as int, at + 32),
    {
        let mut bytes: [u8; 32] = [0; 32];
        let mut i: usize = 0;
        while i < 32
            invariant
                i <= 32,
                at + 32 <= data.len(),
                forall|j: int| 0 <= j < i ==> bytes[j] == data@[at + j],
            decreases 32 - i,
        {
            bytes[i] = data[at + i];
            i = i + 1;
        }
        assert(bytes@ =~= data@.subrange(at as int, at + 32));
        Pubkey { bytes }
    }
}

/// The address that a program derives from `seeds`, where there is one.
pub uninterp spec fn program_address(seeds: Seq<Seq<u8>>, program_id: Seq<u8>) -> Option<Seq<u8>>;

/// Calls `anchor_lang::prelude::Pubkey::try_find_program_address` on the seeds
/// `[seed, key]`. The address that it finds, or its finding none, depends on the
/// seeds and the program alone; the bump that comes with it is left out. Which
/// address it is (a hash off the curve) is not stated.
#[verifier::external_body]
pub(crate) fn find_program_address(seed: &[u8], key: &Pubkey, program_id: &Pubkey) -> (r: Option<
    Pubkey,
>)
    ensures
        program_address(seq![seed@, key@], program_id@) == (match r {
            Some(found) => Some(found@),
            None => None,
        }),
{
    let program = anchor_lang::prelude::Pubkey::new_from_array(program_id.bytes);
    anchor_lang::prelude::Pubkey::try_find_program_address(&[seed, &key.bytes], &program).map(
        |found| Pubkey { bytes: found.0.to_bytes() },
    )
}

} // verus!
