//! Account addresses and the deterministic derivation of escrow addresses.

use vstd::prelude::*;
use anchor_lang::prelude::Pubkey;

verus! {

/// The identity of an account, a party or an asset: 32 opaque bytes.
#[derive(Clone, Copy, Debug)]
pub struct Address {
    pub bytes: [u8; 32],
}

impl View for Address {
    type V = Seq<u8>;

    open spec fn view(&self) -> Seq<u8> {
        self.bytes@
    }
}

impl Address {
    /// Wraps 32 bytes as an address.
    pub fn new(bytes: [u8; 32]) -> (address: Address)
        ensures
            address.bytes == bytes,
            address@ == bytes@,
    {
        Address { bytes }
    }

    /// The 32 bytes of the address.
    pub fn to_bytes(&self) -> (bytes: [u8; 32])
        ensures
            bytes == self.bytes,
            bytes@ == self@,
    {
        self.bytes
    }

    /// Two addresses are the same value exactly when their bytes agree.
    pub proof fn lemma_view_injective(a: Address, b: Address)
        ensures
            (a@ == b@) <==> (a == b),
    {
        broadcast use vstd::array::group_array_axioms;

        if a@ == b@ {
            assert(a.bytes =~= b.bytes);
        }
    }

    /// Compares two addresses byte by byte.
    pub fn same(&self, other: &Address) -> (equal: bool)
        ensures
            equal == (*self == *other),
            equal == (self@ == other@),
    {
        let mut i: usize = 0;
        while i < 32
            invariant
                0 <= i <= 32,
                forall|j: int| 0 <= j < i ==> self.bytes[j] == other.bytes[j],
            decreases 32 - i,
        {
            if self.bytes[i] != other.bytes[i] {
                proof {
                    Address::lemma_view_injective(*self, *other);
                }
                return false;
            }
            i += 1;
        }
        proof {
            assert(self@ =~= other@);
            Address::lemma_view_injective(*self, *other);
        }
        true
    }
    /// The bytes of the address as a vector.
    pub fn to_vec(&self) -> (bytes: Vec<u8>)
        ensures
            bytes@ == self@,
    {
        let mut bytes: Vec<u8> = Vec::new();
        let mut i: usize = 0;
        while i < 32
            invariant
                0 <= i <= 32,
                bytes@ == self@.subrange(0, i as int),
            decreases 32 - i,
        {
            bytes.push(self.bytes[i]);
            assert(bytes@ =~= self@.subrange(0, i + 1));
            i += 1;
        }
        assert(bytes@ =~= self@);
        bytes
    }
}

/// What the ledger substrate derives from `seeds` under the program
/// `program_id`: the derived address and the bump seed that completes it, or
/// nothing when no address can be derived.
pub uninterp spec fn program_address(seeds: Seq<Seq<u8>>, program_id: Seq<u8>) -> Option<
    (Seq<u8>, u8),
>;

/// Calls `Pubkey::try_find_program_address` of `solana_program`, as
/// `anchor_lang` exports it.
///
/// Trusted: the call computes a hash of the seeds and the program and tests
/// it against a curve, so it is a function of its arguments, and its result
/// is the value that `program_address` names for these seeds and this
/// program. It reports seeds that it cannot use by returning nothing. Nothing
/// is claimed about which address comes out.
#[verifier::external_body]
fn find_program_address(seeds: &Vec<Vec<u8>>, program_id: &Address) -> (found: Option<
    (Address, u8),
>)
    ensures
        match found {
            Some((address, bump)) => program_address(seeds.deep_view(), program_id@) == Some(
                (address@, bump),
            ),
            None => program_address(seeds.deep_view(), program_id@) is None,
        },
{
    let parts: Vec<&[u8]> = seeds.iter().map(|seed| seed.as_slice()).collect();
    let program = Pubkey::new_from_array(program_id.bytes);
    match Pubkey::try_find_program_address(&parts, &program) {
        Some((key, bump)) => Some((Address { bytes: key.to_bytes() }, bump)),
        None => None,
    }
}

/// The seed that marks a stream record: the ASCII bytes of `stream`.
pub open spec fn stream_tag() -> Seq<u8> {
    seq![115u8, 116u8, 114u8, 101u8, 97u8, 109u8]
}

/// The seed that marks a vault: the ASCII bytes of `vault`.
pub open spec fn vault_tag() -> Seq<u8> {
    seq![118u8, 97u8, 117u8, 108u8, 116u8]
}

/// The seeds of the record of the stream from `sender` to `recipient`.
pub open spec fn stream_seeds(sender: Seq<u8>, recipient: Seq<u8>) -> Seq<Seq<u8>> {
    seq![stream_tag(), sender, recipient]
}

/// The seeds of the vault of the stream whose record lives at `stream`.
pub open spec fn vault_seeds(stream: Seq<u8>) -> Seq<Seq<u8>> {
    seq![vault_tag(), stream]
}

/// Whether `candidate` is what a derivation `found`.
pub open spec fn is_derived(found: Option<(Seq<u8>, u8)>, candidate: Address) -> bool {
    found matches Some((bytes, _)) && bytes == candidate@
}

/// Whether `candidate` is the address of the record of the stream from
/// `sender` to `recipient` under `program`.
pub open spec fn is_stream_address(
    program: Address,
    sender: Address,
    recipient: Address,
    candidate: Address,
) -> bool {
    is_derived(program_address(stream_seeds(sender@, recipient@), program@), candidate)
}

/// Whether `candidate` is the address of the vault of the stream whose record
/// lives at `stream`, under `program`.
pub open spec fn is_vault_address(program: Address, stream: Address, candidate: Address) -> bool {
    is_derived(program_address(vault_seeds(stream@), program@), candidate)
}

/// Whether the optional address `derived` reports the derivation `found`.
pub open spec fn reports(derived: Option<Address>, found: Option<(Seq<u8>, u8)>) -> bool {
    match derived {
        Some(address) => is_derived(found, address),
        None => found is None,
    }
}

/// The address of the record of the stream from `sender` to `recipient`, if
/// one can be derived.
pub fn stream_address(program: &Address, sender: &Address, recipient: &Address) -> (derived:
    Option<Address>)
    ensures
        reports(derived, program_address(stream_seeds(sender@, recipient@), program@)),
        forall|candidate: Address|
            is_stream_address(*program, *sender, *recipient, candidate) <==> derived == Some(
                candidate,
            ),
{
    let mut seeds: Vec<Vec<u8>> = Vec::new();
    seeds.push(vec![115u8, 116u8, 114u8, 101u8, 97u8, 109u8]);
    seeds.push(sender.to_vec());
    seeds.push(recipient.to_vec());
    assert(seeds.deep_view() =~~= stream_seeds(sender@, recipient@));
    let derived = match find_program_address(&seeds, program) {
        Some((address, _)) => Some(address),
        None => None,
    };
    proof {
        assert forall|candidate: Address|
            is_stream_address(*program, *sender, *recipient, candidate) <==> derived == Some(
                candidate,
            ) by {
            if let Some(address) = derived {
                Address::lemma_view_injective(address, candidate);
            }
        }
    }
    derived
}

/// The address of the vault of the stream whose record lives at `stream`, if
/// one can be derived.
pub fn vault_address(program: &Address, stream: &Address) -> (derived: Option<Address>)
    ensures
        reports(derived, program_address(vault_seeds(stream@), program@)),
        forall|candidate: Address|
            is_vault_address(*program, *stream, candidate) <==> derived == Some(candidate),
{
    let mut seeds: Vec<Vec<u8>> = Vec::new();
    seeds.push(vec![118u8, 97u8, 117u8, 108u8, 116u8]);
    seeds.push(stream.to_vec());
    assert(seeds.deep_view() =~~= vault_seeds(stream@));
    let derived = match find_program_address(&seeds, program) {
        Some((address, _)) => Some(address),
        None => None,
    };
    proof {
        assert forall|candidate: Address|
            is_vault_address(*program, *stream, candidate) <==> derived == Some(candidate) by {
            if let Some(address) = derived {
                Address::lemma_view_injective(address, candidate);
            }
        }
    }
    derived
}

} // verus!
