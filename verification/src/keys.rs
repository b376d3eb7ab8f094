//! Account addresses: 32-byte identities of wallets, assets and program
//! accounts, and the fixed addresses this program recognises.

use vstd::prelude::*;

verus! {

/// A 32-byte account address.
///
/// Two addresses are the same exactly when all 32 bytes agree.
#[derive(Clone, Copy, Debug)]
pub struct Pubkey {
    pub bytes: [u8; 32],
}

impl Pubkey {
    /// Builds an address from its bytes.
    pub fn new_from_array(bytes: [u8; 32]) -> (key: Pubkey)
        ensures
            key.bytes == bytes,
    {
        Pubkey { bytes }
    }

    /// The bytes of the address.
    pub fn to_bytes(&self) -> (bytes: [u8; 32])
        ensures
            bytes == self.bytes,
    {
        self.bytes
    }

    /// Two addresses with the same bytes are the same address.
    pub proof fn lemma_same_bytes(a: Pubkey, b: Pubkey)
        requires
            forall|j: int| 0 <= j < 32 ==> a.bytes[j] == b.bytes[j],
        ensures
            a == b,
    {
        assert(a.bytes@ =~= b.bytes@);
        assert(a.bytes == b.bytes);
    }
}

impl PartialEq for Pubkey {
    fn eq(&self, other: &Pubkey) -> (same: bool) {
        let mut i: usize = 0;
        while i < 32
            invariant
                i <= 32,
                forall|j: int| 0 <= j < i ==> self.bytes[j] == other.bytes[j],
            decreases 32 - i,
        {
            if self.bytes[i] != other.bytes[i] {
                return false;
            }
            i += 1;
        }
        proof {
            Pubkey::lemma_same_bytes(*self, *other);
        }
        true
    }
}

impl Eq for Pubkey {}

impl vstd::std_specs::cmp::PartialEqSpecImpl for Pubkey {
    open spec fn obeys_eq_spec() -> bool {
        true
    }

    open spec fn eq_spec(&self, other: &Pubkey) -> bool {
        *self == *other
    }
}

/// The address this program is deployed at. Accounts that the program owns
/// carry it as their owner.
pub open spec fn program_id_value() -> Pubkey {
    Pubkey {
        bytes: [
            121, 138, 165, 128, 242, 121, 50, 15, 63, 130, 142, 147, 244, 75, 151, 8,
            181, 138, 112, 30, 207, 246, 241, 230, 218, 254, 58, 162, 146, 60, 85, 103,
        ],
    }
}

/// The address of the administrative authority. It may sweep a finished
/// curve and claim on a creator's behalf, and it administers streamer
/// identities and fee recipients.
pub open spec fn authority_value() -> Pubkey {
    Pubkey {
        bytes: [
            89, 43, 72, 84, 56, 44, 116, 9, 23, 28, 152, 120, 8, 165, 237, 189,
            245, 224, 180, 56, 160, 155, 218, 7, 255, 112, 201, 131, 64, 115, 193, 84,
        ],
    }
}

/// The program's own address.
#[verifier::when_used_as_spec(program_id_value)]
pub fn program_id() -> (key: Pubkey)
    ensures
        key == program_id_value(),
{
    Pubkey {
        bytes: [
            121, 138, 165, 128, 242, 121, 50, 15, 63, 130, 142, 147, 244, 75, 151, 8,
            181, 138, 112, 30, 207, 246, 241, 230, 218, 254, 58, 162, 146, 60, 85, 103,
        ],
    }
}

/// The address that may withdraw from a finished curve.
#[verifier::when_used_as_spec(authority_value)]
pub fn withdraw_authority() -> (key: Pubkey)
    ensures
        key == authority_value(),
{
    Pubkey {
        bytes: [
            89, 43, 72, 84, 56, 44, 116, 9, 23, 28, 152, 120, 8, 165, 237, 189,
            245, 224, 180, 56, 160, 155, 218, 7, 255, 112, 201, 131, 64, 115, 193, 84,
        ],
    }
}

/// The address that administers streamer identities and fee recipients.
#[verifier::when_used_as_spec(authority_value)]
pub fn platform_authority() -> (key: Pubkey)
    ensures
        key == authority_value(),
{
    withdraw_authority()
}

/// The tag that the address of a curve's account is derived from:
/// the ASCII text `bonding-curve`.
pub open spec fn curve_tag() -> Seq<u8> {
    seq![98u8, 111, 110, 100, 105, 110, 103, 45, 99, 117, 114, 118, 101]
}

/// The tag that the address of a message list's account is derived from:
/// the ASCII text `message-list`.
pub open spec fn msglist_tag() -> Seq<u8> {
    seq![109u8, 101, 115, 115, 97, 103, 101, 45, 108, 105, 115, 116]
}

/// A copy of the 32 bytes of an address.
fn key_bytes(key: &Pubkey) -> (bytes: Vec<u8>)
    ensures
        bytes@ == key.bytes@,
{
    let mut bytes: Vec<u8> = Vec::new();
    let mut i: usize = 0;
    while i < 32
        invariant
            i <= 32,
            bytes@ == key.bytes@.subrange(0, i as int),
        decreases 32 - i,
    {
        bytes.push(key.bytes[i]);
        proof {
            assert(bytes@ =~= key.bytes@.subrange(0, i + 1));
        }
        i += 1;
    }
    proof {
        assert(bytes@ =~= key.bytes@);
    }
    bytes
}

/// The seeds of the address of the curve of the asset `mint`: the curve
/// tag, the asset's address, and the bump.
pub fn curve_seeds(mint: &Pubkey, bump: &[u8; 1]) -> (seeds: Vec<Vec<u8>>)
    ensures
        seeds@.len() == 3,
        seeds@[0]@ == curve_tag(),
        seeds@[1]@ == mint.bytes@,
        seeds@[2]@ == bump@,
{
    let tag: Vec<u8> = vec![98u8, 111, 110, 100, 105, 110, 103, 45, 99, 117, 114, 118, 101];
    let last: Vec<u8> = vec![bump[0]];
    proof {
        assert(tag@ =~= curve_tag());
        assert(last@ =~= bump@);
    }
    let mut seeds: Vec<Vec<u8>> = Vec::new();
    seeds.push(tag);
    seeds.push(key_bytes(mint));
    seeds.push(last);
    seeds
}

/// The seeds of the address of the message list of the asset `mint`: the
/// message list tag, the asset's address, and the bump.
pub fn msglist_seeds(mint: &Pubkey, bump: &[u8; 1]) -> (seeds: Vec<Vec<u8>>)
    ensures
        seeds@.len() == 3,
        seeds@[0]@ == msglist_tag(),
        seeds@[1]@ == mint.bytes@,
        seeds@[2]@ == bump@,
{
    let tag: Vec<u8> = vec![109u8, 101, 115, 115, 97, 103, 101, 45, 108, 105, 115, 116];
    let last: Vec<u8> = vec![bump[0]];
    proof {
        assert(tag@ =~= msglist_tag());
        assert(last@ =~= bump@);
    }
    let mut seeds: Vec<Vec<u8>> = Vec::new();
    seeds.push(tag);
    seeds.push(key_bytes(mint));
    seeds.push(last);
    seeds
}

} // verus!
