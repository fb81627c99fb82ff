//! Account addresses: 32 bytes, compared byte by byte.

use vstd::prelude::*;
use vstd::std_specs::cmp::PartialEqSpecImpl;
use anchor_lang::prelude::Pubkey;
use std::str::FromStr;

verus! {

/// The address of an account: 32 bytes.
#[derive(Clone, Copy, Debug, Hash)]
pub struct Address {
    /// The bytes of the address, first byte first.
    pub bytes: [u8; 32],
}

impl View for Address {
    type V = Seq<u8>;

    open spec fn view(&self) -> Seq<u8> {
        self.bytes@
    }
}

/// `n` zero bytes.
pub open spec fn zeros(n: nat) -> Seq<u8> {
    Seq::new(n, |i: int| 0u8)
}

/// Whether two byte strings agree on their first `n` bytes.
pub open spec fn agree_before(a: Seq<u8>, b: Seq<u8>, n: int) -> bool {
    forall|j: int| 0 <= j < n ==> a[j] == b[j]
}

/// Whether `a` comes before `b` in the order of the dictionary: at the first
/// place where the two differ, `a` holds the smaller byte.
pub open spec fn precedes(a: Seq<u8>, b: Seq<u8>) -> bool {
    exists|i: int| 0 <= i < 32 && #[trigger] agree_before(a, b, i) && a[i] < b[i]
}

impl PartialEq for Address {
    fn eq(&self, other: &Address) -> (r: bool) {
        let mut i: usize = 0;
        while i < 32
            invariant
                i <= 32,
                agree_before(self@, other@, i as int),
            decreases 32 - i,
        {
            if self.bytes[i] != other.bytes[i] {
                return false;
            }
            i = i + 1;
        }
        assert(self@ =~= other@);
        true
    }
}

impl PartialEqSpecImpl for Address {
    open spec fn obeys_eq_spec() -> bool {
        true
    }

    open spec fn eq_spec(&self, other: &Address) -> bool {
        self@ == other@
    }
}

impl Eq for Address {

}

impl Default for Address {
    fn default() -> (r: Self)
        ensures
            r@ == zeros(32),
    {
        let r = Address { bytes: [0u8; 32] };
        assert(r@ =~= zeros(32));
        r
    }
}

impl Address {
    /// The address made of the given bytes.
    pub fn new_from_array(bytes: [u8; 32]) -> (r: Self)
        ensures
            r.bytes == bytes,
    {
        Address { bytes }
    }

    /// The bytes of the address.
    pub fn to_bytes(&self) -> (r: [u8; 32])
        ensures
            r == self.bytes,
    {
        self.bytes
    }

    /// The bytes of the address as a vector.
    pub fn to_vec(&self) -> (r: Vec<u8>)
        ensures
            r@ == self@,
    {
        let mut out: Vec<u8> = Vec::with_capacity(32);
        let mut i: usize = 0;
        while i < 32
            invariant
                i <= 32,
                out@ == self@.take(i as int),
            decreases 32 - i,
        {
            out.push(self.bytes[i]);
            i = i + 1;
        }
        assert(self@.take(32) =~= self@);
        out
    }

    /// Whether this address comes before `other`, comparing byte by byte
    /// from the first.
    pub fn is_before(&self, other: &Address) -> (r: bool)
        ensures
            r == precedes(self@, other@),
    {
        let mut i: usize = 0;
        while i < 32
            invariant
                i <= 32,
                agree_before(self@, other@, i as int),
            decreases 32 - i,
        {
            if self.bytes[i] < other.bytes[i] {
                return true;
            }
            if self.bytes[i] > other.bytes[i] {
                proof {
                    lemma_first_difference_decides(self@, other@, i as int);
                }
                return false;
            }
            i = i + 1;
        }
        proof {
            assert forall|k: int| 0 <= k < 32 && #[trigger] agree_before(self@, other@, k) implies !(
            self@[k] < other@[k]) by {}
        }
        false
    }
}

/// Where two byte strings first differ and the first holds the larger byte,
/// the first does not come before the second.
proof fn lemma_first_difference_decides(a: Seq<u8>, b: Seq<u8>, i: int)
    requires
        0 <= i < 32,
        agree_before(a, b, i),
        a[i] > b[i],
    ensures
        !precedes(a, b),
        precedes(b, a),
{
    assert forall|k: int| 0 <= k < 32 && #[trigger] agree_before(a, b, k) implies !(a[k] < b[k]) by {
        if k > i {
            assert(a[i] == b[i]);
        }
    }
    assert(agree_before(b, a, i));
}

/// The order of addresses is strict: no address comes before itself, and of
/// two addresses at most one comes before the other.
pub proof fn lemma_precedes_is_strict(a: Address, b: Address)
    ensures
        !precedes(a@, a@),
        !(precedes(a@, b@) && precedes(b@, a@)),
{
    if precedes(a@, b@) && precedes(b@, a@) {
        let i = choose|i: int| 0 <= i < 32 && #[trigger] agree_before(a@, b@, i) && a@[i] < b@[i];
        let k = choose|k: int| 0 <= k < 32 && #[trigger] agree_before(b@, a@, k) && b@[k] < a@[k];
        if i < k {
            assert(b@[i] == a@[i]);
        } else if k < i {
            assert(a@[k] == b@[k]);
        }
    }
}

/// The order of addresses is total: of two different addresses one comes
/// before the other.
pub proof fn lemma_precedes_is_total(a: Address, b: Address)
    ensures
        a@ != b@ ==> precedes(a@, b@) || precedes(b@, a@),
        a@ == b@ <==> a == b,
{
    lemma_differ_somewhere(a@, b@, 0);
    assert(a@ == b@ ==> a.bytes =~= b.bytes);
}

/// The program-derived address of a list of seeds under a program, with its
/// bump seed: the first address off the curve that hashing the seeds, a bump
/// counted down from 255, and the program's address yields. `None` where no
/// bump yields one, where there are more than 15 seeds, and where a seed is
/// longer than 32 bytes.
pub uninterp spec fn program_address(seeds: Seq<Seq<u8>>, program_id: Seq<u8>) -> Option<
    (Seq<u8>, u8),
>;

/// The address that a base-58 text stands for. `None` where the text is not
/// base-58 or does not decode to 32 bytes.
pub uninterp spec fn base58_address(text: Seq<char>) -> Option<Seq<u8>>;

/// Whether `found` is the program-derived address of `seeds` under
/// `program_id`.
pub open spec fn is_program_address(
    found: Option<(Address, u8)>,
    seeds: Seq<Seq<u8>>,
    program_id: Seq<u8>,
) -> bool {
    match found {
        Some((address, bump)) => program_address(seeds, program_id) == Some((address@, bump)),
        None => program_address(seeds, program_id) is None,
    }
}

/// Whether `found` is the address that the base-58 `text` stands for.
pub open spec fn is_base58_address(found: Option<Address>, text: Seq<char>) -> bool {
    match found {
        Some(address) => base58_address(text) == Some(address@),
        None => base58_address(text) is None,
    }
}

/// Derive a program address with `Pubkey::try_find_program_address`, which
/// depends on the seeds and the program's address alone. The contract names
/// the result.
#[verifier::external_body]
pub(crate) fn find_program_address(seeds: &Vec<Vec<u8>>, program_id: &Address) -> (found: Option<
    (Address, u8),
>)
    ensures
        match found {
            Some((address, bump)) => program_address(seeds.deep_view(), program_id@) == Some(
                (address@, bump),
            ),
            None => program_address(seeds.deep_view(), program_id@) is None,
        },
{
    let parts: Vec<&[u8]> = seeds.iter().map(|seed| seed.as_slice()).collect();
    let program = Pubkey::new_from_array(program_id.bytes);
    match Pubkey::try_find_program_address(&parts, &program) {
        Some((key, bump)) => Some((Address { bytes: key.to_bytes() }, bump)),
        None => None,
    }
}

/// Parse a base-58 address with `Pubkey::from_str`. The contract names the
/// result.
#[verifier::external_body]
pub(crate) fn parse_address(text: &str) -> (found: Option<Address>)
    ensures
        match found {
            Some(address) => base58_address(text@) == Some(address@),
            None => base58_address(text@) is None,
        },
{
    match Pubkey::from_str(text) {
        Ok(key) => Some(Address { bytes: key.to_bytes() }),
        Err(_) => None,
    }
}

/// Two 32-byte strings that agree before place `from` are equal or ordered.
proof fn lemma_differ_somewhere(a: Seq<u8>, b: Seq<u8>, from: int)
    requires
        a.len() == 32,
        b.len() == 32,
        0 <= from <= 32,
        agree_before(a, b, from),
    ensures
        a == b || precedes(a, b) || precedes(b, a),
    decreases 32 - from,
{
    if from == 32 {
        assert(a =~= b);
    } else if a[from] < b[from] {
    } else if a[from] > b[from] {
        lemma_first_difference_decides(a, b, from);
    } else {
        lemma_differ_somewhere(a, b, from + 1);
    }
}

} // verus!
