use vstd::prelude::*;

verus! {

/// Seed of the marketplace configuration account's program-derived address.
pub const MARKETPLACE_SEED: [u8; 11] = [109, 97, 114, 107, 101, 116, 112, 108, 97, 99, 101];

/// Seed of a listing account's program-derived address (followed by the asset key and the bump).
pub const LISTING_SEED: [u8; 7] = [108, 105, 115, 116, 105, 110, 103];

/// An account address: 32 bytes.
#[derive(Clone, Copy, Debug, PartialEq, Eq)]
pub struct Pubkey {
    pub bytes: [u8; 32],
}

impl View for Pubkey {
    type V = Seq<u8>;

    open spec fn view(&self) -> Seq<u8> {
        self.bytes@
    }
}

impl Pubkey {
    pub fn new(bytes: [u8; 32]) -> (k: Pubkey)
        ensures
            k@ == bytes@,
    {
        Pubkey { bytes }
    }
}

/// Byte-wise equality of two keys (what `require_keys_eq!` compares).
pub fn keys_eq(a: &Pubkey, b: &Pubkey) -> (r: bool)
    ensures
        r == (a@ == b@),
{
    let mut i: usize = 0;
    while i < 32
        invariant
            i <= 32,
            forall|j: int| 0 <= j < i ==> a.bytes@[j] == b.bytes@[j],
        decreases 32 - i,
    {
        if a.bytes[i] != b.bytes[i] {
            assert(a@[i as int] != b@[i as int]);
            return false;
        }
        i = i + 1;
    }
    assert(a@ =~= b@);
    true
}

/// The base58 alphabet (Bitcoin's, which Solana uses).
pub open spec fn base58_alphabet() -> Seq<char> {
    seq!['1', '2', '3', '4', '5', '6', '7', '8', '9', 'A', 'B', 'C', 'D', 'E', 'F', 'G', 'H', 'J', 'K', 'L', 'M', 'N', 'P', 'Q', 'R', 'S', 'T', 'U', 'V', 'W', 'X', 'Y', 'Z', 'a', 'b', 'c', 'd', 'e', 'f', 'g', 'h', 'i', 'j', 'k', 'm', 'n', 'o', 'p', 'q', 'r', 's', 't', 'u', 'v', 'w', 'x', 'y', 'z']
}

/// The bytes read as one big-endian number.
pub open spec fn big_endian_value(bytes: Seq<u8>) -> nat
    decreases bytes.len(),
{
    if bytes.len() == 0 {
        0
    } else {
        big_endian_value(bytes.drop_last()) * 256 + bytes.last() as nat
    }
}

/// The number of zero bytes at the front.
pub open spec fn leading_zero_bytes(bytes: Seq<u8>) -> nat
    decreases bytes.len(),
{
    if bytes.len() == 0 || bytes[0] != 0 {
        0
    } else {
        1 + leading_zero_bytes(bytes.drop_first())
    }
}

/// The base58 digits of a number, most significant first; none for zero.
pub open spec fn base58_digits(n: nat) -> Seq<char>
    decreases n,
{
    if n == 0 {
        seq![]
    } else {
        base58_digits(n / 58) + seq![base58_alphabet()[(n % 58) as int]]
    }
}

/// The base58 text of an address: a '1' for each leading zero byte, then the
/// base58 digits of the bytes read as a big-endian number.
pub open spec fn base58_of(bytes: Seq<u8>) -> Seq<char> {
    Seq::new(leading_zero_bytes(bytes), |i: int| '1') + base58_digits(big_endian_value(bytes))
}

/// Calls `to_string` (through `Display`) of `anchor_lang::prelude::Pubkey`, which is
/// solana-address's `Address`: it writes the base58 text of the 32 bytes, computed
/// by five8's `encode_32`. The contract claims that this text is exactly
/// `base58_of` of the bytes: the standard base58 encoding with Bitcoin's alphabet.
#[verifier::external_body]
fn pubkey_to_base58(key: &Pubkey) -> (s: String)
    ensures
        s@ == base58_of(key@),
{
    anchor_lang::prelude::Pubkey::new_from_array(key.bytes).to_string()
}

/// The base58 text of a key (what `key.to_string()` gives).
pub fn key_to_string(key: &Pubkey) -> (s: String)
    ensures
        s@ == base58_of(key@),
{
    pubkey_to_base58(key)
}

/// The listing account signs its calls into Core with the seeds
/// `[LISTING_SEED, asset, [bump]]`.
#[derive(Clone, Copy, Debug, PartialEq, Eq)]
pub struct ListingSigner {
    pub asset: Pubkey,
    pub bump: u8,
}

fn array_to_vec<const N: usize>(a: &[u8; N]) -> (v: Vec<u8>)
    ensures
        v@ == a@,
{
    let mut v: Vec<u8> = Vec::new();
    let mut i: usize = 0;
    while i < N
        invariant
            i <= N,
            a@.len() == N,
            v@ == a@.subrange(0, i as int),
        decreases N - i,
    {
        v.push(a[i]);
        i = i + 1;
        assert(v@ =~= a@.subrange(0, i as int));
    }
    assert(a@.subrange(0, N as int) =~= a@);
    v
}

/// The three signer seeds of a listing account: the listing seed, the asset key, the bump.
pub open spec fn listing_seeds_spec(signer: ListingSigner) -> Seq<Seq<u8>> {
    seq![LISTING_SEED@, signer.asset@, seq![signer.bump]]
}

/// Builds the signer seeds with which the listing account signs.
pub fn listing_signer_seeds(signer: &ListingSigner) -> (seeds: Vec<Vec<u8>>)
    ensures
        seeds@.len() == 3,
        forall|i: int| 0 <= i < 3 ==> #[trigger] seeds@[i]@ == listing_seeds_spec(*signer)[i],
{
    let mut seeds: Vec<Vec<u8>> = Vec::new();
    seeds.push(array_to_vec(&LISTING_SEED));
    seeds.push(array_to_vec(&signer.asset.bytes));
    let mut bump: Vec<u8> = Vec::new();
    bump.push(signer.bump);
    seeds.push(bump);
    assert(seeds@[2]@ =~= seq![signer.bump]);
    seeds
}

} // verus!
