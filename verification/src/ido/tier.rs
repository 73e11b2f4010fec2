//! A buyer's tier, from the tier contract and from tier NFTs.
use vstd::prelude::*;
use crate::error::ContractError;
use crate::ido::msg::ContractStatus;

verus! {

/// Queries the IDO contract makes to the tier contract.
#[derive(Clone, Debug, PartialEq, Eq)]
pub enum TierContractQuery {
    Config {  },
    UserInfo { address: String },
}

/// Answers of the tier contract.
#[derive(Clone, Debug, PartialEq, Eq)]
pub enum TierResponse {
    UserInfo { tier: u8 },
    Config {
        admin: String,
        validator: String,
        status: ContractStatus,
        band_oracle: String,
        band_code_hash: String,
        usd_deposits: Vec<u128>,
        min_tier: u8,
    },
}

/// The tier in the tier contract's answer about a user.
pub fn tier_from_response(response: TierResponse) -> (r: Result<u8, ContractError>)
    ensures
        response matches TierResponse::UserInfo { tier } ==> r == Ok::<u8, ContractError>(tier),
        !(response is UserInfo) ==> r == Err::<u8, ContractError>(ContractError::CannotGetTier),
{
    match response {
        TierResponse::UserInfo { tier } => Ok(tier),
        _ => Err(ContractError::CannotGetTier),
    }
}

/// The lowest tier in the tier contract's answer about its settings.
pub fn min_tier_from_response(response: TierResponse) -> (r: Result<u8, ContractError>)
    ensures
        response matches TierResponse::Config { min_tier, .. } ==> r == Ok::<u8, ContractError>(
            min_tier,
        ),
        !(response is Config) ==> r == Err::<u8, ContractError>(ContractError::CannotGetMinTier),
{
    match response {
        TierResponse::Config { min_tier, .. } => Ok(min_tier),
        _ => Err(ContractError::CannotGetMinTier),
    }
}

/// One attribute of an NFT's metadata.
#[derive(Clone, Debug, PartialEq, Eq)]
pub struct Trait {
    pub trait_type: Option<String>,
    pub value: String,
}

/// The attributes of an NFT's metadata extension; none when the metadata
/// has no extension or the extension no attributes.
#[derive(Clone, Debug, PartialEq, Eq)]
pub struct Metadata {
    pub attributes: Option<Vec<Trait>>,
}

/// The lower-case form of a text, as `str::to_lowercase` gives it.
pub uninterp spec fn lowercase_of(s: Seq<char>) -> Seq<char>;

/// Calls `str::to_lowercase` on `s`; the result is named `lowercase_of`,
/// which the Unicode case tables define and which is not stated here.
#[verifier::external_body]
fn to_lowercase(s: &String) -> (r: String)
    ensures
        r@ == lowercase_of(s@),
{
    s.to_lowercase()
}

/// A decimal digit.
pub open spec fn is_digit(c: char) -> bool {
    '0' <= c <= '9'
}

/// The number that a string of decimal digits writes.
pub open spec fn digits_value(s: Seq<char>) -> int
    decreases s.len(),
{
    if s.len() == 0 {
        0
    } else {
        digits_value(s.drop_last()) * 10 + (s.last() as int - '0' as int)
    }
}

/// A byte written in decimal: an optional `+`, then at least one digit, for
/// a value of at most 255.
pub open spec fn parse_u8_spec(s: Seq<char>) -> Option<u8> {
    let d = if s.len() > 0 && s[0] == '+' {
        s.drop_first()
    } else {
        s
    };
    if d.len() > 0 && (forall|i: int| 0 <= i < d.len() ==> is_digit(#[trigger] d[i]))
        && digits_value(d) <= 255 {
        Some(digits_value(d) as u8)
    } else {
        None
    }
}

/// Calls `str::parse::<u8>` on `s`, whose documentation admits an optional
/// `+` followed by decimal digits, and refuses an empty string, any other
/// character and a value above 255.
#[verifier::external_body]
fn parse_u8(s: &String) -> (r: Option<u8>)
    ensures
        r == parse_u8_spec(s@),
{
    s.parse::<u8>().ok()
}

/// The word that names the tier attribute.
pub open spec fn tier_word() -> Seq<char> {
    seq!['t', 'i', 'e', 'r']
}

/// The tier that a list of attributes gives: the value of the first
/// attribute whose type is `tier` in any case and whose value is a byte.
pub open spec fn tier_of_traits(a: Seq<Trait>) -> Option<u8>
    decreases a.len(),
{
    if a.len() == 0 {
        None
    } else if a[0].trait_type is Some && lowercase_of(a[0].trait_type->0@) == tier_word()
        && parse_u8_spec(a[0].value@) is Some {
        parse_u8_spec(a[0].value@)
    } else {
        tier_of_traits(a.drop_first())
    }
}

/// The tier of a list of attributes comes from its first attribute whose
/// type is `tier` in any case and whose value is a byte, and there is none
/// when no attribute is such.
pub proof fn lemma_tier_of_traits(a: Seq<Trait>)
    ensures
        (forall|i: int|
            0 <= i < a.len() ==> !(#[trigger] a[i].trait_type is Some && lowercase_of(
                a[i].trait_type->0@,
            ) == seq!['t', 'i', 'e', 'r'] && parse_u8_spec(a[i].value@) is Some)) ==> tier_of_traits(
            a,
        ) is None,
        forall|i: int|
            0 <= i < a.len() && #[trigger] a[i].trait_type is Some && lowercase_of(
                a[i].trait_type->0@,
            ) == seq!['t', 'i', 'e', 'r'] && parse_u8_spec(a[i].value@) is Some && (forall|j: int|
                0 <= j < i ==> !(a[j].trait_type is Some && lowercase_of(a[j].trait_type->0@)
                    == seq!['t', 'i', 'e', 'r'] && parse_u8_spec(a[j].value@) is Some))
                ==> tier_of_traits(a) == parse_u8_spec(a[i].value@),
    decreases a.len(),
{
    if a.len() > 0 {
        lemma_tier_of_traits(a.drop_first());
        assert forall|i: int|
            0 <= i < a.drop_first().len() implies a.drop_first()[i] == a[i + 1] by {}
        assert forall|i: int|
            0 <= i < a.len() && #[trigger] a[i].trait_type is Some && lowercase_of(
                a[i].trait_type->0@,
            ) == seq!['t', 'i', 'e', 'r'] && parse_u8_spec(a[i].value@) is Some && (forall|j: int|
                0 <= j < i ==> !(a[j].trait_type is Some && lowercase_of(a[j].trait_type->0@)
                    == seq!['t', 'i', 'e', 'r'] && parse_u8_spec(a[j].value@) is Some))
                implies tier_of_traits(a) == parse_u8_spec(a[i].value@) by {
            if i > 0 {
                let b = a.drop_first();
                assert(b[i - 1] == a[i]);
                assert forall|j: int| 0 <= j < i - 1 implies !(b[j].trait_type is Some
                    && lowercase_of(b[j].trait_type->0@) == seq!['t', 'i', 'e', 'r']
                    && parse_u8_spec(b[j].value@) is Some) by {
                    assert(b[j] == a[j + 1]);
                }
                assert(!(a[0].trait_type is Some && lowercase_of(a[0].trait_type->0@) == seq![
                    't',
                    'i',
                    'e',
                    'r',
                ] && parse_u8_spec(a[0].value@) is Some));
            }
        }
    }
}

/// The tier an NFT's metadata grants, if it grants one.
pub fn find_tier_in_metadata(metadata: &Metadata) -> (r: Option<u8>)
    ensures
        metadata.attributes is None ==> r is None,
        metadata.attributes matches Some(a) ==> r == tier_of_traits(a@),
{
    let attributes = match &metadata.attributes {
        Some(a) => a,
        None => {
            return None;
        },
    };
    assert(metadata.attributes == Some(*attributes));
    let tier_name = crate::common::string_of(tier_word_str());
    assert(attributes@.skip(0) =~= attributes@);
    let mut i: usize = 0;
    while i < attributes.len()
        invariant
            metadata.attributes == Some(*attributes),
            i <= attributes@.len(),
            tier_name@ == tier_word(),
            tier_of_traits(attributes@) == tier_of_traits(attributes@.skip(i as int)),
        decreases attributes@.len() - i,
    {
        let attribute = &attributes[i];
        assert(attributes@.skip(i as int)[0] == attributes@[i as int]);
        assert(attributes@.skip(i as int).drop_first() =~= attributes@.skip(i + 1));
        match &attribute.trait_type {
            Some(t) => {
                let name = to_lowercase(t);
                if name == tier_name {
                    let parsed = parse_u8(&attribute.value);
                    if parsed.is_some() {
                        return parsed;
                    }
                }
            },
            None => {},
        }
        i = i + 1;
    }
    assert(attributes@.skip(i as int) =~= Seq::<Trait>::empty());
    None
}

/// The literal `tier`.
fn tier_word_str() -> (r: &'static str)
    ensures
        r@ == tier_word(),
{
    proof {
        reveal_strlit("tier");
    }
    "tier"
}

/// What the public metadata of a tier NFT settles.
#[derive(Clone, Copy, Debug, PartialEq, Eq)]
pub enum NftTier {
    /// The NFT grants this tier, or none.
    Known(Option<u8>),
    /// The private metadata decides: its tier, if any, is the NFT's tier.
    CheckPrivate,
}

/// The tier an NFT grants `address`: none unless `address` owns it; then
/// the tier in its public metadata, or else the one in its private
/// metadata.
pub fn nft_tier_from_public(owner: Option<String>, address: &String, public: Option<Metadata>) -> (r:
    NftTier)
    ensures
        !(owner matches Some(o) && o@ == address@) ==> r == NftTier::Known(None),
        (owner matches Some(o) && o@ == address@) ==> {
            let t = match public {
                Some(m) => match m.attributes {
                    Some(a) => tier_of_traits(a@),
                    None => None,
                },
                None => None,
            };
            &&& t is Some ==> r == NftTier::Known(t)
            &&& t is None ==> r == NftTier::CheckPrivate
        },
{
    let owns = match &owner {
        Some(o) => *o == *address,
        None => false,
    };
    if !owns {
        return NftTier::Known(None);
    }
    if let Some(public_metadata) = public {
        let tier = find_tier_in_metadata(&public_metadata);
        if tier.is_some() {
            return NftTier::Known(tier);
        }
    }
    NftTier::CheckPrivate
}

/// A buyer's tier: the one the tier contract reports, or the NFT's tier when
/// that is better (smaller).
pub fn get_tier(contract_tier: u8, nft_tier: Option<u8>) -> (r: u8)
    ensures
        nft_tier matches Some(t) ==> r == if t < contract_tier {
            t
        } else {
            contract_tier
        },
        nft_tier is None ==> r == contract_tier,
{
    let mut tier = contract_tier;
    if let Some(t) = nft_tier {
        if t < tier {
            tier = t;
        }
    }
    tier
}

/// Index of a tier in the per-tier lists: tier 1 is index 0.
pub fn get_tier_index(tier: u8) -> (r: u8)
    requires
        tier >= 1,
    ensures
        r == tier - 1,
{
    tier.checked_sub(1).unwrap()
}

} // verus!
