//! Where the records live: the path under which the ledger keeps each
//! record, made of a fixed tag and the fields that identify the record.

use vstd::prelude::*;
use vstd::bytes::{lemma_auto_spec_u64_to_from_le_bytes, spec_u64_to_le_bytes, u64_to_le_bytes};
use vstd::utf8::{encode_utf8, encode_utf8_decode_utf8};
use crate::amm::LpPosition;
use crate::bets::Bet;
use crate::governance::{GovernanceProposal, StakingPosition, Vote};
use crate::keys::Pubkey;
use crate::market::Position;

verus! {

/// The path of a record. One record of a kind exists per value of its
/// identifying fields; a kind without fields has a single record.
#[derive(Clone, Copy, Debug, PartialEq, Eq)]
pub enum RecordPath {
    Market,
    Oracle,
    Heatmap,
    AmmPool,
    Governance,
    MultiOracle,
    OracleAggregator,
    TokenMint,
    /// One position per owner.
    Position { owner: Pubkey },
    /// One liquidity position per provider.
    LpPosition { owner: Pubkey },
    /// One staking position per staker.
    StakingPosition { owner: Pubkey },
    /// One proposal per id.
    Proposal { proposal_id: u64 },
    /// One vote per proposal and voter.
    Vote { proposal_id: u64, voter: Pubkey },
    /// One bet per owner and id.
    Bet { owner: Pubkey, bet_id: u64 },
    /// One settlement slot per minter and id; a trade leaves the path as it
    /// is.
    SettlementSlot { minter: Pubkey, slot_id: u64 },
}

impl RecordPath {
    /// The fixed tag of the record's kind.
    pub open spec fn tag(&self) -> Seq<char> {
        match *self {
            RecordPath::Market => "market"@,
            RecordPath::Oracle => "oracle"@,
            RecordPath::Heatmap => "heatmap"@,
            RecordPath::AmmPool => "amm_pool"@,
            RecordPath::Governance => "governance"@,
            RecordPath::MultiOracle => "multi_oracle"@,
            RecordPath::OracleAggregator => "oracle_aggregator"@,
            RecordPath::TokenMint => "token_mint"@,
            RecordPath::Position { .. } => "position"@,
            RecordPath::LpPosition { .. } => "lp_position"@,
            RecordPath::StakingPosition { .. } => "staking_position"@,
            RecordPath::Proposal { .. } => "proposal"@,
            RecordPath::Vote { .. } => "vote"@,
            RecordPath::Bet { .. } => "bet"@,
            RecordPath::SettlementSlot { .. } => "settlement_slot"@,
        }
    }

    /// The address among the identifying fields, if the kind has one.
    pub open spec fn key_field(&self) -> Option<Pubkey> {
        match *self {
            RecordPath::Position { owner } => Some(owner),
            RecordPath::LpPosition { owner } => Some(owner),
            RecordPath::StakingPosition { owner } => Some(owner),
            RecordPath::Vote { voter, .. } => Some(voter),
            RecordPath::Bet { owner, .. } => Some(owner),
            RecordPath::SettlementSlot { minter, .. } => Some(minter),
            _ => None,
        }
    }

    /// The number among the identifying fields, if the kind has one.
    pub open spec fn number_field(&self) -> Option<u64> {
        match *self {
            RecordPath::Proposal { proposal_id } => Some(proposal_id),
            RecordPath::Vote { proposal_id, .. } => Some(proposal_id),
            RecordPath::Bet { bet_id, .. } => Some(bet_id),
            RecordPath::SettlementSlot { slot_id, .. } => Some(slot_id),
            _ => None,
        }
    }

    /// The path as the ledger takes it: the tag's bytes, then the address's
    /// 32 bytes where the kind has one, then the number's 8 bytes, lowest
    /// first, where the kind has one.
    pub open spec fn seeds_of(&self) -> Seq<Seq<u8>> {
        let address = match self.key_field() {
            Some(key) => seq![key.bytes@],
            None => Seq::<Seq<u8>>::empty(),
        };
        let number = match self.number_field() {
            Some(n) => seq![spec_u64_to_le_bytes(n)],
            None => Seq::<Seq<u8>>::empty(),
        };
        seq![encode_utf8(self.tag())] + address + number
    }

    /// The tag as a string.
    pub fn tag_str(&self) -> (tag: &'static str)
        ensures
            tag@ == self.tag(),
    {
        match self {
            RecordPath::Market => "market",
            RecordPath::Oracle => "oracle",
            RecordPath::Heatmap => "heatmap",
            RecordPath::AmmPool => "amm_pool",
            RecordPath::Governance => "governance",
            RecordPath::MultiOracle => "multi_oracle",
            RecordPath::OracleAggregator => "oracle_aggregator",
            RecordPath::TokenMint => "token_mint",
            RecordPath::Position { .. } => "position",
            RecordPath::LpPosition { .. } => "lp_position",
            RecordPath::StakingPosition { .. } => "staking_position",
            RecordPath::Proposal { .. } => "proposal",
            RecordPath::Vote { .. } => "vote",
            RecordPath::Bet { .. } => "bet",
            RecordPath::SettlementSlot { .. } => "settlement_slot",
        }
    }

    /// Computes `seeds_of`.
    pub fn seeds(&self) -> (seeds: Vec<Vec<u8>>)
        ensures
            seeds.deep_view() == self.seeds_of(),
    {
        let mut seeds: Vec<Vec<u8>> = Vec::new();
        seeds.push(self.tag_str().as_bytes_vec());
        let address: Option<Pubkey> = match *self {
            RecordPath::Position { owner } => Some(owner),
            RecordPath::LpPosition { owner } => Some(owner),
            RecordPath::StakingPosition { owner } => Some(owner),
            RecordPath::Vote { voter, .. } => Some(voter),
            RecordPath::Bet { owner, .. } => Some(owner),
            RecordPath::SettlementSlot { minter, .. } => Some(minter),
            _ => None,
        };
        if let Some(key) = address {
            seeds.push(key_bytes(&key));
        }
        let number: Option<u64> = match *self {
            RecordPath::Proposal { proposal_id } => Some(proposal_id),
            RecordPath::Vote { proposal_id, .. } => Some(proposal_id),
            RecordPath::Bet { bet_id, .. } => Some(bet_id),
            RecordPath::SettlementSlot { slot_id, .. } => Some(slot_id),
            _ => None,
        };
        if let Some(n) = number {
            seeds.push(u64_to_le_bytes(n));
        }
        assert(seeds.deep_view() =~~= self.seeds_of());
        seeds
    }
}

/// The bytes of an address, in a vector.
fn key_bytes(key: &Pubkey) -> (bytes: Vec<u8>)
    ensures
        bytes@ == key.bytes@,
{
    let mut bytes: Vec<u8> = Vec::new();
    let mut i: usize = 0;
    while i < 32
        invariant
            i <= 32,
            bytes@ == key.bytes@.subrange(0, i as int),
        decreases 32 - i,
    {
        bytes.push(key.bytes[i]);
        assert(bytes@ =~= key.bytes@.subrange(0, i + 1));
        i += 1;
    }
    assert(bytes@ =~= key.bytes@);
    bytes
}

/// What sets each tag apart from the others: its length, its first
/// character and its third.
spec fn marks(tag: Seq<char>) -> (nat, char, char) {
    (tag.len(), tag[0], tag[2])
}

/// The marks of a path's tag, kind by kind.
spec fn marks_of(path: RecordPath) -> (nat, char, char) {
    match path {
        RecordPath::Market => (6, 'm', 'r'),
        RecordPath::Oracle => (6, 'o', 'a'),
        RecordPath::Heatmap => (7, 'h', 'a'),
        RecordPath::AmmPool => (8, 'a', 'm'),
        RecordPath::Governance => (10, 'g', 'v'),
        RecordPath::MultiOracle => (12, 'm', 'l'),
        RecordPath::OracleAggregator => (17, 'o', 'a'),
        RecordPath::TokenMint => (10, 't', 'k'),
        RecordPath::Position { .. } => (8, 'p', 's'),
        RecordPath::LpPosition { .. } => (11, 'l', '_'),
        RecordPath::StakingPosition { .. } => (16, 's', 'a'),
        RecordPath::Proposal { .. } => (8, 'p', 'o'),
        RecordPath::Vote { .. } => (4, 'v', 't'),
        RecordPath::Bet { .. } => (3, 'b', 't'),
        RecordPath::SettlementSlot { .. } => (15, 's', 't'),
    }
}

/// Each tag has the marks listed for its kind.
proof fn lemma_tag_marks(path: RecordPath)
    ensures
        marks(path.tag()) == marks_of(path),
{
    reveal_strlit("market");
    reveal_strlit("oracle");
    reveal_strlit("heatmap");
    reveal_strlit("amm_pool");
    reveal_strlit("governance");
    reveal_strlit("multi_oracle");
    reveal_strlit("oracle_aggregator");
    reveal_strlit("token_mint");
    reveal_strlit("position");
    reveal_strlit("lp_position");
    reveal_strlit("staking_position");
    reveal_strlit("proposal");
    reveal_strlit("vote");
    reveal_strlit("bet");
    reveal_strlit("settlement_slot");
}

/// Records of different kinds carry different tags.
proof fn lemma_tags_tell_kinds_apart(a: RecordPath, b: RecordPath)
    requires
        a.tag() == b.tag(),
    ensures
        a.key_field() is Some <==> b.key_field() is Some,
        a.number_field() is Some <==> b.number_field() is Some,
        a.key_field() == b.key_field() && a.number_field() == b.number_field() ==> a == b,
{
    lemma_tag_marks(a);
    lemma_tag_marks(b);
    assert(marks_of(a) == marks_of(b));
}

/// Different records live under different paths: two paths with the same
/// seeds are the same path.
pub proof fn lemma_paths_tell_records_apart(a: RecordPath, b: RecordPath)
    requires
        a.seeds_of() == b.seeds_of(),
    ensures
        a == b,
{
    let sa = a.seeds_of();
    let sb = b.seeds_of();
    assert(sa[0] == sb[0]);
    encode_utf8_decode_utf8(a.tag());
    encode_utf8_decode_utf8(b.tag());
    lemma_tags_tell_kinds_apart(a, b);
    lemma_auto_spec_u64_to_from_le_bytes();
    if a.key_field() is Some {
        assert(sa[1] == sb[1]);
        assert(a.key_field()->Some_0.bytes =~= b.key_field()->Some_0.bytes);
        if a.number_field() is Some {
            assert(sa[2] == sb[2]);
        }
    } else if a.number_field() is Some {
        assert(sa[1] == sb[1]);
    }
}

impl Position {
    /// The path of this position's record.
    pub fn path(&self) -> (path: RecordPath)
        ensures
            path == (RecordPath::Position { owner: self.owner }),
    {
        RecordPath::Position { owner: self.owner }
    }
}

impl LpPosition {
    /// The path of this liquidity position's record.
    pub fn path(&self) -> (path: RecordPath)
        ensures
            path == (RecordPath::LpPosition { owner: self.owner }),
    {
        RecordPath::LpPosition { owner: self.owner }
    }
}

impl StakingPosition {
    /// The path of this staking position's record.
    pub fn path(&self) -> (path: RecordPath)
        ensures
            path == (RecordPath::StakingPosition { owner: self.owner }),
    {
        RecordPath::StakingPosition { owner: self.owner }
    }
}

impl GovernanceProposal {
    /// The path of this proposal's record.
    pub fn path(&self) -> (path: RecordPath)
        ensures
            path == (RecordPath::Proposal { proposal_id: self.proposal_id }),
    {
        RecordPath::Proposal { proposal_id: self.proposal_id }
    }
}

impl Vote {
    /// The path of this vote's record.
    pub fn path(&self) -> (path: RecordPath)
        ensures
            path == (RecordPath::Vote { proposal_id: self.proposal_id, voter: self.voter }),
    {
        RecordPath::Vote { proposal_id: self.proposal_id, voter: self.voter }
    }
}

impl Bet {
    /// The path of this bet's record.
    pub fn path(&self) -> (path: RecordPath)
        ensures
            path == (RecordPath::Bet { owner: self.owner, bet_id: self.bet_id }),
    {
        RecordPath::Bet { owner: self.owner, bet_id: self.bet_id }
    }
}

} // verus!
