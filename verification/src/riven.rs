//! The search for cheap riven mods: which weapon takes which kind of riven,
//! when the cached data has to be fetched again, and the auctions worth a
//! look, cheapest last.

use vstd::prelude::*;
use crate::stable::{lemma_filter_empty, sort_stable, stable_sort, SortKey};
use crate::text::{lowercase, same_text, to_lowercase};

verus! {

/// One week, in seconds.
pub const WEEK_IN_SECONDS: u64 = 604800;

/// The age in seconds beyond which the auctions on disk are used as they
/// are.
pub const AUCTION_DATA_KEPT_AFTER: u64 = 300;

/// The greatest number of auctions that is shown.
pub const AUCTIONS_SHOWN: usize = 400;

/// The kind of weapon that a riven mod fits.
#[derive(Clone, Copy, Debug, PartialEq, Eq, Structural, Hash)]
pub enum RivenType {
    Melee,
    Pistol,
    Rifle,
    Kitgun,
    Zaw,
    Shotgun,
    Archgun,
}

/// The kind that the name `lowered`, in lower case, stands for.
pub open spec fn riven_type_named(lowered: Seq<char>) -> Option<RivenType> {
    if lowered == "melee"@ {
        Some(RivenType::Melee)
    } else if lowered == "pistol"@ {
        Some(RivenType::Pistol)
    } else if lowered == "rifle"@ {
        Some(RivenType::Rifle)
    } else if lowered == "kitgun"@ {
        Some(RivenType::Kitgun)
    } else if lowered == "zaw"@ {
        Some(RivenType::Zaw)
    } else if lowered == "shotgun"@ {
        Some(RivenType::Shotgun)
    } else if lowered == "archgun"@ {
        Some(RivenType::Archgun)
    } else {
        None
    }
}

impl RivenType {
    /// The kind that `lowered`, a name in lower case, stands for.
    pub fn from_lowercase(lowered: &str) -> (kind: Option<RivenType>)
        ensures
            kind == riven_type_named(lowered@),
    {
        if same_text(lowered, "melee") {
            Some(RivenType::Melee)
        } else if same_text(lowered, "pistol") {
            Some(RivenType::Pistol)
        } else if same_text(lowered, "rifle") {
            Some(RivenType::Rifle)
        } else if same_text(lowered, "kitgun") {
            Some(RivenType::Kitgun)
        } else if same_text(lowered, "zaw") {
            Some(RivenType::Zaw)
        } else if same_text(lowered, "shotgun") {
            Some(RivenType::Shotgun)
        } else if same_text(lowered, "archgun") {
            Some(RivenType::Archgun)
        } else {
            None
        }
    }

    /// The kind that `s` names, in upper or lower case, or `None` where it
    /// names none.
    pub fn from_str(s: &str) -> (kind: Option<RivenType>)
        ensures
            kind == riven_type_named(lowercase(s@)),
    {
        let lowered = to_lowercase(s);
        RivenType::from_lowercase(lowered.as_str())
    }

    /// The name of the kind, as it stands in the names of cache files.
    pub open spec fn name_spec(self) -> Seq<char> {
        match self {
            RivenType::Melee => "Melee"@,
            RivenType::Pistol => "Pistol"@,
            RivenType::Rifle => "Rifle"@,
            RivenType::Kitgun => "Kitgun"@,
            RivenType::Zaw => "Zaw"@,
            RivenType::Shotgun => "Shotgun"@,
            RivenType::Archgun => "Archgun"@,
        }
    }

    /// The name of the kind, as it stands in the names of cache files.
    pub fn name(&self) -> (name: &'static str)
        ensures
            name@ == self.name_spec(),
    {
        match self {
            RivenType::Melee => "Melee",
            RivenType::Pistol => "Pistol",
            RivenType::Rifle => "Rifle",
            RivenType::Kitgun => "Kitgun",
            RivenType::Zaw => "Zaw",
            RivenType::Shotgun => "Shotgun",
            RivenType::Archgun => "Archgun",
        }
    }

    /// The name of the file that caches the auctions of this kind.
    pub fn cache_file_name(&self) -> (file: String)
        ensures
            file@ == self.name_spec() + "_rivens.json"@,
    {
        String::from_str(self.name()).concat("_rivens.json")
    }
}

/// A record of the published riven data: a kind of riven, and the weapon
/// that it goes with, if the record names one.
#[derive(Clone, Debug, PartialEq)]
pub struct RivenData {
    pub riven_type: RivenType,
    pub weapon: Option<String>,
}

/// A weapon and the kind of riven that fits it.
#[derive(Debug, PartialEq)]
pub struct RivenEntry {
    pub weapon: String,
    pub riven_type: RivenType,
}

impl Clone for RivenEntry {
    fn clone(&self) -> (entry: RivenEntry)
        ensures
            entry == *self,
    {
        RivenEntry { weapon: self.weapon.clone(), riven_type: self.riven_type }
    }
}

/// The riven data worked up: for each weapon its kind of riven, no weapon
/// twice, and the time at which this was put together.
#[derive(Clone, Debug, PartialEq)]
pub struct ProcessedRivenDataSet {
    pub data: Vec<RivenEntry>,
    pub timestamp: u64,
}

/// Whether `entries` holds the weapon `weapon`.
pub open spec fn has_weapon(entries: Seq<RivenEntry>, weapon: Seq<char>) -> bool {
    exists|i: int| 0 <= i < entries.len() && (#[trigger] entries[i]).weapon@ == weapon
}

/// Whether no weapon stands twice in `entries`.
pub open spec fn distinct_weapons(entries: Seq<RivenEntry>) -> bool {
    forall|i: int, j: int|
        0 <= i < j < entries.len() ==> (#[trigger] entries[i]).weapon@ != (
        #[trigger] entries[j]).weapon@
}

/// The weapons of `data`, each with the kind of the first record that names
/// it, in the order in which they are first named.
pub open spec fn first_seen(data: Seq<RivenData>) -> Seq<RivenEntry>
    decreases data.len(),
{
    if data.len() == 0 {
        Seq::empty()
    } else {
        let before = first_seen(data.drop_last());
        match data.last().weapon {
            Some(weapon) => if has_weapon(before, weapon@) {
                before
            } else {
                before.push(RivenEntry { weapon, riven_type: data.last().riven_type })
            },
            None => before,
        }
    }
}

/// No weapon stands twice among the weapons first seen, and a weapon stands
/// among them exactly when some record names it.
pub proof fn lemma_first_seen(data: Seq<RivenData>)
    ensures
        distinct_weapons(first_seen(data)),
        forall|w: Seq<char>|
            has_weapon(first_seen(data), w) <==> exists|i: int|
                0 <= i < data.len() && (#[trigger] data[i]).weapon == Some::<String>(
                    data[i].weapon->Some_0,
                ) && data[i].weapon->Some_0@ == w,
    decreases data.len(),
{
    if data.len() > 0 {
        let front = data.drop_last();
        lemma_first_seen(front);
        let before = first_seen(front);
        let after = first_seen(data);
        assert forall|w: Seq<char>|
            has_weapon(after, w) <==> exists|i: int|
                0 <= i < data.len() && (#[trigger] data[i]).weapon == Some::<String>(
                    data[i].weapon->Some_0,
                ) && data[i].weapon->Some_0@ == w by {
            if has_weapon(after, w) {
                let k = choose|k: int| 0 <= k < after.len() && (#[trigger] after[k]).weapon@ == w;
                if k < before.len() {
                    assert(before[k].weapon@ == w);
                    assert(has_weapon(before, w));
                    let i = choose|i: int|
                        0 <= i < front.len() && (#[trigger] front[i]).weapon == Some::<String>(
                            front[i].weapon->Some_0,
                        ) && front[i].weapon->Some_0@ == w;
                    assert(data[i] == front[i]);
                } else {
                    assert(data[data.len() - 1].weapon is Some);
                }
            }
            if exists|i: int|
                0 <= i < data.len() && (#[trigger] data[i]).weapon == Some::<String>(
                    data[i].weapon->Some_0,
                ) && data[i].weapon->Some_0@ == w {
                let i = choose|i: int|
                    0 <= i < data.len() && (#[trigger] data[i]).weapon == Some::<String>(
                        data[i].weapon->Some_0,
                    ) && data[i].weapon->Some_0@ == w;
                if i < front.len() {
                    assert(front[i] == data[i]);
                    assert(has_weapon(before, w));
                    let k = choose|k: int|
                        0 <= k < before.len() && (#[trigger] before[k]).weapon@ == w;
                    assert(after[k] == before[k]);
                } else {
                    if has_weapon(before, w) {
                        let k = choose|k: int|
                            0 <= k < before.len() && (#[trigger] before[k]).weapon@ == w;
                        assert(after[k] == before[k]);
                    } else {
                        assert(after[after.len() - 1].weapon@ == w);
                    }
                }
            }
        }
        assert forall|i: int, j: int| 0 <= i < j < after.len() implies (#[trigger] after[i]).weapon@
            != (#[trigger] after[j]).weapon@ by {
            if j < before.len() {
                assert(after[i] == before[i] && after[j] == before[j]);
            } else {
                assert(after[i] == before[i]);
                assert(!has_weapon(before, after[j].weapon@));
            }
        }
    }
}

/// Whether `entries` holds the weapon `weapon`.
pub fn knows_weapon(entries: &Vec<RivenEntry>, weapon: &str) -> (known: bool)
    ensures
        known == has_weapon(entries@, weapon@),
{
    let mut i: usize = 0;
    while i < entries.len()
        invariant
            i <= entries.len(),
            forall|j: int| 0 <= j < i ==> (#[trigger] entries@[j]).weapon@ != weapon@,
        decreases entries.len() - i,
    {
        if same_text(entries[i].weapon.as_str(), weapon) {
            return true;
        }
        i += 1;
    }
    false
}

/// Works up the published riven data as of the time `now`: each weapon with
/// the kind of the first record that names it. Records without a weapon
/// are passed over.
pub fn process_riven_data(data: &Vec<RivenData>, now: u64) -> (set: ProcessedRivenDataSet)
    ensures
        set.data@ == first_seen(data@),
        distinct_weapons(set.data@),
        set.timestamp == now,
{
    let mut entries: Vec<RivenEntry> = Vec::new();
    let mut i: usize = 0;
    proof {
        assert(data@.take(0) =~= Seq::<RivenData>::empty());
    }
    while i < data.len()
        invariant
            i <= data.len(),
            entries@ == first_seen(data@.take(i as int)),
        decreases data.len() - i,
    {
        proof {
            let next = data@.take(i + 1);
            assert(next.drop_last() =~= data@.take(i as int));
            assert(next.last() == data@[i as int]);
        }
        match &data[i].weapon {
            Some(weapon) => {
                if !knows_weapon(&entries, weapon.as_str()) {
                    entries.push(
                        RivenEntry { weapon: weapon.clone(), riven_type: data[i].riven_type },
                    );
                }
            },
            None => {},
        }
        i += 1;
    }
    proof {
        data@.lemma_take_len();
        lemma_first_seen(data@);
    }
    ProcessedRivenDataSet { data: entries, timestamp: now }
}

/// The entries for rivens of the kind `kind`.
pub open spec fn of_kind(kind: RivenType) -> spec_fn(RivenEntry) -> bool {
    |e: RivenEntry| e.riven_type == kind
}

/// The weapons that take a riven of the kind `kind`, in the order of `set`.
pub fn rivens_of_type(set: &ProcessedRivenDataSet, kind: RivenType) -> (weapons: Vec<String>)
    ensures
        weapons@.len() == set.data@.filter(of_kind(kind)).len(),
        forall|i: int|
            0 <= i < weapons@.len() ==> #[trigger] weapons@[i] == set.data@.filter(
                of_kind(kind),
            )[i].weapon,
{
    let mut weapons: Vec<String> = Vec::new();
    let mut i: usize = 0;
    proof {
        lemma_filter_empty(of_kind(kind));
        assert(set.data@.take(0) =~= Seq::<RivenEntry>::empty());
    }
    while i < set.data.len()
        invariant
            i <= set.data.len(),
            weapons@.len() == set.data@.take(i as int).filter(of_kind(kind)).len(),
            forall|j: int|
                0 <= j < weapons@.len() ==> #[trigger] weapons@[j] == set.data@.take(
                    i as int,
                ).filter(of_kind(kind))[j].weapon,
        decreases set.data.len() - i,
    {
        proof {
            set.data@.lemma_take_succ_push(i as int);
            set.data@.take(i as int).lemma_filter_push(set.data@[i as int], of_kind(kind));
        }
        if set.data[i].riven_type == kind {
            weapons.push(set.data[i].weapon.clone());
        }
        i += 1;
    }
    proof {
        set.data@.lemma_take_len();
    }
    weapons
}

/// Whether data put together at `timestamp` is more than `max_age` seconds
/// old at the time `now`.
pub fn older_than(now: u64, timestamp: u64, max_age: u64) -> (old: bool)
    requires
        timestamp <= now,
    ensures
        old == (now - timestamp > max_age),
{
    now - timestamp > max_age
}

/// Whether the riven data has to be fetched again: it is more than a week
/// old.
pub fn riven_data_is_stale(now: u64, set: &ProcessedRivenDataSet) -> (stale: bool)
    requires
        set.timestamp <= now,
    ensures
        stale == (now - set.timestamp > WEEK_IN_SECONDS),
{
    older_than(now, set.timestamp, WEEK_IN_SECONDS)
}

/// Whether the auctions on disk are used as they are: they were fetched
/// more than 300 seconds before `now`. Auctions fetched later than that are
/// fetched anew.
pub fn keeps_cached_auctions(now: u64, set: &RivenAuctionDataSet) -> (kept: bool)
    requires
        set.timestamp <= now,
    ensures
        kept == (now - set.timestamp > AUCTION_DATA_KEPT_AFTER),
{
    older_than(now, set.timestamp, AUCTION_DATA_KEPT_AFTER)
}

/// The owner of an auction.
#[derive(Debug, PartialEq)]
pub struct AuctionOwner {
    pub ingame_name: String,
    pub status: String,
}

/// What is auctioned.
#[derive(Debug, PartialEq)]
pub struct AuctionItem {
    pub name: String,
}

/// An auction of a riven mod. A direct sale has a fixed price; otherwise
/// the price to beat is the top bid, or the starting price while nobody has
/// bid.
#[derive(Debug, PartialEq)]
pub struct Auction {
    pub id: String,
    pub item: AuctionItem,
    pub owner: AuctionOwner,
    pub starting_price: u64,
    pub top_bid: Option<u64>,
    pub is_direct_sell: bool,
}

impl Clone for Auction {
    fn clone(&self) -> (auction: Auction)
        ensures
            auction == *self,
    {
        Auction {
            id: self.id.clone(),
            item: AuctionItem { name: self.item.name.clone() },
            owner: AuctionOwner {
                ingame_name: self.owner.ingame_name.clone(),
                status: self.owner.status.clone(),
            },
            starting_price: self.starting_price,
            top_bid: self.top_bid,
            is_direct_sell: self.is_direct_sell,
        }
    }
}

/// The auctions that the marketplace answers with.
#[derive(Clone, Debug, PartialEq)]
pub struct Auctions {
    pub auctions: Vec<Auction>,
}

/// The auctions of the rivens of one kind, with the time at which they were
/// fetched.
#[derive(Clone, Debug, PartialEq)]
pub struct RivenAuctionDataSet {
    pub data: Vec<Auction>,
    pub timestamp: u64,
}

/// Auctions are sorted by price, and at one price direct sales come before
/// the others.
impl SortKey for Auction {
    open spec fn sort_key(&self) -> nat {
        self.starting_price as nat * 2 + if self.is_direct_sell {
            0nat
        } else {
            1nat
        }
    }

    fn sorts_after(&self, other: &Self) -> (b: bool) {
        self.starting_price > other.starting_price || (self.starting_price == other.starting_price
            && !self.is_direct_sell && other.is_direct_sell)
    }
}

/// `auction` with the top bid, where there is one, as its price.
pub open spec fn at_top_bid(auction: Auction) -> Auction {
    match auction.top_bid {
        Some(bid) => Auction { starting_price: bid, ..auction },
        None => auction,
    }
}

/// The auctions whose owner is in the game right now.
pub open spec fn owner_in_game() -> spec_fn(Auction) -> bool {
    |a: Auction| a.owner.status@ == "ingame"@
}

/// The auctions of `auctions` worth a look: each priced at its top bid,
/// the cheapest `limit` of those whose owner is in the game, the cheapest
/// one last.
pub open spec fn offers_spec(auctions: Seq<Auction>, limit: nat) -> Seq<Auction> {
    let priced = Seq::new(auctions.len(), |i: int| at_top_bid(auctions[i]));
    let in_game = stable_sort(priced).filter(owner_in_game());
    let shown = if in_game.len() <= limit {
        in_game
    } else {
        in_game.take(limit as int)
    };
    shown.reverse()
}

/// The auctions of `auctions` worth a look, as `offers_spec` says.
pub fn cheapest_offers(auctions: &Vec<Auction>, limit: usize) -> (offers: Vec<Auction>)
    ensures
        offers@ == offers_spec(auctions@, limit as nat),
{
    // Price each auction at its top bid.
    let mut priced: Vec<Auction> = Vec::new();
    let mut i: usize = 0;
    while i < auctions.len()
        invariant
            i <= auctions.len(),
            priced@.len() == i,
            forall|j: int| 0 <= j < i ==> #[trigger] priced@[j] == at_top_bid(auctions@[j]),
        decreases auctions.len() - i,
    {
        let mut auction = auctions[i].clone();
        match auction.top_bid {
            Some(bid) => {
                auction.starting_price = bid;
            },
            None => {},
        }
        priced.push(auction);
        i += 1;
    }
    assert(priced@ =~= Seq::new(auctions@.len(), |i: int| at_top_bid(auctions@[i])));
    sort_stable(&mut priced);
    // Keep the auctions whose owner is in the game.
    let ingame = String::from_str("ingame");
    let mut in_game: Vec<Auction> = Vec::new();
    let mut k: usize = 0;
    proof {
        lemma_filter_empty(owner_in_game());
        assert(priced@.take(0) =~= Seq::<Auction>::empty());
    }
    while k < priced.len()
        invariant
            k <= priced.len(),
            ingame@ == "ingame"@,
            in_game@ == priced@.take(k as int).filter(owner_in_game()),
        decreases priced.len() - k,
    {
        proof {
            priced@.lemma_take_succ_push(k as int);
            priced@.take(k as int).lemma_filter_push(priced@[k as int], owner_in_game());
        }
        if priced[k].owner.status == ingame {
            in_game.push(priced[k].clone());
        }
        k += 1;
    }
    proof {
        priced@.lemma_take_len();
    }
    // The cheapest ones, the cheapest last.
    let shown: usize = if in_game.len() <= limit {
        in_game.len()
    } else {
        limit
    };
    let ghost kept = if in_game@.len() <= limit {
        in_game@
    } else {
        in_game@.take(limit as int)
    };
    let mut offers: Vec<Auction> = Vec::new();
    let mut n: usize = shown;
    while n > 0
        invariant
            n <= shown,
            shown <= in_game.len(),
            kept.len() == shown,
            forall|j: int| 0 <= j < shown ==> kept[j] == in_game@[j],
            offers@.len() == shown - n,
            forall|j: int| 0 <= j < offers@.len() ==> #[trigger] offers@[j] == kept[shown - 1 - j],
        decreases n,
    {
        n -= 1;
        offers.push(in_game[n].clone());
    }
    assert(offers@ =~= kept.reverse());
    offers
}

} // verus!
