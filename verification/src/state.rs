//! The hub's storage: its configuration, the ticket counter, and the
//! record of used tickets keyed by user and ticket id, with the unique index
//! on the ticket id that the record carries.

use vstd::prelude::*;
use vstd::string::*;
use crate::error::{StdError, StdErrorView};
use crate::text::{text_lt, text_less, lemma_text_lt_transitive, lemma_text_lt_total, lemma_text_lt_asymmetric};

verus! {

/// The hub's configuration: who may instantiate the ticket contract, and the
/// ticket contract's address once it exists.
#[derive(Debug, Clone, PartialEq, Eq)]
pub struct Configuration {
    pub admin: String,
    pub ticket_nft_addr: Option<String>,
}

pub struct ConfigurationView {
    pub admin: Seq<char>,
    pub ticket_nft_addr: Option<Seq<char>>,
}

impl View for Configuration {
    type V = ConfigurationView;

    open spec fn view(&self) -> ConfigurationView {
        ConfigurationView {
            admin: self.admin@,
            ticket_nft_addr: match self.ticket_nft_addr {
                Some(a) => Some(a@),
                None => None,
            },
        }
    }
}

/// The record of a used ticket.
#[derive(Debug, Clone, PartialEq, Eq)]
pub struct TicketInfo {
    pub ticket_id: String,
    pub block_used: u64,
}

pub struct TicketInfoView {
    pub ticket_id: Seq<char>,
    pub block_used: u64,
}

impl View for TicketInfo {
    type V = TicketInfoView;

    open spec fn view(&self) -> TicketInfoView {
        TicketInfoView { ticket_id: self.ticket_id@, block_used: self.block_used }
    }
}

/// One entry of the used-ticket record: its key (user, ticket id) and the
/// stored record.
#[derive(Debug, Clone, PartialEq, Eq)]
pub struct UsedTicket {
    pub user: String,
    pub ticket_id: String,
    pub info: TicketInfo,
}

pub open spec fn key_of(e: UsedTicket) -> (Seq<char>, Seq<char>) {
    (e.user@, e.ticket_id@)
}

/// The used-ticket record as a map from (user, ticket id) to the record.
pub type UsedMap = Map<(Seq<char>, Seq<char>), TicketInfoView>;

/// No two records of the map carry the same ticket id: the unique index.
pub open spec fn unique_ticket_ids(m: UsedMap) -> bool {
    forall|k1: (Seq<char>, Seq<char>), k2: (Seq<char>, Seq<char>)|
        #![trigger m[k1], m[k2]]
        m.dom().contains(k1) && m.dom().contains(k2) && k1 != k2 ==> m[k1].ticket_id
            != m[k2].ticket_id
}

/// Saving `info` under `key` would give a second record with its ticket id.
pub open spec fn violates_unique(m: UsedMap, key: (Seq<char>, Seq<char>), info: TicketInfoView) -> bool {
    exists|k: (Seq<char>, Seq<char>)|
        #![trigger m[k]]
        m.dom().contains(k) && k != key && m[k].ticket_id == info.ticket_id
}

/// Some record carries ticket id `tid`.
pub open spec fn ticket_id_in_use(m: UsedMap, tid: Seq<char>) -> bool {
    exists|k: (Seq<char>, Seq<char>)| #![trigger m[k]] m.dom().contains(k) && m[k].ticket_id == tid
}

/// The ticket ids under which `user` has records.
pub open spec fn tickets_of(m: UsedMap, user: Seq<char>) -> Set<Seq<char>> {
    Set::new(|t: Seq<char>| m.dom().contains((user, t)))
}

/// `t` is the first of `user`'s ticket ids in the order of the storage.
pub open spec fn first_ticket_of(m: UsedMap, user: Seq<char>, t: Seq<char>) -> bool {
    &&& m.dom().contains((user, t))
    &&& forall|t2: Seq<char>|
        #![trigger m.dom().contains((user, t2))]
        m.dom().contains((user, t2)) && t2 != t ==> text_lt(t, t2)
}

/// The record of `user` that the storage lists first, if any.
pub open spec fn first_record_of(m: UsedMap, user: Seq<char>) -> Option<TicketInfoView> {
    if exists|t: Seq<char>| first_ticket_of(m, user, t) {
        Some(m[(user, choose|t: Seq<char>| first_ticket_of(m, user, t))])
    } else {
        None
    }
}

/// There is at most one first ticket.
pub proof fn lemma_first_ticket_unique(m: UsedMap, user: Seq<char>, t1: Seq<char>, t2: Seq<char>)
    requires
        first_ticket_of(m, user, t1),
        first_ticket_of(m, user, t2),
    ensures
        t1 == t2,
{
    if t1 != t2 {
        assert(m.dom().contains((user, t2)));
        assert(m.dom().contains((user, t1)));
        lemma_text_lt_asymmetric(t1, t2);
    }
}

/// The used-ticket record, kept as a list of entries with distinct keys and
/// distinct record ticket ids.
pub struct UsedTickets {
    entries: Vec<UsedTicket>,
}

impl UsedTickets {
    #[verifier::type_invariant]
    spec fn well_formed(self) -> bool {
        &&& forall|i: int, j: int|
            #![trigger self.entries@[i], self.entries@[j]]
            0 <= i < self.entries@.len() && 0 <= j < self.entries@.len() && i != j ==> key_of(
                self.entries@[i],
            ) != key_of(self.entries@[j])
        &&& forall|i: int, j: int|
            #![trigger self.entries@[i], self.entries@[j]]
            0 <= i < self.entries@.len() && 0 <= j < self.entries@.len() && i != j
                ==> self.entries@[i].info.ticket_id@ != self.entries@[j].info.ticket_id@
    }

    spec fn index_of(self, k: (Seq<char>, Seq<char>)) -> int {
        choose|i: int| 0 <= i < self.entries@.len() && key_of(self.entries@[i]) == k
    }
}

pub open spec fn has_key(s: Seq<UsedTicket>, k: (Seq<char>, Seq<char>)) -> bool {
    exists|i: int| 0 <= i < s.len() && key_of(#[trigger] s[i]) == k
}

impl View for UsedTickets {
    type V = UsedMap;

    closed spec fn view(&self) -> UsedMap {
        Map::new(
            |k: (Seq<char>, Seq<char>)| has_key(self.entries@, k),
            |k: (Seq<char>, Seq<char>)| self.entries@[self.index_of(k)].info@,
        )
    }
}

impl UsedTickets {
    proof fn lemma_view_at(self, i: int)
        requires
            self.well_formed(),
            0 <= i < self.entries@.len(),
        ensures
            self@.dom().contains(key_of(self.entries@[i])),
            self@[key_of(self.entries@[i])] == self.entries@[i].info@,
    {
        let k = key_of(self.entries@[i]);
        assert(has_key(self.entries@, k));
        let j = self.index_of(k);
        assert(0 <= j < self.entries@.len() && key_of(self.entries@[j]) == k);
        assert(self.entries@[i] == self.entries@[i]);
        if j != i {
            assert(key_of(self.entries@[i]) != key_of(self.entries@[j]));
        }
    }

    proof fn lemma_unique(self)
        requires
            self.well_formed(),
        ensures
            unique_ticket_ids(self@),
    {
        assert forall|k1: (Seq<char>, Seq<char>), k2: (Seq<char>, Seq<char>)|
            self@.dom().contains(k1) && self@.dom().contains(k2) && k1 != k2 implies #[trigger] self@[k1].ticket_id
                != #[trigger] self@[k2].ticket_id by {
            let i = self.index_of(k1);
            let j = self.index_of(k2);
            self.lemma_view_at(i);
            self.lemma_view_at(j);
        }
    }

    /// The record has no entry.
    pub fn new() -> (r: UsedTickets)
        ensures
            r@ == UsedMap::empty(),
    {
        let r = UsedTickets { entries: Vec::new() };
        assert(r@ =~= UsedMap::empty());
        r
    }

    /// Number of entries.
    pub fn len(&self) -> (n: usize)
        ensures
            n == self@.dom().len(),
            self@.dom().finite(),
            unique_ticket_ids(self@),
    {
        proof {
            use_type_invariant(self);
            self.lemma_dom_is_keys();
            self.lemma_unique();
        }
        self.entries.len()
    }

    proof fn lemma_dom_is_keys(self)
        requires
            self.well_formed(),
        ensures
            self@.dom() == self.entries@.map_values(|e: UsedTicket| key_of(e)).to_set(),
            self@.dom().finite(),
            self@.dom().len() == self.entries@.len(),
    {
        let keys = self.entries@.map_values(|e: UsedTicket| key_of(e));
        assert forall|k| self@.dom().contains(k) <==> keys.to_set().contains(k) by {
            if self@.dom().contains(k) {
                let i = self.index_of(k);
                assert(keys[i] == k);
            }
            if keys.to_set().contains(k) {
                let i = choose|i: int| 0 <= i < keys.len() && keys[i] == k;
                assert(key_of(self.entries@[i]) == k);
            }
        }
        assert(self@.dom() =~= keys.to_set());
        assert(keys.no_duplicates()) by {
            assert forall|i: int, j: int| 0 <= i < keys.len() && 0 <= j < keys.len() && i != j
                implies keys[i] != keys[j] by {
                assert(key_of(self.entries@[i]) != key_of(self.entries@[j]));
            }
        }
        keys.unique_seq_to_set();
    }

    /// The entry at position `i`, for walking the record.
    pub fn entry(&self, i: usize) -> (e: &UsedTicket)
        requires
            i < self@.dom().len(),
        ensures
            self@.dom().contains(key_of(*e)),
            self@[key_of(*e)] == e.info@,
    {
        proof {
            use_type_invariant(self);
            self.lemma_dom_is_keys();
            self.lemma_view_at(i as int);
        }
        &self.entries[i]
    }

    /// Whether some record carries ticket id `tid`: the lookup of the unique
    /// index.
    pub fn ticket_id_used(&self, tid: &String) -> (r: bool)
        ensures
            r == ticket_id_in_use(self@, tid@),
    {
        proof {
            use_type_invariant(self);
        }
        let n = self.entries.len();
        let mut i: usize = 0;
        while i < n
            invariant
                n == self.entries@.len(),
                i <= n,
                self.well_formed(),
                forall|j: int| 0 <= j < i ==> self.entries@[j].info.ticket_id@ != tid@,
            decreases n - i,
        {
            if self.entries[i].info.ticket_id == *tid {
                proof {
                    self.lemma_view_at(i as int);
                    let k = key_of(self.entries@[i as int]);
                    assert(self@.dom().contains(k) && self@[k].ticket_id == tid@);
                }
                return true;
            }
            i = i + 1;
        }
        proof {
            if ticket_id_in_use(self@, tid@) {
                let k = choose|k: (Seq<char>, Seq<char>)|
                    #![trigger self@[k]]
                    self@.dom().contains(k) && self@[k].ticket_id == tid@;
                let j = self.index_of(k);
                self.lemma_view_at(j);
                assert(self.entries@[j].info.ticket_id@ == tid@);
            }
        }
        false
    }

    /// How many records `user` has.
    pub fn count_for_user(&self, user: &String) -> (n: usize)
        ensures
            tickets_of(self@, user@).finite(),
            n == tickets_of(self@, user@).len(),
    {
        proof {
            use_type_invariant(self);
        }
        let len = self.entries.len();
        let mut i: usize = 0;
        let mut count: usize = 0;
        let ghost mut seen: Set<Seq<char>> = Set::empty();
        while i < len
            invariant
                len == self.entries@.len(),
                i <= len,
                self.well_formed(),
                seen.finite(),
                count == seen.len(),
                count <= i,
                forall|t: Seq<char>|
                    seen.contains(t) <==> exists|j: int|
                        0 <= j < i && #[trigger] key_of(self.entries@[j]) == (user@, t),
            decreases len - i,
        {
            if self.entries[i].user == *user {
                proof {
                    let t = self.entries@[i as int].ticket_id@;
                    if seen.contains(t) {
                        let j = choose|j: int|
                            0 <= j < i && #[trigger] key_of(self.entries@[j]) == (user@, t);
                        assert(key_of(self.entries@[j]) != key_of(self.entries@[i as int]));
                    }
                    assert forall|t2: Seq<char>|
                        seen.insert(t).contains(t2) <==> exists|j: int|
                            0 <= j < i + 1 && #[trigger] key_of(self.entries@[j]) == (user@, t2) by {
                        if seen.insert(t).contains(t2) && t2 == t {
                            assert(key_of(self.entries@[i as int]) == (user@, t2));
                        }
                    }
                    seen = seen.insert(t);
                }
                count = count + 1;
            } else {
                proof {
                    assert forall|t2: Seq<char>|
                        seen.contains(t2) <==> exists|j: int|
                            0 <= j < i + 1 && #[trigger] key_of(self.entries@[j]) == (user@, t2) by {
                        if exists|j: int|
                            0 <= j < i + 1 && #[trigger] key_of(self.entries@[j]) == (user@, t2) {
                            let j = choose|j: int|
                                0 <= j < i + 1 && #[trigger] key_of(self.entries@[j]) == (user@, t2);
                            assert(j != i);
                        }
                    }
                }
            }
            i = i + 1;
        }
        proof {
            assert forall|t: Seq<char>| seen.contains(t) <==> tickets_of(self@, user@).contains(t) by {
                if seen.contains(t) {
                    let j = choose|j: int| 0 <= j < i && #[trigger] key_of(self.entries@[j]) == (user@, t);
                    self.lemma_view_at(j);
                }
                if tickets_of(self@, user@).contains(t) {
                    let j = self.index_of((user@, t));
                    assert(key_of(self.entries@[j]) == (user@, t));
                }
            }
            assert(seen =~= tickets_of(self@, user@));
        }
        count
    }

    /// The record of `user` with the least ticket id, which is the first that
    /// a range over the user's records returns.
    pub fn first_for_user(&self, user: &String) -> (r: Option<TicketInfo>)
        ensures
            r matches Some(info) ==> exists|t: Seq<char>| first_ticket_of(self@, user@, t) && self@[(user@, t)] == info@,
            r is None ==> tickets_of(self@, user@) == Set::<Seq<char>>::empty(),
    {
        proof {
            use_type_invariant(self);
        }
        let len = self.entries.len();
        let mut i: usize = 0;
        let mut best: Option<usize> = None;
        while i < len
            invariant
                len == self.entries@.len(),
                i <= len,
                self.well_formed(),
                best matches Some(b) ==> b < i && self.entries@[b as int].user@ == user@,
                best is None ==> forall|j: int| 0 <= j < i ==> self.entries@[j].user@ != user@,
                best matches Some(b) ==> forall|j: int|
                    0 <= j < i && j != b && self.entries@[j].user@ == user@ ==> text_lt(
                        self.entries@[b as int].ticket_id@,
                        #[trigger] self.entries@[j].ticket_id@,
                    ),
            decreases len - i,
        {
            if self.entries[i].user == *user {
                match best {
                    None => {
                        best = Some(i);
                    },
                    Some(b) => {
                        if text_less(self.entries[i].ticket_id.as_str(), self.entries[b].ticket_id.as_str()) {
                            proof {
                                let ti = self.entries@[i as int].ticket_id@;
                                let tb = self.entries@[b as int].ticket_id@;
                                assert forall|j: int|
                                    0 <= j < i + 1 && j != i && self.entries@[j].user@ == user@ implies text_lt(
                                        ti,
                                        #[trigger] self.entries@[j].ticket_id@,
                                    ) by {
                                    if j != b {
                                        lemma_text_lt_transitive(ti, tb, self.entries@[j].ticket_id@);
                                    }
                                }
                            }
                            best = Some(i);
                        } else {
                            proof {
                                let ti = self.entries@[i as int].ticket_id@;
                                let tb = self.entries@[b as int].ticket_id@;
                                assert(key_of(self.entries@[i as int]) != key_of(self.entries@[b as int]));
                                lemma_text_lt_total(ti, tb);
                            }
                        }
                    },
                }
            }
            i = i + 1;
        }
        match best {
            None => {
                proof {
                    assert forall|t: Seq<char>| !tickets_of(self@, user@).contains(t) by {
                        if self@.dom().contains((user@, t)) {
                            let j = self.index_of((user@, t));
                            assert(key_of(self.entries@[j]) == (user@, t));
                        }
                    }
                    assert(tickets_of(self@, user@) =~= Set::<Seq<char>>::empty());
                }
                None
            },
            Some(b) => {
                proof {
                    self.lemma_view_at(b as int);
                    let t = self.entries@[b as int].ticket_id@;
                    assert forall|t2: Seq<char>|
                        #[trigger] self@.dom().contains((user@, t2)) && t2 != t implies text_lt(t, t2) by {
                        let j = self.index_of((user@, t2));
                        assert(key_of(self.entries@[j]) == (user@, t2));
                    }
                    assert(first_ticket_of(self@, user@, t));
                }
                let rec = &self.entries[b].info;
                Some(TicketInfo { ticket_id: rec.ticket_id.clone(), block_used: rec.block_used })
            },
        }
    }
    /// Saves `info` under (`user`, `ticket_id`), as an indexed map with a
    /// unique index on the record's ticket id does: a record under another key
    /// with the same ticket id makes the save fail and leaves the record as it
    /// was; otherwise the entry under the key is written or replaced.
    pub fn save(&mut self, user: String, ticket_id: String, info: TicketInfo) -> (r: Result<(), StdError>)
        ensures
            r is Ok <==> !violates_unique(old(self)@, (user@, ticket_id@), info@),
            r is Ok ==> final(self)@ == old(self)@.insert((user@, ticket_id@), info@),
            r matches Err(e) ==> final(self)@ == old(self)@ && e@ == (StdErrorView::GenericErr {
                msg: "Violates unique constraint on index"@,
            }),
    {
        proof {
            use_type_invariant(&*self);
        }
        let ghost key = (user@, ticket_id@);
        let ghost old_view = self@;
        let len = self.entries.len();
        let mut i: usize = 0;
        let mut found: Option<usize> = None;
        while i < len
            invariant
                len == self.entries@.len(),
                i <= len,
                self.well_formed(),
                key == (user@, ticket_id@),
                found matches Some(f) ==> f < i && key_of(self.entries@[f as int]) == key,
                found is None ==> forall|j: int| 0 <= j < i ==> key_of(#[trigger] self.entries@[j]) != key,
                forall|j: int|
                    0 <= j < i && key_of(#[trigger] self.entries@[j]) != key
                        ==> self.entries@[j].info.ticket_id@ != info.ticket_id@,
            decreases len - i,
        {
            if self.entries[i].user == user && self.entries[i].ticket_id == ticket_id {
                found = Some(i);
            } else if self.entries[i].info.ticket_id == info.ticket_id {
                proof {
                    self.lemma_view_at(i as int);
                    let k = key_of(self.entries@[i as int]);
                    assert(self@.dom().contains(k) && k != key && self@[k].ticket_id == info@.ticket_id);
                }
                proof {
                    reveal_strlit("Violates unique constraint on index");
                }
                return Err(StdError::GenericErr { msg: String::from_str("Violates unique constraint on index") });
            }
            i = i + 1;
        }
        proof {
            if violates_unique(old_view, key, info@) {
                let k = choose|k: (Seq<char>, Seq<char>)|
                    #![trigger old_view[k]]
                    old_view.dom().contains(k) && k != key && old_view[k].ticket_id == info@.ticket_id;
                let j = self.index_of(k);
                self.lemma_view_at(j);
            }
        }
        let ghost old_entries = self.entries@;
        let entry = UsedTicket { user, ticket_id, info };
        assert(key_of(entry) == key);
        let mut updated: Vec<UsedTicket> = Vec::new();
        std::mem::swap(&mut updated, &mut self.entries);
        match found {
            Some(f) => {
                updated.set(f, entry);
            },
            None => {
                updated.push(entry);
            },
        }
        proof {
            let n = updated@;
            assert forall|j: int| 0 <= j < n.len() && key_of(#[trigger] n[j]) != key implies n[j] == old_entries[j] by {}
            assert(forall|j: int| 0 <= j < n.len() && key_of(#[trigger] n[j]) == key ==> n[j] == entry);
        }
        self.entries = updated;
        proof {
            let n = self.entries@;
            assert forall|j: int| 0 <= j < n.len() && key_of(#[trigger] n[j]) != key implies n[j] == old_entries[j] by {}
            assert(forall|j: int| 0 <= j < n.len() && key_of(#[trigger] n[j]) == key ==> n[j] == entry);
            assert(self.well_formed());
            assert forall|k: (Seq<char>, Seq<char>)| #[trigger] self@.dom().contains(k) <==> old_view.insert(key, info@).dom().contains(k) by {
                if k != key && old_view.dom().contains(k) {
                    let j = choose|j: int| 0 <= j < old_entries.len() && key_of(#[trigger] old_entries[j]) == k;
                    assert(key_of(n[j]) == k);
                }
                if k == key {
                    let j = if found is Some { found->0 as int } else { old_entries.len() as int };
                    assert(key_of(n[j]) == k);
                }
                if self@.dom().contains(k) && k != key {
                    let j = choose|j: int| 0 <= j < n.len() && key_of(#[trigger] n[j]) == k;
                    assert(key_of(old_entries[j]) == k);
                }
            }
            assert forall|k: (Seq<char>, Seq<char>)| #[trigger] self@.dom().contains(k) implies self@[k] == old_view.insert(key, info@)[k] by {
                let j = self.index_of(k);
                self.lemma_view_at(j);
                if k != key {
                    assert(n[j] == old_entries[j]);
                    assert(has_key(old_entries, k));
                    let j0 = choose|i: int| 0 <= i < old_entries.len() && key_of(old_entries[i]) == k;
                    assert(j0 == j) by {
                        if j0 != j {
                            assert(key_of(n[j0]) == key_of(old_entries[j0]));
                        }
                    }
                }
            }
            assert(self@ =~= old_view.insert(key, info@));
        }
        Ok(())
    }
}

/// The name and version under which the contract is recorded.
#[derive(Debug, Clone, PartialEq, Eq)]
pub struct ContractVersion {
    pub contract: String,
    pub version: String,
}

/// Everything the hub keeps in storage. A missing item is `None`.
pub struct HubState {
    pub contract_version: Option<ContractVersion>,
    pub config: Option<Configuration>,
    pub ticker: Option<u32>,
    pub used_tickets: UsedTickets,
}

pub struct HubStateView {
    pub contract_version: Option<(Seq<char>, Seq<char>)>,
    pub config: Option<ConfigurationView>,
    pub ticker: Option<u32>,
    pub used: UsedMap,
}

impl View for HubState {
    type V = HubStateView;

    open spec fn view(&self) -> HubStateView {
        HubStateView {
            contract_version: match self.contract_version {
                Some(v) => Some((v.contract@, v.version@)),
                None => None,
            },
            config: match self.config {
                Some(c) => Some(c@),
                None => None,
            },
            ticker: self.ticker,
            used: self.used_tickets@,
        }
    }
}

/// The error of loading the configuration before it was saved: the storage
/// names the type and the key ("ticket_hub_config") of the missing item.
pub open spec fn config_not_found() -> StdErrorView {
    StdErrorView::NotFound { kind: "type: hub::state::Configuration; key: [74, 69, 63, 6B, 65, 74, 5F, 68, 75, 62, 5F, 63, 6F, 6E, 66, 69, 67]"@ }
}

/// The error of loading the ticket counter (key "ticker") before it was saved.
pub open spec fn ticker_not_found() -> StdErrorView {
    StdErrorView::NotFound { kind: "type: u32; key: [74, 69, 63, 6B, 65, 72]"@ }
}

impl HubState {
    /// Storage before the contract was instantiated: nothing is saved.
    pub fn new() -> (s: HubState)
        ensures
            s@ == (HubStateView { contract_version: None, config: None, ticker: None, used: UsedMap::empty() }),
    {
        HubState { contract_version: None, config: None, ticker: None, used_tickets: UsedTickets::new() }
    }

    /// Loads the configuration.
    pub fn load_config(&self) -> (r: Result<Configuration, StdError>)
        ensures
            match self@.config {
                Some(c) => r matches Ok(v) && v@ == c,
                None => r matches Err(e) && e@ == config_not_found(),
            },
    {
        match &self.config {
            Some(c) => Ok(Configuration { admin: c.admin.clone(), ticket_nft_addr: c.ticket_nft_addr.clone() }),
            None => Err(StdError::NotFound { kind: String::from_str("type: hub::state::Configuration; key: [74, 69, 63, 6B, 65, 74, 5F, 68, 75, 62, 5F, 63, 6F, 6E, 66, 69, 67]") }),
        }
    }

    /// Loads the ticket counter.
    pub fn load_ticker(&self) -> (r: Result<u32, StdError>)
        ensures
            match self@.ticker {
                Some(t) => r == Ok::<u32, StdError>(t),
                None => r matches Err(e) && e@ == ticker_not_found(),
            },
    {
        match self.ticker {
            Some(t) => Ok(t),
            None => Err(StdError::NotFound { kind: String::from_str("type: u32; key: [74, 69, 63, 6B, 65, 72]") }),
        }
    }
}

} // verus!
