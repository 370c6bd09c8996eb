//! The ledger client's local half: what a query costs, what the data owner
//! earns, and the daily totals. Everything here is computed without the
//! ledger; the transfers themselves are carried out by the caller.

use vstd::prelude::*;
use vstd::string::*;
use vstd::utf8::encode_utf8;
use crate::models::account::AccountId;
use crate::models::dashboard::DailyStats;
use crate::services::admin_institution_service::AdminService;
use crate::services::dashboard_service::{day_start, start_of_day, DashboardService};
use crate::utils::error::Error;
use crate::utils::keyed::{StoreKey, VecMap};
use crate::utils::principal::{account_text, principal_text, MAX_ACCOUNT_BYTES};
use crate::utils::text::{decimal_text, join, u64_to_decimal};

verus! {

/// What one institution has earned and spent today.
#[derive(Clone, Copy, Debug, PartialEq, Eq, Structural)]
pub struct InstitutionDailyStats {
    pub rewards: u64,
    pub consumption: u64,
    pub last_update: u64,
}

/// The parameters of one transfer on the ledger.
#[derive(Debug)]
pub struct TokenTransferArgs {
    pub to: AccountId,
    pub amount: u64,
    pub memo: Vec<u8>,
    pub from_subaccount: Option<Vec<u8>>,
    pub to_subaccount: Option<Vec<u8>>,
    pub created_at_time: Option<u64>,
}

/// The memo of a query fee for a subject.
pub open spec fn fee_memo(user_did: Seq<char>) -> Seq<u8> {
    encode_utf8("Query credit record for user "@ + user_did)
}

/// The memo of a reward of `amount` tokens at a share of `ratio` percent.
pub open spec fn reward_memo(amount: u64, ratio: u32) -> Seq<u8> {
    encode_utf8(
        "Reward for data query: "@ + decimal_text(amount as nat) + " DCC ("@ + decimal_text(
            ratio as nat,
        ) + "% share)"@,
    )
}

/// The reward on a query price at a share of `ratio` percent, rounded down.
pub open spec fn reward_amount(base_amount: u64, ratio: u32) -> int {
    (base_amount as int * ratio as int) / 100
}

/// Whether `args` is the transfer of `amount` tokens to `to` with the given
/// memo, created at time `now`, between default subaccounts.
pub open spec fn is_transfer(
    args: TokenTransferArgs,
    to: Seq<u8>,
    amount: u64,
    memo: Seq<u8>,
    now: u64,
) -> bool {
    &&& args.to@ == to
    &&& args.amount == amount
    &&& args.memo@ == memo
    &&& args.from_subaccount.is_none()
    &&& args.to_subaccount.is_none()
    &&& args.created_at_time == Some(now)
}

/// The entry of an institution after it has earned `rewards` and spent
/// `consumption` at time `now`; an institution without an entry starts from
/// zero. Totals stop at the largest value they can hold.
pub open spec fn stats_after(
    stats: Map<Seq<u8>, InstitutionDailyStats>,
    id: Seq<u8>,
    rewards: u64,
    consumption: u64,
    now: u64,
) -> InstitutionDailyStats {
    let base = if stats.contains_key(id) {
        stats[id]
    } else {
        InstitutionDailyStats { rewards: 0, consumption: 0, last_update: now }
    };
    InstitutionDailyStats {
        rewards: base.rewards.saturating_add(rewards),
        consumption: base.consumption.saturating_add(consumption),
        last_update: now,
    }
}

/// Today's dashboard totals after `rewards` were earned and `consumption`
/// was spent.
pub open spec fn totals_after(totals: DailyStats, rewards: u64, consumption: u64) -> DailyStats {
    DailyStats {
        token_rewards: totals.token_rewards.saturating_add(rewards),
        token_consumption: totals.token_consumption.saturating_add(consumption),
        ..totals
    }
}

/// The text that reports an unknown institution.
pub open spec fn not_found_message(id: Seq<u8>) -> Seq<char> {
    "Institution not found: "@ + if id.len() <= 29 {
        principal_text(id)
    } else {
        Seq::empty()
    }
}

/// The reward that a query of the data of institution `id` earns it: its
/// query price times its reward share, where the institution is registered,
/// its share is at most one hundred percent and the product is not zero.
pub open spec fn reward_due(registry: AdminService, id: Seq<u8>) -> Option<u64> {
    if !registry.institutions().contains_key(id) {
        None
    } else {
        let inst = registry.institutions()[id];
        let amount = reward_amount(inst.query_price, inst.reward_share_ratio as u32);
        if inst.reward_share_ratio > 100 || amount == 0 {
            None
        } else {
            Some(amount as u64)
        }
    }
}

/// The totals that were last updated at `start` or later.
pub open spec fn stats_since(
    stats: Map<Seq<u8>, InstitutionDailyStats>,
    start: u64,
) -> Map<Seq<u8>, InstitutionDailyStats> {
    Map::new(
        |id: Seq<u8>| stats.contains_key(id) && stats[id].last_update >= start,
        |id: Seq<u8>| stats[id],
    )
}

/// The daily totals per institution, when they were last synchronised, and
/// the layout version.
pub struct TokenState {
    daily_stats: VecMap<AccountId, InstitutionDailyStats>,
    last_sync: u64,
    version: u32,
}

/// The settlement side of the service.
pub struct TokenService {
    state: TokenState,
    token_canister_id: AccountId,
}

impl TokenService {
    /// Today's totals, by institution.
    pub closed spec fn daily_stats(&self) -> Map<Seq<u8>, InstitutionDailyStats> {
        self.state.daily_stats@
    }

    /// When the totals were last synchronised.
    pub closed spec fn last_sync(&self) -> u64 {
        self.state.last_sync
    }

    /// The layout version of the state.
    pub closed spec fn version(&self) -> u32 {
        self.state.version
    }

    /// The account of the ledger.
    pub closed spec fn ledger(&self) -> Seq<u8> {
        self.token_canister_id@
    }

    /// The totals are well formed.
    pub closed spec fn wf(&self) -> bool {
        self.state.daily_stats.wf()
    }

    /// A service for the ledger at `token_canister_id`, created at `now`.
    pub fn new(token_canister_id: AccountId, now: u64) -> (service: Self)
        ensures
            service.wf(),
            service.ledger() == token_canister_id@,
            service.daily_stats() == Map::<Seq<u8>, InstitutionDailyStats>::empty(),
            service.last_sync() == now,
            service.version() == 1,
    {
        let service = TokenService {
            state: TokenState { daily_stats: VecMap::new(), last_sync: now, version: 1 },
            token_canister_id,
        };
        assert(service.daily_stats() =~= Map::<Seq<u8>, InstitutionDailyStats>::empty());
        service
    }

    /// The account of the ledger.
    pub fn token_canister_id(&self) -> (id: &AccountId)
        ensures
            id@ == self.ledger(),
    {
        &self.token_canister_id
    }

    /// Today's totals of one institution.
    pub fn get_daily_stats(&self, institution_id: &AccountId) -> (found: Option<
        InstitutionDailyStats,
    >)
        requires
            self.wf(),
        ensures
            match found {
                Some(stats) => self.daily_stats().contains_key(institution_id@) && stats
                    == self.daily_stats()[institution_id@],
                None => !self.daily_stats().contains_key(institution_id@),
            },
    {
        match self.state.daily_stats.get(institution_id) {
            Some(stats) => Some(*stats),
            None => None,
        }
    }

    /// The reward on `base_amount` at a share of `ratio` percent, rounded
    /// down. Fails with `InvalidData("Invalid reward ratio")` exactly when
    /// the share is above one hundred percent.
    pub fn calculate_reward_amount(base_amount: u64, ratio: u32) -> (out: Result<u64, Error>)
        ensures
            ratio > 100 ==> out is Err && out->Err_0 is InvalidData
                && out->Err_0->InvalidData_0@ == "Invalid reward ratio"@,
            ratio <= 100 ==> out is Ok && out->Ok_0 == reward_amount(base_amount, ratio),
    {
        if ratio > 100 {
            return Err(Error::InvalidData(String::from_str("Invalid reward ratio")));
        }
        assert(0 <= base_amount as int * ratio as int <= base_amount as int * 100) by (nonlinear_arith)
            requires
                0 <= ratio <= 100,
                0 <= base_amount,
        ;
        let product: u128 = (base_amount as u128) * (ratio as u128);
        let amount: u128 = product / 100;
        Ok(amount as u64)
    }

    /// Adds what an institution has earned and spent at time `now` to its
    /// totals for today and to the totals of the dashboard.
    pub fn update_stats(
        &mut self,
        dashboard: &mut DashboardService,
        institution_id: &AccountId,
        rewards: u64,
        consumption: u64,
        now: u64,
    )
        requires
            old(self).wf(),
        ensures
            final(self).wf(),
            final(self).daily_stats() == old(self).daily_stats().insert(
                institution_id@,
                stats_after(old(self).daily_stats(), institution_id@, rewards, consumption, now),
            ),
            final(self).last_sync() == old(self).last_sync(),
            final(self).version() == old(self).version(),
            final(self).ledger() == old(self).ledger(),
            final(dashboard).daily_stats() == totals_after(
                old(dashboard).daily_stats(),
                rewards,
                consumption,
            ),
            final(dashboard).api_quota_limit() == old(dashboard).api_quota_limit(),
    {
        let base = match self.state.daily_stats.get(institution_id) {
            Some(stats) => *stats,
            None => InstitutionDailyStats { rewards: 0, consumption: 0, last_update: now },
        };
        let updated = InstitutionDailyStats {
            rewards: base.rewards.saturating_add(rewards),
            consumption: base.consumption.saturating_add(consumption),
            last_update: now,
        };
        self.state.daily_stats.insert(institution_id.clone(), updated);
        dashboard.update_token_stats(rewards, consumption);
    }

    /// Prepares the fee transfer for a query: `query_price` tokens to the
    /// data owner `to_id`, charged to `from_id` in today's totals. Never
    /// fails.
    pub fn prepare_query_fee(
        &mut self,
        dashboard: &mut DashboardService,
        from_id: &AccountId,
        to_id: &AccountId,
        user_did: String,
        query_price: u64,
        now: u64,
    ) -> (out: Result<TokenTransferArgs, Error>)
        requires
            old(self).wf(),
        ensures
            final(self).wf(),
            out is Ok,
            is_transfer(out->Ok_0, to_id@, query_price, fee_memo(user_did@), now),
            final(self).daily_stats() == old(self).daily_stats().insert(
                from_id@,
                stats_after(old(self).daily_stats(), from_id@, 0, query_price, now),
            ),
            final(self).last_sync() == old(self).last_sync(),
            final(self).version() == old(self).version(),
            final(self).ledger() == old(self).ledger(),
            final(dashboard).daily_stats() == totals_after(
                old(dashboard).daily_stats(),
                0,
                query_price,
            ),
            final(dashboard).api_quota_limit() == old(dashboard).api_quota_limit(),
    {
        let remarks = join("Query credit record for user ", user_did.as_str());
        let transfer_args = TokenTransferArgs {
            to: to_id.clone(),
            amount: query_price,
            memo: remarks.as_str().as_bytes_vec(),
            from_subaccount: None,
            to_subaccount: None,
            created_at_time: Some(now),
        };
        self.update_stats(dashboard, from_id, 0, query_price, now);
        Ok(transfer_args)
    }

    /// Prepares the reward transfer for a query of the data of
    /// `institution_id`. Fails with `ResourceNotFound` for an unknown
    /// institution and with `InvalidData("Invalid reward ratio")` for a
    /// share above one hundred percent. Where the reward comes to zero no
    /// transfer is prepared and nothing changes. Otherwise the reward goes to
    /// the institution and is added to its totals for today.
    pub fn prepare_query_reward(
        &mut self,
        registry: &AdminService,
        dashboard: &mut DashboardService,
        institution_id: &AccountId,
        user_did: String,
        now: u64,
    ) -> (out: Result<Option<TokenTransferArgs>, Error>)
        requires
            old(self).wf(),
            registry.wf(),
        ensures
            final(self).wf(),
            final(self).last_sync() == old(self).last_sync(),
            final(self).version() == old(self).version(),
            final(self).ledger() == old(self).ledger(),
            final(dashboard).api_quota_limit() == old(dashboard).api_quota_limit(),
            !registry.institutions().contains_key(institution_id@) ==> out is Err
                && out->Err_0 is ResourceNotFound && out->Err_0->ResourceNotFound_0@
                == not_found_message(institution_id@),
            registry.institutions().contains_key(institution_id@)
                && registry.institutions()[institution_id@].reward_share_ratio > 100 ==> out is Err
                && out->Err_0 is InvalidData && out->Err_0->InvalidData_0@
                == "Invalid reward ratio"@,
            registry.institutions().contains_key(institution_id@)
                && registry.institutions()[institution_id@].reward_share_ratio <= 100 ==> out is Ok
                && (out->Ok_0 is Some <==> reward_due(*registry, institution_id@) is Some),
            match reward_due(*registry, institution_id@) {
                Some(amount) => {
                    &&& out is Ok
                    &&& out->Ok_0 is Some
                    &&& is_transfer(
                        out->Ok_0->Some_0,
                        institution_id@,
                        amount,
                        reward_memo(
                            amount,
                            registry.institutions()[institution_id@].reward_share_ratio as u32,
                        ),
                        now,
                    )
                    &&& final(self).daily_stats() == old(self).daily_stats().insert(
                        institution_id@,
                        stats_after(old(self).daily_stats(), institution_id@, amount, 0, now),
                    )
                    &&& final(dashboard).daily_stats() == totals_after(
                        old(dashboard).daily_stats(),
                        amount,
                        0,
                    )
                },
                None => {
                    &&& final(self).daily_stats() == old(self).daily_stats()
                    &&& final(dashboard).daily_stats() == old(dashboard).daily_stats()
                },
            },
    {
        let institution = match registry.get_institution(institution_id) {
            Some(inst) => inst,
            None => {
                let text = if institution_id.as_bytes().len() <= MAX_ACCOUNT_BYTES {
                    account_text(institution_id.as_bytes())
                } else {
                    String::new()
                };
                let message = join("Institution not found: ", text.as_str());
                return Err(Error::ResourceNotFound(message));
            },
        };
        let ratio: u32 = institution.reward_share_ratio as u32;
        let reward = match Self::calculate_reward_amount(institution.query_price, ratio) {
            Ok(amount) => amount,
            Err(e) => {
                return Err(e);
            },
        };
        if reward == 0 {
            return Ok(None);
        }
        let amount_text = u64_to_decimal(reward);
        let ratio_text = u64_to_decimal(ratio as u64);
        let mut remarks = join("Reward for data query: ", amount_text.as_str());
        remarks.append(" DCC (");
        remarks.append(ratio_text.as_str());
        remarks.append("% share)");
        let transfer_args = TokenTransferArgs {
            to: institution_id.clone(),
            amount: reward,
            memo: remarks.as_str().as_bytes_vec(),
            from_subaccount: None,
            to_subaccount: None,
            created_at_time: Some(now),
        };
        self.update_stats(dashboard, institution_id, reward, 0, now);
        Ok(Some(transfer_args))
    }

    /// Decides on a fee transfer once the payer's balance is known. A balance
    /// that could not be read gives `NetworkError` with the ledger's message.
    /// A balance below the amount gives no transfer and changes nothing.
    /// Otherwise the fee transfer is prepared as by
    /// [`TokenService::prepare_query_fee`].
    pub fn check_and_prepare_transfer(
        &mut self,
        dashboard: &mut DashboardService,
        balance: Result<u64, String>,
        from_id: &AccountId,
        to_id: &AccountId,
        amount: u64,
        user_did: String,
        now: u64,
    ) -> (out: Result<Option<TokenTransferArgs>, Error>)
        requires
            old(self).wf(),
        ensures
            final(self).wf(),
            final(self).last_sync() == old(self).last_sync(),
            final(self).version() == old(self).version(),
            final(self).ledger() == old(self).ledger(),
            final(dashboard).api_quota_limit() == old(dashboard).api_quota_limit(),
            match balance {
                Err(message) => {
                    &&& out is Err
                    &&& out->Err_0 is NetworkError
                    &&& out->Err_0->NetworkError_0@ == message@
                    &&& final(self).daily_stats() == old(self).daily_stats()
                    &&& final(dashboard).daily_stats() == old(dashboard).daily_stats()
                },
                Ok(held) => if held < amount {
                    &&& out is Ok
                    &&& out->Ok_0 is None
                    &&& final(self).daily_stats() == old(self).daily_stats()
                    &&& final(dashboard).daily_stats() == old(dashboard).daily_stats()
                } else {
                    &&& out is Ok
                    &&& out->Ok_0 is Some
                    &&& is_transfer(out->Ok_0->Some_0, to_id@, amount, fee_memo(user_did@), now)
                    &&& final(self).daily_stats() == old(self).daily_stats().insert(
                        from_id@,
                        stats_after(old(self).daily_stats(), from_id@, 0, amount, now),
                    )
                    &&& final(dashboard).daily_stats() == totals_after(
                        old(dashboard).daily_stats(),
                        0,
                        amount,
                    )
                },
            },
    {
        let held = match balance {
            Ok(held) => held,
            Err(message) => {
                return Err(Error::NetworkError(message));
            },
        };
        if held < amount {
            return Ok(None);
        }
        match self.prepare_query_fee(dashboard, from_id, to_id, user_did, amount, now) {
            Ok(args) => Ok(Some(args)),
            Err(e) => Err(e),
        }
    }

    /// Drops the totals that were last updated before the day that holds
    /// `now`, and notes `now` as the time of synchronisation.
    pub fn clean_expired_stats(&mut self, now: u64)
        requires
            old(self).wf(),
        ensures
            final(self).wf(),
            final(self).daily_stats() == stats_since(old(self).daily_stats(), day_start(now)),
            final(self).last_sync() == now,
            final(self).version() == old(self).version(),
            final(self).ledger() == old(self).ledger(),
    {
        let today_start = start_of_day(now);
        let n = self.state.daily_stats.len();
        let mut kept: VecMap<AccountId, InstitutionDailyStats> = VecMap::new();
        let mut i: usize = 0;
        proof {
            self.state.daily_stats.lemma_wf();
        }
        while i < n
            invariant
                self.wf(),
                *self == *old(self),
                kept.wf(),
                n == self.state.daily_stats.keys().len(),
                n == self.state.daily_stats.values().len(),
                self.state.daily_stats.keys().no_duplicates(),
                today_start == day_start(now),
                0 <= i <= n,
                forall|j: int|
                    0 <= j < n ==> #[trigger] self.state.daily_stats.position(
                        self.state.daily_stats.keys()[j],
                    ) == Some(j),
                forall|id: Seq<u8>|
                    kept@.contains_key(id) <==> exists|j: int|
                        0 <= j < i && #[trigger] self.state.daily_stats.keys()[j] == id
                            && self.state.daily_stats.values()[j].last_update >= today_start,
                forall|id: Seq<u8>|
                    kept@.contains_key(id) ==> #[trigger] kept@[id] == self.state.daily_stats@[id],
            decreases n - i,
        {
            let stats = *self.state.daily_stats.value_at(i);
            let ghost key = self.state.daily_stats.keys()[i as int];
            proof {
                assert(self.state.daily_stats.position(key) == Some(i as int));
                assert(self.state.daily_stats@[key] == stats);
            }
            if stats.last_update >= today_start {
                let id = self.state.daily_stats.key_at(i).copy_key();
                let ghost before = kept@;
                kept.insert(id, stats);
                assert forall|other: Seq<u8>| kept@.contains_key(other) implies exists|j: int|
                    0 <= j < i + 1 && #[trigger] self.state.daily_stats.keys()[j] == other
                        && self.state.daily_stats.values()[j].last_update >= today_start by {
                    if other == key {
                        assert(self.state.daily_stats.keys()[i as int] == other);
                    } else {
                        assert(before.contains_key(other));
                        let j = choose|j: int|
                            0 <= j < i && #[trigger] self.state.daily_stats.keys()[j] == other
                                && self.state.daily_stats.values()[j].last_update >= today_start;
                        assert(self.state.daily_stats.keys()[j] == other);
                    }
                }
                assert forall|other: Seq<u8>|
                    (exists|j: int|
                        0 <= j < i + 1 && #[trigger] self.state.daily_stats.keys()[j] == other
                            && self.state.daily_stats.values()[j].last_update
                            >= today_start) implies kept@.contains_key(other) by {
                    let j = choose|j: int|
                        0 <= j < i + 1 && #[trigger] self.state.daily_stats.keys()[j] == other
                            && self.state.daily_stats.values()[j].last_update >= today_start;
                    if j < i {
                        assert(before.contains_key(other));
                    }
                }
            } else {
                assert forall|other: Seq<u8>|
                    (exists|j: int|
                        0 <= j < i + 1 && #[trigger] self.state.daily_stats.keys()[j] == other
                            && self.state.daily_stats.values()[j].last_update
                            >= today_start) implies kept@.contains_key(other) by {
                    let j = choose|j: int|
                        0 <= j < i + 1 && #[trigger] self.state.daily_stats.keys()[j] == other
                            && self.state.daily_stats.values()[j].last_update >= today_start;
                    assert(j < i);
                }
            }
            i += 1;
        }
        proof {
            let old_stats = self.state.daily_stats@;
            assert forall|id: Seq<u8>| kept@.contains_key(id) <==> stats_since(
                old_stats,
                today_start,
            ).contains_key(id) by {
                if kept@.contains_key(id) {
                    let j = choose|j: int|
                        0 <= j < n && #[trigger] self.state.daily_stats.keys()[j] == id
                            && self.state.daily_stats.values()[j].last_update >= today_start;
                    assert(self.state.daily_stats.position(self.state.daily_stats.keys()[j])
                        == Some(j));
                }
                if stats_since(old_stats, today_start).contains_key(id) {
                    let j = self.state.daily_stats.keys().index_of(id);
                    assert(self.state.daily_stats.keys()[j] == id);
                }
            }
            assert(kept@ =~= stats_since(old_stats, today_start));
        }
        self.state.daily_stats = kept;
        self.state.last_sync = now;
    }

    /// Prepares a deduction of `amount` tokens from an account whose balance
    /// is known: the transfer names the account itself and carries `memo`.
    /// Fails with "余额不足: 当前 … < 需要 …" where the balance is too low.
    pub fn prepare_deduction(from_id: &AccountId, balance: u64, amount: u64, memo: String, now: u64) -> (out:
        Result<TokenTransferArgs, String>)
        ensures
            out is Ok <==> balance >= amount,
            out is Ok ==> is_transfer(out->Ok_0, from_id@, amount, encode_utf8(memo@), now),
            out is Err ==> out->Err_0@ == "余额不足: 当前 "@ + decimal_text(balance as nat)
                + " < 需要 "@ + decimal_text(amount as nat),
    {
        if balance < amount {
            let held = u64_to_decimal(balance);
            let needed = u64_to_decimal(amount);
            let mut message = join("余额不足: 当前 ", held.as_str());
            message.append(" < 需要 ");
            message.append(needed.as_str());
            return Err(message);
        }
        Ok(
            TokenTransferArgs {
                to: from_id.clone(),
                amount,
                memo: memo.as_str().as_bytes_vec(),
                from_subaccount: None,
                to_subaccount: None,
                created_at_time: Some(now),
            },
        )
    }
}

} // verus!
