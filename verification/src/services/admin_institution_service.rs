//! The institution registry: who takes part, at what price they serve their
//! data, and the counters that uploads and queries move.

use vstd::prelude::*;
use vstd::string::*;
use vstd::utf8::encode_utf8;
use crate::models::account::AccountId;
use crate::models::institution::{
    CreditScore,
    Institution,
    InstitutionStatus,
    InstitutionView,
    LoginRequest,
    LoginResponse,
    RegisterRequest,
    TokenTrading,
    UpdateServiceSettingsRequest,
};
use crate::models::record::{settlement_for, CreditRecord, TokenOperation};
use crate::utils::digest::{hex_encode, hex_text, sha256, sha256_digest};
use crate::utils::keyed::VecMap;
use crate::utils::principal::{parse_account, principal_parse};
use crate::utils::seqs::{lemma_filter_take_step, lemma_take_all};

verus! {

/// The password given to an institution that registers without one.
pub const DEFAULT_PASSWORD: &'static str = "123";

/// The credit score an institution starts with.
pub const INITIAL_CREDIT_SCORE: u64 = 80;

/// The highest credit score.
pub const MAX_CREDIT_SCORE: u64 = 100;

/// The reward share, in percent, that updated service settings carry.
pub const SERVICE_REWARD_SHARE: u8 = 10;

/// The stored form of a password: the hexadecimal text of its digest.
pub open spec fn password_hash_of(password: Seq<u8>) -> Seq<char> {
    hex_text(sha256_digest(password))
}

/// The institution that a registration at time `now` creates.
pub open spec fn fresh_institution(
    id: Seq<u8>,
    name: Seq<char>,
    full_name: Seq<char>,
    password: Seq<u8>,
    now: u64,
) -> InstitutionView {
    InstitutionView {
        id,
        name,
        full_name,
        password_hash: password_hash_of(password),
        status: InstitutionStatus::Inactive,
        join_time: now,
        last_active: now,
        api_calls: 0,
        dcc_consumed: 0,
        data_uploads: 0,
        credit_score: CreditScore { score: 80, last_update: now },
        token_trading: TokenTrading { bought: 0, sold: 0 },
        data_service_enabled: true,
        query_price: 0,
        reward_share_ratio: 0,
        inbound_queries: 0,
        outbound_queries: 0,
        rewards: 0,
        consumption: 0,
        balance: 0,
    }
}

/// `map` with the institution under `id`, if there is one, replaced by
/// `change` of it.
pub open spec fn changed(
    map: Map<Seq<u8>, InstitutionView>,
    id: Seq<u8>,
    change: spec_fn(InstitutionView) -> InstitutionView,
) -> Map<Seq<u8>, InstitutionView> {
    if map.contains_key(id) {
        map.insert(id, change(map[id]))
    } else {
        map
    }
}

/// An institution after `count` uploads at time `now`.
pub open spec fn after_upload(inst: InstitutionView, count: u64, now: u64) -> InstitutionView {
    InstitutionView {
        data_uploads: inst.data_uploads.saturating_add(count),
        last_active: now,
        ..inst
    }
}

/// An institution after one more query of another institution's data.
pub open spec fn after_outbound_query(inst: InstitutionView) -> InstitutionView {
    InstitutionView { outbound_queries: inst.outbound_queries.saturating_add(1), ..inst }
}

/// An institution after one more query of its data by another institution.
pub open spec fn after_inbound_query(inst: InstitutionView) -> InstitutionView {
    InstitutionView { inbound_queries: inst.inbound_queries.saturating_add(1), ..inst }
}

/// The reader of a record after `count` calls at time `now`; `foreign` tells
/// whether the record belongs to another institution.
pub open spec fn after_api_call(
    inst: InstitutionView,
    foreign: bool,
    count: u64,
    now: u64,
) -> InstitutionView {
    InstitutionView {
        api_calls: inst.api_calls.saturating_add(count),
        outbound_queries: if foreign {
            inst.outbound_queries.saturating_add(count)
        } else {
            inst.outbound_queries
        },
        last_active: now,
        ..inst
    }
}

/// The owner of a record after `count` reads by another institution at time
/// `now`.
pub open spec fn after_being_read(inst: InstitutionView, count: u64, now: u64) -> InstitutionView {
    InstitutionView {
        inbound_queries: inst.inbound_queries.saturating_add(count),
        last_active: now,
        ..inst
    }
}

/// An institution with new service settings: the switch and the price are
/// taken from the request, the reward share is set to ten percent.
pub open spec fn with_settings(
    inst: InstitutionView,
    request: UpdateServiceSettingsRequest,
) -> InstitutionView {
    InstitutionView {
        data_service_enabled: request.data_service_enabled,
        query_price: request.query_price,
        reward_share_ratio: 10,
        ..inst
    }
}

/// An institution switched on or off at time `now`.
pub open spec fn with_activity(inst: InstitutionView, is_active: bool, now: u64) -> InstitutionView {
    InstitutionView {
        status: if is_active {
            InstitutionStatus::Active
        } else {
            InstitutionStatus::Inactive
        },
        last_active: now,
        ..inst
    }
}

/// An institution with a new credit score, set at time `now`.
pub open spec fn with_score(inst: InstitutionView, score: u64, now: u64) -> InstitutionView {
    InstitutionView { credit_score: CreditScore { score, last_update: now }, ..inst }
}

/// The registry's institutions after `reader` has read, `count` times at
/// time `now`, a record owned by `owner`.
pub open spec fn after_read(
    map: Map<Seq<u8>, InstitutionView>,
    reader: Seq<u8>,
    owner: Seq<u8>,
    count: u64,
    now: u64,
) -> Map<Seq<u8>, InstitutionView> {
    let counted = changed(
        map,
        reader,
        |inst: InstitutionView| after_api_call(inst, owner != reader, count, now),
    );
    if owner != reader {
        changed(counted, owner, |inst: InstitutionView| after_being_read(inst, count, now))
    } else {
        counted
    }
}

/// An institution after it has bought (`is_buy`) or sold `amount` tokens at
/// time `now`. Totals and balance stop at the bounds of their range.
pub open spec fn after_trading(
    inst: InstitutionView,
    is_buy: bool,
    amount: u64,
    now: u64,
) -> InstitutionView {
    if is_buy {
        InstitutionView {
            token_trading: TokenTrading {
                bought: inst.token_trading.bought.saturating_add(amount),
                sold: inst.token_trading.sold,
            },
            balance: inst.balance.saturating_add(amount),
            last_active: now,
            ..inst
        }
    } else {
        InstitutionView {
            token_trading: TokenTrading {
                bought: inst.token_trading.bought,
                sold: inst.token_trading.sold.saturating_add(amount),
            },
            balance: inst.balance.saturating_sub(amount),
            last_active: now,
            ..inst
        }
    }
}

/// An institution after a reward of `amount` tokens at time `now`.
pub open spec fn after_reward(inst: InstitutionView, amount: u64, now: u64) -> InstitutionView {
    InstitutionView {
        rewards: inst.rewards.saturating_add(amount),
        balance: inst.balance.saturating_add(amount),
        last_active: now,
        ..inst
    }
}

/// An institution after it has spent `amount` tokens at time `now`.
pub open spec fn after_consumption(inst: InstitutionView, amount: u64, now: u64) -> InstitutionView {
    InstitutionView {
        consumption: inst.consumption.saturating_add(amount),
        balance: inst.balance.saturating_sub(amount),
        last_active: now,
        ..inst
    }
}

/// An institution that was last active at time `now`.
pub open spec fn seen_at(inst: InstitutionView, now: u64) -> InstitutionView {
    InstitutionView { last_active: now, ..inst }
}

/// An institution with another stored password.
pub open spec fn with_password(inst: InstitutionView, password: Seq<u8>) -> InstitutionView {
    InstitutionView { password_hash: password_hash_of(password), ..inst }
}

/// Whether `password` is the password of the institution registered under
/// `name`.
pub open spec fn credentials_hold(
    names: Map<Seq<char>, Seq<u8>>,
    institutions: Map<Seq<u8>, InstitutionView>,
    name: Seq<char>,
    password: Seq<u8>,
) -> bool {
    &&& names.contains_key(name)
    &&& institutions.contains_key(names[name])
    &&& institutions[names[name]].password_hash == password_hash_of(password)
}

/// The password a registration request asks for: its own, or the default.
pub open spec fn requested_password(password: Option<String>) -> Seq<char> {
    match password {
        Some(p) => p@,
        None => "123"@,
    }
}

/// The institutions a caller has registered so far.
pub open spec fn registered_so_far(
    map: Map<Seq<u8>, Seq<Seq<u8>>>,
    caller: Seq<u8>,
) -> Seq<Seq<u8>> {
    if map.contains_key(caller) {
        map[caller]
    } else {
        Seq::empty()
    }
}

/// The registry of institutions.
pub struct AdminService {
    institutions: VecMap<AccountId, Institution>,
    name_to_id: VecMap<String, AccountId>,
    caller_institutions: VecMap<AccountId, Vec<AccountId>>,
}

/// What a registration does, given the identifier that the request's
/// principal text denotes.
pub open spec fn register_outcome(
    before: AdminService,
    after: AdminService,
    request: RegisterRequest,
    id: Option<Seq<u8>>,
    caller: Seq<u8>,
    now: u64,
    out: Result<AccountId, String>,
) -> bool {
    if id.is_none() {
        &&& out is Err
        &&& out->Err_0@ == "Invalid Principal ID format"@
        &&& after.institutions() == before.institutions()
        &&& after.order() == before.order()
        &&& after.names() == before.names()
        &&& after.registered_by() == before.registered_by()
    } else if before.names().contains_key(request.name@) {
        &&& out is Err
        &&& out->Err_0@ == "机构名已存在"@
        &&& after.institutions() == before.institutions()
        &&& after.order() == before.order()
        &&& after.names() == before.names()
        &&& after.registered_by() == before.registered_by()
    } else {
        &&& out is Ok
        &&& out->Ok_0@ == id->Some_0
        &&& after.institutions() == before.institutions().insert(
            id->Some_0,
            fresh_institution(
                id->Some_0,
                request.name@,
                request.full_name@,
                encode_utf8(requested_password(request.password)),
                now,
            ),
        )
        &&& after.order() == if before.institutions().contains_key(id->Some_0) {
            before.order()
        } else {
            before.order().push(id->Some_0)
        }
        &&& after.names() == before.names().insert(request.name@, id->Some_0)
        &&& after.registered_by() == before.registered_by().insert(
            caller,
            registered_so_far(before.registered_by(), caller).push(id->Some_0),
        )
    }
}

/// The views of a list of identifiers, in order.
pub open spec fn account_views(ids: Seq<AccountId>) -> Seq<Seq<u8>> {
    ids.map_values(|id: AccountId| id@)
}

impl AdminService {
    /// The registered institutions, by identifier.
    pub closed spec fn institutions(&self) -> Map<Seq<u8>, InstitutionView> {
        self.institutions@.map_values(|inst: Institution| inst@)
    }

    /// The identifiers of the registered institutions, in the order of their
    /// registration.
    pub closed spec fn order(&self) -> Seq<Seq<u8>> {
        self.institutions.keys()
    }

    /// The institution behind each registered name.
    pub closed spec fn names(&self) -> Map<Seq<char>, Seq<u8>> {
        self.name_to_id@.map_values(|id: AccountId| id@)
    }

    /// The institutions that each caller has registered, in order.
    pub closed spec fn registered_by(&self) -> Map<Seq<u8>, Seq<Seq<u8>>> {
        self.caller_institutions@.map_values(|ids: Vec<AccountId>| account_views(ids@))
    }

    /// The registry's maps are well formed.
    pub closed spec fn wf(&self) -> bool {
        &&& self.institutions.wf()
        &&& self.name_to_id.wf()
        &&& self.caller_institutions.wf()
    }

    /// The order lists exactly the registered identifiers, each once.
    pub proof fn law_order_lists_the_registered(&self)
        requires
            self.wf(),
        ensures
            self.order().no_duplicates(),
            forall|id: Seq<u8>| self.order().contains(id) <==> self.institutions().contains_key(id),
    {
        self.institutions.lemma_wf();
    }

    /// An empty registry.
    pub fn new() -> (service: Self)
        ensures
            service.wf(),
            service.institutions() == Map::<Seq<u8>, InstitutionView>::empty(),
            service.order() == Seq::<Seq<u8>>::empty(),
            service.names() == Map::<Seq<char>, Seq<u8>>::empty(),
            service.registered_by() == Map::<Seq<u8>, Seq<Seq<u8>>>::empty(),
    {
        let service = AdminService {
            institutions: VecMap::new(),
            name_to_id: VecMap::new(),
            caller_institutions: VecMap::new(),
        };
        assert(service.institutions() =~= Map::<Seq<u8>, InstitutionView>::empty());
        assert(service.names() =~= Map::<Seq<char>, Seq<u8>>::empty());
        assert(service.registered_by() =~= Map::<Seq<u8>, Seq<Seq<u8>>>::empty());
        service
    }

    /// The stored form of a password.
    pub fn hash_password(password: &str) -> (hash: String)
        ensures
            hash@ == password_hash_of(password.spec_bytes()),
    {
        let digest = sha256(password.as_bytes());
        hex_encode(digest.as_slice())
    }

    fn lookup(&self, id: &AccountId) -> (found: Option<(usize, Institution)>)
        requires
            self.wf(),
        ensures
            match found {
                Some((i, inst)) => {
                    &&& i < self.order().len()
                    &&& self.order()[i as int] == id@
                    &&& self.institutions().contains_key(id@)
                    &&& inst@ == self.institutions()[id@]
                },
                None => !self.institutions().contains_key(id@),
            },
    {
        match self.institutions.find(id) {
            Some(i) => {
                let inst = self.institutions.value_at(i).clone();
                Some((i, inst))
            },
            None => None,
        }
    }

    fn replace_at(&mut self, i: usize, inst: Institution)
        requires
            old(self).wf(),
            i < old(self).order().len(),
        ensures
            final(self).wf(),
            final(self).order() == old(self).order(),
            final(self).institutions() == old(self).institutions().insert(
                old(self).order()[i as int],
                inst@,
            ),
            final(self).names() == old(self).names(),
            final(self).registered_by() == old(self).registered_by(),
    {
        proof {
            self.institutions.lemma_wf();
        }
        self.institutions.set_value_at(i, inst);
        assert(self.institutions() =~= old(self).institutions().insert(
            old(self).order()[i as int],
            inst@,
        ));
    }

    fn clone_ids(ids: &Vec<AccountId>) -> (copy: Vec<AccountId>)
        ensures
            account_views(copy@) == account_views(ids@),
    {
        let mut copy: Vec<AccountId> = Vec::new();
        let mut i: usize = 0;
        while i < ids.len()
            invariant
                0 <= i <= ids@.len(),
                copy@.len() == i,
                forall|j: int| 0 <= j < i ==> #[trigger] copy@[j]@ == ids@[j]@,
            decreases ids@.len() - i,
        {
            copy.push(ids[i].clone());
            i += 1;
        }
        assert(account_views(copy@) =~= account_views(ids@));
        copy
    }

    /// Registers the institution that `request.principal` denotes, on behalf
    /// of `caller`, at time `now`. Fails with "Invalid Principal ID format"
    /// when the text denotes no identifier; otherwise as
    /// [`AdminService::register_with_id`] does.
    pub fn register_institution(
        &mut self,
        request: RegisterRequest,
        caller: &AccountId,
        now: u64,
    ) -> (out: Result<AccountId, String>)
        requires
            old(self).wf(),
        ensures
            final(self).wf(),
            register_outcome(
                *old(self),
                *final(self),
                request,
                principal_parse(request.principal@),
                caller@,
                now,
                out,
            ),
    {
        let parsed = match parse_account(request.principal.as_str()) {
            Some(bytes) => Some(AccountId::new(bytes)),
            None => None,
        };
        self.register_with_id(request, parsed, caller, now)
    }

    /// Registers an institution under an identifier that has been parsed
    /// already. Fails, and changes nothing, without an identifier ("Invalid
    /// Principal ID format") and for a name that is taken ("机构名已存在").
    /// Otherwise the institution is entered as new under the identifier,
    /// inactive, with the requested or the default password, and is noted
    /// for the caller.
    pub fn register_with_id(
        &mut self,
        request: RegisterRequest,
        institution_id: Option<AccountId>,
        caller: &AccountId,
        now: u64,
    ) -> (out: Result<AccountId, String>)
        requires
            old(self).wf(),
        ensures
            final(self).wf(),
            register_outcome(
                *old(self),
                *final(self),
                request,
                match institution_id {
                    Some(id) => Some(id@),
                    None => None,
                },
                caller@,
                now,
                out,
            ),
    {
        let id = match institution_id {
            Some(id) => id,
            None => {
                return Err(String::from_str("Invalid Principal ID format"));
            },
        };
        if self.name_to_id.find(&request.name).is_some() {
            return Err(String::from_str("机构名已存在"));
        }
        let password_hash = match &request.password {
            Some(p) => Self::hash_password(p.as_str()),
            None => Self::hash_password(DEFAULT_PASSWORD),
        };
        let institution = Institution {
            id: id.clone(),
            name: request.name.clone(),
            full_name: request.full_name.clone(),
            password_hash,
            status: InstitutionStatus::Inactive,
            join_time: now,
            last_active: now,
            api_calls: 0,
            dcc_consumed: 0,
            data_uploads: 0,
            credit_score: CreditScore { score: INITIAL_CREDIT_SCORE, last_update: now },
            token_trading: TokenTrading { bought: 0, sold: 0 },
            data_service_enabled: true,
            query_price: 0,
            reward_share_ratio: 0,
            inbound_queries: 0,
            outbound_queries: 0,
            rewards: 0,
            consumption: 0,
            balance: 0,
        };
        let ghost fresh = institution@;
        self.institutions.insert(id.clone(), institution);
        self.name_to_id.insert(request.name.clone(), id.clone());
        let ghost so_far = registered_so_far(old(self).registered_by(), caller@);
        match self.caller_institutions.find(caller) {
            Some(i) => {
                let mut ids = Self::clone_ids(self.caller_institutions.value_at(i));
                proof {
                    self.caller_institutions.lemma_wf();
                    assert(account_views(ids@) == so_far);
                }
                ids.push(id.clone());
                assert(account_views(ids@) =~= so_far.push(id@));
                self.caller_institutions.set_value_at(i, ids);
            },
            None => {
                let mut ids: Vec<AccountId> = Vec::new();
                ids.push(id.clone());
                assert(account_views(ids@) =~= so_far.push(id@));
                self.caller_institutions.insert(caller.clone(), ids);
            },
        }
        proof {
            reveal_strlit("123");
            assert(self.institutions() =~= old(self).institutions().insert(id@, fresh));
            assert(self.names() =~= old(self).names().insert(request.name@, id@));
            assert(self.registered_by() =~= old(self).registered_by().insert(
                caller@,
                so_far.push(id@),
            ));
        }
        Ok(id)
    }

    /// The institution registered under `id`.
    pub fn get_institution(&self, id: &AccountId) -> (found: Option<Institution>)
        requires
            self.wf(),
        ensures
            match found {
                Some(inst) => self.institutions().contains_key(id@) && inst@
                    == self.institutions()[id@],
                None => !self.institutions().contains_key(id@),
            },
    {
        match self.institutions.get(id) {
            Some(inst) => Some(inst.clone()),
            None => None,
        }
    }

    /// Every registered institution, in the order of registration.
    pub fn get_all_institutions(&self) -> (all: Vec<Institution>)
        requires
            self.wf(),
        ensures
            all@.len() == self.order().len(),
            forall|i: int|
                0 <= i < all@.len() ==> #[trigger] all@[i]@ == self.institutions()[self.order()[i]],
    {
        proof {
            self.institutions.lemma_wf();
        }
        let n = self.institutions.len();
        let mut all: Vec<Institution> = Vec::new();
        let mut i: usize = 0;
        while i < n
            invariant
                self.wf(),
                self.institutions.wf(),
                n == self.institutions.keys().len(),
                n == self.institutions.values().len(),
                0 <= i <= n,
                all@.len() == i,
                forall|j: int|
                    0 <= j < n ==> #[trigger] self.institutions.position(self.institutions.keys()[j])
                        == Some(j),
                forall|j: int|
                    0 <= j < i ==> #[trigger] all@[j]@ == self.institutions()[self.order()[j]],
            decreases n - i,
        {
            let inst = self.institutions.value_at(i).clone();
            proof {
                let key = self.institutions.keys()[i as int];
                assert(self.institutions.position(key) == Some(i as int));
                assert(self.institutions@.contains_key(key));
                assert(self.institutions()[key] == self.institutions.values()[i as int]@);
            }
            all.push(inst);
            i += 1;
        }
        all
    }

    /// Counts `count` uploads for an institution at time `now`. Nothing
    /// changes for an unknown institution.
    pub fn institution_record_data_upload(&mut self, id: &AccountId, count: u64, now: u64)
        requires
            old(self).wf(),
        ensures
            final(self).wf(),
            final(self).institutions() == changed(
                old(self).institutions(),
                id@,
                |inst: InstitutionView| after_upload(inst, count, now),
            ),
            final(self).order() == old(self).order(),
            final(self).names() == old(self).names(),
            final(self).registered_by() == old(self).registered_by(),
    {
        match self.lookup(id) {
            Some((i, mut inst)) => {
                inst.data_uploads = inst.data_uploads.saturating_add(count);
                inst.last_active = now;
                self.replace_at(i, inst);
            },
            None => {},
        }
    }

    /// Sets the data-service switch and the query price of an institution;
    /// its reward share becomes ten percent. Fails for an unknown institution.
    pub fn update_service_settings(
        &mut self,
        institution_id: &AccountId,
        request: UpdateServiceSettingsRequest,
    ) -> (out: Result<(), String>)
        requires
            old(self).wf(),
        ensures
            final(self).wf(),
            out is Ok <==> old(self).institutions().contains_key(institution_id@),
            out is Err ==> out->Err_0@ == "机构不存在"@,
            final(self).institutions() == changed(
                old(self).institutions(),
                institution_id@,
                |inst: InstitutionView| with_settings(inst, request),
            ),
            final(self).order() == old(self).order(),
            final(self).names() == old(self).names(),
            final(self).registered_by() == old(self).registered_by(),
    {
        match self.lookup(institution_id) {
            Some((i, mut inst)) => {
                inst.data_service_enabled = request.data_service_enabled;
                inst.query_price = request.query_price;
                inst.reward_share_ratio = SERVICE_REWARD_SHARE;
                self.replace_at(i, inst);
                Ok(())
            },
            None => Err(String::from_str("机构不存在")),
        }
    }

    /// Switches an institution on or off. Fails for an unknown institution.
    pub fn update_status(&mut self, id: &AccountId, is_active: bool, now: u64) -> (out: Result<
        (),
        String,
    >)
        requires
            old(self).wf(),
        ensures
            final(self).wf(),
            out is Ok <==> old(self).institutions().contains_key(id@),
            out is Err ==> out->Err_0@ == "机构不存在"@,
            final(self).institutions() == changed(
                old(self).institutions(),
                id@,
                |inst: InstitutionView| with_activity(inst, is_active, now),
            ),
            final(self).order() == old(self).order(),
            final(self).names() == old(self).names(),
            final(self).registered_by() == old(self).registered_by(),
    {
        match self.lookup(id) {
            Some((i, mut inst)) => {
                inst.status = if is_active {
                    InstitutionStatus::Active
                } else {
                    InstitutionStatus::Inactive
                };
                inst.last_active = now;
                self.replace_at(i, inst);
                Ok(())
            },
            None => Err(String::from_str("机构不存在")),
        }
    }

    /// Sets the credit score of an institution. Fails for an unknown
    /// institution, and for a score above one hundred.
    pub fn update_credit_score(&mut self, id: &AccountId, score: u64, now: u64) -> (out: Result<
        (),
        String,
    >)
        requires
            old(self).wf(),
        ensures
            final(self).wf(),
            out is Ok <==> old(self).institutions().contains_key(id@) && score <= 100,
            !old(self).institutions().contains_key(id@) ==> out is Err && out->Err_0@
                == "机构不存在"@,
            old(self).institutions().contains_key(id@) && score > 100 ==> out is Err
                && out->Err_0@ == "信用分数不能超过100"@,
            final(self).institutions() == if score <= 100 {
                changed(
                    old(self).institutions(),
                    id@,
                    |inst: InstitutionView| with_score(inst, score, now),
                )
            } else {
                old(self).institutions()
            },
            final(self).order() == old(self).order(),
            final(self).names() == old(self).names(),
            final(self).registered_by() == old(self).registered_by(),
    {
        match self.lookup(id) {
            Some((i, mut inst)) => {
                if score > MAX_CREDIT_SCORE {
                    return Err(String::from_str("信用分数不能超过100"));
                }
                inst.credit_score = CreditScore { score, last_update: now };
                self.replace_at(i, inst);
                Ok(())
            },
            None => Err(String::from_str("机构不存在")),
        }
    }

    /// Counts `count` reads of `record` by `id` at time `now`: the reader's
    /// calls go up, and for a record of another institution so do the
    /// reader's outbound and the owner's inbound queries. Hands back the
    /// settlement that is then due, at the owner's query price: one is due
    /// when the record belongs to another, registered institution.
    pub fn institution_record_api_call(
        &mut self,
        id: &AccountId,
        record: &CreditRecord,
        count: u64,
        now: u64,
    ) -> (due: Option<TokenOperation>)
        requires
            old(self).wf(),
        ensures
            final(self).wf(),
            final(self).institutions() == after_read(
                old(self).institutions(),
                id@,
                record@.institution_id,
                count,
                now,
            ),
            final(self).order() == old(self).order(),
            final(self).names() == old(self).names(),
            final(self).registered_by() == old(self).registered_by(),
            due is Some <==> record@.institution_id != id@ && old(self).institutions().contains_key(
                record@.institution_id,
            ),
            due is Some ==> due->Some_0@ == settlement_for(
                id@,
                record@,
                old(self).institutions()[record@.institution_id].query_price,
            ),
    {
        let foreign = !(record.institution_id == *id);
        match self.lookup(id) {
            Some((i, mut inst)) => {
                inst.api_calls = inst.api_calls.saturating_add(count);
                if foreign {
                    inst.outbound_queries = inst.outbound_queries.saturating_add(count);
                }
                inst.last_active = now;
                self.replace_at(i, inst);
            },
            None => {},
        }
        if foreign {
            match self.lookup(&record.institution_id) {
                Some((j, mut target)) => {
                    let price = target.query_price;
                    target.inbound_queries = target.inbound_queries.saturating_add(count);
                    target.last_active = now;
                    self.replace_at(j, target);
                    Some(
                        TokenOperation {
                            from_id: id.clone(),
                            to_id: record.institution_id.clone(),
                            user_did: record.user_did.clone(),
                            query_price: price,
                            record: record.clone(),
                        },
                    )
                },
                None => None,
            }
        } else {
            None
        }
    }

    /// Counts one query of another institution's data.
    pub fn increment_outbound_queries(&mut self, institution_id: &AccountId)
        requires
            old(self).wf(),
        ensures
            final(self).wf(),
            final(self).institutions() == changed(
                old(self).institutions(),
                institution_id@,
                |inst: InstitutionView| after_outbound_query(inst),
            ),
            final(self).order() == old(self).order(),
            final(self).names() == old(self).names(),
            final(self).registered_by() == old(self).registered_by(),
    {
        match self.lookup(institution_id) {
            Some((i, mut inst)) => {
                inst.outbound_queries = inst.outbound_queries.saturating_add(1);
                self.replace_at(i, inst);
            },
            None => {},
        }
    }

    /// Counts one query of an institution's data by another institution.
    pub fn increment_inbound_queries(&mut self, institution_id: &AccountId)
        requires
            old(self).wf(),
        ensures
            final(self).wf(),
            final(self).institutions() == changed(
                old(self).institutions(),
                institution_id@,
                |inst: InstitutionView| after_inbound_query(inst),
            ),
            final(self).order() == old(self).order(),
            final(self).names() == old(self).names(),
            final(self).registered_by() == old(self).registered_by(),
    {
        match self.lookup(institution_id) {
            Some((i, mut inst)) => {
                inst.inbound_queries = inst.inbound_queries.saturating_add(1);
                self.replace_at(i, inst);
            },
            None => {},
        }
    }

    /// Removes an institution and the entry of its name, and tells whether
    /// there was one.
    pub fn delete_institution(&mut self, id: &AccountId) -> (removed: bool)
        requires
            old(self).wf(),
        ensures
            final(self).wf(),
            removed == old(self).institutions().contains_key(id@),
            final(self).institutions() == old(self).institutions().remove(id@),
            final(self).order() == if removed {
                old(self).order().remove(old(self).order().index_of(id@))
            } else {
                old(self).order()
            },
            final(self).names() == if removed {
                old(self).names().remove(old(self).institutions()[id@].name)
            } else {
                old(self).names()
            },
            final(self).registered_by() == old(self).registered_by(),
    {
        proof {
            self.institutions.lemma_wf();
        }
        match self.institutions.remove(id) {
            Some(institution) => {
                let _ = self.name_to_id.remove(&institution.name);
                assert(self.institutions() =~= old(self).institutions().remove(id@));
                assert(self.names() =~= old(self).names().remove(institution@.name));
                true
            },
            None => {
                assert(self.institutions() =~= old(self).institutions().remove(id@));
                false
            },
        }
    }

    /// Books a purchase or a sale of tokens for an institution.
    pub fn record_token_trading(&mut self, id: &AccountId, is_buy: bool, amount: u64, now: u64)
        requires
            old(self).wf(),
        ensures
            final(self).wf(),
            final(self).institutions() == changed(
                old(self).institutions(),
                id@,
                |inst: InstitutionView| after_trading(inst, is_buy, amount, now),
            ),
            final(self).order() == old(self).order(),
            final(self).names() == old(self).names(),
            final(self).registered_by() == old(self).registered_by(),
    {
        match self.lookup(id) {
            Some((i, mut inst)) => {
                if is_buy {
                    inst.token_trading = TokenTrading {
                        bought: inst.token_trading.bought.saturating_add(amount),
                        sold: inst.token_trading.sold,
                    };
                    inst.balance = inst.balance.saturating_add(amount);
                } else {
                    inst.token_trading = TokenTrading {
                        bought: inst.token_trading.bought,
                        sold: inst.token_trading.sold.saturating_add(amount),
                    };
                    inst.balance = inst.balance.saturating_sub(amount);
                }
                inst.last_active = now;
                self.replace_at(i, inst);
            },
            None => {},
        }
    }

    /// Books a reward for an institution.
    pub fn record_token_reward(&mut self, id: &AccountId, amount: u64, now: u64)
        requires
            old(self).wf(),
        ensures
            final(self).wf(),
            final(self).institutions() == changed(
                old(self).institutions(),
                id@,
                |inst: InstitutionView| after_reward(inst, amount, now),
            ),
            final(self).order() == old(self).order(),
            final(self).names() == old(self).names(),
            final(self).registered_by() == old(self).registered_by(),
    {
        match self.lookup(id) {
            Some((i, mut inst)) => {
                inst.rewards = inst.rewards.saturating_add(amount);
                inst.balance = inst.balance.saturating_add(amount);
                inst.last_active = now;
                self.replace_at(i, inst);
            },
            None => {},
        }
    }

    /// Books what an institution has spent.
    pub fn record_token_consumption(&mut self, id: &AccountId, amount: u64, now: u64)
        requires
            old(self).wf(),
        ensures
            final(self).wf(),
            final(self).institutions() == changed(
                old(self).institutions(),
                id@,
                |inst: InstitutionView| after_consumption(inst, amount, now),
            ),
            final(self).order() == old(self).order(),
            final(self).names() == old(self).names(),
            final(self).registered_by() == old(self).registered_by(),
    {
        match self.lookup(id) {
            Some((i, mut inst)) => {
                inst.consumption = inst.consumption.saturating_add(amount);
                inst.balance = inst.balance.saturating_sub(amount);
                inst.last_active = now;
                self.replace_at(i, inst);
            },
            None => {},
        }
    }

    /// Notes that an institution was active at time `now`.
    pub fn log_event(&mut self, id: &AccountId, now: u64)
        requires
            old(self).wf(),
        ensures
            final(self).wf(),
            final(self).institutions() == changed(
                old(self).institutions(),
                id@,
                |inst: InstitutionView| seen_at(inst, now),
            ),
            final(self).order() == old(self).order(),
            final(self).names() == old(self).names(),
            final(self).registered_by() == old(self).registered_by(),
    {
        match self.lookup(id) {
            Some((i, mut inst)) => {
                inst.last_active = now;
                self.replace_at(i, inst);
            },
            None => {},
        }
    }

    /// Logs an institution in by name and password. A login succeeds when
    /// the name is registered and the password is the institution's; the
    /// institution is then noted as active at time `now`. Otherwise nothing
    /// changes, and the message tells whether the institution is unknown
    /// ("机构不存在") or the password wrong ("密码错误").
    pub fn institution_login(&mut self, request: LoginRequest, now: u64) -> (response:
        LoginResponse)
        requires
            old(self).wf(),
        ensures
            final(self).wf(),
            final(self).order() == old(self).order(),
            final(self).names() == old(self).names(),
            final(self).registered_by() == old(self).registered_by(),
            response.success == credentials_hold(
                old(self).names(),
                old(self).institutions(),
                request.name@,
                encode_utf8(request.password@),
            ),
            response.success ==> {
                let id = old(self).names()[request.name@];
                &&& response.institution_id is Some
                &&& response.institution_id->Some_0@ == id
                &&& response.full_name@ == old(self).institutions()[id].full_name
                &&& response.message@ == "登录成功"@
                &&& final(self).institutions() == old(self).institutions().insert(
                    id,
                    seen_at(old(self).institutions()[id], now),
                )
            },
            !response.success ==> {
                &&& response.institution_id is None
                &&& response.full_name@ == Seq::<char>::empty()
                &&& final(self).institutions() == old(self).institutions()
                &&& response.message@ == if old(self).names().contains_key(request.name@)
                    && old(self).institutions().contains_key(old(self).names()[request.name@]) {
                    "密码错误"@
                } else {
                    "机构不存在"@
                }
            },
    {
        let id = match self.name_to_id.get(&request.name) {
            Some(id) => id.clone(),
            None => {
                return LoginResponse {
                    success: false,
                    institution_id: None,
                    full_name: String::new(),
                    message: String::from_str("机构不存在"),
                };
            },
        };
        match self.lookup(&id) {
            Some((i, mut inst)) => {
                let password_hash = Self::hash_password(request.password.as_str());
                if inst.password_hash == password_hash {
                    inst.last_active = now;
                    let full_name = inst.full_name.clone();
                    self.replace_at(i, inst);
                    LoginResponse {
                        success: true,
                        institution_id: Some(id),
                        full_name,
                        message: String::from_str("登录成功"),
                    }
                } else {
                    LoginResponse {
                        success: false,
                        institution_id: None,
                        full_name: String::new(),
                        message: String::from_str("密码错误"),
                    }
                }
            },
            None => LoginResponse {
                success: false,
                institution_id: None,
                full_name: String::new(),
                message: String::from_str("机构不存在"),
            },
        }
    }

    /// Changes the password of an institution. Fails for an unknown
    /// institution ("机构不存在") and for a wrong old password ("原密码错误").
    pub fn change_password(
        &mut self,
        id: &AccountId,
        old_password: String,
        new_password: String,
    ) -> (out: Result<(), String>)
        requires
            old(self).wf(),
        ensures
            final(self).wf(),
            final(self).order() == old(self).order(),
            final(self).names() == old(self).names(),
            final(self).registered_by() == old(self).registered_by(),
            if !old(self).institutions().contains_key(id@) {
                &&& out is Err
                &&& out->Err_0@ == "机构不存在"@
                &&& final(self).institutions() == old(self).institutions()
            } else if old(self).institutions()[id@].password_hash != password_hash_of(
                encode_utf8(old_password@),
            ) {
                &&& out is Err
                &&& out->Err_0@ == "原密码错误"@
                &&& final(self).institutions() == old(self).institutions()
            } else {
                &&& out is Ok
                &&& final(self).institutions() == old(self).institutions().insert(
                    id@,
                    with_password(old(self).institutions()[id@], encode_utf8(new_password@)),
                )
            },
    {
        match self.lookup(id) {
            Some((i, mut inst)) => {
                let old_hash = Self::hash_password(old_password.as_str());
                if inst.password_hash == old_hash {
                    inst.password_hash = Self::hash_password(new_password.as_str());
                    self.replace_at(i, inst);
                    Ok(())
                } else {
                    Err(String::from_str("原密码错误"))
                }
            },
            None => Err(String::from_str("机构不存在")),
        }
    }

    /// Sets the password of an institution back to the default and hands
    /// that password out. Fails for an unknown institution.
    pub fn reset_password(&mut self, id: &AccountId) -> (out: Result<String, String>)
        requires
            old(self).wf(),
        ensures
            final(self).wf(),
            final(self).order() == old(self).order(),
            final(self).names() == old(self).names(),
            final(self).registered_by() == old(self).registered_by(),
            out is Ok <==> old(self).institutions().contains_key(id@),
            out is Err ==> out->Err_0@ == "机构不存在"@,
            out is Ok ==> out->Ok_0@ == "123"@,
            final(self).institutions() == changed(
                old(self).institutions(),
                id@,
                |inst: InstitutionView| with_password(inst, encode_utf8("123"@)),
            ),
    {
        match self.lookup(id) {
            Some((i, mut inst)) => {
                inst.password_hash = Self::hash_password(DEFAULT_PASSWORD);
                self.replace_at(i, inst);
                Ok(String::from_str(DEFAULT_PASSWORD))
            },
            None => Err(String::from_str("机构不存在")),
        }
    }

    /// The institutions that a caller has registered and that are still
    /// registered, in the order of their registration by that caller.
    pub fn get_caller_institutions(&self, caller: &AccountId) -> (found: Vec<Institution>)
        requires
            self.wf(),
        ensures
            institution_views(found@) == registered_so_far(self.registered_by(), caller@).filter(
                |id: Seq<u8>| self.institutions().contains_key(id),
            ).map_values(|id: Seq<u8>| self.institutions()[id]),
    {
        let ghost known = |id: Seq<u8>| self.institutions().contains_key(id);
        let ghost lookup = |id: Seq<u8>| self.institutions()[id];
        let mut found: Vec<Institution> = Vec::new();
        let ids = match self.caller_institutions.get(caller) {
            Some(ids) => ids,
            None => {
                proof {
                    reveal(Seq::filter);
                    assert(institution_views(found@) =~= Seq::<Seq<u8>>::empty().filter(
                        known,
                    ).map_values(lookup));
                }
                return found;
            },
        };
        let ghost all = account_views(ids@);
        let mut i: usize = 0;
        proof {
            reveal(Seq::filter);
            assert(all.take(0) =~= Seq::<Seq<u8>>::empty());
            assert(institution_views(found@) =~= all.take(0).filter(known).map_values(lookup));
        }
        while i < ids.len()
            invariant
                self.wf(),
                all == account_views(ids@),
                all == registered_so_far(self.registered_by(), caller@),
                known == (|id: Seq<u8>| self.institutions().contains_key(id)),
                lookup == (|id: Seq<u8>| self.institutions()[id]),
                0 <= i <= ids@.len(),
                institution_views(found@) == all.take(i as int).filter(known).map_values(lookup),
            decreases ids@.len() - i,
        {
            proof {
                lemma_filter_take_step(all, known, i as int);
                assert(all[i as int] == ids@[i as int]@);
            }
            match self.get_institution(&ids[i]) {
                Some(inst) => {
                    let ghost before = found@;
                    found.push(inst);
                    assert(institution_views(found@) =~= institution_views(before).push(
                        lookup(all[i as int]),
                    ));
                    assert(all.take(i + 1).filter(known).map_values(lookup) =~= all.take(
                        i as int,
                    ).filter(known).map_values(lookup).push(lookup(all[i as int])));
                },
                None => {},
            }
            i += 1;
        }
        proof {
            lemma_take_all(all);
        }
        found
    }
}

/// The views of a list of institutions, in order.
pub open spec fn institution_views(institutions: Seq<Institution>) -> Seq<InstitutionView> {
    institutions.map_values(|inst: Institution| inst@)
}

} // verus!
