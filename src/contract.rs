//! The factory's persisted state and the decisions of each entry point and
//! continuation.
use vstd::prelude::*;

use crate::calls::{
    decode_token_ids, opt_view, resolve_single, single_payload, token_ids_of, views_of, CallResult,
    MintRequest, TokensQuery, TransferRequest,
};
use crate::error::FactoryError;
use crate::pool::{initial_pool, lemma_initial_pool_unique, u32_to_string};

verus! {

/// A factory's state as mathematical values.
pub struct ContractView {
    /// The account allowed to perform administrative operations.
    pub owner_id: Seq<char>,
    /// The inventory service that sells boxes, once set.
    pub loot_box_id: Option<Seq<char>>,
    /// The minting service that issues heroes, once set.
    pub hero_id: Option<Seq<char>>,
    /// The hero identifiers not yet minted.
    pub heros_to_be_minted: Seq<Seq<char>>,
}

/// No identifier is in `after` that was not in `before`.
pub open spec fn pool_shrinks(before: Seq<Seq<char>>, after: Seq<Seq<char>>) -> bool {
    forall|x: Seq<char>| after.contains(x) ==> before.contains(x)
}

/// Why `unpack` by `caller` aborts on a factory in state `v`, if it does.
pub open spec fn unpack_error(v: ContractView, caller: Seq<char>) -> Option<FactoryError> {
    match v.loot_box_id {
        None => Some(FactoryError::StateNotInitialized),
        Some(loot_box_id) => if caller != loot_box_id {
            Some(FactoryError::Authorization)
        } else if v.heros_to_be_minted.len() == 0 {
            Some(FactoryError::EmptyInventory)
        } else if v.hero_id is None {
            Some(FactoryError::StateNotInitialized)
        } else {
            None
        },
    }
}

/// The pool position that a block timestamp selects in a pool of `len`
/// identifiers.
pub open spec fn pick_index(block_timestamp: u64, len: nat) -> int {
    block_timestamp as int % len as int
}

/// The transfer of the first listed box to `sender`, as (inventory service,
/// box, receiver), or why the purchase aborts.
pub open spec fn box_transfer(v: ContractView, sender: Seq<char>, token_ids: Seq<Seq<char>>) -> Result<
    (Seq<char>, Seq<char>, Seq<char>),
    FactoryError,
> {
    if token_ids.len() == 0 {
        Err(FactoryError::EmptyInventory)
    } else {
        match v.loot_box_id {
            None => Err(FactoryError::StateNotInitialized),
            Some(loot_box_id) => Ok((loot_box_id, token_ids[0], sender)),
        }
    }
}

/// A transfer request as (inventory service, box, receiver).
pub open spec fn transfer_view(r: Result<TransferRequest, FactoryError>) -> Result<
    (Seq<char>, Seq<char>, Seq<char>),
    FactoryError,
> {
    match r {
        Ok(t) => Ok((t.loot_box_id@, t.token_id@, t.receiver_id@)),
        Err(e) => Err(e),
    }
}

/// Removing one entry from a pool only shrinks it, and from a pool without
/// duplicates it removes that identifier for good.
pub proof fn lemma_remove_shrinks(pool: Seq<Seq<char>>, i: int)
    requires
        0 <= i < pool.len(),
    ensures
        pool_shrinks(pool, pool.remove(i)),
        pool.no_duplicates() ==> pool.remove(i).no_duplicates(),
        pool.no_duplicates() ==> !pool.remove(i).contains(pool[i]),
{
    let after = pool.remove(i);
    assert forall|x: Seq<char>| after.contains(x) implies pool.contains(x) by {
        let k = choose|k: int| 0 <= k < after.len() && after[k] == x;
        if k < i {
            assert(pool[k] == x);
        } else {
            assert(pool[k + 1] == x);
        }
    }
    if pool.no_duplicates() {
        assert forall|a: int, b: int| 0 <= a < after.len() && 0 <= b < after.len() && a != b implies after[a] != after[b] by {
            let pa = if a < i { a } else { a + 1 };
            let pb = if b < i { b } else { b + 1 };
            assert(after[a] == pool[pa]);
            assert(after[b] == pool[pb]);
        }
        if after.contains(pool[i]) {
            let k = choose|k: int| 0 <= k < after.len() && after[k] == pool[i];
            let pk = if k < i { k } else { k + 1 };
            assert(after[k] == pool[pk]);
        }
    }
}

/// Once a hero identifier is out of the pool it stays out: along any run of
/// states in which each step only shrinks the pool (as every operation of
/// `Contract` does), an identifier absent at one state is absent at every
/// later one.
pub proof fn lemma_minted_never_returns(states: Seq<ContractView>, i: int, id: Seq<char>)
    requires
        forall|k: int|
            0 <= k < states.len() - 1 ==> #[trigger] pool_shrinks(
                states[k].heros_to_be_minted,
                states[k + 1].heros_to_be_minted,
            ),
        0 <= i < states.len(),
        !states[i].heros_to_be_minted.contains(id),
    ensures
        forall|j: int| i <= j < states.len() ==> !#[trigger] states[j].heros_to_be_minted.contains(id),
{
    assert forall|j: int| i <= j < states.len() implies !#[trigger] states[j].heros_to_be_minted.contains(id) by {
        lemma_stays_out(states, i, j, id);
    }
}

proof fn lemma_stays_out(states: Seq<ContractView>, i: int, j: int, id: Seq<char>)
    requires
        forall|k: int|
            0 <= k < states.len() - 1 ==> #[trigger] pool_shrinks(
                states[k].heros_to_be_minted,
                states[k + 1].heros_to_be_minted,
            ),
        0 <= i <= j < states.len(),
        !states[i].heros_to_be_minted.contains(id),
    ensures
        !states[j].heros_to_be_minted.contains(id),
    decreases j - i,
{
    if j > i {
        lemma_stays_out(states, i, j - 1, id);
        let k = j - 1;
        assert(pool_shrinks(states[k].heros_to_be_minted, states[k + 1].heros_to_be_minted));
    }
}

/// The factory that sells boxes and mints heroes.
pub struct Contract {
    owner_id: String,
    loot_box_id: Option<String>,
    hero_id: Option<String>,
    heros_to_be_minted: Vec<String>,
}

impl View for Contract {
    type V = ContractView;

    closed spec fn view(&self) -> ContractView {
        ContractView {
            owner_id: self.owner_id@,
            loot_box_id: opt_view(self.loot_box_id),
            hero_id: opt_view(self.hero_id),
            heros_to_be_minted: views_of(self.heros_to_be_minted@),
        }
    }
}

impl Contract {
    /// Each hero identifier is in the pool at most once.
    pub open spec fn wf(&self) -> bool {
        self@.heros_to_be_minted.no_duplicates()
    }

    /// A factory owned by `owner_id` whose pool holds `"0"` to `num - 1`, in
    /// order, with neither service set.
    pub fn new(owner_id: String, num: u32) -> (r: Contract)
        ensures
            r@ == (ContractView {
                owner_id: owner_id@,
                loot_box_id: None,
                hero_id: None,
                heros_to_be_minted: initial_pool(num as nat),
            }),
            r.wf(),
    {
        let mut heros: Vec<String> = Vec::new();
        let mut index: u32 = 0;
        while index < num
            invariant
                index <= num,
                heros@.len() == index,
                views_of(heros@) =~= initial_pool(index as nat),
            decreases num - index,
        {
            let id = u32_to_string(index);
            let ghost prev = heros@;
            heros.push(id);
            proof {
                assert(heros@ == prev.push(id));
                assert forall|k: int| 0 <= k < index + 1 implies views_of(heros@)[k]
                    == initial_pool(index as nat + 1)[k] by {
                    assert(views_of(heros@)[k] == heros@[k]@);
                    if k < index {
                        assert(heros@[k] == prev[k]);
                        assert(views_of(prev)[k] == prev[k]@);
                        assert(views_of(prev)[k] == initial_pool(index as nat)[k]);
                    }
                }
                assert(views_of(heros@).len() == initial_pool(index as nat + 1).len());
                assert(views_of(heros@) =~= initial_pool(index as nat + 1));
            }
            index += 1;
        }
        proof {
            lemma_initial_pool_unique(num as nat);
        }
        Contract { owner_id, loot_box_id: None, hero_id: None, heros_to_be_minted: heros }
    }

    /// A factory with the given state, as read back from storage.
    pub fn from_parts(
        owner_id: String,
        loot_box_id: Option<String>,
        hero_id: Option<String>,
        heros_to_be_minted: Vec<String>,
    ) -> (r: Contract)
        ensures
            r@ == (ContractView {
                owner_id: owner_id@,
                loot_box_id: opt_view(loot_box_id),
                hero_id: opt_view(hero_id),
                heros_to_be_minted: views_of(heros_to_be_minted@),
            }),
    {
        Contract { owner_id, loot_box_id, hero_id, heros_to_be_minted }
    }

    /// The owner's account.
    pub fn owner_id(&self) -> (r: &String)
        ensures
            r@ == self@.owner_id,
    {
        &self.owner_id
    }

    /// The inventory service, if set.
    pub fn loot_box_id(&self) -> (r: &Option<String>)
        ensures
            opt_view(*r) == self@.loot_box_id,
    {
        &self.loot_box_id
    }

    /// The minting service, if set.
    pub fn hero_id(&self) -> (r: &Option<String>)
        ensures
            opt_view(*r) == self@.hero_id,
    {
        &self.hero_id
    }

    /// The hero identifiers not yet minted.
    pub fn heros_to_be_minted(&self) -> (r: &Vec<String>)
        ensures
            views_of(r@) == self@.heros_to_be_minted,
    {
        &self.heros_to_be_minted
    }

    /// Succeeds exactly when `caller` is the owner.
    pub fn assert_owner(&self, caller: &String) -> (r: Result<(), FactoryError>)
        ensures
            caller@ == self@.owner_id ==> r is Ok,
            caller@ != self@.owner_id ==> r == Err::<(), FactoryError>(FactoryError::Authorization),
    {
        if *caller == self.owner_id {
            Ok(())
        } else {
            Err(FactoryError::Authorization)
        }
    }

    /// The owner hands the factory to `owner_id`, at once.
    pub fn transfer_ownership(&mut self, caller: &String, owner_id: String) -> (r: Result<(), FactoryError>)
        ensures
            caller@ == old(self)@.owner_id ==> r is Ok && final(self)@ == (ContractView {
                owner_id: owner_id@,
                ..old(self)@
            }),
            caller@ != old(self)@.owner_id ==> r == Err::<(), FactoryError>(FactoryError::Authorization)
                && final(self)@ == old(self)@,
            pool_shrinks(old(self)@.heros_to_be_minted, final(self)@.heros_to_be_minted),
            final(self).wf() == old(self).wf(),
    {
        self.assert_owner(caller)?;
        self.owner_id = owner_id;
        Ok(())
    }

    /// The owner points the factory at the inventory service `id`.
    pub fn set_loot_box_id(&mut self, caller: &String, id: String) -> (r: Result<(), FactoryError>)
        ensures
            caller@ == old(self)@.owner_id ==> r is Ok && final(self)@ == (ContractView {
                loot_box_id: Some(id@),
                ..old(self)@
            }),
            caller@ != old(self)@.owner_id ==> r == Err::<(), FactoryError>(FactoryError::Authorization)
                && final(self)@ == old(self)@,
            pool_shrinks(old(self)@.heros_to_be_minted, final(self)@.heros_to_be_minted),
            final(self).wf() == old(self).wf(),
    {
        self.assert_owner(caller)?;
        self.loot_box_id = Some(id);
        Ok(())
    }

    /// The owner points the factory at the minting service `id`.
    pub fn set_hero_id(&mut self, caller: &String, id: String) -> (r: Result<(), FactoryError>)
        ensures
            caller@ == old(self)@.owner_id ==> r is Ok && final(self)@ == (ContractView {
                hero_id: Some(id@),
                ..old(self)@
            }),
            caller@ != old(self)@.owner_id ==> r == Err::<(), FactoryError>(FactoryError::Authorization)
                && final(self)@ == old(self)@,
            pool_shrinks(old(self)@.heros_to_be_minted, final(self)@.heros_to_be_minted),
            final(self).wf() == old(self).wf(),
    {
        self.assert_owner(caller)?;
        self.hero_id = Some(id);
        Ok(())
    }
    /// The inventory service asks for a hero for `receiver_id`: the factory
    /// takes the identifier at `block_timestamp` modulo the pool's length out
    /// of the pool and returns the mint request to send.
    pub fn unpack(&mut self, caller: &String, block_timestamp: u64, receiver_id: String) -> (r: Result<
        MintRequest,
        FactoryError,
    >)
        ensures
            unpack_error(old(self)@, caller@) matches Some(e) ==> r == Err::<MintRequest, FactoryError>(e)
                && final(self)@ == old(self)@,
            unpack_error(old(self)@, caller@) is None ==> {
                &&& r is Ok
                &&& r->Ok_0.token_id@ == old(self)@.heros_to_be_minted[pick_index(
                    block_timestamp,
                    old(self)@.heros_to_be_minted.len(),
                )]
                &&& r->Ok_0.receiver_id@ == receiver_id@
                &&& old(self)@.hero_id == Some(r->Ok_0.hero_id@)
                &&& final(self)@ == (ContractView {
                    heros_to_be_minted: old(self)@.heros_to_be_minted.remove(
                        pick_index(block_timestamp, old(self)@.heros_to_be_minted.len()),
                    ),
                    ..old(self)@
                })
            },
            r is Ok ==> final(self)@.heros_to_be_minted.len() == old(self)@.heros_to_be_minted.len() - 1,
            r is Ok && old(self).wf() ==> !final(self)@.heros_to_be_minted.contains(r->Ok_0.token_id@),
            old(self)@.loot_box_id matches Some(l) && caller@ != l ==> r == Err::<MintRequest, FactoryError>(
                FactoryError::Authorization,
            ),
            pool_shrinks(old(self)@.heros_to_be_minted, final(self)@.heros_to_be_minted),
            old(self).wf() ==> final(self).wf(),
    {
        let loot_box_id = match &self.loot_box_id {
            None => return Err(FactoryError::StateNotInitialized),
            Some(id) => id,
        };
        if *caller != *loot_box_id {
            return Err(FactoryError::Authorization);
        }
        let len = self.heros_to_be_minted.len();
        if len == 0 {
            return Err(FactoryError::EmptyInventory);
        }
        let hero_id = match &self.hero_id {
            None => return Err(FactoryError::StateNotInitialized),
            Some(id) => id.clone(),
        };
        let index = (block_timestamp % (len as u64)) as usize;
        let ghost before = self.heros_to_be_minted@;
        let token_id = self.heros_to_be_minted.remove(index);
        proof {
            assert(views_of(self.heros_to_be_minted@) =~= views_of(before).remove(index as int));
            lemma_remove_shrinks(views_of(before), index as int);
        }
        Ok(MintRequest { hero_id, token_id, receiver_id })
    }

    /// A buyer `caller` starts a purchase: the factory asks the inventory
    /// service which boxes `current_account_id` (the factory) holds, with a
    /// continuation that carries the buyer.
    pub fn purchase_box(&self, caller: String, current_account_id: String) -> (r: Result<
        TokensQuery,
        FactoryError,
    >)
        ensures
            self@.loot_box_id is None ==> r == Err::<TokensQuery, FactoryError>(
                FactoryError::StateNotInitialized,
            ),
            self@.loot_box_id matches Some(l) ==> r is Ok && r->Ok_0.loot_box_id@ == l
                && r->Ok_0.account_id@ == current_account_id@ && r->Ok_0.sender@ == caller@,
    {
        match &self.loot_box_id {
            None => Err(FactoryError::StateNotInitialized),
            Some(id) => Ok(
                TokensQuery { loot_box_id: id.clone(), account_id: current_account_id, sender: caller },
            ),
        }
    }

    /// The request that moves box `box_id` from the factory to `to`.
    fn transfer_to(&self, box_id: String, to: String) -> (r: Result<TransferRequest, FactoryError>)
        ensures
            self@.loot_box_id is None ==> r == Err::<TransferRequest, FactoryError>(
                FactoryError::StateNotInitialized,
            ),
            self@.loot_box_id matches Some(l) ==> transfer_view(r) == Ok::<
                (Seq<char>, Seq<char>, Seq<char>),
                FactoryError,
            >((l, box_id@, to@)),
    {
        match &self.loot_box_id {
            None => Err(FactoryError::StateNotInitialized),
            Some(id) => Ok(TransferRequest { loot_box_id: id.clone(), token_id: box_id, receiver_id: to }),
        }
    }

    /// Picks the first of the boxes the factory holds, `token_ids`, for
    /// `sender`; aborts when there is none.
    pub fn select_box(&self, sender: String, token_ids: Vec<String>) -> (r: Result<TransferRequest, FactoryError>)
        ensures
            transfer_view(r) == box_transfer(self@, sender@, views_of(token_ids@)),
    {
        if token_ids.len() == 0 {
            return Err(FactoryError::EmptyInventory);
        }
        let first = token_ids[0].clone();
        self.transfer_to(first, sender)
    }

    /// Continuation of a purchase for `sender`: reads the single pending
    /// result, the list of boxes the factory holds, and returns the transfer of
    /// the first one to `sender`.
    pub fn nft_tokens_for_owner_callback(&self, sender: String, results_count: u64, result: CallResult) -> (r: Result<
        TransferRequest,
        FactoryError,
    >)
        ensures
            single_payload(results_count, result) matches Err(e) ==> r == Err::<TransferRequest, FactoryError>(e),
            single_payload(results_count, result) matches Ok(bytes) ==> match token_ids_of(bytes@) {
                None => r == Err::<TransferRequest, FactoryError>(FactoryError::InvariantViolation),
                Some(ids) => transfer_view(r) == box_transfer(self@, sender@, ids),
            },
            results_count != 1 ==> r == Err::<TransferRequest, FactoryError>(FactoryError::InvariantViolation),
            r is Ok ==> exists|ids: Seq<Seq<char>>|
                #![auto]
                ids.len() > 0 && r->Ok_0.token_id@ == ids[0] && token_ids_of(
                    result->Successful_0@,
                ) == Some(ids),
    {
        let bytes = resolve_single(results_count, result)?;
        match decode_token_ids(&bytes) {
            None => Err(FactoryError::InvariantViolation),
            Some(ids) => self.select_box(sender, ids),
        }
    }

    /// Continuation of a box transfer: succeeds exactly when its single
    /// pending result is a success.
    pub fn nft_transfer_callback(&self, results_count: u64, result: CallResult) -> (r: Result<(), FactoryError>)
        ensures
            single_payload(results_count, result) matches Err(e) ==> r == Err::<(), FactoryError>(e),
            single_payload(results_count, result) is Ok ==> r is Ok,
            results_count != 1 ==> r == Err::<(), FactoryError>(FactoryError::InvariantViolation),
    {
        resolve_single(results_count, result)?;
        Ok(())
    }
}

} // verus!
