use vstd::prelude::*;
use crate::accounts::{Initialize, SetTokenBlacklist, UpdateFeeConfig};
use crate::address::{
    collector_address, collector_seed, collector_seeds, find_collector_address, found_program_address,
    found_view, null_bytes, opt_view, program_address, Address, Caller,
};
use crate::error::TransferFeeError;
use crate::events::{FeeConfigUpdatedEvent, TokenBlacklistedEvent};
use crate::fee::MAX_FEE_BPS;

verus! {

/// The configuration record: one per program.
#[derive(Clone, Debug, PartialEq, Eq)]
pub struct FeeCollector {
    /// Who may administer the record. Set at creation, never changed.
    pub authority: Address,
    /// Who receives the fees.
    pub fee_recipient: Address,
    /// The fee rate in basis points.
    pub fee_bps: u16,
    /// The bump with which the record's address is derived.
    pub bump: u8,
    /// The blacklisted assets, each at most once.
    pub blacklisted_tokens: Vec<Address>,
}

/// The blacklist after one asset's membership is set.
pub open spec fn blacklist_update(s: Set<Seq<u8>>, asset: Seq<u8>, listed: bool) -> Set<Seq<u8>> {
    if listed {
        s.insert(asset)
    } else {
        s.remove(asset)
    }
}

/// Whether a record is the one that creation writes.
pub open spec fn fresh_record(
    c: FeeCollector,
    authority: Address,
    fee_recipient: Address,
    fee_bps: u16,
    bump: u8,
) -> bool {
    &&& c.authority == authority
    &&& c.fee_recipient == fee_recipient
    &&& c.fee_bps == fee_bps
    &&& c.bump == bump
    &&& c.blacklisted_tokens@.len() == 0
}

/// What creating the record returns. `found` is the address and bump that the
/// search over bumps gave for the program, `key` the address at which the
/// record is to stand.
pub open spec fn creation_result(
    exists_already: bool,
    found: Option<(Seq<u8>, u8)>,
    key: Seq<u8>,
    authority: Caller,
) -> Result<(), TransferFeeError> {
    if !(found matches Some((a, _)) && a == key) {
        Err(TransferFeeError::AddressMismatch)
    } else if !authority.is_signer {
        Err(TransferFeeError::Unauthorized)
    } else if exists_already {
        Err(TransferFeeError::AlreadyInitialized)
    } else {
        Ok(())
    }
}

/// What an update of rate and recipient returns.
pub open spec fn fee_update_result(
    c: FeeCollector,
    derived: Option<Seq<u8>>,
    key: Seq<u8>,
    caller: Caller,
    new_fee_bps: u16,
    new_fee_recipient: Address,
) -> Result<FeeConfigUpdatedEvent, TransferFeeError> {
    if let Some(e) = c.admin_refusal(derived, key, caller) {
        Err(e)
    } else if new_fee_bps > 1000 {
        Err(TransferFeeError::FeeTooHigh)
    } else if new_fee_recipient@ == null_bytes() {
        Err(TransferFeeError::InvalidFeeRecipient)
    } else {
        Ok((FeeConfigUpdatedEvent { new_fee_bps, new_fee_recipient }))
    }
}

/// The record after an update of rate and recipient: both are overwritten
/// where the update succeeds, and nothing changes where it is refused.
pub open spec fn fee_update_state(
    c: FeeCollector,
    derived: Option<Seq<u8>>,
    key: Seq<u8>,
    caller: Caller,
    new_fee_bps: u16,
    new_fee_recipient: Address,
) -> FeeCollector {
    if fee_update_result(c, derived, key, caller, new_fee_bps, new_fee_recipient) is Ok {
        FeeCollector { fee_bps: new_fee_bps, fee_recipient: new_fee_recipient, ..c }
    } else {
        c
    }
}

/// What setting an asset's blacklist membership returns.
pub open spec fn blacklist_result(
    c: FeeCollector,
    derived: Option<Seq<u8>>,
    key: Seq<u8>,
    caller: Caller,
    token_mint: Address,
    blacklisted: bool,
) -> Result<TokenBlacklistedEvent, TransferFeeError> {
    if let Some(e) = c.admin_refusal(derived, key, caller) {
        Err(e)
    } else {
        Ok((TokenBlacklistedEvent { token_mint, blacklisted }))
    }
}

/// How setting an asset's blacklist membership relates the record before,
/// the record after and what is returned. A refused call changes nothing.
/// A call that succeeds sets the membership and leaves the rest of the list
/// and the other fields as they were; where the asset's membership is what
/// was asked for already, the whole record stays as it was.
pub open spec fn blacklist_outcome(
    before: FeeCollector,
    after: FeeCollector,
    r: Result<TokenBlacklistedEvent, TransferFeeError>,
    derived: Option<Seq<u8>>,
    key: Seq<u8>,
    caller: Caller,
    token_mint: Address,
    blacklisted: bool,
) -> bool {
    &&& r == blacklist_result(before, derived, key, caller, token_mint, blacklisted)
    &&& after.wf()
    &&& r is Err ==> after == before
    &&& r is Ok ==> after.blacklist() == blacklist_update(
        before.blacklist(),
        token_mint@,
        blacklisted,
    )
    &&& r is Ok && before.blacklist().contains(token_mint@) == blacklisted ==> after == before
    &&& after.authority == before.authority
    &&& after.fee_recipient == before.fee_recipient
    &&& after.fee_bps == before.fee_bps
    &&& after.bump == before.bump
}

impl FeeCollector {
    /// The blacklist as a set of addresses.
    pub open spec fn blacklist(&self) -> Set<Seq<u8>> {
        Set::new(
            |k: Seq<u8>|
                exists|i: int|
                    0 <= i < self.blacklisted_tokens@.len() && (
                    #[trigger] self.blacklisted_tokens@[i])@ == k,
        )
    }

    /// Whether an asset stands in the list exactly once.
    pub open spec fn listed_once(&self, asset: Seq<u8>) -> bool {
        exists|i: int|
            0 <= i < self.blacklisted_tokens@.len() && (#[trigger] self.blacklisted_tokens@[i])@
                == asset && forall|j: int|
                0 <= j < self.blacklisted_tokens@.len() && j != i ==> (
                #[trigger] self.blacklisted_tokens@[j])@ != asset
    }

    /// No asset is listed twice.
    pub open spec fn wf(&self) -> bool {
        forall|i: int, j: int|
            0 <= i < j < self.blacklisted_tokens@.len() ==> (
            #[trigger] self.blacklisted_tokens@[i])@ != (#[trigger] self.blacklisted_tokens@[j])@
    }

    /// Whether the record stands at the address derived for it.
    pub open spec fn bound(derived: Option<Seq<u8>>, key: Seq<u8>) -> bool {
        derived == Some(key)
    }

    /// Whether a caller signed and is the stored authority.
    pub open spec fn is_authority(&self, caller: Caller) -> bool {
        caller.is_signer && caller.key@ == self.authority@
    }

    /// Why an administrative operation is refused before it looks at its
    /// arguments, if it is: the binding of the record comes first, then the
    /// caller.
    pub open spec fn admin_refusal(
        &self,
        derived: Option<Seq<u8>>,
        key: Seq<u8>,
        caller: Caller,
    ) -> Option<TransferFeeError> {
        if !Self::bound(derived, key) {
            Some(TransferFeeError::AddressMismatch)
        } else if !self.is_authority(caller) {
            Some(TransferFeeError::Unauthorized)
        } else {
            None
        }
    }

    /// Whether `derived`, the address derived for the record, is `key`, the
    /// address at which the record was found.
    pub fn check_binding(derived: &Option<Address>, key: &Address) -> (r: bool)
        ensures
            r == Self::bound(opt_view(*derived), key@),
    {
        match derived {
            Some(a) => a.same(key),
            None => false,
        }
    }

    /// Admits an administrative operation or says why not.
    pub fn check_admin(&self, derived: &Option<Address>, key: &Address, caller: &Caller) -> (r:
        Result<(), TransferFeeError>)
        ensures
            r == match self.admin_refusal(opt_view(*derived), key@, *caller) {
                Some(e) => Err::<(), TransferFeeError>(e),
                None => Ok::<(), TransferFeeError>(()),
            },
    {
        if !Self::check_binding(derived, key) {
            Err(TransferFeeError::AddressMismatch)
        } else if !(caller.is_signer && caller.key.same(&self.authority)) {
            Err(TransferFeeError::Unauthorized)
        } else {
            Ok(())
        }
    }

    /// Whether no asset is listed twice.
    pub fn is_well_formed(&self) -> (r: bool)
        ensures
            r == self.wf(),
    {
        let n = self.blacklisted_tokens.len();
        let mut j: usize = 0;
        while j < n
            invariant
                n == self.blacklisted_tokens@.len(),
                j <= n,
                forall|a: int, b: int|
                    0 <= a < b < j ==> (#[trigger] self.blacklisted_tokens@[a])@ != (
                    #[trigger] self.blacklisted_tokens@[b])@,
            decreases n - j,
        {
            let mut i: usize = 0;
            while i < j
                invariant
                    n == self.blacklisted_tokens@.len(),
                    j < n,
                    i <= j,
                    forall|a: int|
                        0 <= a < i ==> (#[trigger] self.blacklisted_tokens@[a])@
                            != self.blacklisted_tokens@[j as int]@,
                decreases j - i,
            {
                if self.blacklisted_tokens[i].same(&self.blacklisted_tokens[j]) {
                    return false;
                }
                i += 1;
            }
            j += 1;
        }
        true
    }

    /// Where an asset stands in the list, if it is listed.
    pub fn position(&self, asset: &Address) -> (r: Option<usize>)
        ensures
            r matches Some(i) ==> i < self.blacklisted_tokens@.len()
                && self.blacklisted_tokens@[i as int]@ == asset@,
            r is Some == self.blacklist().contains(asset@),
    {
        let mut i: usize = 0;
        while i < self.blacklisted_tokens.len()
            invariant
                i <= self.blacklisted_tokens@.len(),
                forall|j: int| 0 <= j < i ==> (#[trigger] self.blacklisted_tokens@[j])@ != asset@,
            decreases self.blacklisted_tokens@.len() - i,
        {
            if self.blacklisted_tokens[i].same(asset) {
                return Some(i);
            }
            i += 1;
        }
        None
    }

    /// Whether an asset is blacklisted.
    pub fn is_blacklisted(&self, asset: &Address) -> (r: bool)
        ensures
            r == self.blacklist().contains(asset@),
    {
        self.position(asset).is_some()
    }

    /// Sets rate and recipient, given the address derived for the record.
    /// Refused unless the record is bound and the caller is the authority;
    /// then unless the rate is at most 1000 and the recipient is not null.
    pub fn apply_fee_update(
        &mut self,
        derived: &Option<Address>,
        key: &Address,
        caller: &Caller,
        new_fee_bps: u16,
        new_fee_recipient: Address,
    ) -> (r: Result<FeeConfigUpdatedEvent, TransferFeeError>)
        ensures
            r == fee_update_result(
                *old(self),
                opt_view(*derived),
                key@,
                *caller,
                new_fee_bps,
                new_fee_recipient,
            ),
            *final(self) == fee_update_state(
                *old(self),
                opt_view(*derived),
                key@,
                *caller,
                new_fee_bps,
                new_fee_recipient,
            ),
    {
        match self.check_admin(derived, key, caller) {
            Err(e) => { return Err(e); },
            Ok(_) => {},
        }
        if new_fee_bps > MAX_FEE_BPS {
            return Err(TransferFeeError::FeeTooHigh);
        }
        if new_fee_recipient.is_null() {
            return Err(TransferFeeError::InvalidFeeRecipient);
        }
        self.fee_bps = new_fee_bps;
        self.fee_recipient = new_fee_recipient;
        Ok(FeeConfigUpdatedEvent { new_fee_bps, new_fee_recipient })
    }

    /// Puts an asset on the blacklist or takes it off, given the address
    /// derived for the record. Listing a listed asset and unlisting an
    /// unlisted one succeed and change nothing.
    pub fn apply_blacklist(
        &mut self,
        derived: &Option<Address>,
        key: &Address,
        caller: &Caller,
        token_mint: Address,
        blacklisted: bool,
    ) -> (r: Result<TokenBlacklistedEvent, TransferFeeError>)
        requires
            old(self).wf(),
        ensures
            blacklist_outcome(
                *old(self),
                *final(self),
                r,
                opt_view(*derived),
                key@,
                *caller,
                token_mint,
                blacklisted,
            ),
    {
        match self.check_admin(derived, key, caller) {
            Err(e) => { return Err(e); },
            Ok(_) => {},
        }
        let ghost before = self.blacklisted_tokens@;
        let ghost before_set = self.blacklist();
        let found = self.position(&token_mint);
        if blacklisted {
            if found.is_none() {
                self.blacklisted_tokens.push(token_mint);
                proof {
                    let after = self.blacklisted_tokens@;
                    assert(after[before.len() as int] == token_mint);
                    assert forall|k: Seq<u8>| self.blacklist().contains(k)
                        == before_set.insert(token_mint@).contains(k) by {
                        if before_set.contains(k) {
                            let i = choose|i: int| 0 <= i < before.len() && (#[trigger] before[i])@ == k;
                            assert(after[i]@ == k);
                        }
                        if self.blacklist().contains(k) {
                            let i = choose|i: int| 0 <= i < after.len() && (#[trigger] after[i])@ == k;
                            if i < before.len() {
                                assert(before[i]@ == k);
                            }
                        }
                    }
                    assert forall|i: int, j: int| 0 <= i < j < after.len() implies (
                    #[trigger] after[i])@ != (#[trigger] after[j])@ by {
                        if j < before.len() {
                            assert(before[i]@ != before[j]@);
                        } else {
                            assert(before[i]@ != token_mint@);
                        }
                    }
                }
            }
        } else {
            if let Some(at) = found {
                self.blacklisted_tokens.remove(at);
                proof {
                    let after = self.blacklisted_tokens@;
                    assert forall|i: int| 0 <= i < after.len() implies #[trigger] after[i] == before[if i
                        < at { i } else { i + 1 }] by {}
                    assert forall|i: int, j: int| 0 <= i < j < after.len() implies (
                    #[trigger] after[i])@ != (#[trigger] after[j])@ by {
                        let bi = if i < at { i } else { i + 1 };
                        let bj = if j < at { j } else { j + 1 };
                        assert(before[bi]@ != before[bj]@);
                    }
                    assert forall|k: Seq<u8>| self.blacklist().contains(k)
                        == before_set.remove(token_mint@).contains(k) by {
                        if before_set.contains(k) && k != token_mint@ {
                            let i = choose|i: int| 0 <= i < before.len() && (#[trigger] before[i])@ == k;
                            let ai = if i < at { i } else { i - 1 };
                            assert(after[ai]@ == k);
                        }
                        if self.blacklist().contains(k) {
                            let i = choose|i: int| 0 <= i < after.len() && (#[trigger] after[i])@ == k;
                            let bi = if i < at { i } else { i + 1 };
                            assert(before[bi]@ == k);
                            assert(before[bi]@ != before[at as int]@);
                        }
                    }
                }
            }
        }
        assert(self.blacklist() =~= blacklist_update(before_set, token_mint@, blacklisted));
        Ok(TokenBlacklistedEvent { token_mint, blacklisted })
    }
}

/// Creates the record in an empty store, given what the search over bumps
/// found for the program. The caller becomes the authority. Refused where
/// the search found nothing or another address than `key`, where the caller
/// did not sign, and where the store holds a record already. Any rate is
/// taken as it is: the ceiling of updates does not hold here.
pub fn create_record(
    store: &mut Option<FeeCollector>,
    found: &Option<(Address, u8)>,
    key: &Address,
    authority: &Caller,
    fee_recipient: &Address,
    fee_bps: u16,
) -> (r: Result<(), TransferFeeError>)
    ensures
        r == creation_result((*old(store)) is Some, found_view(*found), key@, *authority),
        r is Err ==> *final(store) == *old(store),
        r is Ok ==> (*final(store) matches Some(c) && fresh_record(
            c,
            authority.key,
            *fee_recipient,
            fee_bps,
            found->Some_0.1,
        )),
{
    let bump: u8 = match found {
        Some((a, b)) => {
            if !a.same(key) {
                return Err(TransferFeeError::AddressMismatch);
            }
            *b
        },
        None => { return Err(TransferFeeError::AddressMismatch); },
    };
    if !authority.is_signer {
        return Err(TransferFeeError::Unauthorized);
    }
    if store.is_some() {
        return Err(TransferFeeError::AlreadyInitialized);
    }
    *store = Some(
        FeeCollector {
            authority: authority.key,
            fee_recipient: *fee_recipient,
            fee_bps,
            bump,
            blacklisted_tokens: Vec::new(),
        },
    );
    Ok(())
}

/// Creates the configuration record of a program at the address that the
/// search over bumps finds for the program.
pub fn initialize(store: &mut Option<FeeCollector>, accounts: &Initialize, fee_bps: u16) -> (r:
    Result<(), TransferFeeError>)
    ensures
        r == creation_result(
            (*old(store)) is Some,
            found_program_address(seq![collector_seed()], accounts.program_id@),
            accounts.fee_collector@,
            accounts.authority,
        ),
        r is Err ==> *final(store) == *old(store),
        r is Ok ==> (*final(store) matches Some(c) && fresh_record(
            c,
            accounts.authority.key,
            accounts.fee_recipient,
            fee_bps,
            c.bump,
        ) && c.wf() && FeeCollector::bound(
            program_address(collector_seeds(c.bump), accounts.program_id@),
            accounts.fee_collector@,
        )),
{
    let found = find_collector_address(&accounts.program_id);
    create_record(
        store,
        &found,
        &accounts.fee_collector,
        &accounts.authority,
        &accounts.fee_recipient,
        fee_bps,
    )
}

/// Sets the fee rate and the fee recipient of a program's record.
pub fn update_fee_config(
    cfg: &mut FeeCollector,
    accounts: &UpdateFeeConfig,
    new_fee_bps: u16,
    new_fee_recipient: Address,
) -> (r: Result<FeeConfigUpdatedEvent, TransferFeeError>)
    ensures
        r == fee_update_result(
            *old(cfg),
            program_address(collector_seeds(old(cfg).bump), accounts.program_id@),
            accounts.fee_collector@,
            accounts.authority,
            new_fee_bps,
            new_fee_recipient,
        ),
        *final(cfg) == fee_update_state(
            *old(cfg),
            program_address(collector_seeds(old(cfg).bump), accounts.program_id@),
            accounts.fee_collector@,
            accounts.authority,
            new_fee_bps,
            new_fee_recipient,
        ),
{
    let derived = collector_address(&accounts.program_id, cfg.bump);
    cfg.apply_fee_update(
        &derived,
        &accounts.fee_collector,
        &accounts.authority,
        new_fee_bps,
        new_fee_recipient,
    )
}

/// Puts an asset on the blacklist of a program's record, or takes it off.
pub fn set_token_blacklist(
    cfg: &mut FeeCollector,
    accounts: &SetTokenBlacklist,
    token_mint: Address,
    blacklisted: bool,
) -> (r: Result<TokenBlacklistedEvent, TransferFeeError>)
    requires
        old(cfg).wf(),
    ensures
        blacklist_outcome(
            *old(cfg),
            *final(cfg),
            r,
            program_address(collector_seeds(old(cfg).bump), accounts.program_id@),
            accounts.fee_collector@,
            accounts.authority,
            token_mint,
            blacklisted,
        ),
{
    let derived = collector_address(&accounts.program_id, cfg.bump);
    cfg.apply_blacklist(
        &derived,
        &accounts.fee_collector,
        &accounts.authority,
        token_mint,
        blacklisted,
    )
}

} // verus!
