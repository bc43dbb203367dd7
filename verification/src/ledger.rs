//! The escrow ledger: asset accounts, open streams with their vaults, and the
//! two operations that open and settle a stream.

use vstd::prelude::*;
use crate::address::{is_stream_address, is_vault_address, stream_address, vault_address, Address};
use crate::settlement::{settle, settlement_at};
use crate::state::{ErrorCode, StreamState};
use crate::table::{Key, Table};

verus! {

/// An asset account of a party.
#[derive(Clone, Copy, Debug)]
pub struct TokenAccount {
    /// The asset that the account holds.
    pub mint: Address,
    /// The party that may spend from the account.
    pub owner: Address,
    /// How much of the asset the account holds.
    pub amount: u64,
}

/// The custodial account that backs one stream's deposit.
///
/// Only the settlement of its stream releases funds from it.
#[derive(Clone, Copy, Debug)]
pub struct Vault {
    /// Where the vault lives; derived from the address of the stream's record.
    pub address: Address,
    /// The asset that the vault holds.
    pub mint: Address,
    /// The address of the stream's record, which alone may release the funds.
    pub authority: Address,
    /// How much of the asset the vault holds.
    pub balance: u64,
}

/// An open stream: its record, where the record lives, and its vault.
#[derive(Clone, Copy, Debug)]
pub struct Escrow {
    /// Where the record lives; derived from the payer and the payee.
    pub address: Address,
    /// The record.
    pub state: StreamState,
    /// The vault that holds the deposit.
    pub vault: Vault,
}

/// The payer and the payee of a stream. At most one stream is open per pair.
#[derive(Clone, Copy, Debug)]
pub struct Parties {
    pub sender: Address,
    pub recipient: Address,
}

impl Key for Address {
    fn key_eq(&self, other: &Self) -> (equal: bool) {
        self.same(other)
    }
}

impl Key for Parties {
    fn key_eq(&self, other: &Self) -> (equal: bool) {
        self.sender.same(&other.sender) && self.recipient.same(&other.recipient)
    }
}

/// The accounts that a request to open a stream supplies.
#[derive(Clone, Copy, Debug)]
pub struct CreateStream {
    /// Where the caller says the stream's record will live.
    pub stream: Address,
    /// The payer.
    pub sender: Address,
    /// Whether the payer has authorized the request.
    pub sender_signed: bool,
    /// The payee.
    pub recipient: Address,
    /// Where the caller says the vault will live.
    pub vault_account: Address,
    /// The payer's account that funds the deposit.
    pub sender_token_account: Address,
    /// The asset to deposit.
    pub mint: Address,
}

/// The accounts that a request to close a stream supplies.
#[derive(Clone, Copy, Debug)]
pub struct CloseStream {
    /// Where the caller says the stream's record lives.
    pub stream: Address,
    /// Where the caller says the vault lives.
    pub vault_account: Address,
    /// The payer.
    pub sender: Address,
    /// The payer's account that receives the refund.
    pub sender_token_account: Address,
    /// The payee.
    pub recipient: Address,
    /// The payee's account that receives the payout.
    pub recipient_token_account: Address,
}

/// The parties that a request to open a stream names.
pub open spec fn creating_parties(ctx: CreateStream) -> Parties {
    Parties { sender: ctx.sender, recipient: ctx.recipient }
}

/// The parties that a request to close a stream names.
pub open spec fn closing_parties(ctx: CloseStream) -> Parties {
    Parties { sender: ctx.sender, recipient: ctx.recipient }
}

/// The escrow that a granted request to open a stream creates.
pub open spec fn opened_escrow(ctx: CreateStream, rate_per_second: u64, max_amount: u64, now: i64) -> Escrow {
    Escrow {
        address: ctx.stream,
        state: StreamState {
            sender: ctx.sender,
            recipient: ctx.recipient,
            mint: ctx.mint,
            start_time: now,
            rate_per_second,
            total_deposit: max_amount,
            active: true,
        },
        vault: Vault {
            address: ctx.vault_account,
            mint: ctx.mint,
            authority: ctx.stream,
            balance: max_amount,
        },
    }
}

/// Whether an escrow held for `parties` is in order: the record names those
/// parties and is active, and the vault holds exactly the deposit, in the
/// record's asset, under the record's authority.
pub open spec fn escrow_in_order(parties: Parties, escrow: Escrow) -> bool {
    &&& escrow.state.sender == parties.sender
    &&& escrow.state.recipient == parties.recipient
    &&& escrow.state.active
    &&& escrow.vault.balance == escrow.state.total_deposit
    &&& escrow.vault.mint == escrow.state.mint
    &&& escrow.vault.authority == escrow.address
}

/// Whether the two derived addresses exist and are the supplied ones.
pub open spec fn derivations_match(
    derived_stream: Option<Address>,
    derived_vault: Option<Address>,
    stream: Address,
    vault: Address,
) -> bool {
    derived_stream == Some(stream) && derived_vault == Some(vault)
}

/// Whether `stream` and `vault` are the addresses that `program` derives for
/// the stream from `sender` to `recipient` and for its vault.
pub open spec fn addresses_derive(
    program: Address,
    sender: Address,
    recipient: Address,
    stream: Address,
    vault: Address,
) -> bool {
    is_stream_address(program, sender, recipient, stream) && is_vault_address(
        program,
        stream,
        vault,
    )
}

/// The accounts after `amount` is added to `account`, or nothing where the
/// balance would leave the unsigned 64-bit range.
pub open spec fn credit(wallets: Map<Address, TokenAccount>, account: Address, amount: int) -> Option<
    Map<Address, TokenAccount>,
> {
    if wallets[account].amount + amount > u64::MAX {
        None
    } else {
        Some(
            wallets.insert(
                account,
                TokenAccount {
                    amount: (wallets[account].amount + amount) as u64,
                    ..wallets[account]
                },
            ),
        )
    }
}

/// The accounts after `amount` is taken from `account`.
pub open spec fn debit(wallets: Map<Address, TokenAccount>, account: Address, amount: int) -> Map<
    Address,
    TokenAccount,
> {
    wallets.insert(
        account,
        TokenAccount { amount: (wallets[account].amount - amount) as u64, ..wallets[account] },
    )
}

/// What a ledger holds.
pub struct LedgerView {
    /// The program under which addresses are derived.
    pub program_id: Address,
    /// The parties' asset accounts, by address.
    pub wallets: Map<Address, TokenAccount>,
    /// The open streams, by payer and payee.
    pub streams: Map<Parties, Escrow>,
}

impl LedgerView {
    /// Every open stream is in order.
    pub open spec fn consistent(self) -> bool {
        forall|parties: Parties| #[trigger]
            self.streams.contains_key(parties) ==> escrow_in_order(parties, self.streams[parties])
    }

    /// Whether the payer has authorized the deposit and the named account can
    /// fund it: the account exists, is the payer's, holds the asset, and holds
    /// at least `amount` of it.
    pub open spec fn can_fund(self, ctx: CreateStream, amount: u64) -> bool {
        &&& ctx.sender_signed
        &&& self.wallets.contains_key(ctx.sender_token_account)
        &&& self.wallets[ctx.sender_token_account].owner == ctx.sender
        &&& self.wallets[ctx.sender_token_account].mint == ctx.mint
        &&& self.wallets[ctx.sender_token_account].amount >= amount
    }

    /// What a request to open a stream leads to: the ledger that follows, or
    /// the reason for which the request is refused.
    ///
    /// `addresses_ok` says whether the supplied stream and vault addresses are
    /// the derived ones.
    pub open spec fn create_result(
        self,
        ctx: CreateStream,
        addresses_ok: bool,
        rate_per_second: u64,
        max_amount: u64,
        now: i64,
    ) -> Result<LedgerView, ErrorCode> {
        if !addresses_ok {
            Err(ErrorCode::AccountMismatch)
        } else if self.streams.contains_key(creating_parties(ctx)) {
            Err(ErrorCode::DuplicateStream)
        } else if !self.can_fund(ctx, max_amount) {
            Err(ErrorCode::InsufficientFunds)
        } else {
            Ok(
                LedgerView {
                    program_id: self.program_id,
                    wallets: debit(self.wallets, ctx.sender_token_account, max_amount as int),
                    streams: self.streams.insert(
                        creating_parties(ctx),
                        opened_escrow(ctx, rate_per_second, max_amount, now),
                    ),
                },
            )
        }
    }

    /// Whether the accounts of a request to close a stream are those of the
    /// open stream between the named parties: the record and the vault live
    /// where the request says, and the two destination accounts exist, belong
    /// to the payer and to the payee, and hold the stream's asset.
    pub open spec fn accounts_match(self, ctx: CloseStream) -> bool {
        let escrow = self.streams[closing_parties(ctx)];
        &&& self.streams.contains_key(closing_parties(ctx))
        &&& escrow.address == ctx.stream
        &&& escrow.vault.address == ctx.vault_account
        &&& self.wallets.contains_key(ctx.sender_token_account)
        &&& self.wallets[ctx.sender_token_account].owner == escrow.state.sender
        &&& self.wallets[ctx.sender_token_account].mint == escrow.state.mint
        &&& self.wallets.contains_key(ctx.recipient_token_account)
        &&& self.wallets[ctx.recipient_token_account].owner == escrow.state.recipient
        &&& self.wallets[ctx.recipient_token_account].mint == escrow.state.mint
    }

    /// The accounts after the payout went to the payee's account and then the
    /// refund to the payer's, or nothing where one of them cannot be credited.
    pub open spec fn disburse(self, ctx: CloseStream, payout: int, refund: int) -> Option<
        Map<Address, TokenAccount>,
    > {
        match credit(self.wallets, ctx.recipient_token_account, payout) {
            None => None,
            Some(paid) => credit(paid, ctx.sender_token_account, refund),
        }
    }

    /// What a request to close a stream at `now` leads to: the ledger that
    /// follows, or the reason for which the request is refused.
    ///
    /// `addresses_ok` says whether the supplied stream and vault addresses are
    /// the derived ones.
    pub open spec fn close_result(self, ctx: CloseStream, addresses_ok: bool, now: i64) -> Result<
        LedgerView,
        ErrorCode,
    > {
        if !addresses_ok || !self.accounts_match(ctx) {
            Err(ErrorCode::AccountMismatch)
        } else {
            match settlement_at(self.streams[closing_parties(ctx)].state, now) {
                Err(e) => Err(e),
                Ok((payout, refund)) => match self.disburse(ctx, payout, refund) {
                    None => Err(ErrorCode::TransferFailed),
                    Some(wallets) => Ok(
                        LedgerView {
                            program_id: self.program_id,
                            wallets,
                            streams: self.streams.remove(closing_parties(ctx)),
                        },
                    ),
                },
            }
        }
    }
}

/// Whether an operation that reported `outcome` took the ledger from `before`
/// to `after` as `expected` says: on success to the ledger that follows, on
/// refusal nowhere, with the expected reason.
pub open spec fn carried_out(
    outcome: Result<(), ErrorCode>,
    before: LedgerView,
    after: LedgerView,
    expected: Result<LedgerView, ErrorCode>,
) -> bool {
    match expected {
        Ok(next) => outcome is Ok && after == next,
        Err(e) => outcome == Err::<(), ErrorCode>(e) && after == before,
    }
}

/// The escrow ledger.
pub struct Ledger {
    program_id: Address,
    wallets: Table<Address, TokenAccount>,
    streams: Table<Parties, Escrow>,
}

impl View for Ledger {
    type V = LedgerView;

    closed spec fn view(&self) -> LedgerView {
        LedgerView {
            program_id: self.program_id,
            wallets: self.wallets@,
            streams: self.streams@,
        }
    }
}

impl Ledger {
    /// The ledger is well formed: its stores are sound and every open stream
    /// is in order.
    pub closed spec fn wf(&self) -> bool {
        &&& self.wallets.wf()
        &&& self.streams.wf()
        &&& self@.consistent()
    }

    /// In a well-formed ledger every open stream is in order.
    pub proof fn lemma_wf_consistent(&self)
        requires
            self.wf(),
        ensures
            self@.consistent(),
    {
    }

    /// A ledger with no accounts and no streams, for addresses derived under
    /// `program_id`.
    pub fn new(program_id: Address) -> (ledger: Ledger)
        ensures
            ledger.wf(),
            ledger@ == (LedgerView {
                program_id,
                wallets: Map::<Address, TokenAccount>::empty(),
                streams: Map::<Parties, Escrow>::empty(),
            }),
    {
        Ledger { program_id, wallets: Table::new(), streams: Table::new() }
    }

    /// The program under which the ledger derives addresses.
    pub fn program_id(&self) -> (id: Address)
        ensures
            id == self@.program_id,
    {
        self.program_id
    }

    /// Opens an empty asset account at `address`, unless one exists there.
    pub fn open_account(&mut self, address: Address, mint: Address, owner: Address) -> (opened:
        bool)
        requires
            old(self).wf(),
        ensures
            final(self).wf(),
            opened == !old(self)@.wallets.contains_key(address),
            opened ==> final(self)@ == (LedgerView {
                wallets: old(self)@.wallets.insert(address, TokenAccount { mint, owner, amount: 0 }),
                ..old(self)@
            }),
            !opened ==> final(self)@ == old(self)@,
    {
        if self.wallets.get(&address).is_some() {
            return false;
        }
        self.wallets.put(address, TokenAccount { mint, owner, amount: 0 });
        assert(self@.streams == old(self)@.streams);
        true
    }

    /// Adds `amount` to the account at `address`, unless no account exists
    /// there or its balance would leave the unsigned 64-bit range.
    pub fn deposit(&mut self, address: &Address, amount: u64) -> (deposited: bool)
        requires
            old(self).wf(),
        ensures
            final(self).wf(),
            deposited == (old(self)@.wallets.contains_key(*address) && credit(
                old(self)@.wallets,
                *address,
                amount as int,
            ) is Some),
            deposited ==> final(self)@ == (LedgerView {
                wallets: credit(old(self)@.wallets, *address, amount as int).unwrap(),
                ..old(self)@
            }),
            !deposited ==> final(self)@ == old(self)@,
    {
        let account = match self.wallets.get(address) {
            Some(account) => account,
            None => {
                return false;
            },
        };
        match account.amount.checked_add(amount) {
            Some(total) => {
                self.wallets.put(
                    *address,
                    TokenAccount { mint: account.mint, owner: account.owner, amount: total },
                );
                assert(self@.streams == old(self)@.streams);
                true
            },
            None => false,
        }
    }

    /// The asset account at `address`, if there is one.
    pub fn account(&self, address: &Address) -> (found: Option<TokenAccount>)
        requires
            self.wf(),
        ensures
            found == if self@.wallets.contains_key(*address) {
                Some(self@.wallets[*address])
            } else {
                None
            },
    {
        self.wallets.get(address)
    }

    /// The open stream from `sender` to `recipient`, if there is one.
    pub fn escrow(&self, sender: &Address, recipient: &Address) -> (found: Option<Escrow>)
        requires
            self.wf(),
        ensures
            found == if self@.streams.contains_key(
                Parties { sender: *sender, recipient: *recipient },
            ) {
                Some(self@.streams[Parties { sender: *sender, recipient: *recipient }])
            } else {
                None
            },
            found matches Some(escrow) ==> escrow_in_order(
                Parties { sender: *sender, recipient: *recipient },
                escrow,
            ),
    {
        self.streams.get(&Parties { sender: *sender, recipient: *recipient })
    }
}

/// Whether `derived` exists and is `supplied`.
fn is_expected(derived: &Option<Address>, supplied: &Address) -> (matches: bool)
    ensures
        matches == (*derived == Some(*supplied)),
{
    match derived {
        Some(address) => address.same(supplied),
        None => false,
    }
}

/// Opens a stream, given the addresses that were derived for its record and
/// for its vault.
///
/// The request is refused with `AccountMismatch` unless both addresses were
/// derived and are the supplied ones, then with `DuplicateStream` if a stream
/// between the two parties is open, then with `InsufficientFunds` unless the
/// payer authorized the deposit and the funding account can bear it.
/// Otherwise the deposit moves from the funding account into a new vault and
/// the stream starts at `now`.
pub fn create_stream_derived(
    ledger: &mut Ledger,
    ctx: &CreateStream,
    derived_stream: Option<Address>,
    derived_vault: Option<Address>,
    rate_per_second: u64,
    max_amount: u64,
    now: i64,
) -> (outcome: Result<(), ErrorCode>)
    requires
        old(ledger).wf(),
    ensures
        final(ledger).wf(),
        carried_out(
            outcome,
            old(ledger)@,
            final(ledger)@,
            old(ledger)@.create_result(
                *ctx,
                derivations_match(derived_stream, derived_vault, ctx.stream, ctx.vault_account),
                rate_per_second,
                max_amount,
                now,
            ),
        ),
{
    if !is_expected(&derived_stream, &ctx.stream) || !is_expected(
        &derived_vault,
        &ctx.vault_account,
    ) {
        return Err(ErrorCode::AccountMismatch);
    }
    let parties = Parties { sender: ctx.sender, recipient: ctx.recipient };
    if ledger.streams.get(&parties).is_some() {
        return Err(ErrorCode::DuplicateStream);
    }
    if !ctx.sender_signed {
        return Err(ErrorCode::InsufficientFunds);
    }
    let funding = match ledger.wallets.get(&ctx.sender_token_account) {
        Some(account) => account,
        None => {
            return Err(ErrorCode::InsufficientFunds);
        },
    };
    if !funding.owner.same(&ctx.sender) || !funding.mint.same(&ctx.mint) || funding.amount
        < max_amount {
        return Err(ErrorCode::InsufficientFunds);
    }
    let state = StreamState::new(
        ctx.sender,
        ctx.recipient,
        ctx.mint,
        now,
        rate_per_second,
        max_amount,
    );
    let vault = Vault {
        address: ctx.vault_account,
        mint: ctx.mint,
        authority: ctx.stream,
        balance: max_amount,
    };
    ledger.wallets.put(
        ctx.sender_token_account,
        TokenAccount { mint: funding.mint, owner: funding.owner, amount: funding.amount - max_amount },
    );
    ledger.streams.put(parties, Escrow { address: ctx.stream, state, vault });
    Ok(())
}

/// Opens a stream from `ctx.sender` to `ctx.recipient` that starts at `now`.
///
/// The addresses of the record and of the vault are derived anew from the
/// parties; what follows is as in `create_stream_derived`.
pub fn create_stream(
    ledger: &mut Ledger,
    ctx: &CreateStream,
    rate_per_second: u64,
    max_amount: u64,
    now: i64,
) -> (outcome: Result<(), ErrorCode>)
    requires
        old(ledger).wf(),
    ensures
        final(ledger).wf(),
        carried_out(
            outcome,
            old(ledger)@,
            final(ledger)@,
            old(ledger)@.create_result(
                *ctx,
                addresses_derive(
                    old(ledger)@.program_id,
                    ctx.sender,
                    ctx.recipient,
                    ctx.stream,
                    ctx.vault_account,
                ),
                rate_per_second,
                max_amount,
                now,
            ),
        ),
{
    let derived_stream = stream_address(&ledger.program_id, &ctx.sender, &ctx.recipient);
    let derived_vault = vault_address(&ledger.program_id, &ctx.stream);
    create_stream_derived(
        ledger,
        ctx,
        derived_stream,
        derived_vault,
        rate_per_second,
        max_amount,
        now,
    )
}

/// Closes a stream at `now`, given the addresses that were derived for its
/// record and for its vault.
///
/// The request is refused with `AccountMismatch` unless both addresses were
/// derived and are the supplied ones, a stream between the two parties is
/// open, and the supplied accounts are that stream's; then with
/// `MathOverflow` if the earned amount overflows; then with `TransferFailed`
/// if a destination cannot be credited. Otherwise the payout goes to the
/// payee's account, the refund to the payer's, and the vault and the record
/// are removed.
pub fn close_stream_derived(
    ledger: &mut Ledger,
    ctx: &CloseStream,
    derived_stream: Option<Address>,
    derived_vault: Option<Address>,
    now: i64,
) -> (outcome: Result<(), ErrorCode>)
    requires
        old(ledger).wf(),
    ensures
        final(ledger).wf(),
        carried_out(
            outcome,
            old(ledger)@,
            final(ledger)@,
            old(ledger)@.close_result(
                *ctx,
                derivations_match(derived_stream, derived_vault, ctx.stream, ctx.vault_account),
                now,
            ),
        ),
{
    if !is_expected(&derived_stream, &ctx.stream) || !is_expected(
        &derived_vault,
        &ctx.vault_account,
    ) {
        return Err(ErrorCode::AccountMismatch);
    }
    let parties = Parties { sender: ctx.sender, recipient: ctx.recipient };
    let escrow = match ledger.streams.get(&parties) {
        Some(escrow) => escrow,
        None => {
            return Err(ErrorCode::AccountMismatch);
        },
    };
    if !escrow.address.same(&ctx.stream) || !escrow.vault.address.same(&ctx.vault_account) {
        return Err(ErrorCode::AccountMismatch);
    }
    let refund_to = match ledger.wallets.get(&ctx.sender_token_account) {
        Some(account) => account,
        None => {
            return Err(ErrorCode::AccountMismatch);
        },
    };
    if !refund_to.owner.same(&escrow.state.sender) || !refund_to.mint.same(&escrow.state.mint) {
        return Err(ErrorCode::AccountMismatch);
    }
    let pay_to = match ledger.wallets.get(&ctx.recipient_token_account) {
        Some(account) => account,
        None => {
            return Err(ErrorCode::AccountMismatch);
        },
    };
    if !pay_to.owner.same(&escrow.state.recipient) || !pay_to.mint.same(&escrow.state.mint) {
        return Err(ErrorCode::AccountMismatch);
    }
    let settlement = match settle(&escrow.state, now) {
        Ok(settlement) => settlement,
        Err(e) => {
            return Err(e);
        },
    };
    let paid: u64 = match pay_to.amount.checked_add(settlement.payout) {
        Some(amount) => amount,
        None => {
            return Err(ErrorCode::TransferFailed);
        },
    };
    let shared = ctx.sender_token_account.same(&ctx.recipient_token_account);
    let held: u64 = if shared {
        paid
    } else {
        refund_to.amount
    };
    let refunded: u64 = match held.checked_add(settlement.refund) {
        Some(amount) => amount,
        None => {
            return Err(ErrorCode::TransferFailed);
        },
    };
    ledger.wallets.put(
        ctx.recipient_token_account,
        TokenAccount { mint: pay_to.mint, owner: pay_to.owner, amount: paid },
    );
    ledger.wallets.put(
        ctx.sender_token_account,
        TokenAccount { mint: refund_to.mint, owner: refund_to.owner, amount: refunded },
    );
    ledger.streams.take(&parties);
    Ok(())
}

/// Closes the stream from `ctx.sender` to `ctx.recipient` at `now`.
///
/// The addresses of the record and of the vault are derived anew from the
/// parties; what follows is as in `close_stream_derived`.
pub fn close_stream(ledger: &mut Ledger, ctx: &CloseStream, now: i64) -> (outcome: Result<
    (),
    ErrorCode,
>)
    requires
        old(ledger).wf(),
    ensures
        final(ledger).wf(),
        carried_out(
            outcome,
            old(ledger)@,
            final(ledger)@,
            old(ledger)@.close_result(
                *ctx,
                addresses_derive(
                    old(ledger)@.program_id,
                    ctx.sender,
                    ctx.recipient,
                    ctx.stream,
                    ctx.vault_account,
                ),
                now,
            ),
        ),
{
    let derived_stream = stream_address(&ledger.program_id, &ctx.sender, &ctx.recipient);
    let derived_vault = vault_address(&ledger.program_id, &ctx.stream);
    close_stream_derived(ledger, ctx, derived_stream, derived_vault, now)
}

} // verus!
