//! What holds of the ledger's operations, whatever the ledger and the request.

use vstd::prelude::*;
use crate::address::Address;
use crate::ledger::{
    carried_out, closing_parties, creating_parties, escrow_in_order, CloseStream, CreateStream,
    LedgerView, Parties,
};
use crate::settlement::{elapsed_between, lemma_settlement_splits_deposit, settlement_at};
use crate::state::ErrorCode;

verus! {

/// While a stream between two parties is open, no request can open another
/// between them: it is refused, and with `DuplicateStream` whenever its
/// addresses are the derived ones.
pub proof fn lemma_create_refused_while_open(
    ledger: LedgerView,
    ctx: CreateStream,
    addresses_ok: bool,
    rate_per_second: u64,
    max_amount: u64,
    now: i64,
)
    requires
        ledger.streams.contains_key(creating_parties(ctx)),
    ensures
        ledger.create_result(ctx, addresses_ok, rate_per_second, max_amount, now) is Err,
        addresses_ok ==> ledger.create_result(ctx, addresses_ok, rate_per_second, max_amount, now)
            == Err::<LedgerView, ErrorCode>(ErrorCode::DuplicateStream),
{
}

/// Of two requests to open a stream between the same parties, made one after
/// the other, the second is refused if the first was granted: with
/// `DuplicateStream` whenever its addresses are the derived ones.
pub proof fn lemma_second_create_refused(
    ledger: LedgerView,
    first: CreateStream,
    first_ok: bool,
    first_rate: u64,
    first_amount: u64,
    first_now: i64,
    second: CreateStream,
    second_ok: bool,
    second_rate: u64,
    second_amount: u64,
    second_now: i64,
)
    requires
        ledger.create_result(first, first_ok, first_rate, first_amount, first_now) is Ok,
        creating_parties(second) == creating_parties(first),
    ensures
        ({
            let opened = ledger.create_result(
                first,
                first_ok,
                first_rate,
                first_amount,
                first_now,
            ).unwrap();
            let again = opened.create_result(
                second,
                second_ok,
                second_rate,
                second_amount,
                second_now,
            );
            &&& opened.streams.contains_key(creating_parties(first))
            &&& again is Err
            &&& second_ok ==> again == Err::<LedgerView, ErrorCode>(ErrorCode::DuplicateStream)
        }),
{
}

/// A granted request to open a stream takes exactly the deposit from the
/// funding account and puts exactly the deposit into the new vault; the
/// record starts at the given time with the given rate and cap. No other
/// account and no other stream changes.
pub proof fn lemma_create_funds_vault(
    ledger: LedgerView,
    ctx: CreateStream,
    addresses_ok: bool,
    rate_per_second: u64,
    max_amount: u64,
    now: i64,
)
    requires
        ledger.create_result(ctx, addresses_ok, rate_per_second, max_amount, now) is Ok,
    ensures
        ({
            let opened = ledger.create_result(
                ctx,
                addresses_ok,
                rate_per_second,
                max_amount,
                now,
            ).unwrap();
            let escrow = opened.streams[creating_parties(ctx)];
            &&& addresses_ok
            &&& !ledger.streams.contains_key(creating_parties(ctx))
            &&& opened.streams.contains_key(creating_parties(ctx))
            &&& escrow.vault.balance == max_amount
            &&& escrow.state.total_deposit == max_amount
            &&& escrow.state.rate_per_second == rate_per_second
            &&& escrow.state.start_time == now
            &&& escrow_in_order(creating_parties(ctx), escrow)
            &&& opened.wallets[ctx.sender_token_account].amount + max_amount
                == ledger.wallets[ctx.sender_token_account].amount
            &&& opened.wallets.dom() == ledger.wallets.dom()
            &&& forall|other: Address|
                other != ctx.sender_token_account ==> opened.wallets[other]
                    == ledger.wallets[other]
            &&& forall|other: Parties|
                other != creating_parties(ctx) ==> (opened.streams.contains_key(other)
                    <==> ledger.streams.contains_key(other)) && opened.streams[other]
                    == ledger.streams[other]
        }),
{
    let opened = ledger.create_result(ctx, addresses_ok, rate_per_second, max_amount, now).unwrap();
    assert(opened.wallets.dom() =~= ledger.wallets.dom());
}

/// Opening a stream keeps every open stream in order.
pub proof fn lemma_create_keeps_order(
    ledger: LedgerView,
    ctx: CreateStream,
    addresses_ok: bool,
    rate_per_second: u64,
    max_amount: u64,
    now: i64,
)
    requires
        ledger.consistent(),
        ledger.create_result(ctx, addresses_ok, rate_per_second, max_amount, now) is Ok,
    ensures
        ledger.create_result(
            ctx,
            addresses_ok,
            rate_per_second,
            max_amount,
            now,
        ).unwrap().consistent(),
{
}

/// Closing a stream keeps every other open stream in order.
pub proof fn lemma_close_keeps_order(
    ledger: LedgerView,
    ctx: CloseStream,
    addresses_ok: bool,
    now: i64,
)
    requires
        ledger.consistent(),
        ledger.close_result(ctx, addresses_ok, now) is Ok,
    ensures
        ledger.close_result(ctx, addresses_ok, now).unwrap().consistent(),
{
}

/// Closing a stream removes its record and its vault and leaves every other
/// stream as it was.
pub proof fn lemma_close_removes_stream(
    ledger: LedgerView,
    ctx: CloseStream,
    addresses_ok: bool,
    now: i64,
)
    requires
        ledger.close_result(ctx, addresses_ok, now) is Ok,
    ensures
        ({
            let closed = ledger.close_result(ctx, addresses_ok, now).unwrap();
            &&& addresses_ok
            &&& ledger.streams.contains_key(closing_parties(ctx))
            &&& !closed.streams.contains_key(closing_parties(ctx))
            &&& forall|other: Parties|
                other != closing_parties(ctx) ==> (closed.streams.contains_key(other)
                    <==> ledger.streams.contains_key(other)) && closed.streams[other]
                    == ledger.streams[other]
        }),
{
}

/// A refused operation changes nothing: the ledger after it is the ledger
/// before it.
pub proof fn lemma_refusal_changes_nothing(
    outcome: Result<(), ErrorCode>,
    before: LedgerView,
    after: LedgerView,
    expected: Result<LedgerView, ErrorCode>,
)
    requires
        carried_out(outcome, before, after, expected),
        outcome is Err,
    ensures
        after == before,
        expected == Err::<LedgerView, ErrorCode>(outcome->Err_0),
{
}

/// A stream that was closed cannot be closed again: whatever accounts and
/// clock reading a second request for the same parties brings, it is refused
/// with `AccountMismatch` and moves nothing.
pub proof fn lemma_second_close_refused(
    ledger: LedgerView,
    first: CloseStream,
    first_ok: bool,
    first_now: i64,
    second: CloseStream,
    second_ok: bool,
    second_now: i64,
    outcome: Result<(), ErrorCode>,
    after: LedgerView,
)
    requires
        ledger.close_result(first, first_ok, first_now) is Ok,
        closing_parties(second) == closing_parties(first),
        carried_out(
            outcome,
            ledger.close_result(first, first_ok, first_now).unwrap(),
            after,
            ledger.close_result(first, first_ok, first_now).unwrap().close_result(
                second,
                second_ok,
                second_now,
            ),
        ),
    ensures
        !ledger.close_result(first, first_ok, first_now).unwrap().streams.contains_key(
            closing_parties(first),
        ),
        outcome == Err::<(), ErrorCode>(ErrorCode::AccountMismatch),
        after == ledger.close_result(first, first_ok, first_now).unwrap(),
{
}

/// If the earned amount of an open stream overflows at the clock reading, no
/// request can close the stream: it is refused, with `MathOverflow` whenever
/// its addresses and accounts are in order, and the ledger stays as it was,
/// so the vault still holds what it held.
pub proof fn lemma_overflow_refuses_close(
    ledger: LedgerView,
    ctx: CloseStream,
    addresses_ok: bool,
    now: i64,
    outcome: Result<(), ErrorCode>,
    after: LedgerView,
)
    requires
        ledger.streams.contains_key(closing_parties(ctx)),
        elapsed_between(ledger.streams[closing_parties(ctx)].state.start_time as int, now as int)
            * ledger.streams[closing_parties(ctx)].state.rate_per_second > u64::MAX,
        carried_out(outcome, ledger, after, ledger.close_result(ctx, addresses_ok, now)),
    ensures
        outcome is Err,
        addresses_ok && ledger.accounts_match(ctx) ==> outcome == Err::<(), ErrorCode>(
            ErrorCode::MathOverflow,
        ),
        after == ledger,
        after.streams.contains_key(closing_parties(ctx)),
        after.streams[closing_parties(ctx)].vault.balance
            == ledger.streams[closing_parties(ctx)].vault.balance,
{
}

/// A granted request to close a stream empties the vault exactly: the payout
/// and the refund are those of the settlement, they add up to what the vault
/// held, the payee's account grows by the payout and the payer's by the
/// refund (one account that serves as both grows by the whole deposit), and
/// no other account changes.
pub proof fn lemma_close_disburses_vault(
    ledger: LedgerView,
    ctx: CloseStream,
    addresses_ok: bool,
    now: i64,
)
    requires
        ledger.consistent(),
        ledger.close_result(ctx, addresses_ok, now) is Ok,
    ensures
        ({
            let closed = ledger.close_result(ctx, addresses_ok, now).unwrap();
            let escrow = ledger.streams[closing_parties(ctx)];
            let payee = ctx.recipient_token_account;
            let payer = ctx.sender_token_account;
            &&& settlement_at(escrow.state, now) matches Ok((payout, refund)) && {
                &&& payout + refund == escrow.vault.balance
                &&& 0 <= payout <= escrow.state.total_deposit
                &&& 0 <= refund
                &&& payee != payer ==> closed.wallets[payee].amount == ledger.wallets[payee].amount
                    + payout && closed.wallets[payer].amount == ledger.wallets[payer].amount
                    + refund
                &&& payee == payer ==> closed.wallets[payee].amount == ledger.wallets[payee].amount
                    + escrow.vault.balance
            }
            &&& closed.wallets.dom() == ledger.wallets.dom()
            &&& forall|other: Address|
                other != payee && other != payer ==> closed.wallets[other]
                    == ledger.wallets[other]
        }),
{
    let escrow = ledger.streams[closing_parties(ctx)];
    let state = escrow.state;
    let elapsed = elapsed_between(state.start_time as int, now as int);
    assert(escrow_in_order(closing_parties(ctx), escrow));
    assert(0 <= elapsed <= u64::MAX);
    lemma_settlement_splits_deposit(elapsed as u64, state.rate_per_second, state.total_deposit);
    let closed = ledger.close_result(ctx, addresses_ok, now).unwrap();
    assert(closed.wallets.dom() =~= ledger.wallets.dom());
}

} // verus!
