use stream_escrow::address::{stream_address, vault_address, Address};
use stream_escrow::ledger::{
    close_stream, close_stream_derived, create_stream, create_stream_derived, CloseStream,
    CreateStream, Ledger,
};
use stream_escrow::state::ErrorCode;

const PROGRAM: [u8; 32] = [7; 32];
const SENDER: [u8; 32] = [1; 32];
const RECIPIENT: [u8; 32] = [2; 32];
const MINT: [u8; 32] = [3; 32];
const SENDER_WALLET: [u8; 32] = [11; 32];
const RECIPIENT_WALLET: [u8; 32] = [12; 32];

fn at(bytes: [u8; 32]) -> Address {
    Address::new(bytes)
}

/// A ledger in which the payer holds `funds` and the payee holds `held`.
fn funded(funds: u64, held: u64) -> Ledger {
    let mut ledger = Ledger::new(at(PROGRAM));
    assert!(ledger.open_account(at(SENDER_WALLET), at(MINT), at(SENDER)));
    assert!(ledger.open_account(at(RECIPIENT_WALLET), at(MINT), at(RECIPIENT)));
    assert!(ledger.deposit(&at(SENDER_WALLET), funds));
    assert!(ledger.deposit(&at(RECIPIENT_WALLET), held));
    ledger
}

fn opening() -> CreateStream {
    let stream = stream_address(&at(PROGRAM), &at(SENDER), &at(RECIPIENT)).unwrap();
    let vault = vault_address(&at(PROGRAM), &stream).unwrap();
    CreateStream {
        stream,
        sender: at(SENDER),
        sender_signed: true,
        recipient: at(RECIPIENT),
        vault_account: vault,
        sender_token_account: at(SENDER_WALLET),
        mint: at(MINT),
    }
}

fn closing() -> CloseStream {
    let open = opening();
    CloseStream {
        stream: open.stream,
        vault_account: open.vault_account,
        sender: at(SENDER),
        sender_token_account: at(SENDER_WALLET),
        recipient: at(RECIPIENT),
        recipient_token_account: at(RECIPIENT_WALLET),
    }
}

fn balance(ledger: &Ledger, wallet: [u8; 32]) -> u64 {
    ledger.account(&at(wallet)).unwrap().amount
}

fn vault_balance(ledger: &Ledger) -> Option<u64> {
    ledger.escrow(&at(SENDER), &at(RECIPIENT)).map(|escrow| escrow.vault.balance)
}

#[test]
fn creating_a_stream_funds_its_vault() {
    let mut ledger = funded(25_000, 0);
    let ctx = opening();
    assert_eq!(create_stream(&mut ledger, &ctx, 100, 10_000, 1_000), Ok(()));
    assert_eq!(balance(&ledger, SENDER_WALLET), 15_000);
    assert_eq!(balance(&ledger, RECIPIENT_WALLET), 0);
    let escrow = ledger.escrow(&at(SENDER), &at(RECIPIENT)).unwrap();
    assert_eq!(escrow.vault.balance, 10_000);
    assert_eq!(escrow.vault.address.to_bytes(), ctx.vault_account.to_bytes());
    assert_eq!(escrow.vault.authority.to_bytes(), ctx.stream.to_bytes());
    assert_eq!(escrow.vault.mint.to_bytes(), MINT);
    assert_eq!(escrow.address.to_bytes(), ctx.stream.to_bytes());
    assert_eq!(escrow.state.sender.to_bytes(), SENDER);
    assert_eq!(escrow.state.recipient.to_bytes(), RECIPIENT);
    assert_eq!(escrow.state.mint.to_bytes(), MINT);
    assert_eq!(escrow.state.start_time, 1_000);
    assert_eq!(escrow.state.rate_per_second, 100);
    assert_eq!(escrow.state.total_deposit, 10_000);
    assert!(escrow.state.active);
    assert!(ledger.escrow(&at(RECIPIENT), &at(SENDER)).is_none());
}

#[test]
fn closing_after_fifty_seconds_splits_the_deposit() {
    let mut ledger = funded(10_000, 0);
    assert_eq!(create_stream(&mut ledger, &opening(), 100, 10_000, 1_000), Ok(()));
    assert_eq!(close_stream(&mut ledger, &closing(), 1_050), Ok(()));
    assert_eq!(balance(&ledger, RECIPIENT_WALLET), 5_000);
    assert_eq!(balance(&ledger, SENDER_WALLET), 5_000);
    assert!(ledger.escrow(&at(SENDER), &at(RECIPIENT)).is_none());
}

#[test]
fn closing_after_two_hundred_seconds_pays_the_whole_deposit() {
    let mut ledger = funded(10_000, 0);
    assert_eq!(create_stream(&mut ledger, &opening(), 100, 10_000, 1_000), Ok(()));
    assert_eq!(close_stream(&mut ledger, &closing(), 1_200), Ok(()));
    assert_eq!(balance(&ledger, RECIPIENT_WALLET), 10_000);
    assert_eq!(balance(&ledger, SENDER_WALLET), 0);
    assert!(ledger.escrow(&at(SENDER), &at(RECIPIENT)).is_none());
}

#[test]
fn closing_at_the_start_refunds_everything() {
    let mut ledger = funded(10_000, 4);
    assert_eq!(create_stream(&mut ledger, &opening(), u64::MAX, 10_000, 1_000), Ok(()));
    assert_eq!(close_stream(&mut ledger, &closing(), 1_000), Ok(()));
    assert_eq!(balance(&ledger, RECIPIENT_WALLET), 4);
    assert_eq!(balance(&ledger, SENDER_WALLET), 10_000);
}

#[test]
fn second_create_for_the_same_parties_is_a_duplicate() {
    let mut ledger = funded(30_000, 0);
    assert_eq!(create_stream(&mut ledger, &opening(), 100, 10_000, 1_000), Ok(()));
    assert_eq!(
        create_stream(&mut ledger, &opening(), 5, 20_000, 2_000),
        Err(ErrorCode::DuplicateStream)
    );
    assert_eq!(balance(&ledger, SENDER_WALLET), 20_000);
    let escrow = ledger.escrow(&at(SENDER), &at(RECIPIENT)).unwrap();
    assert_eq!(escrow.state.start_time, 1_000);
    assert_eq!(escrow.state.rate_per_second, 100);
    assert_eq!(escrow.vault.balance, 10_000);
}

#[test]
fn stream_can_be_opened_again_once_closed() {
    let mut ledger = funded(30_000, 0);
    assert_eq!(create_stream(&mut ledger, &opening(), 100, 10_000, 1_000), Ok(()));
    assert_eq!(close_stream(&mut ledger, &closing(), 1_010), Ok(()));
    assert_eq!(create_stream(&mut ledger, &opening(), 1, 500, 2_000), Ok(()));
    assert_eq!(vault_balance(&ledger), Some(500));
    assert_eq!(balance(&ledger, SENDER_WALLET), 28_500);
    assert_eq!(balance(&ledger, RECIPIENT_WALLET), 1_000);
}

#[test]
fn streams_in_both_directions_coexist() {
    let mut ledger = funded(10_000, 7_000);
    assert_eq!(create_stream(&mut ledger, &opening(), 100, 10_000, 1_000), Ok(()));
    let stream = stream_address(&at(PROGRAM), &at(RECIPIENT), &at(SENDER)).unwrap();
    let back = CreateStream {
        stream,
        sender: at(RECIPIENT),
        sender_signed: true,
        recipient: at(SENDER),
        vault_account: vault_address(&at(PROGRAM), &stream).unwrap(),
        sender_token_account: at(RECIPIENT_WALLET),
        mint: at(MINT),
    };
    assert_eq!(create_stream(&mut ledger, &back, 1, 7_000, 1_000), Ok(()));
    assert_eq!(vault_balance(&ledger), Some(10_000));
    assert_eq!(ledger.escrow(&at(RECIPIENT), &at(SENDER)).unwrap().vault.balance, 7_000);
    assert_eq!(close_stream(&mut ledger, &closing(), 1_001), Ok(()));
    assert_eq!(ledger.escrow(&at(RECIPIENT), &at(SENDER)).unwrap().vault.balance, 7_000);
    assert_eq!(balance(&ledger, RECIPIENT_WALLET), 100);
    assert_eq!(balance(&ledger, SENDER_WALLET), 9_900);
}

#[test]
fn create_with_a_wrong_stream_address_is_a_mismatch() {
    let mut ledger = funded(10_000, 0);
    let mut ctx = opening();
    ctx.stream = at([99; 32]);
    assert_eq!(
        create_stream(&mut ledger, &ctx, 100, 10_000, 1_000),
        Err(ErrorCode::AccountMismatch)
    );
    assert_eq!(balance(&ledger, SENDER_WALLET), 10_000);
    assert!(vault_balance(&ledger).is_none());
}

#[test]
fn create_with_a_wrong_vault_address_is_a_mismatch() {
    let mut ledger = funded(10_000, 0);
    let mut ctx = opening();
    ctx.vault_account = ctx.stream;
    assert_eq!(
        create_stream(&mut ledger, &ctx, 100, 10_000, 1_000),
        Err(ErrorCode::AccountMismatch)
    );
    assert_eq!(balance(&ledger, SENDER_WALLET), 10_000);
    assert!(vault_balance(&ledger).is_none());
}

#[test]
fn create_with_swapped_parties_needs_their_own_address() {
    let mut ledger = funded(10_000, 10_000);
    let mut ctx = opening();
    ctx.sender = at(RECIPIENT);
    ctx.recipient = at(SENDER);
    ctx.sender_token_account = at(RECIPIENT_WALLET);
    assert_eq!(
        create_stream(&mut ledger, &ctx, 100, 10_000, 1_000),
        Err(ErrorCode::AccountMismatch)
    );
}

#[test]
fn create_without_enough_funds_is_refused() {
    let mut ledger = funded(9_999, 0);
    assert_eq!(
        create_stream(&mut ledger, &opening(), 100, 10_000, 1_000),
        Err(ErrorCode::InsufficientFunds)
    );
    assert_eq!(balance(&ledger, SENDER_WALLET), 9_999);
    assert!(vault_balance(&ledger).is_none());
    assert_eq!(create_stream(&mut ledger, &opening(), 100, 9_999, 1_000), Ok(()));
    assert_eq!(balance(&ledger, SENDER_WALLET), 0);
}

#[test]
fn create_without_authorization_is_refused() {
    let mut ledger = funded(10_000, 0);
    let mut ctx = opening();
    ctx.sender_signed = false;
    assert_eq!(
        create_stream(&mut ledger, &ctx, 100, 10_000, 1_000),
        Err(ErrorCode::InsufficientFunds)
    );
    assert_eq!(balance(&ledger, SENDER_WALLET), 10_000);
}

#[test]
fn create_from_an_account_that_cannot_fund_is_refused() {
    let mut ledger = funded(10_000, 10_000);
    let mut missing = opening();
    missing.sender_token_account = at([50; 32]);
    assert_eq!(
        create_stream(&mut ledger, &missing, 100, 10_000, 1_000),
        Err(ErrorCode::InsufficientFunds)
    );
    let mut not_owned = opening();
    not_owned.sender_token_account = at(RECIPIENT_WALLET);
    assert_eq!(
        create_stream(&mut ledger, &not_owned, 100, 10_000, 1_000),
        Err(ErrorCode::InsufficientFunds)
    );
    let mut other_asset = opening();
    other_asset.mint = at([4; 32]);
    assert_eq!(
        create_stream(&mut ledger, &other_asset, 100, 10_000, 1_000),
        Err(ErrorCode::InsufficientFunds)
    );
    assert_eq!(balance(&ledger, SENDER_WALLET), 10_000);
    assert_eq!(balance(&ledger, RECIPIENT_WALLET), 10_000);
    assert!(vault_balance(&ledger).is_none());
}

#[test]
fn mismatch_is_reported_before_duplicate_and_funding() {
    let mut ledger = funded(100, 0);
    assert_eq!(create_stream(&mut ledger, &opening(), 1, 100, 0), Ok(()));
    let mut ctx = opening();
    ctx.stream = at([99; 32]);
    assert_eq!(create_stream(&mut ledger, &ctx, 1, 100, 0), Err(ErrorCode::AccountMismatch));
    assert_eq!(create_stream(&mut ledger, &opening(), 1, 100, 0), Err(ErrorCode::DuplicateStream));
}

#[test]
fn second_close_fails_and_moves_nothing() {
    let mut ledger = funded(10_000, 0);
    assert_eq!(create_stream(&mut ledger, &opening(), 100, 10_000, 1_000), Ok(()));
    assert_eq!(close_stream(&mut ledger, &closing(), 1_050), Ok(()));
    assert_eq!(close_stream(&mut ledger, &closing(), 1_050), Err(ErrorCode::AccountMismatch));
    assert_eq!(close_stream(&mut ledger, &closing(), 9_999), Err(ErrorCode::AccountMismatch));
    assert_eq!(balance(&ledger, RECIPIENT_WALLET), 5_000);
    assert_eq!(balance(&ledger, SENDER_WALLET), 5_000);
    assert!(ledger.escrow(&at(SENDER), &at(RECIPIENT)).is_none());
}

#[test]
fn close_without_a_stream_is_a_mismatch() {
    let mut ledger = funded(10_000, 0);
    assert_eq!(close_stream(&mut ledger, &closing(), 1_050), Err(ErrorCode::AccountMismatch));
    assert_eq!(balance(&ledger, SENDER_WALLET), 10_000);
    assert_eq!(balance(&ledger, RECIPIENT_WALLET), 0);
}

#[test]
fn overflow_at_close_leaves_the_vault_untouched() {
    let mut ledger = funded(10_000, 0);
    assert_eq!(create_stream(&mut ledger, &opening(), u64::MAX, 10_000, 1_000), Ok(()));
    assert_eq!(close_stream(&mut ledger, &closing(), 1_002), Err(ErrorCode::MathOverflow));
    assert_eq!(vault_balance(&ledger), Some(10_000));
    assert_eq!(balance(&ledger, SENDER_WALLET), 0);
    assert_eq!(balance(&ledger, RECIPIENT_WALLET), 0);
    let escrow = ledger.escrow(&at(SENDER), &at(RECIPIENT)).unwrap();
    assert_eq!(escrow.state.start_time, 1_000);
    assert_eq!(escrow.state.total_deposit, 10_000);
    assert_eq!(close_stream(&mut ledger, &closing(), 1_001), Ok(()));
    assert_eq!(balance(&ledger, RECIPIENT_WALLET), 10_000);
}

#[test]
fn close_with_wrong_accounts_is_a_mismatch() {
    let mut ledger = funded(10_000, 0);
    assert!(ledger.open_account(at([60; 32]), at(MINT), at([61; 32])));
    assert!(ledger.open_account(at([62; 32]), at([4; 32]), at(RECIPIENT)));
    assert_eq!(create_stream(&mut ledger, &opening(), 100, 10_000, 1_000), Ok(()));

    let mut wrong_stream = closing();
    wrong_stream.stream = at([99; 32]);
    let mut wrong_vault = closing();
    wrong_vault.vault_account = at([99; 32]);
    let mut wrong_sender = closing();
    wrong_sender.sender = at([61; 32]);
    let mut strangers_account = closing();
    strangers_account.recipient_token_account = at([60; 32]);
    let mut refund_to_payee = closing();
    refund_to_payee.sender_token_account = at(RECIPIENT_WALLET);
    let mut other_asset = closing();
    other_asset.recipient_token_account = at([62; 32]);
    let mut missing = closing();
    missing.recipient_token_account = at([63; 32]);

    for ctx in [
        wrong_stream,
        wrong_vault,
        wrong_sender,
        strangers_account,
        refund_to_payee,
        other_asset,
        missing,
    ] {
        assert_eq!(close_stream(&mut ledger, &ctx, 1_050), Err(ErrorCode::AccountMismatch));
        assert_eq!(vault_balance(&ledger), Some(10_000));
        assert_eq!(balance(&ledger, SENDER_WALLET), 0);
        assert_eq!(balance(&ledger, RECIPIENT_WALLET), 0);
        assert_eq!(balance(&ledger, [60; 32]), 0);
        assert_eq!(balance(&ledger, [62; 32]), 0);
    }
    assert_eq!(close_stream(&mut ledger, &closing(), 1_050), Ok(()));
}

#[test]
fn mismatch_is_reported_before_overflow() {
    let mut ledger = funded(10_000, 0);
    assert_eq!(create_stream(&mut ledger, &opening(), u64::MAX, 10_000, 1_000), Ok(()));
    let mut ctx = closing();
    ctx.vault_account = at([99; 32]);
    assert_eq!(close_stream(&mut ledger, &ctx, 1_002), Err(ErrorCode::AccountMismatch));
}

#[test]
fn payout_that_cannot_be_credited_fails_the_whole_close() {
    let mut ledger = funded(10_000, u64::MAX - 4_999);
    assert_eq!(create_stream(&mut ledger, &opening(), 100, 10_000, 1_000), Ok(()));
    assert_eq!(close_stream(&mut ledger, &closing(), 1_050), Err(ErrorCode::TransferFailed));
    assert_eq!(vault_balance(&ledger), Some(10_000));
    assert_eq!(balance(&ledger, SENDER_WALLET), 0);
    assert_eq!(balance(&ledger, RECIPIENT_WALLET), u64::MAX - 4_999);
    assert_eq!(close_stream(&mut ledger, &closing(), 1_049), Ok(()));
    assert_eq!(balance(&ledger, RECIPIENT_WALLET), u64::MAX - 99);
    assert_eq!(balance(&ledger, SENDER_WALLET), 5_100);
}

#[test]
fn refund_that_cannot_be_credited_fails_the_whole_close() {
    let mut ledger = funded(10_000, 0);
    assert_eq!(create_stream(&mut ledger, &opening(), 100, 10_000, 1_000), Ok(()));
    assert!(ledger.deposit(&at(SENDER_WALLET), u64::MAX - 4_999));
    assert_eq!(close_stream(&mut ledger, &closing(), 1_050), Err(ErrorCode::TransferFailed));
    assert_eq!(vault_balance(&ledger), Some(10_000));
    assert_eq!(balance(&ledger, RECIPIENT_WALLET), 0);
    assert_eq!(balance(&ledger, SENDER_WALLET), u64::MAX - 4_999);
}

#[test]
fn stream_to_oneself_returns_the_whole_deposit_to_one_account() {
    let mut ledger = Ledger::new(at(PROGRAM));
    assert!(ledger.open_account(at(SENDER_WALLET), at(MINT), at(SENDER)));
    assert!(ledger.deposit(&at(SENDER_WALLET), 10_000));
    let stream = stream_address(&at(PROGRAM), &at(SENDER), &at(SENDER)).unwrap();
    let vault = vault_address(&at(PROGRAM), &stream).unwrap();
    let open = CreateStream {
        stream,
        sender: at(SENDER),
        sender_signed: true,
        recipient: at(SENDER),
        vault_account: vault,
        sender_token_account: at(SENDER_WALLET),
        mint: at(MINT),
    };
    assert_eq!(create_stream(&mut ledger, &open, 100, 10_000, 1_000), Ok(()));
    assert_eq!(balance(&ledger, SENDER_WALLET), 0);
    let close = CloseStream {
        stream,
        vault_account: vault,
        sender: at(SENDER),
        sender_token_account: at(SENDER_WALLET),
        recipient: at(SENDER),
        recipient_token_account: at(SENDER_WALLET),
    };
    assert_eq!(close_stream(&mut ledger, &close, 1_030), Ok(()));
    assert_eq!(balance(&ledger, SENDER_WALLET), 10_000);
}

#[test]
fn zero_rate_and_zero_deposit_are_accepted() {
    let mut ledger = funded(10, 0);
    assert_eq!(create_stream(&mut ledger, &opening(), 0, 0, 1_000), Ok(()));
    assert_eq!(vault_balance(&ledger), Some(0));
    assert_eq!(close_stream(&mut ledger, &closing(), 5_000), Ok(()));
    assert_eq!(balance(&ledger, SENDER_WALLET), 10);
    assert_eq!(balance(&ledger, RECIPIENT_WALLET), 0);
}

#[test]
fn given_derivations_decide_the_mismatch() {
    let mut ledger = funded(10_000, 0);
    let stream = at([70; 32]);
    let vault = at([71; 32]);
    let mut open = opening();
    open.stream = stream;
    open.vault_account = vault;
    assert_eq!(
        create_stream_derived(&mut ledger, &open, None, Some(vault), 100, 10_000, 1_000),
        Err(ErrorCode::AccountMismatch)
    );
    assert_eq!(
        create_stream_derived(&mut ledger, &open, Some(stream), None, 100, 10_000, 1_000),
        Err(ErrorCode::AccountMismatch)
    );
    assert_eq!(
        create_stream_derived(&mut ledger, &open, Some(vault), Some(stream), 100, 10_000, 1_000),
        Err(ErrorCode::AccountMismatch)
    );
    assert_eq!(
        create_stream_derived(&mut ledger, &open, Some(stream), Some(vault), 100, 10_000, 1_000),
        Ok(())
    );
    let mut close = closing();
    close.stream = stream;
    close.vault_account = vault;
    assert_eq!(
        close_stream_derived(&mut ledger, &close, Some(stream), None, 1_050),
        Err(ErrorCode::AccountMismatch)
    );
    assert_eq!(
        close_stream_derived(&mut ledger, &close, Some(at([72; 32])), Some(vault), 1_050),
        Err(ErrorCode::AccountMismatch)
    );
    assert_eq!(vault_balance(&ledger), Some(10_000));
    assert_eq!(
        close_stream_derived(&mut ledger, &close, Some(stream), Some(vault), 1_050),
        Ok(())
    );
    assert_eq!(balance(&ledger, RECIPIENT_WALLET), 5_000);
    assert_eq!(balance(&ledger, SENDER_WALLET), 5_000);
}

#[test]
fn accounts_open_once_and_take_deposits() {
    let mut ledger = Ledger::new(at(PROGRAM));
    assert_eq!(ledger.program_id().to_bytes(), PROGRAM);
    assert!(ledger.account(&at(SENDER_WALLET)).is_none());
    assert!(!ledger.deposit(&at(SENDER_WALLET), 1));
    assert!(ledger.open_account(at(SENDER_WALLET), at(MINT), at(SENDER)));
    assert!(!ledger.open_account(at(SENDER_WALLET), at([4; 32]), at(RECIPIENT)));
    let account = ledger.account(&at(SENDER_WALLET)).unwrap();
    assert_eq!(account.amount, 0);
    assert_eq!(account.mint.to_bytes(), MINT);
    assert_eq!(account.owner.to_bytes(), SENDER);
    assert!(ledger.deposit(&at(SENDER_WALLET), u64::MAX - 1));
    assert!(!ledger.deposit(&at(SENDER_WALLET), 2));
    assert_eq!(balance(&ledger, SENDER_WALLET), u64::MAX - 1);
    assert!(ledger.deposit(&at(SENDER_WALLET), 1));
    assert_eq!(balance(&ledger, SENDER_WALLET), u64::MAX);
}
