//! What holds of the three calls, whatever the books and the arguments.

use crate::account::{CancelEscrow, Exchange, StartEscrow};
use crate::authority::controller_for;
use crate::fee::{fee_of, lemma_fee_conserved, net_of};
use crate::identity::Identity;
use crate::ledger::LedgerState;
use crate::lifecycle::{account_at, cancel_outcome, exchange_outcome, start_outcome};
use crate::record::{Consideration, ErrorKind, EscrowError, TokenAccount};
use vstd::prelude::*;

verus! {

/// Whether the vault at `v` holds exactly what its record says was
/// offered, in the mint that the record names, and the record's amounts
/// are strictly positive.
pub open spec fn in_custody(s: LedgerState, v: Identity) -> bool {
    &&& s.tokens.contains_key(v)
    &&& s.tokens[v].amount == s.escrows[v].token_amount
    &&& s.tokens[v].mint == s.escrows[v].token_mint_pk
    &&& s.escrows[v].amounts_positive()
}

/// Every escrow on the books is in custody: from its start until the one
/// call that ends it, its vault is never seen partly drained.
pub open spec fn custody_holds(s: LedgerState) -> bool {
    forall|v: Identity| #[trigger] s.escrows.contains_key(v) ==> in_custody(s, v)
}

/// The account `a` with `amount` more in it.
pub open spec fn credited(a: TokenAccount, amount: int) -> TokenAccount {
    TokenAccount { amount: (a.amount + amount) as u64, ..a }
}

/// A successful start leaves the vault holding exactly the offered amount
/// under the named controller, keeps a record that equals the supplied
/// arguments, takes exactly the offered amount from the initiator's source
/// account, and changes no other balance and no other record.
pub proof fn lemma_start_effect(
    s: LedgerState,
    ctx: StartEscrow,
    token_amount: u64,
    asked: Consideration,
)
    requires
        start_outcome(s, ctx, token_amount, asked) is Ok,
    ensures
        ({
            let after = start_outcome(s, ctx, token_amount, asked)->Ok_0;
            let source = ctx.seller_token_account;
            let vault = ctx.token_vault;
            &&& !s.tokens.contains_key(vault)
            &&& !s.escrows.contains_key(vault)
            &&& s.tokens.contains_key(source)
            &&& s.tokens[source].amount >= token_amount
            &&& after.tokens == s.tokens.insert(
                source,
                credited(s.tokens[source], -(token_amount as int)),
            ).insert(
                vault,
                TokenAccount {
                    mint: ctx.token_mint_pk,
                    owner: ctx.vault_owner,
                    amount: token_amount,
                },
            )
            &&& after.balance_of(vault) == token_amount
            &&& after.balance_of(source) == s.balance_of(source) - token_amount
            &&& forall|k: Identity|
                k != source && k != vault ==> after.tokens.contains_key(k) == s.tokens.contains_key(
                    k,
                ) && #[trigger] after.balance_of(k) == s.balance_of(k)
            &&& after.escrows == s.escrows.insert(vault, ctx.record(token_amount, asked))
            &&& after.escrows[vault] == ctx.record(token_amount, asked)
            &&& after.escrows[vault].amounts_positive()
            &&& after.lamports == s.lamports
            &&& after.program == s.program
        }),
{
    let after = start_outcome(s, ctx, token_amount, asked)->Ok_0;
    let source = ctx.seller_token_account;
    let vault = ctx.token_vault;
    let opened = s.open_account(vault, ctx.token_mint_pk, ctx.vault_owner)->Ok_0;
    assert(opened.transfer(ctx.seller_to_vault(), token_amount, ctx.seller) is Ok);
    assert(source != vault);
    assert(after.tokens =~= s.tokens.insert(
        source,
        credited(s.tokens[source], -(token_amount as int)),
    ).insert(
        vault,
        TokenAccount { mint: ctx.token_mint_pk, owner: ctx.vault_owner, amount: token_amount },
    ));
}

/// Starting an escrow keeps every vault in custody whole, the new one
/// included.
pub proof fn lemma_start_keeps_custody(
    s: LedgerState,
    ctx: StartEscrow,
    token_amount: u64,
    asked: Consideration,
)
    requires
        custody_holds(s),
        start_outcome(s, ctx, token_amount, asked) is Ok,
    ensures
        custody_holds(start_outcome(s, ctx, token_amount, asked)->Ok_0),
{
    lemma_start_effect(s, ctx, token_amount, asked);
    let after = start_outcome(s, ctx, token_amount, asked)->Ok_0;
    let opened = s.open_account(ctx.token_vault, ctx.token_mint_pk, ctx.vault_owner)->Ok_0;
    assert(opened.transfer(ctx.seller_to_vault(), token_amount, ctx.seller) is Ok);
    assert(!s.escrows.contains_key(ctx.seller_token_account));
    assert forall|v: Identity| #[trigger] after.escrows.contains_key(v) implies in_custody(
        after,
        v,
    ) by {
        if v != ctx.token_vault {
            assert(s.escrows.contains_key(v));
        }
    }
}

/// A successful cancellation moves all that the vault held to the
/// initiator's account, removes the vault and its record, and changes
/// nothing else.
pub proof fn lemma_cancel_effect(s: LedgerState, ctx: CancelEscrow, bump: u8)
    requires
        cancel_outcome(s, ctx, bump) is Ok,
    ensures
        ({
            let after = cancel_outcome(s, ctx, bump)->Ok_0;
            let vault = ctx.token_vault;
            let refund = s.escrows[vault].seller_token_account;
            &&& s.active(vault)
            &&& s.escrows[vault].may_cancel(ctx.payer)
            &&& controller_for(s.program, bump) == Some(s.tokens[vault].owner@)
            &&& s.tokens.contains_key(refund)
            &&& refund != vault
            &&& !s.escrows.contains_key(refund)
            &&& after.tokens == s.tokens.insert(
                refund,
                credited(s.tokens[refund], s.tokens[vault].amount as int),
            ).remove(vault)
            &&& after.balance_of(refund) == s.balance_of(refund) + s.balance_of(vault)
            &&& after.escrows == s.escrows.remove(vault)
            &&& after.lamports == s.lamports
            &&& after.program == s.program
            &&& !after.active(vault)
        }),
{
    let after = cancel_outcome(s, ctx, bump)->Ok_0;
    let vault = ctx.token_vault;
    let held = s.tokens[vault];
    let refund = s.escrows[vault].seller_token_account;
    let refunded = s.transfer_signed(
        ctx.vault_to_seller(),
        held.amount,
        s.program,
        held.owner,
    )->Ok_0;
    assert(refunded.close_account(ctx.vault_closing(), s.program, held.owner) is Ok);
    assert(after.tokens =~= s.tokens.insert(
        refund,
        credited(s.tokens[refund], held.amount as int),
    ).remove(vault));
}

/// Cancelling an escrow keeps every other vault in custody whole.
pub proof fn lemma_cancel_keeps_custody(s: LedgerState, ctx: CancelEscrow, bump: u8)
    requires
        custody_holds(s),
        cancel_outcome(s, ctx, bump) is Ok,
    ensures
        custody_holds(cancel_outcome(s, ctx, bump)->Ok_0),
{
    lemma_cancel_effect(s, ctx, bump);
    let after = cancel_outcome(s, ctx, bump)->Ok_0;
    assert forall|v: Identity| #[trigger] after.escrows.contains_key(v) implies in_custody(
        after,
        v,
    ) by {
        assert(s.escrows.contains_key(v));
    }
}

/// A caller who is neither the initiator nor, where the escrow has one,
/// the administrator cannot cancel an active escrow: the call fails with
/// an authorization error.
pub proof fn lemma_cancel_refuses_strangers(s: LedgerState, ctx: CancelEscrow, bump: u8)
    requires
        s.active(ctx.token_vault),
        !s.escrows[ctx.token_vault].may_cancel(ctx.payer),
    ensures
        cancel_outcome(s, ctx, bump) matches Err(e) && e.spec_kind() == ErrorKind::Authorization,
{
}

/// A disambiguator that derives another controller than the one the vault
/// is registered to, or none, opens nothing: on an active escrow both
/// cancelling and settling fail with `WrongDerivation`.
pub proof fn lemma_wrong_disambiguator(
    s: LedgerState,
    cancel: CancelEscrow,
    settle: Exchange,
    bump: u8,
)
    requires
        cancel.token_vault == settle.token_vault,
        s.active(cancel.token_vault),
        controller_for(s.program, bump) != Some(s.tokens[cancel.token_vault].owner@),
    ensures
        cancel_outcome(s, cancel, bump) == Err::<LedgerState, EscrowError>(
            EscrowError::WrongDerivation,
        ),
        exchange_outcome(s, settle, bump) == Err::<LedgerState, EscrowError>(
            EscrowError::WrongDerivation,
        ),
{
}

/// After a successful cancellation the escrow is gone for good: every
/// later cancellation or settlement of the same vault fails, whoever
/// calls and whatever the disambiguator.
pub proof fn lemma_cancelled_for_good(
    s: LedgerState,
    ctx: CancelEscrow,
    bump: u8,
    cancel: CancelEscrow,
    settle: Exchange,
    later: u8,
)
    requires
        cancel_outcome(s, ctx, bump) is Ok,
        cancel.token_vault == ctx.token_vault,
        settle.token_vault == ctx.token_vault,
    ensures
        cancel_outcome(cancel_outcome(s, ctx, bump)->Ok_0, cancel, later) == Err::<
            LedgerState,
            EscrowError,
        >(EscrowError::AccountNotFound),
        exchange_outcome(cancel_outcome(s, ctx, bump)->Ok_0, settle, later) == Err::<
            LedgerState,
            EscrowError,
        >(EscrowError::AccountNotFound),
{
    lemma_cancel_effect(s, ctx, bump);
}

/// Cancelling right after starting, with the disambiguator that derives
/// the controller, undoes the start: the books are as they were before,
/// the initiator's balance included, and the vault is gone.
pub proof fn lemma_cancel_undoes_start(
    s: LedgerState,
    ctx: StartEscrow,
    token_amount: u64,
    asked: Consideration,
    bump: u8,
)
    requires
        start_outcome(s, ctx, token_amount, asked) is Ok,
        controller_for(s.program, bump) == Some(ctx.vault_owner@),
    ensures
        cancel_outcome(
            start_outcome(s, ctx, token_amount, asked)->Ok_0,
            CancelEscrow {
                payer: ctx.seller,
                seller_token_account: ctx.seller_token_account,
                token_vault: ctx.token_vault,
                vault_owner: ctx.vault_owner,
            },
            bump,
        ) == Ok::<LedgerState, EscrowError>(s),
{
    lemma_start_effect(s, ctx, token_amount, asked);
    let started = start_outcome(s, ctx, token_amount, asked)->Ok_0;
    let undo = CancelEscrow {
        payer: ctx.seller,
        seller_token_account: ctx.seller_token_account,
        token_vault: ctx.token_vault,
        vault_owner: ctx.vault_owner,
    };
    let opened = s.open_account(ctx.token_vault, ctx.token_mint_pk, ctx.vault_owner)->Ok_0;
    assert(opened.transfer(ctx.seller_to_vault(), token_amount, ctx.seller) is Ok);
    assert(!s.escrows.contains_key(ctx.seller_token_account));
    let held = started.tokens[ctx.token_vault];
    let refunded = started.transfer_signed(
        undo.vault_to_seller(),
        held.amount,
        started.program,
        held.owner,
    );
    assert(refunded is Ok);
    let closed = refunded->Ok_0.close_account(undo.vault_closing(), started.program, held.owner);
    assert(closed is Ok);
    assert(closed->Ok_0.tokens =~= s.tokens);
    assert(closed->Ok_0.escrows =~= s.escrows);
}

/// A successful settlement empties and removes the vault and its record,
/// and touches no other record. The vault's controller was derived from
/// the disambiguator, and the initiator named is the one of the record.
pub proof fn lemma_exchange_closes(s: LedgerState, ctx: Exchange, bump: u8)
    requires
        exchange_outcome(s, ctx, bump) is Ok,
    ensures
        ({
            let after = exchange_outcome(s, ctx, bump)->Ok_0;
            let vault = ctx.token_vault;
            &&& s.active(vault)
            &&& controller_for(s.program, bump) == Some(s.tokens[vault].owner@)
            &&& ctx.seller == s.escrows[vault].seller_pk
            &&& !after.tokens.contains_key(vault)
            &&& after.escrows == s.escrows.remove(vault)
            &&& after.program == s.program
            &&& !after.active(vault)
        }),
{
    let vault = ctx.token_vault;
    let info = s.escrows[vault];
    let held = s.tokens[vault];
    match info.asked {
        Consideration::Tokens { .. } => {
            let leg = ctx.payment_of(info)->Ok_0->Tokens_leg;
            let amount = ctx.payment_of(info)->Ok_0->Tokens_amount;
            let paid = s.transfer(leg, amount, ctx.buyer)->Ok_0;
            let released = paid.transfer_signed(
                ctx.vault_to_buyer(),
                held.amount,
                s.program,
                held.owner,
            )->Ok_0;
            assert(released.close_account(ctx.vault_closing(), s.program, held.owner) is Ok);
        },
        Consideration::Lamports { .. } => {
            let net = ctx.payment_of(info)->Ok_0->Lamports_net;
            let fee = ctx.payment_of(info)->Ok_0->Lamports_fee;
            let paid = s.transfer_lamports(net, ctx.buyer)->Ok_0;
            let released = paid.transfer_signed(
                ctx.vault_to_buyer(),
                held.amount,
                s.program,
                held.owner,
            )->Ok_0;
            let charged = released.transfer_lamports(fee, ctx.buyer)->Ok_0;
            assert(charged.close_account(ctx.vault_closing(), s.program, held.owner) is Ok);
        },
    }
}

/// After a successful settlement the escrow is gone for good: every later
/// cancellation or settlement of the same vault fails, whoever calls and
/// whatever the disambiguator.
pub proof fn lemma_settled_for_good(
    s: LedgerState,
    ctx: Exchange,
    bump: u8,
    cancel: CancelEscrow,
    settle: Exchange,
    later: u8,
)
    requires
        exchange_outcome(s, ctx, bump) is Ok,
        cancel.token_vault == ctx.token_vault,
        settle.token_vault == ctx.token_vault,
    ensures
        cancel_outcome(exchange_outcome(s, ctx, bump)->Ok_0, cancel, later) == Err::<
            LedgerState,
            EscrowError,
        >(EscrowError::AccountNotFound),
        exchange_outcome(exchange_outcome(s, ctx, bump)->Ok_0, settle, later) == Err::<
            LedgerState,
            EscrowError,
        >(EscrowError::AccountNotFound),
{
    lemma_exchange_closes(s, ctx, bump);
}

/// Token for token, with the three accounts involved distinct: a
/// successful settlement takes exactly the requested amount from the
/// counterparty's paying account, adds it to the initiator's receiving
/// account, adds all that the vault held to the counterparty's receiving
/// account, removes the vault, and changes no other balance.
pub proof fn lemma_exchange_tokens_effect(s: LedgerState, ctx: Exchange, bump: u8)
    requires
        exchange_outcome(s, ctx, bump) is Ok,
        s.escrows[ctx.token_vault].asked is Tokens,
        ctx.buyer_payment_account != s.escrows[ctx.token_vault].asked->seller_account,
        ctx.buyer_payment_account != ctx.buyer_token_account,
        ctx.buyer_token_account != s.escrows[ctx.token_vault].asked->seller_account,
    ensures
        ({
            let after = exchange_outcome(s, ctx, bump)->Ok_0;
            let vault = ctx.token_vault;
            let paying = ctx.buyer_payment_account;
            let taking = ctx.buyer_token_account;
            let earning = s.escrows[vault].asked->seller_account;
            let amount = s.escrows[vault].asked->amount;
            &&& after.tokens == s.tokens.insert(
                paying,
                credited(s.tokens[paying], -(amount as int)),
            ).insert(earning, credited(s.tokens[earning], amount as int)).insert(
                taking,
                credited(s.tokens[taking], s.tokens[vault].amount as int),
            ).remove(vault)
            &&& after.balance_of(paying) == s.balance_of(paying) - amount
            &&& after.balance_of(earning) == s.balance_of(earning) + amount
            &&& after.balance_of(taking) == s.balance_of(taking) + s.balance_of(vault)
            &&& forall|k: Identity|
                k != paying && k != earning && k != taking && k != vault
                    ==> after.tokens.contains_key(k) == s.tokens.contains_key(k)
                    && #[trigger] after.balance_of(k) == s.balance_of(k)
            &&& after.lamports == s.lamports
        }),
{
    let after = exchange_outcome(s, ctx, bump)->Ok_0;
    let vault = ctx.token_vault;
    let info = s.escrows[vault];
    let held = s.tokens[vault];
    let paying = ctx.buyer_payment_account;
    let taking = ctx.buyer_token_account;
    let earning = info.asked->seller_account;
    let amount = info.asked->amount;
    let leg = ctx.payment_of(info)->Ok_0->Tokens_leg;
    let paid = s.transfer(leg, amount, ctx.buyer)->Ok_0;
    let released = paid.transfer_signed(
        ctx.vault_to_buyer(),
        held.amount,
        s.program,
        held.owner,
    )->Ok_0;
    assert(released.close_account(ctx.vault_closing(), s.program, held.owner) is Ok);
    assert(after.tokens =~= s.tokens.insert(
        paying,
        credited(s.tokens[paying], -(amount as int)),
    ).insert(earning, credited(s.tokens[earning], amount as int)).insert(
        taking,
        credited(s.tokens[taking], held.amount as int),
    ).remove(vault));
}

/// Token for native currency, with the three parties distinct: a
/// successful settlement takes exactly the requested amount from the
/// counterparty, of which the fee goes to the administrator and the rest
/// to the initiator; all that the vault held goes to the counterparty's
/// receiving account; the vault is removed; nothing else changes.
pub proof fn lemma_exchange_lamports_effect(s: LedgerState, ctx: Exchange, bump: u8)
    requires
        exchange_outcome(s, ctx, bump) is Ok,
        s.escrows[ctx.token_vault].asked is Lamports,
        ctx.buyer != ctx.seller,
        ctx.buyer != ctx.management,
        ctx.seller != ctx.management,
    ensures
        ({
            let after = exchange_outcome(s, ctx, bump)->Ok_0;
            let vault = ctx.token_vault;
            let taking = ctx.buyer_token_account;
            let requested = s.escrows[vault].asked->lamport_amount;
            let percent = s.escrows[vault].asked->tx_fee;
            &&& fee_of(requested, percent) + net_of(requested, percent) == requested
            &&& after.lamports_of(ctx.buyer) == s.lamports_of(ctx.buyer) - requested
            &&& after.lamports_of(ctx.seller) == s.lamports_of(ctx.seller) + net_of(
                requested,
                percent,
            )
            &&& after.lamports_of(ctx.management) == s.lamports_of(ctx.management) + fee_of(
                requested,
                percent,
            )
            &&& forall|k: Identity|
                k != ctx.buyer && k != ctx.seller && k != ctx.management
                    ==> #[trigger] after.lamports_of(k) == s.lamports_of(k)
            &&& after.tokens == s.tokens.insert(
                taking,
                credited(s.tokens[taking], s.tokens[vault].amount as int),
            ).remove(vault)
            &&& after.balance_of(taking) == s.balance_of(taking) + s.balance_of(vault)
        }),
{
    let after = exchange_outcome(s, ctx, bump)->Ok_0;
    let vault = ctx.token_vault;
    let info = s.escrows[vault];
    let held = s.tokens[vault];
    let taking = ctx.buyer_token_account;
    let requested = info.asked->lamport_amount;
    let percent = info.asked->tx_fee;
    lemma_fee_conserved(requested, percent);
    let net = ctx.payment_of(info)->Ok_0->Lamports_net;
    let fee = ctx.payment_of(info)->Ok_0->Lamports_fee;
    let paid = s.transfer_lamports(net, ctx.buyer)->Ok_0;
    let released = paid.transfer_signed(
        ctx.vault_to_buyer(),
        held.amount,
        s.program,
        held.owner,
    )->Ok_0;
    let charged = released.transfer_lamports(fee, ctx.buyer)->Ok_0;
    assert(charged.close_account(ctx.vault_closing(), s.program, held.owner) is Ok);
    assert(after.tokens =~= s.tokens.insert(
        taking,
        credited(s.tokens[taking], held.amount as int),
    ).remove(vault));
}

/// Settling an escrow keeps every other vault in custody whole.
pub proof fn lemma_exchange_keeps_custody(s: LedgerState, ctx: Exchange, bump: u8)
    requires
        custody_holds(s),
        exchange_outcome(s, ctx, bump) is Ok,
    ensures
        custody_holds(exchange_outcome(s, ctx, bump)->Ok_0),
{
    lemma_exchange_closes(s, ctx, bump);
    let after = exchange_outcome(s, ctx, bump)->Ok_0;
    let vault = ctx.token_vault;
    let info = s.escrows[vault];
    let held = s.tokens[vault];
    match info.asked {
        Consideration::Tokens { .. } => {
            let leg = ctx.payment_of(info)->Ok_0->Tokens_leg;
            let amount = ctx.payment_of(info)->Ok_0->Tokens_amount;
            let paid = s.transfer(leg, amount, ctx.buyer)->Ok_0;
            let released = paid.transfer_signed(
                ctx.vault_to_buyer(),
                held.amount,
                s.program,
                held.owner,
            )->Ok_0;
            assert(released.close_account(ctx.vault_closing(), s.program, held.owner) is Ok);
        },
        Consideration::Lamports { .. } => {
            let net = ctx.payment_of(info)->Ok_0->Lamports_net;
            let fee = ctx.payment_of(info)->Ok_0->Lamports_fee;
            let paid = s.transfer_lamports(net, ctx.buyer)->Ok_0;
            let released = paid.transfer_signed(
                ctx.vault_to_buyer(),
                held.amount,
                s.program,
                held.owner,
            )->Ok_0;
            let charged = released.transfer_lamports(fee, ctx.buyer)->Ok_0;
            assert(charged.close_account(ctx.vault_closing(), s.program, held.owner) is Ok);
        },
    }
    assert forall|v: Identity| #[trigger] after.escrows.contains_key(v) implies in_custody(
        after,
        v,
    ) by {
        assert(s.escrows.contains_key(v));
    }
}

/// A settlement is all or nothing. Where the escrow asks native currency
/// and the checks have passed, the call succeeds only if each of its four
/// legs does, in turn: the net amount to the initiator, the release of
/// the vault, the fee to the administrator, the closing. A failure of any
/// of them, the fee leg included, is the failure of the call, which then
/// leaves the books as they were, the payment to the initiator undone.
pub proof fn lemma_exchange_all_or_nothing(s: LedgerState, ctx: Exchange, bump: u8)
    requires
        s.active(ctx.token_vault),
        s.escrows[ctx.token_vault].asked is Lamports,
        ctx.refusal(
            s.escrows[ctx.token_vault],
            s.tokens[ctx.token_vault],
            s.program,
            bump,
        ) is None,
        ctx.funds_refusal(
            s.escrows[ctx.token_vault],
            account_at(s, ctx.buyer_token_account),
            account_at(s, ctx.buyer_payment_account),
            s.lamports_of(ctx.buyer),
        ) is None,
    ensures
        ({
            let held = s.tokens[ctx.token_vault];
            let payment = ctx.payment_of(s.escrows[ctx.token_vault]);
            let paid = s.transfer_lamports(payment->Ok_0->Lamports_net, ctx.buyer);
            let released = paid->Ok_0.transfer_signed(
                ctx.vault_to_buyer(),
                held.amount,
                s.program,
                held.owner,
            );
            let charged = released->Ok_0.transfer_lamports(
                payment->Ok_0->Lamports_fee,
                ctx.buyer,
            );
            let closed = charged->Ok_0.close_account(ctx.vault_closing(), s.program, held.owner);
            &&& payment is Ok
            &&& exchange_outcome(s, ctx, bump) is Ok <==> paid is Ok && released is Ok
                && charged is Ok && closed is Ok
            &&& paid is Ok && released is Ok && charged is Err ==> exchange_outcome(s, ctx, bump)
                == Err::<LedgerState, EscrowError>(charged->Err_0)
        }),
{
}

} // verus!
