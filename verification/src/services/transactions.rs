//! The checks on the amount of a payment or a refund before it is recorded: a
//! payment may not exceed the balance of the invoice, a refund may not exceed
//! what was paid and not yet refunded.
use vstd::prelude::*;
use crate::models::payments::{payment_view_of, PaymentRow, PaymentView};
use crate::models::refunds::{refund_view_of, RefundRow, RefundView};
use crate::services::factures::{facture_figures_spec, fits, payments_sum, refunds_sum};

verus! {

/// The sum of the payments, leaving out the one with id `except`.
pub open spec fn payments_total_except(s: Seq<PaymentRow>, except: Option<i64>) -> int
    decreases s.len(),
{
    if s.len() == 0 {
        0
    } else {
        payments_total_except(s.drop_last(), except) + if except == Some(s.last().id) {
            0
        } else {
            s.last().amount as int
        }
    }
}

/// The sum of the refunds, leaving out the one with id `except`.
pub open spec fn refunds_total_except(s: Seq<RefundRow>, except: Option<i64>) -> int
    decreases s.len(),
{
    if s.len() == 0 {
        0
    } else {
        refunds_total_except(s.drop_last(), except) + if except == Some(s.last().id) {
            0
        } else {
            s.last().amount as int
        }
    }
}

/// The payments other than the one with id `except`, as shown to users.
pub open spec fn payment_views_except(s: Seq<PaymentRow>, except: Option<i64>) -> Seq<PaymentView>
    decreases s.len(),
{
    if s.len() == 0 {
        Seq::empty()
    } else {
        let rest = payment_views_except(s.drop_last(), except);
        if except == Some(s.last().id) {
            rest
        } else {
            rest.push(payment_view_of(s.last()))
        }
    }
}

/// The refunds other than the one with id `except`, as shown to users.
pub open spec fn refund_views_except(s: Seq<RefundRow>, except: Option<i64>) -> Seq<RefundView>
    decreases s.len(),
{
    if s.len() == 0 {
        Seq::empty()
    } else {
        let rest = refund_views_except(s.drop_last(), except);
        if except == Some(s.last().id) {
            rest
        } else {
            rest.push(refund_view_of(s.last()))
        }
    }
}

proof fn lemma_payment_views_sum(s: Seq<PaymentRow>, except: Option<i64>)
    ensures
        payments_sum(payment_views_except(s, except)) == payments_total_except(s, except),
    decreases s.len(),
{
    if s.len() > 0 {
        lemma_payment_views_sum(s.drop_last(), except);
        let rest = payment_views_except(s.drop_last(), except);
        if except != Some(s.last().id) {
            assert(rest.push(payment_view_of(s.last())).drop_last() =~= rest);
        }
    }
}

proof fn lemma_refund_views_sum(s: Seq<RefundRow>, except: Option<i64>)
    ensures
        refunds_sum(refund_views_except(s, except)) == refunds_total_except(s, except),
    decreases s.len(),
{
    if s.len() > 0 {
        lemma_refund_views_sum(s.drop_last(), except);
        let rest = refund_views_except(s.drop_last(), except);
        if except != Some(s.last().id) {
            assert(rest.push(refund_view_of(s.last())).drop_last() =~= rest);
        }
    }
}

/// An amount that the invoice cannot take.
#[derive(Debug, Clone, Copy, PartialEq, Eq)]
pub enum AmountError {
    /// The payment is more than the balance.
    PaymentExceedsBalance { amount: i64, balance: i128 },
    /// The refund is more than what was paid and not refunded.
    RefundExceedsRefundable { amount: i64, refundable: i128 },
}

fn sum_payments_except(s: &[PaymentRow], except: Option<i64>) -> (r: i128)
    ensures
        r == payments_total_except(s@, except),
{
    let mut sum: i128 = 0;
    let mut n: usize = 0;
    while n < s.len()
        invariant
            n <= s@.len(),
            sum == payments_total_except(s@.take(n as int), except),
            -(n as int) * 0x8000_0000_0000_0000 <= sum <= (n as int) * 0x8000_0000_0000_0000,
        decreases s.len() - n,
    {
        assert(s@.take(n + 1).drop_last() =~= s@.take(n as int));
        let skip = match except {
            Some(id) => s[n].id == id,
            None => false,
        };
        if !skip {
            sum = sum + s[n].amount as i128;
        }
        proof {
            assert((n as int + 1) * 0x8000_0000_0000_0000 == (n as int) * 0x8000_0000_0000_0000
                + 0x8000_0000_0000_0000) by (nonlinear_arith);
        }
        n = n + 1;
    }
    assert(s@.take(s@.len() as int) =~= s@);
    sum
}

fn sum_refunds_except(s: &[RefundRow], except: Option<i64>) -> (r: i128)
    ensures
        r == refunds_total_except(s@, except),
{
    let mut sum: i128 = 0;
    let mut n: usize = 0;
    while n < s.len()
        invariant
            n <= s@.len(),
            sum == refunds_total_except(s@.take(n as int), except),
            -(n as int) * 0x8000_0000_0000_0000 <= sum <= (n as int) * 0x8000_0000_0000_0000,
        decreases s.len() - n,
    {
        assert(s@.take(n + 1).drop_last() =~= s@.take(n as int));
        let skip = match except {
            Some(id) => s[n].id == id,
            None => false,
        };
        if !skip {
            sum = sum + s[n].amount as i128;
        }
        proof {
            assert((n as int + 1) * 0x8000_0000_0000_0000 == (n as int) * 0x8000_0000_0000_0000
                + 0x8000_0000_0000_0000) by (nonlinear_arith);
        }
        n = n + 1;
    }
    assert(s@.take(s@.len() as int) =~= s@);
    sum
}

/// An amount within the range of `i128`, the lowest `i128` below it.
pub open spec fn at_least_min(x: int) -> int {
    if x < i128::MIN {
        i128::MIN as int
    } else {
        x
    }
}

/// Whether a payment of `amount` fits the invoice: it may not exceed the
/// balance of the invoice's figures from its amount to tax (`total`, the
/// `effective_total` of the invoice), its two taxes, the payments other than
/// the one being changed (`existing`) and the refunds. The balance an error
/// reports is the lowest `i128` when it is lower still.
pub fn check_payment_amount(
    amount: i64,
    total: i64,
    tps: i64,
    tvq: i64,
    payments: &[PaymentRow],
    refunds: &[RefundRow],
    existing: Option<i64>,
) -> (r: Result<(), AmountError>)
    requires
        fits(total + tps),
        fits(total + tps + tvq),
    ensures
        ({
            let balance = facture_figures_spec(
                total as int,
                tps as int,
                tvq as int,
                payment_views_except(payments@, existing),
                refund_views_except(refunds@, None),
            ).balance;
            &&& amount <= balance ==> r is Ok
            &&& amount > balance ==> r == Err::<(), AmountError>(
                AmountError::PaymentExceedsBalance {
                    amount,
                    balance: at_least_min(balance) as i128,
                },
            )
        }),
{
    let tax_total = total + tps + tvq;
    let paid = sum_payments_except(payments, existing);
    let refunded = sum_refunds_except(refunds, None);
    // The lengths of the lists, which fit in `usize`, bound their sums.
    let _payment_count = payments.len();
    let _refund_count = refunds.len();
    proof {
        lemma_payments_bound(payments@, existing);
        lemma_refunds_bound(refunds@, None);
        lemma_payment_views_sum(payments@, existing);
        lemma_refund_views_sum(refunds@, None);
    }
    let owed = tax_total as i128 - paid;
    match owed.checked_add(refunded) {
        Some(balance) => {
            if amount as i128 > balance {
                Err(AmountError::PaymentExceedsBalance { amount, balance })
            } else {
                Ok(())
            }
        },
        None => {
            if refunded > 0 {
                Ok(())
            } else {
                Err(AmountError::PaymentExceedsBalance { amount, balance: i128::MIN })
            }
        },
    }
}

/// Whether a refund of `amount` fits the invoice: it may not exceed the
/// payments less the refunds (leaving out the refund `existing` being
/// changed). The refundable amount an error reports is the lowest `i128` when
/// it is lower still.
pub fn check_refund_amount(
    amount: i64,
    payments: &[PaymentRow],
    refunds: &[RefundRow],
    existing: Option<i64>,
) -> (r: Result<(), AmountError>)
    ensures
        ({
            let refundable = payments_total_except(payments@, None) - refunds_total_except(
                refunds@,
                existing,
            );
            &&& amount <= refundable ==> r is Ok
            &&& amount > refundable ==> r == Err::<(), AmountError>(
                AmountError::RefundExceedsRefundable {
                    amount,
                    refundable: at_least_min(refundable) as i128,
                },
            )
        }),
{
    let paid = sum_payments_except(payments, None);
    let refunded = sum_refunds_except(refunds, existing);
    // The lengths of the lists, which fit in `usize`, bound their sums.
    let _payment_count = payments.len();
    let _refund_count = refunds.len();
    proof {
        lemma_payments_bound(payments@, None);
        lemma_refunds_bound(refunds@, existing);
    }
    match paid.checked_sub(refunded) {
        Some(refundable) => {
            if amount as i128 > refundable {
                Err(AmountError::RefundExceedsRefundable { amount, refundable })
            } else {
                Ok(())
            }
        },
        None => {
            if refunded < 0 {
                Ok(())
            } else {
                Err(AmountError::RefundExceedsRefundable { amount, refundable: i128::MIN })
            }
        },
    }
}

proof fn lemma_payments_bound(s: Seq<PaymentRow>, except: Option<i64>)
    requires
        s.len() <= usize::MAX,
    ensures
        -0x7fff_ffff_ffff_ffff_8000_0000_0000_0000 <= payments_total_except(s, except)
            <= 0x7fff_ffff_ffff_ffff_8000_0000_0000_0000,
{
    lemma_payments_linear(s, except);
    assert((s.len() as int) * 0x8000_0000_0000_0000 <= 0x7fff_ffff_ffff_ffff_8000_0000_0000_0000)
        by (nonlinear_arith)
        requires
            s.len() <= 0xffff_ffff_ffff_ffff,
    ;
}

proof fn lemma_payments_linear(s: Seq<PaymentRow>, except: Option<i64>)
    ensures
        -(s.len() as int) * 0x8000_0000_0000_0000 <= payments_total_except(s, except) <= (
        s.len() as int) * 0x8000_0000_0000_0000,
    decreases s.len(),
{
    if s.len() > 0 {
        lemma_payments_linear(s.drop_last(), except);
        assert((s.len() as int) * 0x8000_0000_0000_0000 == (s.len() - 1) * 0x8000_0000_0000_0000
            + 0x8000_0000_0000_0000) by (nonlinear_arith);
    }
}

proof fn lemma_refunds_bound(s: Seq<RefundRow>, except: Option<i64>)
    requires
        s.len() <= usize::MAX,
    ensures
        -0x7fff_ffff_ffff_ffff_8000_0000_0000_0000 <= refunds_total_except(s, except)
            <= 0x7fff_ffff_ffff_ffff_8000_0000_0000_0000,
{
    lemma_refunds_linear(s, except);
    assert((s.len() as int) * 0x8000_0000_0000_0000 <= 0x7fff_ffff_ffff_ffff_8000_0000_0000_0000)
        by (nonlinear_arith)
        requires
            s.len() <= 0xffff_ffff_ffff_ffff,
    ;
}

proof fn lemma_refunds_linear(s: Seq<RefundRow>, except: Option<i64>)
    ensures
        -(s.len() as int) * 0x8000_0000_0000_0000 <= refunds_total_except(s, except) <= (
        s.len() as int) * 0x8000_0000_0000_0000,
    decreases s.len(),
{
    if s.len() > 0 {
        lemma_refunds_linear(s.drop_last(), except);
        assert((s.len() as int) * 0x8000_0000_0000_0000 == (s.len() - 1) * 0x8000_0000_0000_0000
            + 0x8000_0000_0000_0000) by (nonlinear_arith);
    }
}

} // verus!
