//! The payment-channel state machine.
//!
//! One [`Paymentchannel`] record tracks one sender–recipient payment
//! relationship: the two fixed identities, the challenge-period length, the
//! optional close deadline, the withdrawn high-water mark, and the channel's
//! remaining balance. The host ledger's part — who calls, what time it is,
//! where the moved value goes — enters and leaves each operation as plain
//! values: the caller and the clock reading come in as arguments, and a
//! requested transfer comes back as a [`Payment`].

use vstd::prelude::*;

use crate::crypto::AccountId;
use crate::crypto::account_eq;
use crate::crypto::signer_of;
use crate::crypto::spec_signer;

verus! {

/// A typed failure of a channel operation.
#[derive(Debug, Clone, Copy, PartialEq, Eq)]
pub enum Error {
    /// The caller of a sender-only operation is not the sender.
    CallerIsNotSender,
    /// The caller of a recipient-only operation is not the recipient.
    CallerIsNotRecipient,
    /// A cooperative-close amount regresses below the withdrawn high-water mark.
    AmountIsLessThanWithdraw,
    /// The ledger rejected the value transfer (insufficient channel balance).
    TransferFailed,
    /// A timeout-dependent operation ran before its deadline precondition held.
    NotYetExpired,
    /// The signature does not authorize the amount for this channel's sender.
    InvalidSignature,
}

/// A value transfer that an operation asks the host ledger to perform.
pub struct Payment {
    /// The identity the value goes to.
    pub to: AccountId,
    /// The amount of value moved.
    pub amount: u128,
}

/// The two transfers of a cooperative close: the redeemed amount to the
/// recipient, then the residual balance swept to the sender as the channel is
/// destroyed.
pub struct Settlement {
    /// The redeemed `amount - withdrawn`, paid to the recipient.
    pub paid: Payment,
    /// The residual balance, swept to the sender.
    pub swept: Payment,
}

/// The event emitted when the sender starts a unilateral close.
pub struct SenderCloseStarted {
    /// The deadline after which `claim_timeout` succeeds.
    pub expiration: u64,
    /// The configured challenge-period length.
    pub close_duration: u64,
}

/// The mathematical state of a channel: identities as byte sequences, the
/// lifecycle fields, and whether the channel still exists (`live`).
pub struct ChannelView {
    /// The channel's own on-ledger identity, bound into every signed message.
    pub account_id: Seq<u8>,
    /// The funder, fixed at creation.
    pub sender: Seq<u8>,
    /// The payee, fixed at creation.
    pub recipient: Seq<u8>,
    /// `None` while active; `Some(deadline)` once a unilateral close started.
    pub expiration: Option<u64>,
    /// The cumulative amount already paid out to the recipient.
    pub withdrawn: u128,
    /// The challenge-period length.
    pub close_duration: u64,
    /// The value still held by the channel.
    pub balance: u128,
    /// Whether the channel still exists; both close paths are terminal.
    pub live: bool,
}

impl ChannelView {
    /// The record's standing invariant: the challenge period is positive.
    /// The constructor establishes it and every operation preserves it.
    pub open spec fn wf(self) -> bool {
        self.close_duration > 0
    }

    /// A signature authorizes `amount` for this channel when the identity
    /// recovered over the digest of `(account_id, amount)` is the sender.
    pub open spec fn signature_valid(self, amount: u128, signature: Seq<u8>) -> bool {
        spec_signer(self.account_id, amount, signature) == Some(self.sender)
    }

    /// The fields fixed at creation.
    pub open spec fn fixed_fields(self) -> (Seq<u8>, Seq<u8>, Seq<u8>, u64) {
        (self.account_id, self.sender, self.recipient, self.close_duration)
    }
}

/// Whether a signature is accepted is a function of the channel's own
/// identity and its sender alone: two channels that share both accept exactly
/// the same `(amount, signature)` pairs, whatever their recipient, balance or
/// history. A signature is thus bound to one deployed channel, not merely to a
/// pair of parties.
pub proof fn lemma_signature_bound_to_channel_identity(
    c1: ChannelView,
    c2: ChannelView,
    amount: u128,
    signature: Seq<u8>,
)
    requires
        c1.account_id == c2.account_id,
        c1.sender == c2.sender,
    ensures
        c1.signature_valid(amount, signature) == c2.signature_valid(amount, signature),
{
}

/// A signature whose recovered signer over this channel's identity is not the
/// channel's sender is rejected; in particular, one whose signer was recovered
/// relative to a different channel identity authorizes nothing here unless it
/// also recovers to the sender over this identity (anti-replay).
pub proof fn lemma_foreign_signature_rejected(c: ChannelView, amount: u128, signature: Seq<u8>)
    requires
        spec_signer(c.account_id, amount, signature) != Some(c.sender),
    ensures
        !c.signature_valid(amount, signature),
{
}

/// A unidirectional payment channel from a sender to a recipient.
pub struct Paymentchannel {
    account_id: AccountId,
    sender: AccountId,
    recipient: AccountId,
    expiration: Option<u64>,
    withdraw: u128,
    close_duration: u64,
    balance: u128,
    live: bool,
}

impl View for Paymentchannel {
    type V = ChannelView;

    closed spec fn view(&self) -> ChannelView {
        ChannelView {
            account_id: self.account_id@,
            sender: self.sender@,
            recipient: self.recipient@,
            expiration: self.expiration,
            withdrawn: self.withdraw,
            close_duration: self.close_duration,
            balance: self.balance,
            live: self.live,
        }
    }
}

impl Paymentchannel {
    /// Opens a channel: the caller becomes the sender, the endowment becomes
    /// the channel's balance, and nothing is withdrawn yet.
    pub fn new(
        recipient: AccountId,
        close_duration: u64,
        caller: AccountId,
        account_id: AccountId,
        endowment: u128,
    ) -> (c: Self)
        requires
            close_duration > 0,
        ensures
            c@.wf(),
            c@ == (ChannelView {
                account_id: account_id@,
                sender: caller@,
                recipient: recipient@,
                expiration: None,
                withdrawn: 0,
                close_duration: close_duration,
                balance: endowment,
                live: true,
            }),
    {
        Self {
            account_id,
            sender: caller,
            recipient,
            expiration: None,
            withdraw: 0,
            close_duration,
            balance: endowment,
            live: true,
        }
    }

    /// The validation and transfer part of a cooperative close: checks the
    /// caller, the high-water mark and the signature, then pays
    /// `amount - withdrawn` out of the balance to the recipient. The terminal
    /// sweep is [`Self::close`]'s part.
    pub fn close_inner(&mut self, caller: AccountId, amount: u128, signature: &[u8; 65]) -> (r:
        Result<Payment, Error>)
        requires
            old(self)@.live,
        ensures
            final(self)@.fixed_fields() == old(self)@.fixed_fields(),
            old(self)@.wf() ==> final(self)@.wf(),
            final(self)@.expiration == old(self)@.expiration,
            final(self)@.withdrawn == old(self)@.withdrawn,
            final(self)@.live == old(self)@.live,
            r is Err ==> final(self)@ == old(self)@,
            caller@ != old(self)@.recipient ==> r == Err::<Payment, Error>(
                Error::CallerIsNotRecipient,
            ),
            caller@ == old(self)@.recipient && amount < old(self)@.withdrawn ==> r == Err::<
                Payment,
                Error,
            >(Error::AmountIsLessThanWithdraw),
            caller@ == old(self)@.recipient && amount >= old(self)@.withdrawn && !old(
                self,
            )@.signature_valid(amount, signature@) ==> r == Err::<Payment, Error>(
                Error::InvalidSignature,
            ),
            caller@ == old(self)@.recipient && amount >= old(self)@.withdrawn && old(
                self,
            )@.signature_valid(amount, signature@) ==> if amount - old(self)@.withdrawn > old(
                self,
            )@.balance {
                r == Err::<Payment, Error>(Error::TransferFailed)
            } else {
                r matches Ok(p) && p.to@ == old(self)@.recipient && p.amount == amount - old(
                    self,
                )@.withdrawn && final(self)@.balance == old(self)@.balance - p.amount
            },
    {
        if !account_eq(&caller, &self.recipient) {
            return Err(Error::CallerIsNotRecipient);
        }
        if amount < self.withdraw {
            return Err(Error::AmountIsLessThanWithdraw);
        }
        if !self.is_signature_valid(amount, signature) {
            return Err(Error::InvalidSignature);
        }
        let delta = amount - self.withdraw;
        if delta > self.balance {
            return Err(Error::TransferFailed);
        }
        self.balance = self.balance - delta;
        Ok(Payment { to: self.recipient, amount: delta })
    }

    /// Cooperative close: the recipient redeems a sender-signed cumulative
    /// `amount`; the channel pays `amount - withdrawn` to the recipient,
    /// sweeps the residual balance to the sender, and is destroyed.
    ///
    /// Where the signature authorizes `amount` for this channel and the
    /// balance covers the redeemed part, the close succeeds exactly when
    /// `amount` is at least the withdrawn high-water mark.
    pub fn close(&mut self, caller: AccountId, amount: u128, signature: &[u8; 65]) -> (r: Result<
        Settlement,
        Error,
    >)
        requires
            old(self)@.live,
        ensures
            final(self)@.fixed_fields() == old(self)@.fixed_fields(),
            old(self)@.wf() ==> final(self)@.wf(),
            final(self)@.expiration == old(self)@.expiration,
            final(self)@.withdrawn == old(self)@.withdrawn,
            r is Err ==> final(self)@ == old(self)@,
            caller@ != old(self)@.recipient ==> r == Err::<Settlement, Error>(
                Error::CallerIsNotRecipient,
            ),
            caller@ == old(self)@.recipient && amount < old(self)@.withdrawn ==> r == Err::<
                Settlement,
                Error,
            >(Error::AmountIsLessThanWithdraw),
            caller@ == old(self)@.recipient && amount >= old(self)@.withdrawn && !old(
                self,
            )@.signature_valid(amount, signature@) ==> r == Err::<Settlement, Error>(
                Error::InvalidSignature,
            ),
            caller@ == old(self)@.recipient && amount >= old(self)@.withdrawn && old(
                self,
            )@.signature_valid(amount, signature@) && amount - old(self)@.withdrawn > old(
                self,
            )@.balance ==> r == Err::<Settlement, Error>(Error::TransferFailed),
            caller@ == old(self)@.recipient && old(self)@.signature_valid(amount, signature@)
                && amount - old(self)@.withdrawn <= old(self)@.balance ==> (r is Ok <==> amount
                >= old(self)@.withdrawn),
            r matches Ok(s) ==> {
                &&& !final(self)@.live
                &&& final(self)@.balance == 0
                &&& s.paid.to@ == old(self)@.recipient
                &&& s.paid.amount == amount - old(self)@.withdrawn
                &&& s.swept.to@ == old(self)@.sender
                &&& s.swept.amount == old(self)@.balance - s.paid.amount
            },
    {
        let paid = match self.close_inner(caller, amount, signature) {
            Ok(p) => p,
            Err(e) => {
                return Err(e);
            }
        };
        let swept = Payment { to: self.sender, amount: self.balance };
        self.balance = 0;
        self.live = false;
        Ok(Settlement { paid, swept })
    }

    /// The sender signals intent to close: sets the deadline to
    /// `now + close_duration` and reports the emitted event. Calling it again
    /// while already closing pushes the deadline forward.
    pub fn start_sender_close(&mut self, caller: AccountId, now: u64) -> (r: Result<
        SenderCloseStarted,
        Error,
    >)
        requires
            old(self)@.live,
            now + old(self)@.close_duration <= u64::MAX,
        ensures
            final(self)@.fixed_fields() == old(self)@.fixed_fields(),
            old(self)@.wf() ==> final(self)@.wf(),
            final(self)@.withdrawn == old(self)@.withdrawn,
            final(self)@.balance == old(self)@.balance,
            final(self)@.live == old(self)@.live,
            r is Err ==> final(self)@ == old(self)@,
            caller@ != old(self)@.sender ==> r == Err::<SenderCloseStarted, Error>(
                Error::CallerIsNotSender,
            ),
            caller@ == old(self)@.sender ==> (r matches Ok(e) && {
                &&& e.expiration == now + old(self)@.close_duration
                &&& e.close_duration == old(self)@.close_duration
                &&& final(self)@.expiration == Some(e.expiration)
            }),
    {
        if !account_eq(&caller, &self.sender) {
            return Err(Error::CallerIsNotSender);
        }
        let expiration = now + self.close_duration;
        self.expiration = Some(expiration);
        Ok(SenderCloseStarted { expiration, close_duration: self.close_duration })
    }

    /// Once the deadline has passed, anyone may terminate the channel: the
    /// whole remaining balance is swept back to the sender and the channel is
    /// destroyed. Fails with `NotYetExpired` while no unilateral close has
    /// started or the deadline lies ahead.
    pub fn claim_timeout(&mut self, now: u64) -> (r: Result<Payment, Error>)
        requires
            old(self)@.live,
        ensures
            final(self)@.fixed_fields() == old(self)@.fixed_fields(),
            old(self)@.wf() ==> final(self)@.wf(),
            final(self)@.expiration == old(self)@.expiration,
            final(self)@.withdrawn == old(self)@.withdrawn,
            r is Err ==> final(self)@ == old(self)@,
            (old(self)@.expiration is None || (old(self)@.expiration matches Some(e) && now < e))
                <==> r == Err::<Payment, Error>(Error::NotYetExpired),
            old(self)@.expiration matches Some(e) && now >= e ==> (r matches Ok(p) && {
                &&& !final(self)@.live
                &&& final(self)@.balance == 0
                &&& p.to@ == old(self)@.sender
                &&& p.amount == old(self)@.balance
            }),
    {
        match self.expiration {
            Some(expiration) => {
                if now < expiration {
                    return Err(Error::NotYetExpired);
                }
                let swept = Payment { to: self.sender, amount: self.balance };
                self.balance = 0;
                self.live = false;
                Ok(swept)
            }
            None => Err(Error::NotYetExpired),
        }
    }

    /// During the challenge window the sender may release funds early: the
    /// signature is validated against the previously withdrawn amount, the
    /// high-water mark moves up to `amount`, and the difference is paid to the
    /// recipient. The withdrawn mark never moves backward.
    pub fn withdraw(&mut self, caller: AccountId, amount: u128, signature: &[u8; 65]) -> (r: Result<
        Payment,
        Error,
    >)
        requires
            old(self)@.live,
            amount >= old(self)@.withdrawn,
        ensures
            final(self)@.fixed_fields() == old(self)@.fixed_fields(),
            old(self)@.wf() ==> final(self)@.wf(),
            final(self)@.expiration == old(self)@.expiration,
            final(self)@.live == old(self)@.live,
            old(self)@.withdrawn <= final(self)@.withdrawn,
            r is Err ==> final(self)@ == old(self)@,
            caller@ != old(self)@.sender ==> r == Err::<Payment, Error>(Error::CallerIsNotSender),
            caller@ == old(self)@.sender && old(self)@.expiration is None ==> r == Err::<
                Payment,
                Error,
            >(Error::NotYetExpired),
            caller@ == old(self)@.sender && old(self)@.expiration is Some && !old(
                self,
            )@.signature_valid(old(self)@.withdrawn, signature@) ==> r == Err::<Payment, Error>(
                Error::InvalidSignature,
            ),
            caller@ == old(self)@.sender && old(self)@.expiration is Some && old(
                self,
            )@.signature_valid(old(self)@.withdrawn, signature@) ==> if amount - old(
                self,
            )@.withdrawn > old(self)@.balance {
                r == Err::<Payment, Error>(Error::TransferFailed)
            } else {
                r matches Ok(p) && {
                    &&& p.to@ == old(self)@.recipient
                    &&& p.amount == amount - old(self)@.withdrawn
                    &&& final(self)@.withdrawn == amount
                    &&& final(self)@.balance == old(self)@.balance - p.amount
                }
            },
    {
        if !account_eq(&caller, &self.sender) {
            return Err(Error::CallerIsNotSender);
        }
        if self.expiration.is_none() {
            return Err(Error::NotYetExpired);
        }
        if !self.is_signature_valid(self.withdraw, signature) {
            return Err(Error::InvalidSignature);
        }
        let amount_to_withdraw = amount - self.withdraw;
        if amount_to_withdraw > self.balance {
            return Err(Error::TransferFailed);
        }
        self.withdraw = self.withdraw + amount_to_withdraw;
        self.balance = self.balance - amount_to_withdraw;
        Ok(Payment { to: self.recipient, amount: amount_to_withdraw })
    }

    /// The funder's identity.
    pub fn get_sender(&self) -> (r: AccountId)
        ensures
            r@ == self@.sender,
    {
        self.sender
    }

    /// The payee's identity.
    pub fn get_recipient(&self) -> (r: AccountId)
        ensures
            r@ == self@.recipient,
    {
        self.recipient
    }

    /// The close deadline, or `None` while no unilateral close has started.
    pub fn get_expiration(&self) -> (r: Option<u64>)
        ensures
            r == self@.expiration,
    {
        self.expiration
    }

    /// The cumulative amount already paid out to the recipient.
    pub fn get_withdraw(&self) -> (r: u128)
        ensures
            r == self@.withdrawn,
    {
        self.withdraw
    }

    /// The challenge-period length.
    pub fn get_close_duration(&self) -> (r: u64)
        ensures
            r == self@.close_duration,
    {
        self.close_duration
    }

    /// The value still held by the channel.
    pub fn get_balance(&self) -> (r: u128)
        ensures
            r == self@.balance,
    {
        self.balance
    }

    /// Whether the signature authorizes `amount` for this channel: the
    /// identity recovered over the digest of `(account_id, amount)` must be
    /// the sender.
    fn is_signature_valid(&self, amount: u128, signature: &[u8; 65]) -> (r: bool)
        ensures
            r == self@.signature_valid(amount, signature@),
    {
        match signer_of(&self.account_id, amount, signature) {
            Some(id) => account_eq(&id, &self.sender),
            None => false,
        }
    }
}

} // verus!
