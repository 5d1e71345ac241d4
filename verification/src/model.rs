use crate::context::{ContextView, MIN_STORAGE_DEPOSIT};
use crate::error::WhisperError;
use crate::event::{NotificationView, PaymentView, TransferView};
use crate::group::GroupView;
use crate::keys::is_key;
use crate::profile::ProfileView;
use vstd::prelude::*;

verus! {

/// The relay's state as mathematics: two finite maps, two counters and the
/// owner. Every operation of the relay is a function from such a state and
/// the facts of one call to either a rejection or the next state together
/// with what is announced.
pub struct RelayState {
    /// The profile of each registered account.
    pub profiles: Map<Seq<char>, ProfileView>,
    /// The metadata of each group, by its identifier.
    pub groups: Map<Seq<char>, GroupView>,
    /// The number of accounts that have registered.
    pub profile_count: nat,
    /// The number of messages announced so far; the last identifier given.
    pub message_count: nat,
    /// The account that set the relay up.
    pub owner: Seq<char>,
}

/// A state after an accepted call, with the notification of that call.
pub struct Accepted {
    pub state: RelayState,
    pub notice: NotificationView,
}

impl RelayState {
    /// The state of a fresh relay.
    pub open spec fn initial(owner: Seq<char>) -> RelayState {
        RelayState {
            profiles: Map::empty(),
            groups: Map::empty(),
            profile_count: 0,
            message_count: 0,
            owner,
        }
    }

    /// What holds of every state that the relay can reach: the profile count
    /// is the number of profiles, each profile has been set at least once, and
    /// each group is stored under its own identifier.
    pub open spec fn consistent(self) -> bool {
        &&& self.profiles.dom().finite()
        &&& self.groups.dom().finite()
        &&& self.profile_count == self.profiles.dom().len()
        &&& forall|a: Seq<char>| #[trigger]
            self.profiles.contains_key(a) ==> self.profiles[a].key_version >= 1
        &&& forall|g: Seq<char>| #[trigger]
            self.groups.contains_key(g) ==> self.groups[g].group_id == g
    }

    /// The version that the next key of `account` gets.
    pub open spec fn next_key_version(self, account: Seq<char>) -> nat {
        if self.profiles.contains_key(account) {
            self.profiles[account].key_version + 1
        } else {
            1
        }
    }

    /// Registration or rotation of the caller's key. `decoded` is what the
    /// key's text decodes to.
    pub open spec fn register_key(
        self,
        ctx: ContextView,
        x25519_pubkey: Seq<char>,
        decoded: Option<Seq<u8>>,
        display_name: Option<Seq<char>>,
    ) -> Result<Accepted, WhisperError> {
        let known = self.profiles.contains_key(ctx.caller);
        if !is_key(decoded) {
            Err(WhisperError::MalformedKey)
        } else if !known && ctx.attached_value < MIN_STORAGE_DEPOSIT {
            Err(WhisperError::InsufficientDeposit)
        } else {
            let key_version = self.next_key_version(ctx.caller);
            let profile = ProfileView {
                x25519_pubkey,
                key_version,
                registered_at: ctx.now,
                display_name,
            };
            Ok(
                Accepted {
                    state: RelayState {
                        profiles: self.profiles.insert(ctx.caller, profile),
                        profile_count: if known {
                            self.profile_count
                        } else {
                            self.profile_count + 1
                        },
                        ..self
                    },
                    notice: NotificationView::KeyRegistered {
                        account_id: ctx.caller,
                        x25519_pubkey,
                        key_version,
                        display_name,
                    },
                },
            )
        }
    }

    /// The state after one more message, and the message's notification.
    pub open spec fn dispatch(
        self,
        ctx: ContextView,
        to: Seq<char>,
        encrypted_body: Seq<char>,
        nonce: Seq<char>,
        recipient_key_version: nat,
        reply_to: Option<Seq<char>>,
        payment: Option<PaymentView>,
    ) -> Accepted {
        Accepted {
            state: RelayState { message_count: self.message_count + 1, ..self },
            notice: NotificationView::Message {
                id: self.message_count + 1,
                from: ctx.caller,
                to,
                encrypted_body,
                nonce,
                recipient_key_version,
                reply_to,
                timestamp: ctx.now,
                payment,
            },
        }
    }

    /// A message to a registered account, without payment.
    pub open spec fn send_message(
        self,
        ctx: ContextView,
        to: Seq<char>,
        encrypted_body: Seq<char>,
        nonce: Seq<char>,
        recipient_key_version: nat,
        reply_to: Option<Seq<char>>,
    ) -> Result<Accepted, WhisperError> {
        if !self.profiles.contains_key(to) {
            Err(WhisperError::UnknownRecipient)
        } else {
            Ok(
                self.dispatch(
                    ctx,
                    to,
                    encrypted_body,
                    nonce,
                    recipient_key_version,
                    reply_to,
                    None,
                ),
            )
        }
    }

    /// The payment that a paid message of this call carries.
    pub open spec fn payment_of(ctx: ContextView) -> PaymentView {
        PaymentView { token: "NEAR"@, amount: ctx.attached_value }
    }

    /// The transfer that goes with a paid message of this call to `to`.
    pub open spec fn transfer_of(ctx: ContextView, to: Seq<char>) -> TransferView {
        TransferView { to, amount: ctx.attached_value }
    }

    /// A message to a registered account that carries the attached value.
    pub open spec fn send_message_with_payment(
        self,
        ctx: ContextView,
        to: Seq<char>,
        encrypted_body: Seq<char>,
        nonce: Seq<char>,
        recipient_key_version: nat,
        reply_to: Option<Seq<char>>,
    ) -> Result<Accepted, WhisperError> {
        if ctx.attached_value == 0 {
            Err(WhisperError::NoPayment)
        } else if !self.profiles.contains_key(to) {
            Err(WhisperError::UnknownRecipient)
        } else {
            Ok(
                self.dispatch(
                    ctx,
                    to,
                    encrypted_body,
                    nonce,
                    recipient_key_version,
                    reply_to,
                    Some(Self::payment_of(ctx)),
                ),
            )
        }
    }

    /// Creation of a group under an identifier that is still free. A taken
    /// identifier is what is reported first, whatever is attached.
    pub open spec fn create_group(
        self,
        ctx: ContextView,
        group_id: Seq<char>,
        name: Option<Seq<char>>,
        member_keys: Seq<char>,
    ) -> Result<Accepted, WhisperError> {
        if self.groups.contains_key(group_id) {
            Err(WhisperError::DuplicateGroup)
        } else if ctx.attached_value < MIN_STORAGE_DEPOSIT {
            Err(WhisperError::InsufficientDeposit)
        } else {
            let group = GroupView { group_id, creator: ctx.caller, created_at: ctx.now, name };
            Ok(
                Accepted {
                    state: RelayState { groups: self.groups.insert(group_id, group), ..self },
                    notice: NotificationView::GroupCreated {
                        group_id,
                        creator: ctx.caller,
                        name,
                        member_keys,
                        timestamp: ctx.now,
                    },
                },
            )
        }
    }

    /// A message to an existing group.
    pub open spec fn send_group_message(
        self,
        ctx: ContextView,
        group_id: Seq<char>,
        encrypted_body: Seq<char>,
        nonce: Seq<char>,
        group_key_version: nat,
    ) -> Result<Accepted, WhisperError> {
        if !self.groups.contains_key(group_id) {
            Err(WhisperError::UnknownGroup)
        } else {
            Ok(
                Accepted {
                    state: RelayState { message_count: self.message_count + 1, ..self },
                    notice: NotificationView::GroupMessage {
                        id: self.message_count + 1,
                        group_id,
                        from: ctx.caller,
                        encrypted_body,
                        nonce,
                        group_key_version,
                        timestamp: ctx.now,
                    },
                },
            )
        }
    }
}

} // verus!
