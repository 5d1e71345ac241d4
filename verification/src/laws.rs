use crate::context::{ContextView, MIN_STORAGE_DEPOSIT};
use crate::error::WhisperError;
use crate::event::NotificationView;
use crate::keys::{base64_decoded, is_key};
use crate::model::{Accepted, RelayState};
use vstd::prelude::*;

verus! {

/// One of the five calls that can change the relay, as plain values.
pub enum Call {
    RegisterKey { x25519_pubkey: Seq<char>, display_name: Option<Seq<char>> },
    SendMessage {
        to: Seq<char>,
        encrypted_body: Seq<char>,
        nonce: Seq<char>,
        recipient_key_version: nat,
        reply_to: Option<Seq<char>>,
    },
    SendMessageWithPayment {
        to: Seq<char>,
        encrypted_body: Seq<char>,
        nonce: Seq<char>,
        recipient_key_version: nat,
        reply_to: Option<Seq<char>>,
    },
    CreateGroup { group_id: Seq<char>, name: Option<Seq<char>>, member_keys: Seq<char> },
    SendGroupMessage {
        group_id: Seq<char>,
        encrypted_body: Seq<char>,
        nonce: Seq<char>,
        group_key_version: nat,
    },
}

/// A call together with what the host says of it.
pub struct Request {
    pub ctx: ContextView,
    pub call: Call,
}

/// What the relay makes of one request.
pub open spec fn apply(state: RelayState, request: Request) -> Result<Accepted, WhisperError> {
    match request.call {
        Call::RegisterKey { x25519_pubkey, display_name } => state.register_key(
            request.ctx,
            x25519_pubkey,
            base64_decoded(x25519_pubkey),
            display_name,
        ),
        Call::SendMessage { to, encrypted_body, nonce, recipient_key_version, reply_to } => {
            state.send_message(
                request.ctx,
                to,
                encrypted_body,
                nonce,
                recipient_key_version,
                reply_to,
            )
        },
        Call::SendMessageWithPayment {
            to,
            encrypted_body,
            nonce,
            recipient_key_version,
            reply_to,
        } => state.send_message_with_payment(
            request.ctx,
            to,
            encrypted_body,
            nonce,
            recipient_key_version,
            reply_to,
        ),
        Call::CreateGroup { group_id, name, member_keys } => state.create_group(
            request.ctx,
            group_id,
            name,
            member_keys,
        ),
        Call::SendGroupMessage { group_id, encrypted_body, nonce, group_key_version } => {
            state.send_group_message(
                request.ctx,
                group_id,
                encrypted_body,
                nonce,
                group_key_version,
            )
        },
    }
}

/// The state after a series of requests, and the notifications of those that
/// were accepted, in order. A rejected request leaves no trace.
pub open spec fn run(state: RelayState, requests: Seq<Request>) -> (RelayState, Seq<
    NotificationView,
>)
    decreases requests.len(),
{
    if requests.len() == 0 {
        (state, Seq::empty())
    } else {
        let (before, notices) = run(state, requests.drop_last());
        match apply(before, requests.last()) {
            Ok(accepted) => (accepted.state, notices.push(accepted.notice)),
            Err(_) => (before, notices),
        }
    }
}

/// The identifier that a notification assigns, if it is that of a message.
pub open spec fn message_id(notice: NotificationView) -> Option<nat> {
    match notice {
        NotificationView::Message { id, .. } => Some(id),
        NotificationView::GroupMessage { id, .. } => Some(id),
        _ => None,
    }
}

/// The identifiers that a series of notifications assigns, in order.
pub open spec fn message_ids(notices: Seq<NotificationView>) -> Seq<nat>
    decreases notices.len(),
{
    if notices.len() == 0 {
        Seq::empty()
    } else {
        let earlier = message_ids(notices.drop_last());
        match message_id(notices.last()) {
            Some(id) => earlier.push(id),
            None => earlier,
        }
    }
}

/// The numbers `first + 1`, `first + 2`, up to `last`.
pub open spec fn consecutive(first: nat, last: nat) -> Seq<nat> {
    Seq::new((last - first) as nat, |i: int| (first + 1 + i) as nat)
}

/// Every accepted call leaves a consistent state consistent.
pub proof fn law_consistency_kept(state: RelayState, request: Request)
    requires
        state.consistent(),
    ensures
        apply(state, request) matches Ok(accepted) ==> accepted.state.consistent(),
{
}

/// The first accepted registration of an account gives it version 1 and
/// raises the profile count by one. Every later one raises the version by
/// one and leaves the profile count as it was. No other account's profile
/// changes either way.
pub proof fn law_registration_versions(
    state: RelayState,
    ctx: ContextView,
    x25519_pubkey: Seq<char>,
    decoded: Option<Seq<u8>>,
    display_name: Option<Seq<char>>,
)
    requires
        state.register_key(ctx, x25519_pubkey, decoded, display_name) is Ok,
    ensures
        ({
            let after = state.register_key(ctx, x25519_pubkey, decoded, display_name)->Ok_0.state;
            &&& after.profiles.contains_key(ctx.caller)
            &&& after.profiles[ctx.caller].x25519_pubkey == x25519_pubkey
            &&& after.profiles[ctx.caller].display_name == display_name
            &&& !state.profiles.contains_key(ctx.caller) ==> after.profiles[ctx.caller].key_version
                == 1 && after.profile_count == state.profile_count + 1
            &&& state.profiles.contains_key(ctx.caller) ==> after.profiles[ctx.caller].key_version
                == state.profiles[ctx.caller].key_version + 1 && after.profile_count
                == state.profile_count
            &&& forall|other: Seq<char>|
                other != ctx.caller ==> after.profiles.contains_key(other)
                    == state.profiles.contains_key(other) && after.profiles[other]
                    == state.profiles[other]
        }),
{
}

/// A key is accepted exactly when it decodes to 32 bytes and the caller is
/// either registered already or has attached the storage deposit.
pub proof fn law_registration_accepted(
    state: RelayState,
    ctx: ContextView,
    x25519_pubkey: Seq<char>,
    decoded: Option<Seq<u8>>,
    display_name: Option<Seq<char>>,
)
    ensures
        state.register_key(ctx, x25519_pubkey, decoded, display_name) is Ok <==> is_key(decoded)
            && (state.profiles.contains_key(ctx.caller) || ctx.attached_value
            >= MIN_STORAGE_DEPOSIT),
{
}

/// Whatever calls are made in whatever order, the identifiers of the
/// messages announced are consecutive: they start one above the count
/// before the first call and end at the count after the last, with no gap
/// and no repeat, whether a message is direct, paid or to a group. Calls
/// that are rejected, and calls that announce no message, use up no
/// identifier.
pub proof fn law_message_ids_consecutive(state: RelayState, requests: Seq<Request>)
    ensures
        state.message_count <= run(state, requests).0.message_count,
        message_ids(run(state, requests).1) == consecutive(
            state.message_count,
            run(state, requests).0.message_count,
        ),
    decreases requests.len(),
{
    if requests.len() == 0 {
        assert(message_ids(run(state, requests).1) =~= consecutive(
            state.message_count,
            state.message_count,
        ));
    } else {
        law_message_ids_consecutive(state, requests.drop_last());
        let (before, notices) = run(state, requests.drop_last());
        match apply(before, requests.last()) {
            Ok(accepted) => {
                assert(notices.push(accepted.notice).drop_last() =~= notices);
                assert(message_ids(notices.push(accepted.notice)) =~= consecutive(
                    state.message_count,
                    accepted.state.message_count,
                ));
            },
            Err(_) => {},
        }
    }
}

/// A message to an account without a profile is rejected as such, whatever
/// else the call holds, and the count of messages stays.
pub proof fn law_unknown_recipient(
    state: RelayState,
    ctx: ContextView,
    to: Seq<char>,
    encrypted_body: Seq<char>,
    nonce: Seq<char>,
    recipient_key_version: nat,
    reply_to: Option<Seq<char>>,
)
    requires
        !state.profiles.contains_key(to),
    ensures
        state.send_message(ctx, to, encrypted_body, nonce, recipient_key_version, reply_to) == Err::<
            Accepted,
            WhisperError,
        >(WhisperError::UnknownRecipient),
        run(
            state,
            seq![
                Request {
                    ctx,
                    call: Call::SendMessage {
                        to,
                        encrypted_body,
                        nonce,
                        recipient_key_version,
                        reply_to,
                    },
                },
            ],
        ) == (state, Seq::<NotificationView>::empty()),
{
    let request = Request {
        ctx,
        call: Call::SendMessage { to, encrypted_body, nonce, recipient_key_version, reply_to },
    };
    let requests = seq![request];
    assert(run(state, requests.drop_last()) == (state, Seq::<NotificationView>::empty()));
}

/// Creating a group under an identifier that is taken is always rejected as
/// a duplicate, whoever calls and whatever is attached, and nothing changes.
pub proof fn law_duplicate_group(
    state: RelayState,
    ctx: ContextView,
    group_id: Seq<char>,
    name: Option<Seq<char>>,
    member_keys: Seq<char>,
)
    requires
        state.groups.contains_key(group_id),
    ensures
        state.create_group(ctx, group_id, name, member_keys) == Err::<Accepted, WhisperError>(
            WhisperError::DuplicateGroup,
        ),
        run(state, seq![Request { ctx, call: Call::CreateGroup { group_id, name, member_keys } }])
            == (state, Seq::<NotificationView>::empty()),
{
    let request = Request { ctx, call: Call::CreateGroup { group_id, name, member_keys } };
    let requests = seq![request];
    assert(run(state, requests.drop_last()) == (state, Seq::<NotificationView>::empty()));
}

/// No accepted call removes a group or changes one that is stored.
pub proof fn law_groups_immutable(state: RelayState, request: Request, group_id: Seq<char>)
    requires
        state.groups.contains_key(group_id),
    ensures
        apply(state, request) matches Ok(accepted) ==> accepted.state.groups.contains_key(group_id)
            && accepted.state.groups[group_id] == state.groups[group_id],
{
}

/// No accepted call removes a profile.
pub proof fn law_profiles_stay(state: RelayState, request: Request, account: Seq<char>)
    requires
        state.profiles.contains_key(account),
    ensures
        apply(state, request) matches Ok(accepted) ==> accepted.state.profiles.contains_key(
            account,
        ),
{
}

/// A paid message without value is rejected for want of payment. With value
/// and a registered recipient it is accepted: one message is announced, it
/// carries the attached amount as its payment, and the transfer ordered
/// hands exactly that amount to the recipient.
pub proof fn law_payment(
    state: RelayState,
    ctx: ContextView,
    to: Seq<char>,
    encrypted_body: Seq<char>,
    nonce: Seq<char>,
    recipient_key_version: nat,
    reply_to: Option<Seq<char>>,
)
    ensures
        ({
            let outcome = state.send_message_with_payment(
                ctx,
                to,
                encrypted_body,
                nonce,
                recipient_key_version,
                reply_to,
            );
            &&& ctx.attached_value == 0 ==> outcome == Err::<Accepted, WhisperError>(
                WhisperError::NoPayment,
            )
            &&& ctx.attached_value > 0 && state.profiles.contains_key(to) ==> {
                &&& outcome is Ok
                &&& outcome->Ok_0.notice matches NotificationView::Message {
                    id,
                    to: recipient,
                    payment,
                    ..
                }
                &&& id == state.message_count + 1
                &&& recipient == to
                &&& payment matches Some(p)
                &&& p.amount == ctx.attached_value
                &&& RelayState::transfer_of(ctx, to).to == to
                &&& RelayState::transfer_of(ctx, to).amount == ctx.attached_value
                &&& outcome->Ok_0.state.message_count == state.message_count + 1
            }
        }),
{
}

} // verus!
