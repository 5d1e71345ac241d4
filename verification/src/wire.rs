use crate::contract::{Stats, StatsView};
use crate::event::{EventView, Notification, NotificationView, Payment, PaymentView, WhisperEvent};
use crate::json::{
    decimal, decimal_text, json_quoted, member, member_text, object, object_text, quoted_or_null,
    quoted_or_null_text, quoted_text,
};
use vstd::prelude::*;

verus! {

/// A payment on the wire: the token's tag, and the amount as a string of
/// decimal digits.
pub open spec fn payment_json(payment: PaymentView) -> Seq<char> {
    object(
        seq![
            member("token"@, json_quoted(payment.token)),
            member("amount"@, json_quoted(decimal(payment.amount))),
        ],
    )
}

/// The payload of a notification on the wire: one object, with the members
/// of its kind in this order.
pub open spec fn data_json(data: NotificationView) -> Seq<char> {
    match data {
        NotificationView::KeyRegistered { account_id, x25519_pubkey, key_version, display_name } => {
            object(
                seq![
                    member("account_id"@, json_quoted(account_id)),
                    member("x25519_pubkey"@, json_quoted(x25519_pubkey)),
                    member("key_version"@, decimal(key_version)),
                    member("display_name"@, quoted_or_null(display_name)),
                ],
            )
        },
        NotificationView::Message {
            id,
            from,
            to,
            encrypted_body,
            nonce,
            recipient_key_version,
            reply_to,
            timestamp,
            payment,
        } => {
            let always = seq![
                member("id"@, decimal(id)),
                member("from"@, json_quoted(from)),
                member("to"@, json_quoted(to)),
                member("encrypted_body"@, json_quoted(encrypted_body)),
                member("nonce"@, json_quoted(nonce)),
                member("recipient_key_version"@, decimal(recipient_key_version)),
                member("reply_to"@, quoted_or_null(reply_to)),
                member("timestamp"@, decimal(timestamp)),
            ];
            match payment {
                Some(p) => object(always.push(member("payment"@, payment_json(p)))),
                None => object(always),
            }
        },
        NotificationView::GroupCreated { group_id, creator, name, member_keys, timestamp } => {
            object(
                seq![
                    member("group_id"@, json_quoted(group_id)),
                    member("creator"@, json_quoted(creator)),
                    member("name"@, quoted_or_null(name)),
                    member("member_keys"@, json_quoted(member_keys)),
                    member("timestamp"@, decimal(timestamp)),
                ],
            )
        },
        NotificationView::GroupMessage {
            id,
            group_id,
            from,
            encrypted_body,
            nonce,
            group_key_version,
            timestamp,
        } => object(
            seq![
                member("id"@, decimal(id)),
                member("group_id"@, json_quoted(group_id)),
                member("from"@, json_quoted(from)),
                member("encrypted_body"@, json_quoted(encrypted_body)),
                member("nonce"@, json_quoted(nonce)),
                member("group_key_version"@, decimal(group_key_version)),
                member("timestamp"@, decimal(timestamp)),
            ],
        ),
    }
}

/// An event on the wire: the envelope as one object, the payload under `data`.
pub open spec fn event_json(event: EventView) -> Seq<char> {
    object(
        seq![
            member("standard"@, json_quoted(event.standard)),
            member("version"@, json_quoted(event.version)),
            member("event"@, json_quoted(event.event)),
            member("data"@, data_json(event.data)),
        ],
    )
}

/// The line under which an event goes to the host's log.
pub open spec fn log_line(event: EventView) -> Seq<char> {
    "EVENT_JSON:"@ + event_json(event)
}

/// A snapshot on the wire.
pub open spec fn stats_json(stats: StatsView) -> Seq<char> {
    object(
        seq![
            member("profile_count"@, decimal(stats.profile_count)),
            member("message_count"@, decimal(stats.message_count)),
            member("owner"@, json_quoted(stats.owner)),
        ],
    )
}

impl Payment {
    /// The payment as JSON.
    pub fn to_json(&self) -> (r: String)
        ensures
            r@ == payment_json(self@),
    {
        let amount = decimal_text(self.amount);
        let mut members: Vec<String> = Vec::new();
        members.push(member_text("token", quoted_text(self.token.as_str()).as_str()));
        members.push(member_text("amount", quoted_text(amount.as_str()).as_str()));
        assert(members.deep_view() =~= seq![
            member("token"@, json_quoted(self@.token)),
            member("amount"@, json_quoted(decimal(self@.amount))),
        ]);
        object_text(&members)
    }
}

impl Notification {
    /// The payload as JSON.
    pub fn to_json(&self) -> (r: String)
        ensures
            r@ == data_json(self@),
    {
        let mut members: Vec<String> = Vec::new();
        match self {
            Notification::KeyRegistered { account_id, x25519_pubkey, key_version, display_name } => {
                members.push(member_text("account_id", quoted_text(account_id.as_str()).as_str()));
                members.push(member_text("x25519_pubkey", quoted_text(x25519_pubkey.as_str()).as_str()));
                members.push(member_text("key_version", decimal_text(*key_version as u128).as_str()));
                members.push(member_text("display_name", quoted_or_null_text(display_name).as_str()));
                assert(members.deep_view() =~= seq![
                    member("account_id"@, json_quoted(account_id@)),
                    member("x25519_pubkey"@, json_quoted(x25519_pubkey@)),
                    member("key_version"@, decimal(*key_version as nat)),
                    member("display_name"@, quoted_or_null(display_name.deep_view())),
                ]);
            },
            Notification::Message {
                id,
                from,
                to,
                encrypted_body,
                nonce,
                recipient_key_version,
                reply_to,
                timestamp,
                payment,
            } => {
                members.push(member_text("id", decimal_text(*id as u128).as_str()));
                members.push(member_text("from", quoted_text(from.as_str()).as_str()));
                members.push(member_text("to", quoted_text(to.as_str()).as_str()));
                members.push(member_text("encrypted_body", quoted_text(encrypted_body.as_str()).as_str()));
                members.push(member_text("nonce", quoted_text(nonce.as_str()).as_str()));
                members.push(
                    member_text(
                        "recipient_key_version",
                        decimal_text(*recipient_key_version as u128).as_str(),
                    ),
                );
                members.push(member_text("reply_to", quoted_or_null_text(reply_to).as_str()));
                members.push(member_text("timestamp", decimal_text(*timestamp as u128).as_str()));
                let ghost always = seq![
                    member("id"@, decimal(*id as nat)),
                    member("from"@, json_quoted(from@)),
                    member("to"@, json_quoted(to@)),
                    member("encrypted_body"@, json_quoted(encrypted_body@)),
                    member("nonce"@, json_quoted(nonce@)),
                    member("recipient_key_version"@, decimal(*recipient_key_version as nat)),
                    member("reply_to"@, quoted_or_null(reply_to.deep_view())),
                    member("timestamp"@, decimal(*timestamp as nat)),
                ];
                assert(members.deep_view() =~= always);
                match payment {
                    Some(p) => {
                        members.push(member_text("payment", p.to_json().as_str()));
                        assert(members.deep_view() =~= always.push(
                            member("payment"@, payment_json(p@)),
                        ));
                    },
                    None => {},
                }
            },
            Notification::GroupCreated { group_id, creator, name, member_keys, timestamp } => {
                members.push(member_text("group_id", quoted_text(group_id.as_str()).as_str()));
                members.push(member_text("creator", quoted_text(creator.as_str()).as_str()));
                members.push(member_text("name", quoted_or_null_text(name).as_str()));
                members.push(member_text("member_keys", quoted_text(member_keys.as_str()).as_str()));
                members.push(member_text("timestamp", decimal_text(*timestamp as u128).as_str()));
                assert(members.deep_view() =~= seq![
                    member("group_id"@, json_quoted(group_id@)),
                    member("creator"@, json_quoted(creator@)),
                    member("name"@, quoted_or_null(name.deep_view())),
                    member("member_keys"@, json_quoted(member_keys@)),
                    member("timestamp"@, decimal(*timestamp as nat)),
                ]);
            },
            Notification::GroupMessage {
                id,
                group_id,
                from,
                encrypted_body,
                nonce,
                group_key_version,
                timestamp,
            } => {
                members.push(member_text("id", decimal_text(*id as u128).as_str()));
                members.push(member_text("group_id", quoted_text(group_id.as_str()).as_str()));
                members.push(member_text("from", quoted_text(from.as_str()).as_str()));
                members.push(member_text("encrypted_body", quoted_text(encrypted_body.as_str()).as_str()));
                members.push(member_text("nonce", quoted_text(nonce.as_str()).as_str()));
                members.push(
                    member_text("group_key_version", decimal_text(*group_key_version as u128).as_str()),
                );
                members.push(member_text("timestamp", decimal_text(*timestamp as u128).as_str()));
                assert(members.deep_view() =~= seq![
                    member("id"@, decimal(*id as nat)),
                    member("group_id"@, json_quoted(group_id@)),
                    member("from"@, json_quoted(from@)),
                    member("encrypted_body"@, json_quoted(encrypted_body@)),
                    member("nonce"@, json_quoted(nonce@)),
                    member("group_key_version"@, decimal(*group_key_version as nat)),
                    member("timestamp"@, decimal(*timestamp as nat)),
                ]);
            },
        }
        object_text(&members)
    }
}

impl WhisperEvent {
    /// The event as JSON.
    pub fn to_json(&self) -> (r: String)
        ensures
            r@ == event_json(self@),
    {
        let mut members: Vec<String> = Vec::new();
        members.push(member_text("standard", quoted_text(self.standard.as_str()).as_str()));
        members.push(member_text("version", quoted_text(self.version.as_str()).as_str()));
        members.push(member_text("event", quoted_text(self.event.as_str()).as_str()));
        members.push(member_text("data", self.data.to_json().as_str()));
        assert(members.deep_view() =~= seq![
            member("standard"@, json_quoted(self@.standard)),
            member("version"@, json_quoted(self@.version)),
            member("event"@, json_quoted(self@.event)),
            member("data"@, data_json(self@.data)),
        ]);
        object_text(&members)
    }

    /// The line that publishes the event in the host's log.
    pub fn to_log_line(&self) -> (r: String)
        ensures
            r@ == log_line(self@),
    {
        let mut line = String::from_str("EVENT_JSON:");
        line.append(self.to_json().as_str());
        line
    }
}

impl Stats {
    /// The snapshot as JSON.
    pub fn to_json(&self) -> (r: String)
        ensures
            r@ == stats_json(self@),
    {
        let mut members: Vec<String> = Vec::new();
        members.push(member_text("profile_count", decimal_text(self.profile_count as u128).as_str()));
        members.push(member_text("message_count", decimal_text(self.message_count as u128).as_str()));
        members.push(member_text("owner", quoted_text(self.owner.as_str()).as_str()));
        assert(members.deep_view() =~= seq![
            member("profile_count"@, decimal(self@.profile_count)),
            member("message_count"@, decimal(self@.message_count)),
            member("owner"@, json_quoted(self@.owner)),
        ]);
        object_text(&members)
    }
}

} // verus!
