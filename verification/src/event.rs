use vstd::prelude::*;

verus! {

/// The value that travels with a paid message.
#[derive(Debug, PartialEq, Eq)]
pub struct Payment {
    /// The tag of the token paid in.
    pub token: String,
    /// The amount, in the token's smallest unit.
    pub amount: u128,
}

/// A payment as plain values.
pub struct PaymentView {
    pub token: Seq<char>,
    pub amount: nat,
}

impl View for Payment {
    type V = PaymentView;

    open spec fn view(&self) -> PaymentView {
        PaymentView { token: self.token@, amount: self.amount as nat }
    }
}

/// What the relay announces after a call that changed its state.
#[derive(Debug, PartialEq, Eq)]
pub enum Notification {
    /// An account registered or rotated its key.
    KeyRegistered {
        account_id: String,
        x25519_pubkey: String,
        key_version: u32,
        display_name: Option<String>,
    },
    /// A message from one account to another.
    Message {
        id: u64,
        from: String,
        to: String,
        encrypted_body: String,
        nonce: String,
        recipient_key_version: u32,
        reply_to: Option<String>,
        timestamp: u64,
        payment: Option<Payment>,
    },
    /// A group was created.
    GroupCreated {
        group_id: String,
        creator: String,
        name: Option<String>,
        member_keys: String,
        timestamp: u64,
    },
    /// A message to a group.
    GroupMessage {
        id: u64,
        group_id: String,
        from: String,
        encrypted_body: String,
        nonce: String,
        group_key_version: u32,
        timestamp: u64,
    },
}

/// A notification as plain values.
pub enum NotificationView {
    KeyRegistered {
        account_id: Seq<char>,
        x25519_pubkey: Seq<char>,
        key_version: nat,
        display_name: Option<Seq<char>>,
    },
    Message {
        id: nat,
        from: Seq<char>,
        to: Seq<char>,
        encrypted_body: Seq<char>,
        nonce: Seq<char>,
        recipient_key_version: nat,
        reply_to: Option<Seq<char>>,
        timestamp: nat,
        payment: Option<PaymentView>,
    },
    GroupCreated {
        group_id: Seq<char>,
        creator: Seq<char>,
        name: Option<Seq<char>>,
        member_keys: Seq<char>,
        timestamp: nat,
    },
    GroupMessage {
        id: nat,
        group_id: Seq<char>,
        from: Seq<char>,
        encrypted_body: Seq<char>,
        nonce: Seq<char>,
        group_key_version: nat,
        timestamp: nat,
    },
}

/// An optional payment as plain values.
pub open spec fn payment_view(payment: Option<Payment>) -> Option<PaymentView> {
    match payment {
        Some(p) => Some(p@),
        None => None,
    }
}

impl View for Notification {
    type V = NotificationView;

    open spec fn view(&self) -> NotificationView {
        match *self {
            Notification::KeyRegistered { account_id, x25519_pubkey, key_version, display_name } => {
                NotificationView::KeyRegistered {
                    account_id: account_id@,
                    x25519_pubkey: x25519_pubkey@,
                    key_version: key_version as nat,
                    display_name: display_name.deep_view(),
                }
            },
            Notification::Message {
                id,
                from,
                to,
                encrypted_body,
                nonce,
                recipient_key_version,
                reply_to,
                timestamp,
                payment,
            } => NotificationView::Message {
                id: id as nat,
                from: from@,
                to: to@,
                encrypted_body: encrypted_body@,
                nonce: nonce@,
                recipient_key_version: recipient_key_version as nat,
                reply_to: reply_to.deep_view(),
                timestamp: timestamp as nat,
                payment: payment_view(payment),
            },
            Notification::GroupCreated { group_id, creator, name, member_keys, timestamp } => {
                NotificationView::GroupCreated {
                    group_id: group_id@,
                    creator: creator@,
                    name: name.deep_view(),
                    member_keys: member_keys@,
                    timestamp: timestamp as nat,
                }
            },
            Notification::GroupMessage {
                id,
                group_id,
                from,
                encrypted_body,
                nonce,
                group_key_version,
                timestamp,
            } => NotificationView::GroupMessage {
                id: id as nat,
                group_id: group_id@,
                from: from@,
                encrypted_body: encrypted_body@,
                nonce: nonce@,
                group_key_version: group_key_version as nat,
                timestamp: timestamp as nat,
            },
        }
    }
}

/// The kind under which a notification is published.
pub open spec fn event_name(data: NotificationView) -> Seq<char> {
    match data {
        NotificationView::KeyRegistered { .. } => "key_registered"@,
        NotificationView::Message { .. } => "message"@,
        NotificationView::GroupCreated { .. } => "group_created"@,
        NotificationView::GroupMessage { .. } => "group_message"@,
    }
}

/// A notification in the envelope in which it is published.
#[derive(Debug, PartialEq, Eq)]
pub struct WhisperEvent {
    /// The name of the event standard, always `whisper`.
    pub standard: String,
    /// The version of the standard, always `1.0.0`.
    pub version: String,
    /// The kind of the notification.
    pub event: String,
    /// The notification itself.
    pub data: Notification,
}

/// A published event as plain values.
pub struct EventView {
    pub standard: Seq<char>,
    pub version: Seq<char>,
    pub event: Seq<char>,
    pub data: NotificationView,
}

impl View for WhisperEvent {
    type V = EventView;

    open spec fn view(&self) -> EventView {
        EventView {
            standard: self.standard@,
            version: self.version@,
            event: self.event@,
            data: self.data@,
        }
    }
}

/// The envelope around `data`.
pub open spec fn envelope(data: NotificationView) -> EventView {
    EventView { standard: "whisper"@, version: "1.0.0"@, event: event_name(data), data }
}

/// Puts a notification into its envelope, ready to be published.
pub fn emit_event(data: Notification) -> (ev: WhisperEvent)
    ensures
        ev@ == envelope(data@),
        ev.data == data,
{
    let event = match &data {
        Notification::KeyRegistered { .. } => String::from_str("key_registered"),
        Notification::Message { .. } => String::from_str("message"),
        Notification::GroupCreated { .. } => String::from_str("group_created"),
        Notification::GroupMessage { .. } => String::from_str("group_message"),
    };
    WhisperEvent {
        standard: String::from_str("whisper"),
        version: String::from_str("1.0.0"),
        event,
        data,
    }
}

/// An order to the host to move value from the relay to an account, as part
/// of the call that produced it.
#[derive(Debug, PartialEq, Eq)]
pub struct Transfer {
    /// The account that receives the value.
    pub to: String,
    /// The amount, in the smallest unit.
    pub amount: u128,
}

/// A transfer as plain values.
pub struct TransferView {
    pub to: Seq<char>,
    pub amount: nat,
}

impl View for Transfer {
    type V = TransferView;

    open spec fn view(&self) -> TransferView {
        TransferView { to: self.to@, amount: self.amount as nat }
    }
}

} // verus!
