use crate::context::{CallContext, MIN_STORAGE_DEPOSIT};
use crate::error::WhisperError;
use crate::event::{emit_event, envelope, Notification, Payment, Transfer, WhisperEvent};
use crate::group::GroupChat;
use crate::keys::{base64_decoded, decode_key, decoded_is_key, is_key, well_formed_key};
use crate::model::RelayState;
use crate::profile::{clone_text, MessagingProfile};
use crate::store::{text_views, KeyedStore};
use vstd::prelude::*;

verus! {

/// The relay: the profile registry, the group directory, the two counters
/// and the owner, as one owned value.
pub struct WhisperContract {
    profiles: KeyedStore<MessagingProfile>,
    groups: KeyedStore<GroupChat>,
    profile_count: u64,
    message_count: u64,
    owner: String,
}

impl View for WhisperContract {
    type V = RelayState;

    closed spec fn view(&self) -> RelayState {
        RelayState {
            profiles: self.profiles@.map_values(|p: MessagingProfile| p@),
            groups: self.groups@.map_values(|g: GroupChat| g@),
            profile_count: self.profile_count as nat,
            message_count: self.message_count as nat,
            owner: self.owner@,
        }
    }
}

impl WhisperContract {
    /// The representation is sound: both stores are, the profile count is
    /// the number of stored profiles, every stored version is at least 1, and
    /// every group is stored under its own identifier.
    pub closed spec fn wf(&self) -> bool {
        &&& self.profiles.wf()
        &&& self.groups.wf()
        &&& self.profile_count == self.profiles.key_seq().len()
        &&& forall|a: Seq<char>| #[trigger]
            self.profiles@.contains_key(a) ==> self.profiles@[a].key_version >= 1
        &&& forall|g: Seq<char>| #[trigger]
            self.groups@.contains_key(g) ==> self.groups@[g].group_id@ == g
    }

    /// A sound relay is in a consistent state, with counters that fit their
    /// machine types.
    pub proof fn lemma_consistent(&self)
        requires
            self.wf(),
        ensures
            self@.consistent(),
            self@.profile_count <= u64::MAX,
            self@.message_count <= u64::MAX,
            forall|a: Seq<char>| #[trigger]
                self@.profiles.contains_key(a) ==> self@.profiles[a].key_version <= u32::MAX,
    {
        self.profiles.lemma_dom();
        self.groups.lemma_dom();
        assert(self@.profiles.dom() =~= self.profiles@.dom());
        assert(self@.groups.dom() =~= self.groups@.dom());
    }

    /// A fresh relay that `owner` set up.
    pub fn new(owner: String) -> (c: WhisperContract)
        ensures
            c.wf(),
            c@ == RelayState::initial(owner@),
    {
        let c = WhisperContract {
            profiles: KeyedStore::new(),
            groups: KeyedStore::new(),
            profile_count: 0,
            message_count: 0,
            owner,
        };
        assert(c@.profiles =~= Map::empty());
        assert(c@.groups =~= Map::empty());
        c
    }

    /// Registers or rotates the caller's key, given what the key's text
    /// decodes to.
    ///
    /// A text that is not a 32-byte key is rejected. A first registration
    /// needs the storage deposit; a rotation needs none. The new profile
    /// replaces the old one whole, with the next version.
    pub fn register_decoded_key(
        &mut self,
        ctx: &CallContext,
        x25519_pubkey: String,
        decoded: &Option<Vec<u8>>,
        display_name: Option<String>,
    ) -> (r: Result<WhisperEvent, WhisperError>)
        requires
            old(self).wf(),
            is_key(decoded.deep_view()) ==> old(self)@.next_key_version(ctx@.caller) <= u32::MAX,
        ensures
            final(self).wf(),
            match old(self)@.register_key(
                ctx@,
                x25519_pubkey@,
                decoded.deep_view(),
                display_name.deep_view(),
            ) {
                Ok(accepted) => r is Ok && r->Ok_0@ == envelope(accepted.notice) && final(self)@
                    == accepted.state,
                Err(e) => r == Err::<WhisperEvent, WhisperError>(e) && *final(self) == *old(self),
            },
    {
        if !decoded_is_key(decoded) {
            return Err(WhisperError::MalformedKey);
        }
        let (known, key_version): (bool, u32) = match self.profiles.get(&ctx.caller) {
            Some(p) => (true, p.key_version + 1),
            None => (false, 1),
        };
        if !known && ctx.attached_value < MIN_STORAGE_DEPOSIT {
            return Err(WhisperError::InsufficientDeposit);
        }
        let profile = MessagingProfile {
            x25519_pubkey: x25519_pubkey.clone(),
            key_version,
            registered_at: ctx.now,
            display_name: clone_text(&display_name),
        };
        self.profiles.insert(ctx.caller.clone(), profile);
        if !known {
            proof {
                self.profiles.lemma_dom();
            }
            self.profile_count = self.profile_count + 1;
        }
        proof {
            let accepted = old(self)@.register_key(
                ctx@,
                x25519_pubkey@,
                decoded.deep_view(),
                display_name.deep_view(),
            )->Ok_0;
            assert(self@.profiles =~= accepted.state.profiles);
        }
        Ok(
            emit_event(
                Notification::KeyRegistered {
                    account_id: ctx.caller.clone(),
                    x25519_pubkey,
                    key_version,
                    display_name,
                },
            ),
        )
    }

    /// Registers or rotates the caller's key.
    ///
    /// The key must be the base64 encoding of 32 bytes. A first registration
    /// needs the storage deposit; a rotation needs none. The new profile
    /// replaces the old one whole, with the next version, which must fit
    /// where the key is well formed; `try_register_key` asks for nothing.
    pub fn register_key(
        &mut self,
        ctx: &CallContext,
        x25519_pubkey: String,
        display_name: Option<String>,
    ) -> (r: Result<WhisperEvent, WhisperError>)
        requires
            old(self).wf(),
            well_formed_key(x25519_pubkey@) ==> old(self)@.next_key_version(ctx@.caller)
                <= u32::MAX,
        ensures
            final(self).wf(),
            match old(self)@.register_key(
                ctx@,
                x25519_pubkey@,
                base64_decoded(x25519_pubkey@),
                display_name.deep_view(),
            ) {
                Ok(accepted) => r is Ok && r->Ok_0@ == envelope(accepted.notice) && final(self)@
                    == accepted.state,
                Err(e) => r == Err::<WhisperEvent, WhisperError>(e) && *final(self) == *old(self),
            },
    {
        let decoded = decode_key(x25519_pubkey.as_str());
        self.register_decoded_key(ctx, x25519_pubkey, &decoded, display_name)
    }

    /// Registers or rotates the caller's key, as `register_key` does, on
    /// every state. There is no outcome, and nothing changes, in the one
    /// case that `register_key` leaves out: the key is well formed and the
    /// caller's version is the last that the machine can count.
    pub fn try_register_key(
        &mut self,
        ctx: &CallContext,
        x25519_pubkey: String,
        display_name: Option<String>,
    ) -> (r: Option<Result<WhisperEvent, WhisperError>>)
        requires
            old(self).wf(),
        ensures
            final(self).wf(),
            r is None <==> well_formed_key(x25519_pubkey@) && old(self)@.next_key_version(
                ctx@.caller,
            ) > u32::MAX,
            r is None ==> *final(self) == *old(self),
            r is Some ==> match old(self)@.register_key(
                ctx@,
                x25519_pubkey@,
                base64_decoded(x25519_pubkey@),
                display_name.deep_view(),
            ) {
                Ok(accepted) => r->Some_0 is Ok && r->Some_0->Ok_0@ == envelope(accepted.notice)
                    && final(self)@ == accepted.state,
                Err(e) => r->Some_0 == Err::<WhisperEvent, WhisperError>(e) && *final(self)
                    == *old(self),
            },
    {
        let exhausted = match self.profiles.get(&ctx.caller) {
            Some(p) => p.key_version == u32::MAX,
            None => false,
        };
        if exhausted {
            let decoded = decode_key(x25519_pubkey.as_str());
            if decoded_is_key(&decoded) {
                return None;
            }
        }
        Some(self.register_key(ctx, x25519_pubkey, display_name))
    }

    /// Announces a message from the caller to `to`, who must be registered.
    /// The message gets the next identifier. No value moves.
    pub fn send_message(
        &mut self,
        ctx: &CallContext,
        to: String,
        encrypted_body: String,
        nonce: String,
        recipient_key_version: u32,
        reply_to: Option<String>,
    ) -> (r: Result<WhisperEvent, WhisperError>)
        requires
            old(self).wf(),
            old(self)@.profiles.contains_key(to@) ==> old(self)@.message_count < u64::MAX,
        ensures
            final(self).wf(),
            match old(self)@.send_message(
                ctx@,
                to@,
                encrypted_body@,
                nonce@,
                recipient_key_version as nat,
                reply_to.deep_view(),
            ) {
                Ok(accepted) => r is Ok && r->Ok_0@ == envelope(accepted.notice) && final(self)@
                    == accepted.state,
                Err(e) => r == Err::<WhisperEvent, WhisperError>(e) && *final(self) == *old(self),
            },
    {
        if !self.profiles.contains_key(&to) {
            return Err(WhisperError::UnknownRecipient);
        }
        self.message_count = self.message_count + 1;
        Ok(
            emit_event(
                Notification::Message {
                    id: self.message_count,
                    from: ctx.caller.clone(),
                    to,
                    encrypted_body,
                    nonce,
                    recipient_key_version,
                    reply_to,
                    timestamp: ctx.now,
                    payment: None,
                },
            ),
        )
    }

    /// Announces a message from the caller to `to` that carries the value
    /// attached to the call, and orders that value to be handed to `to`.
    ///
    /// The call must carry value, and `to` must be registered. The host
    /// carries out the returned transfer in the same transaction in which it
    /// publishes the notification.
    pub fn send_message_with_payment(
        &mut self,
        ctx: &CallContext,
        to: String,
        encrypted_body: String,
        nonce: String,
        recipient_key_version: u32,
        reply_to: Option<String>,
    ) -> (r: Result<(WhisperEvent, Transfer), WhisperError>)
        requires
            old(self).wf(),
            ctx.attached_value > 0 && old(self)@.profiles.contains_key(to@)
                ==> old(self)@.message_count < u64::MAX,
        ensures
            final(self).wf(),
            match old(self)@.send_message_with_payment(
                ctx@,
                to@,
                encrypted_body@,
                nonce@,
                recipient_key_version as nat,
                reply_to.deep_view(),
            ) {
                Ok(accepted) => r is Ok && r->Ok_0.0@ == envelope(accepted.notice) && r->Ok_0.1@
                    == RelayState::transfer_of(ctx@, to@) && final(self)@ == accepted.state,
                Err(e) => r == Err::<(WhisperEvent, Transfer), WhisperError>(e) && *final(self)
                    == *old(self),
            },
    {
        if ctx.attached_value == 0 {
            return Err(WhisperError::NoPayment);
        }
        if !self.profiles.contains_key(&to) {
            return Err(WhisperError::UnknownRecipient);
        }
        self.message_count = self.message_count + 1;
        let transfer = Transfer { to: to.clone(), amount: ctx.attached_value };
        let event = emit_event(
            Notification::Message {
                id: self.message_count,
                from: ctx.caller.clone(),
                to,
                encrypted_body,
                nonce,
                recipient_key_version,
                reply_to,
                timestamp: ctx.now,
                payment: Some(
                    Payment { token: String::from_str("NEAR"), amount: ctx.attached_value },
                ),
            },
        );
        Ok((event, transfer))
    }

    /// Stores a new group that the caller created. The identifier must be
    /// free, and the call must carry the storage deposit; a taken identifier
    /// is reported whatever is attached. `member_keys` is announced as it
    /// came and is not looked into.
    pub fn create_group(
        &mut self,
        ctx: &CallContext,
        group_id: String,
        name: Option<String>,
        member_keys: String,
    ) -> (r: Result<WhisperEvent, WhisperError>)
        requires
            old(self).wf(),
        ensures
            final(self).wf(),
            match old(self)@.create_group(ctx@, group_id@, name.deep_view(), member_keys@) {
                Ok(accepted) => r is Ok && r->Ok_0@ == envelope(accepted.notice) && final(self)@
                    == accepted.state,
                Err(e) => r == Err::<WhisperEvent, WhisperError>(e) && *final(self) == *old(self),
            },
    {
        if self.groups.contains_key(&group_id) {
            return Err(WhisperError::DuplicateGroup);
        }
        if ctx.attached_value < MIN_STORAGE_DEPOSIT {
            return Err(WhisperError::InsufficientDeposit);
        }
        let group = GroupChat {
            group_id: group_id.clone(),
            creator: ctx.caller.clone(),
            created_at: ctx.now,
            name: clone_text(&name),
        };
        self.groups.insert(group_id.clone(), group);
        proof {
            let accepted = old(self)@.create_group(
                ctx@,
                group_id@,
                name.deep_view(),
                member_keys@,
            )->Ok_0;
            assert(self@.groups =~= accepted.state.groups);
        }
        Ok(
            emit_event(
                Notification::GroupCreated {
                    group_id,
                    creator: ctx.caller.clone(),
                    name,
                    member_keys,
                    timestamp: ctx.now,
                },
            ),
        )
    }

    /// Announces a message from the caller to the group `group_id`, which
    /// must exist. The message gets the next identifier.
    pub fn send_group_message(
        &mut self,
        ctx: &CallContext,
        group_id: String,
        encrypted_body: String,
        nonce: String,
        group_key_version: u32,
    ) -> (r: Result<WhisperEvent, WhisperError>)
        requires
            old(self).wf(),
            old(self)@.groups.contains_key(group_id@) ==> old(self)@.message_count < u64::MAX,
        ensures
            final(self).wf(),
            match old(self)@.send_group_message(
                ctx@,
                group_id@,
                encrypted_body@,
                nonce@,
                group_key_version as nat,
            ) {
                Ok(accepted) => r is Ok && r->Ok_0@ == envelope(accepted.notice) && final(self)@
                    == accepted.state,
                Err(e) => r == Err::<WhisperEvent, WhisperError>(e) && *final(self) == *old(self),
            },
    {
        if !self.groups.contains_key(&group_id) {
            return Err(WhisperError::UnknownGroup);
        }
        self.message_count = self.message_count + 1;
        Ok(
            emit_event(
                Notification::GroupMessage {
                    id: self.message_count,
                    group_id,
                    from: ctx.caller.clone(),
                    encrypted_body,
                    nonce,
                    group_key_version,
                    timestamp: ctx.now,
                },
            ),
        )
    }

    /// The profile of `account_id`, if it has one.
    pub fn get_profile(&self, account_id: String) -> (r: Option<MessagingProfile>)
        requires
            self.wf(),
        ensures
            match r {
                Some(p) => self@.profiles.contains_key(account_id@) && p@
                    == self@.profiles[account_id@],
                None => !self@.profiles.contains_key(account_id@),
            },
    {
        match self.profiles.get(&account_id) {
            Some(p) => Some(p.clone()),
            None => None,
        }
    }

    /// Whether `account_id` has a profile.
    pub fn has_profile(&self, account_id: String) -> (r: bool)
        requires
            self.wf(),
        ensures
            r == self@.profiles.contains_key(account_id@),
    {
        self.profiles.contains_key(&account_id)
    }

    /// The group stored under `group_id`, if there is one.
    pub fn get_group(&self, group_id: String) -> (r: Option<GroupChat>)
        requires
            self.wf(),
        ensures
            match r {
                Some(g) => self@.groups.contains_key(group_id@) && g@ == self@.groups[group_id@],
                None => !self@.groups.contains_key(group_id@),
            },
    {
        match self.groups.get(&group_id) {
            Some(g) => Some(g.clone()),
            None => None,
        }
    }

    /// The two counters and the owner, as they stand.
    pub fn get_stats(&self) -> (r: Stats)
        ensures
            r@ == stats_of(self@),
    {
        Stats {
            profile_count: self.profile_count,
            message_count: self.message_count,
            owner: self.owner.clone(),
        }
    }

    /// Sets up the one state of an instance. An instance that holds a state
    /// already keeps it, and the call is rejected.
    pub fn init(instance: &mut Option<WhisperContract>, owner: String) -> (r: Result<
        (),
        WhisperError,
    >)
        ensures
            match *old(instance) {
                Some(_) => r == Err::<(), WhisperError>(WhisperError::AlreadyInitialized)
                    && *final(instance) == *old(instance),
                None => r is Ok && (*final(instance)) is Some && (*final(instance))->Some_0.wf()
                    && (*final(instance))->Some_0@ == RelayState::initial(owner@),
            },
    {
        if instance.is_some() {
            return Err(WhisperError::AlreadyInitialized);
        }
        *instance = Some(WhisperContract::new(owner));
        Ok(())
    }
}

/// A snapshot of the relay's counters and owner.
#[derive(Debug, PartialEq, Eq)]
pub struct Stats {
    /// The number of accounts that have registered.
    pub profile_count: u64,
    /// The number of messages announced so far.
    pub message_count: u64,
    /// The account that set the relay up.
    pub owner: String,
}

/// A snapshot as plain values.
pub struct StatsView {
    pub profile_count: nat,
    pub message_count: nat,
    pub owner: Seq<char>,
}

impl View for Stats {
    type V = StatsView;

    open spec fn view(&self) -> StatsView {
        StatsView {
            profile_count: self.profile_count as nat,
            message_count: self.message_count as nat,
            owner: self.owner@,
        }
    }
}

/// The snapshot of a state.
pub open spec fn stats_of(state: RelayState) -> StatsView {
    StatsView {
        profile_count: state.profile_count,
        message_count: state.message_count,
        owner: state.owner,
    }
}

/// Everything the relay holds, laid out for the host to keep between calls.
#[derive(Debug, PartialEq, Eq)]
pub struct Snapshot {
    /// The account that set the relay up.
    pub owner: String,
    /// The number of messages announced so far.
    pub message_count: u64,
    /// The registered accounts, in the order in which they registered.
    pub accounts: Vec<String>,
    /// The profile of each account, at the account's place in `accounts`.
    pub profiles: Vec<MessagingProfile>,
    /// The groups, in the order in which they were created.
    pub groups: Vec<GroupChat>,
}

impl Snapshot {
    /// The identifiers of the groups, in order.
    pub open spec fn group_ids(&self) -> Seq<Seq<char>> {
        self.groups@.map_values(|g: GroupChat| g.group_id@)
    }

    /// The snapshot is one of a relay: every account has its profile, no
    /// account and no group occurs twice, and every version is at least 1.
    pub open spec fn valid(&self) -> bool {
        &&& self.accounts@.len() == self.profiles@.len()
        &&& text_views(self.accounts@).no_duplicates()
        &&& forall|i: int| 0 <= i < self.profiles@.len() ==> self.profiles@[i].key_version >= 1
        &&& self.group_ids().no_duplicates()
    }

    /// The state that the snapshot holds.
    pub open spec fn state(&self) -> RelayState {
        let accounts = text_views(self.accounts@);
        let ids = self.group_ids();
        RelayState {
            profiles: Map::new(
                |a: Seq<char>| accounts.contains(a),
                |a: Seq<char>| self.profiles@[accounts.index_of(a)]@,
            ),
            groups: Map::new(
                |g: Seq<char>| ids.contains(g),
                |g: Seq<char>| self.groups@[ids.index_of(g)]@,
            ),
            profile_count: self.profiles@.len(),
            message_count: self.message_count as nat,
            owner: self.owner@,
        }
    }
}

impl WhisperContract {
    /// Lays the relay's state out for keeping.
    pub fn into_snapshot(self) -> (s: Snapshot)
        requires
            self.wf(),
        ensures
            s.valid(),
            s.state() == self@,
    {
        let ghost before = self;
        let (accounts, profiles) = self.profiles.into_parts();
        let (ids, groups) = self.groups.into_parts();
        let s = Snapshot {
            owner: self.owner,
            message_count: self.message_count,
            accounts,
            profiles,
            groups,
        };
        proof {
            before.profiles.lemma_dom();
            before.groups.lemma_dom();
            let texts = text_views(accounts@);
            assert(s.group_ids() =~= text_views(ids@)) by {
                assert forall|i: int| 0 <= i < groups@.len() implies groups@[i].group_id@
                    == text_views(ids@)[i] by {
                    assert(before.groups@.contains_key(before.groups.key_seq()[i]));
                }
            }
            assert forall|i: int| 0 <= i < profiles@.len() implies profiles@[i].key_version
                >= 1 by {
                assert(before.profiles@.contains_key(texts[i]));
            }
            assert(s.state().profiles =~= before@.profiles);
            assert(s.state().groups =~= before@.groups);
        }
        s
    }

    /// The relay that a snapshot holds, where it holds one.
    pub fn restore(s: Snapshot) -> (r: Option<WhisperContract>)
        ensures
            match r {
                Some(c) => s.valid() && c.wf() && c@ == s.state(),
                None => !s.valid(),
            },
    {
        let mut i: usize = 0;
        while i < s.profiles.len()
            invariant
                i <= s.profiles@.len(),
                forall|k: int| 0 <= k < i ==> s.profiles@[k].key_version >= 1,
            decreases s.profiles@.len() - i,
        {
            if s.profiles[i].key_version == 0 {
                return None;
            }
            i = i + 1;
        }
        let mut ids: Vec<String> = Vec::new();
        let mut j: usize = 0;
        while j < s.groups.len()
            invariant
                j <= s.groups@.len(),
                ids@.len() == j,
                text_views(ids@) == s.group_ids().subrange(0, j as int),
            decreases s.groups@.len() - j,
        {
            ids.push(s.groups[j].group_id.clone());
            j = j + 1;
            assert(text_views(ids@) =~= s.group_ids().subrange(0, j as int));
        }
        assert(text_views(ids@) =~= s.group_ids());
        let count: usize = s.profiles.len();
        let profiles = match KeyedStore::from_parts(s.accounts, s.profiles) {
            Some(p) => p,
            None => {
                return None;
            },
        };
        let groups = match KeyedStore::from_parts(ids, s.groups) {
            Some(g) => g,
            None => {
                return None;
            },
        };
        let c = WhisperContract {
            profiles,
            groups,
            profile_count: count as u64,
            message_count: s.message_count,
            owner: s.owner,
        };
        proof {
            profiles.lemma_dom();
            groups.lemma_dom();
            assert(c@.profiles =~= s.state().profiles);
            assert(c@.groups =~= s.state().groups);
        }
        Some(c)
    }
}

} // verus!
