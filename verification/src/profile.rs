use vstd::prelude::*;

verus! {

/// What an account has published: its current key, how often the key has
/// been set, when it was last set, and a label.
#[derive(Debug, PartialEq, Eq)]
pub struct MessagingProfile {
    /// The X25519 public key, in base64.
    pub x25519_pubkey: String,
    /// 1 after the first registration, one more after each later one.
    pub key_version: u32,
    /// The time of the last registration.
    pub registered_at: u64,
    /// The label given with the last registration.
    pub display_name: Option<String>,
}

/// A profile as plain values.
pub struct ProfileView {
    pub x25519_pubkey: Seq<char>,
    pub key_version: nat,
    pub registered_at: nat,
    pub display_name: Option<Seq<char>>,
}

impl View for MessagingProfile {
    type V = ProfileView;

    open spec fn view(&self) -> ProfileView {
        ProfileView {
            x25519_pubkey: self.x25519_pubkey@,
            key_version: self.key_version as nat,
            registered_at: self.registered_at as nat,
            display_name: self.display_name.deep_view(),
        }
    }
}

/// A copy of an optional text.
pub fn clone_text(text: &Option<String>) -> (r: Option<String>)
    ensures
        r == *text,
{
    match text {
        Some(t) => Some(t.clone()),
        None => None,
    }
}

impl Clone for MessagingProfile {
    fn clone(&self) -> (r: Self)
        ensures
            r == *self,
    {
        MessagingProfile {
            x25519_pubkey: self.x25519_pubkey.clone(),
            key_version: self.key_version,
            registered_at: self.registered_at,
            display_name: clone_text(&self.display_name),
        }
    }
}

} // verus!
