use vstd::prelude::*;
use crate::profile::clone_text;

verus! {

/// What the directory keeps of a group: who made it, when, and under which
/// label. Nothing changes it once it is stored.
#[derive(Debug, PartialEq, Eq)]
pub struct GroupChat {
    /// The identifier under which the group is stored.
    pub group_id: String,
    /// The account that created the group.
    pub creator: String,
    /// The time of creation.
    pub created_at: u64,
    /// The label given at creation.
    pub name: Option<String>,
}

/// A group as plain values.
pub struct GroupView {
    pub group_id: Seq<char>,
    pub creator: Seq<char>,
    pub created_at: nat,
    pub name: Option<Seq<char>>,
}

impl View for GroupChat {
    type V = GroupView;

    open spec fn view(&self) -> GroupView {
        GroupView {
            group_id: self.group_id@,
            creator: self.creator@,
            created_at: self.created_at as nat,
            name: self.name.deep_view(),
        }
    }
}

impl Clone for GroupChat {
    fn clone(&self) -> (r: Self)
        ensures
            r == *self,
    {
        GroupChat {
            group_id: self.group_id.clone(),
            creator: self.creator.clone(),
            created_at: self.created_at,
            name: clone_text(&self.name),
        }
    }
}

} // verus!
