//! Answers about channels.

use vstd::prelude::*;

verus! {

/// A channel in brief.
#[derive(Debug)]
pub struct LiteChannelInfo {
    pub id: String,
    pub name: String,
    pub user_id: Option<String>,
    pub color: String,
    pub is_sensitive: bool,
    pub allow_renote_to_external: bool,
}

impl LiteChannelInfo {
    pub fn id(&self) -> (res: &String)
        ensures
            *res == self.id,
    {
        &self.id
    }

    pub fn name(&self) -> (res: &String)
        ensures
            *res == self.name,
    {
        &self.name
    }

    pub fn user_id(&self) -> (res: &Option<String>)
        ensures
            *res == self.user_id,
    {
        &self.user_id
    }

    pub fn color(&self) -> (res: &String)
        ensures
            *res == self.color,
    {
        &self.color
    }

    pub fn is_sensitive(&self) -> (res: &bool)
        ensures
            *res == self.is_sensitive,
    {
        &self.is_sensitive
    }

    pub fn allow_renote_to_external(&self) -> (res: &bool)
        ensures
            *res == self.allow_renote_to_external,
    {
        &self.allow_renote_to_external
    }
}

} // verus!
