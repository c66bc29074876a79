use vstd::prelude::*;

use crate::fields::{
    opt_str_map, opt_string, req_bool, req_optstr_map, req_string, spec_opt_str_map,
    spec_opt_string, spec_req_bool, spec_req_optstr_map, spec_req_string,
};
use crate::json::{JsonValue, JsonView};

verus! {

/// A member of a league, with ownership and bot flags and optional
/// display metadata.
#[derive(Debug, PartialEq, Eq)]
pub struct SleeperUser {
    pub user_id: String,
    pub username: Option<String>,
    pub settings: Option<Vec<(String, String)>>,
    pub metadata: Vec<(String, Option<String>)>,
    pub is_owner: bool,
    pub is_bot: bool,
    pub league_id: String,
    pub display_name: Option<String>,
    pub avatar: Option<String>,
}

/// The mathematical value of a `SleeperUser`.
pub ghost struct SleeperUserV {
    pub user_id: Seq<char>,
    pub username: Option<Seq<char>>,
    pub settings: Option<Seq<(Seq<char>, Seq<char>)>>,
    pub metadata: Seq<(Seq<char>, Option<Seq<char>>)>,
    pub is_owner: bool,
    pub is_bot: bool,
    pub league_id: Seq<char>,
    pub display_name: Option<Seq<char>>,
    pub avatar: Option<Seq<char>>,
}

impl DeepView for SleeperUser {
    type V = SleeperUserV;

    open spec fn deep_view(&self) -> SleeperUserV {
        SleeperUserV {
            user_id: self.user_id@,
            username: self.username.deep_view(),
            settings: self.settings.deep_view(),
            metadata: self.metadata.deep_view(),
            is_owner: self.is_owner,
            is_bot: self.is_bot,
            league_id: self.league_id@,
            display_name: self.display_name.deep_view(),
            avatar: self.avatar.deep_view(),
        }
    }
}

/// The `SleeperUser` a JSON document describes: an object with every
/// field below in the shape its type asks for; unknown entries are
/// ignored.
pub open spec fn spec_user_of(v: JsonView) -> Option<SleeperUserV> {
    match v {
        JsonView::Obj(o) => {
            if spec_req_string(o, "user_id"@) is Some
                && spec_opt_string(o, "username"@) is Some
                && spec_opt_str_map(o, "settings"@) is Some
                && spec_req_optstr_map(o, "metadata"@) is Some
                && spec_req_bool(o, "is_owner"@) is Some
                && spec_req_bool(o, "is_bot"@) is Some
                && spec_req_string(o, "league_id"@) is Some
                && spec_opt_string(o, "display_name"@) is Some
                && spec_opt_string(o, "avatar"@) is Some {
                Some(
                    SleeperUserV {
                        user_id: spec_req_string(o, "user_id"@)->Some_0,
                        username: spec_opt_string(o, "username"@)->Some_0,
                        settings: spec_opt_str_map(o, "settings"@)->Some_0,
                        metadata: spec_req_optstr_map(o, "metadata"@)->Some_0,
                        is_owner: spec_req_bool(o, "is_owner"@)->Some_0,
                        is_bot: spec_req_bool(o, "is_bot"@)->Some_0,
                        league_id: spec_req_string(o, "league_id"@)->Some_0,
                        display_name: spec_opt_string(o, "display_name"@)->Some_0,
                        avatar: spec_opt_string(o, "avatar"@)->Some_0,
                    },
                )
            } else {
                None
            }
        },
        _ => None,
    }
}

impl SleeperUser {
    /// Decodes a `SleeperUser` from a JSON document, exactly when the
    /// document has the shape the specification above asks for.
    pub fn from_json(v: &JsonValue) -> (r: Option<SleeperUser>)
        ensures
            r.deep_view() == spec_user_of(v.deep_view()),
    {
        match v {
            JsonValue::Obj(entries) => {
                let user_id = match req_string(entries, "user_id") {
                    Some(x) => x,
                    None => { return None; },
                };
                let username = match opt_string(entries, "username") {
                    Some(x) => x,
                    None => { return None; },
                };
                let settings = match opt_str_map(entries, "settings") {
                    Some(x) => x,
                    None => { return None; },
                };
                let metadata = match req_optstr_map(entries, "metadata") {
                    Some(x) => x,
                    None => { return None; },
                };
                let is_owner = match req_bool(entries, "is_owner") {
                    Some(x) => x,
                    None => { return None; },
                };
                let is_bot = match req_bool(entries, "is_bot") {
                    Some(x) => x,
                    None => { return None; },
                };
                let league_id = match req_string(entries, "league_id") {
                    Some(x) => x,
                    None => { return None; },
                };
                let display_name = match opt_string(entries, "display_name") {
                    Some(x) => x,
                    None => { return None; },
                };
                let avatar = match opt_string(entries, "avatar") {
                    Some(x) => x,
                    None => { return None; },
                };
                Some(
                    SleeperUser {
                        user_id,
                        username,
                        settings,
                        metadata,
                        is_owner,
                        is_bot,
                        league_id,
                        display_name,
                        avatar,
                    },
                )
            },
            _ => None,
        }
    }
}

} // verus!
