use vstd::prelude::*;

use crate::fields::{
    jv_str, opt_bool, opt_optstr_map, opt_string, opt_u64, req_num, req_string, req_u16, req_u32,
    req_u64, req_u8, spec_opt_bool, spec_opt_optstr_map, spec_opt_string, spec_opt_u64,
    spec_req_num, spec_req_string, spec_req_u16, spec_req_u32, spec_req_u64, spec_req_u8,
};
use crate::json::{
    get_field, lemma_views_of_values, spec_get, views_of_entries, views_of_values, JsonNumber,
    JsonNumberV, JsonValue, JsonView,
};

verus! {

/// A roster slot kind. An unknown position string is a decode error, not a
/// silent default.
#[derive(Clone, Copy, Debug, PartialEq, Eq)]
pub enum RosterPosition {
    QB,
    RB,
    WR,
    TE,
    FLEX,
    K,
    DEF,
    BN,
    IDP,
}

impl DeepView for RosterPosition {
    type V = RosterPosition;

    open spec fn deep_view(&self) -> RosterPosition {
        *self
    }
}

/// The position a string names, matched exactly against the codes.
pub open spec fn spec_position_of(s: Seq<char>) -> Option<RosterPosition> {
    if s == "QB"@ {
        Some(RosterPosition::QB)
    } else if s == "RB"@ {
        Some(RosterPosition::RB)
    } else if s == "WR"@ {
        Some(RosterPosition::WR)
    } else if s == "TE"@ {
        Some(RosterPosition::TE)
    } else if s == "FLEX"@ {
        Some(RosterPosition::FLEX)
    } else if s == "K"@ {
        Some(RosterPosition::K)
    } else if s == "DEF"@ {
        Some(RosterPosition::DEF)
    } else if s == "BN"@ {
        Some(RosterPosition::BN)
    } else if s == "IDP"@ {
        Some(RosterPosition::IDP)
    } else {
        None
    }
}

/// The code a position prints as; the inverse of `spec_position_of`.
pub open spec fn spec_position_code(p: RosterPosition) -> Seq<char> {
    match p {
        RosterPosition::QB => "QB"@,
        RosterPosition::RB => "RB"@,
        RosterPosition::WR => "WR"@,
        RosterPosition::TE => "TE"@,
        RosterPosition::FLEX => "FLEX"@,
        RosterPosition::K => "K"@,
        RosterPosition::DEF => "DEF"@,
        RosterPosition::BN => "BN"@,
        RosterPosition::IDP => "IDP"@,
    }
}

impl RosterPosition {
    /// Parses a position code, matched exactly.
    pub fn from_code(s: &String) -> (r: Option<RosterPosition>)
        ensures
            r == spec_position_of(s@),
    {
        if *s == String::from_str("QB") {
            Some(RosterPosition::QB)
        } else if *s == String::from_str("RB") {
            Some(RosterPosition::RB)
        } else if *s == String::from_str("WR") {
            Some(RosterPosition::WR)
        } else if *s == String::from_str("TE") {
            Some(RosterPosition::TE)
        } else if *s == String::from_str("FLEX") {
            Some(RosterPosition::FLEX)
        } else if *s == String::from_str("K") {
            Some(RosterPosition::K)
        } else if *s == String::from_str("DEF") {
            Some(RosterPosition::DEF)
        } else if *s == String::from_str("BN") {
            Some(RosterPosition::BN)
        } else if *s == String::from_str("IDP") {
            Some(RosterPosition::IDP)
        } else {
            None
        }
    }

    /// Renders the position's code.
    pub fn code(&self) -> (r: String)
        ensures
            r@ == spec_position_code(*self),
    {
        match self {
            RosterPosition::QB => String::from_str("QB"),
            RosterPosition::RB => String::from_str("RB"),
            RosterPosition::WR => String::from_str("WR"),
            RosterPosition::TE => String::from_str("TE"),
            RosterPosition::FLEX => String::from_str("FLEX"),
            RosterPosition::K => String::from_str("K"),
            RosterPosition::DEF => String::from_str("DEF"),
            RosterPosition::BN => String::from_str("BN"),
            RosterPosition::IDP => String::from_str("IDP"),
        }
    }
}

/// Law: a position code parses back to its own position.
pub proof fn lemma_position_code_round_trip(p: RosterPosition)
    ensures
        spec_position_of(spec_position_code(p)) == Some(p),
{
    reveal_strlit("QB");
    reveal_strlit("RB");
    reveal_strlit("WR");
    reveal_strlit("TE");
    reveal_strlit("FLEX");
    reveal_strlit("K");
    reveal_strlit("DEF");
    reveal_strlit("BN");
    reveal_strlit("IDP");
    assert("QB"@[0] == 'Q' && "RB"@[0] == 'R' && "WR"@[0] == 'W' && "TE"@[0] == 'T');
    assert("DEF"@[0] == 'D' && "BN"@[0] == 'B' && "IDP"@[0] == 'I');
    assert("FLEX"@.len() == 4 && "K"@.len() == 1);
}

/// All items as positions, when each one is a recognized position string.
pub open spec fn spec_positions_of(items: Seq<JsonView>) -> Option<Seq<RosterPosition>> {
    if forall|i: int|
        0 <= i < items.len() ==> (#[trigger] items[i]) is Str && spec_position_of(
            jv_str(items[i]),
        ) is Some {
        Some(Seq::new(items.len(), |i: int| spec_position_of(jv_str(items[i]))->Some_0))
    } else {
        None
    }
}

/// A required array field of position codes.
pub open spec fn spec_req_positions(o: Seq<(Seq<char>, JsonView)>, key: Seq<char>) -> Option<
    Seq<RosterPosition>,
> {
    match spec_get(o, key) {
        Some(JsonView::Arr(items)) => spec_positions_of(items),
        _ => None,
    }
}

/// Converts an array's items into positions, when each one is a
/// recognized position string.
pub(crate) fn position_items(items: &Vec<JsonValue>) -> (r: Option<Vec<RosterPosition>>)
    ensures
        r.deep_view() == spec_positions_of(views_of_values(items@)),
{
    let ghost ivs = views_of_values(items@);
    proof {
        lemma_views_of_values(items@);
    }
    let mut out: Vec<RosterPosition> = Vec::new();
    let mut i: usize = 0;
    while i < items.len()
        invariant
            ivs == views_of_values(items@),
            ivs.len() == items@.len(),
            forall|j: int| 0 <= j < items@.len() ==> ivs[j] == items@[j].deep_view(),
            0 <= i <= items@.len(),
            out@.len() == i,
            forall|j: int|
                0 <= j < i ==> (#[trigger] ivs[j]) is Str && spec_position_of(jv_str(ivs[j]))
                    == Some(out@[j]),
        decreases items@.len() - i,
    {
        match &items[i] {
            JsonValue::Str(s) => match RosterPosition::from_code(s) {
                Some(p) => out.push(p),
                None => {
                    proof {
                        assert((#[trigger] ivs[i as int]) is Str && spec_position_of(
                            jv_str(ivs[i as int]),
                        ) is None);
                    }
                    return None;
                },
            },
            _ => {
                proof {
                    assert(!((#[trigger] ivs[i as int]) is Str));
                }
                return None;
            },
        }
        i += 1;
    }
    proof {
        assert(spec_positions_of(ivs) is Some);
        assert(out.deep_view() =~= spec_positions_of(ivs)->Some_0);
    }
    Some(out)
}

/// Reads a required array field of position codes.
pub(crate) fn req_positions(entries: &Vec<(String, JsonValue)>, key: &str) -> (r: Option<
    Vec<RosterPosition>,
>)
    ensures
        r.deep_view() == spec_req_positions(views_of_entries(entries@), key@),
{
    match get_field(entries, key) {
        Some(v) => match v {
            JsonValue::Arr(items) => position_items(items),
            _ => None,
        },
        None => None,
    }
}

/// A league's scoring rules: one point value per stat abbreviation,
/// each carried as a raw JSON number.
#[derive(Debug, PartialEq, Eq)]
pub struct ScoringSettings {
    pub st_ff: JsonNumber,
    pub pts_allow_7_13: JsonNumber,
    pub def_st_ff: JsonNumber,
    pub rec_yd: JsonNumber,
    pub fum_rec_td: JsonNumber,
    pub pts_allow_35p: JsonNumber,
    pub pts_allow_28_34: JsonNumber,
    pub fum: JsonNumber,
    pub rush_yd: JsonNumber,
    pub pass_td: JsonNumber,
    pub blk_kick: JsonNumber,
    pub pass_yd: JsonNumber,
    pub safe: JsonNumber,
    pub def_td: JsonNumber,
    pub fgm_50p: JsonNumber,
    pub def_st_td: JsonNumber,
    pub fum_rec: JsonNumber,
    pub rush_2pt: JsonNumber,
    pub xpm: JsonNumber,
    pub pts_allow_21_27: JsonNumber,
    pub fgm_20_29: JsonNumber,
    pub pts_allow_1_6: JsonNumber,
    pub fum_lost: JsonNumber,
    pub def_st_fum_rec: JsonNumber,
    pub int_: JsonNumber,
    pub def_kr_td: JsonNumber,
    pub fgm_0_19: JsonNumber,
    pub pts_allow_14_20: JsonNumber,
    pub rec: JsonNumber,
    pub ff: JsonNumber,
    pub fgmiss: JsonNumber,
    pub st_fum_rec: JsonNumber,
    pub rec_2pt: JsonNumber,
    pub def_pr_td: JsonNumber,
    pub rush_td: JsonNumber,
    pub xpmiss: JsonNumber,
    pub fgm_30_39: JsonNumber,
    pub rec_td: JsonNumber,
    pub st_td: JsonNumber,
    pub pass_2pt: JsonNumber,
    pub pts_allow_0: JsonNumber,
    pub pass_int: JsonNumber,
    pub fgm_40_49: JsonNumber,
    pub sack: JsonNumber,
}

/// The mathematical value of a `ScoringSettings`.
pub ghost struct ScoringSettingsV {
    pub st_ff: JsonNumberV,
    pub pts_allow_7_13: JsonNumberV,
    pub def_st_ff: JsonNumberV,
    pub rec_yd: JsonNumberV,
    pub fum_rec_td: JsonNumberV,
    pub pts_allow_35p: JsonNumberV,
    pub pts_allow_28_34: JsonNumberV,
    pub fum: JsonNumberV,
    pub rush_yd: JsonNumberV,
    pub pass_td: JsonNumberV,
    pub blk_kick: JsonNumberV,
    pub pass_yd: JsonNumberV,
    pub safe: JsonNumberV,
    pub def_td: JsonNumberV,
    pub fgm_50p: JsonNumberV,
    pub def_st_td: JsonNumberV,
    pub fum_rec: JsonNumberV,
    pub rush_2pt: JsonNumberV,
    pub xpm: JsonNumberV,
    pub pts_allow_21_27: JsonNumberV,
    pub fgm_20_29: JsonNumberV,
    pub pts_allow_1_6: JsonNumberV,
    pub fum_lost: JsonNumberV,
    pub def_st_fum_rec: JsonNumberV,
    pub int_: JsonNumberV,
    pub def_kr_td: JsonNumberV,
    pub fgm_0_19: JsonNumberV,
    pub pts_allow_14_20: JsonNumberV,
    pub rec: JsonNumberV,
    pub ff: JsonNumberV,
    pub fgmiss: JsonNumberV,
    pub st_fum_rec: JsonNumberV,
    pub rec_2pt: JsonNumberV,
    pub def_pr_td: JsonNumberV,
    pub rush_td: JsonNumberV,
    pub xpmiss: JsonNumberV,
    pub fgm_30_39: JsonNumberV,
    pub rec_td: JsonNumberV,
    pub st_td: JsonNumberV,
    pub pass_2pt: JsonNumberV,
    pub pts_allow_0: JsonNumberV,
    pub pass_int: JsonNumberV,
    pub fgm_40_49: JsonNumberV,
    pub sack: JsonNumberV,
}

impl DeepView for ScoringSettings {
    type V = ScoringSettingsV;

    open spec fn deep_view(&self) -> ScoringSettingsV {
        ScoringSettingsV {
            st_ff: self.st_ff.deep_view(),
            pts_allow_7_13: self.pts_allow_7_13.deep_view(),
            def_st_ff: self.def_st_ff.deep_view(),
            rec_yd: self.rec_yd.deep_view(),
            fum_rec_td: self.fum_rec_td.deep_view(),
            pts_allow_35p: self.pts_allow_35p.deep_view(),
            pts_allow_28_34: self.pts_allow_28_34.deep_view(),
            fum: self.fum.deep_view(),
            rush_yd: self.rush_yd.deep_view(),
            pass_td: self.pass_td.deep_view(),
            blk_kick: self.blk_kick.deep_view(),
            pass_yd: self.pass_yd.deep_view(),
            safe: self.safe.deep_view(),
            def_td: self.def_td.deep_view(),
            fgm_50p: self.fgm_50p.deep_view(),
            def_st_td: self.def_st_td.deep_view(),
            fum_rec: self.fum_rec.deep_view(),
            rush_2pt: self.rush_2pt.deep_view(),
            xpm: self.xpm.deep_view(),
            pts_allow_21_27: self.pts_allow_21_27.deep_view(),
            fgm_20_29: self.fgm_20_29.deep_view(),
            pts_allow_1_6: self.pts_allow_1_6.deep_view(),
            fum_lost: self.fum_lost.deep_view(),
            def_st_fum_rec: self.def_st_fum_rec.deep_view(),
            int_: self.int_.deep_view(),
            def_kr_td: self.def_kr_td.deep_view(),
            fgm_0_19: self.fgm_0_19.deep_view(),
            pts_allow_14_20: self.pts_allow_14_20.deep_view(),
            rec: self.rec.deep_view(),
            ff: self.ff.deep_view(),
            fgmiss: self.fgmiss.deep_view(),
            st_fum_rec: self.st_fum_rec.deep_view(),
            rec_2pt: self.rec_2pt.deep_view(),
            def_pr_td: self.def_pr_td.deep_view(),
            rush_td: self.rush_td.deep_view(),
            xpmiss: self.xpmiss.deep_view(),
            fgm_30_39: self.fgm_30_39.deep_view(),
            rec_td: self.rec_td.deep_view(),
            st_td: self.st_td.deep_view(),
            pass_2pt: self.pass_2pt.deep_view(),
            pts_allow_0: self.pts_allow_0.deep_view(),
            pass_int: self.pass_int.deep_view(),
            fgm_40_49: self.fgm_40_49.deep_view(),
            sack: self.sack.deep_view(),
        }
    }
}

/// The `ScoringSettings` a JSON document describes: an object with every
/// field below in the shape its type asks for; unknown entries are
/// ignored.
pub open spec fn spec_scoring_settings_of(v: JsonView) -> Option<ScoringSettingsV> {
    match v {
        JsonView::Obj(o) => {
            if spec_req_num(o, "st_ff"@) is Some
                && spec_req_num(o, "pts_allow_7_13"@) is Some
                && spec_req_num(o, "def_st_ff"@) is Some
                && spec_req_num(o, "rec_yd"@) is Some
                && spec_req_num(o, "fum_rec_td"@) is Some
                && spec_req_num(o, "pts_allow_35p"@) is Some
                && spec_req_num(o, "pts_allow_28_34"@) is Some
                && spec_req_num(o, "fum"@) is Some
                && spec_req_num(o, "rush_yd"@) is Some
                && spec_req_num(o, "pass_td"@) is Some
                && spec_req_num(o, "blk_kick"@) is Some
                && spec_req_num(o, "pass_yd"@) is Some
                && spec_req_num(o, "safe"@) is Some
                && spec_req_num(o, "def_td"@) is Some
                && spec_req_num(o, "fgm_50p"@) is Some
                && spec_req_num(o, "def_st_td"@) is Some
                && spec_req_num(o, "fum_rec"@) is Some
                && spec_req_num(o, "rush_2pt"@) is Some
                && spec_req_num(o, "xpm"@) is Some
                && spec_req_num(o, "pts_allow_21_27"@) is Some
                && spec_req_num(o, "fgm_20_29"@) is Some
                && spec_req_num(o, "pts_allow_1_6"@) is Some
                && spec_req_num(o, "fum_lost"@) is Some
                && spec_req_num(o, "def_st_fum_rec"@) is Some
                && spec_req_num(o, "int"@) is Some
                && spec_req_num(o, "def_kr_td"@) is Some
                && spec_req_num(o, "fgm_0_19"@) is Some
                && spec_req_num(o, "pts_allow_14_20"@) is Some
                && spec_req_num(o, "rec"@) is Some
                && spec_req_num(o, "ff"@) is Some
                && spec_req_num(o, "fgmiss"@) is Some
                && spec_req_num(o, "st_fum_rec"@) is Some
                && spec_req_num(o, "rec_2pt"@) is Some
                && spec_req_num(o, "def_pr_td"@) is Some
                && spec_req_num(o, "rush_td"@) is Some
                && spec_req_num(o, "xpmiss"@) is Some
                && spec_req_num(o, "fgm_30_39"@) is Some
                && spec_req_num(o, "rec_td"@) is Some
                && spec_req_num(o, "st_td"@) is Some
                && spec_req_num(o, "pass_2pt"@) is Some
                && spec_req_num(o, "pts_allow_0"@) is Some
                && spec_req_num(o, "pass_int"@) is Some
                && spec_req_num(o, "fgm_40_49"@) is Some
                && spec_req_num(o, "sack"@) is Some {
                Some(
                    ScoringSettingsV {
                        st_ff: spec_req_num(o, "st_ff"@)->Some_0,
                        pts_allow_7_13: spec_req_num(o, "pts_allow_7_13"@)->Some_0,
                        def_st_ff: spec_req_num(o, "def_st_ff"@)->Some_0,
                        rec_yd: spec_req_num(o, "rec_yd"@)->Some_0,
                        fum_rec_td: spec_req_num(o, "fum_rec_td"@)->Some_0,
                        pts_allow_35p: spec_req_num(o, "pts_allow_35p"@)->Some_0,
                        pts_allow_28_34: spec_req_num(o, "pts_allow_28_34"@)->Some_0,
                        fum: spec_req_num(o, "fum"@)->Some_0,
                        rush_yd: spec_req_num(o, "rush_yd"@)->Some_0,
                        pass_td: spec_req_num(o, "pass_td"@)->Some_0,
                        blk_kick: spec_req_num(o, "blk_kick"@)->Some_0,
                        pass_yd: spec_req_num(o, "pass_yd"@)->Some_0,
                        safe: spec_req_num(o, "safe"@)->Some_0,
                        def_td: spec_req_num(o, "def_td"@)->Some_0,
                        fgm_50p: spec_req_num(o, "fgm_50p"@)->Some_0,
                        def_st_td: spec_req_num(o, "def_st_td"@)->Some_0,
                        fum_rec: spec_req_num(o, "fum_rec"@)->Some_0,
                        rush_2pt: spec_req_num(o, "rush_2pt"@)->Some_0,
                        xpm: spec_req_num(o, "xpm"@)->Some_0,
                        pts_allow_21_27: spec_req_num(o, "pts_allow_21_27"@)->Some_0,
                        fgm_20_29: spec_req_num(o, "fgm_20_29"@)->Some_0,
                        pts_allow_1_6: spec_req_num(o, "pts_allow_1_6"@)->Some_0,
                        fum_lost: spec_req_num(o, "fum_lost"@)->Some_0,
                        def_st_fum_rec: spec_req_num(o, "def_st_fum_rec"@)->Some_0,
                        int_: spec_req_num(o, "int"@)->Some_0,
                        def_kr_td: spec_req_num(o, "def_kr_td"@)->Some_0,
                        fgm_0_19: spec_req_num(o, "fgm_0_19"@)->Some_0,
                        pts_allow_14_20: spec_req_num(o, "pts_allow_14_20"@)->Some_0,
                        rec: spec_req_num(o, "rec"@)->Some_0,
                        ff: spec_req_num(o, "ff"@)->Some_0,
                        fgmiss: spec_req_num(o, "fgmiss"@)->Some_0,
                        st_fum_rec: spec_req_num(o, "st_fum_rec"@)->Some_0,
                        rec_2pt: spec_req_num(o, "rec_2pt"@)->Some_0,
                        def_pr_td: spec_req_num(o, "def_pr_td"@)->Some_0,
                        rush_td: spec_req_num(o, "rush_td"@)->Some_0,
                        xpmiss: spec_req_num(o, "xpmiss"@)->Some_0,
                        fgm_30_39: spec_req_num(o, "fgm_30_39"@)->Some_0,
                        rec_td: spec_req_num(o, "rec_td"@)->Some_0,
                        st_td: spec_req_num(o, "st_td"@)->Some_0,
                        pass_2pt: spec_req_num(o, "pass_2pt"@)->Some_0,
                        pts_allow_0: spec_req_num(o, "pts_allow_0"@)->Some_0,
                        pass_int: spec_req_num(o, "pass_int"@)->Some_0,
                        fgm_40_49: spec_req_num(o, "fgm_40_49"@)->Some_0,
                        sack: spec_req_num(o, "sack"@)->Some_0,
                    },
                )
            } else {
                None
            }
        },
        _ => None,
    }
}

impl ScoringSettings {
    /// Decodes a `ScoringSettings` from a JSON document, exactly when the
    /// document has the shape the specification above asks for.
    pub fn from_json(v: &JsonValue) -> (r: Option<ScoringSettings>)
        ensures
            r.deep_view() == spec_scoring_settings_of(v.deep_view()),
    {
        match v {
            JsonValue::Obj(entries) => {
                let st_ff = match req_num(entries, "st_ff") {
                    Some(x) => x,
                    None => { return None; },
                };
                let pts_allow_7_13 = match req_num(entries, "pts_allow_7_13") {
                    Some(x) => x,
                    None => { return None; },
                };
                let def_st_ff = match req_num(entries, "def_st_ff") {
                    Some(x) => x,
                    None => { return None; },
                };
                let rec_yd = match req_num(entries, "rec_yd") {
                    Some(x) => x,
                    None => { return None; },
                };
                let fum_rec_td = match req_num(entries, "fum_rec_td") {
                    Some(x) => x,
                    None => { return None; },
                };
                let pts_allow_35p = match req_num(entries, "pts_allow_35p") {
                    Some(x) => x,
                    None => { return None; },
                };
                let pts_allow_28_34 = match req_num(entries, "pts_allow_28_34") {
                    Some(x) => x,
                    None => { return None; },
                };
                let fum = match req_num(entries, "fum") {
                    Some(x) => x,
                    None => { return None; },
                };
                let rush_yd = match req_num(entries, "rush_yd") {
                    Some(x) => x,
                    None => { return None; },
                };
                let pass_td = match req_num(entries, "pass_td") {
                    Some(x) => x,
                    None => { return None; },
                };
                let blk_kick = match req_num(entries, "blk_kick") {
                    Some(x) => x,
                    None => { return None; },
                };
                let pass_yd = match req_num(entries, "pass_yd") {
                    Some(x) => x,
                    None => { return None; },
                };
                let safe = match req_num(entries, "safe") {
                    Some(x) => x,
                    None => { return None; },
                };
                let def_td = match req_num(entries, "def_td") {
                    Some(x) => x,
                    None => { return None; },
                };
                let fgm_50p = match req_num(entries, "fgm_50p") {
                    Some(x) => x,
                    None => { return None; },
                };
                let def_st_td = match req_num(entries, "def_st_td") {
                    Some(x) => x,
                    None => { return None; },
                };
                let fum_rec = match req_num(entries, "fum_rec") {
                    Some(x) => x,
                    None => { return None; },
                };
                let rush_2pt = match req_num(entries, "rush_2pt") {
                    Some(x) => x,
                    None => { return None; },
                };
                let xpm = match req_num(entries, "xpm") {
                    Some(x) => x,
                    None => { return None; },
                };
                let pts_allow_21_27 = match req_num(entries, "pts_allow_21_27") {
                    Some(x) => x,
                    None => { return None; },
                };
                let fgm_20_29 = match req_num(entries, "fgm_20_29") {
                    Some(x) => x,
                    None => { return None; },
                };
                let pts_allow_1_6 = match req_num(entries, "pts_allow_1_6") {
                    Some(x) => x,
                    None => { return None; },
                };
                let fum_lost = match req_num(entries, "fum_lost") {
                    Some(x) => x,
                    None => { return None; },
                };
                let def_st_fum_rec = match req_num(entries, "def_st_fum_rec") {
                    Some(x) => x,
                    None => { return None; },
                };
                let int_ = match req_num(entries, "int") {
                    Some(x) => x,
                    None => { return None; },
                };
                let def_kr_td = match req_num(entries, "def_kr_td") {
                    Some(x) => x,
                    None => { return None; },
                };
                let fgm_0_19 = match req_num(entries, "fgm_0_19") {
                    Some(x) => x,
                    None => { return None; },
                };
                let pts_allow_14_20 = match req_num(entries, "pts_allow_14_20") {
                    Some(x) => x,
                    None => { return None; },
                };
                let rec = match req_num(entries, "rec") {
                    Some(x) => x,
                    None => { return None; },
                };
                let ff = match req_num(entries, "ff") {
                    Some(x) => x,
                    None => { return None; },
                };
                let fgmiss = match req_num(entries, "fgmiss") {
                    Some(x) => x,
                    None => { return None; },
                };
                let st_fum_rec = match req_num(entries, "st_fum_rec") {
                    Some(x) => x,
                    None => { return None; },
                };
                let rec_2pt = match req_num(entries, "rec_2pt") {
                    Some(x) => x,
                    None => { return None; },
                };
                let def_pr_td = match req_num(entries, "def_pr_td") {
                    Some(x) => x,
                    None => { return None; },
                };
                let rush_td = match req_num(entries, "rush_td") {
                    Some(x) => x,
                    None => { return None; },
                };
                let xpmiss = match req_num(entries, "xpmiss") {
                    Some(x) => x,
                    None => { return None; },
                };
                let fgm_30_39 = match req_num(entries, "fgm_30_39") {
                    Some(x) => x,
                    None => { return None; },
                };
                let rec_td = match req_num(entries, "rec_td") {
                    Some(x) => x,
                    None => { return None; },
                };
                let st_td = match req_num(entries, "st_td") {
                    Some(x) => x,
                    None => { return None; },
                };
                let pass_2pt = match req_num(entries, "pass_2pt") {
                    Some(x) => x,
                    None => { return None; },
                };
                let pts_allow_0 = match req_num(entries, "pts_allow_0") {
                    Some(x) => x,
                    None => { return None; },
                };
                let pass_int = match req_num(entries, "pass_int") {
                    Some(x) => x,
                    None => { return None; },
                };
                let fgm_40_49 = match req_num(entries, "fgm_40_49") {
                    Some(x) => x,
                    None => { return None; },
                };
                let sack = match req_num(entries, "sack") {
                    Some(x) => x,
                    None => { return None; },
                };
                Some(
                    ScoringSettings {
                        st_ff,
                        pts_allow_7_13,
                        def_st_ff,
                        rec_yd,
                        fum_rec_td,
                        pts_allow_35p,
                        pts_allow_28_34,
                        fum,
                        rush_yd,
                        pass_td,
                        blk_kick,
                        pass_yd,
                        safe,
                        def_td,
                        fgm_50p,
                        def_st_td,
                        fum_rec,
                        rush_2pt,
                        xpm,
                        pts_allow_21_27,
                        fgm_20_29,
                        pts_allow_1_6,
                        fum_lost,
                        def_st_fum_rec,
                        int_,
                        def_kr_td,
                        fgm_0_19,
                        pts_allow_14_20,
                        rec,
                        ff,
                        fgmiss,
                        st_fum_rec,
                        rec_2pt,
                        def_pr_td,
                        rush_td,
                        xpmiss,
                        fgm_30_39,
                        rec_td,
                        st_td,
                        pass_2pt,
                        pts_allow_0,
                        pass_int,
                        fgm_40_49,
                        sack,
                    },
                )
            },
            _ => None,
        }
    }
}

/// A league's configuration knobs, all small integers.
#[derive(Debug, PartialEq, Eq)]
pub struct LeagueSettings {
    pub waiver_type: u8,
    pub waiver_day_of_week: u8,
    pub waiver_clear_days: u8,
    pub waiver_budget: u8,
    pub veto_votes_needed: u8,
    pub veto_show_votes: u8,
    pub veto_auto_poll: u8,
    pub trade_review_days: u8,
    pub trade_deadline: u8,
    pub _type: u8,
    pub taxi_years: u8,
    pub taxi_slots: u8,
    pub taxi_deadline: u8,
    pub taxi_allow_vets: u8,
    pub squads: u8,
    pub start_week: u8,
    pub reserve_slots: u8,
    pub reserve_allow_sus: u8,
    pub reserve_allow_out: u8,
    pub reserve_allow_na: u8,
    pub reserve_allow_doubtful: u8,
    pub reserve_allow_dnr: u8,
    pub reserve_allow_cov: u8,
    pub playoff_week_start: u8,
    pub playoff_type: u8,
    pub playoff_seed_type: u8,
    pub playoff_round_type: u8,
    pub playoff_teams: u8,
    pub pick_trading: u8,
    pub offseason_adds: u8,
    pub num_teams: u8,
    pub max_keepers: u8,
    pub leg: u8,
    pub league_average_match: u8,
    pub last_report: u8,
    pub disable_trades: u8,
    pub disable_adds: u8,
    pub draft_rounds: u8,
    pub daily_waivers_last_ran: u16,
    pub daily_waivers_hour: u32,
    pub daily_waivers_days: u16,
    pub daily_waivers: u8,
    pub commissioner_direct_invite: u8,
    pub capacity_override: u8,
    pub best_ball: u8,
    pub bench_lock: u8,
}

/// The mathematical value of a `LeagueSettings`.
pub ghost struct LeagueSettingsV {
    pub waiver_type: u8,
    pub waiver_day_of_week: u8,
    pub waiver_clear_days: u8,
    pub waiver_budget: u8,
    pub veto_votes_needed: u8,
    pub veto_show_votes: u8,
    pub veto_auto_poll: u8,
    pub trade_review_days: u8,
    pub trade_deadline: u8,
    pub _type: u8,
    pub taxi_years: u8,
    pub taxi_slots: u8,
    pub taxi_deadline: u8,
    pub taxi_allow_vets: u8,
    pub squads: u8,
    pub start_week: u8,
    pub reserve_slots: u8,
    pub reserve_allow_sus: u8,
    pub reserve_allow_out: u8,
    pub reserve_allow_na: u8,
    pub reserve_allow_doubtful: u8,
    pub reserve_allow_dnr: u8,
    pub reserve_allow_cov: u8,
    pub playoff_week_start: u8,
    pub playoff_type: u8,
    pub playoff_seed_type: u8,
    pub playoff_round_type: u8,
    pub playoff_teams: u8,
    pub pick_trading: u8,
    pub offseason_adds: u8,
    pub num_teams: u8,
    pub max_keepers: u8,
    pub leg: u8,
    pub league_average_match: u8,
    pub last_report: u8,
    pub disable_trades: u8,
    pub disable_adds: u8,
    pub draft_rounds: u8,
    pub daily_waivers_last_ran: u16,
    pub daily_waivers_hour: u32,
    pub daily_waivers_days: u16,
    pub daily_waivers: u8,
    pub commissioner_direct_invite: u8,
    pub capacity_override: u8,
    pub best_ball: u8,
    pub bench_lock: u8,
}

impl DeepView for LeagueSettings {
    type V = LeagueSettingsV;

    open spec fn deep_view(&self) -> LeagueSettingsV {
        LeagueSettingsV {
            waiver_type: self.waiver_type,
            waiver_day_of_week: self.waiver_day_of_week,
            waiver_clear_days: self.waiver_clear_days,
            waiver_budget: self.waiver_budget,
            veto_votes_needed: self.veto_votes_needed,
            veto_show_votes: self.veto_show_votes,
            veto_auto_poll: self.veto_auto_poll,
            trade_review_days: self.trade_review_days,
            trade_deadline: self.trade_deadline,
            _type: self._type,
            taxi_years: self.taxi_years,
            taxi_slots: self.taxi_slots,
            taxi_deadline: self.taxi_deadline,
            taxi_allow_vets: self.taxi_allow_vets,
            squads: self.squads,
            start_week: self.start_week,
            reserve_slots: self.reserve_slots,
            reserve_allow_sus: self.reserve_allow_sus,
            reserve_allow_out: self.reserve_allow_out,
            reserve_allow_na: self.reserve_allow_na,
            reserve_allow_doubtful: self.reserve_allow_doubtful,
            reserve_allow_dnr: self.reserve_allow_dnr,
            reserve_allow_cov: self.reserve_allow_cov,
            playoff_week_start: self.playoff_week_start,
            playoff_type: self.playoff_type,
            playoff_seed_type: self.playoff_seed_type,
            playoff_round_type: self.playoff_round_type,
            playoff_teams: self.playoff_teams,
            pick_trading: self.pick_trading,
            offseason_adds: self.offseason_adds,
            num_teams: self.num_teams,
            max_keepers: self.max_keepers,
            leg: self.leg,
            league_average_match: self.league_average_match,
            last_report: self.last_report,
            disable_trades: self.disable_trades,
            disable_adds: self.disable_adds,
            draft_rounds: self.draft_rounds,
            daily_waivers_last_ran: self.daily_waivers_last_ran,
            daily_waivers_hour: self.daily_waivers_hour,
            daily_waivers_days: self.daily_waivers_days,
            daily_waivers: self.daily_waivers,
            commissioner_direct_invite: self.commissioner_direct_invite,
            capacity_override: self.capacity_override,
            best_ball: self.best_ball,
            bench_lock: self.bench_lock,
        }
    }
}

/// The `LeagueSettings` a JSON document describes: an object with every
/// field below in the shape its type asks for; unknown entries are
/// ignored.
pub open spec fn spec_league_settings_of(v: JsonView) -> Option<LeagueSettingsV> {
    match v {
        JsonView::Obj(o) => {
            if spec_req_u8(o, "waiver_type"@) is Some
                && spec_req_u8(o, "waiver_day_of_week"@) is Some
                && spec_req_u8(o, "waiver_clear_days"@) is Some
                && spec_req_u8(o, "waiver_budget"@) is Some
                && spec_req_u8(o, "veto_votes_needed"@) is Some
                && spec_req_u8(o, "veto_show_votes"@) is Some
                && spec_req_u8(o, "veto_auto_poll"@) is Some
                && spec_req_u8(o, "trade_review_days"@) is Some
                && spec_req_u8(o, "trade_deadline"@) is Some
                && spec_req_u8(o, "type"@) is Some
                && spec_req_u8(o, "taxi_years"@) is Some
                && spec_req_u8(o, "taxi_slots"@) is Some
                && spec_req_u8(o, "taxi_deadline"@) is Some
                && spec_req_u8(o, "taxi_allow_vets"@) is Some
                && spec_req_u8(o, "squads"@) is Some
                && spec_req_u8(o, "start_week"@) is Some
                && spec_req_u8(o, "reserve_slots"@) is Some
                && spec_req_u8(o, "reserve_allow_sus"@) is Some
                && spec_req_u8(o, "reserve_allow_out"@) is Some
                && spec_req_u8(o, "reserve_allow_na"@) is Some
                && spec_req_u8(o, "reserve_allow_doubtful"@) is Some
                && spec_req_u8(o, "reserve_allow_dnr"@) is Some
                && spec_req_u8(o, "reserve_allow_cov"@) is Some
                && spec_req_u8(o, "playoff_week_start"@) is Some
                && spec_req_u8(o, "playoff_type"@) is Some
                && spec_req_u8(o, "playoff_seed_type"@) is Some
                && spec_req_u8(o, "playoff_round_type"@) is Some
                && spec_req_u8(o, "playoff_teams"@) is Some
                && spec_req_u8(o, "pick_trading"@) is Some
                && spec_req_u8(o, "offseason_adds"@) is Some
                && spec_req_u8(o, "num_teams"@) is Some
                && spec_req_u8(o, "max_keepers"@) is Some
                && spec_req_u8(o, "leg"@) is Some
                && spec_req_u8(o, "league_average_match"@) is Some
                && spec_req_u8(o, "last_report"@) is Some
                && spec_req_u8(o, "disable_trades"@) is Some
                && spec_req_u8(o, "disable_adds"@) is Some
                && spec_req_u8(o, "draft_rounds"@) is Some
                && spec_req_u16(o, "daily_waivers_last_ran"@) is Some
                && spec_req_u32(o, "daily_waivers_hour"@) is Some
                && spec_req_u16(o, "daily_waivers_days"@) is Some
                && spec_req_u8(o, "daily_waivers"@) is Some
                && spec_req_u8(o, "commissioner_direct_invite"@) is Some
                && spec_req_u8(o, "capacity_override"@) is Some
                && spec_req_u8(o, "best_ball"@) is Some
                && spec_req_u8(o, "bench_lock"@) is Some {
                Some(
                    LeagueSettingsV {
                        waiver_type: spec_req_u8(o, "waiver_type"@)->Some_0,
                        waiver_day_of_week: spec_req_u8(o, "waiver_day_of_week"@)->Some_0,
                        waiver_clear_days: spec_req_u8(o, "waiver_clear_days"@)->Some_0,
                        waiver_budget: spec_req_u8(o, "waiver_budget"@)->Some_0,
                        veto_votes_needed: spec_req_u8(o, "veto_votes_needed"@)->Some_0,
                        veto_show_votes: spec_req_u8(o, "veto_show_votes"@)->Some_0,
                        veto_auto_poll: spec_req_u8(o, "veto_auto_poll"@)->Some_0,
                        trade_review_days: spec_req_u8(o, "trade_review_days"@)->Some_0,
                        trade_deadline: spec_req_u8(o, "trade_deadline"@)->Some_0,
                        _type: spec_req_u8(o, "type"@)->Some_0,
                        taxi_years: spec_req_u8(o, "taxi_years"@)->Some_0,
                        taxi_slots: spec_req_u8(o, "taxi_slots"@)->Some_0,
                        taxi_deadline: spec_req_u8(o, "taxi_deadline"@)->Some_0,
                        taxi_allow_vets: spec_req_u8(o, "taxi_allow_vets"@)->Some_0,
                        squads: spec_req_u8(o, "squads"@)->Some_0,
                        start_week: spec_req_u8(o, "start_week"@)->Some_0,
                        reserve_slots: spec_req_u8(o, "reserve_slots"@)->Some_0,
                        reserve_allow_sus: spec_req_u8(o, "reserve_allow_sus"@)->Some_0,
                        reserve_allow_out: spec_req_u8(o, "reserve_allow_out"@)->Some_0,
                        reserve_allow_na: spec_req_u8(o, "reserve_allow_na"@)->Some_0,
                        reserve_allow_doubtful: spec_req_u8(o, "reserve_allow_doubtful"@)->Some_0,
                        reserve_allow_dnr: spec_req_u8(o, "reserve_allow_dnr"@)->Some_0,
                        reserve_allow_cov: spec_req_u8(o, "reserve_allow_cov"@)->Some_0,
                        playoff_week_start: spec_req_u8(o, "playoff_week_start"@)->Some_0,
                        playoff_type: spec_req_u8(o, "playoff_type"@)->Some_0,
                        playoff_seed_type: spec_req_u8(o, "playoff_seed_type"@)->Some_0,
                        playoff_round_type: spec_req_u8(o, "playoff_round_type"@)->Some_0,
                        playoff_teams: spec_req_u8(o, "playoff_teams"@)->Some_0,
                        pick_trading: spec_req_u8(o, "pick_trading"@)->Some_0,
                        offseason_adds: spec_req_u8(o, "offseason_adds"@)->Some_0,
                        num_teams: spec_req_u8(o, "num_teams"@)->Some_0,
                        max_keepers: spec_req_u8(o, "max_keepers"@)->Some_0,
                        leg: spec_req_u8(o, "leg"@)->Some_0,
                        league_average_match: spec_req_u8(o, "league_average_match"@)->Some_0,
                        last_report: spec_req_u8(o, "last_report"@)->Some_0,
                        disable_trades: spec_req_u8(o, "disable_trades"@)->Some_0,
                        disable_adds: spec_req_u8(o, "disable_adds"@)->Some_0,
                        draft_rounds: spec_req_u8(o, "draft_rounds"@)->Some_0,
                        daily_waivers_last_ran: spec_req_u16(o, "daily_waivers_last_ran"@)->Some_0,
                        daily_waivers_hour: spec_req_u32(o, "daily_waivers_hour"@)->Some_0,
                        daily_waivers_days: spec_req_u16(o, "daily_waivers_days"@)->Some_0,
                        daily_waivers: spec_req_u8(o, "daily_waivers"@)->Some_0,
                        commissioner_direct_invite: spec_req_u8(o, "commissioner_direct_invite"@)->Some_0,
                        capacity_override: spec_req_u8(o, "capacity_override"@)->Some_0,
                        best_ball: spec_req_u8(o, "best_ball"@)->Some_0,
                        bench_lock: spec_req_u8(o, "bench_lock"@)->Some_0,
                    },
                )
            } else {
                None
            }
        },
        _ => None,
    }
}

impl LeagueSettings {
    /// Decodes a `LeagueSettings` from a JSON document, exactly when the
    /// document has the shape the specification above asks for.
    pub fn from_json(v: &JsonValue) -> (r: Option<LeagueSettings>)
        ensures
            r.deep_view() == spec_league_settings_of(v.deep_view()),
    {
        match v {
            JsonValue::Obj(entries) => {
                let waiver_type = match req_u8(entries, "waiver_type") {
                    Some(x) => x,
                    None => { return None; },
                };
                let waiver_day_of_week = match req_u8(entries, "waiver_day_of_week") {
                    Some(x) => x,
                    None => { return None; },
                };
                let waiver_clear_days = match req_u8(entries, "waiver_clear_days") {
                    Some(x) => x,
                    None => { return None; },
                };
                let waiver_budget = match req_u8(entries, "waiver_budget") {
                    Some(x) => x,
                    None => { return None; },
                };
                let veto_votes_needed = match req_u8(entries, "veto_votes_needed") {
                    Some(x) => x,
                    None => { return None; },
                };
                let veto_show_votes = match req_u8(entries, "veto_show_votes") {
                    Some(x) => x,
                    None => { return None; },
                };
                let veto_auto_poll = match req_u8(entries, "veto_auto_poll") {
                    Some(x) => x,
                    None => { return None; },
                };
                let trade_review_days = match req_u8(entries, "trade_review_days") {
                    Some(x) => x,
                    None => { return None; },
                };
                let trade_deadline = match req_u8(entries, "trade_deadline") {
                    Some(x) => x,
                    None => { return None; },
                };
                let _type = match req_u8(entries, "type") {
                    Some(x) => x,
                    None => { return None; },
                };
                let taxi_years = match req_u8(entries, "taxi_years") {
                    Some(x) => x,
                    None => { return None; },
                };
                let taxi_slots = match req_u8(entries, "taxi_slots") {
                    Some(x) => x,
                    None => { return None; },
                };
                let taxi_deadline = match req_u8(entries, "taxi_deadline") {
                    Some(x) => x,
                    None => { return None; },
                };
                let taxi_allow_vets = match req_u8(entries, "taxi_allow_vets") {
                    Some(x) => x,
                    None => { return None; },
                };
                let squads = match req_u8(entries, "squads") {
                    Some(x) => x,
                    None => { return None; },
                };
                let start_week = match req_u8(entries, "start_week") {
                    Some(x) => x,
                    None => { return None; },
                };
                let reserve_slots = match req_u8(entries, "reserve_slots") {
                    Some(x) => x,
                    None => { return None; },
                };
                let reserve_allow_sus = match req_u8(entries, "reserve_allow_sus") {
                    Some(x) => x,
                    None => { return None; },
                };
                let reserve_allow_out = match req_u8(entries, "reserve_allow_out") {
                    Some(x) => x,
                    None => { return None; },
                };
                let reserve_allow_na = match req_u8(entries, "reserve_allow_na") {
                    Some(x) => x,
                    None => { return None; },
                };
                let reserve_allow_doubtful = match req_u8(entries, "reserve_allow_doubtful") {
                    Some(x) => x,
                    None => { return None; },
                };
                let reserve_allow_dnr = match req_u8(entries, "reserve_allow_dnr") {
                    Some(x) => x,
                    None => { return None; },
                };
                let reserve_allow_cov = match req_u8(entries, "reserve_allow_cov") {
                    Some(x) => x,
                    None => { return None; },
                };
                let playoff_week_start = match req_u8(entries, "playoff_week_start") {
                    Some(x) => x,
                    None => { return None; },
                };
                let playoff_type = match req_u8(entries, "playoff_type") {
                    Some(x) => x,
                    None => { return None; },
                };
                let playoff_seed_type = match req_u8(entries, "playoff_seed_type") {
                    Some(x) => x,
                    None => { return None; },
                };
                let playoff_round_type = match req_u8(entries, "playoff_round_type") {
                    Some(x) => x,
                    None => { return None; },
                };
                let playoff_teams = match req_u8(entries, "playoff_teams") {
                    Some(x) => x,
                    None => { return None; },
                };
                let pick_trading = match req_u8(entries, "pick_trading") {
                    Some(x) => x,
                    None => { return None; },
                };
                let offseason_adds = match req_u8(entries, "offseason_adds") {
                    Some(x) => x,
                    None => { return None; },
                };
                let num_teams = match req_u8(entries, "num_teams") {
                    Some(x) => x,
                    None => { return None; },
                };
                let max_keepers = match req_u8(entries, "max_keepers") {
                    Some(x) => x,
                    None => { return None; },
                };
                let leg = match req_u8(entries, "leg") {
                    Some(x) => x,
                    None => { return None; },
                };
                let league_average_match = match req_u8(entries, "league_average_match") {
                    Some(x) => x,
                    None => { return None; },
                };
                let last_report = match req_u8(entries, "last_report") {
                    Some(x) => x,
                    None => { return None; },
                };
                let disable_trades = match req_u8(entries, "disable_trades") {
                    Some(x) => x,
                    None => { return None; },
                };
                let disable_adds = match req_u8(entries, "disable_adds") {
                    Some(x) => x,
                    None => { return None; },
                };
                let draft_rounds = match req_u8(entries, "draft_rounds") {
                    Some(x) => x,
                    None => { return None; },
                };
                let daily_waivers_last_ran = match req_u16(entries, "daily_waivers_last_ran") {
                    Some(x) => x,
                    None => { return None; },
                };
                let daily_waivers_hour = match req_u32(entries, "daily_waivers_hour") {
                    Some(x) => x,
                    None => { return None; },
                };
                let daily_waivers_days = match req_u16(entries, "daily_waivers_days") {
                    Some(x) => x,
                    None => { return None; },
                };
                let daily_waivers = match req_u8(entries, "daily_waivers") {
                    Some(x) => x,
                    None => { return None; },
                };
                let commissioner_direct_invite = match req_u8(entries, "commissioner_direct_invite") {
                    Some(x) => x,
                    None => { return None; },
                };
                let capacity_override = match req_u8(entries, "capacity_override") {
                    Some(x) => x,
                    None => { return None; },
                };
                let best_ball = match req_u8(entries, "best_ball") {
                    Some(x) => x,
                    None => { return None; },
                };
                let bench_lock = match req_u8(entries, "bench_lock") {
                    Some(x) => x,
                    None => { return None; },
                };
                Some(
                    LeagueSettings {
                        waiver_type,
                        waiver_day_of_week,
                        waiver_clear_days,
                        waiver_budget,
                        veto_votes_needed,
                        veto_show_votes,
                        veto_auto_poll,
                        trade_review_days,
                        trade_deadline,
                        _type,
                        taxi_years,
                        taxi_slots,
                        taxi_deadline,
                        taxi_allow_vets,
                        squads,
                        start_week,
                        reserve_slots,
                        reserve_allow_sus,
                        reserve_allow_out,
                        reserve_allow_na,
                        reserve_allow_doubtful,
                        reserve_allow_dnr,
                        reserve_allow_cov,
                        playoff_week_start,
                        playoff_type,
                        playoff_seed_type,
                        playoff_round_type,
                        playoff_teams,
                        pick_trading,
                        offseason_adds,
                        num_teams,
                        max_keepers,
                        leg,
                        league_average_match,
                        last_report,
                        disable_trades,
                        disable_adds,
                        draft_rounds,
                        daily_waivers_last_ran,
                        daily_waivers_hour,
                        daily_waivers_days,
                        daily_waivers,
                        commissioner_direct_invite,
                        capacity_override,
                        best_ball,
                        bench_lock,
                    },
                )
            },
            _ => None,
        }
    }
}

/// One fantasy competition instance for a season: configuration,
/// scoring rules, roster layout, and messaging metadata.
#[derive(Debug, PartialEq, Eq)]
pub struct League {
    pub total_rosters: u8,
    pub status: String,
    pub sport: String,
    pub shard: u32,
    pub settings: LeagueSettings,
    pub season_type: String,
    pub season: String,
    pub scoring_settings: ScoringSettings,
    pub roster_positions: Vec<RosterPosition>,
    pub previous_league_id: String,
    pub name: String,
    pub metadata: Option<Vec<(String, Option<String>)>>,
    pub loser_bracket_id: Option<u64>,
    pub league_id: String,
    pub last_transation_id: Option<String>,
    pub last_read_id: Option<String>,
    pub last_pinned_message_id: Option<String>,
    pub last_message_time: u64,
    pub last_message_text_mape: Option<String>,
    pub last_message_id: Option<String>,
    pub last_message_attachment: Option<String>,
    pub last_author_is_bot: Option<bool>,
    pub last_author_id: Option<String>,
    pub last_author_display_name: Option<String>,
    pub last_author_avatar: Option<String>,
    pub group_id: Option<String>,
    pub draft_id: Option<String>,
    pub company_id: Option<String>,
    pub bracket_id: Option<u64>,
    pub avatar: String,
}

/// The mathematical value of a `League`.
pub ghost struct LeagueV {
    pub total_rosters: u8,
    pub status: Seq<char>,
    pub sport: Seq<char>,
    pub shard: u32,
    pub settings: LeagueSettingsV,
    pub season_type: Seq<char>,
    pub season: Seq<char>,
    pub scoring_settings: ScoringSettingsV,
    pub roster_positions: Seq<RosterPosition>,
    pub previous_league_id: Seq<char>,
    pub name: Seq<char>,
    pub metadata: Option<Seq<(Seq<char>, Option<Seq<char>>)>>,
    pub loser_bracket_id: Option<u64>,
    pub league_id: Seq<char>,
    pub last_transation_id: Option<Seq<char>>,
    pub last_read_id: Option<Seq<char>>,
    pub last_pinned_message_id: Option<Seq<char>>,
    pub last_message_time: u64,
    pub last_message_text_mape: Option<Seq<char>>,
    pub last_message_id: Option<Seq<char>>,
    pub last_message_attachment: Option<Seq<char>>,
    pub last_author_is_bot: Option<bool>,
    pub last_author_id: Option<Seq<char>>,
    pub last_author_display_name: Option<Seq<char>>,
    pub last_author_avatar: Option<Seq<char>>,
    pub group_id: Option<Seq<char>>,
    pub draft_id: Option<Seq<char>>,
    pub company_id: Option<Seq<char>>,
    pub bracket_id: Option<u64>,
    pub avatar: Seq<char>,
}

impl DeepView for League {
    type V = LeagueV;

    open spec fn deep_view(&self) -> LeagueV {
        LeagueV {
            total_rosters: self.total_rosters,
            status: self.status@,
            sport: self.sport@,
            shard: self.shard,
            settings: self.settings.deep_view(),
            season_type: self.season_type@,
            season: self.season@,
            scoring_settings: self.scoring_settings.deep_view(),
            roster_positions: self.roster_positions.deep_view(),
            previous_league_id: self.previous_league_id@,
            name: self.name@,
            metadata: self.metadata.deep_view(),
            loser_bracket_id: self.loser_bracket_id,
            league_id: self.league_id@,
            last_transation_id: self.last_transation_id.deep_view(),
            last_read_id: self.last_read_id.deep_view(),
            last_pinned_message_id: self.last_pinned_message_id.deep_view(),
            last_message_time: self.last_message_time,
            last_message_text_mape: self.last_message_text_mape.deep_view(),
            last_message_id: self.last_message_id.deep_view(),
            last_message_attachment: self.last_message_attachment.deep_view(),
            last_author_is_bot: self.last_author_is_bot,
            last_author_id: self.last_author_id.deep_view(),
            last_author_display_name: self.last_author_display_name.deep_view(),
            last_author_avatar: self.last_author_avatar.deep_view(),
            group_id: self.group_id.deep_view(),
            draft_id: self.draft_id.deep_view(),
            company_id: self.company_id.deep_view(),
            bracket_id: self.bracket_id,
            avatar: self.avatar@,
        }
    }
}

/// The `League` a JSON document describes: an object with every
/// field below in the shape its type asks for; unknown entries are
/// ignored.
pub open spec fn spec_league_of(v: JsonView) -> Option<LeagueV> {
    match v {
        JsonView::Obj(o) => {
            if spec_req_u8(o, "total_rosters"@) is Some
                && spec_req_string(o, "status"@) is Some
                && spec_req_string(o, "sport"@) is Some
                && spec_req_u32(o, "shard"@) is Some
                && spec_field_settings(o) is Some
                && spec_req_string(o, "season_type"@) is Some
                && spec_req_string(o, "season"@) is Some
                && spec_field_scoring_settings(o) is Some
                && spec_req_positions(o, "roster_positions"@) is Some
                && spec_req_string(o, "previous_league_id"@) is Some
                && spec_req_string(o, "name"@) is Some
                && spec_opt_optstr_map(o, "metadata"@) is Some
                && spec_opt_u64(o, "loser_bracket_id"@) is Some
                && spec_req_string(o, "league_id"@) is Some
                && spec_opt_string(o, "last_transation_id"@) is Some
                && spec_opt_string(o, "last_read_id"@) is Some
                && spec_opt_string(o, "last_pinned_message_id"@) is Some
                && spec_req_u64(o, "last_message_time"@) is Some
                && spec_opt_string(o, "last_message_text_mape"@) is Some
                && spec_opt_string(o, "last_message_id"@) is Some
                && spec_opt_string(o, "last_message_attachment"@) is Some
                && spec_opt_bool(o, "last_author_is_bot"@) is Some
                && spec_opt_string(o, "last_author_id"@) is Some
                && spec_opt_string(o, "last_author_display_name"@) is Some
                && spec_opt_string(o, "last_author_avatar"@) is Some
                && spec_opt_string(o, "group_id"@) is Some
                && spec_opt_string(o, "draft_id"@) is Some
                && spec_opt_string(o, "company_id"@) is Some
                && spec_opt_u64(o, "bracket_id"@) is Some
                && spec_req_string(o, "avatar"@) is Some {
                Some(
                    LeagueV {
                        total_rosters: spec_req_u8(o, "total_rosters"@)->Some_0,
                        status: spec_req_string(o, "status"@)->Some_0,
                        sport: spec_req_string(o, "sport"@)->Some_0,
                        shard: spec_req_u32(o, "shard"@)->Some_0,
                        settings: spec_field_settings(o)->Some_0,
                        season_type: spec_req_string(o, "season_type"@)->Some_0,
                        season: spec_req_string(o, "season"@)->Some_0,
                        scoring_settings: spec_field_scoring_settings(o)->Some_0,
                        roster_positions: spec_req_positions(o, "roster_positions"@)->Some_0,
                        previous_league_id: spec_req_string(o, "previous_league_id"@)->Some_0,
                        name: spec_req_string(o, "name"@)->Some_0,
                        metadata: spec_opt_optstr_map(o, "metadata"@)->Some_0,
                        loser_bracket_id: spec_opt_u64(o, "loser_bracket_id"@)->Some_0,
                        league_id: spec_req_string(o, "league_id"@)->Some_0,
                        last_transation_id: spec_opt_string(o, "last_transation_id"@)->Some_0,
                        last_read_id: spec_opt_string(o, "last_read_id"@)->Some_0,
                        last_pinned_message_id: spec_opt_string(o, "last_pinned_message_id"@)->Some_0,
                        last_message_time: spec_req_u64(o, "last_message_time"@)->Some_0,
                        last_message_text_mape: spec_opt_string(o, "last_message_text_mape"@)->Some_0,
                        last_message_id: spec_opt_string(o, "last_message_id"@)->Some_0,
                        last_message_attachment: spec_opt_string(o, "last_message_attachment"@)->Some_0,
                        last_author_is_bot: spec_opt_bool(o, "last_author_is_bot"@)->Some_0,
                        last_author_id: spec_opt_string(o, "last_author_id"@)->Some_0,
                        last_author_display_name: spec_opt_string(o, "last_author_display_name"@)->Some_0,
                        last_author_avatar: spec_opt_string(o, "last_author_avatar"@)->Some_0,
                        group_id: spec_opt_string(o, "group_id"@)->Some_0,
                        draft_id: spec_opt_string(o, "draft_id"@)->Some_0,
                        company_id: spec_opt_string(o, "company_id"@)->Some_0,
                        bracket_id: spec_opt_u64(o, "bracket_id"@)->Some_0,
                        avatar: spec_req_string(o, "avatar"@)->Some_0,
                    },
                )
            } else {
                None
            }
        },
        _ => None,
    }
}

/// The nested `LeagueSettings` object of the entry `settings`.
pub open spec fn spec_field_settings(o: Seq<(Seq<char>, JsonView)>) -> Option<LeagueSettingsV> {
    match spec_get(o, "settings"@) {
        Some(sv) => spec_league_settings_of(sv),
        None => None,
    }
}

/// The nested `ScoringSettings` object of the entry `scoring_settings`.
pub open spec fn spec_field_scoring_settings(o: Seq<(Seq<char>, JsonView)>) -> Option<ScoringSettingsV> {
    match spec_get(o, "scoring_settings"@) {
        Some(sv) => spec_scoring_settings_of(sv),
        None => None,
    }
}

impl League {
    /// Decodes a `League` from a JSON document, exactly when the
    /// document has the shape the specification above asks for.
    pub fn from_json(v: &JsonValue) -> (r: Option<League>)
        ensures
            r.deep_view() == spec_league_of(v.deep_view()),
    {
        match v {
            JsonValue::Obj(entries) => {
                let total_rosters = match req_u8(entries, "total_rosters") {
                    Some(x) => x,
                    None => { return None; },
                };
                let status = match req_string(entries, "status") {
                    Some(x) => x,
                    None => { return None; },
                };
                let sport = match req_string(entries, "sport") {
                    Some(x) => x,
                    None => { return None; },
                };
                let shard = match req_u32(entries, "shard") {
                    Some(x) => x,
                    None => { return None; },
                };
                let settings = match get_field(entries, "settings") {
                    Some(sv) => match LeagueSettings::from_json(sv) {
                        Some(x) => x,
                        None => { return None; },
                    },
                    None => { return None; },
                };
                let season_type = match req_string(entries, "season_type") {
                    Some(x) => x,
                    None => { return None; },
                };
                let season = match req_string(entries, "season") {
                    Some(x) => x,
                    None => { return None; },
                };
                let scoring_settings = match get_field(entries, "scoring_settings") {
                    Some(sv) => match ScoringSettings::from_json(sv) {
                        Some(x) => x,
                        None => { return None; },
                    },
                    None => { return None; },
                };
                let roster_positions = match req_positions(entries, "roster_positions") {
                    Some(x) => x,
                    None => { return None; },
                };
                let previous_league_id = match req_string(entries, "previous_league_id") {
                    Some(x) => x,
                    None => { return None; },
                };
                let name = match req_string(entries, "name") {
                    Some(x) => x,
                    None => { return None; },
                };
                let metadata = match opt_optstr_map(entries, "metadata") {
                    Some(x) => x,
                    None => { return None; },
                };
                let loser_bracket_id = match opt_u64(entries, "loser_bracket_id") {
                    Some(x) => x,
                    None => { return None; },
                };
                let league_id = match req_string(entries, "league_id") {
                    Some(x) => x,
                    None => { return None; },
                };
                let last_transation_id = match opt_string(entries, "last_transation_id") {
                    Some(x) => x,
                    None => { return None; },
                };
                let last_read_id = match opt_string(entries, "last_read_id") {
                    Some(x) => x,
                    None => { return None; },
                };
                let last_pinned_message_id = match opt_string(entries, "last_pinned_message_id") {
                    Some(x) => x,
                    None => { return None; },
                };
                let last_message_time = match req_u64(entries, "last_message_time") {
                    Some(x) => x,
                    None => { return None; },
                };
                let last_message_text_mape = match opt_string(entries, "last_message_text_mape") {
                    Some(x) => x,
                    None => { return None; },
                };
                let last_message_id = match opt_string(entries, "last_message_id") {
                    Some(x) => x,
                    None => { return None; },
                };
                let last_message_attachment = match opt_string(entries, "last_message_attachment") {
                    Some(x) => x,
                    None => { return None; },
                };
                let last_author_is_bot = match opt_bool(entries, "last_author_is_bot") {
                    Some(x) => x,
                    None => { return None; },
                };
                let last_author_id = match opt_string(entries, "last_author_id") {
                    Some(x) => x,
                    None => { return None; },
                };
                let last_author_display_name = match opt_string(entries, "last_author_display_name") {
                    Some(x) => x,
                    None => { return None; },
                };
                let last_author_avatar = match opt_string(entries, "last_author_avatar") {
                    Some(x) => x,
                    None => { return None; },
                };
                let group_id = match opt_string(entries, "group_id") {
                    Some(x) => x,
                    None => { return None; },
                };
                let draft_id = match opt_string(entries, "draft_id") {
                    Some(x) => x,
                    None => { return None; },
                };
                let company_id = match opt_string(entries, "company_id") {
                    Some(x) => x,
                    None => { return None; },
                };
                let bracket_id = match opt_u64(entries, "bracket_id") {
                    Some(x) => x,
                    None => { return None; },
                };
                let avatar = match req_string(entries, "avatar") {
                    Some(x) => x,
                    None => { return None; },
                };
                Some(
                    League {
                        total_rosters,
                        status,
                        sport,
                        shard,
                        settings,
                        season_type,
                        season,
                        scoring_settings,
                        roster_positions,
                        previous_league_id,
                        name,
                        metadata,
                        loser_bracket_id,
                        league_id,
                        last_transation_id,
                        last_read_id,
                        last_pinned_message_id,
                        last_message_time,
                        last_message_text_mape,
                        last_message_id,
                        last_message_attachment,
                        last_author_is_bot,
                        last_author_id,
                        last_author_display_name,
                        last_author_avatar,
                        group_id,
                        draft_id,
                        company_id,
                        bracket_id,
                        avatar,
                    },
                )
            },
            _ => None,
        }
    }
}

} // verus!
