//! Types for the *m.room.join_rules* event.

use vstd::prelude::*;
use crate::error::InvalidInput;
use crate::json::{obj_lookup, obj_push, str_eq, JsonValue, JVal};

verus! {

/// The rule used for users wishing to join this room.
#[derive(Clone, Copy, Debug, PartialEq, Eq, Structural)]
pub enum JoinRule {
    /// A user who wishes to join the room must first receive an invite to
    /// the room from someone already inside of the room.
    Invite,
    /// Reserved but not yet implemented by the protocol.
    Knock,
    /// Reserved but not yet implemented by the protocol.
    Private,
    /// Anyone can join the room without any prior action.
    Public,
}

/// The wire name of each join rule.
pub open spec fn join_rule_name(r: JoinRule) -> Seq<char> {
    match r {
        JoinRule::Invite => "invite"@,
        JoinRule::Knock => "knock"@,
        JoinRule::Private => "private"@,
        JoinRule::Public => "public"@,
    }
}

/// The rule a wire name denotes, if any; lookup is exact and
/// case-sensitive.
pub open spec fn spec_parse_join_rule(s: Seq<char>) -> Option<JoinRule> {
    if s == "invite"@ {
        Some(JoinRule::Invite)
    } else if s == "knock"@ {
        Some(JoinRule::Knock)
    } else if s == "private"@ {
        Some(JoinRule::Private)
    } else if s == "public"@ {
        Some(JoinRule::Public)
    } else {
        None
    }
}

/// Decoding a join-rules content: the `join_rule` field must be a string
/// naming a known rule.
pub open spec fn spec_decode_join_rules(j: JVal) -> Result<JoinRule, InvalidInput> {
    match j {
        JVal::Obj(fields) => match obj_lookup(fields, "join_rule"@) {
            Some(JVal::Str(s)) => match spec_parse_join_rule(s) {
                Some(r) => Ok(r),
                None => Err(InvalidInput::UnknownJoinRule),
            },
            Some(_) => Err(InvalidInput::BadJoinRuleField),
            None => Err(InvalidInput::BadJoinRuleField),
        },
        _ => Err(InvalidInput::NotAnObject),
    }
}

/// The serialized form of a join-rules content.
pub open spec fn spec_serialize_join_rules(r: JoinRule) -> JVal {
    JVal::Obj(seq![("join_rule"@, JVal::Str(join_rule_name(r)))])
}

impl JoinRule {
    /// The wire name of this rule.
    pub fn as_str(&self) -> (r: &str)
        ensures
            r@ == join_rule_name(*self),
    {
        match self {
            JoinRule::Invite => "invite",
            JoinRule::Knock => "knock",
            JoinRule::Private => "private",
            JoinRule::Public => "public",
        }
    }

    /// The rule a wire name denotes, if any.
    pub fn parse(s: &str) -> (r: Option<JoinRule>)
        ensures
            r == spec_parse_join_rule(s@),
    {
        if str_eq(s, "invite") {
            Some(JoinRule::Invite)
        } else if str_eq(s, "knock") {
            Some(JoinRule::Knock)
        } else if str_eq(s, "private") {
            Some(JoinRule::Private)
        } else if str_eq(s, "public") {
            Some(JoinRule::Public)
        } else {
            None
        }
    }
}

/// The wire name of each rule parses back to that rule.
pub proof fn lemma_join_rule_names(r: JoinRule)
    ensures
        spec_parse_join_rule(join_rule_name(r)) == Some(r),
{
    reveal_strlit("invite");
    reveal_strlit("knock");
    reveal_strlit("private");
    reveal_strlit("public");
    assert("invite"@.len() == 6);
    assert("knock"@.len() == 5);
    assert("private"@.len() == 7);
    assert("public"@.len() == 6);
    assert("invite"@[0] == 'i');
    assert("public"@[0] == 'p');
}

/// A join-rules content decodes back from its serialized object
/// unchanged.
pub proof fn lemma_join_rules_round_trip(r: JoinRule)
    ensures
        spec_serialize_join_rules(r) is Obj,
        spec_decode_join_rules(spec_serialize_join_rules(r)) == Ok::<_, InvalidInput>(r),
{
    lemma_join_rule_names(r);
    assert(obj_lookup(seq![("join_rule"@, JVal::Str(join_rule_name(r)))], "join_rule"@) == Some(
        JVal::Str(join_rule_name(r)),
    ));
}

/// The payload for a join-rules event.
pub struct JoinRulesEventContent {
    /// The type of rules used for users wishing to join this room.
    pub join_rule: JoinRule,
}

impl View for JoinRulesEventContent {
    type V = JoinRule;

    open spec fn view(&self) -> JoinRule {
        self.join_rule
    }
}

impl JoinRulesEventContent {
    /// Decode a join-rules content from a JSON value.
    pub fn from_json(v: &JsonValue) -> (r: Result<JoinRulesEventContent, InvalidInput>)
        ensures
            match spec_decode_join_rules(v@) {
                Ok(rule) => r matches Ok(c) && c@ == rule,
                Err(e) => r matches Err(e2) && e2 == e,
            },
    {
        match v.get("join_rule") {
            Some(JsonValue::Str(s)) => match JoinRule::parse(s.as_str()) {
                Some(rule) => Ok(JoinRulesEventContent { join_rule: rule }),
                None => Err(InvalidInput::UnknownJoinRule),
            },
            Some(_) => Err(InvalidInput::BadJoinRuleField),
            None => {
                if matches!(v, JsonValue::Obj(_)) {
                    Err(InvalidInput::BadJoinRuleField)
                } else {
                    Err(InvalidInput::NotAnObject)
                }
            },
        }
    }

    /// Serialize this content back to its wire object.
    pub fn to_json(&self) -> (v: JsonValue)
        ensures
            v@ == spec_serialize_join_rules(self@),
    {
        let mut fields: Vec<(String, JsonValue)> = Vec::new();
        let ghost empty = crate::json::view_obj(fields@);
        obj_push(&mut fields, "join_rule", JsonValue::Str(self.join_rule.as_str().to_owned()));
        proof {
            assert(empty =~= Seq::empty());
            assert(crate::json::view_obj(fields@) =~= seq![
                ("join_rule"@, JVal::Str(join_rule_name(self.join_rule))),
            ]);
        }
        JsonValue::Obj(fields)
    }
}

} // verus!
