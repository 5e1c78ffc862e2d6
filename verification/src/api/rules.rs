//! Rules of automatic approval. A change replaces them all.

use vstd::prelude::*;

use crate::error::ApiError;
use crate::protocol::api::{NewRule, PutRulesRequest};
use crate::text;

verus! {

/// Whether a rule can be made for a tool: one that changes something.
pub open spec fn ruled(tool: Seq<char>) -> bool {
    tool == "run_shell"@ || tool == "write_file"@ || tool == "edit_file"@
}

/// Whether a rule is acceptable.
pub open spec fn acceptable(rule: NewRule) -> bool {
    ruled(rule.tool@) && rule.pattern@.len() > 0 && rule.workspace_path@.len() > 0
}

/// The field of a rule, by its position.
pub open spec fn field_of(i: nat) -> Seq<char> {
    "rules["@ + text::decimal(i) + "]"@
}

/// Whether an error says what is wrong with a rule.
pub open spec fn blames(e: ApiError, rule: NewRule, i: nat) -> bool {
    if !ruled(rule.tool@) {
        e.is_field_error(
            field_of(i) + ".tool debe ser una herramienta con efectos secundarios: "@
                + "[\"run_shell\", \"write_file\", \"edit_file\"]"@,
            field_of(i) + ".tool"@,
        )
    } else {
        e.is_field_error(
            field_of(i) + ": pattern y workspace_path son obligatorios"@,
            field_of(i),
        )
    }
}

/// What a set of rules comes to: it goes through, or the first rule that is not
/// acceptable is blamed.
pub open spec fn judges(rules: Seq<NewRule>, r: Result<(), ApiError>) -> bool {
    match r {
        Ok(()) => forall|i: int|
            0 <= i < rules.len() ==> acceptable(#[trigger] rules[i]),
        Err(e) => exists|i: int|
            #![trigger rules[i]]
            0 <= i < rules.len() && !acceptable(rules[i]) && blames(
                e,
                rules[i],
                i as nat,
            ) && forall|k: int| 0 <= k < i ==> acceptable(#[trigger] rules[k]),
    }
}

/// Lets a set of rules through, or says what is wrong with the first that is
/// not acceptable.
pub fn put_rules(req: &PutRulesRequest) -> (r: Result<(), ApiError>)
    ensures
        judges(req.rules@, r),
{
    let mut i: usize = 0;
    while i < req.rules.len()
        invariant
            i <= req.rules.len(),
            forall|k: int| 0 <= k < i ==> acceptable(#[trigger] req.rules@[k]),
        decreases req.rules.len() - i,
    {
        let rule = &req.rules[i];
        let tool = rule.tool.as_str();
        let allowed = text::same(tool, "run_shell") || text::same(tool, "write_file")
            || text::same(tool, "edit_file");
        let field = text::join3("rules[", text::number(i as u64).as_str(), "]");
        if !allowed {
            let message = text::join3(
                field.as_str(),
                ".tool debe ser una herramienta con efectos secundarios: ",
                "[\"run_shell\", \"write_file\", \"edit_file\"]",
            );
            assert(!acceptable(req.rules@[i as int]));
            return Err(
                ApiError::field(message.as_str(), text::join2(field.as_str(), ".tool").as_str()),
            );
        }
        if rule.pattern.as_str().is_empty() || rule.workspace_path.as_str().is_empty() {
            let message = text::join2(
                field.as_str(),
                ": pattern y workspace_path son obligatorios",
            );
            assert(!acceptable(req.rules@[i as int]));
            return Err(ApiError::field(message.as_str(), field.as_str()));
        }
        assert(acceptable(req.rules@[i as int]));
        i += 1;
    }
    Ok(())
}

/// Law: a set of rules goes through exactly when each of them is for one of the
/// three tools that change something and has a pattern and a workspace. A set
/// that does not is refused as a failed validation, in which the position of
/// the first rule at fault is named.
pub proof fn law_rules_go_through_iff(rules: Seq<NewRule>, r: Result<(), ApiError>)
    requires
        judges(rules, r),
    ensures
        r is Ok <==> forall|i: int|
            #![trigger rules[i]]
            0 <= i < rules.len() ==> {
                &&& rules[i].tool@ == "run_shell"@ || rules[i].tool@ == "write_file"@
                    || rules[i].tool@ == "edit_file"@
                &&& rules[i].pattern@.len() > 0
                &&& rules[i].workspace_path@.len() > 0
            },
        r matches Err(e) ==> e.status == 422 && exists|i: int|
            #![trigger rules[i]]
            0 <= i < rules.len() && ("rules["@ + text::decimal(i as nat) + "]"@).is_prefix_of(
                e.message@,
            ) && forall|k: int| 0 <= k < i ==> acceptable(#[trigger] rules[k]),
{
    match r {
        Err(e) => {
            let i = choose|i: int|
                #![trigger rules[i]]
                0 <= i < rules.len() && !acceptable(rules[i]) && blames(e, rules[i], i as nat)
                    && forall|k: int| 0 <= k < i ==> acceptable(#[trigger] rules[k]);
            assert(rules[i] == rules[i]);
            assert(field_of(i as nat).is_prefix_of(e.message@));
        },
        Ok(()) => {
            assert forall|i: int| #![trigger rules[i]] 0 <= i < rules.len() implies {
                &&& rules[i].tool@ == "run_shell"@ || rules[i].tool@ == "write_file"@
                    || rules[i].tool@ == "edit_file"@
                &&& rules[i].pattern@.len() > 0
                &&& rules[i].workspace_path@.len() > 0
            } by {
                assert(acceptable(rules[i]));
            }
        },
    }
}

} // verus!
