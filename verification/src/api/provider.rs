//! The provider's API key. It is never shown, only whether there is one.

use vstd::prelude::*;

use crate::agent::{self, Effect};
use crate::error::ApiError;
use crate::json;
use crate::outside;
use crate::protocol::api::{ProviderKeyStatus, SetProviderKeyRequest};
use crate::text;

verus! {

/// Whether this tells where the key came from.
pub open spec fn tells(has_key: bool, stored: bool, r: ProviderKeyStatus) -> bool {
    &&& r.configured == has_key
    &&& r.source@ == (if stored {
        "stored"@
    } else if has_key {
        "env"@
    } else {
        "none"@
    })
}

/// Whether there is a key, and where it came from.
pub fn get_provider(has_key: bool, stored: bool) -> (r: ProviderKeyStatus)
    ensures
        tells(has_key, stored, r),
{
    let source = if stored {
        "stored"
    } else if has_key {
        "env"
    } else {
        "none"
    };
    ProviderKeyStatus { configured: has_key, source: source.to_owned() }
}

/// A change of the key.
#[derive(Debug, PartialEq)]
pub struct KeyPlan {
    /// The new key; none drops it.
    pub key: Option<String>,
    /// The entry of the audit log.
    pub effect: Effect,
    pub status: ProviderKeyStatus,
}

/// The key that a request sets: none if it is absent or blank.
pub open spec fn new_key(req: SetProviderKeyRequest) -> Option<String> {
    match req.groq_api_key {
        Some(k) => if text::trim(k@).len() > 0 {
            Some(k)
        } else {
            None
        },
        None => None,
    }
}

/// What the audit log holds of a change.
pub open spec fn change_members(configured: bool) -> Seq<(Seq<char>, json::FieldView)> {
    seq![
        ("what"@, json::FieldView::Text("provider_key_changed"@)),
        ("configured"@, json::FieldView::Flag(configured)),
    ]
}

/// What a request to change the key comes to.
pub open spec fn changes(req: SetProviderKeyRequest, r: Result<KeyPlan, ApiError>) -> bool {
    match new_key(req) {
        Some(k) if !"gsk_"@.is_prefix_of(k@) => r matches Err(e) && e.is_field_error(
            "la API key de Groq debe empezar por `gsk_`"@,
            "groq_api_key"@,
        ),
        key => {
            &&& r matches Ok(plan)
            &&& plan.key == key
            &&& agent::is_audit(plan.effect, "config"@, change_members(key is Some))
            &&& plan.status.configured == (key is Some)
            &&& plan.status.source@ == (if key is Some {
                "stored"@
            } else {
                "none"@
            })
        },
    }
}

/// The change of the key that a request asks for, or why it is refused.
pub fn put_provider(req: SetProviderKeyRequest) -> (r: Result<KeyPlan, ApiError>)
    ensures
        changes(req, r),
{
    let key = match req.groq_api_key {
        Some(k) => if text::trimmed(k.as_str()).as_str().is_empty() {
            None
        } else {
            Some(k)
        },
        None => None,
    };
    match &key {
        Some(k) => {
            if !text::begins_with(k.as_str(), "gsk_") {
                return Err(
                    ApiError::field("la API key de Groq debe empezar por `gsk_`", "groq_api_key"),
                );
            }
        },
        None => {},
    }
    let configured = key.is_some();
    let mut members: Vec<(String, json::Field)> = Vec::new();
    members.push(json::text_member("what", "provider_key_changed"));
    members.push(json::flag_member("configured", configured));
    assert(json::members_view(members@) == change_members(configured));
    proof {
        json::lemma_reserved_key();
        reveal_strlit("what");
        reveal_strlit("configured");
        assert(members@[0].0@.len() == 4);
        assert(members@[1].0@.len() == 10);
        json::lemma_distinct_keys(members@);
    }
    let source = if configured {
        "stored"
    } else {
        "none"
    };
    Ok(
        KeyPlan {
            key,
            effect: Effect::Audit { kind: "config".to_owned(), detail: json::object(&members) },
            status: ProviderKeyStatus { configured, source: source.to_owned() },
        },
    )
}

/// Law: a key is taken exactly when it begins as one of the provider, and then
/// as it is; a blank one, or none, drops the key that there is; any other is
/// refused. The audit log tells whether there is a key then, and never which.
pub proof fn law_key_change(req: SetProviderKeyRequest, r: Result<KeyPlan, ApiError>)
    requires
        changes(req, r),
    ensures
        ({
            let given = req.groq_api_key is Some && text::trim(req.groq_api_key->0@).len() > 0;
            &&& r is Err <==> given && !"gsk_"@.is_prefix_of(req.groq_api_key->0@)
            &&& r matches Err(e) ==> e.status == 422
            &&& r matches Ok(plan) ==> {
                &&& given ==> plan.key == req.groq_api_key && plan.status.configured
                    && plan.status.source@ == "stored"@
                &&& !given ==> plan.key is None && !plan.status.configured && plan.status.source@
                    == "none"@
                &&& plan.effect matches Effect::Audit { kind, detail } && kind@ == "config"@
                    && outside::json_member(detail@, "configured"@) == Some(
                    if given {
                        "true"@
                    } else {
                        "false"@
                    },
                )
            }
        }),
{
    let yes = change_members(true);
    let no = change_members(false);
    assert(yes[1].0 == "configured"@ && no[1].0 == "configured"@);
}

/// Law: a key counts as stored wherever one is stored, else as one of the
/// environment if there is one, else as none.
pub proof fn law_key_source(has_key: bool, stored: bool, r: ProviderKeyStatus)
    requires
        tells(has_key, stored, r),
    ensures
        r.configured == has_key,
        stored ==> r.source@ == "stored"@,
        !stored && has_key ==> r.source@ == "env"@,
        !stored && !has_key ==> r.source@ == "none"@,
{
}

} // verus!
