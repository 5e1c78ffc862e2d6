//! The models to use. A change replaces them all, and applies from the next
//! call to the model on.

use vstd::prelude::*;

use crate::agent::{self, Effect};
use crate::error::ApiError;
use crate::json;
use crate::outside;
use crate::protocol::api::ModelConfig;
use crate::text;

verus! {

/// What the audit log holds of a change.
pub open spec fn change_members(cfg: ModelConfig) -> Seq<(Seq<char>, json::FieldView)> {
    seq![
        ("what"@, json::FieldView::Text("model_config_replaced"@)),
        ("primary_model"@, json::FieldView::Text(cfg.primary.model@)),
        ("fallback_model"@, json::FieldView::Text(cfg.fallback.model@)),
    ]
}

/// What a change of the models comes to: its entry in the audit log, or why it
/// is refused.
pub open spec fn replaces(has_key: bool, req: ModelConfig, r: Result<Effect, ApiError>) -> bool {
    if !has_key {
        r matches Err(e) && e.is_field_error(
            "GROQ_API_KEY no está configurada"@,
            "GROQ_API_KEY"@,
        )
    } else if req.primary.provider@ != "groq"@ || req.fallback.provider@ != "groq"@ {
        r matches Err(e) && e.is_field_error(
            "primary.provider y fallback.provider deben ser groq"@,
            "provider"@,
        )
    } else if text::trim(req.primary.model@).len() == 0 || text::trim(
        req.fallback.model@,
    ).len() == 0 {
        r matches Err(e) && e.is_field_error("los modelos no pueden estar vacíos"@, "model"@)
    } else if req.thresholds.failure_window == 0 {
        r matches Err(e) && e.is_field_error(
            "thresholds.failure_window debe ser ≥ 1"@,
            "thresholds.failure_window"@,
        )
    } else {
        r matches Ok(effect) && agent::is_audit(effect, "config"@, change_members(req))
    }
}

/// The change to make to the models and its entry in the audit log, or why the
/// change is refused.
pub fn put_model(has_key: bool, req: &ModelConfig) -> (r: Result<Effect, ApiError>)
    ensures
        replaces(has_key, *req, r),
{
    if !has_key {
        return Err(ApiError::field("GROQ_API_KEY no está configurada", "GROQ_API_KEY"));
    }
    if !text::same(req.primary.provider.as_str(), "groq") || !text::same(
        req.fallback.provider.as_str(),
        "groq",
    ) {
        return Err(
            ApiError::field("primary.provider y fallback.provider deben ser groq", "provider"),
        );
    }
    if text::trimmed(req.primary.model.as_str()).as_str().is_empty() || text::trimmed(
        req.fallback.model.as_str(),
    ).as_str().is_empty() {
        return Err(ApiError::field("los modelos no pueden estar vacíos", "model"));
    }
    if req.thresholds.failure_window == 0 {
        return Err(
            ApiError::field("thresholds.failure_window debe ser ≥ 1", "thresholds.failure_window"),
        );
    }
    let mut members: Vec<(String, json::Field)> = Vec::new();
    members.push(json::text_member("what", "model_config_replaced"));
    members.push(json::text_member("primary_model", req.primary.model.as_str()));
    members.push(json::text_member("fallback_model", req.fallback.model.as_str()));
    assert(json::members_view(members@) == change_members(*req));
    proof {
        json::lemma_reserved_key();
        reveal_strlit("what");
        reveal_strlit("primary_model");
        reveal_strlit("fallback_model");
        assert(members@[0].0@.len() == 4);
        assert(members@[1].0@.len() == 13);
        assert(members@[2].0@.len() == 14);
        json::lemma_distinct_keys(members@);
    }
    Ok(Effect::Audit { kind: "config".to_owned(), detail: json::object(&members) })
}

/// Law: the models are replaced exactly when there is a key, both are of the one
/// provider there is, neither is blank, and at least one failure opens the
/// breaker; the change is audited with the names of both, which read back. A
/// refusal is a failed validation.
pub proof fn law_models_are_replaced_iff(
    has_key: bool,
    req: ModelConfig,
    r: Result<Effect, ApiError>,
)
    requires
        replaces(has_key, req, r),
    ensures
        r is Ok <==> has_key && req.primary.provider@ == "groq"@ && req.fallback.provider@
            == "groq"@ && text::trim(req.primary.model@).len() > 0 && text::trim(
            req.fallback.model@,
        ).len() > 0 && req.thresholds.failure_window >= 1,
        r matches Err(e) ==> e.status == 422,
        r matches Ok(effect) ==> (effect matches Effect::Audit { kind, detail } && kind@
            == "config"@ && outside::json_text_member(detail@, "primary_model"@) == Some(
            req.primary.model@,
        ) && outside::json_text_member(detail@, "fallback_model"@) == Some(req.fallback.model@)),
{
    let members = change_members(req);
    assert(members[1].0 == "primary_model"@ && members[2].0 == "fallback_model"@);
}

} // verus!
