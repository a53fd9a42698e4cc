//! The longer statements of the database.
use vstd::prelude::*;

verus! {

pub const CURRENT_LIMITS: &'static str =
    "SELECT olh.*, COALESCE(consumed.amount, 0)::BIGINT AS consumed FROM organization_limits_history olh LEFT JOIN ( SELECT allocation.credit_type, (SUM(allocation.amount) - COALESCE(SUM(reversed.amount), 0))::BIGINT AS amount FROM usage_credit_allocations allocation LEFT JOIN ( SELECT allocation_id, SUM(amount)::BIGINT AS amount FROM usage_credit_allocation_reversals GROUP BY allocation_id ) reversed ON reversed.allocation_id = allocation.id WHERE allocation.organization_id = $1 GROUP BY allocation.credit_type ) consumed ON consumed.credit_type = olh.credit_type WHERE olh.organization_id = $1 AND olh.effective_until IS NULL ORDER BY olh.credit_type, olh.effective_from DESC";

pub const INSERT_LEASE: &'static str =
    "INSERT INTO concurrency_leases (id, organization_id, model_id, instance_id, expires_at) SELECT held.id, held.organization_id, held.model_id, $4, NOW() + make_interval(secs => $5) FROM UNNEST($1::uuid[], $2::uuid[], $3::uuid[]) AS held(id, organization_id, model_id) ON CONFLICT (id) DO UPDATE SET expires_at = EXCLUDED.expires_at";

pub const KEY_ADMISSION: &'static str =
    "SELECT o.admission_revision, o.id AS organization_id, k.id AS api_key_id, k.spend_limit, b.spend_counters_ready_at IS NOT NULL AS counters_ready, COALESCE(s.inference_spent, 0)::BIGINT AS inference_spent FROM api_keys k JOIN workspaces w ON w.id = k.workspace_id JOIN organizations o ON o.id = w.organization_id LEFT JOIN organization_balance b ON b.organization_id = o.id LEFT JOIN api_key_spend s ON s.api_key_id = k.id WHERE o.id = $1 AND k.id = $2";

pub const ORGANIZATION_ADMISSION: &'static str =
    "SELECT o.admission_revision, b.total_spent, b.unresolved_unfunded_amount, b.legacy_unattributed_amount, active.spend_limit, COALESCE(consumed.amount, 0)::BIGINT AS consumed FROM organizations o LEFT JOIN organization_balance b ON b.organization_id = o.id LEFT JOIN organization_limits_history active ON active.organization_id = o.id AND active.effective_until IS NULL LEFT JOIN organization_credit_consumption consumed ON consumed.organization_id = o.id AND consumed.credit_type = active.credit_type WHERE o.id = $1 ORDER BY active.credit_type";

pub const RECORDED_USAGE: &'static str =
    "SELECT usage_log.*, usage_log.total_cost - COALESCE(( SELECT SUM(amount)::BIGINT FROM usage_credit_adjustments adjustment WHERE adjustment.service_usage_id = usage_log.id ), 0) AS effective_total_cost FROM organization_service_usage_log usage_log WHERE usage_log.organization_id = $1 AND usage_log.inference_id = $2";

pub const UNFUNDED_USAGE: &'static str =
    "SELECT ( COALESCE((SELECT SUM(unfunded_amount) FROM organization_usage_log WHERE organization_id = $1), 0) + COALESCE((SELECT SUM(unfunded_amount) FROM organization_service_usage_log WHERE organization_id = $1), 0) - COALESCE((SELECT SUM(unfunded_amount_reversed)::BIGINT FROM usage_credit_adjustments WHERE organization_id = $1), 0) )::BIGINT AS unfunded, GREATEST(COALESCE((SELECT total_spent FROM organization_balance WHERE organization_id = $1), 0) - ( COALESCE((SELECT SUM(total_cost) FROM organization_usage_log WHERE organization_id = $1 AND funded_amount IS NOT NULL), 0) + COALESCE((SELECT SUM(total_cost) FROM organization_service_usage_log WHERE organization_id = $1 AND funded_amount IS NOT NULL), 0) - COALESCE((SELECT SUM(amount)::BIGINT FROM usage_credit_adjustments WHERE organization_id = $1), 0)), 0)::BIGINT AS unattributed";

pub const USAGE_COLUMNS: &'static str =
    "SELECT usage_log.id, usage_log.organization_id, usage_log.workspace_id, usage_log.api_key_id, usage_log.service_id, services.service_name, usage_log.quantity, CASE WHEN $1::TEXT IS NULL THEN usage_log.total_cost - COALESCE(( SELECT SUM(amount)::BIGINT FROM usage_credit_adjustments adjustment WHERE adjustment.service_usage_id = usage_log.id), 0) ELSE (SELECT a.amount - COALESCE((SELECT SUM(amount)::BIGINT FROM usage_credit_allocation_reversals reversal WHERE reversal.allocation_id = a.id), 0) FROM usage_credit_allocations a WHERE a.service_usage_id = usage_log.id AND a.credit_type = $1) END AS total_cost, usage_log.inference_id, usage_log.created_at, usage_log.funded_amount, usage_log.unfunded_amount, usage_log.allocation_policy_version, CASE WHEN usage_log.funded_amount IS NULL THEN NULL ELSE COALESCE((SELECT jsonb_agg(jsonb_build_object('type', a.credit_type, 'amount', a.amount - COALESCE((SELECT SUM(amount)::BIGINT FROM usage_credit_allocation_reversals reversal WHERE reversal.allocation_id = a.id), 0), 'source', a.source, 'organization_limit_id', a.organization_limit_id, 'policy_version', a.policy_version) ORDER BY a.priority_position) FROM usage_credit_allocations a WHERE a.service_usage_id = usage_log.id AND ($1::TEXT IS NULL OR a.credit_type = $1) AND a.amount > COALESCE((SELECT SUM(amount)::BIGINT FROM usage_credit_allocation_reversals reversal WHERE reversal.allocation_id = a.id), 0)), '[]'::jsonb) END AS credit_allocations ";

pub const USAGE_SOURCE: &'static str =
    "FROM organization_service_usage_log usage_log INNER JOIN services ON services.id = usage_log.service_id WHERE ($1::TEXT IS NULL OR EXISTS (SELECT 1 FROM usage_credit_allocations filter WHERE filter.service_usage_id = usage_log.id AND filter.credit_type = $1 AND filter.amount > COALESCE((SELECT SUM(amount)::BIGINT FROM usage_credit_allocation_reversals reversal WHERE reversal.allocation_id = filter.id), 0))) AND usage_log.organization_id = $2 ";

pub const USAGE_SUMMARY: &'static str =
    "WITH filtered AS MATERIALIZED ( SELECT usage_log.workspace_id, usage_log.api_key_id, services.service_name, DATE_TRUNC('day', usage_log.created_at) AS day, usage_log.quantity, usage_log.total_cost FROM organization_service_usage_log AS usage_log INNER JOIN services ON services.id = usage_log.service_id WHERE usage_log.organization_id = $1 AND ($2::TIMESTAMPTZ IS NULL OR usage_log.created_at >= $2) AND ($3::TIMESTAMPTZ IS NULL OR usage_log.created_at <= $3) AND ($4::UUID IS NULL OR usage_log.workspace_id = $4) AND ($5::UUID IS NULL OR usage_log.api_key_id = $5) AND ($6::TEXT IS NULL OR services.service_name = $6)) SELECT CASE WHEN GROUPING(workspace_id) = 0 THEN 'workspace' WHEN GROUPING(api_key_id) = 0 THEN 'api_key' WHEN GROUPING(service_name) = 0 THEN 'service' WHEN GROUPING(day) = 0 THEN 'day' ELSE 'totals' END AS dimension, workspace_id, api_key_id, service_name, TO_CHAR(day, 'YYYY-MM-DD') AS day, COUNT(*)::BIGINT AS usage_count, COALESCE(SUM(quantity), 0)::BIGINT AS quantity, COALESCE(SUM(total_cost), 0)::BIGINT AS total_cost FROM filtered GROUP BY GROUPING SETS ((), (workspace_id), (api_key_id), (service_name), (day))";

pub const INSERT_DEPRECATION_HISTORY: &'static str =
    "INSERT INTO model_history (model_id, input_cost_per_token, output_cost_per_token, cost_per_image, cache_read_cost_per_token, context_length, model_name, model_display_name, model_description, model_icon, verifiable, is_active, owned_by, provider_type, provider_config, attestation_supported, input_modalities, output_modalities, inference_url, datacenters, hugging_face_id, quantization, max_output_length, supported_sampling_parameters, supported_features, is_ready, deprecation_date, openrouter_slug, effective_from, effective_until, changed_by_user_id, changed_by_user_email, change_reason, created_at) VALUES ($1, $2, $3, $4, $5, $6, $7, $8, $9, $10, $11, $12, $13, $14, $15, $16, $17, $18, $19, $20, $21, $22, $23, COALESCE($24, ARRAY[]::TEXT[]), COALESCE($25, ARRAY[]::TEXT[]), $26, $27, $28, NOW(), NULL, $29, $30, $31, NOW())";

pub const INSERT_MODEL: &'static str =
    "INSERT INTO models (model_name, input_cost_per_token, output_cost_per_token, cost_per_image, model_display_name, model_description, model_icon, context_length, verifiable, is_active, owned_by) VALUES ($1, $2, $3, $4, $5, $6, $7, $8, $9, $10, COALESCE($11, $12)) ON CONFLICT (model_name) DO UPDATE SET input_cost_per_token = EXCLUDED.input_cost_per_token, output_cost_per_token = EXCLUDED.output_cost_per_token, cost_per_image = EXCLUDED.cost_per_image, model_display_name = EXCLUDED.model_display_name, model_description = EXCLUDED.model_description, model_icon = EXCLUDED.model_icon, context_length = EXCLUDED.context_length, verifiable = EXCLUDED.verifiable, is_active = EXCLUDED.is_active, owned_by = CASE WHEN $11 IS NULL THEN models.owned_by ELSE EXCLUDED.owned_by END, updated_at = NOW() RETURNING *";

pub const INSERT_MODEL_HISTORY: &'static str =
    "INSERT INTO model_history (model_id, input_cost_per_token, output_cost_per_token, cost_per_image, context_length, model_name, model_display_name, model_description, model_icon, verifiable, is_active, owned_by, effective_from, effective_until, changed_by_user_id, changed_by_user_email, change_reason, created_at) VALUES ($1, $2, $3, $4, $5, $6, $7, $8, $9, $10, $11, $12, NOW(), NULL, $13, $14, $15, NOW())";

pub const INSERT_PRICING_CHANGE: &'static str =
    "INSERT INTO scheduled_model_pricing_changes (batch_id, model_id, model_name, model_display_name, new_input_cost_per_token, new_output_cost_per_token, new_cache_read_cost_per_token, new_cost_per_image, old_input_cost_per_token, old_output_cost_per_token, old_cache_read_cost_per_token, old_cost_per_image, effective_at, created_by_user_id, created_by_user_email, change_reason) VALUES ($1, $2, $3, $4, $5, $6, $7, $8, $9, $10, $11, $12, $13, $14, $15, $16) RETURNING *";

pub const MODEL_COLUMNS: &'static str =
    "m.id, m.model_name, m.model_display_name, m.model_description, m.model_icon, m.input_cost_per_token, m.output_cost_per_token, m.cost_per_image, m.context_length, m.verifiable, m.is_active, m.owned_by, m.created_at, m.updated_at, COALESCE(array_agg(a.alias_name) FILTER (WHERE a.alias_name IS NOT NULL), '{}') AS aliases FROM models m LEFT JOIN model_aliases a ON a.canonical_model_id = m.id AND a.is_active = true";

pub const UPDATE_MODEL: &'static str =
    "UPDATE models SET input_cost_per_token = COALESCE($2, input_cost_per_token), output_cost_per_token = COALESCE($3, output_cost_per_token), cost_per_image = COALESCE($4, cost_per_image), model_display_name = COALESCE($5, model_display_name), model_description = COALESCE($6, model_description), model_icon = COALESCE($7, model_icon), context_length = COALESCE($8, context_length), verifiable = COALESCE($9, verifiable), is_active = COALESCE($10, is_active), owned_by = COALESCE($11, owned_by), updated_at = NOW() WHERE model_name = $1 RETURNING *";

pub const COPY_CONVERSATION: &'static str =
    "INSERT INTO conversations (id, workspace_id, api_key_id, pinned_at, archived_at, deleted_at, cloned_from_id, metadata, created_at, updated_at) SELECT $1, workspace_id, $2, NULL, NULL, NULL, id, CASE WHEN metadata->>'title' IS NOT NULL THEN jsonb_set(metadata, '{title}', to_jsonb((metadata->>'title') || ' (Copy)')) ELSE metadata END, $3, $4 FROM conversations WHERE id = $5 AND workspace_id = $6 AND deleted_at IS NULL RETURNING *";

pub const COPY_RESPONSE: &'static str =
    "INSERT INTO responses (id, workspace_id, api_key_id, model, status, instructions, conversation_id, previous_response_id, next_response_ids, usage, metadata, created_at, updated_at) SELECT $1, workspace_id, $2, model, status, instructions, $3, previous_response_id, next_response_ids, usage, metadata, $4, $5 FROM responses WHERE id = $6";

pub const CREDIT_LIMITS: &'static str =
    "SELECT active.id, active.credit_type, active.source, active.spend_limit, COALESCE(consumed.amount, 0)::BIGINT AS consumed FROM unnest($2::TEXT[]) WITH ORDINALITY AS wanted(credit_type, position) JOIN organization_limits_history active ON active.organization_id = $1 AND active.credit_type = wanted.credit_type AND active.effective_until IS NULL LEFT JOIN organization_credit_consumption consumed ON consumed.organization_id = active.organization_id AND consumed.credit_type = active.credit_type ORDER BY wanted.position";

pub const OPEN_DEBTS: &'static str =
    "SELECT usage_kind, usage_id, outstanding FROM ( SELECT 'inference'::TEXT AS usage_kind, usage.id AS usage_id, usage.created_at, GREATEST(usage.unfunded_amount - COALESCE((SELECT SUM(allocation.amount)::BIGINT FROM usage_credit_allocations allocation WHERE allocation.inference_usage_id = usage.id AND allocation.allocation_phase = 'overage_settlement'), 0) - COALESCE((SELECT SUM(adjustment.unfunded_amount_reversed)::BIGINT FROM usage_credit_adjustments adjustment WHERE adjustment.inference_usage_id = usage.id), 0), 0)::BIGINT AS outstanding FROM organization_usage_log usage WHERE usage.organization_id = $1 AND usage.unfunded_amount > 0 UNION ALL SELECT 'service'::TEXT AS usage_kind, usage.id AS usage_id, usage.created_at, GREATEST(usage.unfunded_amount - COALESCE((SELECT SUM(allocation.amount)::BIGINT FROM usage_credit_allocations allocation WHERE allocation.service_usage_id = usage.id AND allocation.allocation_phase = 'overage_settlement'), 0) - COALESCE((SELECT SUM(adjustment.unfunded_amount_reversed)::BIGINT FROM usage_credit_adjustments adjustment WHERE adjustment.service_usage_id = usage.id), 0), 0)::BIGINT AS outstanding FROM organization_service_usage_log usage WHERE usage.organization_id = $1 AND usage.unfunded_amount > 0 ) debt WHERE outstanding > 0 ORDER BY created_at, usage_id";

pub const REMAINING_ALLOCATIONS: &'static str =
    "SELECT allocation.credit_type, allocation.amount - COALESCE(( SELECT SUM(reversal.amount)::BIGINT FROM usage_credit_allocation_reversals reversal WHERE reversal.allocation_id = allocation.id), 0) AS amount, allocation.source, allocation.organization_limit_id, allocation.policy_version FROM usage_credit_allocations allocation WHERE (($1::UUID IS NOT NULL AND allocation.inference_usage_id = $1) OR ($2::UUID IS NOT NULL AND allocation.service_usage_id = $2)) AND allocation.amount > COALESCE(( SELECT SUM(reversal.amount)::BIGINT FROM usage_credit_allocation_reversals reversal WHERE reversal.allocation_id = allocation.id), 0) ORDER BY allocation.created_at, allocation.priority_position, allocation.id";

pub const REVERSIBLE_ALLOCATIONS: &'static str =
    "SELECT allocation.id, allocation.amount - COALESCE(reversed.amount, 0)::BIGINT AS available FROM usage_credit_allocations allocation LEFT JOIN ( SELECT allocation_id, SUM(amount)::BIGINT AS amount FROM usage_credit_allocation_reversals GROUP BY allocation_id ) reversed ON reversed.allocation_id = allocation.id WHERE ($1::UUID IS NOT NULL AND allocation.inference_usage_id = $1) OR ($2::UUID IS NOT NULL AND allocation.service_usage_id = $2) ORDER BY allocation.priority_position DESC";

pub const LATEST_VOTES: &'static str =
    "WITH ranked_votes AS (SELECT v.target_id, v.user_id, u.email AS user_email, u.display_name AS user_display_name, v.organization_id, o.name AS organization_name, v.note, v.source, v.updated_at, ROW_NUMBER() OVER (PARTITION BY v.target_id ORDER BY v.updated_at DESC) AS row_number FROM feature_request_votes v JOIN users u ON u.id = v.user_id LEFT JOIN organizations o ON o.id = v.organization_id WHERE v.target_id = ANY($1::UUID[])) SELECT * FROM ranked_votes WHERE row_number <= $2 ORDER BY target_id, updated_at DESC";

pub const UPSERT_FEATURE_TARGET: &'static str =
    "INSERT INTO feature_request_targets (kind, key, title) VALUES ($1, $2, $3) ON CONFLICT (kind, key) DO UPDATE SET title = EXCLUDED.title, updated_at = CASE WHEN feature_request_targets.title IS DISTINCT FROM EXCLUDED.title THEN NOW() ELSE feature_request_targets.updated_at END RETURNING id, kind, key, title, status, created_at, updated_at";

pub const VOTED_TARGETS: &'static str =
    "SELECT t.*, COUNT(DISTINCT v.user_id)::BIGINT AS unique_user_count, COUNT(DISTINCT v.organization_id)::BIGINT AS unique_organization_count, COALESCE(MAX(v.updated_at), t.updated_at) AS latest_requested_at FROM feature_request_targets t LEFT JOIN feature_request_votes v ON v.target_id = t.id WHERE ($1::TEXT IS NULL OR t.kind = $1) GROUP BY t.id ORDER BY unique_user_count DESC, latest_requested_at DESC, t.title ASC LIMIT $2 OFFSET $3";

pub const DENSITY_COLUMNS: &'static str =
    "COALESCE(PERCENTILE_CONT(0.50) WITHIN GROUP (ORDER BY revenue_per_min) FILTER (WHERE revenue_per_min > 0), 0.0)::float8 AS p50, COALESCE(PERCENTILE_CONT(0.95) WITHIN GROUP (ORDER BY revenue_per_min) FILTER (WHERE revenue_per_min > 0), 0.0)::float8 AS p95, COALESCE(PERCENTILE_CONT(0.99) WITHIN GROUP (ORDER BY revenue_per_min) FILTER (WHERE revenue_per_min > 0), 0.0)::float8 AS p99, COALESCE(MAX(revenue_per_min), 0.0)::float8 AS peak, COUNT(*) FILTER (WHERE revenue_per_min > 0)::bigint AS active_minutes";

pub const PLATFORM_COUNTS: &'static str =
    "SELECT (SELECT COUNT(*) FROM users WHERE is_active = true)::bigint AS total_users, (SELECT COUNT(*) FROM organizations WHERE is_active = true)::bigint AS total_organizations, (SELECT COUNT(*) FROM users WHERE created_at >= $1 AND created_at < $2)::bigint AS new_users, (SELECT COUNT(*) FROM organizations WHERE created_at >= $1 AND created_at < $2)::bigint AS new_organizations, (SELECT COUNT(DISTINCT olh.organization_id) FROM organization_limits_history olh JOIN organizations o ON o.id = olh.organization_id AND o.is_active = true WHERE (olh.credit_type = 'payment' OR (olh.credit_type = 'postpay' AND olh.spend_limit > 0)) AND olh.effective_until IS NULL)::bigint AS paying_organizations";

pub const PLATFORM_USAGE: &'static str =
    "SELECT COUNT(*)::bigint AS requests, COALESCE(SUM(ul.total_cost), 0)::bigint AS cost_nano, (COALESCE(SUM(ul.input_tokens), 0) + COALESCE(SUM(ul.output_tokens), 0))::bigint AS total_tokens, COALESCE(SUM(ul.cache_read_tokens), 0)::bigint AS cache_read_tokens, COUNT(DISTINCT ul.organization_id)::bigint AS active_organizations, COALESCE(SUM(ul.total_cost) FILTER (WHERE COALESCE(m.verifiable, false)), 0)::bigint AS verifiable_nano, COUNT(*) FILTER (WHERE COALESCE(m.verifiable, false))::bigint AS verifiable_requests, COALESCE(SUM(ul.total_cost) FILTER (WHERE NOT COALESCE(m.verifiable, false)), 0)::bigint AS external_nano, COUNT(*) FILTER (WHERE NOT COALESCE(m.verifiable, false))::bigint AS external_requests, COUNT(*) FILTER (WHERE ul.stop_reason IN ('provider_error', 'timeout'))::bigint AS error_count, PERCENTILE_CONT(0.95) WITHIN GROUP (ORDER BY ul.ttft_ms)::double precision AS p95_ttft_ms, COUNT(*) FILTER (WHERE ul.stop_reason = 'incomplete')::bigint AS incomplete_count FROM organization_usage_log ul LEFT JOIN models m ON m.id = ul.model_id WHERE ul.created_at >= $1 AND ul.created_at < $2";

pub const PROVIDER_USAGE: &'static str =
    "SELECT GROUPING(served_via_fallback, served_provider_type, served_provider_tier) AS grouping_set, served_via_fallback, served_provider_type, served_provider_tier, COUNT(*)::bigint AS requests, COALESCE(SUM(input_tokens), 0)::bigint AS input_tokens, COALESCE(SUM(output_tokens), 0)::bigint AS output_tokens, (COALESCE(SUM(input_tokens), 0) + COALESCE(SUM(output_tokens), 0))::bigint AS total_tokens, COALESCE(SUM(cache_read_tokens), 0)::bigint AS cache_read_tokens, COALESCE(SUM(total_cost), 0)::bigint AS cost_nano FROM organization_usage_log WHERE created_at >= $1 AND created_at < $2 GROUP BY GROUPING SETS ((served_via_fallback), (served_provider_type), (served_provider_tier)) ORDER BY served_via_fallback, served_provider_type NULLS FIRST, served_provider_tier NULLS FIRST";

pub const TOP_ORGANIZATIONS: &'static str =
    "SELECT o.id AS organization_id, o.name AS organization_name, COUNT(ul.id)::bigint AS requests, COALESCE(SUM(ul.total_cost), 0)::bigint AS spend_nano FROM organizations o INNER JOIN organization_usage_log ul ON ul.organization_id = o.id WHERE ul.created_at >= $1 AND ul.created_at < $2 GROUP BY o.id, o.name ORDER BY spend_nano DESC LIMIT 10";

} // verus!
