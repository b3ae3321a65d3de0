use facegate::broker_dispatch::{
    after_search, audit_reply, dispatch, enroll_reply, finish_compare, list_reply, AuditEntry,
    BrokerPolicy, Dispatch, FaceSearch, InferenceFailure, SearchStage,
};
use facegate::broker_match::ScoredTemplate;
use facegate::brokerd::{AbuseState, PeerCredentials, RATE_LIMIT_MAX_MATCHES};
use facegate::ipc::{
    AuditEvent, AuditOutcome, AuditReason, AuthScope as IpcAuthScope, ErrorCode, FrameFormat,
    FrameProbe, MatchReason, Request, RequestEnvelope, Response, ResponseEnvelope,
    TemplateScope as IpcTemplateScope, PROTOCOL_VERSION,
};
use facegate::storage::{TemplateStore, UserTemplates};

const NOW: u64 = 5_000_000;

fn unit_vec(v: &[f32]) -> Vec<f32> {
    let norm: f32 = v.iter().map(|x| x * x).sum::<f32>().sqrt();
    v.iter().map(|x| x / norm).collect()
}

fn bits(v: &[f32]) -> Vec<u32> {
    v.iter().map(|x| x.to_bits()).collect()
}

fn cosine(a: &[u32], b: &[u32]) -> f32 {
    if a.len() != b.len() || a.is_empty() {
        return 0.0;
    }
    let a: Vec<f32> = a.iter().map(|x| f32::from_bits(*x)).collect();
    let b: Vec<f32> = b.iter().map(|x| f32::from_bits(*x)).collect();
    let dot: f32 = a.iter().zip(&b).map(|(x, y)| x * y).sum();
    let na: f32 = a.iter().map(|x| x * x).sum::<f32>().sqrt();
    let nb: f32 = b.iter().map(|x| x * x).sum::<f32>().sqrt();
    if na == 0.0 || nb == 0.0 {
        0.0
    } else {
        dot / (na * nb)
    }
}

fn test_policy() -> BrokerPolicy {
    BrokerPolicy {
        threshold: 0.55_f32.to_bits(),
        cooldown_after_failures: 10,
        cooldown_ms: 60_000,
        cross_check_required: false,
        max_time_skew_ms: 50,
        broker_version: "0.1.0".to_owned(),
    }
}

/// The daemon's side of one request, with an in-memory template store and audit log.
struct Broker {
    abuse: AbuseState,
    policy: BrokerPolicy,
    templates: UserTemplates,
    audit: Vec<AuditEvent>,
}

impl Broker {
    fn new() -> Self {
        Broker {
            abuse: AbuseState::new(),
            policy: test_policy(),
            templates: UserTemplates::empty(),
            audit: Vec::new(),
        }
    }

    fn log(&mut self, entry: AuditEntry) {
        self.audit.push(AuditEvent {
            timestamp_unix: 1_778_371_200,
            username: entry.username,
            auth_scope: entry.auth_scope,
            outcome: entry.outcome,
            reason: entry.reason,
        });
    }

    fn compare(
        &mut self,
        username: &str,
        auth_scope: facegate::storage::AuthScope,
        probe: &[u32],
    ) -> ResponseEnvelope {
        let scored: Vec<ScoredTemplate> = self
            .templates
            .templates
            .iter()
            .map(|t| ScoredTemplate {
                id: t.id,
                scope: t.scope,
                score: cosine(probe, &t.embedding).to_bits(),
            })
            .collect();
        let (response, entry) = finish_compare(
            &mut self.abuse,
            &self.policy,
            NOW,
            username,
            auth_scope,
            Ok(scored),
        );
        self.log(entry);
        response
    }

    fn handle(&mut self, envelope: RequestEnvelope, peer: Option<PeerCredentials>) -> ResponseEnvelope {
        let mut step = dispatch(&mut self.abuse, &self.policy, NOW, envelope, peer, None);
        loop {
            step = match step {
                Dispatch::Reply(r) => return r,
                Dispatch::AuditAndReply { entry, response } => {
                    self.log(entry);
                    return response;
                }
                Dispatch::Compare { username, auth_scope, probe } => {
                    return self.compare(&username, auth_scope, &probe);
                }
                Dispatch::Search { username, auth_scope, stage, .. } => after_search(
                    &mut self.abuse,
                    &self.policy,
                    NOW,
                    username,
                    auth_scope,
                    stage,
                    FaceSearch::Failed(InferenceFailure::ModelsUnavailable),
                    false,
                ),
                Dispatch::Enroll { username, label, scope, embedding } => {
                    let store = TemplateStore::new("/var/lib/facegate/templates");
                    let result =
                        store.add_template(&username, &mut self.templates, &label, scope, embedding);
                    return enroll_reply(result);
                }
                Dispatch::List { .. } => return list_reply(Ok(self.templates.clone())),
                Dispatch::Remove { .. } => panic!("no removal expected"),
                Dispatch::ReadAudit { username, limit } => {
                    return audit_reply(self.audit.clone(), username, limit);
                }
            }
        }
    }
}

fn match_request(username: &str, probe: Vec<f32>) -> RequestEnvelope {
    RequestEnvelope::new(Request::Match {
        username: username.to_owned(),
        auth_scope: IpcAuthScope::Session,
        probe_embedding: bits(&probe),
    })
}

fn one_pixel_rgb(captured_at_ms: u64) -> FrameProbe {
    FrameProbe {
        format: FrameFormat::Rgb8,
        width: 1,
        height: 1,
        captured_at_ms,
        bytes: vec![0, 0, 0],
    }
}

#[test]
fn health_response_uses_current_protocol() {
    let mut broker = Broker::new();
    let response = broker.handle(RequestEnvelope::new(Request::Health), None);
    let Response::Health { info } = response.response else {
        panic!("expected health response");
    };
    assert_eq!(info.protocol_version, PROTOCOL_VERSION);
}

#[test]
fn rejects_protocol_mismatch() {
    let mut broker = Broker::new();
    let response = broker.handle(
        RequestEnvelope {
            version: PROTOCOL_VERSION + 1,
            request: Request::Health,
        },
        None,
    );
    let Response::Error(error) = response.response else {
        panic!("expected error response");
    };
    assert_eq!(error.code, ErrorCode::VersionMismatch);
}

#[test]
fn list_does_not_expose_embeddings() {
    let mut broker = Broker::new();
    let peer = Some(PeerCredentials { uid: 0 });

    let enrolled = broker.handle(
        RequestEnvelope::new(Request::Enroll {
            username: "alice".to_owned(),
            label: "front".to_owned(),
            scope: IpcTemplateScope::Both,
            embedding: bits(&unit_vec(&[1.0, 0.0])),
        }),
        peer,
    );
    assert!(matches!(enrolled.response, Response::Enrolled { .. }));

    let listed = broker.handle(
        RequestEnvelope::new(Request::List {
            username: "alice".to_owned(),
        }),
        peer,
    );
    let Response::List { templates } = listed.response else {
        panic!("expected list response");
    };
    assert_eq!(templates.len(), 1);
    assert_eq!(templates[0].label, "front");
}

#[test]
fn match_returns_decision_without_vector() {
    let mut broker = Broker::new();
    let peer = Some(PeerCredentials { uid: 0 });
    let embedding = unit_vec(&[1.0, 0.0]);

    broker.handle(
        RequestEnvelope::new(Request::Enroll {
            username: "alice".to_owned(),
            label: "front".to_owned(),
            scope: IpcTemplateScope::Session,
            embedding: bits(&embedding),
        }),
        peer,
    );

    let matched = broker.handle(match_request("alice", embedding), peer);
    let Response::Match { result } = matched.response else {
        panic!("expected match response");
    };

    assert!(result.matched);
    assert_eq!(result.template_id, Some(0));
}

#[test]
fn match_writes_audit_event() {
    let mut broker = Broker::new();
    let peer = Some(PeerCredentials { uid: 0 });
    let embedding = unit_vec(&[1.0, 0.0]);

    broker.handle(
        RequestEnvelope::new(Request::Enroll {
            username: "alice".to_owned(),
            label: "front".to_owned(),
            scope: IpcTemplateScope::Session,
            embedding: bits(&embedding),
        }),
        peer,
    );
    broker.handle(match_request("alice", embedding), peer);

    let audit = broker.handle(
        RequestEnvelope::new(Request::AuditRecent {
            username: Some("alice".to_owned()),
            limit: 5,
        }),
        peer,
    );
    let Response::Audit { events } = audit.response else {
        panic!("expected audit response");
    };
    assert_eq!(events.len(), 1);
    assert_eq!(events[0].username, "alice");
    assert_eq!(events[0].outcome, AuditOutcome::Success);
    assert_eq!(events[0].reason, AuditReason::Matched);
}

#[test]
fn rate_limits_match_requests_per_peer() {
    let mut broker = Broker::new();
    let peer = Some(PeerCredentials { uid: 0 });

    for _ in 0..RATE_LIMIT_MAX_MATCHES {
        let response = broker.handle(match_request("alice", vec![1.0]), peer);
        assert!(matches!(response.response, Response::Error(_)));
    }

    let response = broker.handle(match_request("alice", vec![1.0]), peer);
    let Response::Error(error) = response.response else {
        panic!("expected rate limit error");
    };
    assert_eq!(error.code, ErrorCode::RateLimited);
}

#[test]
fn locks_out_after_repeated_failed_matches() {
    let mut broker = Broker::new();
    let peer = Some(PeerCredentials { uid: 0 });

    for _ in 0..broker.policy.cooldown_after_failures {
        let response = broker.handle(match_request("alice", vec![1.0]), peer);
        assert!(matches!(response.response, Response::Error(_)));
    }

    let response = broker.handle(match_request("alice", vec![1.0]), peer);
    let Response::Error(error) = response.response else {
        panic!("expected lockout error");
    };
    assert_eq!(error.code, ErrorCode::LockedOut);
}

#[test]
fn match_rejects_non_root_callers() {
    let mut broker = Broker::new();
    let response = broker.handle(
        match_request("alice", unit_vec(&[1.0, 0.0])),
        Some(PeerCredentials { uid: 1000 }),
    );
    let Response::Error(error) = response.response else {
        panic!("expected error for non-root Match");
    };
    assert_eq!(error.code, ErrorCode::Unauthorized);
}

#[test]
fn match_frame_rejects_malformed_buffer() {
    let mut broker = Broker::new();
    let response = broker.handle(
        RequestEnvelope::new(Request::MatchFrame {
            username: "alice".to_owned(),
            auth_scope: IpcAuthScope::Session,
            frame: FrameProbe {
                format: FrameFormat::Rgb8,
                width: 4,
                height: 4,
                captured_at_ms: 1,
                bytes: vec![0; 10], // expected 48 bytes
            },
        }),
        Some(PeerCredentials { uid: 0 }),
    );
    let Response::Error(error) = response.response else {
        panic!("expected error for malformed frame");
    };
    assert_eq!(error.code, ErrorCode::BadRequest);
}

#[test]
fn match_frame_rejects_oversized_geometry() {
    let mut broker = Broker::new();
    let response = broker.handle(
        RequestEnvelope::new(Request::MatchFrame {
            username: "alice".to_owned(),
            auth_scope: IpcAuthScope::Session,
            frame: FrameProbe {
                format: FrameFormat::Gray8,
                width: 8192,
                height: 8192,
                captured_at_ms: 1,
                bytes: vec![],
            },
        }),
        Some(PeerCredentials { uid: 0 }),
    );
    let Response::Error(error) = response.response else {
        panic!("expected error for oversized frame");
    };
    assert_eq!(error.code, ErrorCode::BadRequest);
}

#[test]
fn cross_check_required_rejects_single_frame() {
    let mut broker = Broker::new();
    broker.policy.cross_check_required = true;
    let response = broker.handle(
        RequestEnvelope::new(Request::MatchFrame {
            username: "alice".to_owned(),
            auth_scope: IpcAuthScope::Session,
            frame: one_pixel_rgb(1),
        }),
        Some(PeerCredentials { uid: 0 }),
    );
    let Response::Match { result } = response.response else {
        panic!("expected match response");
    };
    assert!(!result.matched);
    assert_eq!(result.score, None);
}

#[test]
fn cross_check_rejects_unsynchronized_frames() {
    let mut broker = Broker::new();
    broker.policy.cross_check_required = true;
    let response = broker.handle(
        RequestEnvelope::new(Request::MatchFramePair {
            username: "alice".to_owned(),
            auth_scope: IpcAuthScope::Session,
            rgb_frame: one_pixel_rgb(100),
            ir_frame: one_pixel_rgb(200),
        }),
        Some(PeerCredentials { uid: 0 }),
    );
    let Response::Match { result } = response.response else {
        panic!("expected match response");
    };
    assert!(!result.matched);
    assert_eq!(result.score, None);
}

#[test]
fn non_root_cannot_enroll() {
    let mut broker = Broker::new();
    let response = broker.handle(
        RequestEnvelope::new(Request::Enroll {
            username: "alice".to_owned(),
            label: "front".to_owned(),
            scope: IpcTemplateScope::Both,
            embedding: bits(&[1.0]),
        }),
        Some(PeerCredentials { uid: 1000 }),
    );

    let Response::Error(error) = response.response else {
        panic!("expected error response");
    };
    assert_eq!(error.code, ErrorCode::Unauthorized);
}

// ── Further cases of the request cycle ───────────────────────────────────────

#[test]
fn frame_match_without_face_is_rejected_as_no_face() {
    let mut broker = Broker::new();
    let d = dispatch(
        &mut broker.abuse,
        &broker.policy,
        NOW,
        RequestEnvelope::new(Request::MatchFrame {
            username: "alice".to_owned(),
            auth_scope: IpcAuthScope::Session,
            frame: one_pixel_rgb(1),
        }),
        Some(PeerCredentials { uid: 0 }),
        None,
    );
    let Dispatch::Search { username, auth_scope, frame, stage } = d else {
        panic!("expected a face search");
    };
    assert_eq!(frame.data, vec![0, 0, 0]);
    assert!(matches!(stage, SearchStage::Single));
    let next = after_search(
        &mut broker.abuse,
        &broker.policy,
        NOW,
        username,
        auth_scope,
        stage,
        FaceSearch::NoFace,
        false,
    );
    let Dispatch::AuditAndReply { entry, response } = next else {
        panic!("expected an audited rejection");
    };
    assert_eq!(entry.reason, AuditReason::Mismatch);
    let Response::Match { result } = response.response else {
        panic!("expected match response");
    };
    assert_eq!(result.reason, MatchReason::NoFace);
    assert!(!result.matched);
}

#[test]
fn cross_checked_pair_compares_the_rgb_embedding_when_consistent() {
    let mut broker = Broker::new();
    broker.policy.cross_check_required = true;
    let d = dispatch(
        &mut broker.abuse,
        &broker.policy,
        NOW,
        RequestEnvelope::new(Request::MatchFramePair {
            username: "alice".to_owned(),
            auth_scope: IpcAuthScope::Session,
            rgb_frame: one_pixel_rgb(100),
            ir_frame: one_pixel_rgb(120),
        }),
        Some(PeerCredentials { uid: 0 }),
        None,
    );
    let Dispatch::Search { username, auth_scope, stage, .. } = d else {
        panic!("expected the RGB face search");
    };
    let rgb_embedding = bits(&[0.6, 0.8]);
    let d = after_search(
        &mut broker.abuse,
        &broker.policy,
        NOW,
        username,
        auth_scope,
        stage,
        FaceSearch::Found(rgb_embedding.clone()),
        false,
    );
    let Dispatch::Search { username, auth_scope, stage, frame } = d else {
        panic!("expected the IR face search");
    };
    assert_eq!(frame.captured_at_ms, 120);
    let mismatch = after_search(
        &mut broker.abuse,
        &broker.policy,
        NOW,
        username.clone(),
        auth_scope,
        SearchStage::Ir { rgb_probe: rgb_embedding.clone() },
        FaceSearch::Found(bits(&[0.0, 1.0])),
        false,
    );
    let Dispatch::AuditAndReply { response, .. } = mismatch else {
        panic!("expected a rejection");
    };
    let Response::Match { result } = response.response else {
        panic!("expected match response");
    };
    assert_eq!(result.reason, MatchReason::CrossCheckPositionMismatch);
    let consistent = after_search(
        &mut broker.abuse,
        &broker.policy,
        NOW,
        username,
        auth_scope,
        stage,
        FaceSearch::Found(bits(&[0.0, 1.0])),
        true,
    );
    let Dispatch::Compare { probe, .. } = consistent else {
        panic!("expected a comparison");
    };
    assert_eq!(probe, rgb_embedding);
}

#[test]
fn inference_failure_is_an_internal_error() {
    let mut broker = Broker::new();
    let response = broker.handle(
        RequestEnvelope::new(Request::MatchFrame {
            username: "alice".to_owned(),
            auth_scope: IpcAuthScope::Session,
            frame: one_pixel_rgb(1),
        }),
        Some(PeerCredentials { uid: 0 }),
    );
    let Response::Error(error) = response.response else {
        panic!("expected error response");
    };
    assert_eq!(error.code, ErrorCode::Internal);
    assert_eq!(error.message, "broker inference unavailable");
    assert_eq!(broker.audit[0].reason, AuditReason::Internal);
}

#[test]
fn non_root_reads_only_its_own_audit_events() {
    let mut broker = Broker::new();
    let d = dispatch(
        &mut broker.abuse,
        &broker.policy,
        NOW,
        RequestEnvelope::new(Request::AuditRecent { username: None, limit: 5 }),
        Some(PeerCredentials { uid: 1000 }),
        None,
    );
    assert!(matches!(d, Dispatch::Reply(_)));
    let d = dispatch(
        &mut broker.abuse,
        &broker.policy,
        NOW,
        RequestEnvelope::new(Request::AuditRecent {
            username: Some("alice".to_owned()),
            limit: 500,
        }),
        Some(PeerCredentials { uid: 1000 }),
        Some(1000),
    );
    let Dispatch::ReadAudit { username, limit } = d else {
        panic!("expected an audit read");
    };
    assert_eq!(username.as_deref(), Some("alice"));
    assert_eq!(limit, 50);
}

#[test]
fn users_request_is_not_served() {
    let mut broker = Broker::new();
    let response = broker.handle(RequestEnvelope::new(Request::Users), Some(PeerCredentials { uid: 0 }));
    let Response::Error(error) = response.response else {
        panic!("expected error response");
    };
    assert_eq!(error.code, ErrorCode::BadRequest);
}

#[test]
fn policy_follows_the_configuration() {
    let mut config = facegate::config::Config::default();
    config.security.cooldown_seconds = 60;
    let policy = BrokerPolicy::from_config(&config, "1.2.3");
    assert_eq!(policy.cooldown_ms, 60_000);
    assert_eq!(policy.threshold, config.recognition.threshold);
    assert!(!policy.cross_check_required);
    assert_eq!(policy.broker_version, "1.2.3");
}

#[test]
fn envelopes_carry_protocol_version_three() {
    assert_eq!(PROTOCOL_VERSION, 3);
    assert_eq!(RequestEnvelope::new(Request::Health).version, 3);
    assert_eq!(ResponseEnvelope::ok(Response::Removed).version, 3);
}

#[test]
fn unexpected_reply_is_described() {
    let reply = Response::Removed;
    let expected = format!("unexpected broker response: {:?}", reply);
    assert_eq!(facegate::broker_client::list_templates(reply.clone()), Err(expected.clone()));
    assert_eq!(facegate::broker_client::match_result(reply.clone()).err(), Some(expected));
    match facegate::broker_client::auth_match_reply(reply.clone()) {
        Err(facegate::broker_client::BrokerAuthError::Unexpected(t)) => assert_eq!(t, format!("{:?}", reply)),
        _ => panic!("expected an unexpected-reply error"),
    }
}
