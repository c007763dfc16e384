use sanctum::agent::{
    agent_launch, classify_command, gateway_endpoint, manages_upstream, select_command,
    CliCommand, ReadinessWait, WaitOutcome, GATEWAY_READY_ATTEMPTS, UPSTREAM_READY_ATTEMPTS,
};
use sanctum::api::{
    anthropic_prompt, anthropic_stream_events, health_reply, model_ids, openai_prompt,
    openai_stream_events, plan_anthropic_messages, plan_openai_chat, take_stream_line,
    upstream_base, ChatMessage, ReplyFormat, StreamEvent, DEFAULT_CONTEXT_TOKENS,
};
use sanctum::benchmark::{
    after_generation, after_model_list, after_version, hardware_report, model_listed,
    parse_meminfo_total, parse_memsize, recommend, BackendProbe, GIB, MODEL_NOT_PRESENT,
};
use sanctum::gateway::GatewayPrompt;
use sanctum::registry::{
    ContextLadder, ModelBackend, ModelEntry, ModelFormat, ModelRegistry, Quantization,
    RegistryError, RegistryModelId,
};
use sanctum::tui::{
    map_key, map_key_event, ActiveProfile, DashboardCommand, DashboardControls, DashboardError,
    DashboardKey, DashboardSize, DashboardTab, KvResidency, MemoryBytes, MemoryTelemetry,
    MetricHistory,
};

fn message(role: &str, content: &str) -> ChatMessage {
    ChatMessage { role: Some(role.to_owned()), content: Some(content.to_owned()) }
}

fn entry(id: &str, weights: u64, per_token: u64) -> ModelEntry {
    ModelEntry::new(
        RegistryModelId::new(id).unwrap(),
        ModelBackend::LlamaServer,
        ModelFormat::Gguf,
        Quantization::Q4,
        weights,
        per_token,
        ContextLadder::new(vec![4096, 32768, 131072]).unwrap(),
    )
    .unwrap()
}

#[test]
fn context_ladder_must_ascend() {
    assert_eq!(
        ContextLadder::new(vec![]),
        Err(RegistryError::EmptyField { field: "context_ladder" })
    );
    assert_eq!(
        ContextLadder::new(vec![4096, 0]),
        Err(RegistryError::ZeroValue { field: "context_tokens" })
    );
    assert_eq!(ContextLadder::new(vec![8192, 4096]), Err(RegistryError::UnorderedContextLadder));
    assert_eq!(ContextLadder::new(vec![4096, 4096]), Err(RegistryError::UnorderedContextLadder));
    let ladder = ContextLadder::new(vec![4096, 32768, 131072]).unwrap();
    assert_eq!(ladder.levels(), &[4096, 32768, 131072]);
    assert_eq!(ladder.smallest(), 4096);
    assert_eq!(ladder.largest(), 131072);
}

#[test]
fn context_ladder_floor() {
    let ladder = ContextLadder::new(vec![4096, 32768, 131072]).unwrap();
    assert_eq!(ladder.floor(100_000), 32768);
    assert_eq!(ladder.floor(32768), 32768);
    assert_eq!(ladder.floor(1_000_000), 131072);
    assert_eq!(ladder.floor(10), 4096);
}

#[test]
fn model_entry_sizes() {
    assert_eq!(Quantization::F16.bits(), 16);
    assert_eq!(Quantization::Q4.bits(), 4);
    let model = entry("qwen", 1_000, 10);
    assert_eq!(model.kv_bytes_for(4096), 40_960);
    assert_eq!(model.total_bytes_for(4096), 41_960);
    let huge = entry("huge", u64::MAX - 5, u64::MAX);
    assert_eq!(huge.kv_bytes_for(2), u64::MAX);
    assert_eq!(huge.total_bytes_for(2), u64::MAX);
    let ladder = ContextLadder::new(vec![1]).unwrap();
    let id = RegistryModelId::new("m").unwrap();
    assert_eq!(
        ModelEntry::new(id.clone(), ModelBackend::MlxLm, ModelFormat::Mlx, Quantization::Q8, 0, 0, ladder.clone()),
        Err(RegistryError::ZeroValue { field: "weights_bytes" })
    );
    assert_eq!(
        ModelEntry::new(id, ModelBackend::MlxLm, ModelFormat::Mlx, Quantization::Q8, 1, 0, ladder),
        Err(RegistryError::ZeroValue { field: "bytes_per_kv_token" })
    );
    assert_eq!(RegistryModelId::new("  "), Err(RegistryError::EmptyField { field: "model_id" }));
}

#[test]
fn registry_insert_then_lookup() {
    let mut registry = ModelRegistry::new();
    assert_eq!(registry.len(), 0);
    assert_eq!(registry.insert(entry("qwen", 1_000, 10)), Ok(()));
    assert_eq!(registry.insert(entry("llama", 2_000, 20)), Ok(()));
    assert_eq!(
        registry.insert(entry("qwen", 3_000, 30)),
        Err(RegistryError::DuplicateModel("qwen".to_owned()))
    );
    assert_eq!(registry.len(), 2);
    assert_eq!(registry.get("qwen").unwrap().weights_bytes, 1_000);
    assert_eq!(registry.get("llama").unwrap().bytes_per_kv_token, 20);
    assert_eq!(registry.get("mistral"), Err(RegistryError::UnknownModel("mistral".to_owned())));
}

#[test]
fn dashboard_metrics_validate() {
    assert_eq!(DashboardSize::new(0, 10), Err(DashboardError::ZeroDimension));
    assert_eq!(DashboardSize::new(80, 24).unwrap().width, 80);
    assert!(MemoryTelemetry::new(MemoryBytes(1), MemoryBytes(1), MemoryBytes(2)).is_ok());
    assert_eq!(
        MemoryTelemetry::new(MemoryBytes(3), MemoryBytes(1), MemoryBytes(2)),
        Err(DashboardError::InvalidMetric)
    );
    assert_eq!(
        MemoryTelemetry::new(MemoryBytes(0), MemoryBytes(0), MemoryBytes(0)),
        Err(DashboardError::InvalidMetric)
    );
    assert!(KvResidency::new(4, 4).is_ok());
    assert_eq!(KvResidency::new(5, 4), Err(DashboardError::InvalidMetric));
    assert_eq!(KvResidency::new(0, 0), Err(DashboardError::InvalidMetric));
    assert_eq!(ActiveProfile::new(" "), Err(DashboardError::EmptyProfile));
    assert_eq!(ActiveProfile::new("balanced").unwrap().as_str(), "balanced");
}

#[test]
fn dashboard_keys_and_tabs() {
    assert_eq!(map_key(DashboardKey::Char('q')), DashboardCommand::Quit);
    assert_eq!(map_key(DashboardKey::Esc), DashboardCommand::Quit);
    assert_eq!(map_key(DashboardKey::Char(' ')), DashboardCommand::TogglePause);
    assert_eq!(map_key(DashboardKey::Tab), DashboardCommand::NextTab);
    assert_eq!(map_key(DashboardKey::Char('r')), DashboardCommand::Refresh);
    assert_eq!(map_key(DashboardKey::Char('x')), DashboardCommand::Ignore);
    assert_eq!(map_key_event(DashboardKey::Char('q'), false), DashboardCommand::Ignore);
    assert_eq!(map_key_event(DashboardKey::Char('q'), true), DashboardCommand::Quit);
    let tab = DashboardTab::Overview;
    assert_eq!(tab.next(), DashboardTab::Memory);
    assert_eq!(tab.next().next().next(), tab);
}

#[test]
fn dashboard_controls_follow_commands() {
    let mut controls = DashboardControls::new();
    assert!(controls.takes_refresh(false));
    controls.apply(DashboardCommand::TogglePause);
    assert!(controls.paused);
    assert!(!controls.takes_refresh(false));
    assert!(controls.takes_refresh(true));
    controls.apply(DashboardCommand::TogglePause);
    assert!(!controls.paused);
    controls.apply(DashboardCommand::NextTab);
    assert_eq!(controls.tab, DashboardTab::Memory);
    controls.apply(DashboardCommand::Quit);
    assert!(controls.quit);
    controls.apply(DashboardCommand::Refresh);
    assert!(controls.quit);
}

#[test]
fn recommends_by_memory() {
    let big = recommend(Some(64 * GIB));
    assert_eq!(big.recommendation, "quality-and-long-context");
    assert_eq!(big.comfortable_models, vec!["Qwen3.5 4B", "Qwen3.5 9B", "Qwen3.8 27B"]);
    assert_eq!(big.robust_but_delayed_models, vec!["verified 1M-context runtime"]);
    assert_eq!(recommend(Some(64 * GIB - 1)).recommendation, "quality-and-mid-size-models");
    assert_eq!(recommend(Some(16 * GIB)).recommendation, "small-and-mid-size-models");
    let small = recommend(Some(8 * GIB));
    assert_eq!(small.recommendation, "small-models-only");
    assert!(small.robust_but_delayed_models.is_empty());
    let unknown = recommend(None);
    assert_eq!(unknown.recommendation, "run-backend-benchmark");
    assert!(unknown.comfortable_models.is_empty());
    let report = hardware_report("linux".to_owned(), 8, Some(32 * GIB), 3);
    assert_eq!(report.recommendation, "quality-and-mid-size-models");
    assert_eq!(report.robust_but_delayed_models, vec!["Qwen3.8 27B", "long-context profiles"]);
    assert_eq!(report.logical_cpus, 8);
    assert_eq!(report.storage_probe_ms, 3);
}

#[test]
fn reads_host_memory() {
    let meminfo = "MemFree:   1000 kB\nMemTotal:       16384 kB\n";
    assert_eq!(parse_meminfo_total(meminfo), Some(16384 * 1024));
    assert_eq!(parse_meminfo_total("MemFree: 1 kB\n"), None);
    assert_eq!(parse_meminfo_total("MemTotal:\n"), None);
    assert_eq!(parse_meminfo_total("MemTotal: lots kB\n"), None);
    assert_eq!(parse_meminfo_total("MemTotal: 18446744073709551615 kB\n"), Some(u64::MAX));
    assert_eq!(parse_memsize("68719476736\n"), Some(68_719_476_736));
    assert_eq!(parse_memsize(" 12 "), Some(12));
    assert_eq!(parse_memsize("-1"), None);
    assert_eq!(parse_memsize(""), None);
}

#[test]
fn probes_backend_in_steps() {
    match after_version("http://u", "m", Err("refused".to_owned())) {
        BackendProbe::Finished(report) => {
            assert!(!report.reachable);
            assert!(!report.model_available);
            assert_eq!(report.error.as_deref(), Some("refused"));
            assert_eq!(report.upstream, "http://u");
        }
        other => panic!("unexpected {other:?}"),
    }
    assert_eq!(after_version("http://u", "m", Ok(())), BackendProbe::ListModels);
    match after_model_list("http://u", "m", false, true) {
        BackendProbe::Finished(report) => {
            assert!(report.reachable);
            assert!(!report.model_available);
            assert_eq!(report.error.as_deref(), Some(MODEL_NOT_PRESENT));
        }
        other => panic!("unexpected {other:?}"),
    }
    match after_model_list("http://u", "m", true, false) {
        BackendProbe::Finished(report) => {
            assert!(report.model_available);
            assert_eq!(report.error, None);
            assert_eq!(report.generation_ms, None);
        }
        other => panic!("unexpected {other:?}"),
    }
    assert_eq!(after_model_list("http://u", "m", true, true), BackendProbe::Generate);
    let done = after_generation("http://u", "m", Ok((250, Some(8))));
    assert_eq!(done.generation_ms, Some(250));
    assert_eq!(done.output_tokens, Some(8));
    let failed = after_generation("http://u", "m", Err("timeout".to_owned()));
    assert_eq!(failed.generation_ms, None);
    assert_eq!(failed.error.as_deref(), Some("timeout"));
}

#[test]
fn finds_model_in_list() {
    let names = Some(vec![None, Some("llama".to_owned()), Some("qwen".to_owned())]);
    assert!(model_listed(&names, "qwen"));
    assert!(!model_listed(&names, "mistral"));
    assert!(!model_listed(&None, "qwen"));
    assert!(!model_listed(&Some(vec![]), "qwen"));
}

#[test]
fn builds_prompts() {
    let messages = vec![message("system", "be brief"), ChatMessage { role: None, content: Some("x".to_owned()) }, message("user", "hi")];
    assert_eq!(anthropic_prompt(Some(messages.clone())), "system: be brief\nuser: hi");
    assert_eq!(anthropic_prompt(None), "");
    assert_eq!(openai_prompt(Some("plain".to_owned()), Some(messages.clone())), "plain");
    assert_eq!(openai_prompt(None, Some(messages)), "system: be brief\nuser: hi");
    assert_eq!(openai_prompt(None, None), "");
    assert_eq!(upstream_base("http://127.0.0.1:11434//"), "http://127.0.0.1:11434");
    assert_eq!(upstream_base("http://h"), "http://h");
}

#[test]
fn plans_upstream_chats() {
    let plan = plan_openai_chat("/v1/responses", "default", None, Some("hello".to_owned()), None, None, None);
    assert_eq!(plan.model, "default");
    assert_eq!(plan.prompt, "hello");
    assert!(!plan.stream);
    assert_eq!(plan.context_tokens, Some(DEFAULT_CONTEXT_TOKENS));
    assert_eq!(plan.format, ReplyFormat::Response);
    let plan = plan_openai_chat(
        "/v1/chat/completions",
        "default",
        Some("qwen".to_owned()),
        None,
        Some(vec![message("user", "hi")]),
        Some(true),
        Some(1024),
    );
    assert_eq!(plan.model, "qwen");
    assert_eq!(plan.prompt, "user: hi");
    assert!(plan.stream);
    assert_eq!(plan.context_tokens, Some(1024));
    assert_eq!(plan.format, ReplyFormat::ChatCompletion);
    let plan = plan_anthropic_messages("default", None, Some(vec![message("user", "hi")]), Some(false));
    assert_eq!(plan.model, "default");
    assert_eq!(plan.prompt, "user: hi");
    assert_eq!(plan.context_tokens, None);
    assert_eq!(plan.format, ReplyFormat::Message);
}

#[test]
fn lists_models_and_health() {
    assert_eq!(
        model_ids(vec![Some("a".to_owned()), None], "default"),
        vec!["a".to_owned(), "default".to_owned()]
    );
    let up = health_reply(true);
    assert_eq!((up.status_code, up.status, up.upstream), (200, "ok", "ready"));
    let down = health_reply(false);
    assert_eq!((down.status_code, down.status, down.upstream), (503, "degraded", "unavailable"));
}

#[test]
fn cuts_stream_into_lines() {
    let mut buffer = b"{\"a\":1}\r\n\npartial".to_vec();
    assert_eq!(take_stream_line(&mut buffer), Some(b"{\"a\":1}".to_vec()));
    assert_eq!(take_stream_line(&mut buffer), Some(Vec::new()));
    assert_eq!(take_stream_line(&mut buffer), None);
    assert_eq!(buffer, b"partial".to_vec());
}

#[test]
fn emits_stream_events() {
    assert_eq!(
        openai_stream_events("Hel", false),
        vec![StreamEvent::Chunk { content: "Hel".to_owned(), finished: false }]
    );
    assert_eq!(
        openai_stream_events("", true),
        vec![StreamEvent::Chunk { content: String::new(), finished: true }, StreamEvent::Done]
    );
    assert_eq!(anthropic_stream_events("", false), Vec::new());
    assert_eq!(
        anthropic_stream_events("lo", true),
        vec![
            StreamEvent::TextDelta("lo".to_owned()),
            StreamEvent::MessageDelta,
            StreamEvent::MessageStop
        ]
    );
}

#[test]
fn selects_and_classifies_commands() {
    assert_eq!(select_command("sanctum-doctor", Some("serve")), "sanctum-doctor");
    assert_eq!(select_command("sanctum", Some("benchmark")), "benchmark");
    assert_eq!(select_command("sanctum", None), "serve");
    assert_eq!(classify_command("serve"), CliCommand::Serve);
    assert_eq!(classify_command("sanctum-doctor"), CliCommand::Doctor);
    assert_eq!(classify_command("benchmark"), CliCommand::Benchmark);
    assert_eq!(classify_command("sanctum-aider"), CliCommand::Agent);
    assert_eq!(classify_command("--help"), CliCommand::Help);
    assert_eq!(classify_command("deploy"), CliCommand::Unknown);
}

#[test]
fn launches_agents_against_gateway() {
    let endpoint = gateway_endpoint("127.0.0.1", "8080");
    assert_eq!(endpoint, "http://127.0.0.1:8080");
    let launch = agent_launch("sanctum-opencode", &endpoint).unwrap();
    assert_eq!(launch.program, "opencode");
    assert_eq!(
        launch.variables,
        vec![
            ("OPENAI_BASE_URL".to_owned(), "http://127.0.0.1:8080/v1".to_owned()),
            ("OPENAI_API_KEY".to_owned(), "local".to_owned())
        ]
    );
    let launch = agent_launch("aider", &endpoint).unwrap();
    assert_eq!(launch.program, "aider");
    assert_eq!(launch.variables[0].0, "OPENAI_API_BASE");
    assert_eq!(agent_launch("vim", &endpoint), None);
}

#[test]
fn waits_for_servers() {
    assert!(manages_upstream(None));
    assert!(manages_upstream(Some("1")));
    assert!(!manages_upstream(Some("0")));
    let mut wait = ReadinessWait::new(2);
    assert_eq!(wait.observe(false, false), WaitOutcome::Retry);
    assert_eq!(wait.observe(true, false), WaitOutcome::Ready);
    assert_eq!(wait.observe(false, false), WaitOutcome::GaveUp);
    let mut exiting = ReadinessWait::new(UPSTREAM_READY_ATTEMPTS);
    assert_eq!(exiting.observe(false, true), WaitOutcome::Exited);
    assert_eq!(exiting.remaining, UPSTREAM_READY_ATTEMPTS);
    let mut patient = ReadinessWait::new(GATEWAY_READY_ATTEMPTS);
    let mut probes = 0;
    while patient.observe(false, false) == WaitOutcome::Retry {
        probes += 1;
    }
    assert_eq!(probes + 1, GATEWAY_READY_ATTEMPTS);
}

#[test]
fn gateway_prompt_lowercases_unicode() {
    let prompt = GatewayPrompt::new("ÄRGER Über").unwrap();
    assert_eq!(prompt.normalized(), "ärger über");
    assert_eq!(prompt.as_str(), "ÄRGER Über");
}

#[test]
fn history_keeps_latest_samples() {
    assert!(matches!(MetricHistory::<f64, f32>::new(0), Err(DashboardError::InvalidMetric)));
    let mut history = MetricHistory::<f64, f32>::new(2).unwrap();
    history.record(1.0, 0.1, 0.5);
    history.record(2.0, 0.2, 0.6);
    assert_eq!(history.token_rates().iter().copied().collect::<Vec<_>>(), vec![1.0, 2.0]);
    history.record(3.0, 0.3, 0.7);
    assert_eq!(history.token_rates().iter().copied().collect::<Vec<_>>(), vec![2.0, 3.0]);
    assert_eq!(history.wired_ratios().iter().copied().collect::<Vec<_>>(), vec![0.2, 0.3]);
    assert_eq!(history.performance_ratios().iter().copied().collect::<Vec<_>>(), vec![0.6, 0.7]);
}

