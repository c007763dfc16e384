use sanctum::arbiter::{BYTES_PER_GIB, WIRED_LIMIT_BYTES};
use sanctum::context::{ContextError, SourceDocument, SourceLanguage, SourceRange};
use sanctum::gateway::{GatewayError, GatewayPrompt};
use sanctum::plugin::{PluginEndpoint, PluginError, PluginId, PluginProtocol};
use sanctum::prefill::{PrefillError, PrefillStep, ScratchBudget, TokenCount};
use sanctum::speculative::{
    ContextCapacity, DraftModel, ParameterCount, SpeculativeError, TargetModel,
};
use sanctum::supervisor::{BackendKind, ExecutablePath, ModelPath, SupervisorError};

#[test]
fn defines_binary_gibibyte() {
    assert_eq!(BYTES_PER_GIB, 1_073_741_824);
    assert_eq!(WIRED_LIMIT_BYTES, 10_905_190_400);
}

#[test]
fn formats_llama_server_backend() {
    assert_eq!(BackendKind::LlamaServer.name(), "llama-server");
}

#[test]
fn formats_mlx_backend() {
    assert_eq!(BackendKind::MlxLm.name(), "mlx-lm");
}

#[test]
fn rejects_relative_executable_path() {
    assert!(matches!(
        ExecutablePath::new("bin/server"),
        Err(SupervisorError::RelativePath {
            field: "executable",
            ..
        })
    ));
}

#[test]
fn accepts_absolute_executable_path() {
    let path = ExecutablePath::new("/usr/bin/true").unwrap();
    assert_eq!(
        std::path::Path::new(path.as_path()),
        std::path::Path::new("/usr/bin/true")
    );
}

#[test]
fn model_paths_must_be_absolute() {
    assert!(matches!(
        ModelPath::new("models/q.gguf"),
        Err(SupervisorError::RelativePath { field: "model", .. })
    ));
    assert_eq!(ModelPath::new("/m/q.gguf").unwrap().as_path(), "/m/q.gguf");
}

#[test]
fn resolves_cpp_extension() {
    assert_eq!(
        SourceLanguage::from_extension("hpp").unwrap(),
        SourceLanguage::Cpp
    );
}

#[test]
fn resolves_python_extension() {
    assert_eq!(
        SourceLanguage::from_extension("py").unwrap(),
        SourceLanguage::Python
    );
}

#[test]
fn resolves_rust_extension() {
    assert_eq!(
        SourceLanguage::from_extension(".rs").unwrap(),
        SourceLanguage::Rust
    );
}

#[test]
fn resolves_typescript_extension() {
    assert_eq!(
        SourceLanguage::from_extension("tsx").unwrap(),
        SourceLanguage::TypeScript
    );
}

#[test]
fn rejects_unknown_extension() {
    assert!(SourceLanguage::from_extension("java").is_err());
    assert_eq!(
        SourceLanguage::from_extension("java"),
        Err(ContextError::UnsupportedExtension("java".into()))
    );
}

#[test]
fn rejects_empty_source_path() {
    assert!(SourceDocument::new("", b"x".to_vec()).is_err());
}

#[test]
fn rejects_empty_source_bytes() {
    assert!(SourceDocument::new("x.py", vec![]).is_err());
}

#[test]
fn keeps_document_path_and_bytes() {
    let d = SourceDocument::new("x.rs", b"fn f() {}".to_vec()).unwrap();
    assert_eq!(d.path(), "x.rs");
    assert_eq!(d.source(), b"fn f() {}");
    assert_eq!(
        SourceDocument::new("", vec![]),
        Err(ContextError::EmptyPath)
    );
}

#[test]
fn rejects_inverted_source_range() {
    assert!(SourceRange::new(2, 1).is_err());
    assert_eq!(SourceRange::new(1, 1), Ok(SourceRange { start: 1, end: 1 }));
}

#[test]
fn gateway_prompts_must_not_be_blank() {
    assert_eq!(GatewayPrompt::new(" \t\n"), Err(GatewayError::EmptyPrompt));
    let p = GatewayPrompt::new("Hello WORLD").unwrap();
    assert_eq!(p.as_str(), "Hello WORLD");
    assert_eq!(p.normalized(), "hello world");
    assert_eq!(GatewayPrompt::new("ÀB").unwrap().normalized(), "àb");
}

#[test]
fn plugin_ids_and_endpoints() {
    assert_eq!(
        PluginId::new("  "),
        Err(PluginError::EmptyField { field: "plugin_id" })
    );
    assert_eq!(PluginId::new("ocr").unwrap().as_str(), "ocr");
    assert_eq!(
        PluginEndpoint::new(PluginProtocol::Http, "local host:80"),
        Err(PluginError::InvalidEndpoint)
    );
    assert_eq!(
        PluginEndpoint::new(PluginProtocol::Grpc, ""),
        Err(PluginError::InvalidEndpoint)
    );
    let e = PluginEndpoint::new(PluginProtocol::Grpc, "127.0.0.1:50051").unwrap();
    assert_eq!(e.uri(), "grpc://127.0.0.1:50051");
    let h = PluginEndpoint::new(PluginProtocol::Http, "example.org").unwrap();
    assert_eq!(h.uri(), "http://example.org");
}

#[test]
fn prefill_chunk_sizes() {
    assert_eq!(TokenCount::new(0), Err(PrefillError::EmptyRequest));
    assert_eq!(
        PrefillStep::for_tokens(TokenCount::new(512).unwrap()),
        PrefillStep::Tokens512
    );
    assert_eq!(
        PrefillStep::for_tokens(TokenCount::new(513).unwrap()),
        PrefillStep::Tokens1024
    );
    assert_eq!(PrefillStep::Tokens1024.tokens(), 1024);
    assert_eq!(PrefillStep::Tokens512.tokens(), 512);
    assert_eq!(ScratchBudget::new(0), Err(PrefillError::ZeroBudget));
    assert_eq!(ScratchBudget::new(7).unwrap().bytes(), 7);
    assert_eq!(TokenCount::new(9).unwrap().get(), 9);
}

#[test]
fn speculative_model_bounds() {
    assert_eq!(
        ParameterCount::new(0),
        Err(SpeculativeError::ZeroValue("parameter count"))
    );
    let small = ParameterCount::new(1_999_999_999).unwrap();
    let limit = ParameterCount::new(2_000_000_000).unwrap();
    assert!(DraftModel::new("draft", small).is_ok());
    assert_eq!(
        DraftModel::new("draft", limit),
        Err(SpeculativeError::DraftModelTooLarge(2_000_000_000))
    );
    assert_eq!(
        TargetModel::new("target", limit),
        Err(SpeculativeError::TargetModelTooSmall(2_000_000_000))
    );
    let big = ParameterCount::new(7_000_000_000).unwrap();
    let t = TargetModel::new("target", big).unwrap();
    assert_eq!(t.name, "target");
    assert_eq!(t.parameters.get(), 7_000_000_000);
    assert_eq!(
        ContextCapacity::new(0),
        Err(SpeculativeError::ZeroValue("context capacity"))
    );
    assert_eq!(ContextCapacity::new(4096).unwrap().get(), 4096);
}
