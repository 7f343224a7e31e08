use rust_jsr_registry::error::{DecodeError, FetchError, TransportKind};
use rust_jsr_registry::fetcher::{wants_body, Fetcher, FetcherBuilder, Host, HostSelector, Response};
use rust_jsr_registry::graph::{DependencyKind, DependencyType};
use rust_jsr_registry::info::{GetInfo, Info};
use rust_jsr_registry::meta::{Meta, MetaBuilder, VersionInfo};
use rust_jsr_registry::package::{Manifest, PackageBuilder};
use rust_jsr_registry::version::SemVer;

const META_A: &str = r#"{"scope":"dunno","name":"object","latest":"1.1.0","versions":{"1.0.0":{},"1.1.0":{"yanked":true}}}"#;

fn ok(body: &str) -> Response {
    Response::Answered { status: 200, body: Ok(body.to_string()) }
}

fn status(code: u16) -> Response {
    Response::Answered { status: code, body: Ok(String::new()) }
}

fn fetcher() -> Fetcher {
    Fetcher::new(FetcherBuilder::new())
}

#[test]
fn meta_404_is_absent() {
    assert!(matches!(fetcher().read_meta(&status(404)), Ok(None)));
}

#[test]
fn meta_500_is_http_error_without_url() {
    let f = fetcher();
    let r = f.read_meta(&status(500));
    let e = r.unwrap_err();
    assert!(matches!(e, FetchError::Http(500)));
    let msg = e.message();
    assert_eq!(msg, "HTTP status 500");
    let url = f.meta_url(&MetaBuilder::new().set_scope("dunno").set_name("object"));
    assert!(!msg.contains(&url));
    assert!(!msg.contains("://"));
    assert!(!msg.contains("jsr.io"));
}

#[test]
fn error_never_holds_request_url_or_host() {
    let f = fetcher();
    let value = MetaBuilder::new().set_scope("dunno").set_name("object");
    let url = format!("{}@{}/{}/meta.json", f.host.base(HostSelector::Main), value.scope, value.name);
    assert_eq!(url, f.meta_url(&value));
    for response in [status(500), status(403), Response::Failed(TransportKind::Connect), ok("{"), ok("{}")] {
        let e = f.read_meta(&response).unwrap_err();
        assert!(!e.message().contains(&url));
        assert!(!format!("{:?}", e).contains(&url));
        assert!(!e.message().contains(f.host.base(HostSelector::Main)));
        assert!(!e.message().contains(f.host.base(HostSelector::NpmComp)));
    }
}

#[test]
fn hosts_must_be_absolute_urls() {
    assert!(Host::new().set_main("H").is_none());
    assert!(Host::new().set_npm_comp("/relative").is_none());
    let h = Host::new().set_main("HTTP://Example.com").unwrap();
    assert_eq!(h.base(HostSelector::Main), "http://example.com/");
    assert_eq!(h.base(HostSelector::NpmComp), "https://npm.jsr.io/");
}

#[test]
fn transport_failure_and_unreadable_body() {
    let f = fetcher();
    assert!(matches!(f.read_meta(&Response::Failed(TransportKind::Connect)), Err(FetchError::Transport(TransportKind::Connect))));
    let r = f.read_meta(&Response::Answered { status: 200, body: Err(TransportKind::Body) });
    assert!(matches!(r, Err(FetchError::Transport(TransportKind::Body))));
    assert_eq!(FetchError::Transport(TransportKind::Timeout).message(), "transport failure (timeout)");
}

#[test]
fn other_client_error_is_http() {
    assert!(matches!(fetcher().read_meta(&status(403)), Err(FetchError::Http(403))));
    assert!(matches!(fetcher().read_meta(&status(302)), Err(FetchError::Http(302))));
    assert!(wants_body(200) && wants_body(299) && !wants_body(300) && !wants_body(404));
}

#[test]
fn body_that_is_not_json_or_wrong_shape_is_decode_error() {
    let f = fetcher();
    assert!(matches!(f.read_meta(&ok("<html>")), Err(FetchError::Decode(DecodeError::NotJson))));
    assert!(matches!(f.read_meta(&ok(r#"{"scope":"dunno"}"#)), Err(FetchError::Decode(DecodeError::Mismatch(_)))));
    assert_eq!(FetchError::Decode(DecodeError::NotJson).message(), "response body is not JSON");
}

#[test]
fn meta_decodes() {
    let m = fetcher().read_meta(&ok(META_A)).unwrap().unwrap();
    assert_eq!(m.scope, "dunno");
    assert_eq!(m.name, "object");
    assert_eq!(m.latest, SemVer::new(1, 1, 0));
    assert_eq!(m.versions.len(), 2);
    assert_eq!(m.versions[0], (SemVer::new(1, 0, 0), VersionInfo { yanked: false }));
    assert_eq!(m.versions[1], (SemVer::new(1, 1, 0), VersionInfo { yanked: true }));
    let info = m.get_info();
    assert_eq!(info, Info { scope: "dunno".to_string(), name: "object".to_string() });
}

#[test]
fn meta_with_bad_version_key_fails() {
    let body = r#"{"scope":"a","name":"b","latest":"1.0.0","versions":{"one":{}}}"#;
    assert!(matches!(fetcher().read_meta(&ok(body)), Err(FetchError::Decode(_))));
}

#[test]
fn meta_equality_ignores_versions() {
    let f = fetcher();
    let a = f.read_meta(&ok(META_A)).unwrap().unwrap();
    let b = f.read_meta(&ok(r#"{"scope":"dunno","name":"object","latest":"1.1.0","versions":{"1.1.0":{}}}"#)).unwrap().unwrap();
    assert!(a == b);
    let c: Meta = f.read_meta(&ok(r#"{"scope":"dunno","name":"object","latest":"1.0.0","versions":{}}"#)).unwrap().unwrap();
    assert!(a != c);
}

fn batch_of_three() -> Vec<MetaBuilder> {
    vec![
        MetaBuilder::new().set_scope("a").set_name("x"),
        MetaBuilder::new().set_scope("b").set_name("y"),
        MetaBuilder::new().set_scope("c").set_name("z"),
    ]
}

#[test]
fn batch_fails_fast_on_error() {
    let f = fetcher();
    let mut batch = f.meta_batch(&batch_of_three());
    assert_eq!(batch.next_url().unwrap(), "https://jsr.io/@a/x/meta.json");
    batch.receive(&ok(META_A));
    assert_eq!(batch.next_url().unwrap(), "https://jsr.io/@b/y/meta.json");
    batch.receive(&status(500));
    assert!(batch.next_url().is_none());
    assert!(matches!(batch.finish(), Err(FetchError::Http(500))));
}

#[test]
fn batch_drops_absent_results() {
    let f = fetcher();
    let mut batch = f.meta_batch(&batch_of_three());
    batch.receive(&ok(META_A));
    batch.receive(&status(404));
    assert_eq!(batch.next_url().unwrap(), "https://jsr.io/@c/z/meta.json");
    batch.receive(&ok(META_A));
    assert!(batch.next_url().is_none());
    let metas = batch.finish().unwrap();
    assert_eq!(metas.len(), 2);
}

#[test]
fn empty_batch_gives_empty_list() {
    let f = fetcher();
    let batch = f.meta_batch(&vec![]);
    assert!(batch.next_url().is_none());
    assert_eq!(batch.finish().unwrap().len(), 0);
}

#[test]
fn request_urls() {
    let f = fetcher();
    let info = MetaBuilder::new().set_scope("dunno").set_name("object");
    assert_eq!(f.meta_url(&info), "https://jsr.io/@dunno/object/meta.json");
    assert_eq!(f.npm_comp_meta_url(&info), "https://npm.jsr.io/@jsr/dunno__object");
    let pkg = PackageBuilder::from_info(&info).set_version(SemVer::parse("1.5.2").unwrap());
    assert_eq!(f.package_url(&pkg), "https://jsr.io/@dunno/object/1.5.2_meta.json");
    let urls: Vec<String> = {
        let mut b = f.package_batch(&vec![pkg.clone()]);
        let u = b.next_url().unwrap().clone();
        b.receive(&status(404));
        vec![u]
    };
    assert_eq!(urls, vec!["https://jsr.io/@dunno/object/1.5.2_meta.json".to_string()]);
}

#[test]
fn custom_hosts_and_provider() {
    let host = Host::new().set_main("http://localhost:8000").unwrap().set_npm_comp("http://localhost:9000/").unwrap();
    let f = Fetcher::new(FetcherBuilder::new().set_host(&host).set_provider_scope("corp"));
    let info = MetaBuilder::new().set_scope("s").set_name("n");
    assert_eq!(f.meta_url(&info), "http://localhost:8000/@s/n/meta.json");
    assert_eq!(f.npm_comp_meta_url(&info), "http://localhost:9000/@corp/s__n");
    assert_eq!(host.base(HostSelector::NpmComp), "http://localhost:9000/");
    let mut b = f.npm_comp_meta_batch(&vec![info]);
    assert_eq!(b.next_url().unwrap(), "http://localhost:9000/@corp/s__n");
    b.receive(&status(404));
    assert_eq!(b.finish().unwrap().len(), 0);
}

#[test]
fn package_builder_defaults_and_equality() {
    let a = PackageBuilder::new();
    assert_eq!(a.scope, "");
    assert_eq!(a.version, SemVer::new(0, 0, 0));
    let b = PackageBuilder::new().set_scope("x").set_name("y");
    assert!(a != b);
    assert!(b == PackageBuilder::from_info(&Info { scope: "x".to_string(), name: "y".to_string() }));
}

#[test]
fn package_decodes() {
    let body = r#"{
        "manifest": {"/mod.ts": {"size": 120, "checksum": "sha256-abc"}},
        "moduleGraph2": {"/mod.ts": {"dependencies": [
            {"type": "static", "kind": "import", "specifier": "./a.ts", "specifierRange": [[0, 17], [0, 25]]},
            {"type": "dynamic", "kind": "export", "specifier": "./b.ts", "specifierRange": [[1, 2], [1, 9]]}
        ]}, "/a.ts": {}},
        "exports": {".": "./mod.ts"}
    }"#;
    let p = fetcher().read_package(&ok(body)).unwrap().unwrap();
    assert_eq!(p.manifest, vec![("/mod.ts".to_string(), Manifest { size: 120, checksum: "sha256-abc".to_string() })]);
    assert!(p.module_graph1.is_none());
    let g2 = p.module_graph2.unwrap();
    assert_eq!(g2.len(), 2);
    let mod_ts = g2.iter().find(|e| e.0 == "/mod.ts").unwrap();
    let deps = mod_ts.1.dependencies.as_ref().unwrap();
    assert_eq!(deps.len(), 2);
    assert_eq!(deps[0].dependency_type, DependencyType::Static);
    assert_eq!(deps[1].kind, DependencyKind::Export);
    assert_eq!(deps[0].specifier_range, ((0, 17), (0, 25)));
    assert!(deps[0] < deps[1]);
    assert_eq!(deps[0].cmp_range(&deps[0]), std::cmp::Ordering::Equal);
    let a_ts = g2.iter().find(|e| e.0 == "/a.ts").unwrap();
    assert!(a_ts.1.dependencies.is_none());
    assert_eq!(p.exports, vec![(".".to_string(), "./mod.ts".to_string())]);
}

#[test]
fn package_rejects_bad_dependency_kind_and_range() {
    let bad_kind = r#"{"manifest":{},"moduleGraph2":{"/m.ts":{"dependencies":[{"type":"static","kind":"reexport","specifier":"x","specifierRange":[[0,0],[0,1]]}]}},"exports":{}}"#;
    assert!(matches!(fetcher().read_package(&ok(bad_kind)), Err(FetchError::Decode(DecodeError::Mismatch(_)))));
    let bad_range = r#"{"manifest":{},"moduleGraph2":{"/m.ts":{"dependencies":[{"type":"static","kind":"import","specifier":"x","specifierRange":[[0,0,0],[0,1]]}]}},"exports":{}}"#;
    assert!(matches!(fetcher().read_package(&ok(bad_range)), Err(FetchError::Decode(_))));
    let negative_size = r#"{"manifest":{"/m.ts":{"size":-1,"checksum":"x"}},"exports":{}}"#;
    assert!(matches!(fetcher().read_package(&ok(negative_size)), Err(FetchError::Decode(_))));
}

#[test]
fn package_keeps_module_graph1_raw() {
    let body = r#"{"manifest":{},"moduleGraph1":{"/m.ts":{"deps":["x"]}},"moduleGraph2":null,"exports":{}}"#;
    let p = fetcher().read_package(&ok(body)).unwrap().unwrap();
    let g1 = p.module_graph1.unwrap();
    assert_eq!(g1.len(), 1);
    assert_eq!(g1[0].0, "/m.ts");
    assert!(p.module_graph2.is_none());
}

#[test]
fn npm_comp_meta_decodes() {
    let body = r#"{
        "name": "@jsr/dunno__object",
        "description": "objects",
        "dist-tags": {"latest": "1.0.0"},
        "versions": {"1.0.0": {
            "name": "@jsr/dunno__object", "version": "1.0.0", "description": "objects",
            "dist": {"tarball": "https://npm.jsr.io/~/11/@jsr/dunno__object/1.0.0.tgz", "shasum": "abc", "integrity": "sha512-xyz"},
            "dependencies": {"@jsr/std__path": "^1.0.0"}
        }},
        "time": {"created": "2023-01-01T00:00:00Z", "modified": "2023-06-01T00:00:00Z", "1.0.0": "2023-01-01T00:00:00Z"}
    }"#;
    let m = fetcher().read_npm_comp_meta(&ok(body)).unwrap().unwrap();
    assert_eq!(m.name, "@jsr/dunno__object");
    assert_eq!(m.dist_tags.latest, SemVer::new(1, 0, 0));
    assert_eq!(m.versions.len(), 1);
    let p = &m.versions[0].1;
    assert_eq!(p.dist.tarball, "https://npm.jsr.io/~/11/@jsr/dunno__object/1.0.0.tgz");
    assert_eq!(p.dependencies[0].0, "@jsr/std__path");
    assert_eq!(p.dependencies[0].1.text, "^1.0.0");
    assert_eq!(m.time.versions.inner_ref().len(), 1);
    let b = MetaBuilder::from_npm_comp_name(&fetcher(), &m.name);
    assert_eq!(b.scope, "dunno");
}

#[test]
fn npm_comp_meta_rejects_relative_tarball() {
    let body = r#"{"name":"@jsr/a__b","description":"","dist-tags":{"latest":"1.0.0"},
        "versions":{"1.0.0":{"name":"@jsr/a__b","version":"1.0.0","description":"","dist":{"tarball":"/x.tgz","shasum":"","integrity":""},"dependencies":{}}},
        "time":{"created":"2023-01-01T00:00:00Z","modified":"2023-01-01T00:00:00Z"}}"#;
    assert!(matches!(fetcher().read_npm_comp_meta(&ok(body)), Err(FetchError::Decode(DecodeError::Mismatch(_)))));
}
