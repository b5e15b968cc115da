use quickapp_deploy::fsmodel::DeployDirPlan;
use quickapp_deploy::lookup::{build_payload, catalog_endpoint, extract_download_url, url_or_empty};
use quickapp_deploy::params::{CmdArgs, DeployParam};
use quickapp_deploy::pipeline::{
    download_path, DeployAction, DeployEvent, DeployProcessor, Stage,
};

fn resolved(package: &str, workspace: Option<&str>, replace: Option<bool>) -> DeployParam {
    DeployParam::from_args(CmdArgs {
        package_name: package.to_string(),
        workspace: workspace.map(|w| w.to_string()),
        replace_if_exists: replace,
    })
}

#[test]
fn test_cmd_args_parse() {}

#[test]
fn resolve_with_workspace_override() {
    let p = resolved("demoapp", Some("/srv/apps"), Some(false));
    assert_eq!(p.package_name, "demoapp");
    assert_eq!(p.deploy_dir, "/srv/apps/demoapp");
    assert!(!p.replace_if_exists);
}

#[test]
fn resolve_with_defaults() {
    let p = resolved("demoapp", None, None);
    assert_eq!(p.deploy_dir, "/opt/xxxx/yyyy/demoapp");
    assert!(p.replace_if_exists);
}

#[test]
fn build_payload_appends_package_name() {
    assert_eq!(build_payload("query-template:", "com.example.app"), "query-template:com.example.app");
    assert_eq!(build_payload("", "x"), "x");
}

#[test]
fn catalog_endpoint_value() {
    assert_eq!(
        catalog_endpoint(),
        "http://stores1.hispace.hicloud.com/hwmarket/api/tlsApis"
    );
}

#[test]
fn download_path_value() {
    assert_eq!(download_path("demoapp"), "/tmp/download/demoapp.rpk");
}

#[test]
fn url_or_empty_keeps_found_url() {
    assert_eq!(url_or_empty(Some("http://h/a.rpk".to_string())), "http://h/a.rpk");
    assert_eq!(url_or_empty(None), "");
}

#[test]
fn extract_url_from_full_response() {
    let body = b"{\"rpkInfo\":{\"url\":\"http://host/pkg.rpk\"},\"rtnCode\":0}";
    assert_eq!(extract_download_url(body), Ok("http://host/pkg.rpk".to_string()));
}

#[test]
fn extract_url_missing_keys_yields_empty() {
    assert_eq!(extract_download_url(b"{}"), Ok(String::new()));
    assert_eq!(extract_download_url(b"{\"rpkInfo\":{}}"), Ok(String::new()));
    assert_eq!(extract_download_url(b"{\"rpkInfo\":{\"url\":7}}"), Ok(String::new()));
}

#[test]
fn extract_url_rejects_bad_responses() {
    assert!(extract_download_url(b"not json at all").is_err());
    assert_eq!(
        extract_download_url(b"[1,2,3]"),
        Err("lookup response is not a JSON object".to_string())
    );
}

#[test]
fn env_init_plans() {
    let d = DeployProcessor::new(resolved("pkg", Some("/w"), Some(true)));
    assert!(matches!(
        d.env_init(true, true),
        DeployAction::PrepareEnv {
            create_download_dir: false,
            deploy_plan: DeployDirPlan::RemoveThenCreate,
        }
    ));
    assert!(matches!(
        d.env_init(false, false),
        DeployAction::PrepareEnv {
            create_download_dir: true,
            deploy_plan: DeployDirPlan::Create,
        }
    ));
    let keep = DeployProcessor::new(resolved("pkg", Some("/w"), Some(false)));
    assert!(matches!(
        keep.env_init(true, true),
        DeployAction::PrepareEnv { create_download_dir: false, deploy_plan: DeployDirPlan::Leave }
    ));
}

#[test]
fn successful_run_asks_for_each_stage_in_order() {
    let mut d = DeployProcessor::new(resolved("demoapp", Some("/srv/apps"), None));

    let a = d.process(DeployEvent::Started { download_dir_exists: false, deploy_dir_exists: false });
    assert!(matches!(
        a,
        DeployAction::PrepareEnv { create_download_dir: true, deploy_plan: DeployDirPlan::Create }
    ));

    let a = d.process(DeployEvent::EnvReady);
    match a {
        DeployAction::PostLookup { endpoint, package_name } => {
            assert_eq!(endpoint, "http://stores1.hispace.hicloud.com/hwmarket/api/tlsApis");
            assert_eq!(package_name, "demoapp");
        }
        other => panic!("expected a lookup action, got {:?}", other),
    }

    let a = d.process(DeployEvent::LookupResult(Ok("http://host/demoapp.rpk".to_string())));
    match a {
        DeployAction::Fetch { url, dest } => {
            assert_eq!(url, "http://host/demoapp.rpk");
            assert_eq!(dest, "/tmp/download/demoapp.rpk");
        }
        other => panic!("expected a fetch action, got {:?}", other),
    }

    let a = d.process(DeployEvent::FetchResult(Ok("/tmp/download/demoapp.rpk".to_string())));
    match a {
        DeployAction::Unzip { archive, dest } => {
            assert_eq!(archive, "/tmp/download/demoapp.rpk");
            assert_eq!(dest, "/srv/apps/demoapp");
        }
        other => panic!("expected an unzip action, got {:?}", other),
    }

    let a = d.process(DeployEvent::UnzipResult(Ok(())));
    match a {
        DeployAction::WriteFile { path, contents } => {
            assert_eq!(path, "/srv/apps/demoapp/cp.cert");
            assert_eq!(contents, "123123123");
        }
        other => panic!("expected a write action, got {:?}", other),
    }

    let a = d.process(DeployEvent::SignResult(Ok(())));
    assert!(matches!(a, DeployAction::Succeed));
    assert_eq!(d.stage, Stage::Done);
}

#[test]
fn fetch_error_aborts_before_extraction() {
    let mut d = DeployProcessor::new(resolved("demoapp", Some("/srv/apps"), None));
    d.process(DeployEvent::Started { download_dir_exists: true, deploy_dir_exists: false });
    d.process(DeployEvent::EnvReady);
    d.process(DeployEvent::LookupResult(Ok("http://host/demoapp.rpk".to_string())));

    let a = d.process(DeployEvent::FetchResult(Err("connection refused".to_string())));
    match a {
        DeployAction::Fail { message } => assert_eq!(message, "connection refused"),
        other => panic!("expected a failure report, got {:?}", other),
    }
    assert_eq!(d.stage, Stage::Failed);

    // A failed pipeline never asks for an unpack, only further failure reports.
    let a = d.process(DeployEvent::UnzipResult(Ok(())));
    assert!(matches!(a, DeployAction::Fail { .. }));
    assert_eq!(d.stage, Stage::Failed);
}

#[test]
fn lookup_error_aborts() {
    let mut d = DeployProcessor::new(resolved("demoapp", Some("/srv/apps"), None));
    d.process(DeployEvent::Started { download_dir_exists: true, deploy_dir_exists: true });
    d.process(DeployEvent::EnvReady);
    let a = d.process(DeployEvent::LookupResult(Err("catalog unreachable".to_string())));
    match a {
        DeployAction::Fail { message } => assert_eq!(message, "catalog unreachable"),
        other => panic!("expected a failure report, got {:?}", other),
    }
    assert_eq!(d.stage, Stage::Failed);
}

#[test]
fn unexpected_event_fails() {
    let mut d = DeployProcessor::new(resolved("demoapp", Some("/srv/apps"), None));
    let a = d.process(DeployEvent::EnvReady);
    match a {
        DeployAction::Fail { message } => assert_eq!(message, "unexpected event"),
        other => panic!("expected a failure report, got {:?}", other),
    }
    assert_eq!(d.stage, Stage::Failed);
}

#[test]
fn create_cert_sign_action() {
    let a = DeployProcessor::create_cert_sign("/srv/apps/demoapp");
    match a {
        DeployAction::WriteFile { path, contents } => {
            assert_eq!(path, "/srv/apps/demoapp/cp.cert");
            assert_eq!(contents, "123123123");
        }
        other => panic!("expected a write action, got {:?}", other),
    }
}
