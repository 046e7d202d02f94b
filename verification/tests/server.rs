use actix_net::server::config::{ConfiguredService, RuntimeConfig, ServiceConfig, ServiceRuntime, Token};

#[test]
fn service_config_listen_and_bind() {
    let mut cfg: ServiceConfig<u16, &str> = ServiceConfig::new(4, 128);
    cfg.workers(2);
    cfg.bind("web", vec![80, 8080]);
    cfg.listen("admin", 9000);
    let mut cfg2: ServiceConfig<u16, &str> = ServiceConfig::new(1, 1);
    cfg2.bind("none", vec![]);
    cfg2.apply("configure");
    let _ = (cfg, cfg2);
    let _ = RuntimeConfig::<u8>::NotConfigured;
}

#[test]
fn configured_service_registry() {
    let mut cs: ConfiguredService<&str, u16> = ConfiguredService::new("rt");
    cs.stream(Token(0), "web".to_string(), 80);
    cs.stream(Token(1), "admin".to_string(), 9000);
    assert_eq!(cs.name(Token(1)), "admin");
    assert_eq!(cs.address(Token(0)), 80);
    // registering a token again replaces its entry
    cs.stream(Token(1), "admin2".to_string(), 9001);
    assert_eq!(cs.name(Token(1)), "admin2");
    assert_eq!(cs.address(Token(1)), 9001);

    let mut rt: ServiceRuntime<&str, ()> = cs.runtime();
    assert!(rt.has_name("web"));
    assert!(rt.has_name("admin2"));
    assert!(!rt.has_name("mail"));
    rt.service("web", "web factory");
    rt.on_start(());
    let missing = rt.validate();
    assert_eq!(missing, vec!["admin".to_string(), "admin2".to_string()]);
    // "admin" still names token 1, which "admin2" now configures too
    rt.service("admin2", "admin factory");
    assert!(rt.validate().is_empty());
    let (services, onstart) = rt.into_parts();
    assert_eq!(onstart.len(), 1);
    let plan = cs.construction_plan(services);
    assert_eq!(plan, vec![(Token(0), 80, "web factory"), (Token(1), 9001, "admin factory")]);
}

#[test]
fn services_made_only_after_start_up_succeeds() {
    let mut cs: ConfiguredService<&str, u16> = ConfiguredService::new("rt");
    cs.stream(Token(0), "web".to_string(), 80);
    let ok: Vec<Result<(), &str>> = vec![Ok(()), Ok(())];
    let plan = cs.plan_after_start(&ok, vec![(Token(0), "web factory")]);
    assert_eq!(plan, Some(vec![(Token(0), 80, "web factory")]));
    let failed: Vec<Result<(), &str>> = vec![Ok(()), Err("db down")];
    assert_eq!(cs.plan_after_start(&failed, vec![(Token(0), "web factory")]), None);
    // a failed start-up makes nothing, so an unknown token is never looked up
    assert_eq!(cs.plan_after_start(&failed, vec![(Token(7), "other")]), None);
    let none: Vec<Result<(), &str>> = Vec::new();
    assert_eq!(cs.plan_after_start(&none, Vec::<(Token, &str)>::new()), Some(Vec::new()));
}
