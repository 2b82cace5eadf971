use kronos_server::config::{bind_address, parse_mode, requires_tls, Mode, ServerConfig};
use kronos_server::pipeline::{first_stage, next_stage, on_accept, AcceptAction, Stage};
use kronos_server::startup::{first_startup_step, next_startup_step, StartupError, StartupStep};

#[test]
fn mode_selection() {
    assert_eq!(parse_mode(Some("prod")), Mode::Prod);
    assert_eq!(parse_mode(Some("dev")), Mode::Dev);
    assert_eq!(parse_mode(Some("PROD")), Mode::Dev);
    assert_eq!(parse_mode(Some("prod ")), Mode::Dev);
    assert_eq!(parse_mode(Some("")), Mode::Dev);
    assert_eq!(parse_mode(None), Mode::Dev);
}

#[test]
fn addresses_per_mode() {
    assert_eq!(bind_address(Mode::Dev), "127.0.0.1:8080");
    assert_eq!(bind_address(Mode::Prod), "0.0.0.0:443");
    assert!(requires_tls(Mode::Prod));
    assert!(!requires_tls(Mode::Dev));
}

#[test]
fn config_from_selector() {
    let c = ServerConfig::from_mode_value(Some("prod"));
    assert_eq!(c.mode(), Mode::Prod);
    assert_eq!(c.bind_address(), "0.0.0.0:443");
    assert!(c.uses_tls());
    let d = ServerConfig::from_mode_value(None);
    assert_eq!(d.mode(), Mode::Dev);
    assert_eq!(d.bind_address(), "127.0.0.1:8080");
    assert!(!d.uses_tls());
    assert_eq!(ServerConfig::new(Mode::Dev).bind_address(), "127.0.0.1:8080");
}

#[test]
fn dev_startup_binds_then_serves() {
    let s = first_startup_step(Mode::Dev);
    assert_eq!(s, StartupStep::Bind);
    assert_eq!(next_startup_step(s, true), StartupStep::Accept);
}

#[test]
fn address_in_use_aborts_startup() {
    let s = first_startup_step(Mode::Dev);
    assert_eq!(next_startup_step(s, false), StartupStep::Abort(StartupError::BindFailed));
    let p = next_startup_step(first_startup_step(Mode::Prod), true);
    assert_eq!(p, StartupStep::Bind);
    assert_eq!(next_startup_step(p, false), StartupStep::Abort(StartupError::BindFailed));
}

#[test]
fn bad_identity_aborts_before_binding() {
    let s = first_startup_step(Mode::Prod);
    assert_eq!(s, StartupStep::LoadIdentity);
    let n = next_startup_step(s, false);
    assert_eq!(n, StartupStep::Abort(StartupError::IdentityUnavailable));
    assert_eq!(next_startup_step(n, true), n);
}

#[test]
fn accept_errors_are_skipped() {
    assert_eq!(on_accept(true), AcceptAction::Spawn);
    assert_eq!(on_accept(false), AcceptAction::Skip);
}

#[test]
fn connection_stages() {
    assert_eq!(first_stage(Mode::Dev), Stage::WsHandshake);
    assert_eq!(first_stage(Mode::Prod), Stage::TlsHandshake);
    assert_eq!(next_stage(Stage::TlsHandshake, true), Stage::WsHandshake);
    assert_eq!(next_stage(Stage::TlsHandshake, false), Stage::Dropped);
    assert_eq!(next_stage(Stage::WsHandshake, true), Stage::Session);
    assert_eq!(next_stage(Stage::WsHandshake, false), Stage::Dropped);
    assert_eq!(next_stage(Stage::Session, false), Stage::Session);
    assert_eq!(next_stage(Stage::Dropped, true), Stage::Dropped);
}
