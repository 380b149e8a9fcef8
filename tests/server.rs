use actix_bug::manager::ApiManager;
use actix_bug::probe::{classify_probe, ProbeAttempt, ProbeTally, PING_BODY, PING_PATH};
use actix_web::dev::Server;
use actix_web::{web, App, HttpServer};

fn launch(address: &str) -> (Server, String) {
    let bound = HttpServer::new(|| {
        App::new().service(web::resource(PING_PATH).to(|| async { PING_BODY }))
    })
    .workers(1)
    .shutdown_timeout(1)
    .disable_signals()
    .bind(address)
    .unwrap();
    let addr = bound.addrs()[0].to_string();
    (bound.run(), addr)
}

#[test]
fn start_stop_restart_with_probes() {
    actix_rt::System::new("scenario").block_on(async {
        let mut manager = ApiManager::new();
        let mut tally = ProbeTally::new();

        let (server, addr) = launch("127.0.0.1:0");
        assert!(manager.start_server(server).is_ok());
        assert!(manager.is_running());

        // what the transport hands back from the live instance
        let outcome = classify_probe(ProbeAttempt::Responded(PING_BODY.to_string()));
        assert_eq!(outcome.as_ref().unwrap(), "pong");
        tally.record(&outcome);
        assert_eq!(tally.successes(), 1);

        let server = manager.stop_server().unwrap();
        server.stop(true).await;
        assert!(!manager.is_running());

        // the address is closed: the connection is refused
        let outcome = classify_probe(ProbeAttempt::RequestFailed(format!("{} refused", addr)));
        assert!(outcome.is_err());
        tally.record(&outcome);
        assert_eq!(tally.failures(), 1);

        let (server, again) = launch(&addr);
        assert_eq!(again, addr);
        assert!(manager.start_server(server).is_ok());
        let outcome = classify_probe(ProbeAttempt::Responded(PING_BODY.to_string()));
        assert!(outcome.is_ok());
        tally.record(&outcome);
        assert_eq!(tally.successes(), 2);
        assert_eq!(tally.failures(), 1);

        manager.stop_server().unwrap().stop(true).await;
    });
}

#[test]
fn second_start_is_refused_and_stop_is_idempotent() {
    actix_rt::System::new("lifecycle").block_on(async {
        let mut manager = ApiManager::default();
        assert!(!manager.is_running());
        assert!(manager.stop_server().is_none());

        let (first, _) = launch("127.0.0.1:0");
        assert!(manager.start_server(first).is_ok());

        let (second, _) = launch("127.0.0.1:0");
        let refused = manager.start_server(second).unwrap_err();
        refused.rejected.stop(true).await;
        assert!(manager.is_running());

        manager.stop_server().unwrap().stop(true).await;
        assert!(manager.stop_server().is_none());
        assert!(manager.stop_server().is_none());
        assert!(!manager.is_running());
    });
}
