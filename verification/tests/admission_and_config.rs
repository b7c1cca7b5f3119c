use ws_load_test::admission::{AdmissionController, LoadTestConfig};
use ws_load_test::config::{CleaningConfig, Config, SocketAddr, StatisticsConfig};
use ws_load_test::uri::ws_uri;

fn test_config(capacity: usize) -> LoadTestConfig {
    LoadTestConfig {
        server_address: SocketAddr { ip: [127, 0, 0, 1], port: 3000 },
        num_connections_per_worker: capacity,
        connection_creation_interval_ms: 100,
    }
}

#[test]
fn controller_takes_capacity_and_cadence_from_config() {
    let c = AdmissionController::new(&test_config(25));
    assert_eq!(c.capacity, 25);
    assert_eq!(c.interval_ms, 100);
}

#[test]
fn tick_launches_iff_under_capacity_and_keeps_the_cadence() {
    let c = AdmissionController::new(&test_config(2));
    let d = c.tick(0);
    assert!(d.launch);
    assert_eq!(d.next_tick_ms, 100);
    assert!(c.tick(1).launch);
    assert!(!c.tick(2).launch);
    assert!(!c.tick(3).launch);
}

#[test]
fn capacity_zero_never_launches() {
    let c = AdmissionController::new(&test_config(0));
    assert!(!c.tick(0).launch);
}

// Capacity one, one live session: no launch on tick; once the session has
// terminated, the next tick launches exactly one.
#[test]
fn full_worker_refills_by_one_after_an_exit() {
    let c = AdmissionController::new(&test_config(1));
    let mut active: usize = 1;
    assert!(!c.tick(active).launch);
    active -= 1;  // the live session terminates
    let d = c.tick(active);
    assert!(d.launch);
    active += 1;  // the launched establishment settles
    assert!(!c.tick(active).launch);
}

// The settled active count stays within capacity over any tick/exit mix,
// and each tick grows it by at most one.
#[test]
fn settled_count_stays_within_capacity() {
    let c = AdmissionController::new(&test_config(3));
    let mut active: usize = 0;
    let exits = [false, false, true, false, false, false, true, true, false, false];
    for exit in exits {
        if exit && active > 0 {
            active -= 1;
        }
        let before = active;
        if c.tick(active).launch {
            active += 1;
        }
        assert!(active <= before + 1);
        assert!(active <= 3);
    }
    assert_eq!(active, 3);
}

#[test]
fn config_default_values() {
    let c = Config::default();
    assert_eq!(c.num_threads, 4);
    assert_eq!(c.network.address, SocketAddr { ip: [127, 0, 0, 1], port: 3000 });
    assert_eq!(c.network.max_scrape_torrents, 255);
    assert_eq!(c.network.max_response_peers, 255);
    assert_eq!(c.network.peer_announce_interval, 60 * 15);
    assert_eq!(c.network.poll_event_capacity, 4096);
    assert_eq!(c.network.recv_buffer_size, 4096 * 128);
    assert_eq!(c.statistics.interval, 5);
    assert_eq!(c.cleaning.interval, 30);
    assert_eq!(c.cleaning.max_peer_age, 60 * 20);
    assert_eq!(c.cleaning.max_connection_age, 60 * 5);
}

#[test]
fn sub_config_defaults() {
    assert_eq!(StatisticsConfig::default().interval, 5);
    let cl = CleaningConfig::default();
    assert_eq!(cl.interval, 30);
    assert_eq!(cl.max_peer_age, 1200);
    assert_eq!(cl.max_connection_age, 300);
}

#[test]
fn upgrade_uri_renders_dotted_decimal_and_port() {
    assert_eq!(
        ws_uri(&SocketAddr { ip: [127, 0, 0, 1], port: 3000 }),
        "ws://127.0.0.1:3000"
    );
    assert_eq!(ws_uri(&SocketAddr { ip: [0, 0, 0, 0], port: 0 }), "ws://0.0.0.0:0");
    assert_eq!(
        ws_uri(&SocketAddr { ip: [255, 254, 10, 9], port: 65535 }),
        "ws://255.254.10.9:65535"
    );
}
