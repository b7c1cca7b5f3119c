//! Configuration records shared by reference across a worker, and their
//! default values.

use vstd::prelude::*;

verus! {

/// A server address as plain values: four IPv4 octets and a port.
///
/// The transport layer outside this crate turns it into a real socket
/// address; the state machine only ever copies it around.
#[derive(Clone, Copy, PartialEq, Eq, Debug)]
pub struct SocketAddr {
    pub ip: [u8; 4],
    pub port: u16,
}

#[derive(Clone, Debug)]
pub struct Config {
    pub num_threads: usize,
    pub network: NetworkConfig,
    pub statistics: StatisticsConfig,
    pub cleaning: CleaningConfig,
}

#[derive(Clone, Debug)]
pub struct NetworkConfig {
    pub address: SocketAddr,
    pub max_scrape_torrents: u8,
    pub max_response_peers: usize,
    pub peer_announce_interval: i32,
    pub recv_buffer_size: usize,
    pub poll_event_capacity: usize,
}

#[derive(Clone, Debug)]
pub struct StatisticsConfig {
    pub interval: u64,
}

#[derive(Clone, Debug)]
pub struct CleaningConfig {
    pub interval: u64,
    pub max_peer_age: u64,
    pub max_connection_age: u64,
}

impl Default for StatisticsConfig {
    fn default() -> (r: Self)
        ensures
            r.interval == 5,
    {
        Self { interval: 5 }
    }
}

impl Default for CleaningConfig {
    fn default() -> (r: Self)
        ensures
            r.interval == 30,
            r.max_peer_age == 60 * 20,
            r.max_connection_age == 60 * 5,
    {
        Self { interval: 30, max_peer_age: 60 * 20, max_connection_age: 60 * 5 }
    }
}

impl Default for NetworkConfig {
    fn default() -> (r: Self)
        ensures
            r.address.ip@ == seq![127u8, 0u8, 0u8, 1u8],
            r.address.port == 3000,
            r.max_scrape_torrents == 255,
            r.max_response_peers == 255,
            r.peer_announce_interval == 60 * 15,
            r.poll_event_capacity == 4096,
            r.recv_buffer_size == 4096 * 128,
    {
        let r = Self {
            address: SocketAddr { ip: [127u8, 0u8, 0u8, 1u8], port: 3000 },
            max_scrape_torrents: 255,
            max_response_peers: 255,
            peer_announce_interval: 60 * 15,
            poll_event_capacity: 4096,
            recv_buffer_size: 4096 * 128,
        };
        proof {
            assert(r.address.ip@ =~= seq![127u8, 0u8, 0u8, 1u8]);
        }
        r
    }
}

impl Default for Config {
    fn default() -> (r: Self)
        ensures
            r.num_threads == 4,
            r.network.address.ip@ == seq![127u8, 0u8, 0u8, 1u8],
            r.network.address.port == 3000,
            r.network.max_scrape_torrents == 255,
            r.network.max_response_peers == 255,
            r.network.peer_announce_interval == 60 * 15,
            r.network.poll_event_capacity == 4096,
            r.network.recv_buffer_size == 4096 * 128,
            r.statistics.interval == 5,
            r.cleaning.interval == 30,
            r.cleaning.max_peer_age == 60 * 20,
            r.cleaning.max_connection_age == 60 * 5,
    {
        Self {
            num_threads: 4,
            network: NetworkConfig::default(),
            statistics: StatisticsConfig::default(),
            cleaning: CleaningConfig::default(),
        }
    }
}

} // verus!
