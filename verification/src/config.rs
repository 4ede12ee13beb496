//! Persistent configuration values. Reading and writing the file on disk
//! happens outside this crate; the defaults and the shape live here.

use vstd::prelude::*;

verus! {

/// Audio-side configuration.
#[derive(Debug, Clone)]
pub struct AudioConfig {
    /// Output device name; `None` picks the system default.
    pub output_device: Option<String>,
    /// Playback buffer size in milliseconds.
    pub buffer_size_ms: u32,
}

impl Default for AudioConfig {
    fn default() -> (r: Self)
        ensures
            r.output_device is None,
            r.buffer_size_ms == 100,
    {
        AudioConfig { output_device: None, buffer_size_ms: 100 }
    }
}

/// Network-side configuration.
#[derive(Debug, Clone)]
pub struct NetworkConfig {
    /// Default UDP port.
    pub default_port: u16,
    /// Default multicast TTL.
    pub default_ttl: u8,
    /// Default codec name.
    pub default_codec: String,
}

impl Default for NetworkConfig {
    fn default() -> (r: Self)
        ensures
            r.default_port == 5004,
            r.default_ttl == 32,
            r.default_codec@ == "g711ulaw"@,
    {
        NetworkConfig {
            default_port: 5004,
            default_ttl: 32,
            default_codec: String::from_str("g711ulaw"),
        }
    }
}

/// Monitor-side configuration.
#[derive(Debug, Clone)]
pub struct MonitorConfig {
    /// Seconds without packets before a page is finalised.
    pub idle_timeout_secs: u32,
    /// Whether new pages play back automatically.
    pub auto_play_new_pages: bool,
}

impl Default for MonitorConfig {
    fn default() -> (r: Self)
        ensures
            r.idle_timeout_secs == 5,
            !r.auto_play_new_pages,
    {
        MonitorConfig { idle_timeout_secs: 5, auto_play_new_pages: false }
    }
}

/// The whole configuration document.
#[derive(Debug, Clone)]
pub struct Config {
    pub audio: AudioConfig,
    pub network: NetworkConfig,
    pub monitor: MonitorConfig,
    /// Endpoint patterns the monitor was asked to watch.
    pub monitored_ranges: Vec<String>,
}

impl Default for Config {
    fn default() -> (r: Self)
        ensures
            r.audio.output_device is None,
            r.audio.buffer_size_ms == 100,
            r.network.default_port == 5004,
            r.network.default_ttl == 32,
            r.network.default_codec@ == "g711ulaw"@,
            r.monitor.idle_timeout_secs == 5,
            !r.monitor.auto_play_new_pages,
            r.monitored_ranges@.len() == 0,
    {
        Config {
            audio: AudioConfig::default(),
            network: NetworkConfig::default(),
            monitor: MonitorConfig::default(),
            monitored_ranges: Vec::new(),
        }
    }
}

impl Config {
    /// Resets every field to its default.
    pub fn reset(&mut self)
        ensures
            final(self).audio.buffer_size_ms == 100,
            final(self).network.default_port == 5004,
            final(self).network.default_ttl == 32,
            final(self).monitor.idle_timeout_secs == 5,
            final(self).monitored_ranges@.len() == 0,
    {
        *self = Config::default();
    }
}

} // verus!
