//! Startup configuration and its validation.

use vstd::prelude::*;
use vstd::string::StringExecFns;
use crate::rate::Rate;
use crate::rate::THIRTY_FPS_BITS;

verus! {

/// The part a process plays.
#[derive(Debug, Clone, Copy, PartialEq, Eq, Structural)]
pub enum Role {
    Server,
    Sender,
    Viewer,
}

impl Default for Role {
    fn default() -> (role: Role)
        ensures
            role == Role::Server,
    {
        Role::Server
    }
}

/// The lowest frame rate accepted, in frames per second.
pub const MIN_FPS: u16 = 1;

/// The highest frame rate accepted, in frames per second.
pub const MAX_FPS: u16 = 120;

/// The lowest compression quality accepted.
pub const MIN_QUALITY: u8 = 10;

/// The highest compression quality accepted.
pub const MAX_QUALITY: u8 = 95;

/// The frame rate of the default configuration: 30 frames per second.
pub const DEFAULT_FPS_BITS: u64 = THIRTY_FPS_BITS;

/// The compression quality of the default configuration.
pub const DEFAULT_QUALITY: u8 = 85;

/// The number of milliseconds in a second.
pub const MILLIS_PER_SECOND: u32 = 1000;

/// A parameter of the configuration.
#[derive(Debug, Clone, Copy, PartialEq, Eq, Structural)]
pub enum Field {
    Rate,
    Quality,
}

/// Why a configuration was refused.
#[derive(Debug, Clone, Copy, PartialEq, Eq, Structural)]
pub enum ConfigError {
    /// The named parameter lies outside its range.
    OutOfRange(Field),
}

/// Whether a frame rate is a number from 1 to 120 frames per second.
pub open spec fn rate_in_range(fps: Rate) -> bool {
    fps.at_least(MIN_FPS as nat) && fps.at_most(MAX_FPS as nat)
}

/// Whether a compression quality lies from 10 to 95.
pub open spec fn quality_in_range(quality: u8) -> bool {
    MIN_QUALITY <= quality <= MAX_QUALITY
}

/// A configuration. One made by [`Config::new`] has its rate and its quality
/// in range.
#[derive(Debug)]
pub struct Config {
    /// Target frame rate.
    pub fps: Rate,
    /// Compression quality.
    pub quality: u8,
    /// Address to bind or to connect to; handed on to the transport as it is.
    pub bind: String,
    /// The part this process plays.
    pub role: Role,
}

impl Config {
    /// Validates a rate and a quality and makes a configuration of them.
    ///
    /// The rate is looked at first: out of range, it is the parameter named
    /// in the error, whatever the quality.
    pub fn new(fps: Rate, quality: u8, bind: String, role: Role) -> (made: Result<
        Config,
        ConfigError,
    >)
        ensures
            rate_in_range(fps) && quality_in_range(quality) ==> made == Ok::<Config, ConfigError>(
                Config { fps, quality, bind, role },
            ),
            !rate_in_range(fps) ==> made == Err::<Config, ConfigError>(
                ConfigError::OutOfRange(Field::Rate),
            ),
            rate_in_range(fps) && !quality_in_range(quality) ==> made == Err::<
                Config,
                ConfigError,
            >(ConfigError::OutOfRange(Field::Quality)),
    {
        if !(fps.is_at_least(MIN_FPS) && fps.is_at_most(MAX_FPS)) {
            return Err(ConfigError::OutOfRange(Field::Rate));
        }
        if quality < MIN_QUALITY || quality > MAX_QUALITY {
            return Err(ConfigError::OutOfRange(Field::Quality));
        }
        Ok(Config { fps, quality, bind, role })
    }

    /// The configuration a server starts with when it is given none: 30
    /// frames per second, quality 85, bound to port 9001 of the local host.
    pub fn default_server() -> (config: Config)
        ensures
            config.fps == (Rate { bits: DEFAULT_FPS_BITS }),
            config.quality == DEFAULT_QUALITY,
            config.bind@ == "127.0.0.1:9001"@,
            config.role == Role::Server,
    {
        Config {
            fps: Rate::from_bits(DEFAULT_FPS_BITS),
            quality: DEFAULT_QUALITY,
            bind: String::from_str("127.0.0.1:9001"),
            role: Role::Server,
        }
    }

    /// The time between two frames in whole milliseconds: a second divided by
    /// the rate, rounded down.
    pub fn frame_interval_ms(&self) -> (interval: u64)
        ensures
            interval == self.fps.period(MILLIS_PER_SECOND as nat),
    {
        self.fps.frame_period(MILLIS_PER_SECOND)
    }
}

impl Clone for Config {
    fn clone(&self) -> (config: Self)
        ensures
            config == *self,
    {
        Config { fps: self.fps, quality: self.quality, bind: self.bind.clone(), role: self.role }
    }
}

} // verus!
