//! Settings of an asynchronous event channel: buffer size, send timeout,
//! backpressure, statistics interval and a precision threshold. Durations are
//! held in milliseconds.
use vstd::prelude::*;

verus! {

/// Settings of an asynchronous event channel.
#[derive(Debug, Clone)]
pub struct AsyncChannelConfig<NumberType: Copy> {
    /// Maximum buffer size before events start getting dropped
    pub maximum_buffer_size: usize,
    /// Timeout for send operations, in milliseconds; `None` for none
    pub send_timeout_ms: Option<u64>,
    /// Whether to enable backpressure or drop events when full
    pub enable_backpressure: bool,
    /// Statistics collection interval, in milliseconds
    pub statistics_interval_ms: u64,
    /// Precision-dependent threshold
    pub precision_threshold: NumberType,
}

impl<NumberType: Copy + Default> Default for AsyncChannelConfig<NumberType> {
    /// 1000 events, a 100 ms timeout, no backpressure, statistics every
    /// second, the default threshold.
    fn default() -> (r: Self)
        ensures
            r.maximum_buffer_size == 1000,
            r.send_timeout_ms == Some(100u64),
            !r.enable_backpressure,
            r.statistics_interval_ms == 1000,
            call_ensures(NumberType::default, (), r.precision_threshold),
    {
        AsyncChannelConfig {
            maximum_buffer_size: 1000,
            send_timeout_ms: Some(100),
            enable_backpressure: false,
            statistics_interval_ms: 1000,
            precision_threshold: NumberType::default(),
        }
    }
}

impl<NumberType: Copy> AsyncChannelConfig<NumberType> {
    /// Settings with every value given.
    pub fn new(
        maximum_buffer_size: usize,
        send_timeout_ms: Option<u64>,
        enable_backpressure: bool,
        statistics_interval_ms: u64,
        precision_threshold: NumberType,
    ) -> (r: Self)
        ensures
            r.maximum_buffer_size == maximum_buffer_size,
            r.send_timeout_ms == send_timeout_ms,
            r.enable_backpressure == enable_backpressure,
            r.statistics_interval_ms == statistics_interval_ms,
            r.precision_threshold == precision_threshold,
    {
        AsyncChannelConfig {
            maximum_buffer_size,
            send_timeout_ms,
            enable_backpressure,
            statistics_interval_ms,
            precision_threshold,
        }
    }

    /// Whether the buffer is effectively unlimited.
    pub fn is_unbounded(&self) -> (r: bool)
        ensures
            r == (self.maximum_buffer_size == usize::MAX),
    {
        self.maximum_buffer_size == usize::MAX
    }

    /// Whether a full channel makes senders wait rather than drop events.
    pub fn has_backpressure(&self) -> (r: bool)
        ensures
            r == self.enable_backpressure,
    {
        self.enable_backpressure
    }

    /// The send timeout in milliseconds; `None` when sends never time out.
    pub fn timeout(&self) -> (r: Option<u64>)
        ensures
            r == self.send_timeout_ms,
    {
        self.send_timeout_ms
    }

    /// The precision threshold.
    pub fn precision_threshold(&self) -> (r: NumberType)
        ensures
            r == self.precision_threshold,
    {
        self.precision_threshold
    }

    /// 100 events, a 10 ms timeout, backpressure, statistics every 100 ms.
    pub fn low_latency(precision_threshold: NumberType) -> (r: Self)
        ensures
            r.maximum_buffer_size == 100,
            r.send_timeout_ms == Some(10u64),
            r.enable_backpressure,
            r.statistics_interval_ms == 100,
            r.precision_threshold == precision_threshold,
    {
        AsyncChannelConfig {
            maximum_buffer_size: 100,
            send_timeout_ms: Some(10),
            enable_backpressure: true,
            statistics_interval_ms: 100,
            precision_threshold,
        }
    }

    /// 10000 events, a one-second timeout, no backpressure, statistics every
    /// 10 seconds.
    pub fn high_throughput(precision_threshold: NumberType) -> (r: Self)
        ensures
            r.maximum_buffer_size == 10000,
            r.send_timeout_ms == Some(1000u64),
            !r.enable_backpressure,
            r.statistics_interval_ms == 10000,
            r.precision_threshold == precision_threshold,
    {
        AsyncChannelConfig {
            maximum_buffer_size: 10000,
            send_timeout_ms: Some(1000),
            enable_backpressure: false,
            statistics_interval_ms: 10000,
            precision_threshold,
        }
    }
}

impl<NumberType: Copy + Default> AsyncChannelConfig<NumberType> {
    /// An unlimited buffer, no timeout, no backpressure, statistics every 5
    /// seconds.
    pub fn unbounded() -> (r: Self)
        ensures
            r.maximum_buffer_size == usize::MAX,
            r.send_timeout_ms is None,
            !r.enable_backpressure,
            r.statistics_interval_ms == 5000,
            call_ensures(NumberType::default, (), r.precision_threshold),
    {
        AsyncChannelConfig {
            maximum_buffer_size: usize::MAX,
            send_timeout_ms: None,
            enable_backpressure: false,
            statistics_interval_ms: 5000,
            precision_threshold: NumberType::default(),
        }
    }

    /// `buffer_size` events, a 100 ms timeout, dropping the oldest event when
    /// full, statistics every second.
    pub fn bounded(buffer_size: usize) -> (r: Self)
        ensures
            r.maximum_buffer_size == buffer_size,
            r.send_timeout_ms == Some(100u64),
            !r.enable_backpressure,
            r.statistics_interval_ms == 1000,
            call_ensures(NumberType::default, (), r.precision_threshold),
    {
        AsyncChannelConfig {
            maximum_buffer_size: buffer_size,
            send_timeout_ms: Some(100),
            enable_backpressure: false,
            statistics_interval_ms: 1000,
            precision_threshold: NumberType::default(),
        }
    }

    /// `buffer_size` events, a 200 ms timeout, backpressure when full,
    /// statistics every second.
    pub fn bounded_with_backpressure(buffer_size: usize) -> (r: Self)
        ensures
            r.maximum_buffer_size == buffer_size,
            r.send_timeout_ms == Some(200u64),
            r.enable_backpressure,
            r.statistics_interval_ms == 1000,
            call_ensures(NumberType::default, (), r.precision_threshold),
    {
        AsyncChannelConfig {
            maximum_buffer_size: buffer_size,
            send_timeout_ms: Some(200),
            enable_backpressure: true,
            statistics_interval_ms: 1000,
            precision_threshold: NumberType::default(),
        }
    }
}

} // verus!
