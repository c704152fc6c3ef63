use fulgor::renderer::channel_config::AsyncChannelConfig;
use fulgor::renderer::event_buffer::{
    ChannelConfiguration, EventBuffer, RendererEventStream, SendAttempt, batch_after_send, dropped_on_timeout, BatchProgress, TimedSendOutcome,
};
use fulgor::renderer::{DataPrecision, RendererEvent, RendererId};

#[test]
fn configuration_test_default_configuration() {
    let config = AsyncChannelConfig::<f64>::default();
    assert_eq!(config.maximum_buffer_size, 1000);
    assert_eq!(config.send_timeout_ms, Some(100));
    assert_eq!(config.enable_backpressure, false);
    assert_eq!(config.statistics_interval_ms, 1000);
    assert_eq!(config.precision_threshold, 0.0f64);
}

#[test]
fn configuration_test_unbounded_configuration() {
    let config = AsyncChannelConfig::<f32>::unbounded();
    assert_eq!(config.maximum_buffer_size, usize::MAX);
    assert_eq!(config.send_timeout_ms, None);
    assert_eq!(config.enable_backpressure, false);
    assert!(config.is_unbounded());
}

#[test]
fn configuration_test_bounded_configuration() {
    let config = AsyncChannelConfig::<f64>::bounded(500);
    assert_eq!(config.maximum_buffer_size, 500);
    assert_eq!(config.enable_backpressure, false);
    assert!(!config.is_unbounded());
    assert!(!config.has_backpressure());
}

#[test]
fn configuration_test_bounded_with_backpressure_configuration() {
    let config = AsyncChannelConfig::<f32>::bounded_with_backpressure(250);
    assert_eq!(config.maximum_buffer_size, 250);
    assert_eq!(config.enable_backpressure, true);
    assert!(config.has_backpressure());
}

#[test]
fn test_low_latency_configuration() {
    let config = AsyncChannelConfig::low_latency(0.001f64);
    assert_eq!(config.maximum_buffer_size, 100);
    assert_eq!(config.send_timeout_ms, Some(10));
    assert_eq!(config.enable_backpressure, true);
    assert_eq!(config.precision_threshold, 0.001f64);
}

#[test]
fn test_high_throughput_configuration() {
    let config = AsyncChannelConfig::high_throughput(0.01f32);
    assert_eq!(config.maximum_buffer_size, 10000);
    assert_eq!(config.send_timeout_ms, Some(1000));
    assert_eq!(config.enable_backpressure, false);
    assert_eq!(config.precision_threshold, 0.01f32);
}

#[test]
fn configuration_test_custom_configuration() {
    let config = AsyncChannelConfig::new(2000, Some(50), true, 2000, 0.005f64);
    assert_eq!(config.maximum_buffer_size, 2000);
    assert_eq!(config.send_timeout_ms, Some(50));
    assert_eq!(config.enable_backpressure, true);
    assert_eq!(config.statistics_interval_ms, 2000);
    assert_eq!(config.precision_threshold, 0.005f64);
}

#[test]
fn configuration_test_configuration_methods() {
    let config = AsyncChannelConfig::<f64>::bounded_with_backpressure(100);

    assert!(!config.is_unbounded());
    assert!(config.has_backpressure());
    assert_eq!(config.timeout(), Some(200));
    assert_eq!(config.precision_threshold(), 0.0f64);
}

#[test]
fn test_clone_and_debug() {
    let config = AsyncChannelConfig::low_latency(0.1f32);
    let cloned = config.clone();

    assert_eq!(config.maximum_buffer_size, cloned.maximum_buffer_size);
    assert_eq!(config.send_timeout_ms, cloned.send_timeout_ms);
    assert_eq!(config.enable_backpressure, cloned.enable_backpressure);
    assert_eq!(config.precision_threshold, cloned.precision_threshold);

    let debug_string = format!("{:?}", config);
    assert!(debug_string.contains("AsyncChannelConfig"));
}

#[test]
fn test_different_number_types() {
    let f32_config = AsyncChannelConfig::<f32>::bounded(100);
    let f64_config = AsyncChannelConfig::<f64>::bounded(100);
    let i32_config = AsyncChannelConfig::<i32>::new(100, Some(10), false, 1000, 42i32);

    assert_eq!(f32_config.precision_threshold, 0.0f32);
    assert_eq!(f64_config.precision_threshold, 0.0f64);
    assert_eq!(i32_config.precision_threshold, 42i32);
}

fn started(n: u64) -> RendererEvent {
    RendererEvent::Started(RendererId(n))
}

fn started_id(e: &RendererEvent) -> u64 {
    match e {
        RendererEvent::Started(RendererId(n)) => *n,
        _ => panic!("unexpected event"),
    }
}

#[test]
fn test_full_channel_drops_oldest_buffered_event() {
    let mut buffer = EventBuffer::new(Some(2));
    assert_eq!(buffer.after_attempt(SendAttempt::ChannelFull, started(1)).dropped, 0);
    assert_eq!(buffer.after_attempt(SendAttempt::ChannelFull, started(2)).dropped, 0);
    assert_eq!(buffer.len(), 2);
    let verdict = buffer.after_attempt(SendAttempt::ChannelFull, started(3));
    assert!(verdict.result.is_ok());
    assert_eq!(verdict.dropped, 1);
    assert_eq!(buffer.len(), 2);
    assert_eq!(buffer.capacity(), Some(2));
}

#[test]
fn test_undeliverable_events_are_handed_back() {
    let mut buffer = EventBuffer::new(None);
    let verdict = buffer.after_attempt(SendAttempt::ChannelFull, started(7));
    assert_eq!(verdict.dropped, 1);
    assert_eq!(started_id(&verdict.result.unwrap_err()), 7);
    let verdict = buffer.after_attempt(SendAttempt::ChannelClosed, started(8));
    assert_eq!(verdict.dropped, 1);
    assert_eq!(started_id(&verdict.result.unwrap_err()), 8);
    let verdict = buffer.after_attempt(SendAttempt::NoSender, started(9));
    assert_eq!(verdict.dropped, 1);
    let verdict = buffer.after_attempt(SendAttempt::Delivered, started(10));
    assert_eq!(verdict.dropped, 0);
    assert!(verdict.result.is_ok());
    assert_eq!(buffer.len(), 0);
}

#[test]
fn test_event_stream_is_first_in_first_out() {
    let mut stream = RendererEventStream::new();
    assert!(stream.poll_event().is_none());
    stream.push_event(started(1));
    stream.push_event(RendererEvent::RendererCreated {
        renderer_name: "R".to_string(),
        precision: DataPrecision::F16,
    });
    assert_eq!(started_id(&stream.poll_event().unwrap()), 1);
    match stream.poll_event() {
        Some(RendererEvent::RendererCreated { precision, .. }) => {
            assert_eq!(precision, DataPrecision::F16)
        }
        _ => panic!("expected RendererCreated"),
    }
    assert!(stream.poll_event().is_none());
}

#[test]
fn test_channel_configuration_values() {
    let bounded = ChannelConfiguration::Bounded { capacity: 4 };
    assert_eq!(bounded, ChannelConfiguration::Bounded { capacity: 4 });
    assert_ne!(bounded, ChannelConfiguration::Unbounded);
}

#[test]
fn test_batch_progress_after_each_outcome() {
    assert_eq!(batch_after_send(0, TimedSendOutcome::Sent), BatchProgress::Continue(1));
    assert_eq!(batch_after_send(4, TimedSendOutcome::Sent), BatchProgress::Continue(5));
    assert_eq!(batch_after_send(4, TimedSendOutcome::TimedOut), BatchProgress::Done(4));
    assert_eq!(batch_after_send(4, TimedSendOutcome::Closed), BatchProgress::Failed);
}

#[test]
fn test_timeout_drops_unless_backpressure() {
    assert_eq!(dropped_on_timeout(false), 1);
    assert_eq!(dropped_on_timeout(true), 0);
}
