use uhd::receiver::error::ReceiveErrorKind;
use uhd::receiver::state::StreamState;
use uhd::stream::StreamCommandType;

#[test]
fn commands_on_an_idle_device() {
    let idle = StreamState::Idle;
    assert_eq!(Some(StreamState::Continuous), idle.after_command(StreamCommandType::StartContinuous));
    assert_eq!(
        Some(StreamState::Bounded { remaining: 1000, follow_on: false }),
        idle.after_command(StreamCommandType::CountAndDone(1000))
    );
    assert_eq!(
        Some(StreamState::Bounded { remaining: 64, follow_on: true }),
        idle.after_command(StreamCommandType::CountAndMore(64))
    );
    assert_eq!(None, idle.after_command(StreamCommandType::StopContinuous));
}

#[test]
fn stop_ends_a_continuous_stream() {
    let streaming = StreamState::Continuous;
    assert_eq!(Some(StreamState::Idle), streaming.after_command(StreamCommandType::StopContinuous));
    assert_eq!(None, streaming.after_command(StreamCommandType::StartContinuous));
    assert_eq!(None, streaming.after_command(StreamCommandType::CountAndDone(5)));
    assert_eq!(None, streaming.after_command(StreamCommandType::CountAndMore(5)));
    assert_eq!(StreamState::Continuous, streaming.after_samples(1_000_000));
}

#[test]
fn no_command_is_defined_on_a_bounded_stream() {
    let bounded = StreamState::Bounded { remaining: 10, follow_on: true };
    assert_eq!(None, bounded.after_command(StreamCommandType::StartContinuous));
    assert_eq!(None, bounded.after_command(StreamCommandType::StopContinuous));
    assert_eq!(None, bounded.after_command(StreamCommandType::CountAndDone(5)));
    assert_eq!(None, bounded.after_command(StreamCommandType::CountAndMore(5)));
}

#[test]
fn bounded_stream_counts_down_to_idle() {
    let bounded = StreamState::Idle.after_command(StreamCommandType::CountAndDone(1000)).unwrap();
    let bounded = bounded.after_samples(363);
    assert_eq!(StreamState::Bounded { remaining: 637, follow_on: false }, bounded);
    assert_eq!(None, bounded.next_receive_error());
    let bounded = bounded.after_samples(363);
    assert_eq!(StreamState::Bounded { remaining: 274, follow_on: false }, bounded);
    assert_eq!(StreamState::Idle, bounded.after_samples(274));
    assert_eq!(
        StreamState::Idle,
        StreamState::Bounded { remaining: 1000, follow_on: false }.after_samples(1000)
    );
    assert_eq!(StreamState::Idle, StreamState::Idle.after_samples(12));
}

#[test]
fn chain_without_follow_on_breaks() {
    let chain = StreamState::Idle.after_command(StreamCommandType::CountAndMore(100)).unwrap();
    assert_eq!(None, chain.next_receive_error());
    let chain = chain.after_samples(60);
    assert_eq!(StreamState::Bounded { remaining: 40, follow_on: true }, chain);
    assert_eq!(None, chain.next_receive_error());
    let chain = chain.after_samples(40);
    assert_eq!(StreamState::Bounded { remaining: 0, follow_on: true }, chain);
    assert_eq!(Some(ReceiveErrorKind::BrokenChain), chain.next_receive_error());
    assert_eq!(None, StreamState::Idle.next_receive_error());
    assert_eq!(None, StreamState::Continuous.next_receive_error());
    assert_eq!(
        None,
        StreamState::Bounded { remaining: 0, follow_on: false }.next_receive_error()
    );
}
