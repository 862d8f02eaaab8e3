use drone_telemetry::event_consumers::drone_status_consumer::{consumer_tag, QueueConfig};

#[test]
fn queue_settings_need_both_values() {
    let config = QueueConfig::resolve(
        Some("amqp://127.0.0.1:5672/%2f".to_string()),
        Some("drone_status".to_string()),
    );
    assert_eq!(
        config,
        Some(QueueConfig {
            endpoint: "amqp://127.0.0.1:5672/%2f".to_string(),
            queue_name: "drone_status".to_string(),
        })
    );
    assert_eq!(QueueConfig::resolve(None, Some("drone_status".to_string())), None);
    assert_eq!(QueueConfig::resolve(Some("amqp://127.0.0.1".to_string()), None), None);
    assert_eq!(QueueConfig::resolve(None, None), None);
}

#[test]
fn consumer_registers_under_one_tag() {
    assert_eq!(consumer_tag(), "my_consumer");
}
