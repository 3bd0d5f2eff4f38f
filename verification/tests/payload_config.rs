use amqp_rs::config::{Config, ConfigOptions, QoSConfig, TlsAdaptor};
use amqp_rs::errors::{AppError, ErrorKind};
use amqp_rs::message::{payload_bytes, DeliveryMode, Message, Payload};

#[test]
fn byte_payloads_go_out_unchanged() {
    let body = vec![0u8, 255, 128];
    assert_eq!(payload_bytes(Payload::Bytes(body.clone())), body);
}

#[test]
fn text_payloads_go_out_as_utf8() {
    assert_eq!(payload_bytes(Payload::Text("hello".to_string())), b"hello".to_vec());
    // A character outside ASCII takes its multi-byte UTF-8 encoding.
    let euro = "\u{20ac}".to_string();
    assert_eq!(payload_bytes(Payload::Text(euro)), vec![0xe2u8, 0x82, 0xac]);
    assert_eq!(payload_bytes(Payload::Text(String::new())), Vec::<u8>::new());
}

#[test]
fn message_clone_is_byte_identical() {
    let m = Message { body: vec![1u8, 2, 3], content_type: Some("text/plain".to_string()) };
    let c = m.clone();
    assert_eq!(c.body, m.body);
    assert_eq!(c.content_type, m.content_type);
}

#[test]
fn config_carries_every_field_unchanged() {
    let options = ConfigOptions::new(
        "queue".to_string(),
        "rpc-exchange".to_string(),
        "rpc-queue".to_string(),
    );
    let tls = TlsAdaptor::new("broker.example".to_string());
    let config = Config::new(
        "localhost".to_string(),
        5671,
        "guest".to_string(),
        "guest".to_string(),
        "/".to_string(),
        options,
        Some(tls),
    );
    assert_eq!(config.host, "localhost");
    assert_eq!(config.port, 5671);
    assert_eq!(config.username, "guest");
    assert_eq!(config.virtual_host, "/");
    assert_eq!(config.options.queue_name, "queue");
    assert_eq!(config.options.rpc_exchange_name, "rpc-exchange");
    assert_eq!(config.options.rpc_queue_name, "rpc-queue");
    assert_eq!(config.tls_adaptor.as_ref().map(|t| t.domain.as_str()), Some("broker.example"));
}

#[test]
fn qos_default_confirms_publishes_only() {
    let qos = QoSConfig::default();
    assert!(qos.pub_confirm);
    assert!(qos.rpc_client_confirm);
    assert!(!qos.rpc_server_confirm);
    assert!(!qos.sub_auto_ack);
    assert!(!qos.rpc_server_auto_ack);
    assert!(!qos.rpc_client_auto_ack);
    assert_eq!(qos.sub_prefetch, None);
    assert_eq!(qos.rpc_server_prefetch, None);
    assert_eq!(qos.rpc_client_prefetch, None);
}

#[test]
fn qos_new_keeps_its_arguments() {
    let qos = QoSConfig::new(false, true, true, true, false, true, Some(8), None, Some(1));
    assert!(!qos.pub_confirm);
    assert!(qos.rpc_client_confirm);
    assert!(qos.rpc_server_confirm);
    assert!(qos.sub_auto_ack);
    assert!(!qos.rpc_server_auto_ack);
    assert!(qos.rpc_client_auto_ack);
    assert_eq!(qos.sub_prefetch, Some(8));
    assert_eq!(qos.rpc_server_prefetch, None);
    assert_eq!(qos.rpc_client_prefetch, Some(1));
}

#[test]
fn error_text_prefers_the_message() {
    let both = AppError {
        message: Some("m".to_string()),
        description: Some("d".to_string()),
        error_type: ErrorKind::HandlerFailed,
    };
    assert_eq!(both.text(), "m");
    let described = AppError {
        message: None,
        description: Some("d".to_string()),
        error_type: ErrorKind::HandlerFailed,
    };
    assert_eq!(described.text(), "d");
    let bare = AppError::bare(ErrorKind::Timeout);
    assert_eq!(bare.text(), "");
}

#[test]
fn delivery_mode_wire_codes() {
    assert_eq!(DeliveryMode::Transient.code(), 1);
    assert_eq!(DeliveryMode::Persistent.code(), 2);
}
