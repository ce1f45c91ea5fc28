use wa_bridge::bridge::WaBot;
use wa_bridge::error::BridgeError;
use wa_bridge::event::BotEvent;
use wa_bridge::event::DomainEvent;
use wa_bridge::event::Jid;
use wa_bridge::event::MessageInfo;
use wa_bridge::event::MessageSource;
use wa_bridge::event::map_event;
use wa_bridge::http::HttpDispatchOutcome;
use wa_bridge::http::HttpRequest;
use wa_bridge::http::resolve_http;
use wa_bridge::queue::QUEUE_CAPACITY;
use wa_bridge::queue::TransportEvent;
use wa_bridge::transport::complete_frame_dispatch;

fn sample_info() -> MessageInfo {
    MessageInfo {
        source: MessageSource {
            chat: Jid { user: "12345".to_string(), server: "s.whatsapp.net".to_string() },
            sender: Jid { user: "67890".to_string(), server: "s.whatsapp.net".to_string() },
        },
    }
}

#[test]
fn inbound_events_are_observed_in_submission_order() {
    let mut bot = WaBot::new();
    assert_eq!(bot.notify_connected(), Ok(()));
    assert_eq!(bot.receive_frame(vec![1, 2, 3]), Ok(()));
    assert_eq!(bot.receive_frame(vec![4, 5]), Ok(()));
    assert_eq!(bot.notify_disconnected(), Ok(()));

    assert_eq!(bot.next_transport_event(), Some(TransportEvent::Connected));
    assert_eq!(
        bot.next_transport_event(),
        Some(TransportEvent::DataReceived { bytes: vec![1, 2, 3] })
    );
    assert_eq!(
        bot.next_transport_event(),
        Some(TransportEvent::DataReceived { bytes: vec![4, 5] })
    );
    assert_eq!(bot.next_transport_event(), Some(TransportEvent::Disconnected));
    assert_eq!(bot.next_transport_event(), None);
}

#[test]
fn inbound_queue_interleaves_without_reordering() {
    let mut bot = WaBot::new();
    assert_eq!(bot.receive_frame(vec![1]), Ok(()));
    assert_eq!(bot.receive_frame(vec![2]), Ok(()));
    assert_eq!(
        bot.next_transport_event(),
        Some(TransportEvent::DataReceived { bytes: vec![1] })
    );
    assert_eq!(bot.receive_frame(vec![3]), Ok(()));
    assert_eq!(
        bot.next_transport_event(),
        Some(TransportEvent::DataReceived { bytes: vec![2] })
    );
    assert_eq!(
        bot.next_transport_event(),
        Some(TransportEvent::DataReceived { bytes: vec![3] })
    );
    assert_eq!(bot.next_transport_event(), None);
}

#[test]
fn a_full_queue_refuses_the_next_event() {
    let mut bot = WaBot::new();
    for i in 0..QUEUE_CAPACITY {
        assert_eq!(bot.receive_frame(vec![i as u8]), Ok(()));
    }
    assert_eq!(bot.notify_connected(), Err(BridgeError::QueueFull));
    // Draining one makes room for exactly one more.
    assert_eq!(
        bot.next_transport_event(),
        Some(TransportEvent::DataReceived { bytes: vec![0] })
    );
    assert_eq!(bot.notify_connected(), Ok(()));
    assert_eq!(bot.notify_connected(), Err(BridgeError::QueueFull));
}

#[test]
fn a_closed_queue_refuses_every_event() {
    let mut bot = WaBot::new();
    assert_eq!(bot.start(), Ok(()));
    bot.publish_client();
    assert_eq!(bot.notify_connected(), Ok(()));
    bot.run_ended();
    assert_eq!(bot.notify_connected(), Err(BridgeError::ChannelClosed));
    assert_eq!(bot.notify_disconnected(), Err(BridgeError::ChannelClosed));
    assert_eq!(bot.receive_frame(vec![9]), Err(BridgeError::ChannelClosed));
}

#[test]
fn outbound_frames_pass_through_byte_for_byte() {
    let mut bot = WaBot::new();
    let out1 = bot.send_frame(vec![0, 255, 7, 42]);
    assert_eq!(out1, vec![0, 255, 7, 42]);
    let out2 = bot.send_frame(Vec::new());
    assert_eq!(out2, Vec::<u8>::new());
    let out3 = bot.send_frame(vec![1; 1000]);
    assert_eq!(out3, vec![1; 1000]);
}

#[test]
fn frame_dispatch_outcomes_map_to_the_sender() {
    assert_eq!(complete_frame_dispatch(Ok(())), Ok(()));
    assert_eq!(
        complete_frame_dispatch(Err("host queue gone".to_string())),
        Err(BridgeError::DispatchFailure { message: "host queue gone".to_string() })
    );
}

#[test]
fn each_domain_event_maps_to_its_one_tag() {
    let paired = map_event(DomainEvent::PairingCode { code: "AB12-CD34".to_string(), timeout_secs: 60 });
    assert_eq!(paired, BotEvent::PairingQrCode { code: "AB12-CD34".to_string(), timeout: 60 });

    let msg = map_event(DomainEvent::MessageReceived {
        info: sample_info(),
        text: Some("hello".to_string()),
    });
    assert_eq!(
        msg,
        BotEvent::Message { info: sample_info(), text_content: Some("hello".to_string()) }
    );

    assert_eq!(map_event(DomainEvent::Connected), BotEvent::Connected);
    assert_eq!(
        map_event(DomainEvent::LoggedOut { reason: "banned".to_string() }),
        BotEvent::LoggedOut { reason: "banned".to_string() }
    );
    assert_eq!(map_event(DomainEvent::Other), BotEvent::Other);
}

#[test]
fn oversized_pairing_timeouts_are_clipped() {
    let e = map_event(DomainEvent::PairingCode {
        code: "X".to_string(),
        timeout_secs: 0x1_0000_0000u64 + 5,
    });
    assert_eq!(e, BotEvent::PairingQrCode { code: "X".to_string(), timeout: 5 });
}

#[test]
fn a_mixed_batch_of_events_comes_out_complete_and_in_order() {
    let mut bot = WaBot::new();
    let batch = vec![
        DomainEvent::Connected,
        DomainEvent::Other,
        DomainEvent::PairingCode { code: "Z9".to_string(), timeout_secs: 20 },
        DomainEvent::Other,
        DomainEvent::LoggedOut { reason: "logout".to_string() },
    ];
    let n = batch.len();
    let mut seen = Vec::new();
    for e in batch {
        seen.push(bot.on_event(e));
    }
    assert_eq!(seen.len(), n);
    assert_eq!(
        seen,
        vec![
            BotEvent::Connected,
            BotEvent::Other,
            BotEvent::PairingQrCode { code: "Z9".to_string(), timeout: 20 },
            BotEvent::Other,
            BotEvent::LoggedOut { reason: "logout".to_string() },
        ]
    );
}

#[test]
fn a_resolved_exchange_returns_status_and_body() {
    let r = resolve_http(HttpDispatchOutcome::Resolved { status: 200, body: b"ok".to_vec() });
    let resp = r.expect("a resolved exchange must succeed");
    assert_eq!(resp.status_code, 200);
    assert_eq!(resp.body, b"ok".to_vec());
}

#[test]
fn a_non_success_status_still_resolves() {
    let r = resolve_http(HttpDispatchOutcome::Resolved { status: 404, body: Vec::new() });
    let resp = r.expect("a completed exchange is a success whatever the status");
    assert_eq!(resp.status_code, 404);
    assert_eq!(resp.body, Vec::<u8>::new());
}

#[test]
fn a_rejected_exchange_preserves_the_host_message() {
    let r = resolve_http(HttpDispatchOutcome::Rejected {
        message: "ECONNREFUSED by proxy".to_string(),
    });
    match r {
        Err(BridgeError::HostRejected { message }) => {
            assert!(message.contains("ECONNREFUSED"));
            assert_eq!(message, "ECONNREFUSED by proxy");
        }
        _ => panic!("expected HostRejected"),
    }
}

#[test]
fn an_undispatched_exchange_is_a_dispatch_failure() {
    let r = resolve_http(HttpDispatchOutcome::DispatchFailed {
        message: "event loop stopped".to_string(),
    });
    assert_eq!(
        r,
        Err(BridgeError::DispatchFailure { message: "event loop stopped".to_string() })
    );
}

#[test]
fn request_builders_keep_header_keys_unique() {
    let req = HttpRequest::new("GET".to_string(), "https://example.invalid/x".to_string())
        .with_header("accept".to_string(), "text/plain".to_string())
        .with_header("origin".to_string(), "https://example.invalid".to_string())
        .with_header("accept".to_string(), "application/json".to_string());
    assert_eq!(req.method, "GET");
    assert_eq!(req.url, "https://example.invalid/x");
    assert_eq!(
        req.headers,
        vec![
            ("accept".to_string(), "application/json".to_string()),
            ("origin".to_string(), "https://example.invalid".to_string()),
        ]
    );
    assert_eq!(req.body, None);
}

#[test]
fn request_body_is_attached_unchanged() {
    let req = HttpRequest::new("POST".to_string(), "https://example.invalid/y".to_string())
        .with_body(b"payload".to_vec());
    assert_eq!(req.body, Some(b"payload".to_vec()));
}

#[test]
fn every_error_describes_itself() {
    assert_eq!(BridgeError::AlreadyStarted.describe(), "already started");
    assert_eq!(BridgeError::NotReady.describe(), "not ready");
    assert_eq!(BridgeError::ChannelClosed.describe(), "transport event channel closed");
    assert_eq!(BridgeError::QueueFull.describe(), "transport event queue full");
    assert_eq!(
        BridgeError::ConstructionFailure { message: "no store".to_string() }.describe(),
        "no store"
    );
    assert_eq!(
        BridgeError::InvalidAddress { message: "bad jid".to_string() }.describe(),
        "bad jid"
    );
    assert_eq!(
        BridgeError::DispatchFailure { message: "gone".to_string() }.describe(),
        "gone"
    );
    assert_eq!(
        BridgeError::HostRejected { message: "401".to_string() }.describe(),
        "401"
    );
    assert_eq!(
        BridgeError::SendFailed { message: "offline".to_string() }.describe(),
        "offline"
    );
}
