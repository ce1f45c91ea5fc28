use std::sync::Arc;

use wa_bridge::bridge::BuildOutcome;
use wa_bridge::bridge::LifecycleState;
use wa_bridge::bridge::SendOutcome;
use wa_bridge::bridge::WaBot;
use wa_bridge::bridge::complete_construction;
use wa_bridge::bridge::complete_send;
use wa_bridge::error::BridgeError;

#[test]
fn start_succeeds_exactly_once() {
    let mut bot = WaBot::new();
    assert_eq!(bot.current_state(), LifecycleState::Constructed);
    assert_eq!(bot.start(), Ok(()));
    assert_eq!(bot.current_state(), LifecycleState::Started);
    assert_eq!(bot.start(), Err(BridgeError::AlreadyStarted));
    assert_eq!(bot.start(), Err(BridgeError::AlreadyStarted));
}

#[test]
fn create_transport_succeeds_exactly_once() {
    let mut bot = WaBot::new();
    assert_eq!(bot.create_transport(), Ok(()));
    assert_eq!(bot.create_transport(), Err(BridgeError::AlreadyStarted));
    assert_eq!(bot.create_transport(), Err(BridgeError::AlreadyStarted));
}

#[test]
fn send_before_running_is_not_ready() {
    let bot = WaBot::new();
    let r = bot.send_message("12345@s.whatsapp.net".to_string(), "hello".to_string());
    assert_eq!(r, Err(BridgeError::NotReady));
}

#[test]
fn send_after_start_but_before_publish_is_not_ready() {
    let mut bot = WaBot::new();
    assert_eq!(bot.start(), Ok(()));
    let r = bot.send_message("12345@s.whatsapp.net".to_string(), "hello".to_string());
    assert_eq!(r, Err(BridgeError::NotReady));
}

fn running_bot() -> WaBot {
    let mut bot = WaBot::new();
    assert_eq!(bot.start(), Ok(()));
    bot.publish_client();
    assert_eq!(bot.current_state(), LifecycleState::Running);
    bot
}

#[test]
fn send_with_well_formed_address_is_accepted() {
    let bot = running_bot();
    let m = bot
        .send_message("12345@s.whatsapp.net".to_string(), "hello".to_string())
        .expect("a well-formed address must be accepted");
    assert_eq!(m.to.user, "12345");
    assert_eq!(m.to.server, "s.whatsapp.net");
    assert_eq!(m.conversation, "hello");
}

#[test]
fn send_with_group_address_is_accepted() {
    let bot = running_bot();
    let m = bot
        .send_message("1234-5678@g.us".to_string(), "hi all".to_string())
        .expect("a group address must be accepted");
    assert_eq!(m.to.user, "1234-5678");
    assert_eq!(m.to.server, "g.us");
    assert_eq!(m.conversation, "hi all");
}

#[test]
fn send_with_device_suffixed_address_keeps_only_the_user_part() {
    let bot = running_bot();
    let m = bot
        .send_message("12345:7@s.whatsapp.net".to_string(), "hello".to_string())
        .expect("a device-suffixed address must be accepted");
    // The parser splits the device off: the user part is not the raw prefix.
    assert_eq!(m.to.user, "12345");
    assert_eq!(m.to.server, "s.whatsapp.net");
}

#[test]
fn send_with_malformed_address_is_invalid() {
    let bot = running_bot();
    let r = bot.send_message("someone@nowhere.example".to_string(), "hello".to_string());
    match r {
        Err(BridgeError::InvalidAddress { .. }) => {}
        other => panic!("expected InvalidAddress, got {:?}", other),
    }
}

#[test]
fn send_after_run_ended_is_not_ready() {
    let mut bot = running_bot();
    bot.run_ended();
    assert_eq!(bot.current_state(), LifecycleState::Stopped);
    let r = bot.send_message("12345@s.whatsapp.net".to_string(), "hello".to_string());
    assert_eq!(r, Err(BridgeError::NotReady));
}

#[test]
fn concurrent_sends_are_independent() {
    let bot = Arc::new(running_bot());
    let rt = tokio::runtime::Builder::new_multi_thread()
        .worker_threads(4)
        .build()
        .unwrap();
    rt.block_on(async {
        let mut handles = Vec::new();
        for i in 0..16u32 {
            let bot = Arc::clone(&bot);
            handles.push(tokio::spawn(async move {
                if i % 2 == 0 {
                    let m = bot
                        .send_message(format!("{}@s.whatsapp.net", 10000 + i), format!("msg {}", i))
                        .expect("a well-formed address must be accepted");
                    assert_eq!(m.to.user, format!("{}", 10000 + i));
                    assert_eq!(m.to.server, "s.whatsapp.net");
                    assert_eq!(m.conversation, format!("msg {}", i));
                } else {
                    let r = bot.send_message(format!("user-{}@nowhere.example", i), "x".to_string());
                    assert!(matches!(r, Err(BridgeError::InvalidAddress { .. })));
                }
            }));
        }
        for h in handles {
            h.await.unwrap();
        }
    });
}

#[test]
fn completed_send_carries_message_id() {
    let r = complete_send(SendOutcome::Sent { message_id: "3EB0ABC123".to_string() });
    assert_eq!(r, Ok("3EB0ABC123".to_string()));
}

#[test]
fn failed_send_preserves_the_client_message() {
    let r = complete_send(SendOutcome::Failed { message: "socket gone".to_string() });
    assert_eq!(r, Err(BridgeError::SendFailed { message: "socket gone".to_string() }));
}

#[test]
fn successful_build_yields_a_fresh_bridge() {
    let bot = complete_construction(BuildOutcome::Built).expect("a built client must yield a bridge");
    assert_eq!(bot.current_state(), LifecycleState::Constructed);
}

#[test]
fn failed_build_is_a_construction_failure() {
    let r = complete_construction(BuildOutcome::Failed { message: "store unreachable".to_string() });
    match r {
        Err(BridgeError::ConstructionFailure { message }) => {
            assert_eq!(message, "store unreachable");
        }
        _ => panic!("expected ConstructionFailure"),
    }
}
