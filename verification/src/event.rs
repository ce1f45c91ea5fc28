//! Domain events and their outbound encoding.
//!
//! The protocol client emits typed domain events; the host receives each one
//! as a tagged outbound value. The mapping is total over the domain event
//! space: every kind maps to exactly one outbound tag, and kinds the bridge
//! does not special-case carry the explicit `Other` tag instead of being
//! dropped.

use vstd::prelude::*;

verus! {

/// A protocol address, split into its user and server parts.
#[derive(Debug, Clone, PartialEq, Eq)]
pub struct Jid {
    pub user: String,
    pub server: String,
}

/// Where a received message came from.
#[derive(Debug, Clone, PartialEq, Eq)]
pub struct MessageSource {
    pub chat: Jid,
    pub sender: Jid,
}

/// What the bridge passes on about a received message.
#[derive(Debug, Clone, PartialEq, Eq)]
pub struct MessageInfo {
    pub source: MessageSource,
}

/// The outbound, host-facing encoding of a domain event: a discriminated
/// value whose tag set and payload fields are fixed.
#[derive(Debug, Clone, PartialEq, Eq)]
pub enum BotEvent {
    PairingQrCode { code: String, timeout: u32 },
    Message { info: MessageInfo, text_content: Option<String> },
    Connected,
    LoggedOut { reason: String },
    Other,
}

/// A domain event as the protocol client emits it, reduced to plain values.
///
/// `Other` stands for every event kind the bridge does not special-case; the
/// mapping below must carry it through explicitly rather than drop it.
#[derive(Debug, Clone, PartialEq, Eq)]
pub enum DomainEvent {
    PairingCode { code: String, timeout_secs: u64 },
    MessageReceived { info: MessageInfo, text: Option<String> },
    Connected,
    LoggedOut { reason: String },
    Other,
}

/// The five outbound tags, stripped of their payloads.
#[derive(Debug, Clone, Copy, PartialEq, Eq)]
pub enum EventTag {
    PairingQrCode,
    Message,
    Connected,
    LoggedOut,
    Other,
}

/// The tag of an outbound value.
pub open spec fn tag_of(b: BotEvent) -> EventTag {
    match b {
        BotEvent::PairingQrCode { .. } => EventTag::PairingQrCode,
        BotEvent::Message { .. } => EventTag::Message,
        BotEvent::Connected => EventTag::Connected,
        BotEvent::LoggedOut { .. } => EventTag::LoggedOut,
        BotEvent::Other => EventTag::Other,
    }
}

/// The one tag each domain event kind is owed.
pub open spec fn domain_tag(e: DomainEvent) -> EventTag {
    match e {
        DomainEvent::PairingCode { .. } => EventTag::PairingQrCode,
        DomainEvent::MessageReceived { .. } => EventTag::Message,
        DomainEvent::Connected => EventTag::Connected,
        DomainEvent::LoggedOut { .. } => EventTag::LoggedOut,
        DomainEvent::Other => EventTag::Other,
    }
}

/// A pairing timeout in whole seconds, clipped to the 32-bit field the
/// outbound encoding carries.
pub open spec fn clip_timeout(timeout_secs: u64) -> u32 {
    (timeout_secs % 0x1_0000_0000) as u32
}

/// What each domain event becomes on the way out.
pub open spec fn spec_map_event(e: DomainEvent) -> BotEvent {
    match e {
        DomainEvent::PairingCode { code, timeout_secs } => BotEvent::PairingQrCode {
            code,
            timeout: clip_timeout(timeout_secs),
        },
        DomainEvent::MessageReceived { info, text } => BotEvent::Message {
            info,
            text_content: text,
        },
        DomainEvent::Connected => BotEvent::Connected,
        DomainEvent::LoggedOut { reason } => BotEvent::LoggedOut { reason },
        DomainEvent::Other => BotEvent::Other,
    }
}

/// Encodes one domain event as its outbound value.
///
/// Total over the domain event space: no input is rejected and none is
/// dropped; unhandled kinds come out under the `Other` tag.
pub fn map_event(e: DomainEvent) -> (r: BotEvent)
    ensures
        r == spec_map_event(e),
{
    match e {
        DomainEvent::PairingCode { code, timeout_secs } => BotEvent::PairingQrCode {
            code,
            timeout: (timeout_secs % 0x1_0000_0000) as u32,
        },
        DomainEvent::MessageReceived { info, text } => BotEvent::Message {
            info,
            text_content: text,
        },
        DomainEvent::Connected => BotEvent::Connected,
        DomainEvent::LoggedOut { reason } => BotEvent::LoggedOut { reason },
        DomainEvent::Other => BotEvent::Other,
    }
}

/// Every domain event kind maps to exactly one outbound tag — the tag
/// `domain_tag` owes it — and the unhandled kind maps to `Other`, so no
/// event is ever dropped silently.
pub proof fn lemma_event_mapping_total(e: DomainEvent)
    ensures
        tag_of(spec_map_event(e)) == domain_tag(e),
        e is Other ==> spec_map_event(e) is Other,
{
}

} // verus!
