use vstd::prelude::*;
use crate::state::{ConnectState, DeviceInfo, PlayerState};

verus! {

/// The kind of participant a snapshot comes from.
#[derive(Clone, Copy, Debug, PartialEq, Eq, Structural)]
pub enum MemberType {
    SpircV2,
    SpircV3,
    ConnectState,
    ConnectStateExtended,
    ActiveDeviceTracker,
    PlayTokenTracker,
}

/// Why a snapshot is published.
#[derive(Clone, Copy, Debug, PartialEq, Eq, Structural)]
pub enum PutStateReason {
    UnknownPutStateReason,
    SpircHello,
    SpircNotify,
    NewDevice,
    PlayerStateChanged,
    VolumeChanged,
    PickerOpened,
    BecameInactive,
    AliasChanged,
    NewConnection,
    PullPlayback,
    AudioDriverInfoChanged,
    PutStateRateLimited,
    BackendMetadataApplied,
}

/// Device info and player state as published.
#[derive(Clone)]
pub struct Device {
    pub device_info: DeviceInfo,
    pub player_state: PlayerState,
}

/// The outbound state snapshot.
#[derive(Clone)]
pub struct PutStateRequest {
    pub member_type: MemberType,
    pub put_state_reason: PutStateReason,
    pub is_active: bool,
    pub client_side_timestamp: u64,
    pub device: Device,
    pub has_been_playing_for_ms: Option<u64>,
    pub started_playing_at: Option<u64>,
    pub last_command_message_id: Option<u32>,
    pub last_command_sent_by_device_id: Option<String>,
}

/// The snapshot published for `state` with `reason` at `now_ms`. A device
/// that became inactive is published as inactive, without play times.
pub open spec fn put_state_of(state: ConnectState, reason: PutStateReason, now_ms: u64) -> PutStateRequest {
    let inactive = reason == PutStateReason::BecameInactive;
    PutStateRequest {
        member_type: MemberType::ConnectState,
        put_state_reason: reason,
        is_active: state.active && !inactive,
        client_side_timestamp: now_ms,
        device: Device { device_info: state.device, player_state: state.player },
        has_been_playing_for_ms: match state.has_been_playing_for {
            Some(start) => if !inactive && start <= now_ms {
                Some((now_ms - start) as u64)
            } else {
                None
            },
            None => None,
        },
        started_playing_at: if inactive {
            None
        } else {
            state.active_since
        },
        last_command_message_id: match state.last_command {
            Some(c) => Some(c.message_id),
            None => None,
        },
        last_command_sent_by_device_id: match state.last_command {
            Some(c) => Some(c.sent_by_device_id),
            None => None,
        },
    }
}

impl ConnectState {
    /// Turns this point-in-time copy of the store into the snapshot request
    /// published at `now_ms`, echoing the last command when there is one.
    pub fn into_put_state(self, reason: PutStateReason, now_ms: u64) -> (r: PutStateRequest)
        ensures
            r == put_state_of(self, reason, now_ms),
    {
        let inactive = match reason {
            PutStateReason::BecameInactive => true,
            _ => false,
        };
        let has_been_playing_for_ms = match self.has_been_playing_for {
            Some(start) => if !inactive && start <= now_ms {
                Some(now_ms - start)
            } else {
                None
            },
            None => None,
        };
        let started_playing_at = if inactive {
            None
        } else {
            self.active_since
        };
        let (last_command_message_id, last_command_sent_by_device_id) = match self.last_command {
            Some(c) => (Some(c.message_id), Some(c.sent_by_device_id)),
            None => (None, None),
        };
        PutStateRequest {
            member_type: MemberType::ConnectState,
            put_state_reason: reason,
            is_active: self.active && !inactive,
            client_side_timestamp: now_ms,
            device: Device { device_info: self.device, player_state: self.player },
            has_been_playing_for_ms,
            started_playing_at,
            last_command_message_id,
            last_command_sent_by_device_id,
        }
    }
}

/// Two publishes of the same store with the same reason carry the same
/// device and player content, activity, play start and echoed command; only
/// the client timestamp (and the elapsed play time derived from it) differ.
pub proof fn lemma_publish_same_content(
    state: ConnectState,
    reason: PutStateReason,
    t1: u64,
    t2: u64,
)
    ensures
        put_state_of(state, reason, t1).device == put_state_of(state, reason, t2).device,
        put_state_of(state, reason, t1).member_type == put_state_of(state, reason, t2).member_type,
        put_state_of(state, reason, t1).put_state_reason == put_state_of(state, reason, t2).put_state_reason,
        put_state_of(state, reason, t1).is_active == put_state_of(state, reason, t2).is_active,
        put_state_of(state, reason, t1).started_playing_at == put_state_of(state, reason, t2).started_playing_at,
        put_state_of(state, reason, t1).last_command_message_id == put_state_of(state, reason, t2).last_command_message_id,
        put_state_of(state, reason, t1).last_command_sent_by_device_id == put_state_of(state, reason, t2).last_command_sent_by_device_id,
        put_state_of(state, reason, t1).client_side_timestamp == t1,
        put_state_of(state, reason, t2).client_side_timestamp == t2,
{
}

} // verus!
