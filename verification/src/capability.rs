//! The per-role capability dispatch table.
//!
//! A module's role is fixed when it is loaded and never changes. The table
//! below decides, for every declared operation, whether that role has a live
//! implementation or gets the uniform `Unsupported` result. The decision
//! depends on the (role, operation) pair alone — never on argument values —
//! and the match is exhaustive over both enums, so no operation is silently
//! missing for either role.

use vstd::prelude::*;

verus! {

/// The execution role a module instance was loaded with.
///
/// Authoritative modules own the simulation; presentational modules observe
/// and render next to a player and talk to the authoritative peer.
#[derive(Clone, Copy, Debug, PartialEq, Eq, Structural)]
pub enum Role {
    Authoritative,
    Presentational,
}

/// Every capability operation declared at the guest call boundary.
///
/// The set is closed: a call that does not name one of these never reaches
/// dispatch.
#[derive(Clone, Copy, Debug, PartialEq, Eq, Structural)]
pub enum Operation {
    // message capability
    SendPeerReliable,
    SendPeerUnreliable,
    SendLocalBroadcast,
    SendLocalDirected,
    // player capability
    GetLocalPlayer,
    // input capability
    GetInput,
    GetPreviousInput,
    SetCursor,
    SetCursorVisible,
    SetCursorLock,
    // camera capability
    ClipSpaceRay,
    ScreenToClipSpace,
    ScreenToWorldDirection,
    WorldToScreen,
    ScreenRay,
    // audio capability
    LoadAudio,
    PlayAudio,
    StopAudio,
    SetAudioVolume,
    StopAudioById,
    // window capability
    SetFullscreen,
    // procedural resource capability
    CreateMesh,
    DestroyMesh,
    CreateTexture2d,
    DestroyTexture,
    CreateSampler,
    DestroySampler,
    CreateMaterial,
    DestroyMaterial,
    // simulation capability
    MoveCharacter,
}

/// The dispatch table: does `role` implement `op`?
///
/// Procedural resource operations are shared by both roles. Peer-directed
/// sends, player, input, camera, audio and window operations are live only
/// on the presentational role: the authoritative role has no local player,
/// no window, and already is the peer. Locally addressed sends are
/// deliberately live on both roles — `Unsupported` marks a target the role
/// cannot reach, and every role can reach the modules loaded beside it.
/// Character movement is live only on the authoritative role. `ScreenRay`
/// is declared but implemented on neither role.
pub open spec fn supports(role: Role, op: Operation) -> bool {
    match op {
        Operation::SendPeerReliable => role is Presentational,
        Operation::SendPeerUnreliable => role is Presentational,
        Operation::SendLocalBroadcast => true,
        Operation::SendLocalDirected => true,
        Operation::GetLocalPlayer => role is Presentational,
        Operation::GetInput => role is Presentational,
        Operation::GetPreviousInput => role is Presentational,
        Operation::SetCursor => role is Presentational,
        Operation::SetCursorVisible => role is Presentational,
        Operation::SetCursorLock => role is Presentational,
        Operation::ClipSpaceRay => role is Presentational,
        Operation::ScreenToClipSpace => role is Presentational,
        Operation::ScreenToWorldDirection => role is Presentational,
        Operation::WorldToScreen => role is Presentational,
        Operation::ScreenRay => false,
        Operation::LoadAudio => role is Presentational,
        Operation::PlayAudio => role is Presentational,
        Operation::StopAudio => role is Presentational,
        Operation::SetAudioVolume => role is Presentational,
        Operation::StopAudioById => role is Presentational,
        Operation::SetFullscreen => role is Presentational,
        Operation::CreateMesh => true,
        Operation::DestroyMesh => true,
        Operation::CreateTexture2d => true,
        Operation::DestroyTexture => true,
        Operation::CreateSampler => true,
        Operation::DestroySampler => true,
        Operation::CreateMaterial => true,
        Operation::DestroyMaterial => true,
        Operation::MoveCharacter => role is Authoritative,
    }
}

/// Executable form of the dispatch table.
pub fn op_supported(role: Role, op: Operation) -> (r: bool)
    ensures
        r == supports(role, op),
{
    match op {
        Operation::SendPeerReliable => matches!(role, Role::Presentational),
        Operation::SendPeerUnreliable => matches!(role, Role::Presentational),
        Operation::SendLocalBroadcast => true,
        Operation::SendLocalDirected => true,
        Operation::GetLocalPlayer => matches!(role, Role::Presentational),
        Operation::GetInput => matches!(role, Role::Presentational),
        Operation::GetPreviousInput => matches!(role, Role::Presentational),
        Operation::SetCursor => matches!(role, Role::Presentational),
        Operation::SetCursorVisible => matches!(role, Role::Presentational),
        Operation::SetCursorLock => matches!(role, Role::Presentational),
        Operation::ClipSpaceRay => matches!(role, Role::Presentational),
        Operation::ScreenToClipSpace => matches!(role, Role::Presentational),
        Operation::ScreenToWorldDirection => matches!(role, Role::Presentational),
        Operation::WorldToScreen => matches!(role, Role::Presentational),
        Operation::ScreenRay => false,
        Operation::LoadAudio => matches!(role, Role::Presentational),
        Operation::PlayAudio => matches!(role, Role::Presentational),
        Operation::StopAudio => matches!(role, Role::Presentational),
        Operation::SetAudioVolume => matches!(role, Role::Presentational),
        Operation::StopAudioById => matches!(role, Role::Presentational),
        Operation::SetFullscreen => matches!(role, Role::Presentational),
        Operation::CreateMesh => true,
        Operation::DestroyMesh => true,
        Operation::CreateTexture2d => true,
        Operation::DestroyTexture => true,
        Operation::CreateSampler => true,
        Operation::DestroySampler => true,
        Operation::CreateMaterial => true,
        Operation::DestroyMaterial => true,
        Operation::MoveCharacter => matches!(role, Role::Authoritative),
    }
}

/// An operation live on one role is a role-exclusive operation only if the
/// other role rejects it; shared handlers (the resource registry and the
/// local message operations) are live on both. This pins the partition:
/// every operation is either shared, exclusive to one role, or declared
/// and implemented nowhere.
pub proof fn lemma_partition_total(op: Operation)
    ensures
        supports(Role::Authoritative, op) || supports(Role::Presentational, op) || op
            == Operation::ScreenRay,
{
}

} // verus!
