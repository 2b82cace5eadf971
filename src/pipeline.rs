use vstd::prelude::*;

use crate::config::Mode;

verus! {

/// What the accept loop does with the outcome of one `accept`.
#[derive(Clone, Copy, Debug, PartialEq, Eq, Structural)]
pub enum AcceptAction {
    /// Start a concurrent task for the new connection.
    Spawn,
    /// Ignore the failed accept and wait for the next connection.
    Skip,
}

/// Errors of `accept` never stop the loop: they are skipped.
pub fn on_accept(accepted: bool) -> (r: AcceptAction)
    ensures
        r == (if accepted {
            AcceptAction::Spawn
        } else {
            AcceptAction::Skip
        }),
{
    if accepted {
        AcceptAction::Spawn
    } else {
        AcceptAction::Skip
    }
}

/// Where one accepted connection stands on its way to a session.
#[derive(Clone, Copy, Debug, PartialEq, Eq, Structural)]
pub enum Stage {
    /// Run the TLS server handshake over the raw stream.
    TlsHandshake,
    /// Run the WebSocket upgrade over the (possibly TLS) stream.
    WsHandshake,
    /// Hand the WebSocket stream to a session.
    Session,
    /// Give up on this connection only.
    Dropped,
}

pub open spec fn first_stage_of(mode: Mode) -> Stage {
    match mode {
        Mode::Prod => Stage::TlsHandshake,
        Mode::Dev => Stage::WsHandshake,
    }
}

/// The stage after `stage`, given whether it succeeded; a failed handshake
/// drops the connection, and `Session` and `Dropped` are final.
pub open spec fn stage_after(stage: Stage, succeeded: bool) -> Stage {
    match stage {
        Stage::TlsHandshake => if succeeded {
            Stage::WsHandshake
        } else {
            Stage::Dropped
        },
        Stage::WsHandshake => if succeeded {
            Stage::Session
        } else {
            Stage::Dropped
        },
        _ => stage,
    }
}

/// A connection starts with TLS in production and with the WebSocket
/// upgrade in development.
pub fn first_stage(mode: Mode) -> (r: Stage)
    ensures
        r == first_stage_of(mode),
{
    match mode {
        Mode::Prod => Stage::TlsHandshake,
        Mode::Dev => Stage::WsHandshake,
    }
}

pub fn next_stage(stage: Stage, succeeded: bool) -> (r: Stage)
    ensures
        r == stage_after(stage, succeeded),
{
    match stage {
        Stage::TlsHandshake => {
            if succeeded {
                Stage::WsHandshake
            } else {
                Stage::Dropped
            }
        },
        Stage::WsHandshake => {
            if succeeded {
                Stage::Session
            } else {
                Stage::Dropped
            }
        },
        _ => stage,
    }
}

/// The stage a connection ends in when the TLS handshake (if any) gives
/// `tls_ok` and the upgrade gives `ws_ok`.
pub open spec fn final_stage(mode: Mode, tls_ok: bool, ws_ok: bool) -> Stage {
    let s0 = first_stage_of(mode);
    let s1 = stage_after(s0, if s0 is TlsHandshake { tls_ok } else { ws_ok });
    stage_after(s1, if s1 is TlsHandshake { tls_ok } else { ws_ok })
}

/// A connection reaches its session exactly when its handshakes succeed; in
/// production that includes TLS. Otherwise only that connection is dropped.
pub proof fn lemma_session_needs_handshakes(mode: Mode, tls_ok: bool, ws_ok: bool)
    ensures
        final_stage(mode, tls_ok, ws_ok) is Session || final_stage(mode, tls_ok, ws_ok) is Dropped,
        final_stage(mode, tls_ok, ws_ok) is Session <==> (ws_ok && (mode == Mode::Prod
            ==> tls_ok)),
{
}

} // verus!
