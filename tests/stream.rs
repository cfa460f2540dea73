use monitoring_agent::stream::{handle_ws_event, ConnectionAction, ConnectionEvent, ConnectionState};

use ConnectionAction as A;
use ConnectionEvent as E;
use ConnectionState as S;

#[test]
fn no_push_before_first_snapshot() {
    let (state, action) = handle_ws_event(S::Open, E::Tick { latest_present: false });
    assert_eq!((state, action), (S::Open, A::Wait));
    let (state, action) = handle_ws_event(state, E::Tick { latest_present: false });
    assert_eq!((state, action), (S::Open, A::Wait));
    let (state, action) = handle_ws_event(state, E::Tick { latest_present: true });
    assert_eq!((state, action), (S::Open, A::SerializeLatest));
}

#[test]
fn serialization_fault_skips_only_that_push() {
    let (state, action) = handle_ws_event(S::Open, E::Tick { latest_present: true });
    assert_eq!(action, A::SerializeLatest);
    let (state, action) = handle_ws_event(state, E::Serialized { ok: false });
    assert_eq!((state, action), (S::Open, A::SkipPush));
    let (state, action) = handle_ws_event(state, E::Tick { latest_present: true });
    assert_eq!((state, action), (S::Open, A::SerializeLatest));
    let (state, action) = handle_ws_event(state, E::Serialized { ok: true });
    assert_eq!((state, action), (S::Open, A::Push));
    let (state, action) = handle_ws_event(state, E::Pushed { ok: true });
    assert_eq!((state, action), (S::Open, A::Wait));
}

#[test]
fn transport_failure_closes() {
    assert_eq!(handle_ws_event(S::Open, E::Pushed { ok: false }), (S::Closed, A::Close));
}

#[test]
fn inbound_data_is_ignored_and_close_ends() {
    assert_eq!(handle_ws_event(S::Open, E::Inbound { close: false }), (S::Open, A::Wait));
    assert_eq!(handle_ws_event(S::Open, E::Inbound { close: true }), (S::Closed, A::Close));
    assert_eq!(handle_ws_event(S::Open, E::InboundEnded), (S::Closed, A::Close));
}

#[test]
fn closed_connection_stays_closed() {
    assert_eq!(handle_ws_event(S::Closed, E::Tick { latest_present: true }), (S::Closed, A::Wait));
    assert_eq!(handle_ws_event(S::Closed, E::Serialized { ok: true }), (S::Closed, A::Wait));
}
