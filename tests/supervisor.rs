use bloxide::messaging::{Channels, Handle, Message, Receiver, SendError, ROOT_ID, SUPERVISOR_ID};
use bloxide::pool::ChannelPool;
use bloxide::state_machine::{State, StateMachine};
use bloxide::supervisor::{
    Running, StandardPayload, SupervisorAction, SupervisorComponents, SupervisorExtendedState,
    SupervisorHandles, SupervisorInitArgs, SupervisorMessageSet, SupervisorPayload,
    SupervisorStateEnum, Uninit,
};

fn build(pool: Option<u16>, root_capacity: usize) -> (SupervisorExtendedState, Receiver, Handle) {
    let mut chans: Channels<StandardPayload> = Channels::new();
    let (sup, _sup_rx) = chans.create_channel_with_size(SUPERVISOR_ID, 8);
    let (root, root_rx) = chans.create_channel_with_size(ROOT_ID, root_capacity);
    let pool = pool.map(|c| ChannelPool::new(&mut chans, c, 4));
    let ext = SupervisorExtendedState::new(SupervisorInitArgs {
        root_standard_handle: root,
        supervisor_standard_handle: sup,
        channels: chans,
        pool,
        has_root_task: true,
    });
    (ext, root_rx, sup)
}

#[test]
fn start_up_without_root_task_is_reported() {
    let mut chans: Channels<StandardPayload> = Channels::new();
    let (sup, _a) = chans.create_channel_with_size(SUPERVISOR_ID, 8);
    let (root, _b) = chans.create_channel_with_size(ROOT_ID, 8);
    let ext = SupervisorExtendedState::new(SupervisorInitArgs {
        root_standard_handle: root,
        supervisor_standard_handle: sup,
        channels: chans,
        pool: None,
        has_root_task: false,
    });
    let mut sm = machine(ext, sup);
    sm.init(SupervisorStateEnum::Uninit(Uninit), SupervisorStateEnum::Running(Running));
    assert_eq!(sm.extended_state.actions, vec![SupervisorAction::RootTaskMissing]);
}

fn machine(ext: SupervisorExtendedState, sup: Handle) -> StateMachine<SupervisorComponents> {
    let mut ctl: Channels<SupervisorPayload> = Channels::new();
    let (ctl_h, _ctl_rx) = ctl.create_channel_with_size(SUPERVISOR_ID, 8);
    StateMachine::new(
        ext,
        SupervisorHandles { standard_handle: sup, supervisor_handle: ctl_h },
    )
}

fn request(source: u16, size: usize) -> SupervisorMessageSet {
    SupervisorMessageSet::SupervisorMessage(Message::new(
        source,
        SUPERVISOR_ID,
        SupervisorPayload::RequestNewStandardHandle(size),
    ))
}

#[test]
fn new_supervisor_registers_itself_and_root() {
    let (ext, _rx, sup) = build(None, 8);
    assert_eq!(ext.next_id, 2);
    assert_eq!(ext.registry_len(), 2);
    assert_eq!(ext.lookup(SUPERVISOR_ID), Some(sup));
    assert_eq!(ext.lookup(ROOT_ID).map(|h| h.id), Some(ROOT_ID));
    assert_eq!(ext.lookup(2), None);
    assert!(ext.actions.is_empty());
}

#[test]
fn identities_increase_from_two() {
    let (mut ext, _rx, _sup) = build(None, 8);
    let mut ids = Vec::new();
    for n in 0..5u16 {
        let (h, rx) = ext.request_new_standard_handle(3).unwrap();
        assert_eq!(h.slot, rx.slot);
        ids.push(h.id);
        assert_eq!(ext.registry_len(), (n as usize) + 3);
        assert_eq!(ext.lookup(h.id), Some(h));
    }
    assert_eq!(ids, vec![2, 3, 4, 5, 6]);
    assert_eq!(ext.next_id, 7);
}

#[test]
fn fresh_channel_has_requested_capacity() {
    let (mut ext, _rx, _sup) = build(None, 8);
    let (h, _rx2) = ext.request_new_standard_handle(1).unwrap();
    assert_eq!(h.try_send(&mut ext.channels, Message::new(0, h.id, StandardPayload::Initialize)), Ok(()));
    assert_eq!(
        h.try_send(&mut ext.channels, Message::new(0, h.id, StandardPayload::Shutdown)),
        Err(SendError::Full)
    );
}

#[test]
fn pooled_supervisor_serves_two_then_fails() {
    let (mut ext, _rx, _sup) = build(Some(2), 8);
    let a = ext.request_new_standard_handle(4);
    let b = ext.request_new_standard_handle(4);
    assert_eq!(a.as_ref().map(|p| p.0.id), Some(2));
    assert_eq!(b.as_ref().map(|p| p.0.id), Some(3));
    assert!(ext.request_new_standard_handle(4).is_none());
    assert_eq!(ext.next_id, 4);
    assert_eq!(ext.registry_len(), 4);
    assert_eq!(ext.pool.as_ref().map(|p| p.available()), Some(0));
}

#[test]
fn pooled_exhaustion_is_reported_to_the_run_loop() {
    let (ext, _rx, sup) = build(Some(2), 8);
    let mut sm = machine(ext, sup);
    sm.init(SupervisorStateEnum::Uninit(Uninit), SupervisorStateEnum::Running(Running));
    sm.dispatch(request(ROOT_ID, 4));
    sm.dispatch(request(ROOT_ID, 4));
    sm.dispatch(request(ROOT_ID, 4));
    assert_eq!(
        sm.extended_state.actions,
        vec![SupervisorAction::SpawnRoot, SupervisorAction::ProvisionFailed(ROOT_ID)]
    );
    assert_eq!(sm.extended_state.channels.queued(root_slot(&sm)), 2);
}

fn root_slot(sm: &StateMachine<SupervisorComponents>) -> usize {
    sm.extended_state.lookup(ROOT_ID).unwrap().slot
}

#[test]
fn init_spawns_root_once_and_enters_running() {
    let (ext, _rx, sup) = build(None, 8);
    let mut sm = machine(ext, sup);
    assert_eq!(sm.current_state, SupervisorStateEnum::Uninit(Uninit));
    sm.init(SupervisorStateEnum::Uninit(Uninit), SupervisorStateEnum::Running(Running));
    assert_eq!(sm.current_state, SupervisorStateEnum::Running(Running));
    assert_eq!(sm.extended_state.actions, vec![SupervisorAction::SpawnRoot]);
    assert!(!sm.extended_state.root_spawn_pending);
}

#[test]
fn request_reply_reaches_the_requester() {
    let (ext, root_rx, sup) = build(None, 8);
    let mut sm = machine(ext, sup);
    sm.init(SupervisorStateEnum::Uninit(Uninit), SupervisorStateEnum::Running(Running));
    let moved = sm.dispatch(request(ROOT_ID, 5));
    assert!(!moved);
    let reply = sm.extended_state.channels.try_receive(&root_rx).unwrap();
    assert_eq!(reply.source_id, SUPERVISOR_ID);
    assert_eq!(reply.dest_id, ROOT_ID);
    match reply.payload {
        StandardPayload::StandardChannel(h, rx) => {
            assert_eq!(h.id, 2);
            assert_eq!(rx.slot, h.slot);
        }
        _ => panic!("expected a channel"),
    }
    assert_eq!(sm.extended_state.registry_len(), 3);
}

#[test]
fn unknown_requester_gets_no_reply() {
    let (ext, root_rx, sup) = build(None, 8);
    let mut sm = machine(ext, sup);
    sm.init(SupervisorStateEnum::Uninit(Uninit), SupervisorStateEnum::Running(Running));
    sm.dispatch(request(77, 5));
    assert!(sm.extended_state.channels.try_receive(&root_rx).is_none());
    assert_eq!(sm.extended_state.registry_len(), 3);
    assert_eq!(sm.extended_state.actions, vec![SupervisorAction::SpawnRoot]);
}

#[test]
fn full_requester_queue_is_reported() {
    let (ext, _root_rx, sup) = build(None, 0);
    let mut sm = machine(ext, sup);
    sm.init(SupervisorStateEnum::Uninit(Uninit), SupervisorStateEnum::Running(Running));
    sm.dispatch(request(ROOT_ID, 5));
    assert_eq!(
        sm.extended_state.actions,
        vec![SupervisorAction::SpawnRoot, SupervisorAction::ReplyFailed(ROOT_ID, SendError::Full)]
    );
}

#[test]
fn spawn_requests_are_queued_in_order() {
    let (ext, _rx, sup) = build(None, 8);
    let mut sm = machine(ext, sup);
    sm.init(SupervisorStateEnum::Uninit(Uninit), SupervisorStateEnum::Running(Running));
    for k in [4usize, 9] {
        sm.dispatch(SupervisorMessageSet::SupervisorMessage(Message::new(
            ROOT_ID,
            SUPERVISOR_ID,
            SupervisorPayload::Spawn(k),
        )));
    }
    assert_eq!(
        sm.extended_state.actions,
        vec![SupervisorAction::SpawnRoot, SupervisorAction::Spawn(4), SupervisorAction::Spawn(9)]
    );
}

#[test]
fn uninit_supervisor_ignores_requests() {
    let (ext, root_rx, sup) = build(None, 8);
    let mut sm = machine(ext, sup);
    sm.dispatch(request(ROOT_ID, 5));
    assert_eq!(sm.current_state, SupervisorStateEnum::Uninit(Uninit));
    assert!(sm.extended_state.channels.try_receive(&root_rx).is_none());
    assert_eq!(sm.extended_state.next_id, 2);
}

#[test]
fn standard_messages_are_absorbed_by_running() {
    let (ext, _rx, sup) = build(None, 8);
    let mut sm = machine(ext, sup);
    sm.init(SupervisorStateEnum::Uninit(Uninit), SupervisorStateEnum::Running(Running));
    let moved = sm.dispatch(SupervisorMessageSet::StandardMessage(Message::new(
        ROOT_ID,
        SUPERVISOR_ID,
        StandardPayload::Shutdown,
    )));
    assert!(!moved);
    assert_eq!(sm.current_state, SupervisorStateEnum::Running(Running));
    assert_eq!(sm.extended_state.actions.len(), 1);
}

#[test]
fn supervisor_state_parents() {
    assert_eq!(Running.parent(), SupervisorStateEnum::Uninit(Uninit));
    assert_eq!(Uninit.parent(), SupervisorStateEnum::Uninit(Uninit));
    assert_eq!(SupervisorStateEnum::Running(Running).parent(), SupervisorStateEnum::Uninit(Uninit));
}

#[test]
fn second_root_spawn_reports_missing_task() {
    let (mut ext, _rx, _sup) = build(None, 8);
    Uninit.spawn_root(&mut ext);
    Uninit.spawn_root(&mut ext);
    assert_eq!(ext.actions, vec![SupervisorAction::SpawnRoot, SupervisorAction::RootTaskMissing]);
    Running.spawn_blox(&mut ext, 3);
    Running.spawn_blox_local(&mut ext, 4);
    assert_eq!(
        ext.actions,
        vec![
            SupervisorAction::SpawnRoot,
            SupervisorAction::RootTaskMissing,
            SupervisorAction::Spawn(3),
            SupervisorAction::SpawnLocal(4)
        ]
    );
}

#[test]
fn local_spawn_requests_are_queued() {
    let (ext, _rx, sup) = build(None, 8);
    let mut sm = machine(ext, sup);
    sm.init(SupervisorStateEnum::Uninit(Uninit), SupervisorStateEnum::Running(Running));
    sm.dispatch(SupervisorMessageSet::SupervisorMessage(Message::new(
        ROOT_ID,
        SUPERVISOR_ID,
        SupervisorPayload::SpawnLocal(6),
    )));
    assert_eq!(sm.extended_state.actions, vec![SupervisorAction::SpawnRoot, SupervisorAction::SpawnLocal(6)]);
}

#[test]
fn unknown_requester_still_gets_an_id() {
    let (ext, _rx, sup) = build(None, 8);
    let mut sm = machine(ext, sup);
    sm.init(SupervisorStateEnum::Uninit(Uninit), SupervisorStateEnum::Running(Running));
    sm.dispatch(request(77, 5));
    assert_eq!(sm.extended_state.next_id, 3);
    assert_eq!(sm.extended_state.lookup(2).map(|h| h.id), Some(2));
}
