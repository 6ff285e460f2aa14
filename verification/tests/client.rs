use lunatic_distributed::client::{
    complete_exchange, complete_spawn, config_resource_id, get_nodes, module_id, node_id, nodes_count, select_config,
    send, send_receive_skip_search, spawn, HostError, Outbound, Region, Wait, INHERIT_CONFIG,
    NO_MESSAGE, RECEIVED, SPAWNED, SPAWN_FAILED,
};
use lunatic_distributed::mailbox::{Mailbox, ScratchSlot};
use lunatic_distributed::message::{DataMessage, Message};
use lunatic_distributed::protocol::{Request, Spawn};
use lunatic_distributed::value::Val;

fn data(tag: Option<i64>, body: &[u8]) -> Message {
    Message::Data(DataMessage::new_from_vec(tag, body.to_vec()))
}

fn staged(message: Message) -> ScratchSlot {
    let mut slot = ScratchSlot::new();
    slot.put(message);
    slot
}

/// A memory with the function name at 4 and one parameter record at 16.
fn spawn_memory(name: &[u8], tag: u8) -> Vec<u8> {
    let mut memory = vec![0u8; 64];
    memory[4..4 + name.len()].copy_from_slice(name);
    memory[16] = tag;
    memory[17..33].copy_from_slice(&42u128.to_le_bytes());
    memory
}

#[test]
fn nodes_count_is_zero_without_control_plane() {
    assert_eq!(nodes_count(None), 0);
    assert_eq!(nodes_count(Some(0)), 0);
    assert_eq!(nodes_count(Some(3)), 3);
}

#[test]
fn node_and_module_id_default_to_zero() {
    assert_eq!(node_id(None), 0);
    assert_eq!(node_id(Some(17)), 17);
    assert_eq!(module_id(None), 0);
    assert_eq!(module_id(Some(u64::MAX)), u64::MAX);
}

#[test]
fn get_nodes_writes_all_ids_when_there_is_room() {
    let mut memory = vec![0xAAu8; 32];
    let ids = [0x0102030405060708u64, 2];
    assert_eq!(get_nodes(&mut memory, &ids, 8, 5), Ok(2));
    let mut expected = vec![0xAAu8; 32];
    expected[8..16].copy_from_slice(&[8, 7, 6, 5, 4, 3, 2, 1]);
    expected[16..24].copy_from_slice(&[2, 0, 0, 0, 0, 0, 0, 0]);
    assert_eq!(memory, expected);
}

#[test]
fn get_nodes_writes_no_more_than_the_capacity() {
    let mut memory = vec![0xAAu8; 32];
    let ids = [1u64, 2, 3];
    assert_eq!(get_nodes(&mut memory, &ids, 0, 2), Ok(2));
    let mut expected = vec![0xAAu8; 32];
    expected[0..8].copy_from_slice(&1u64.to_le_bytes());
    expected[8..16].copy_from_slice(&2u64.to_le_bytes());
    assert_eq!(memory, expected);
    assert_eq!(get_nodes(&mut memory, &ids, 0, 0), Ok(0));
    assert_eq!(memory, expected);
}

#[test]
fn get_nodes_fills_the_memory_to_its_last_byte() {
    let mut memory = vec![0u8; 16];
    assert_eq!(get_nodes(&mut memory, &[u64::MAX], 8, 1), Ok(1));
    assert_eq!(&memory[..8], &[0u8; 8]);
    assert_eq!(&memory[8..], &[0xFFu8; 8]);
}

#[test]
fn get_nodes_outside_the_memory_writes_nothing() {
    let mut memory = vec![0x55u8; 16];
    let ids = [1u64, 2];
    assert_eq!(
        get_nodes(&mut memory, &ids, 1, 2),
        Err(HostError::OutOfBounds(Region::NodeIds))
    );
    assert_eq!(
        get_nodes(&mut memory, &ids, u32::MAX, u32::MAX),
        Err(HostError::OutOfBounds(Region::NodeIds))
    );
    assert_eq!(memory, vec![0x55u8; 16]);
    assert_eq!(get_nodes(&mut memory, &[], u32::MAX, 7), Err(HostError::OutOfBounds(Region::NodeIds)));
    assert_eq!(get_nodes(&mut memory, &[], 16, 7), Ok(0));
}

#[test]
fn spawn_reads_name_params_and_own_config() {
    let memory = spawn_memory(b"start", 0x7F);
    let plan = spawn(true, &memory, 4, 5, 16, 17, INHERIT_CONFIG, &"own", Some(&"other")).unwrap();
    assert_eq!(plan.function, "start");
    assert_eq!(plan.params, vec![Val::I32(42)]);
    assert_eq!(*plan.config, "own");
    let request = plan.into_request(3, 9, vec![1, 2, 3]);
    assert_eq!(
        request,
        Spawn {
            environment_id: 3,
            module_id: 9,
            function: "start".to_string(),
            params: vec![Val::I32(42)],
            config: vec![1, 2, 3],
        }
    );
}

#[test]
fn spawn_uses_the_registered_config() {
    let memory = spawn_memory(b"start", 0x7E);
    let plan = spawn(true, &memory, 4, 5, 16, 17, 0, &"own", Some(&"other")).unwrap();
    assert_eq!(*plan.config, "other");
    assert_eq!(plan.params, vec![Val::I64(42)]);
}

#[test]
fn spawn_reads_a_name_that_is_not_ascii() {
    let name = "héllo→".as_bytes();
    let memory = spawn_memory(name, 0x7B);
    let plan = spawn(true, &memory, 4, name.len() as u32, 16, 0, -1, &1u8, None).unwrap();
    assert_eq!(plan.function, "héllo→");
    assert_eq!(plan.params, vec![]);
}

#[test]
fn spawn_without_permission_is_refused_first() {
    let memory = spawn_memory(b"start", 0x00);
    let refused = spawn(false, &memory, 400, 5, 900, 17, 5, &1u8, None);
    assert_eq!(refused.err(), Some(HostError::PermissionDenied));
}

#[test]
fn spawn_names_the_stretch_that_is_out_of_bounds() {
    let memory = spawn_memory(b"start", 0x7F);
    let name = spawn(true, &memory, 60, 5, 900, 17, -1, &1u8, None);
    assert_eq!(name.err(), Some(HostError::OutOfBounds(Region::FunctionName)));
    let wrapped = spawn(true, &memory, u32::MAX, 2, 16, 17, -1, &1u8, None);
    assert_eq!(wrapped.err(), Some(HostError::OutOfBounds(Region::FunctionName)));
    let params = spawn(true, &memory, 4, 5, 48, 17, -1, &1u8, None);
    assert_eq!(params.err(), Some(HostError::OutOfBounds(Region::Params)));
}

#[test]
fn spawn_rejects_a_name_that_is_not_utf8() {
    let memory = spawn_memory(&[b's', 0xFF, b't'], 0x7F);
    let refused = spawn(true, &memory, 4, 3, 900, 17, -1, &1u8, None);
    assert_eq!(refused.err(), Some(HostError::InvalidUtf8));
    let cut = spawn_memory("é".as_bytes(), 0x7F);
    assert_eq!(
        spawn(true, &cut, 4, 1, 16, 17, -1, &1u8, None).err(),
        Some(HostError::InvalidUtf8)
    );
}

#[test]
fn spawn_rejects_an_unknown_parameter_tag() {
    let memory = spawn_memory(b"start", 0x01);
    let refused = spawn(true, &memory, 4, 5, 16, 17, 7, &1u8, None);
    assert_eq!(refused.err(), Some(HostError::UnsupportedType));
}

#[test]
fn spawn_rejects_a_config_id_that_is_not_registered() {
    let memory = spawn_memory(b"start", 0x7F);
    let refused = spawn(true, &memory, 4, 5, 16, 17, 7, &1u8, None);
    assert_eq!(refused.err(), Some(HostError::ConfigNotFound));
    assert_eq!(select_config(-2, &1u8, None), Err(HostError::ConfigNotFound));
    assert_eq!(select_config(-1, &1u8, None), Ok(&1u8));
    assert_eq!(select_config(-1, &1u8, Some(&2u8)), Ok(&1u8));
    assert_eq!(select_config(i64::MAX, &1u8, Some(&2u8)), Ok(&2u8));
}

#[test]
fn config_resource_id_is_the_id_unless_it_inherits() {
    assert_eq!(config_resource_id(-1), None);
    assert_eq!(config_resource_id(0), Some(0));
    assert_eq!(config_resource_id(7), Some(7));
    assert_eq!(config_resource_id(-2), Some(u64::MAX - 1));
    assert_eq!(config_resource_id(i64::MIN), Some(1 << 63));
}

#[test]
fn complete_spawn_writes_the_new_id_and_status_zero() {
    let mut memory = vec![0xAAu8; 12];
    assert_eq!(complete_spawn::<()>(&mut memory, 4, Ok(0x0A0B)), Ok(SPAWNED));
    assert_eq!(memory, vec![0xAA, 0xAA, 0xAA, 0xAA, 0x0B, 0x0A, 0, 0, 0, 0, 0, 0]);
    assert_eq!(SPAWNED, 0);
}

#[test]
fn complete_spawn_writes_zero_and_status_one_on_failure() {
    let mut memory = vec![0xAAu8; 12];
    assert_eq!(complete_spawn(&mut memory, 0, Err("node down")), Ok(SPAWN_FAILED));
    assert_eq!(memory, vec![0, 0, 0, 0, 0, 0, 0, 0, 0xAA, 0xAA, 0xAA, 0xAA]);
    assert_eq!(SPAWN_FAILED, 1);
}

#[test]
fn complete_spawn_outside_the_memory_writes_nothing() {
    let mut memory = vec![0xAAu8; 12];
    assert_eq!(
        complete_spawn::<()>(&mut memory, 5, Ok(1)),
        Err(HostError::OutOfBounds(Region::ProcessId))
    );
    assert_eq!(
        complete_spawn::<()>(&mut memory, u32::MAX, Ok(1)),
        Err(HostError::OutOfBounds(Region::ProcessId))
    );
    assert_eq!(memory, vec![0xAAu8; 12]);
}

#[test]
fn send_forwards_the_staged_data_message() {
    let mut slot = staged(data(Some(-4), b"hi"));
    assert_eq!(
        send(&mut slot, 10, 20, 30),
        Ok(Some(Outbound {
            node_id: 10,
            environment_id: 20,
            process_id: 30,
            tag: Some(-4),
            data: b"hi".to_vec(),
        }))
    );
    assert!(!slot.is_occupied());
}

#[test]
fn send_fails_on_an_empty_slot() {
    let mut slot = ScratchSlot::new();
    assert_eq!(send(&mut slot, 1, 2, 3), Err(HostError::NoMessage));
}

#[test]
fn send_does_nothing_with_a_message_that_is_not_data() {
    let mut slot = staged(Message::LinkDied(Some(1)));
    assert_eq!(send(&mut slot, 1, 2, 3), Ok(None));
    assert!(!slot.is_occupied());
}

#[test]
fn send_receive_with_timeout_zero_waits_forever() {
    let mut slot = staged(data(Some(8), b"ping"));
    let exchange = send_receive_skip_search(&mut slot, 1, 2, 3, 0).unwrap();
    assert_eq!(exchange.wait, Wait::Forever);
    assert_eq!(exchange.reply_tag, Some(8));
    assert_eq!(
        exchange.outbound,
        Outbound {
            node_id: 1,
            environment_id: 2,
            process_id: 3,
            tag: Some(8),
            data: b"ping".to_vec(),
        }
    );
    assert_eq!(
        exchange.outbound.into_request(),
        Request::Message {
            environment_id: 2,
            process_id: 3,
            tag: Some(8),
            data: b"ping".to_vec(),
        }
    );
    assert!(!slot.is_occupied());
}

#[test]
fn send_receive_with_a_timeout_waits_that_long() {
    let mut slot = staged(data(None, b"ping"));
    let exchange = send_receive_skip_search(&mut slot, 1, 2, 3, 50).unwrap();
    assert_eq!(exchange.wait, Wait::Millis(50));
    assert_eq!(exchange.reply_tag, None);
}

#[test]
fn send_receive_without_a_staged_data_message_sends_nothing() {
    let mut empty = ScratchSlot::new();
    assert_eq!(send_receive_skip_search(&mut empty, 1, 2, 3, 50), Err(NO_MESSAGE));
    let mut other = staged(Message::LinkDied(None));
    assert_eq!(send_receive_skip_search(&mut other, 1, 2, 3, 0), Err(NO_MESSAGE));
    assert!(!other.is_occupied());
    assert_eq!(NO_MESSAGE, 9027);
}

#[test]
fn exchange_receives_the_reply_with_its_own_tag() {
    let mut slot = staged(data(Some(8), b"ping"));
    let exchange = send_receive_skip_search(&mut slot, 1, 2, 3, 50).unwrap();
    let mut mailbox = Mailbox::new();
    assert_eq!(exchange.receive(&mut mailbox), None);
    mailbox.push(data(Some(7), b"other"));
    mailbox.push(data(None, b"untagged"));
    assert_eq!(exchange.receive(&mut mailbox), None);
    assert_eq!(mailbox.len(), 2);
    mailbox.push(data(Some(8), b"pong"));
    assert_eq!(exchange.receive(&mut mailbox), Some(data(Some(8), b"pong")));
    assert_eq!(mailbox.pop_matching(None), Some(data(Some(7), b"other")));
    assert_eq!(mailbox.pop_matching(None), Some(data(None, b"untagged")));
}

#[test]
fn exchange_without_tag_receives_the_first_message() {
    let mut slot = staged(data(None, b"ping"));
    let exchange = send_receive_skip_search(&mut slot, 1, 2, 3, 0).unwrap();
    let mut mailbox = Mailbox::new();
    mailbox.push(Message::LinkDied(Some(5)));
    mailbox.push(data(Some(8), b"pong"));
    assert_eq!(exchange.receive(&mut mailbox), Some(Message::LinkDied(Some(5))));
    assert_eq!(mailbox.len(), 1);
}

#[test]
fn complete_exchange_stages_the_reply() {
    let mut slot = ScratchSlot::new();
    assert_eq!(complete_exchange(&mut slot, Some(data(Some(8), b"pong"))), RECEIVED);
    assert_eq!(slot.take(), Some(data(Some(8), b"pong")));
    assert_eq!(RECEIVED, 0);
}

#[test]
fn complete_exchange_after_a_timeout_leaves_the_slot_untouched() {
    let mut slot = ScratchSlot::new();
    assert_eq!(complete_exchange(&mut slot, None), NO_MESSAGE);
    assert!(!slot.is_occupied());
    let mut occupied = staged(data(Some(1), b"kept"));
    assert_eq!(complete_exchange(&mut occupied, None), NO_MESSAGE);
    assert_eq!(occupied.take(), Some(data(Some(1), b"kept")));
}
