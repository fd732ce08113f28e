use std::sync::Arc;
use vm_factory::{add_code, Code, VMFactory, VmRequest};

fn code(bytes: &[u8]) -> Code {
    Arc::new(bytes.to_vec())
}

fn factory(capacity: usize) -> VMFactory<u8> {
    VMFactory::new("game", capacity, 7, 1024, 4096, Arc::new(9))
}

#[test]
fn a_new_factory_has_its_settings_and_nothing_else() {
    let mut f = factory(3);
    assert_eq!(f.name(), "game");
    assert_eq!(f.capacity(), 3);
    assert_eq!(f.size(), 0);
    assert_eq!(f.free_size(), 0);
    assert_eq!(f.max_reused_count(), 7);
    assert_eq!(f.heap_size(), 1024);
    assert_eq!(f.max_heap_size(), 4096);
    assert_eq!(f.scheduling_count(), 0);
    assert_eq!(f.ran_count(), 0);
    assert!(f.loader().code().is_none());
}

#[test]
fn a_capacity_of_zero_stays_zero() {
    assert_eq!(factory(0).capacity(), 0);
}

#[test]
fn a_name_keeps_all_its_characters() {
    let f: VMFactory<()> = VMFactory::new("虚拟机 \"a\"\n", 1, 0, 0, 0, Arc::new(()));
    assert_eq!(f.name(), "虚拟机 \"a\"\n");
}

#[test]
fn bytecode_is_appended_in_order() {
    let mut f = factory(1).append(code(b"one")).append(code(b"two"));
    let mut loader = f.loader();
    assert_eq!(*loader.code().unwrap(), b"one".to_vec());
    let stage = loader.load_next();
    loader.load_step(stage, false);
    assert_eq!(*loader.code().unwrap(), b"two".to_vec());
}

#[test]
fn bytecode_is_not_appended_while_a_loader_shares_it() {
    let mut f = factory(1).append(code(b"one"));
    let loader = f.loader();
    let mut f = f.append(code(b"two"));
    drop(loader);
    let mut fresh = f.loader();
    let stage = fresh.load_next();
    fresh.load_step(stage, false);
    assert!(fresh.code().is_none());
    drop(fresh);
    let mut f = f.append(code(b"three"));
    let mut fresh = f.loader();
    let stage = fresh.load_next();
    fresh.load_step(stage, false);
    assert_eq!(*fresh.code().unwrap(), b"three".to_vec());
}

#[test]
fn code_is_added_only_where_it_may_be() {
    let mut codes: Vec<Code> = vec![code(b"a")];
    add_code(Some(&mut codes), code(b"b"));
    assert_eq!(codes, vec![code(b"a"), code(b"b")]);
    add_code(None, code(b"c"));
    assert_eq!(codes.len(), 2);
}

#[test]
fn run_counts_go_up_and_are_reset() {
    let mut f = factory(1);
    f.add_ran_count();
    f.add_ran_count();
    assert_eq!(f.ran_count(), 2);
    assert_eq!(f.reset_ran_count(), 2);
    assert_eq!(f.ran_count(), 0);
    assert_eq!(f.reset_ran_count(), 0);
    assert_eq!(f.reset_scheduling_count(), 0);
}

#[test]
fn reused_machines_lie_in_the_pool() {
    let mut f = factory(2);
    f.reuse(4);
    f.reuse(5);
    assert_eq!(f.free_size(), 2);
    assert_eq!(f.size(), 0);
}

#[test]
fn throw_returns_the_number_before_and_wraps() {
    let mut f = factory(2);
    assert_eq!(f.throw(1), 0);
    assert_eq!(f.size(), usize::MAX);
    assert_eq!(f.throw(usize::MAX), usize::MAX);
    assert_eq!(f.size(), 0);
}

#[test]
fn taken_machines_have_fresh_ids_and_are_not_reusable() {
    let mut f = factory(2);
    for id in 0..2 {
        let creation = f.take();
        assert_eq!(creation.id, id);
        assert_eq!(creation.name.as_str(), "game");
        assert_eq!(*creation.auth, 9);
        assert_eq!(creation.reuse, None);
    }
    assert_eq!(f.size(), 0);
}

#[test]
fn machines_are_created_with_the_name_and_the_grant_of_the_factory() {
    let f = factory(2);
    let creation = f.creation(VmRequest { id: 6, reusable: true });
    assert_eq!((creation.id, creation.name.as_str(), *creation.auth), (6, "game", 9));
    assert_eq!(creation.reuse, Some(false));
    assert_eq!(f.creation(VmRequest { id: 6, reusable: false }).reuse, None);
}

#[test]
fn a_copied_factory_gains_no_code() {
    let mut f = factory(1).append(code(b"one"));
    f.append_shared(false, code(b"two"));
    assert!(f.code(1).is_none());
    f.append_shared(true, code(b"three"));
    assert_eq!(*f.code(1).unwrap(), b"three".to_vec());
}

#[test]
fn collect_removes_what_the_handler_names() {
    let mut f = factory(5);
    for vm in 0..5 {
        f.reuse(vm);
    }
    f.collect(|vm: usize| vm % 2 == 1);
    assert_eq!(f.free_size(), 3);
    f.collect(|_: usize| false);
    assert_eq!(f.free_size(), 3);
    for expected in [4, 2, 0] {
        assert_eq!(f.call(), vm_factory::CallStage::Run { vm: expected });
    }
    f.reuse(8);
    f.collect(|_: usize| true);
    assert_eq!(f.free_size(), 0);
}

#[test]
fn bytecode_is_found_by_its_index() {
    let f = factory(1).append(code(b"one")).append(code(b"two"));
    assert_eq!(*f.code(1).unwrap(), b"two".to_vec());
    assert!(f.code(2).is_none());
}
