use std::sync::Arc;
use vm_factory::{LoadStage, VMFactory, VMFactoryLoader};

fn loader(pieces: u8) -> VMFactoryLoader {
    let mut f = VMFactory::new("game", 1, 0, 0, 0, Arc::new(()));
    for piece in 0..pieces {
        f = f.append(Arc::new(vec![piece]));
    }
    f.loader()
}

#[test]
fn each_piece_is_handed_out_once_and_in_order() {
    let mut l = loader(3);
    for piece in 0..3u8 {
        assert_eq!(l.load_next(), LoadStage::Load);
        assert_eq!(*l.code().unwrap(), vec![piece]);
        assert_eq!(l.load_step(LoadStage::Load, true), LoadStage::Await);
        assert_eq!(l.load_step(LoadStage::Await, false), LoadStage::Await);
        assert_eq!(*l.code().unwrap(), vec![piece]);
        assert_eq!(l.load_step(LoadStage::Await, true), LoadStage::Loaded);
    }
    assert_eq!(l.load_next(), LoadStage::Exhausted);
    assert!(l.code().is_none());
    assert_eq!(l.load_step(LoadStage::Exhausted, true), LoadStage::Exhausted);
}

#[test]
fn a_refused_piece_is_passed_over() {
    let mut l = loader(2);
    assert_eq!(l.load_step(LoadStage::Load, false), LoadStage::Loaded);
    assert_eq!(*l.code().unwrap(), vec![1]);
}

#[test]
fn an_empty_loader_is_exhausted() {
    assert_eq!(loader(0).load_next(), LoadStage::Exhausted);
}

#[test]
fn a_copy_goes_its_own_way() {
    let mut l = loader(2);
    let copy = l.clone();
    l.load_step(LoadStage::Load, false);
    assert_eq!(*copy.code().unwrap(), vec![0]);
    assert_eq!(*l.code().unwrap(), vec![1]);
}
