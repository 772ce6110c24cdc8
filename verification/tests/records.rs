use selfref::memory::Memory;
use selfref::naive;
use selfref::stable;

#[test]
fn stable_initial_pairs() {
    let mut mem = Memory::new();
    let t1 = stable::Test::new(&mut mem, 1);
    let t2 = stable::Test::new(&mut mem, 2);
    assert_eq!(t1.a(&mem).as_str(), "Test 1");
    assert_eq!(t1.b(&mem).as_str(), "Test 1");
    assert_eq!(t2.a(&mem).as_str(), "Test 2");
    assert_eq!(t2.b(&mem).as_str(), "Test 2");
}

#[test]
fn stable_end_to_end() {
    let mut mem = Memory::new();
    let mut t1 = stable::Test::new(&mut mem, 1);
    let mut t2 = stable::Test::new(&mut mem, 2);

    assert_eq!(t1.a(&mem).as_str(), "Test 1");
    assert_eq!(t1.b(&mem).as_str(), "Test 1");
    assert_eq!(t2.a(&mem).as_str(), "Test 2");
    assert_eq!(t2.b(&mem).as_str(), "Test 2");

    stable::swap_handles(&mut t1, &mut t2);

    assert_eq!(t1.a(&mem).as_str(), "Test 2");
    assert_eq!(t1.b(&mem).as_str(), "Test 2");
    assert_eq!(t2.a(&mem).as_str(), "Test 1");
    assert_eq!(t2.b(&mem).as_str(), "Test 1");
}

#[test]
fn stable_self_consistent_under_repeated_relocation() {
    let mut mem = Memory::new();
    let mut t1 = stable::Test::new(&mut mem, 1);
    let mut t2 = stable::Test::new(&mut mem, 2);
    for _ in 0..3 {
        stable::swap_handles(&mut t1, &mut t2);
        assert!(t1.check_wf(&mem));
        assert!(t2.check_wf(&mem));
        assert_eq!(t1.a(&mem), t1.b(&mem));
        assert_eq!(t2.a(&mem), t2.b(&mem));
    }
    assert_eq!(t1.a(&mem).as_str(), "Test 2");
    assert_eq!(t2.a(&mem).as_str(), "Test 1");
}

#[test]
fn stable_payload_address_invariant() {
    let mut mem = Memory::new();
    let mut t1 = stable::Test::new(&mut mem, 1);
    let mut t2 = stable::Test::new(&mut mem, 2);
    let addr1 = t1.addr;
    let addr2 = t2.addr;

    stable::swap_handles(&mut t1, &mut t2);

    // Only the handles moved: each payload is still at the address it was
    // constructed at.
    assert_eq!(t1.addr, addr2);
    assert_eq!(t2.addr, addr1);
    assert_eq!(mem.value_at(addr1).as_str(), "Test 1");
    assert_eq!(mem.value_at(addr2).as_str(), "Test 2");
}

#[test]
fn stable_double_swap_restores_handles() {
    let mut mem = Memory::new();
    let mut t1 = stable::Test::new(&mut mem, 1);
    let mut t2 = stable::Test::new(&mut mem, 2);
    stable::swap_handles(&mut t1, &mut t2);
    stable::swap_handles(&mut t1, &mut t2);
    assert_eq!(t1.a(&mem).as_str(), "Test 1");
    assert_eq!(t1.b(&mem).as_str(), "Test 1");
    assert_eq!(t2.a(&mem).as_str(), "Test 2");
    assert_eq!(t2.b(&mem).as_str(), "Test 2");
}

#[test]
fn stable_accessors_idempotent() {
    let mut mem = Memory::new();
    let t = stable::Test::new(&mut mem, 7);
    assert_eq!(t.a(&mem), t.a(&mem));
    assert_eq!(t.b(&mem), t.b(&mem));
    assert_eq!(t.a(&mem).as_str(), "Test 7");
    assert_eq!(t.b(&mem).as_str(), "Test 7");
}

#[test]
fn naive_initial_pairs() {
    let mut mem = Memory::new();
    let t1 = naive::Test::new(&mut mem, 1);
    let t2 = naive::Test::new(&mut mem, 2);
    assert_eq!(t1.a(&mem).as_str(), "Test 1");
    assert_eq!(t1.b(&mem).as_str(), "Test 1");
    assert_eq!(t2.a(&mem).as_str(), "Test 2");
    assert_eq!(t2.b(&mem).as_str(), "Test 2");
}

#[test]
fn naive_defect_after_relocation() {
    let mut mem = Memory::new();
    let t1 = naive::Test::new(&mut mem, 1);
    let t2 = naive::Test::new(&mut mem, 2);

    naive::swap_contents(&mut mem, &t1, &t2);

    // The discovered defect, not a desired outcome: each variable's payload
    // moved, but its self reference still encodes the old address, so the
    // printed pair is internally inconsistent.
    assert_eq!(t1.a(&mem).as_str(), "Test 2");
    assert_eq!(t1.b(&mem).as_str(), "Test 1");
    assert_ne!(t1.a(&mem), t1.b(&mem));
    assert_eq!(t2.a(&mem).as_str(), "Test 1");
    assert_eq!(t2.b(&mem).as_str(), "Test 2");
    assert_ne!(t2.a(&mem), t2.b(&mem));
}

#[test]
fn naive_accessors_idempotent() {
    let mut mem = Memory::new();
    let t1 = naive::Test::new(&mut mem, 1);
    let t2 = naive::Test::new(&mut mem, 2);
    naive::swap_contents(&mut mem, &t1, &t2);
    // Idempotent even on a record whose self reference has gone stale.
    assert_eq!(t1.a(&mem), t1.a(&mem));
    assert_eq!(t1.b(&mem), t1.b(&mem));
    assert_eq!(t2.a(&mem), t2.a(&mem));
    assert_eq!(t2.b(&mem), t2.b(&mem));
}

#[test]
fn naive_swap_back_restores_consistency() {
    let mut mem = Memory::new();
    let t1 = naive::Test::new(&mut mem, 1);
    let t2 = naive::Test::new(&mut mem, 2);
    naive::swap_contents(&mut mem, &t1, &t2);
    naive::swap_contents(&mut mem, &t1, &t2);
    assert_eq!(t1.a(&mem).as_str(), "Test 1");
    assert_eq!(t1.b(&mem).as_str(), "Test 1");
    assert_eq!(t2.a(&mem).as_str(), "Test 2");
    assert_eq!(t2.b(&mem).as_str(), "Test 2");
}

#[test]
fn naive_swap_with_itself_is_harmless() {
    let mut mem = Memory::new();
    let t = naive::Test::new(&mut mem, 3);
    naive::swap_contents(&mut mem, &t, &t);
    assert_eq!(t.a(&mem).as_str(), "Test 3");
    assert_eq!(t.b(&mem).as_str(), "Test 3");
}

#[test]
fn label_formats_zero_and_negative_ids() {
    let mut mem = Memory::new();
    let t0 = stable::Test::new(&mut mem, 0);
    let tneg = stable::Test::new(&mut mem, -7);
    let tbig = stable::Test::new(&mut mem, 41053);
    assert_eq!(t0.a(&mem).as_str(), "Test 0");
    assert_eq!(tneg.a(&mem).as_str(), "Test -7");
    assert_eq!(tbig.a(&mem).as_str(), "Test 41053");
}

#[test]
fn memory_allocate_and_read() {
    let mut mem = Memory::new();
    assert_eq!(mem.len(), 0);
    let a0 = mem.allocate(String::from("alpha"));
    let a1 = mem.allocate(String::from("beta"));
    assert_eq!(a0, 0);
    assert_eq!(a1, 1);
    assert_eq!(mem.len(), 2);
    assert_eq!(mem.value_at(a0).as_str(), "alpha");
    assert_eq!(mem.value_at(a1).as_str(), "beta");
    // A fresh slot's self reference points back at the slot itself.
    assert_eq!(mem.self_reference_at(a0), a0);
    assert_eq!(mem.self_reference_at(a1), a1);
}

#[test]
fn memory_swap_slots_exchanges_contents() {
    let mut mem = Memory::new();
    let a0 = mem.allocate(String::from("alpha"));
    let a1 = mem.allocate(String::from("beta"));
    let a2 = mem.allocate(String::from("gamma"));
    mem.swap_slots(a0, a2);
    assert_eq!(mem.value_at(a0).as_str(), "gamma");
    assert_eq!(mem.value_at(a2).as_str(), "alpha");
    // The self references travelled with the contents.
    assert_eq!(mem.self_reference_at(a0), a2);
    assert_eq!(mem.self_reference_at(a2), a0);
    // An uninvolved slot is untouched.
    assert_eq!(mem.value_at(a1).as_str(), "beta");
    assert_eq!(mem.self_reference_at(a1), a1);
}

#[test]
fn check_wf_reports_validity() {
    let mut mem = Memory::new();
    let t = stable::Test::new(&mut mem, 1);
    assert!(t.check_wf(&mem));
    let dangling = stable::Test { addr: 17 };
    assert!(!dangling.check_wf(&mem));
    let n = naive::Test::new(&mut mem, 2);
    assert!(n.check_wf(&mem));
    let n_dangling = naive::Test { addr: 17 };
    assert!(!n_dangling.check_wf(&mem));
}
