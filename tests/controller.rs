use td4::clock::RunState;
use td4::td4_gui::{Command, Message, Port, Reg, TD4};

fn program() -> Vec<u8> {
    (0u8..16).map(|i| i.wrapping_mul(17)).collect()
}

#[test]
fn new_simulator_is_idle_and_zeroed() {
    let t = TD4::new(program());
    assert_eq!(t.reg(), Reg { a: 0, b: 0, pc: 0, flag: false });
    assert_eq!(t.port(), Port { input: 0, output: 0 });
    assert_eq!(t.prg(), &program());
    assert_eq!(t.clock().state(), RunState::Idle);
    assert_eq!(t.clock().period(), 300);
    assert_eq!(t.tick_period(), None);
}

#[test]
fn input_edit_scenario() {
    let mut t = TD4::new(vec![0; 16]);
    assert_eq!(t.port().input, 0b0000);
    assert_eq!(t.update(Message::InputEdit(0, false)), Command::Nothing);
    assert_eq!(t.port().input, 0b0001);
    t.edit_input_bit(0, true);
    assert_eq!(t.port().input, 0b0000);
}

#[test]
fn input_edit_keeps_other_bits() {
    let mut t = TD4::new(vec![0; 16]);
    t.edit_input_bit(3, false);
    t.edit_input_bit(1, false);
    assert_eq!(t.port().input, 0b1010);
    t.edit_input_bit(3, true);
    assert_eq!(t.port().input, 0b0010);
}

#[test]
fn memory_edit_scenario() {
    let before = program();
    let mut prg = before.clone();
    prg[3] = 0b0000_0000;
    let mut t = TD4::new(prg.clone());
    assert_eq!(t.update(Message::RomEdit(3, 4, false)), Command::Nothing);
    assert_eq!(t.prg()[3], 0b0001_0000);
    for a in 0..16 {
        if a != 3 {
            assert_eq!(t.prg()[a], prg[a]);
        }
    }
}

#[test]
fn memory_edit_with_stale_value_sets_negation() {
    let mut t = TD4::new(vec![0b1111_1111; 4]);
    // the control still showed 0 although the bit is already 1
    t.edit_memory_bit(2, 7, false);
    assert_eq!(t.prg()[2], 0b1111_1111);
    t.edit_memory_bit(2, 7, true);
    assert_eq!(t.prg()[2], 0b0111_1111);
}

#[test]
fn edits_ignored_while_active() {
    let mut t = TD4::new(vec![0; 16]);
    t.run();
    t.update(Message::InputEdit(2, false));
    t.update(Message::RomEdit(5, 0, false));
    assert_eq!(t.port().input, 0);
    assert_eq!(t.prg()[5], 0);
    t.stop();
    t.update(Message::InputEdit(2, false));
    assert_eq!(t.port().input, 0b0100);
}

#[test]
fn run_and_stop_transitions() {
    let mut t = TD4::new(vec![0; 16]);
    t.update(Message::Stop);
    assert_eq!(t.clock().state(), RunState::Idle);
    t.update(Message::Run);
    assert_eq!(t.clock().state(), RunState::Active);
    t.update(Message::Run);
    assert_eq!(t.clock().state(), RunState::Active);
    for m in [Message::Tick, Message::Step, Message::Reset, Message::SliderChanged(400)] {
        t.update(m);
        assert_eq!(t.clock().state(), RunState::Active);
    }
    t.update(Message::Stop);
    assert_eq!(t.clock().state(), RunState::Idle);
    t.update(Message::Stop);
    assert_eq!(t.clock().state(), RunState::Idle);
}

#[test]
fn idle_gives_no_ticks() {
    let mut t = TD4::new(vec![0; 16]);
    for _ in 0..50 {
        assert_eq!(t.elapse(300), 0);
    }
    assert_eq!(t.elapse(u64::MAX), 0);
}

#[test]
fn step_guarded_while_active() {
    let mut t = TD4::new(vec![0; 16]);
    t.edit_input_bit(1, false);
    t.run();
    let reg = t.reg();
    let port = t.port();
    assert_eq!(t.update(Message::Step), Command::Nothing);
    assert_eq!(t.reg(), reg);
    assert_eq!(t.port(), port);
    assert_eq!(t.update(Message::Tick), Command::Advance);
    t.stop();
    assert_eq!(t.update(Message::Step), Command::Advance);
}

#[test]
fn step_takes_engine_outcome() {
    let mut t = TD4::new(vec![0; 16]);
    let reg = Reg { a: 3, b: 9, pc: 0, flag: true };
    let port = Port { input: 0, output: 0b0110 };
    t.step(reg, port, 5);
    assert_eq!(t.reg(), Reg { a: 3, b: 9, pc: 5, flag: true });
    assert_eq!(t.port(), port);
    assert!(t.is_pc(5));
    assert!(!t.is_pc(4));
}

#[test]
fn reset_zeroes_state_keeps_memory() {
    let mut t = TD4::new(program());
    t.step(Reg { a: 15, b: 7, pc: 0, flag: true }, Port { input: 9, output: 12 }, 11);
    t.edit_memory_bit(0, 0, false);
    let mem = t.prg().clone();
    assert_eq!(t.update(Message::Reset), Command::Nothing);
    assert_eq!(t.reg(), Reg { a: 0, b: 0, pc: 0, flag: false });
    assert_eq!(t.port(), Port { input: 0, output: 0 });
    assert_eq!(t.prg(), &mem);
}

#[test]
fn period_change_while_active() {
    let mut t = TD4::new(vec![0; 16]);
    t.set_period(500);
    assert_eq!(t.elapse(1000), 0);
    t.run();
    assert_eq!(t.tick_period(), Some(500));
    assert_eq!(t.elapse(499), 0);
    assert_eq!(t.elapse(1), 1);
    t.update(Message::SliderChanged(200));
    assert_eq!(t.clock().state(), RunState::Active);
    assert_eq!(t.tick_period(), Some(200));
    // the signal already pending keeps its time, then they come 200 ms apart
    assert_eq!(t.elapse(500), 1);
    assert_eq!(t.elapse(200), 1);
    assert_eq!(t.elapse(1000), 5);
}

#[test]
fn run_stop_run_restarts_at_last_period() {
    let mut t = TD4::new(vec![0; 16]);
    t.set_period(400);
    t.run();
    assert_eq!(t.elapse(350), 0);
    t.stop();
    assert_eq!(t.elapse(5000), 0);
    t.run();
    assert_eq!(t.tick_period(), Some(400));
    assert_eq!(t.elapse(399), 0);
    assert_eq!(t.elapse(1), 1);
}

#[test]
fn period_is_clamped() {
    let mut t = TD4::new(vec![0; 16]);
    t.set_period(5);
    assert_eq!(t.clock().period(), 100);
    t.set_period(5000);
    assert_eq!(t.clock().period(), 1000);
    t.set_period(750);
    assert_eq!(t.clock().period(), 750);
}
