use rust_x_arduino::infrared::ir_clock::{TIMER2_CLOCK_SELECT, TIMER2_WGM_CTC};
use infrared::protocol::nec::NecCommand;
use rust_x_arduino::echo::{next_phase, EchoPhase, EchoSample, NO_ECHO};
use rust_x_arduino::infrared::ir_clock::IrClock;
use rust_x_arduino::infrared::IrReceiver;
use rust_x_arduino::screen::lcd_byte;

#[test]
fn echo_measures_ten_centimetres() {
    let mut p = EchoPhase::start(1000);
    p = next_phase(p, EchoSample::Low { now_ms: 1001 });
    assert_eq!(p, EchoPhase::AwaitingEcho { start_ms: 1000 });
    p = next_phase(p, EchoSample::Rose { now_us: 5000 });
    assert_eq!(p, EchoPhase::TimingEcho { start_us: 5000 });
    p = next_phase(p, EchoSample::High);
    assert_eq!(p.distance(), None);
    p = next_phase(p, EchoSample::Fell { now_us: 5580 });
    assert_eq!(p.distance(), Some(10));
    p = next_phase(p, EchoSample::Low { now_ms: 9999 });
    assert_eq!(p.distance(), Some(10));
}

#[test]
fn echo_rounds_down() {
    let p = next_phase(EchoPhase::TimingEcho { start_us: 0 }, EchoSample::Fell { now_us: 115 });
    assert_eq!(p.distance(), Some(1));
}

#[test]
fn echo_times_out_after_two_hundred_milliseconds() {
    let p = EchoPhase::start(0);
    let p = next_phase(p, EchoSample::Low { now_ms: 200 });
    assert_eq!(p, EchoPhase::AwaitingEcho { start_ms: 0 });
    let p = next_phase(p, EchoSample::Low { now_ms: 201 });
    assert_eq!(p.distance(), Some(NO_ECHO));
}

#[test]
fn ir_clock_ticks() {
    let mut c = IrClock::default();
    assert_eq!(c.now(), 0);
    c.tick();
    c.tick();
    assert_eq!(c.now(), 2);
    assert_eq!(IrClock::FREQ, 20_000);
    assert_eq!(16_000_000 / (8 * (IrClock::TOP as u32 + 1)), IrClock::FREQ);
}

#[test]
fn ir_mailbox_hands_out_each_command_once() {
    let mut r: IrReceiver<NecCommand> = IrReceiver::new();
    assert_eq!(r.get_cmd(), None);
    let cmd = NecCommand { addr: 0, cmd: 0x45, repeat: false };
    r.on_decoder_event::<()>(Ok(Some(cmd)));
    r.on_decoder_event::<()>(Ok(None));
    r.on_decoder_event(Err(()));
    assert_eq!(r.get_cmd(), Some(cmd));
    assert_eq!(r.get_cmd(), None);
}

#[test]
fn ir_mailbox_keeps_the_latest_command() {
    let mut r: IrReceiver<u8> = IrReceiver::new();
    r.on_decoder_event::<()>(Ok(Some(1)));
    r.on_decoder_event::<()>(Ok(Some(2)));
    assert_eq!(r.get_cmd(), Some(2));
}

#[test]
fn lcd_gets_the_low_byte() {
    assert_eq!(lcd_byte('A'), 65);
    assert_eq!(lcd_byte('\u{141}'), 0x41);
}

#[test]
fn timer2_configuration_gives_twenty_kilohertz() {
    assert_eq!(TIMER2_CLOCK_SELECT, 0b010);
    assert_eq!(TIMER2_WGM_CTC, 0b10);
    assert_eq!(16_000_000 / (8 * (IrClock::TOP as u32 + 1)), 20_000);
}
