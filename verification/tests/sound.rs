use rustboy::apu::envelope::VolumeEnvelope;
use rustboy::apu::length_counter::LengthCounter;
use rustboy::apu::noise::{divisor_code, Noise};
use rustboy::apu::square1::Square1;
use rustboy::apu::square2::Square2;
use rustboy::apu::sweep::FrequencySweep;
use rustboy::apu::wave::Wave;
use rustboy::apu::{duty_cycle, frame_sequencer_to_int, int_to_frame_sequencer, Apu, FrameSequencer};

#[test]
fn envelope_register_round_trip() {
    let mut env = VolumeEnvelope::new();
    env.write_nr2(0xA3);
    assert_eq!(env.starting_volume, 10);
    assert!(!env.add_mode);
    assert_eq!(env.period, 3);
    assert_eq!(env.read_nr2(), 0xA3);
    // with a period the current volume is reported, which is 0 until triggered
    assert_eq!(env.volume(), 0);
    env.trigger();
    assert_eq!(env.volume(), 10);
    assert_eq!(env.timer, 3);
    assert!(!env.finished);
}

#[test]
fn envelope_without_period_reports_starting_volume() {
    let mut env = VolumeEnvelope::new();
    env.write_nr2(0xF0);
    assert_eq!(env.volume(), 15);
    env.trigger();
    assert_eq!(env.timer, 8);
}

#[test]
fn envelope_steps_only_when_timer_ran_out() {
    let mut env = VolumeEnvelope::new();
    env.write_nr2(0xA3);
    env.trigger();
    env.step();
    assert_eq!(env.volume(), 10);
    env.timer = 0;
    env.step();
    assert_eq!(env.volume(), 9);
    assert_eq!(env.timer, 3);
}

#[test]
fn envelope_finishes_at_full_volume() {
    let mut env = VolumeEnvelope::new();
    env.write_nr2(0xE9);
    env.trigger();
    assert_eq!(env.volume(), 14);
    env.timer = 0;
    env.step();
    assert_eq!(env.volume(), 15);
    assert!(env.finished);
    env.timer = 0;
    env.step();
    assert_eq!(env.volume(), 15);
}

#[test]
fn envelope_power_off_clears() {
    let mut env = VolumeEnvelope::new();
    env.write_nr2(0xFF);
    env.trigger();
    env.power_off();
    assert!(env.finished);
    assert_eq!(env.read_nr2(), 0);
    assert_eq!(env.volume(), 0);
}

#[test]
fn length_counter_enable_with_trigger_reloads() {
    let mut lc = LengthCounter::new();
    lc.set_full_length(64);
    lc.write_nr4(0xC0);
    assert!(lc.enabled());
    assert_eq!(lc.length(), 63);
    lc.step();
    assert_eq!(lc.length(), 62);
}

#[test]
fn length_counter_enabled_write_reloads_full_length() {
    let mut lc = LengthCounter::new();
    lc.set_full_length(64);
    lc.write_nr4(0x40);
    assert!(lc.enabled());
    lc.set_length(5);
    lc.write_nr4(0x40);
    assert_eq!(lc.length(), 64);
    lc.set_length(0);
    lc.write_nr4(0xC0);
    assert_eq!(lc.length(), 63);
}

#[test]
fn length_counter_disabled_does_not_step() {
    let mut lc = LengthCounter::new();
    lc.set_length(10);
    lc.step();
    assert_eq!(lc.length(), 10);
    assert!(!lc.zero());
    lc.set_length(0);
    assert!(lc.zero());
}

#[test]
fn length_counter_enable_on_odd_step_keeps_length() {
    let mut lc = LengthCounter::new();
    lc.set_full_length(64);
    lc.set_length(10);
    lc.set_frame_sequencer(1);
    lc.write_nr4(0x40);
    assert_eq!(lc.length(), 10);
    let mut lc2 = LengthCounter::new();
    lc2.set_full_length(64);
    lc2.set_length(10);
    lc2.set_frame_sequencer(2);
    lc2.write_nr4(0x40);
    assert_eq!(lc2.length(), 9);
}

#[test]
fn length_counter_power_off() {
    let mut lc = LengthCounter::new();
    lc.write_nr4(0x40);
    lc.set_frame_sequencer(5);
    lc.power_off();
    assert!(!lc.enabled());
    assert_eq!(lc.frame_sequencer(), 0);
}

#[test]
fn sweep_registers() {
    let mut s = FrequencySweep::new();
    s.write_nr10(0x7B);
    assert_eq!(s.period, 7);
    assert_eq!(s.negative_direction, 1);
    assert_eq!(s.shift, 3);
    assert_eq!(s.read_nr10(), 0x7B);
    s.write_nr13(0x34);
    s.write_nr14(0x05);
    assert_eq!(s.frequency(), 0x534);
    s.write_nr14(0xFA);
    assert_eq!(s.frequency(), 0x234);
}

#[test]
fn sweep_trigger_decreasing() {
    let mut s = FrequencySweep::new();
    s.write_nr10(0x7B);
    s.write_nr13(0x34);
    s.write_nr14(0x05);
    s.trigger();
    assert_eq!(s.shadow_freq, 0x534);
    assert_eq!(s.timer, 7);
    assert!(s.enabled);
    assert!(s.enabled());
    assert_eq!(s.calc_freq(), 1332 - 166);
}

#[test]
fn sweep_overflow_disables() {
    let mut s = FrequencySweep::new();
    s.write_nr10(0x11);
    s.write_nr14(0x07);
    assert_eq!(s.frequency(), 0x700);
    s.trigger();
    assert!(s.overflow);
    assert!(!s.enabled());
}

#[test]
fn sweep_step_updates_frequency() {
    let mut s = FrequencySweep::new();
    s.write_nr10(0x11);
    s.write_nr13(0x00);
    s.write_nr14(0x02);
    s.trigger();
    assert_eq!(s.frequency(), 0x200);
    s.timer = 0;
    s.step();
    assert_eq!(s.frequency(), 0x300);
    assert_eq!(s.shadow_freq, 0x300);
    assert_eq!(s.timer, 1);
}

#[test]
fn sweep_power_off() {
    let mut s = FrequencySweep::new();
    s.write_nr10(0x7B);
    s.write_nr14(0x05);
    s.power_off();
    assert_eq!(s.read_nr10(), 0);
    assert_eq!(s.frequency(), 0);
    assert!(!s.enabled);
}

#[test]
fn duty_table() {
    assert!(duty_cycle(0, 7));
    assert!(!duty_cycle(0, 0));
    assert!(duty_cycle(1, 0));
    assert!(!duty_cycle(1, 1));
    assert!(duty_cycle(2, 0));
    assert!(!duty_cycle(2, 1));
    assert!(duty_cycle(2, 5));
    assert!(!duty_cycle(3, 0));
    assert!(duty_cycle(3, 3));
    assert!(!duty_cycle(3, 7));
}

#[test]
fn frame_sequencer_numbers() {
    assert!(int_to_frame_sequencer(3) == FrameSequencer::Step3);
    assert!(int_to_frame_sequencer(9) == FrameSequencer::Step0);
    assert!(int_to_frame_sequencer(-1) == FrameSequencer::Step0);
    assert_eq!(frame_sequencer_to_int(FrameSequencer::Step6), 6);
    for i in 0..8 {
        assert_eq!(frame_sequencer_to_int(int_to_frame_sequencer(i)), i);
    }
}

#[test]
fn square1_registers_and_trigger() {
    let mut sq = Square1::new();
    sq.write(0xFF11, 0x80);
    assert_eq!(sq.read(0xFF11), 0xBF);
    sq.write(0xFF12, 0xF3);
    assert_eq!(sq.read(0xFF12), 0xF3);
    assert!(sq.dac_enabled);
    sq.write(0xFF13, 0x00);
    sq.write(0xFF14, 0x87);
    assert!(sq.enabled());
    assert_eq!(sq.timer, 2048 * 0x700 * 4);
    assert_eq!(sq.read(0xFF14), 0xBF);
    assert_eq!(sq.read(0xFF13), 0xFF);
    assert_eq!(sq.read(0xFF10), 0x80);
}

#[test]
fn square1_duty_output() {
    let mut sq = Square1::new();
    sq.write(0xFF11, 0x80);
    sq.write(0xFF12, 0xF3);
    sq.write(0xFF14, 0x87);
    let expected = [0u8, 0, 0, 0, 15];
    for e in expected.iter() {
        sq.timer = 0;
        sq.tick();
        assert_eq!(sq.output, *e);
        assert_eq!(sq.timer, (2048 - 0x700) * 4);
    }
    assert_eq!(sq.sequence, 5);
}

#[test]
fn square1_dac_off_silences() {
    let mut sq = Square1::new();
    sq.write(0xFF12, 0xF3);
    sq.write(0xFF14, 0x80);
    assert!(sq.enabled());
    sq.write(0xFF12, 0x07);
    assert!(!sq.enabled());
    sq.timer = 0;
    sq.tick();
    assert_eq!(sq.output, 0);
}

#[test]
fn square2_registers_and_trigger() {
    let mut sq = Square2::new();
    sq.write(0xFF16, 0xC5);
    assert_eq!(sq.read(0xFF16), 0xFF);
    assert_eq!(sq.duty, 3);
    sq.write(0xFF17, 0x80);
    assert_eq!(sq.read(0xFF17), 0x80);
    sq.write(0xFF18, 0x00);
    sq.write(0xFF19, 0xC1);
    assert_eq!(sq.length_counter.length(), 4);
    assert!(sq.enabled());
    assert_eq!(sq.timer, (2048 - 0x100) * 4);
    assert_eq!(sq.read(0xFF19), 0xFF);
    assert_eq!(sq.read(0xFF15), 0xFF);
}

#[test]
fn square2_power_off() {
    let mut sq = Square2::new();
    sq.write(0xFF16, 0xC5);
    sq.write(0xFF17, 0x80);
    sq.write(0xFF19, 0x80);
    sq.power_off();
    assert!(!sq.enabled());
    assert_eq!(sq.read(0xFF16), 0x3F);
    assert_eq!(sq.freq, 0);
}

#[test]
fn wave_ram_and_playback() {
    let mut w = Wave::new();
    w.write(0xFF30, 0x12);
    w.write(0xFF3F, 0xAB);
    assert_eq!(w.read(0xFF30), 0x12);
    assert_eq!(w.read(0xFF3F), 0xAB);
    w.write(0xFF1A, 0x80);
    assert_eq!(w.read(0xFF1A), 0xFF);
    w.write(0xFF1C, 0x20);
    assert_eq!(w.read(0xFF1C), 0xBF);
    w.write(0xFF1E, 0x80);
    assert!(w.enabled());
    assert_eq!(w.timer, 6);
    assert_eq!(w.position, 0);
    w.tick();
    assert_eq!(w.ticks_since_read, 1);
    w.timer = 0;
    w.tick();
    assert_eq!(w.output, 1);
    assert_eq!(w.position, 1);
    assert_eq!(w.timer, 4096);
    assert_eq!(w.read(0xFF35), 0x12);
    w.timer = 0;
    w.tick();
    assert_eq!(w.output, 2);
}

#[test]
fn wave_volume_code_zero_mutes() {
    let mut w = Wave::new();
    w.write(0xFF30, 0xFF);
    w.write(0xFF1A, 0x80);
    w.write(0xFF1E, 0x80);
    w.timer = 0;
    w.tick();
    assert_eq!(w.output, 0);
}

#[test]
fn wave_read_while_playing_without_recent_fetch() {
    let mut w = Wave::new();
    w.write(0xFF1A, 0x80);
    w.write(0xFF1E, 0x80);
    w.tick();
    w.tick();
    assert_eq!(w.read(0xFF30), 0xFF);
}

#[test]
fn noise_registers_and_lfsr() {
    assert_eq!(divisor_code(0), 8);
    assert_eq!(divisor_code(5), 80);
    assert_eq!(divisor_code(7), 112);
    let mut n = Noise::new();
    n.write(0xFF22, 0x25);
    assert_eq!(n.read(0xFF22), 0x25);
    n.write(0xFF21, 0xF0);
    assert_eq!(n.read(0xFF21), 0xF0);
    n.write(0xFF23, 0x80);
    assert!(n.enabled());
    assert_eq!(n.timer, 320);
    assert_eq!(n.lsfr, 0x7FFF);
    n.timer = 0;
    n.tick();
    assert_eq!(n.lsfr, 0x3FFF);
    assert_eq!(n.output, 0);
    assert_eq!(n.timer, 320);
}

#[test]
fn noise_width_mode_copies_bit_six() {
    let mut n = Noise::new();
    n.write(0xFF22, 0x08);
    n.write(0xFF21, 0xF0);
    n.write(0xFF23, 0x80);
    n.lsfr = 0x0001;
    n.timer = 0;
    n.tick();
    assert_eq!(n.lsfr, (1 << 14) | (1 << 6));
    assert_eq!(n.output, 15);
}

#[test]
fn apu_master_registers() {
    let mut apu = Apu::new();
    assert_eq!(apu.read(0xFF26), 0x70);
    apu.write(0xFF26, 0x80);
    assert!(apu.enabled);
    assert_eq!(apu.read(0xFF26), 0xF0);
    apu.write(0xFF24, 0x77);
    assert_eq!(apu.read(0xFF24), 0x77);
    apu.write(0xFF24, 0xFF);
    assert_eq!(apu.read(0xFF24), 0xFF);
    apu.write(0xFF25, 0x12);
    assert_eq!(apu.right_enables, vec![false, true, false, false]);
    assert_eq!(apu.left_enables, vec![true, false, false, false]);
    assert_eq!(apu.read(0xFF25), 0x03);
    assert_eq!(apu.read(0xFF27), 0);
}

#[test]
fn apu_channel_status_bits() {
    let mut apu = Apu::new();
    apu.write(0xFF26, 0x80);
    apu.write(0xFF12, 0xF0);
    apu.write(0xFF14, 0x80);
    apu.write(0xFF21, 0xF0);
    apu.write(0xFF23, 0x80);
    assert_eq!(apu.read(0xFF26), 0xF9);
    assert_eq!(apu.read(0xFF12), 0xF0);
}

#[test]
fn apu_power_off_clears_and_blocks_writes() {
    let mut apu = Apu::new();
    apu.write(0xFF26, 0x80);
    apu.write(0xFF25, 0xFF);
    apu.write(0xFF24, 0x77);
    apu.write(0xFF26, 0x00);
    assert!(!apu.enabled);
    assert_eq!(apu.read(0xFF25), 0);
    assert_eq!(apu.read(0xFF24), 0);
    apu.write(0xFF12, 0xF3);
    assert_eq!(apu.read(0xFF12), 0);
    apu.write(0xFF11, 0xFF);
    assert_eq!(apu.read(0xFF11), 0x3F);
    assert_eq!(apu.channel_1.length_counter.length(), 0x3F);
    apu.write(0xFF30, 0x5A);
    assert_eq!(apu.channel_3.read(0xFF30), 0x5A);
    // wave RAM is not among the registers the unit itself reads back
    assert_eq!(apu.read(0xFF30), 0);
}

#[test]
fn apu_tick_clocks_frame_sequencer() {
    let mut apu = Apu::new();
    apu.tick();
    assert_eq!(apu.frame_sequencer_counter, 8192);
    assert!(apu.frame_sequencer == FrameSequencer::Step1);
    assert_eq!(apu.channel_1.length_counter.frame_sequencer(), 1);
    assert_eq!(apu.channel_4.length_counter.frame_sequencer(), 1);
    assert_eq!(apu.frequency_counter, 95);
    apu.tick();
    assert!(apu.frame_sequencer == FrameSequencer::Step1);
}
