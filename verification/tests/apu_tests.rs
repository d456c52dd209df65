use nes_core::apu::{SequencerMode, APU};
use nes_core::mem::Memory;

#[test]
fn test_four_step_irq_schedule() {
    let mut apu = APU::new_nes_apu();
    apu.write(0x4017, 0x00).unwrap(); // 4-step mode, interrupts enabled
    assert_eq!(apu.frame_mode, SequencerMode::FourStep);
    assert!(apu.irq);

    // Across eight sequencer clocks the interrupt rises exactly twice,
    // each time on the schedule's last slot.
    let mut raised = 0;
    for _ in 0..8 {
        let r = apu.step_frame_counter();
        if r {
            raised += 1;
            assert_eq!(apu.frame_value, 3);
        }
    }
    assert_eq!(raised, 2);
}

#[test]
fn test_four_step_irq_inhibited() {
    let mut apu = APU::new_nes_apu();
    apu.write(0x4017, 0x40).unwrap(); // 4-step mode, interrupt inhibit set
    assert!(!apu.irq);
    for _ in 0..8 {
        assert!(!apu.step_frame_counter());
    }
}

#[test]
fn test_five_step_never_raises_irq() {
    let mut apu = APU::new_nes_apu();
    apu.write(0x4017, 0x80).unwrap(); // 5-step mode, interrupts enabled
    assert_eq!(apu.frame_mode, SequencerMode::FiveStep);
    assert!(apu.irq);
    for _ in 0..20 {
        assert!(!apu.step_frame_counter());
    }
}

#[test]
fn test_five_step_select_clocks_immediately() {
    let mut apu = APU::new_nes_apu();
    apu.write(0x4015, 0x01).unwrap(); // enable pulse one
    apu.write(0x4000, 0x00).unwrap(); // length counter running (halt clear)
    apu.write(0x4003, 0x00).unwrap(); // length index 0 loads 10
    assert_eq!(apu.square1.length_value, 10);
    apu.write(0x4017, 0x80).unwrap(); // selecting 5-step clocks lengths once
    assert_eq!(apu.square1.length_value, 9);
}

#[test]
fn test_length_counter_load_and_status() {
    let mut apu = APU::new_nes_apu();
    apu.write(0x4015, 0x01).unwrap();
    apu.write(0x4003, 0x08).unwrap(); // length index 1 loads 254
    assert_eq!(apu.square1.length_value, 254);
    assert_eq!(apu.read(0x4015), Ok(1));

    // Disabling the channel clears its length counter at once.
    apu.write(0x4015, 0x00).unwrap();
    assert_eq!(apu.square1.length_value, 0);
    assert_eq!(apu.read(0x4015), Ok(0));
}

#[test]
fn test_pulse_register_decode() {
    let mut apu = APU::new_nes_apu();
    apu.write(0x4000, 0b1011_0101).unwrap();
    assert_eq!(apu.square1.duty_mode, 2);
    assert!(apu.square1.envelope_loop);
    assert!(!apu.square1.length_enabled);
    assert!(!apu.square1.envelope_enabled); // constant-volume bit set
    assert_eq!(apu.square1.constant_volume, 5);

    apu.write(0x4002, 0xab).unwrap();
    apu.write(0x4003, 0x02).unwrap();
    assert_eq!(apu.square1.timer_period, 0x2ab);
}

#[test]
fn test_timer_rates() {
    let mut apu = APU::new_nes_apu();
    apu.write(0x400a, 0x02).unwrap(); // triangle period 2
    apu.write(0x4008, 0x81).unwrap(); // linear counter period 1, halt set
    apu.write(0x400b, 0x00).unwrap(); // load length, reload linear counter
    apu.write(0x4015, 0x04).unwrap(); // enable triangle
    apu.step_envelopes(); // reloads the linear counter
    let before = apu.triangle.duty_value;
    // The triangle timer ticks every cycle: period 2 means the waveform
    // advances once per three steps.
    for _ in 0..3 {
        apu.step_timers();
    }
    assert_eq!(apu.triangle.duty_value, before + 1);
}

#[test]
fn test_noise_shift_register_feedback() {
    let mut apu = APU::new_nes_apu();
    assert_eq!(apu.noise.shift_register, 1);
    apu.write(0x400e, 0x00).unwrap(); // shortest period (4), mode 0
    apu.noise.step_timer();
    // Register 1: feedback = bit0 xor bit1 = 1; shifts to 0x4000.
    assert_eq!(apu.noise.shift_register, 0x4000);
    for _ in 0..4 {
        apu.noise.step_timer(); // the divider counts back down to zero
    }
    assert_eq!(apu.noise.shift_register, 0x4000);
    apu.noise.step_timer();
    assert_eq!(apu.noise.shift_register, 0x2000);
}

#[test]
fn test_dmc_register_decode() {
    let mut apu = APU::new_nes_apu();
    apu.write(0x4011, 0xff).unwrap();
    assert_eq!(apu.dmc.value, 0x7f);
    apu.write(0x4012, 0x04).unwrap();
    assert_eq!(apu.dmc.sample_address, 0xc100);
    apu.write(0x4013, 0x02).unwrap();
    assert_eq!(apu.dmc.sample_length, 0x21);
}

#[test]
fn test_step_checkpoints() {
    let mut apu = APU::new_nes_apu();
    apu.write(0x4017, 0x00).unwrap();
    // Over one emulated second 44100 samples fall due, and the frame
    // sequencer is clocked 240 times: one interrupt per four clocks.
    let mut samples = 0u32;
    let mut irqs = 0u32;
    for _ in 0..1_789_773 {
        let r = apu.step();
        if r.trigger_irq {
            irqs += 1;
        }
        if r.sample_due {
            samples += 1;
        }
    }
    assert_eq!(samples, 44100);
    assert_eq!(irqs, 60);
}

#[test]
fn test_channel_outputs_silent_at_power_up() {
    let apu = APU::new_nes_apu();
    assert_eq!(apu.outputs(), (0, 0, 0, 0, 0));
}

#[test]
fn test_bad_register_write_fault() {
    let mut apu = APU::new_nes_apu();
    assert_eq!(
        apu.write(0x4016, 0),
        Err(String::from("bad audio register address"))
    );
}
