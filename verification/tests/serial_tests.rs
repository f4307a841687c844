use mirror_arena::serial_gpio::{GeneralPurpose, GpioConfig, GpioDirection, PinState};
use mirror_arena::serial_multiplayer::{
    check_multiplayer_ready, BaudRate, InitializationError, MultiplayerCommReg, MultiplayerSiocnt,
    PlayerId, TRANSFER_SENTINEL,
};

#[test]
fn gpio_directions_convert_both_ways() {
    assert_eq!(GpioDirection::from_is_output(true), GpioDirection::Output);
    assert_eq!(GpioDirection::from_is_output(false), GpioDirection::Input);
    assert!(GpioDirection::Output.is_output());
    assert!(!GpioDirection::Output.is_input());
    assert!(GpioDirection::Input.is_input());
}

#[test]
fn general_purpose_image_starts_in_gpio_mode() {
    let gp = GeneralPurpose::new();
    assert_eq!(gp.read(), 0x8000);
}

#[test]
fn gpio_config_round_trips_through_the_register() {
    let mut gp = GeneralPurpose::new();
    let cfg = GpioConfig {
        sc: GpioDirection::Output,
        sd: GpioDirection::Input,
        si: GpioDirection::Output,
        so: GpioDirection::Input,
    };
    gp.set_gpio_config(cfg);
    assert_eq!(gp.gpio_config(), cfg);
    // Bits 4 and 6 set, bits 5 and 7 clear, mode bits untouched.
    assert_eq!(gp.read(), 0x8000 | (1 << 4) | (1 << 6));
}

#[test]
fn interrupt_bit_toggles_alone() {
    let mut gp = GeneralPurpose::new();
    assert!(!gp.interupt_enabled());
    gp.set_interrupt(true);
    assert!(gp.interupt_enabled());
    assert_eq!(gp.read(), 0x8000 | 0x0100);
    gp.set_interrupt(false);
    assert!(!gp.interupt_enabled());
    assert_eq!(gp.read(), 0x8000);
}

#[test]
fn pin_state_packs_four_flags() {
    let pins = PinState::new(true, false, true, false);
    assert_eq!(pins.state, 0b0101);
    assert!(pins.sc());
    assert!(!pins.sd());
    assert!(pins.si());
    assert!(!pins.so());
}

#[test]
fn pin_writes_touch_only_their_bit() {
    let pins = PinState::new(false, false, false, false);
    let pins = pins.with_sd(true);
    assert!(!pins.sc());
    assert!(pins.sd());
    assert!(!pins.si());
    assert!(!pins.so());
    let mut pins = pins;
    pins.set_so(true);
    pins.set_sd(false);
    assert!(!pins.sc());
    assert!(!pins.sd());
    assert!(!pins.si());
    assert!(pins.so());
}

#[test]
fn pin_state_never_sets_the_upper_nibble() {
    for sc in [false, true] {
        for sd in [false, true] {
            for si in [false, true] {
                for so in [false, true] {
                    let pins = PinState::new(sc, sd, si, so);
                    assert!(pins.state <= 0x0f);
                    assert!(pins.with_sc(true).state <= 0x0f);
                }
            }
        }
    }
}

#[test]
fn pin_writes_are_idempotent() {
    let pins = PinState::new(true, false, true, false);
    assert_eq!(pins.with_sd(true), pins.with_sd(true).with_sd(true));
    assert_eq!(pins.with_sc(false), pins.with_sc(false).with_sc(false));
    let mut a = pins;
    a.set_so(true);
    let b = a;
    a.set_so(true);
    assert_eq!(a, b);
}

#[test]
fn pin_state_reads_the_low_register_nibble() {
    let pins = PinState::from_rcnt(0xabcd);
    assert_eq!(pins.state, 0xd);
}

#[test]
fn baud_rate_round_trips_through_the_control_bits() {
    let rates = [BaudRate::B9600, BaudRate::B38400, BaudRate::B57600, BaudRate::B115200];
    for (code, rate) in rates.into_iter().enumerate() {
        let mut sio = MultiplayerSiocnt::new();
        sio.set_baud_rate(rate);
        assert_eq!(sio.baud_rate(), rate);
        assert_eq!(sio.read() & 3, code as u16);
    }
}

#[test]
fn control_flags_sit_on_their_documented_bits() {
    let mut sio = MultiplayerSiocnt::new();
    assert!(!sio.is_parent());
    assert!(!sio.gbas_ready());
    assert!(!sio.error_flag());
    assert!(!sio.busy());
    sio.write(1 << 2);
    assert!(sio.is_parent());
    sio.write(1 << 3);
    assert!(sio.gbas_ready());
    sio.write(1 << 6);
    assert!(sio.error_flag());
    sio.write(0);
    sio.start_transfer();
    assert!(sio.busy());
    assert_eq!(sio.read(), 0x80);
}

#[test]
fn console_id_lives_in_bits_four_and_five() {
    let mut sio = MultiplayerSiocnt::new();
    assert_eq!(sio.id(), PlayerId::Parent);
    sio.write(1 << 4);
    assert_eq!(sio.id(), PlayerId::P1);
    sio.write(2 << 4);
    assert_eq!(sio.id(), PlayerId::P2);
    sio.write(3 << 4);
    assert_eq!(sio.id(), PlayerId::P3);
}

#[test]
fn readiness_check_requires_the_ready_bit() {
    let mut sio = MultiplayerSiocnt::new();
    assert_eq!(
        check_multiplayer_ready(&sio),
        Err(InitializationError::FailedOkayCheck)
    );
    sio.write(1 << 3);
    assert_eq!(check_multiplayer_ready(&sio), Ok(false));
    sio.write((1 << 3) | (1 << 2));
    assert_eq!(check_multiplayer_ready(&sio), Ok(true));
}

#[test]
fn comm_register_shows_data_only_after_a_store() {
    let mut reg = MultiplayerCommReg::new(PlayerId::P2);
    assert_eq!(reg.player_id(), PlayerId::P2);
    assert_eq!(reg.raw_read(), TRANSFER_SENTINEL);
    assert!(reg.is_transfering());
    assert_eq!(reg.read(), None);
    reg.store(0x1234);
    assert!(!reg.is_transfering());
    assert_eq!(reg.read(), Some(0x1234));
    reg.store(TRANSFER_SENTINEL);
    assert_eq!(reg.read(), None);
}
