use libskiller::{
    brightness_frame, color_frame, control_setup, find_skiller, is_skiller, polling_rate_frame,
    switch_profile, win_key_frame, Brightness, Color, Command, PollingRate, Profile,
    ToSkillerBytes, INTERFACE, PRODUCT_ID, VENDOR_ID,
};

const COLORS: [Color; 7] = [
    Color::Red,
    Color::Green,
    Color::Blue,
    Color::Purple,
    Color::Cyan,
    Color::Yellow,
    Color::White,
];

const PROFILES: [Profile; 3] = [Profile::P1, Profile::P2, Profile::P3];

const RATES: [PollingRate; 4] = [
    PollingRate::HZ125,
    PollingRate::HZ250,
    PollingRate::HZ500,
    PollingRate::HZ1000,
];

fn all_commands() -> Vec<Command> {
    let mut out = Vec::new();
    for p in PROFILES {
        out.push(Command::SetProfile { profile: p });
        out.push(Command::SetWinKey { enable: true, profile: p });
        out.push(Command::SetWinKey { enable: false, profile: p });
        out.push(Command::SetBrightness { brightness: Brightness::Cycle, profile: p });
        for c in COLORS {
            out.push(Command::SetColor { color: c, profile: p });
            out.push(Command::SetBrightness {
                brightness: Brightness::Pulsating { color: c },
                profile: p,
            });
            out.push(Command::SetBrightness {
                brightness: Brightness::Static { level: 255, color: c },
                profile: p,
            });
        }
    }
    for r in RATES {
        out.push(Command::SetPollingRate { rate: r });
    }
    out
}

#[test]
fn color_codes_are_distinct_and_in_range() {
    let codes: Vec<u8> = COLORS.iter().map(|c| c.to_skiller_bytes()).collect();
    assert_eq!(codes, vec![0, 1, 2, 3, 4, 5, 6]);
    assert_eq!(Color::Yellow.to_skiller_bytes(), Color::Yellow.to_skiller_bytes());
}

#[test]
fn profile_codes_are_distinct_and_in_range() {
    let codes: Vec<u8> = PROFILES.iter().map(|p| p.to_skiller_bytes()).collect();
    assert_eq!(codes, vec![1, 2, 3]);
}

#[test]
fn polling_rate_codes_fall_as_rate_rises() {
    let codes: Vec<u8> = RATES.iter().map(|r| r.to_skiller_bytes()).collect();
    assert_eq!(codes, vec![8, 4, 2, 1]);
}

#[test]
fn win_key_flag_is_inverted() {
    assert_eq!(true.to_skiller_bytes(), 0);
    assert_eq!(false.to_skiller_bytes(), 1);
    assert_eq!(win_key_frame(true, Profile::P3), [7, 11, 3, 0, 0, 0, 0, 0]);
    assert_eq!(win_key_frame(false, Profile::P1), [7, 11, 1, 1, 0, 0, 0, 0]);
    let frames = Command::SetWinKey { enable: true, profile: Profile::P2 }.frames();
    assert_eq!(frames, vec![[7, 11, 2, 0, 0, 0, 0, 0]]);
}

#[test]
fn cycle_sends_level_twelve_and_no_color() {
    for p in PROFILES {
        let f = brightness_frame(Brightness::Cycle, p);
        assert_eq!(f[3], 12);
        assert_eq!(f[6], 0);
    }
    let frames = Command::SetBrightness { brightness: Brightness::Cycle, profile: Profile::P3 }
        .frames();
    assert_eq!(frames, vec![[7, 2, 3, 0, 0, 0, 0, 0], [7, 10, 3, 12, 4, 0, 0, 0]]);
}

#[test]
fn pulsating_sends_level_eleven() {
    let f = brightness_frame(Brightness::Pulsating { color: Color::White }, Profile::P2);
    assert_eq!(f, [7, 10, 2, 11, 4, 0, 6, 0]);
}

#[test]
fn every_frame_has_header_and_eight_bytes() {
    for c in all_commands() {
        let frames = c.frames();
        assert!(!frames.is_empty());
        for f in frames {
            assert_eq!(f.len(), 8);
            assert_eq!(f[0], 0x07);
        }
    }
}

#[test]
fn set_color_blue_on_second_profile() {
    let frames = Command::SetColor { color: Color::Blue, profile: Profile::P2 }.frames();
    assert_eq!(frames, vec![[7, 2, 2, 0, 0, 0, 0, 0], [7, 10, 2, 10, 4, 0, 2, 0]]);
    assert_eq!(color_frame(Color::Blue, Profile::P2), [7, 10, 2, 10, 4, 0, 2, 0]);
}

#[test]
fn static_red_at_fifty_on_first_profile() {
    let b = Brightness::Static { level: 50, color: Color::Red };
    assert_eq!(brightness_frame(b, Profile::P1), [7, 10, 1, 50, 4, 0, 0, 0]);
    let frames = Command::SetBrightness { brightness: b, profile: Profile::P1 }.frames();
    assert_eq!(frames, vec![[7, 2, 1, 0, 0, 0, 0, 0], [7, 10, 1, 50, 4, 0, 0, 0]]);
}

#[test]
fn profile_and_polling_rate_frames() {
    assert_eq!(switch_profile(3), [7, 2, 3, 0, 0, 0, 0, 0]);
    assert_eq!(
        Command::SetProfile { profile: Profile::P1 }.frames(),
        vec![[7, 2, 1, 0, 0, 0, 0, 0]]
    );
    assert_eq!(polling_rate_frame(PollingRate::HZ125), [7, 1, 8, 0, 0, 0, 0, 0]);
    assert_eq!(
        Command::SetPollingRate { rate: PollingRate::HZ1000 }.frames(),
        vec![[7, 1, 1, 0, 0, 0, 0, 0]]
    );
}

#[test]
fn no_matching_device_gives_none() {
    assert_eq!(find_skiller(&vec![]), None);
    assert_eq!(find_skiller(&vec![(0x046d, 0xc52b), (0x04d9, 0xa095), (0x04da, 0xa096)]), None);
}

#[test]
fn first_matching_device_is_chosen() {
    let ids = vec![(0x1d6b, 0x0002), (VENDOR_ID, PRODUCT_ID), (0x04d9, 0xa096)];
    assert_eq!(find_skiller(&ids), Some(1));
    assert!(is_skiller(0x04d9, 0xa096));
    assert!(!is_skiller(0xa096, 0x04d9));
}

#[test]
fn control_setup_is_class_interface_out() {
    let s = control_setup();
    assert_eq!(s.request_type, 0x21);
    assert_eq!(s.request, 9);
    assert_eq!(s.value, 0x0307);
    assert_eq!(s.index, 1);
    assert_eq!(INTERFACE, 1);
}
