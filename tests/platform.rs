use asusctl::anime_matrix::{AniMeCommandType, AniMeImageBuffer, AniMeLeds, AniMePaneBuffer, AniMeStatusValue, AniMeWriteType, HEIGHT, PANE_LEN, WIDTH};
use asusctl::aura::{AuraEffect, AuraModeNum, AuraMultiZone, AuraZone, Colour, Direction, Speed};
use asusctl::aura_cli::{LedBrightness, SetAuraBuiltin, SingleColour, SingleSpeedDirection, TwoColourSpeed};
use asusctl::aura_config::AuraConfig;
use asusctl::aura_usb::{aura_brightness_bytes, LedCode, Static};
use asusctl::ctrl_charge::{CtrlCharge, RogError};
use asusctl::ctrl_fan_cpu::{CtrlFanAndCPU, DbusFanAndCpu, ProfileConfig, FAN_TYPE_1_PATH, FAN_TYPE_2_PATH};
use asusctl::laptops::{is_laptop_keyboard, str_contains, LaptopLedData, LedSupportFile};

fn led_data(family: &str, boards: &[&str]) -> LaptopLedData {
    LaptopLedData {
        prod_family: family.to_string(),
        board_names: boards.iter().map(|b| b.to_string()).collect(),
        standard: vec![AuraModeNum::Static],
        multizone: false,
        per_key: false,
    }
}

#[test]
fn brightness_words() {
    assert_eq!(LedBrightness::parse("off").unwrap().level(), Some(0));
    assert_eq!(LedBrightness::parse("LOW").unwrap().level(), Some(1));
    assert_eq!(LedBrightness::parse("Med").unwrap().level(), Some(2));
    assert_eq!(LedBrightness::parse("high").unwrap().level(), Some(3));
    assert!(LedBrightness::parse("max").is_none());
    assert_eq!(LedBrightness::new(Some(0)).to_string(), "low");
    assert_eq!(LedBrightness::new(Some(2)).to_string(), "high");
    assert_eq!(LedBrightness::new(None).to_string(), "unknown");
}

#[test]
fn builtin_requests_become_effects() {
    let red = Colour { r: 255, g: 0, b: 0 };
    let e = SetAuraBuiltin::Static(SingleColour { colour: red, zone: AuraZone::Logo }).to_effect();
    assert_eq!(e, AuraEffect { mode: AuraModeNum::Static, zone: AuraZone::Logo, colour1: red, ..AuraEffect::new() });
    let blue = Colour { r: 0, g: 0, b: 255 };
    let e = SetAuraBuiltin::Stars(TwoColourSpeed { colour: red, colour2: blue, speed: Speed::High, zone: AuraZone::Whole }).to_effect();
    assert_eq!(e.mode, AuraModeNum::Star);
    assert_eq!(e.colour2, blue);
    // The speed of a two-colour request is not carried over.
    assert_eq!(e.speed, Speed::Med);
    let e = SetAuraBuiltin::Rainbow(SingleSpeedDirection { direction: Direction::Up, speed: Speed::Low, zone: AuraZone::Whole }).to_effect();
    assert_eq!((e.mode, e.direction, e.speed), (AuraModeNum::Rainbow, Direction::Up, Speed::Low));
    assert_eq!(SetAuraBuiltin::new().to_effect(), AuraEffect::new());
}

#[test]
fn mode_bytes() {
    assert_eq!(AuraModeNum::Pulse.to_byte(), 10);
    assert_eq!(AuraModeNum::from_byte(12), AuraModeNum::Flash);
    assert_eq!(AuraModeNum::from_byte(9), AuraModeNum::Static);
}

#[test]
fn aura_config_stores_effects() {
    let mut cfg = AuraConfig::new();
    let mut e = AuraEffect::default_with_mode(AuraModeNum::Breathe);
    cfg.set_builtin(e);
    assert_eq!(cfg.builtins.get(&1), Some(&e));
    e.zone = AuraZone::Key2;
    cfg.set_builtin(e);
    assert_eq!(cfg.builtins.len(), 1);
    assert!(cfg.get_multizone(AuraModeNum::Breathe).is_none());
    let base = AuraEffect::new();
    cfg.multizone = Some(AuraMultiZone { static_: [base; 4], breathe: [base; 4] });
    cfg.set_builtin(e);
    assert_eq!(cfg.get_multizone(AuraModeNum::Breathe).unwrap()[1], e);
    assert_eq!(cfg.get_multizone(AuraModeNum::Static).unwrap()[1], base);
    assert!(cfg.get_multizone(AuraModeNum::Rain).is_none());
}

#[test]
fn brightness_packet() {
    let p = aura_brightness_bytes(3);
    assert_eq!(&p[..5], &[0x5A, 0xBA, 0xC5, 0xC4, 3]);
    assert!(p[5..].iter().all(|b| *b == 0));
    let s = Static::new(LedCode(7), Colour { r: 1, g: 2, b: 3 });
    assert_eq!(s.led(), LedCode(7));
    assert_eq!(s.colour(), Colour { r: 1, g: 2, b: 3 });
}

#[test]
fn anime_panes() {
    let leds = AniMeLeds::new(42);
    assert_eq!(leds.led_brightness(), 42);
    match AniMeWriteType::from_command(AniMeCommandType::Leds(leds)) {
        AniMeWriteType::WritePane(p) => {
            assert_eq!(p.len(), PANE_LEN);
            assert!(p.iter().all(|b| *b == 42));
            let buf = AniMePaneBuffer::from_pane(p);
            assert_eq!(buf.get().len(), PANE_LEN);
            assert_eq!(buf.to_pane().unwrap(), p);
        }
    }
    assert!(AniMePaneBuffer::new(vec![1, 2, 3]).to_pane().is_none());
    assert_eq!(AniMeStatusValue::parse("ON"), Some(AniMeStatusValue::On));
    assert_eq!(AniMeStatusValue::parse("off"), Some(AniMeStatusValue::Off));
    assert_eq!(AniMeStatusValue::parse("maybe"), None);
    assert!(AniMeStatusValue::On.is_on());
}

#[test]
fn anime_image_buffer() {
    let mut img = AniMeImageBuffer::new();
    assert_eq!(img.get().len(), HEIGHT);
    assert!(img.get().iter().all(|r| r.len() == WIDTH && r.iter().all(|b| *b == 0)));
    img.fill_with(9);
    assert!(img.get().iter().all(|r| r.len() == WIDTH && r.iter().all(|b| *b == 9)));
}

#[test]
fn charge_limit() {
    assert_eq!(CtrlCharge::new(80, false), Err(RogError::MissingFunction));
    let mut c = CtrlCharge::new(80, true).unwrap();
    assert_eq!(c.limit(), 80);
    c.set_limit(60);
    assert_eq!(c.limit(), 60);
    c.set_limit(200);
    assert_eq!(c.limit(), -56);
    assert!(CtrlCharge::limit_in_range(20) && CtrlCharge::limit_in_range(100));
    assert!(!CtrlCharge::limit_in_range(19) && !CtrlCharge::limit_in_range(101));
    assert!(CtrlCharge::get_supported(true).charge_level_set);
}

#[test]
fn fan_profiles_toggle() {
    let cfg = |active: &str| ProfileConfig {
        active_profile: active.to_string(),
        toggle_profiles: vec!["normal".to_string(), "boost".to_string(), "silent".to_string()],
    };
    assert!(CtrlFanAndCPU::new(cfg("normal"), false, false).is_err());
    assert_eq!(CtrlFanAndCPU::get_fan_path(true, true), Ok(FAN_TYPE_1_PATH));
    assert_eq!(CtrlFanAndCPU::get_fan_path(false, true), Ok(FAN_TYPE_2_PATH));
    let mut c = CtrlFanAndCPU::new(cfg("normal"), false, true).unwrap();
    assert_eq!(c.path, FAN_TYPE_2_PATH);
    assert_eq!(c.next_profile_name(), "boost");
    c.set_active_profile("silent".to_string());
    assert_eq!(c.next_profile_name(), "normal");
    c.set_active_profile("custom".to_string());
    assert_eq!(c.next_profile_name(), "normal");
    let empty = ProfileConfig { active_profile: "x".to_string(), toggle_profiles: vec![] };
    let c = CtrlFanAndCPU::new(empty, true, false).unwrap();
    assert_eq!(c.next_profile_name(), "x");
    let d = DbusFanAndCpu::new(c);
    assert_eq!(d.active_profile_name(), "x");
}

#[test]
fn laptop_matching() {
    assert!(is_laptop_keyboard(0x0b05, 0x1866));
    assert!(!is_laptop_keyboard(0x0b05, 0x1234));
    assert!(str_contains("ROG Zephyrus G14", "Zephyrus"));
    assert!(!str_contains("ROG", "Zephyrus"));
    let file = LedSupportFile {
        led_data: vec![led_data("Strix", &["G531"]), led_data("Zephyrus", &["GA401", "GA502"]), led_data("Zephyrus", &["GA502I"])],
    };
    let m = file.matcher("ROG Zephyrus G15", "GA502IU").unwrap();
    assert_eq!(m.board_names, vec!["GA401".to_string(), "GA502".to_string()]);
    let file = LedSupportFile { led_data: vec![led_data("Strix", &["G531"])] };
    assert!(file.matcher("ROG Zephyrus", "GA401").is_none());
}

#[test]
fn aura_config_defaults_per_mode() {
    let cfg = AuraConfig::create_default(&vec![AuraModeNum::Static, AuraModeNum::Breathe, AuraModeNum::Pulse]);
    assert_eq!(cfg.builtins.len(), 3);
    assert_eq!(cfg.builtins.get(&10), Some(&AuraEffect::default_with_mode(AuraModeNum::Pulse)));
    assert_eq!(cfg.builtins.get(&1).unwrap().mode, AuraModeNum::Breathe);
    assert_eq!(cfg.brightness, 1);
    assert!(cfg.multizone.is_none());
}
