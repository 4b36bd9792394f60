use sensi_alternada::brand::Brand;
use sensi_alternada::engine::{Command, Engine, Level};
use sensi_alternada::mouse::Mouse;
use sensi_alternada::rawaccel::RawAccel;
use sensi_alternada::sinowealth::{Config, Sensor};
use sensi_alternada::sinowealth_mouse::SinowealthMouse;

fn logitech(per_axis: Option<u8>) -> Mouse {
    Mouse::open(20, 20).with_features(0x0A, per_axis).unwrap()
}

fn sinowealth(n: usize) -> SinowealthMouse {
    let mut m = SinowealthMouse::open(65, 0x0033);
    for i in 0..n {
        m.profiles.push(Config {
            sensor: Sensor::Pmw3360,
            dpi_count: 1,
            active_dpi: 1,
            dpis: vec![400 * (i as u32 + 1)],
        });
    }
    m
}

#[test]
fn a_brand_without_its_device_is_absent() {
    let e = Engine::for_brand(Brand::Logitech, None, Some(sinowealth(2)), true);
    assert!(matches!(e, Engine::Ausente(Brand::Logitech)));
    assert!(!e.usable());
    assert_eq!(e.apply(Level::Base, 800, 400).err(), Some(String::from("nenhum mouse Logitech encontrado")));
    assert_eq!(e.describe(None), "nenhum mouse Logitech encontrado");
    let e = Engine::for_brand(Brand::Sinowealth, Some(logitech(None)), None, true);
    assert_eq!(e.describe(None), "nenhum mouse Genérico (SINOWEALTH) encontrado");
}

#[test]
fn the_logitech_engine_sets_the_level_dpi() {
    let e = Engine::for_brand(Brand::Logitech, Some(logitech(Some(11))), None, false);
    assert!(e.usable());
    assert!(e.per_axis());
    assert!(e.dpi_editable());
    match e.apply(Level::Atirando, 800, 400) {
        Ok(Command::Hidpp(report)) => assert_eq!(&report[..7], &[0x11, 0xFF, 0x0A, 0x3A, 0x00, 0x01, 0x90]),
        _ => panic!("sem comando"),
    }
    match e.apply(Level::Base, 800, 400) {
        Ok(Command::Hidpp(report)) => assert_eq!(&report[4..7], &[0x00, 0x03, 0x20]),
        _ => panic!("sem comando"),
    }
    assert_eq!(e.describe(Some(1600)), "Logitech encontrado · DPI atual 1600");
    assert_eq!(e.describe(None), "Logitech encontrado, mas nao respondeu a leitura de DPI");
}

#[test]
fn the_sinowealth_engine_switches_profiles() {
    let e = Engine::for_brand(Brand::Sinowealth, None, Some(sinowealth(2)), false);
    assert!(e.usable());
    assert!(!e.per_axis());
    assert!(!e.dpi_editable());
    match e.apply(Level::Atirando, 0, 0) {
        Ok(Command::Feature(c)) => assert_eq!(c, [0x05, 0x02, 0x02, 0, 0, 0]),
        _ => panic!("sem comando"),
    }
    assert_eq!(e.describe(None), "SINOWEALTH 258a:0033, 2 perfis · perfis 400 e 800 DPI");
}

#[test]
fn a_single_profile_sinowealth_is_not_usable() {
    let e = Engine::for_brand(Brand::Sinowealth, None, Some(sinowealth(1)), false);
    assert!(!e.usable());
    assert!(e.apply(Level::Base, 0, 0).is_ok());
    assert_eq!(e.apply(Level::Atirando, 0, 0).err(), Some(String::from("perfil 2 nao existe neste mouse")));
    assert_eq!(e.describe(None), "SINOWEALTH 258a:0033 com um perfil só — alternar exige dois");
}

#[test]
fn the_rawaccel_engine_never_switches() {
    let e = Engine::for_brand(Brand::SemMarca, None, None, true);
    assert!(!e.usable());
    assert_eq!(
        e.apply(Level::Atirando, 800, 400).err(),
        Some(String::from("RawAccel atrasa 1000 ms por escrita — chegaria depois da rajada"))
    );
    assert_eq!(e.describe(None), "RawAccel instalado, mas ele atrasa 1000 ms toda escrita, por design");
    let e = Engine::for_brand(Brand::SemMarca, None, None, false);
    assert_eq!(e.apply(Level::Base, 800, 400).err(), Some(String::from("driver RawAccel nao instalado")));
    assert_eq!(e.describe(None), "driver RawAccel nao instalado");
}

#[test]
fn rawaccel_reports_what_it_found() {
    assert!(RawAccel::detect(true).installed);
    assert!(!RawAccel::detect(false).installed);
    assert!(RawAccel::detect(true).set_dpi(400).is_err());
}
