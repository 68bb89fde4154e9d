use cocktail_bot_hal::esp32::config::{default_admin_config, stub_capabilities};
use cocktail_bot_hal::esp32::storage::not_implemented;
use cocktail_bot_hal::esp32::{
    Esp32Cleaning, Esp32Config, Esp32Control, Esp32Dispense, Esp32Hal, Esp32Sensors, Esp32Status,
    Esp32Storage,
};
use cocktail_bot_hal::hal::{
    AdminConfig, GlassType, default_drink_ready_timeout, default_glass_wait_timeout, JobState, LevelReporting,
    PasswordHasher, RecoveryAction, RobotState,
};
use cocktail_bot_hal::storage::ram::RamStorageHal;
use cocktail_bot_hal::stub::{
    index, StubConfigHal, StubDispenseHal, StubPasswordHasher, StubStatusHal,
};
use cocktail_bot_hal::thecocktaildb::ThecocktaildbDrink;

#[test]
fn esp32_stubs() {
    let mut hal = Esp32Hal::new();
    assert!(hal.control.power(true).is_ok());
    assert!(hal.control.power_save(true).is_ok());
    assert!(hal.control.reset_errors().is_ok());
    assert!(hal.control.reload_config().is_ok());
    assert!(matches!(hal.status.state(), RobotState::Idle));
    assert!(hal.status.active_errors().is_empty());
    assert!(hal.cleaning.start_cleaning().is_ok());
    assert!(hal.cleaning.stop_cleaning().is_ok());
    let c = hal.dispense.create_job("j".to_string(), "n".to_string()).unwrap();
    assert_eq!(c.job_id, "j");
    assert_eq!(c.queue_position, 1);
    assert!(hal.dispense.list_jobs().is_empty());
    let e = hal.dispense.job_status("x").unwrap_err();
    assert_eq!(e.code, "NOT_FOUND");
    assert_eq!(e.message, "Job 'x' not found (stub)");
    assert!(e.recoverable);
    assert!(hal.dispense.cancel_job("x").is_ok());
    let _ = (Esp32Cleaning::new(), Esp32Config::new(), Esp32Control::new(), Esp32Dispense::new());
    let _ = (Esp32Sensors::new(), Esp32Status::new(), Esp32Storage::new());
}

#[test]
fn esp32_fixed_values() {
    let caps = stub_capabilities();
    assert_eq!(caps.version, "0.6.0");
    assert_eq!(caps.level_reporting, LevelReporting::Binary);
    assert_eq!(caps.max_queue_depth, 5);
    assert_eq!(caps.simultaneous_channels, 1);
    let e = not_implemented();
    assert_eq!(e.code, "NOT_IMPLEMENTED");
    assert_eq!(e.hint.as_deref(), Some("Wire to NVS flash via esp-idf-svc nvs partition"));
    assert!(!e.recoverable);
}

#[test]
fn stub_hasher_and_defaults() {
    let h = StubPasswordHasher;
    let stored = h.hash("pw").unwrap();
    assert_eq!(stored, "stub$pw");
    assert!(h.verify("pw", &stored));
    assert!(!h.verify("pw2", &stored));
    assert_eq!(default_glass_wait_timeout(), 60);
    assert_eq!(default_drink_ready_timeout(), 300);
    assert_eq!(index(), "Hello, world!");
    assert_eq!(JobState::Cancelled.tag(), "cancelled");
    assert_eq!(JobState::Error("x".to_string()).tag(), "error");
    assert_eq!(JobState::Queued.tag(), "queued");
    assert_ne!(RecoveryAction::PutGlassBack, RecoveryAction::NoAction);
}

fn admin(token: &str) -> AdminConfig {
    AdminConfig {
        liquids: vec![],
        glass_types: vec![GlassType { id: "tall".to_string(), volume: 250.0f32.to_bits() }],
        token: token.to_string(),
        admin_password: String::new(),
        glass_wait_timeout_secs: 0,
        drink_ready_timeout_secs: 10,
    }
}

#[test]
fn ram_storage_reads_back_what_was_restored() {
    let mut s = RamStorageHal::empty();
    let e = s.stored().unwrap_err();
    assert_eq!(e.code, "NO_CONFIG");
    assert_eq!(e.message, "No configuration stored");
    assert_eq!(e.hint.as_deref(), Some("POST /v1/config/restore to provision"));
    assert!(e.recoverable);
    s.restore(admin("first")).unwrap();
    assert_eq!(s.stored().unwrap().token, "first");
    s.restore(admin("second")).unwrap();
    let back = s.stored().unwrap();
    assert_eq!(back.token, "second");
    assert_eq!(back.glass_types[0].id, "tall");
    assert_eq!(f32::from_bits(back.glass_types[0].volume), 250.0);
    assert_eq!(back.drink_ready_timeout_secs, 10);
}

#[test]
fn ram_storage_starts_with_dev_defaults() {
    let s = RamStorageHal::new();
    let c = s.stored().unwrap();
    assert_eq!(c.token, "dev");
    assert!(c.liquids.is_empty());
    let glasses: Vec<(String, f32)> =
        c.glass_types.iter().map(|g| (g.id.clone(), f32::from_bits(g.volume))).collect();
    assert_eq!(glasses, vec![("short".to_string(), 100.0), ("long".to_string(), 200.0)]);
    assert_eq!(c.admin_password, "");
    assert_eq!((c.glass_wait_timeout_secs, c.drink_ready_timeout_secs), (60, 300));
}

#[test]
fn esp32_active_config_and_sensors() {
    let mut hal = Esp32Hal::new();
    let cfg = hal.config.get_active_config();
    let glasses: Vec<(String, f32)> =
        cfg.glass_types.iter().map(|g| (g.id.clone(), f32::from_bits(g.volume))).collect();
    assert_eq!(
        glasses,
        vec![("short".to_string(), 100.0), ("medium".to_string(), 150.0), ("long".to_string(), 200.0)]
    );
    assert!(cfg.liquids.is_empty());
    assert_eq!(cfg.token, "");
    assert_eq!(cfg.capabilities.version, "0.6.0");
    assert_eq!((cfg.glass_wait_timeout_secs, cfg.drink_ready_timeout_secs), (60, 300));
    assert_eq!(default_admin_config().glass_types.len(), 3);
    assert!(hal.config.update_active_config(admin("x")).is_ok());
    let g = hal.sensors.glass_state().unwrap();
    assert!(g.present);
    assert!(g.glass_type.is_none());
    assert_eq!(f32::from_bits(g.confidence), 0.0);
    assert!(hal.sensors.level_state().unwrap().is_empty());
    let e = hal.storage.load_storage_config().unwrap_err();
    assert_eq!(e.code, "NOT_IMPLEMENTED");
    let cfg = hal.config.get_active_config();
    let e = hal.storage.store_storage_config(cfg, true).unwrap_err();
    assert_eq!(e.message, "StorageHal is not yet implemented for ESP32");
}

#[test]
fn dev_stubs() {
    assert!(matches!(StubStatusHal.state(), RobotState::Off));
    assert!(StubStatusHal.active_errors().is_empty());
    let cfg = StubConfigHal.get_active_config();
    assert_eq!(cfg.liquids.len(), 1);
    assert_eq!(cfg.liquids[0].id, "water");
    assert_eq!(cfg.liquids[0].name, "Water");
    assert_eq!(f32::from_bits(cfg.liquids[0].calibration.factor), 1.0);
    let glasses: Vec<(String, f32)> =
        cfg.glass_types.iter().map(|g| (g.id.clone(), f32::from_bits(g.volume))).collect();
    assert_eq!(
        glasses,
        vec![("short".to_string(), 100.0), ("medium".to_string(), 150.0), ("long".to_string(), 200.0)]
    );
    assert_eq!(cfg.capabilities.version, "0.4.0");
    assert_eq!(cfg.capabilities.max_queue_depth, 5);
    let mut d = StubDispenseHal;
    let c = d.create_job("id".to_string(), "name".to_string()).unwrap();
    assert_eq!((c.job_id.as_str(), c.queue_position), ("id", 1));
    assert!(d.list_jobs().is_empty());
}

#[test]
fn drink_ingredient_pairs() {
    let mut d = blank_drink();
    d.strIngredient1 = Some("Vodka".to_string());
    d.strMeasure1 = Some("3 oz".to_string());
    d.strIngredient2 = Some("Ice".to_string());
    d.strMeasure3 = Some("1 cl".to_string());
    d.strIngredient15 = Some("Lime".to_string());
    d.strMeasure15 = Some("1/2 oz".to_string());
    assert_eq!(
        d.ingredient_pairs(),
        vec![
            ("Vodka".to_string(), "3 oz".to_string()),
            ("Lime".to_string(), "1/2 oz".to_string())
        ]
    );
    let _ = std::mem::size_of::<ThecocktaildbDrink>();
}

fn blank_drink() -> ThecocktaildbDrink {
    ThecocktaildbDrink {
        idDrink: "1".to_string(),
        strDrink: "Screwdriver".to_string(),
        strDrinkAlternate: None,
        strTags: None,
        strVideo: None,
        strCategory: None,
        strIBA: None,
        strAlcoholic: "Alcoholic".to_string(),
        strGlass: "Highball".to_string(),
        strInstructions: "Pour.".to_string(),
        strInstructionsES: None,
        strInstructionsDE: None,
        strInstructionsFR: None,
        strInstructionsIT: None,
        strInstructionsZHHANS: None,
        strInstructionsZHHANT: None,
        strDrinkThumb: None,
        strIngredient1: None,
        strIngredient2: None,
        strIngredient3: None,
        strIngredient4: None,
        strIngredient5: None,
        strIngredient6: None,
        strIngredient7: None,
        strIngredient8: None,
        strIngredient9: None,
        strIngredient10: None,
        strIngredient11: None,
        strIngredient12: None,
        strIngredient13: None,
        strIngredient14: None,
        strIngredient15: None,
        strMeasure1: None,
        strMeasure2: None,
        strMeasure3: None,
        strMeasure4: None,
        strMeasure5: None,
        strMeasure6: None,
        strMeasure7: None,
        strMeasure8: None,
        strMeasure9: None,
        strMeasure10: None,
        strMeasure11: None,
        strMeasure12: None,
        strMeasure13: None,
        strMeasure14: None,
        strImageSource: None,
        strMeasure15: None,
        strImageAttribution: None,
        strCreativeCommonsConfirmed: None,
        dateModified: "-".to_string(),
    }
}
