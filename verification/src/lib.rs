//! HAL types and the verified request-handling core of a cocktail robot's
//! REST API: request parsing, authentication, routing, endpoint decisions,
//! event-stream diffing, backup checksums and the ESP32 stubs.
pub mod cocktail;
pub mod cocktailor;
pub mod esp32;
pub mod hal;
pub mod server;
pub mod storage;
pub mod stub;
pub mod text;
pub mod thecocktaildb;
