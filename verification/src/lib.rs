//! A small game-engine core: an entity registry handing out stable ids,
//! and a scheduler that drives registered update systems once per tick.

pub mod assets;
pub mod engine;
pub mod entity;
pub mod error;
pub mod scheduler;
pub mod store;
pub mod system;

pub use assets::AssetManager;
pub use assets::finish_asset_load;
pub use engine::GameEngine;
pub use entity::Entity;
pub use entity::EntityType;
pub use entity::create_player;
pub use error::EngineError;
pub use scheduler::Scheduler;
pub use scheduler::first_failure;
pub use store::EntityStore;
pub use system::RenderSystem;
pub use system::Renderer;
pub use system::System;
