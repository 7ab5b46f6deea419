use std::cell::RefCell;
use std::rc::Rc;

use game_core::create_player;
use game_core::first_failure;
use game_core::EngineError;
use game_core::GameEngine;
use game_core::Renderer;
use game_core::RenderSystem;
use game_core::Scheduler;
use game_core::System;

struct TaggedSystem {
    tag: u32,
    fail_with: Option<String>,
    log: Rc<RefCell<Vec<(u32, u32)>>>,
}

impl System for TaggedSystem {
    fn update(&mut self, delta_time: u32) -> Result<(), String> {
        self.log.borrow_mut().push((self.tag, delta_time));
        match &self.fail_with {
            Some(message) => Err(message.clone()),
            None => Ok(()),
        }
    }
}

#[test]
fn tick_runs_each_system_once_in_registration_order() {
    let log: Rc<RefCell<Vec<(u32, u32)>>> = Rc::new(RefCell::new(Vec::new()));
    let mut scheduler: Scheduler<TaggedSystem> = Scheduler::new();
    scheduler.register(TaggedSystem { tag: 1, fail_with: None, log: Rc::clone(&log) });
    scheduler.register(TaggedSystem { tag: 2, fail_with: None, log: Rc::clone(&log) });
    let dt = 0.016f32.to_bits();
    let outcome = scheduler.tick(dt);
    assert_eq!(outcome, Ok(()));
    assert_eq!(*log.borrow(), vec![(1, dt), (2, dt)]);
}

#[test]
fn every_tick_updates_every_system() {
    let log: Rc<RefCell<Vec<(u32, u32)>>> = Rc::new(RefCell::new(Vec::new()));
    let mut scheduler: Scheduler<TaggedSystem> = Scheduler::new();
    scheduler.register(TaggedSystem { tag: 7, fail_with: None, log: Rc::clone(&log) });
    scheduler.register(TaggedSystem { tag: 8, fail_with: None, log: Rc::clone(&log) });
    scheduler.register(TaggedSystem { tag: 9, fail_with: None, log: Rc::clone(&log) });
    assert_eq!(scheduler.tick(10), Ok(()));
    assert_eq!(scheduler.tick(20), Ok(()));
    assert_eq!(
        *log.borrow(),
        vec![(7, 10), (8, 10), (9, 10), (7, 20), (8, 20), (9, 20)]
    );
}

#[test]
fn failing_system_does_not_stop_the_tick() {
    let log: Rc<RefCell<Vec<(u32, u32)>>> = Rc::new(RefCell::new(Vec::new()));
    let mut scheduler: Scheduler<TaggedSystem> = Scheduler::new();
    scheduler.register(TaggedSystem {
        tag: 1,
        fail_with: Some(String::from("first down")),
        log: Rc::clone(&log),
    });
    scheduler.register(TaggedSystem {
        tag: 2,
        fail_with: Some(String::from("second down")),
        log: Rc::clone(&log),
    });
    scheduler.register(TaggedSystem { tag: 3, fail_with: None, log: Rc::clone(&log) });
    let outcome = scheduler.tick(5);
    assert_eq!(
        outcome,
        Err(EngineError::SystemFailure(String::from("first down")))
    );
    assert_eq!(*log.borrow(), vec![(1, 5), (2, 5), (3, 5)]);
}

#[test]
fn tick_with_no_systems_succeeds() {
    let mut scheduler: Scheduler<RenderSystem> = Scheduler::new();
    assert_eq!(scheduler.len(), 0);
    assert_eq!(scheduler.tick(42), Ok(()));
}

#[test]
fn first_failure_folds_outcomes() {
    assert_eq!(first_failure(vec![Ok(()), Ok(())]), Ok(()));
    assert_eq!(first_failure(Vec::new()), Ok(()));
    assert_eq!(
        first_failure(vec![Ok(()), Err(String::from("a")), Err(String::from("b"))]),
        Err(EngineError::SystemFailure(String::from("a")))
    );
}

#[test]
fn render_system_renders_every_tick() {
    let mut scheduler: Scheduler<RenderSystem> = Scheduler::new();
    scheduler.register(RenderSystem::new(Renderer::new()));
    assert_eq!(scheduler.tick(1), Ok(()));
    assert_eq!(scheduler.tick(2), Ok(()));
    assert_eq!(scheduler.tick(3), Ok(()));
}

#[test]
fn render_system_renders_once_per_update() {
    let mut system = RenderSystem::new(Renderer::new());
    assert_eq!(system.frames_rendered(), 0);
    assert_eq!(system.update(0.016f32.to_bits()), Ok(()));
    assert_eq!(system.frames_rendered(), 1);
    assert_eq!(system.update(0.032f32.to_bits()), Ok(()));
    assert_eq!(system.update(0.048f32.to_bits()), Ok(()));
    assert_eq!(system.frames_rendered(), 3);
}

#[test]
fn renderer_counts_frames() {
    let mut renderer = Renderer::new();
    assert_eq!(renderer.frames(), 0);
    renderer.render();
    renderer.render();
    assert_eq!(renderer.frames(), 2);
    let system = RenderSystem::new(renderer);
    assert_eq!(system.frames_rendered(), 2);
}

#[test]
fn engine_drives_store_and_systems() {
    let log: Rc<RefCell<Vec<(u32, u32)>>> = Rc::new(RefCell::new(Vec::new()));
    let mut engine: GameEngine<TaggedSystem> = GameEngine::new();
    let id = engine.add_entity(create_player(4, 4));
    assert_eq!(id, 0);
    engine.systems.register(TaggedSystem { tag: 1, fail_with: None, log: Rc::clone(&log) });
    let dt = 0.016f32.to_bits();
    assert_eq!(engine.update(dt), Ok(()));
    assert_eq!(*log.borrow(), vec![(1, dt)]);
    assert_eq!(engine.entities.len(), 1);
    assert!(engine.entities.get(id).is_ok());
}
