use cqrs_demo::commands::InventoryCommand;
use cqrs_demo::engine::Engine;
use cqrs_demo::errors::{EngineError, ValidationError};
use cqrs_demo::inmemory_storage::InMemory;
use cqrs_demo::notifier::{MemoryNotifier, RabbitMQNotifier};

use crossbeam_channel::{unbounded, Receiver, Sender};

#[test]
fn execute_cmd_test() {
    let storage = InMemory::new();
    let mut engine: Engine<InMemory, RabbitMQNotifier> = Engine::new(storage, None);
    let cmd = InventoryCommand::AddProduct {
        sku: "abc".to_string(),
        qty: 3,
    };
    let result = engine.execute(cmd);
    assert!(result.is_ok());

    let product = engine.get_product("abc").unwrap();
    assert!(product.is_some());
    let product = product.unwrap();
    assert_eq!(product.sku, "abc");
    assert_eq!(product.qty, 3);

    let cmd = InventoryCommand::AddProduct {
        sku: "abc".to_string(),
        qty: 5,
    };
    let result = engine.execute(cmd);
    assert!(result.is_ok());
    let product = engine.get_product("abc").unwrap().unwrap();
    assert_eq!(product.sku, "abc");
    assert_eq!(product.qty, 8);

    let cmd = InventoryCommand::SellProduct {
        sku: "abc".to_string(),
        qty: 2,
    };
    let result = engine.execute(cmd);
    assert!(result.is_ok());
    let product = engine.get_product("abc").unwrap().unwrap();
    assert_eq!(product.sku, "abc");
    assert_eq!(product.qty, 6);
}

#[test]
fn engine_execute_cmd_test() {
    let storage = InMemory::new();
    let mut engine: Engine<InMemory, RabbitMQNotifier> = Engine::new(storage, None);
    let cmd = InventoryCommand::AddProduct {
        sku: "abc".to_string(),
        qty: 3,
    };
    let result = engine.execute(cmd);
    assert!(result.is_ok());

    let product = engine.get_product("abc").unwrap();
    assert!(product.is_some());
    let product = product.unwrap();
    assert_eq!(product.sku, "abc");
    assert_eq!(product.qty, 3);

    let cmd = InventoryCommand::AddProduct {
        sku: "abc".to_string(),
        qty: 5,
    };
    let result = engine.execute(cmd);
    assert!(result.is_ok());
    let product = engine.get_product("abc").unwrap().unwrap();
    assert_eq!(product.sku, "abc");
    assert_eq!(product.qty, 8);

    let cmd = InventoryCommand::SellProduct {
        sku: "abc".to_string(),
        qty: 2,
    };
    let result = engine.execute(cmd);
    assert!(result.is_ok());
    let product = engine.get_product("abc").unwrap().unwrap();
    assert_eq!(product.sku, "abc");
    assert_eq!(product.qty, 6);
}

#[test]
fn get_product_with_no_events_test() {
    let storage = InMemory::new();
    let mut engine: Engine<InMemory, RabbitMQNotifier> = Engine::new(storage, None);
    let product = engine.get_product("abc").unwrap();
    assert!(product.is_none());
}

#[test]
fn engine_get_product_with_no_events_test() {
    let storage = InMemory::new();
    let mut engine: Engine<InMemory, RabbitMQNotifier> = Engine::new(storage, None);
    let product = engine.get_product("abc").unwrap();
    assert!(product.is_none());
}

#[test]
fn sell_unavailable_product() {
    let storage = InMemory::new();
    let mut engine: Engine<InMemory, RabbitMQNotifier> = Engine::new(storage, None);
    let cmd = InventoryCommand::AddProduct {
        sku: "abc".to_string(),
        qty: 3,
    };
    let _ = engine.execute(cmd);

    let product = engine.get_product("abc").unwrap().unwrap();
    assert_eq!(product.sku, "abc");
    assert_eq!(product.qty, 3);

    let cmd = InventoryCommand::SellProduct {
        sku: "abc".to_string(),
        qty: 10,
    };
    let result = engine.execute(cmd);
    assert!(result.is_err());

    let product = engine.get_product("abc").unwrap().unwrap();
    assert_eq!(product.sku, "abc");
    assert_eq!(product.qty, 3);
}

#[test]
fn engine_sell_unavailable_product() {
    let storage = InMemory::new();
    let mut engine: Engine<InMemory, RabbitMQNotifier> = Engine::new(storage, None);
    let cmd = InventoryCommand::AddProduct {
        sku: "abc".to_string(),
        qty: 3,
    };
    let _ = engine.execute(cmd);

    let product = engine.get_product("abc").unwrap().unwrap();
    assert_eq!(product.sku, "abc");
    assert_eq!(product.qty, 3);

    let cmd = InventoryCommand::SellProduct {
        sku: "abc".to_string(),
        qty: 10,
    };
    let result = engine.execute(cmd);
    assert!(result.is_err());

    let product = engine.get_product("abc").unwrap().unwrap();
    assert_eq!(product.sku, "abc");
    assert_eq!(product.qty, 3);
}

#[test]
fn execute_cmd_with_notification_test() {
    let storage = InMemory::new();
    let (tx_memory, rx): (Sender<(String, String)>, Receiver<(String, String)>) = unbounded();

    let memory_notification = MemoryNotifier { sender: tx_memory };

    let mut engine: Engine<InMemory, MemoryNotifier> =
        Engine::new(storage, Some(memory_notification));

    let cmd = InventoryCommand::AddProduct {
        sku: "abc".to_string(),
        qty: 5,
    };
    let result = engine.execute(cmd);
    assert!(result.is_ok());

    let cmd = InventoryCommand::SellProduct {
        sku: "abc".to_string(),
        qty: 2,
    };
    let result = engine.execute(cmd);
    if let Err(err) = result {
        println!("1 {:?}", err)
    }

    let cmd = InventoryCommand::SellProduct {
        sku: "abc".to_string(),
        qty: 1,
    };
    let result = engine.execute(cmd);
    if let Err(err) = result {
        println!("2 {:?}", err)
    }

    drop(engine);
    let notifications: Vec<(String, String)> = rx.iter().collect();
    assert_eq!(
        notifications,
        vec![
            ("abc".to_owned(), "product_added".to_owned()),
            ("abc".to_owned(), "product_sold".to_owned()),
            ("abc".to_owned(), "product_sold".to_owned()),
        ]
    );
}

#[test]
fn sell_more_than_available_reports_both_quantities() {
    let storage = InMemory::new();
    let mut engine: Engine<InMemory, RabbitMQNotifier> = Engine::new(storage, None);
    let cmd = InventoryCommand::AddProduct {
        sku: "sku1".to_string(),
        qty: 3,
    };
    assert!(engine.execute(cmd).is_ok());

    let cmd = InventoryCommand::SellProduct {
        sku: "sku1".to_string(),
        qty: 10,
    };
    let result = engine.execute(cmd);
    assert_eq!(
        result,
        Err(EngineError::Validation(ValidationError::InsufficientStock {
            requested: 10,
            available: 3,
        }))
    );

    let product = engine.get_product("sku1").unwrap().unwrap();
    assert_eq!(product.qty, 3);
}

#[test]
fn serialized_overdraw_attempts_cannot_both_succeed() {
    // Two removals of one unit race for a single unit of stock. The engine
    // serializes them (it is taken exclusively per call), so the first
    // wins and the second is rejected; the quantity never goes negative.
    let storage = InMemory::new();
    let mut engine: Engine<InMemory, RabbitMQNotifier> = Engine::new(storage, None);
    let cmd = InventoryCommand::AddProduct {
        sku: "sku1".to_string(),
        qty: 1,
    };
    assert!(engine.execute(cmd).is_ok());

    let first = engine.execute(InventoryCommand::SellProduct {
        sku: "sku1".to_string(),
        qty: 1,
    });
    let second = engine.execute(InventoryCommand::SellProduct {
        sku: "sku1".to_string(),
        qty: 1,
    });

    assert!(first.is_ok());
    assert_eq!(
        second,
        Err(EngineError::Validation(ValidationError::InsufficientStock {
            requested: 1,
            available: 0,
        }))
    );
    let product = engine.get_product("sku1").unwrap().unwrap();
    assert_eq!(product.qty, 0);
}

#[test]
fn add_beyond_counter_capacity_is_rejected() {
    let storage = InMemory::new();
    let mut engine: Engine<InMemory, RabbitMQNotifier> = Engine::new(storage, None);
    let cmd = InventoryCommand::AddProduct {
        sku: "big".to_string(),
        qty: i32::MAX,
    };
    assert!(engine.execute(cmd).is_ok());

    let result = engine.execute(InventoryCommand::AddProduct {
        sku: "big".to_string(),
        qty: 1,
    });
    assert_eq!(
        result,
        Err(EngineError::Validation(ValidationError::QuantityOverflow {
            requested: 1,
            available: i32::MAX,
        }))
    );
    let product = engine.get_product("big").unwrap().unwrap();
    assert_eq!(product.qty, i32::MAX);
}

#[test]
fn notifier_failure_does_not_fail_execute() {
    let storage = InMemory::new();
    let (tx, rx): (Sender<(String, String)>, Receiver<(String, String)>) = unbounded();
    drop(rx);
    let mut engine: Engine<InMemory, MemoryNotifier> =
        Engine::new(storage, Some(MemoryNotifier { sender: tx }));

    let result = engine.execute(InventoryCommand::AddProduct {
        sku: "abc".to_string(),
        qty: 2,
    });
    assert!(result.is_ok());
    let product = engine.get_product("abc").unwrap().unwrap();
    assert_eq!(product.qty, 2);
}
