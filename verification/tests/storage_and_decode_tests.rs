use cqrs_demo::aggregate::Aggregate;
use cqrs_demo::commands::InventoryCommand;
use cqrs_demo::decode::{
    decode_detailed_row, decode_detailed_rows, decode_event_row, decode_event_rows,
};
use cqrs_demo::entity::ProductDetail;
use cqrs_demo::errors::{StoreError, ValidationError};
use cqrs_demo::event_storage::EventStorage;
use cqrs_demo::events::{EventDetailed, InventoryEvents, InventoryEventsDetailed};
use cqrs_demo::inmemory_storage::InMemory;
use cqrs_demo::notifier::{Notifier, RabbitMQNotifier};
use cqrs_demo::read::engine::Engine as ReadEngine;
use cqrs_demo::read::storage::Storage;

fn added(sku: &str, qty: i32) -> InventoryEvents {
    InventoryEvents::ProductAdded {
        sku: sku.to_string(),
        qty,
        id: None,
    }
}

#[test]
fn append_assigns_increasing_gap_free_sequences_from_one() {
    let mut storage = InMemory::new();
    storage.add_event("abc", added("abc", 1)).unwrap();
    storage.add_event("abc", added("abc", 2)).unwrap();
    storage.add_event("abc", added("abc", 3)).unwrap();

    let events = storage.get_events("abc").unwrap().unwrap();
    let ids: Vec<Option<i32>> = events
        .iter()
        .map(|e| match e {
            InventoryEvents::ProductAdded { id, .. } => *id,
            InventoryEvents::ProductSold { id, .. } => *id,
        })
        .collect();
    assert_eq!(ids, vec![Some(1), Some(2), Some(3)]);
}

#[test]
fn streams_are_independent_per_key() {
    let mut storage = InMemory::new();
    storage.add_event("a", added("a", 1)).unwrap();
    storage.add_event("b", added("b", 5)).unwrap();
    storage.add_event("a", added("a", 2)).unwrap();

    assert!(storage.stream_exists("a").unwrap());
    assert!(storage.stream_exists("b").unwrap());
    assert!(!storage.stream_exists("c").unwrap());

    let a = storage.get_events("a").unwrap().unwrap();
    assert_eq!(a.len(), 2);
    let b = storage.get_events("b").unwrap().unwrap();
    assert_eq!(b.len(), 1);
    assert!(storage.get_events("c").unwrap().is_none());
}

#[test]
fn decode_known_rows_in_order() {
    let rows = vec![
        (
            "product_added".to_string(),
            "abc".to_string(),
            3,
            1,
        ),
        (
            "product_sold".to_string(),
            "abc".to_string(),
            2,
            2,
        ),
    ];
    let events = decode_event_rows(rows).unwrap().unwrap();
    assert_eq!(
        events,
        vec![
            InventoryEvents::ProductAdded {
                sku: "abc".to_string(),
                qty: 3,
                id: Some(1),
            },
            InventoryEvents::ProductSold {
                sku: "abc".to_string(),
                qty: 2,
                id: Some(2),
            },
        ]
    );
}

#[test]
fn decode_no_rows_means_no_stream() {
    assert_eq!(decode_event_rows(vec![]), Ok(None));
}

#[test]
fn decode_unknown_tag_is_an_error_not_a_skip() {
    let rows = vec![
        (
            "product_added".to_string(),
            "abc".to_string(),
            3,
            1,
        ),
        ("product_burnt".to_string(), "abc".to_string(), 2, 2),
    ];
    assert_eq!(
        decode_event_rows(rows),
        Err(StoreError::UnknownEventKind("product_burnt".to_string()))
    );
}

#[test]
fn decode_single_row() {
    let decoded = decode_event_row("product_sold".to_string(), "xyz".to_string(), 4, 7).unwrap();
    assert_eq!(
        decoded,
        InventoryEvents::ProductSold {
            sku: "xyz".to_string(),
            qty: 4,
            id: Some(7),
        }
    );
}

#[test]
fn decode_detailed_rows_carries_descriptions() {
    let rows = vec![(
        1,
        "abc".to_string(),
        3,
        "product_added".to_string(),
        "stock was added".to_string(),
    )];
    let events = decode_detailed_rows(rows).unwrap().unwrap();
    assert_eq!(events.len(), 1);
    match &events[0] {
        InventoryEventsDetailed::ProductAdded(detail) => {
            assert_eq!(detail.id, 1);
            assert_eq!(detail.sku, "abc");
            assert_eq!(detail.qty, 3);
            assert_eq!(detail.event_type_id, "product_added");
            assert_eq!(detail.description, "stock was added");
        }
        InventoryEventsDetailed::ProductSold(_) => panic!("wrong kind"),
    }
}

#[test]
fn decode_detailed_unknown_tag_is_an_error() {
    let r = decode_detailed_row(
        1,
        "abc".to_string(),
        3,
        "product_teleported".to_string(),
        "??".to_string(),
    );
    assert_eq!(
        r,
        Err(StoreError::UnknownEventKind(
            "product_teleported".to_string()
        ))
    );
}

#[test]
fn detailed_event_converts_to_its_detail_and_bare_event() {
    let detail = EventDetailed {
        id: 9,
        sku: "abc".to_string(),
        qty: 4,
        event_type_id: "product_sold".to_string(),
        description: "stock left".to_string(),
    };
    let detailed = InventoryEventsDetailed::ProductSold(detail.clone());
    let back: EventDetailed = detailed.into();
    assert_eq!(back, detail);

    let detailed = InventoryEventsDetailed::ProductSold(detail.clone());
    let bare: InventoryEvents = detailed.into();
    assert_eq!(
        bare,
        InventoryEvents::ProductSold {
            sku: "abc".to_string(),
            qty: 4,
            id: Some(9),
        }
    );
}

#[test]
fn event_kind_tags() {
    let sold = InventoryEvents::ProductSold {
        sku: "abc".to_string(),
        qty: 1,
        id: None,
    };
    let bought = InventoryEvents::ProductAdded {
        sku: "abc".to_string(),
        qty: 1,
        id: None,
    };
    assert_eq!(sold.get_id(), "product_sold");
    assert_eq!(bought.get_id(), "product_added");
}

fn sell_cmd(sku: &str, qty: i32) -> InventoryCommand {
    InventoryCommand::SellProduct {
        sku: sku.to_string(),
        qty,
    }
}

#[test]
fn run_command_is_pure_validation() {
    let product = ProductDetail {
        sku: "abc".to_string(),
        qty: 3,
    };
    let events = product.run_command(sell_cmd("abc", 2)).unwrap();
    assert_eq!(
        events,
        vec![InventoryEvents::ProductSold {
            sku: "abc".to_string(),
            qty: 2,
            id: None,
        }]
    );
    assert_eq!(product.qty, 3);

    let rejected = product.run_command(sell_cmd("abc", 4));
    assert_eq!(
        rejected,
        Err(ValidationError::InsufficientStock {
            requested: 4,
            available: 3,
        })
    );
}

#[test]
fn aggregate_kind_is_inventory() {
    assert_eq!(
        <ProductDetail as Aggregate>::aggregate_type(),
        "Inventory"
    );
}

#[test]
fn rabbitmq_notifier_reports_no_connection() {
    let n = RabbitMQNotifier {};
    assert!(n.notify_event("abc", "product_added").is_err());
}

struct Canned;

impl Storage for Canned {
    fn get_events(
        &mut self,
        key: &str,
    ) -> Result<Option<Vec<InventoryEventsDetailed>>, StoreError> {
        if key == "abc" {
            Ok(Some(vec![InventoryEventsDetailed::ProductAdded(
                EventDetailed {
                    id: 1,
                    sku: "abc".to_string(),
                    qty: 3,
                    event_type_id: "product_added".to_string(),
                    description: "stock was added".to_string(),
                },
            )]))
        } else {
            Ok(None)
        }
    }
}

#[test]
fn read_engine_hands_history_through() {
    let mut engine = ReadEngine::new(Canned);
    let events = engine.get_events("abc").unwrap().unwrap();
    assert_eq!(events.len(), 1);
    assert!(engine.get_events("nope").unwrap().is_none());
}
