use std::path::PathBuf;
use std::sync::Arc;
use wfm_rs::inventory::{
    is_same_item, matches_search, name_matches, rows_shown, search_items, Inventory,
    InventoryEntry,
};
use wfm_rs::jobs::{
    finished_text, get_market_statistics_storage_key, item_orders_storage_key,
    item_orders_valid_for, manifest_due, orders_loaded_text, pending_storage_key,
    profile_orders_due, show_until_storage_key, timestamp_storage_key, JobState,
    WarframeMarketManifest, WFM_MANIFEST_MAX_AGE,
};
use wfm_rs::ledger::{
    Ledger, Timestamp, Transaction, TransactionId, TransactionItem, TransactionShortItem,
    TransactionUser,
};
use wfm_rs::model::User;
use wfm_rs::platinum::Platinum;
use wfm_rs::response::{Order, OrderUser, ShortItem};
use wfm_rs::shared::{OrderType, Platform};
use wfm_rs::util::{
    clone_option_with_inner_ref, config_path_under, data_path_under, NoHomeDirectory,
};
use wfm_rs::windows::{
    auth_step, book_rows, latest_notification, live_view_label, order_row, spinner_step,
    split_book, AuthStep, ErrorPopup, InvalidPrice, InventoryApp, Notification, PlaceOrderPopup,
    SpinnerStep, TestApp,
};

fn item(name: &str, id: &str) -> ShortItem {
    ShortItem {
        url_name: name.to_lowercase().replace(' ', "_"),
        thumb: format!("{}.png", id),
        id: id.to_string(),
        item_name: name.to_string(),
    }
}

fn entry(name: &str, id: &str, amount: u16) -> InventoryEntry {
    InventoryEntry { item: item(name, id), amount }
}

fn order(id: &str, units: u64, kind: OrderType) -> Order {
    Order {
        quantity: 1,
        user: OrderUser {
            reputation: 0,
            region: "en".to_string(),
            ingame_name: "n".to_string(),
            status: "online".to_string(),
            id: "u".to_string(),
        },
        visible: true,
        last_update: "l".to_string(),
        creation_date: "c".to_string(),
        platinum: Platinum::from_units(units),
        platform: Platform::Pc,
        order_type: kind,
        region: "en".to_string(),
        id: id.to_string(),
    }
}

fn trade(what: &str, price: u32) -> Transaction {
    Transaction::new(
        TransactionItem::Other(what.to_string()),
        TransactionUser { id: "u9".to_string(), ingame_name: "Buyer".to_string() },
        price,
        OrderType::Sell,
        Timestamp { seconds: 1700000000, nanos: 5, offset_seconds: 3600 },
    )
}

#[test]
fn the_ledger_numbers_its_trades() {
    let mut ledger = Ledger::default();
    assert_eq!(ledger.transaction_id_counter(), 0);
    let first = trade("relic", 10);
    assert_eq!(first.transaction_id, TransactionId(0));
    ledger.submit_transaction(first);
    let mut second = Transaction::new(
        TransactionItem::Item(TransactionShortItem {
            id: "54a7".to_string(),
            item_name: "Nikana".to_string(),
        }),
        TransactionUser { id: "u9".to_string(), ingame_name: "Buyer".to_string() },
        25,
        OrderType::Buy,
        Timestamp { seconds: 1, nanos: 0, offset_seconds: 0 },
    );
    second.transaction_id = TransactionId(77);
    ledger.submit_transaction(second);
    assert_eq!(ledger.transaction_id_counter(), 2);
    let ids: Vec<u64> = ledger.transactions().iter().map(|t| t.transaction_id.0).collect();
    assert_eq!(ids, vec![1, 2]);
    assert_eq!(ledger.transactions[0].price, 10);
    assert_eq!(ledger.transactions[1].kind, OrderType::Buy);
    let mut kept = Ledger::from_parts(41, vec![]);
    kept.submit_transaction(trade("mod", 3));
    assert_eq!(kept.transactions[0].transaction_id.label(), "TRX-42");
    assert_eq!(TransactionId(0).label(), "TRX-0");
    assert_eq!(TransactionId(u64::MAX).label(), "TRX-18446744073709551615");
}

#[test]
fn the_inventory_adds_up_what_is_put_in() {
    let mut inventory = Inventory::new();
    assert!(inventory.is_empty());
    inventory.insert_item(item("Nikana", "1"), 2);
    inventory.insert_item(item("Skana", "2"), 1);
    inventory.insert_item(item("Nikana", "1"), 5);
    inventory.insert_item(item("Nikana", "other"), 1);
    assert_eq!(
        inventory.entries(),
        &vec![entry("Nikana", "1", 7), entry("Skana", "2", 1), entry("Nikana", "other", 1)]
    );
    assert_eq!(inventory.amount_of(&item("Nikana", "1")), 7);
    assert_eq!(inventory.amount_of(&item("Bo", "3")), 0);
    assert_eq!(inventory.find(&item("Skana", "2")), Some(1));
    assert_eq!(inventory.find(&item("Skana", "9")), None);
    assert!(is_same_item(&item("Skana", "2"), &item("Skana", "2")));
    assert!(!is_same_item(&item("Skana", "2"), &item("Skana", "3")));
}

#[test]
fn cleanup_removes_what_is_used_up() {
    let mut inventory = Inventory::new();
    inventory.insert_item(item("Nikana", "1"), 1);
    inventory.insert_item(item("Skana", "2"), 0);
    inventory.insert_item(item("Bo", "3"), 4);
    assert!(inventory.set_amount(0, 0));
    assert!(!inventory.set_amount(3, 9));
    assert!(inventory.set_amount(2, 5));
    inventory.cleanup();
    assert_eq!(inventory.entries(), &vec![entry("Bo", "3", 5)]);
    inventory.cleanup();
    assert_eq!(inventory.entries(), &vec![entry("Bo", "3", 5)]);
}

#[test]
fn a_search_finds_names_that_hold_it_in_lower_case() {
    let items = vec![item("Ash Prime Systems", "1"), item("Nikana", "2"), item("ASH", "3")];
    assert!(matches_search(&items[0], "ash"));
    assert!(matches_search(&items[0], "prime sys"));
    assert!(!matches_search(&items[0], "Ash"));
    assert!(matches_search(&items[1], ""));
    assert!(name_matches("ash prime", "sh p"));
    assert_eq!(search_items(&items, "ash"), vec![0, 2]);
    assert_eq!(search_items(&items, "a"), vec![0, 1, 2]);
    assert_eq!(search_items(&items, "volt"), Vec::<usize>::new());
    assert_eq!(rows_shown(3), 3);
    assert_eq!(rows_shown(15), 15);
    assert_eq!(rows_shown(400), 15);
}

#[test]
fn results_are_kept_under_keys() {
    let nikana = item("Nikana", "54a7");
    assert_eq!(item_orders_storage_key(&nikana), "item_orders_Nikana_54a7");
    assert_eq!(get_market_statistics_storage_key(&nikana), "market_statistics_Nikana_54a7");
    assert_eq!(pending_storage_key("item_orders_Nikana_54a7"), "item_orders_Nikana_54a7_pending");
    assert_eq!(timestamp_storage_key("k"), "k_timestamp");
    assert_eq!(show_until_storage_key("wfm_manifest_pending"), "wfm_manifest_pending-show-until");
    assert_eq!(finished_text("Loading", None), "Loading finished");
    assert_eq!(finished_text("Loading", Some("Done")), "Done");
    assert_eq!(orders_loaded_text(3, 12), ", loaded 3s/12b orders");
}

#[test]
fn jobs_run_when_their_results_are_due() {
    assert_eq!(item_orders_valid_for(0), Some(60));
    assert_eq!(item_orders_valid_for(59), Some(1));
    assert_eq!(item_orders_valid_for(60), None);
    assert_eq!(item_orders_valid_for(3600), None);
    assert!(profile_orders_due(false, None));
    assert!(profile_orders_due(false, Some(1)));
    assert!(!profile_orders_due(true, None));
    assert!(!profile_orders_due(true, Some(120)));
    assert!(profile_orders_due(true, Some(121)));
    assert!(manifest_due(true, false));
    assert!(!manifest_due(true, true));
    assert!(!manifest_due(false, false));
    let manifest = WarframeMarketManifest { timestamp: 1000, items: Arc::new(vec![item("Bo", "1")]) };
    assert!(manifest.is_fresh(1000));
    assert!(manifest.is_fresh(999 + WFM_MANIFEST_MAX_AGE));
    assert!(!manifest.is_fresh(1000 + WFM_MANIFEST_MAX_AGE));
    let copy = manifest.clone();
    assert_eq!(copy.timestamp, 1000);
    assert!(Arc::ptr_eq(&copy.items, &manifest.items));
}

#[test]
fn job_states_compare_by_where_they_stand() {
    let done_ok: JobState<u8> = JobState::Done(Ok(1));
    let done_err: JobState<u8> = JobState::Done(Err("no".to_string()));
    assert!(done_ok == done_err);
    assert!(JobState::<u8>::Idle == JobState::default());
    assert!(JobState::<u8>::Pending == JobState::Pending);
    assert!(JobState::<u8>::Idle != JobState::Pending);
    assert!(done_ok != JobState::Idle);
    assert!(JobState::Pending != done_err);
}

#[test]
fn the_error_window_closes_when_acknowledged() {
    let mut popup = ErrorPopup::new("Oops", "It broke");
    assert_eq!(popup.window_title(), "Oops");
    assert_eq!(popup.message(), "It broke");
    assert!(popup.show_close_button());
    assert!(!popup.should_close());
    popup.acknowledge();
    assert!(popup.should_close());
    assert_eq!(popup.window_title(), "Oops");
}

#[test]
fn the_order_window_reads_the_price() {
    let mut popup = PlaceOrderPopup::new(item("Nikana", "1"), OrderType::Sell);
    assert_eq!(popup.window_title(), "Placing order for Nikana");
    assert_eq!(popup.item(), &item("Nikana", "1"));
    assert_eq!(popup.kind(), OrderType::Sell);
    assert_eq!(popup.price_text(), "");
    assert_eq!(popup.price(), Err(InvalidPrice));
    popup.set_price_text("120");
    assert_eq!(popup.price(), Ok(120));
    popup.set_price_text("12.5");
    assert_eq!(popup.price(), Err(InvalidPrice));
    popup.set_price_text("18446744073709551616");
    assert_eq!(popup.price(), Err(InvalidPrice));
    popup.set_kind(OrderType::Buy);
    assert_eq!(popup.kind(), OrderType::Buy);
    assert_eq!(popup.price_text(), "18446744073709551616");
}

#[test]
fn the_book_is_split_into_its_sides() {
    let book = vec![
        order("a", 30, OrderType::Sell),
        order("b", 10, OrderType::Buy),
        order("c", 20, OrderType::Sell),
        order("d", 15, OrderType::Buy),
        order("e", 10, OrderType::Buy),
        order("f", 20, OrderType::Sell),
    ];
    let (sells, buys) = split_book(&book);
    let ids = |orders: &Vec<Order>| -> Vec<String> { orders.iter().map(|o| o.id.clone()).collect() };
    assert_eq!(ids(&sells), vec!["c", "f", "a"]);
    assert_eq!(ids(&buys), vec!["d", "e", "b"]);
    assert_eq!(book_rows(sells.len(), buys.len()), 3);
    assert_eq!(book_rows(2, 5), 5);
    assert_eq!(split_book(&vec![]), (vec![], vec![]));
}

#[test]
fn windows_have_titles() {
    assert_eq!(InventoryApp { search_field: String::new() }.window_title(), "Inventory");
    assert_eq!(TestApp {}.window_title(), "Test window");
}

#[test]
fn notes_keep_who_said_what() {
    let note = Notification::new("WIM", "Application initialized");
    assert_eq!(note.source, "WIM");
    assert_eq!(note.message, "Application initialized");
    let later = Notification::new("WFM", "Orders loaded");
    assert!(later.timestamp >= note.timestamp);
    let notes = vec![note, later];
    assert_eq!(latest_notification(&notes).map(|n| n.message.as_str()), Some("Orders loaded"));
    assert!(latest_notification(&vec![]).is_none());
    let moment = std::time::Instant::now();
    let dated = Notification::at("WIM", "Saved", moment);
    assert_eq!(dated.timestamp, moment);
    assert_eq!(dated.source, "WIM");
    assert_eq!(dated.message, "Saved");
}

#[test]
fn a_spinner_shows_the_end_of_its_job_for_a_while() {
    assert_eq!(spinner_step(true, None, 5000), SpinnerStep::Stay);
    assert_eq!(spinner_step(false, None, 5000), SpinnerStep::ShowFinished);
    assert_eq!(spinner_step(false, None, 0), SpinnerStep::Close);
    assert_eq!(spinner_step(false, Some(4999), 5000), SpinnerStep::Stay);
    assert_eq!(spinner_step(false, Some(5000), 5000), SpinnerStep::Close);
    assert_eq!(spinner_step(true, Some(1), 5000), SpinnerStep::Stay);
}

#[test]
fn the_sign_in_window_follows_the_sign_in() {
    assert!(matches!(auth_step(&JobState::Idle), AuthStep::Form { error: None }));
    assert!(matches!(auth_step(&JobState::Pending), AuthStep::Waiting));
    let user = User::_from_jwt_token("JWT t", "Tenno");
    match auth_step(&JobState::Done(Ok(user.clone()))) {
        AuthStep::SignedIn { user: signed_in } => assert!(signed_in == user),
        other => panic!("expected a signed-in account, got {:?}", other),
    }
    match auth_step(&JobState::Done(Err("wrong password".to_string()))) {
        AuthStep::Form { error } => {
            assert_eq!(error, Some("Authentication error: wrong password".to_string()))
        }
        other => panic!("expected the form, got {:?}", other),
    }
}

#[test]
fn orders_are_listed_with_rounded_prices() {
    let row = |price: Platinum| order_row("SELL  ", "Nikana", price, "54a7");
    assert_eq!(row(Platinum::from_units(12)), Some("SELL  Nikana [12 platinum] [ID 54a7]".to_string()));
    let half = 1u64 << 63;
    assert_eq!(Platinum { units: 12, fraction: half }.rounded(), Some(12));
    assert_eq!(Platinum { units: 13, fraction: half }.rounded(), Some(14));
    assert_eq!(Platinum { units: 12, fraction: half + 1 }.rounded(), Some(13));
    assert_eq!(Platinum { units: 12, fraction: half - 1 }.rounded(), Some(12));
    assert_eq!(Platinum { units: u64::MAX, fraction: half }.rounded(), None);
    assert_eq!(row(Platinum { units: u64::MAX, fraction: half }), None);
    for price in [12.0f64, 12.5, 13.5, 0.49, 7.51, 2.5000001] {
        let platinum = Platinum {
            units: price.trunc() as u64,
            fraction: (price.fract() * 18446744073709551616.0) as u64,
        };
        assert_eq!(
            row(platinum),
            Some(format!("SELL  Nikana [{:.0} platinum] [ID 54a7]", price))
        );
    }
    assert_eq!(live_view_label(3, 14), "3 buy/14 sell orders");
}

#[test]
fn the_data_is_kept_under_the_home_directory() {
    assert_eq!(data_path_under(None), Err(NoHomeDirectory));
    assert_eq!(config_path_under(None), Err(NoHomeDirectory));
    assert_eq!(NoHomeDirectory.message(), "Failed to find home directory!");
    assert_eq!(data_path_under(Some("/home/tenno")), Ok("/home/tenno/.wfm_cli/".to_string()));
    assert_eq!(
        config_path_under(Some("/home/tenno")),
        Ok("/home/tenno/.wfm_cli/config.wfm.json".to_string())
    );
    assert_eq!(data_path_under(Some("/")), Ok("/.wfm_cli/".to_string()));
    assert_eq!(config_path_under(Some("")), Ok(".wfm_cli/config.wfm.json".to_string()));
    assert_eq!(wfm_rs::util::join_path("a", "b"), "a/b");
    assert_eq!(wfm_rs::util::join_path("a/", "b"), "a/b");
    assert_eq!(wfm_rs::util::join_path("", "b"), "b");
    assert_eq!(wfm_rs::util::join_path("a", ""), "a/");
}

#[test]
fn the_paths_as_text_are_the_paths_built_segment_by_segment() {
    for home in ["/home/tenno", "/home/tenno/", "/", "", "relative/dir", "/a b/ü"] {
        let mut built = PathBuf::from(home);
        built.push(wfm_rs::util::DATA_PATH_SUFFIX);
        assert_eq!(data_path_under(Some(home)).map(PathBuf::from), Ok(built.clone()));
        assert_eq!(data_path_under(Some(home)).ok(), built.to_str().map(|text| text.to_string()));
        built.push(wfm_rs::util::DATA_CONFIG_FILE);
        assert_eq!(config_path_under(Some(home)).ok(), built.to_str().map(|text| text.to_string()));
    }
}

#[test]
fn the_paths_of_this_user_lie_under_the_home_directory() {
    match home::home_dir() {
        Some(dir) => {
            let mut expected = dir.clone();
            expected.push(".wfm_cli/");
            assert_eq!(wfm_rs::util::data_path(), Ok(expected.clone()));
            expected.push("config.wfm.json");
            assert_eq!(wfm_rs::util::config_path(), Ok(expected));
        }
        None => {
            assert_eq!(wfm_rs::util::data_path(), Err(NoHomeDirectory));
            assert_eq!(wfm_rs::util::config_path(), Err(NoHomeDirectory));
        }
    }
}

#[test]
fn an_option_of_a_reference_is_copied() {
    let text = "abc".to_string();
    assert_eq!(clone_option_with_inner_ref(Some(&text)), Some("abc".to_string()));
    assert_eq!(clone_option_with_inner_ref::<String>(None), None);
    assert_eq!(clone_option_with_inner_ref(Some(&7u8)), Some(7));
}

#[test]
fn jobs_are_refused_while_their_like_is_under_way() {
    assert_eq!(
        wfm_rs::jobs::guard_pending(true),
        Err(wfm_rs::jobs::JobRefusal::AlreadyPending)
    );
    assert_eq!(wfm_rs::jobs::guard_pending(false), Ok(()));
    let still = wfm_rs::jobs::JobRefusal::StillValid { seconds: 59 };
    assert_eq!(wfm_rs::jobs::guard_item_orders(Some(1), false), Err(still));
    assert_eq!(wfm_rs::jobs::guard_item_orders(Some(1), true), Err(still));
    assert_eq!(
        wfm_rs::jobs::guard_item_orders(Some(60), true),
        Err(wfm_rs::jobs::JobRefusal::AlreadyPending)
    );
    assert_eq!(wfm_rs::jobs::guard_item_orders(Some(60), false), Ok(()));
    assert_eq!(wfm_rs::jobs::guard_item_orders(None, false), Ok(()));
    assert_eq!(
        wfm_rs::jobs::guard_item_orders(None, true),
        Err(wfm_rs::jobs::JobRefusal::AlreadyPending)
    );
    assert_eq!(
        wfm_rs::jobs::guard_market_statistics(true, true),
        Err(wfm_rs::jobs::JobRefusal::AlreadyPending)
    );
    assert_eq!(
        wfm_rs::jobs::guard_market_statistics(false, true),
        Err(wfm_rs::jobs::JobRefusal::AlreadyLoaded)
    );
    assert_eq!(wfm_rs::jobs::guard_market_statistics(false, false), Ok(()));
}

#[test]
fn the_top_bar_says_who_is_signed_in() {
    assert_eq!(
        wfm_rs::jobs::signed_in_text(Some("Tenno"), ", loaded 1s/2b orders"),
        "Signed in as Tenno, loaded 1s/2b orders"
    );
    assert_eq!(wfm_rs::jobs::signed_in_text(Some("Tenno"), ""), "Signed in as Tenno");
    assert_eq!(wfm_rs::jobs::signed_in_text(None, "x"), "Not signed in to warframe.market");
    assert_eq!(wfm_rs::jobs::status_to_keep(false, None::<u8>), Some(None));
    assert_eq!(wfm_rs::jobs::status_to_keep(false, Some(3u8)), Some(Some(3)));
    assert_eq!(wfm_rs::jobs::status_to_keep(true, Some(3u8)), Some(Some(3)));
    assert_eq!(wfm_rs::jobs::status_to_keep(true, None::<u8>), None);
}

#[test]
fn the_clock_counts_seconds_since_1970() {
    let first = wfm_rs::util::unix_timestamp().unwrap();
    let second = wfm_rs::util::get_unix_timestamp().unwrap();
    assert!(first > 1_600_000_000);
    assert!(second >= first && second - first < 60);
}

#[test]
fn a_copy_of_the_inventory_holds_the_same() {
    let mut inventory = Inventory::new();
    inventory.insert_item(item("Nikana", "1"), 2);
    inventory.insert_item(item("Bo", "2"), 3);
    let copy = inventory.clone();
    assert_eq!(copy, inventory);
    inventory.insert_item(item("Bo", "2"), 1);
    assert_eq!(copy.amount_of(&item("Bo", "2")), 3);
    assert_eq!(inventory.amount_of(&item("Bo", "2")), 4);
}

#[test]
fn an_answer_of_the_clock_becomes_a_timestamp() {
    let epoch = std::time::SystemTime::UNIX_EPOCH;
    let later = epoch + std::time::Duration::from_secs(90);
    let refusal = epoch.duration_since(later).map(|elapsed| elapsed.as_secs());
    assert!(refusal.is_err());
    assert_eq!(wfm_rs::util::timestamp_from_clock(refusal), Err(wfm_rs::util::ClockBeforeEpoch));
    let answer = later.duration_since(epoch).map(|elapsed| elapsed.as_secs());
    assert_eq!(wfm_rs::util::timestamp_from_clock(answer), Ok(90));
    assert_eq!(wfm_rs::util::timestamp_if_any(Ok(90)), Some(90));
    assert_eq!(wfm_rs::util::timestamp_if_any(Err(wfm_rs::util::ClockBeforeEpoch)), None);
}
