use wfm_rs::book::{competitors, order_is_competitor, sort_by_price};
use wfm_rs::decision::Decision;
use wfm_rs::platinum::Platinum;
use wfm_rs::response::{
    ExistingProfileOrder, ExistingProfileOrderItem, Order, OrderUser, ShortItemLocale,
};
use wfm_rs::scanner::{attach_decision, classify, scan_order, OrderStatus, Scan};
use wfm_rs::shared::{OrderType, Platform};

fn p(units: u64) -> Platinum {
    Platinum::from_units(units)
}

fn listing(id: &str, price: Platinum, status: &str, kind: OrderType) -> Order {
    Order {
        quantity: 1,
        user: OrderUser {
            reputation: 3,
            region: "en".to_string(),
            ingame_name: format!("seller-{}", id),
            status: status.to_string(),
            id: format!("user-{}", id),
        },
        visible: true,
        last_update: "2023-01-01T00:00:00.000+00:00".to_string(),
        creation_date: "2023-01-01T00:00:00.000+00:00".to_string(),
        platinum: price,
        platform: Platform::Pc,
        order_type: kind,
        region: "en".to_string(),
        id: id.to_string(),
    }
}

fn sell(id: &str, units: u64) -> Order {
    listing(id, p(units), "ingame", OrderType::Sell)
}

fn name(text: &str) -> ShortItemLocale {
    ShortItemLocale { item_name: text.to_string() }
}

fn own(id: &str, price: Platinum) -> ExistingProfileOrder {
    ExistingProfileOrder {
        quantity: 2,
        last_update: "2023-01-01T00:00:00.000+00:00".to_string(),
        platinum: price,
        order_type: OrderType::Sell,
        region: "en".to_string(),
        item: ExistingProfileOrderItem {
            quantity_for_set: None,
            ducats: Some(45),
            id: "item-1".to_string(),
            url_name: "ash_prime_systems".to_string(),
            icon: "icon.png".to_string(),
            thumb: "thumb.png".to_string(),
            icon_format: "land".to_string(),
            tags: vec!["prime".to_string()],
            sub_icon: None,
            en: name("Ash Prime Systems"),
            ru: name("Ash Prime Systems"),
            ko: name("Ash Prime Systems"),
            fr: name("Ash Prime Systems"),
            sv: name("Ash Prime Systems"),
            de: name("Ash Prime Systems"),
            zh_hant: name("Ash Prime Systems"),
            zh_hans: name("Ash Prime Systems"),
            pt: name("Ash Prime Systems"),
            es: name("Ash Prime Systems"),
            pl: name("Ash Prime Systems"),
        },
        id: id.to_string(),
        platform: Platform::Pc,
        creation_date: "2023-01-01T00:00:00.000+00:00".to_string(),
        visible: true,
    }
}

#[test]
fn undercut_by_one_cheaper_competitor() {
    let status = classify(&own("X", p(50)), vec![sell("a", 30), sell("b", 55)]);
    assert_eq!(status, OrderStatus::Undercut { below: vec![sell("a", 30)], pos: (2, 2) });
}

#[test]
fn lowest_when_only_own_listing_is_at_the_price() {
    let status = classify(&own("X", p(50)), vec![sell("X", 50), sell("b", 60)]);
    assert_eq!(status, OrderStatus::Lowest { above: vec![sell("b", 60)] });
}

#[test]
fn shared_lowest_counts_own_listing_once() {
    let status = classify(&own("X", p(50)), vec![sell("X", 50), sell("Y", 50), sell("c", 70)]);
    assert_eq!(status, OrderStatus::SharedLowest { count: 2 });
}

#[test]
fn undercut_by_two_takes_third_rank() {
    let status = classify(&own("X", p(50)), vec![sell("a", 30), sell("b", 30), sell("c", 60)]);
    assert_eq!(
        status,
        OrderStatus::Undercut { below: vec![sell("a", 30), sell("b", 30)], pos: (3, 3) }
    );
}

#[test]
fn undercut_shares_ranks_with_listings_at_own_price() {
    let book = vec![sell("b", 50), sell("a", 30), sell("X", 50), sell("c", 50), sell("d", 80)];
    let status = classify(&own("X", p(50)), book);
    assert_eq!(status, OrderStatus::Undercut { below: vec![sell("a", 30)], pos: (2, 4) });
}

#[test]
fn undercut_when_every_competitor_is_cheaper() {
    let status = classify(&own("X", p(50)), vec![sell("a", 40), sell("b", 30)]);
    assert_eq!(
        status,
        OrderStatus::Undercut { below: vec![sell("b", 30), sell("a", 40)], pos: (3, 3) }
    );
}

#[test]
fn undercut_has_as_many_below_as_ranks_before() {
    let books = vec![
        vec![sell("a", 1)],
        vec![sell("a", 49), sell("b", 50), sell("c", 51)],
        vec![sell("a", 10), sell("b", 10), sell("c", 10), sell("X", 50)],
        vec![sell("c", 70), sell("b", 20), sell("a", 60), sell("d", 20)],
    ];
    for book in books {
        match classify(&own("X", p(50)), book) {
            OrderStatus::Undercut { below, pos } => {
                assert!(pos.0 <= pos.1);
                assert_eq!(below.len(), pos.0 - 1);
                assert!(below.iter().all(|o| o.platinum < p(50)));
            }
            other => panic!("expected an undercut listing, got {:?}", other),
        }
    }
}

#[test]
fn lowest_without_any_competitor() {
    let status = classify(&own("X", p(50)), vec![]);
    assert_eq!(status, OrderStatus::Lowest { above: vec![] });
}

#[test]
fn lowest_when_own_listing_is_not_in_the_book() {
    let status = classify(&own("X", p(50)), vec![sell("b", 60), sell("a", 55)]);
    assert_eq!(status, OrderStatus::Lowest { above: vec![sell("a", 55), sell("b", 60)] });
}

#[test]
fn lowest_leaves_own_listing_out_of_above() {
    let status = classify(&own("X", p(50)), vec![sell("c", 90), sell("X", 50), sell("b", 60)]);
    match status {
        OrderStatus::Lowest { above } => {
            assert!(above.iter().all(|o| o.id != "X"));
            assert_eq!(above, vec![sell("b", 60), sell("c", 90)]);
        }
        other => panic!("expected the lowest listing, got {:?}", other),
    }
}

#[test]
fn shared_lowest_counts_own_listing_that_is_not_in_the_book() {
    let status = classify(&own("X", p(50)), vec![sell("Y", 50), sell("Z", 50)]);
    assert_eq!(status, OrderStatus::SharedLowest { count: 3 });
}

#[test]
fn fractions_of_platinum_decide() {
    let half = Platinum { units: 49, fraction: 1 << 63 };
    let own_order = own("X", p(50));
    let status = classify(&own_order, vec![listing("a", half, "ingame", OrderType::Sell)]);
    assert_eq!(
        status,
        OrderStatus::Undercut {
            below: vec![listing("a", half, "ingame", OrderType::Sell)],
            pos: (2, 2)
        }
    );
    let a_bit_more = Platinum { units: 50, fraction: 1 };
    let status = classify(&own_order, vec![listing("a", a_bit_more, "ingame", OrderType::Sell)]);
    assert_eq!(
        status,
        OrderStatus::Lowest { above: vec![listing("a", a_bit_more, "ingame", OrderType::Sell)] }
    );
}

#[test]
fn classifying_twice_gives_the_same_status() {
    let book = vec![sell("b", 50), sell("a", 30), sell("X", 50), sell("d", 80)];
    let first = classify(&own("X", p(50)), book.clone());
    let second = classify(&own("X", p(50)), book);
    assert_eq!(first, second);
}

#[test]
fn arrangement_of_competitors_does_not_change_the_ranks() {
    let one = vec![sell("a", 30), sell("b", 30), sell("Y", 50), sell("X", 50), sell("c", 60)];
    let other = vec![sell("c", 60), sell("X", 50), sell("b", 30), sell("Y", 50), sell("a", 30)];
    let first = classify(&own("X", p(50)), one);
    let second = classify(&own("X", p(50)), other);
    match (first, second) {
        (
            OrderStatus::Undercut { below: below_a, pos: pos_a },
            OrderStatus::Undercut { below: below_b, pos: pos_b },
        ) => {
            assert_eq!(pos_a, (3, 4));
            assert_eq!(pos_a, pos_b);
            assert_eq!(below_a, vec![sell("a", 30), sell("b", 30)]);
            assert_eq!(below_b, vec![sell("b", 30), sell("a", 30)]);
        }
        other => panic!("expected two undercut listings, got {:?}", other),
    }
}

#[test]
fn sorting_keeps_the_order_of_equal_prices() {
    let mut book = vec![sell("e", 7), sell("a", 5), sell("b", 7), sell("c", 5), sell("d", 1)];
    sort_by_price(&mut book);
    let ids: Vec<&str> = book.iter().map(|o| o.id.as_str()).collect();
    assert_eq!(ids, vec!["d", "a", "c", "e", "b"]);
}

#[test]
fn only_sellers_in_the_game_compete() {
    assert!(order_is_competitor(&sell("a", 5)));
    assert!(!order_is_competitor(&listing("a", p(5), "online", OrderType::Sell)));
    assert!(!order_is_competitor(&listing("a", p(5), "offline", OrderType::Sell)));
    assert!(!order_is_competitor(&listing("a", p(5), "ingame", OrderType::Buy)));
    assert!(!order_is_competitor(&listing("a", p(5), "Ingame", OrderType::Sell)));
    let book = vec![
        listing("a", p(10), "offline", OrderType::Sell),
        sell("b", 40),
        listing("c", p(20), "ingame", OrderType::Buy),
        sell("d", 30),
    ];
    assert_eq!(competitors(&book), vec![sell("b", 40), sell("d", 30)]);
}

#[test]
fn scan_order_leaves_out_who_does_not_compete() {
    let book = vec![
        listing("a", p(10), "offline", OrderType::Sell),
        listing("c", p(20), "ingame", OrderType::Buy),
        sell("X", 50),
        sell("d", 65),
    ];
    let report = scan_order(own("X", p(50)), &book);
    assert_eq!(report.own_order, own("X", p(50)));
    assert_eq!(report.decision, None);
    assert_eq!(report.status, OrderStatus::Lowest { above: vec![sell("d", 65)] });
}

#[test]
fn attach_decision_sets_and_replaces_the_decision() {
    let mut report = scan_order(own("X", p(50)), &vec![sell("a", 30)]);
    attach_decision(&mut report, Decision::RemoveOrder);
    assert_eq!(report.decision, Some(Decision::RemoveOrder));
    attach_decision(&mut report, Decision::ChangePrice { new_price: 29 });
    assert_eq!(report.decision, Some(Decision::ChangePrice { new_price: 29 }));
    assert_eq!(report.own_order, own("X", p(50)));
    assert_eq!(
        report.status,
        OrderStatus::Undercut { below: vec![sell("a", 30)], pos: (2, 2) }
    );
}

#[test]
fn scan_reports_in_the_order_of_the_listings() {
    let mut scan = Scan::new(vec![own("A", p(10)), own("B", p(20)), own("C", p(30))]);
    assert_eq!(scan.next(), Some(&own("A", p(10))));
    assert!(scan.fetched(&vec![sell("x", 5)]));
    assert_eq!(scan.next(), Some(&own("B", p(20))));
    assert!(scan.fetch_failed("timeout".to_string()));
    assert_eq!(scan.next(), Some(&own("C", p(30))));
    assert!(scan.fetched(&vec![sell("C", 30), sell("y", 30)]));
    assert_eq!(scan.next(), None);
    assert!(!scan.fetched(&vec![]));
    assert!(!scan.fetch_failed("late".to_string()));
    let (reports, failures) = scan.finish();
    assert_eq!(reports.len(), 2);
    assert_eq!(reports[0].own_order.id, "A");
    assert_eq!(
        reports[0].status,
        OrderStatus::Undercut { below: vec![sell("x", 5)], pos: (2, 2) }
    );
    assert_eq!(reports[1].own_order.id, "C");
    assert_eq!(reports[1].status, OrderStatus::SharedLowest { count: 2 });
    assert_eq!(failures.len(), 1);
    assert_eq!(failures[0].own_order.id, "B");
    assert_eq!(failures[0].reason, "timeout");
}

#[test]
fn platinum_orders_by_units_then_fraction() {
    let a = Platinum { units: 3, fraction: 9 };
    let b = Platinum { units: 4, fraction: 0 };
    let c = Platinum { units: 4, fraction: 1 };
    assert!(a.lt(&b) && b.lt(&c) && a.lt(&c));
    assert!(c.gt(&b) && !b.gt(&c) && !b.lt(&b));
    assert!(b.same(&Platinum::from_units(4)) && !b.same(&c));
    assert_eq!(c.whole(), 4);
    assert_eq!(Platinum::from_units(7), Platinum { units: 7, fraction: 0 });
}

#[test]
fn scan_goes_on_after_a_failed_fetch() {
    let own_orders = vec![own("A", p(10)), own("B", p(20)), own("C", p(30))];
    let (reports, failures) = wfm_rs::scanner::scan(own_orders, |own: &ExistingProfileOrder| {
        if own.id == "B" {
            Err("no answer".to_string())
        } else {
            Ok(vec![sell("x", 15), listing("y", p(1), "offline", OrderType::Sell)])
        }
    });
    assert_eq!(reports.len(), 2);
    assert_eq!(reports[0].own_order, own("A", p(10)));
    assert_eq!(reports[0].status, OrderStatus::Lowest { above: vec![sell("x", 15)] });
    assert_eq!(reports[0].decision, None);
    assert_eq!(reports[1].own_order, own("C", p(30)));
    assert_eq!(
        reports[1].status,
        OrderStatus::Undercut { below: vec![sell("x", 15)], pos: (2, 2) }
    );
    assert_eq!(failures.len(), 1);
    assert_eq!(failures[0].own_order, own("B", p(20)));
    assert_eq!(failures[0].reason, "no answer");
    let nothing = wfm_rs::scanner::scan(vec![], |_: &ExistingProfileOrder| Ok(vec![]));
    assert_eq!(nothing, (vec![], vec![]));
}

#[test]
fn a_decision_source_decides_every_report() {
    let own_orders = vec![own("A", p(10)), own("B", p(20)), own("C", p(30))];
    let (mut reports, _) = wfm_rs::scanner::scan(own_orders, |_: &ExistingProfileOrder| {
        Ok(vec![sell("x", 20), sell("y", 20)])
    });
    wfm_rs::scanner::decide_all(&mut reports, |report: &wfm_rs::scanner::OrderScanReport| {
        match &report.status {
            OrderStatus::Undercut { below, .. } => {
                Decision::ChangePrice { new_price: below[0].platinum.whole() as u16 - 1 }
            }
            OrderStatus::Lowest { .. } => Decision::DoNothing,
            OrderStatus::SharedLowest { .. } => Decision::MakeOrderPrivate,
        }
    });
    let decisions: Vec<Option<Decision>> = reports.iter().map(|r| r.decision).collect();
    assert_eq!(
        decisions,
        vec![
            Some(Decision::DoNothing),
            Some(Decision::MakeOrderPrivate),
            Some(Decision::ChangePrice { new_price: 19 }),
        ]
    );
    assert_eq!(reports[2].own_order, own("C", p(30)));
    assert_eq!(reports[1].status, OrderStatus::SharedLowest { count: 3 });
}
