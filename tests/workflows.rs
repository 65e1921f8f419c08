use argon2::password_hash::{rand_core::OsRng, PasswordHasher, SaltString};
use argon2::Argon2;
use backend::api::ApiStatus;
use backend::booking::{create_booking_request, Category, IncomingBookingRequest};
use backend::clientele::{create_client_from_booking, update_client_address, StateCountry};
use backend::clock::{now_utc, Timestamp};
use backend::gate::{auth_gaurd, judge_reply, login, is_token_sendable, BotFailure, Expectations, VerifierReply};
use backend::ident::{allocation_step, generate_id, IdStep};
use backend::invoicing::{
    confirm_client_source, create_invoice, edit_invoice, invoice_client_source, invoice_item, ClientSource,
    EditInvoiceInfo, InvoiceError, NewInvoiceInfo,
};
use backend::money::{subtotal, Amount, NewInvoiceItem};
use backend::search::{
    find_bookings, find_client, find_invoice, invoice_client_lookup, FindBookingQuery, FindClientQuery,
    FindInvoiceQuery,
};
use backend::photos::{get_categories, get_category_photos, FolderEntry};
use backend::printing::due_date_for_print;
use backend::store::MemoryStore;
use rust_decimal::Decimal;

fn ts(secs: i64) -> Timestamp {
    Timestamp { unix_seconds: secs, nanosecond: 0, offset_seconds: 0 }
}

fn dec(a: Amount) -> Decimal {
    Decimal::from_i128_with_scale(a.mantissa, a.scale)
}

fn amount(m: i128, s: u32) -> Amount {
    Amount { mantissa: m, scale: s }
}

fn line(desc: &str, q: i32, m: i128, s: u32) -> NewInvoiceItem {
    NewInvoiceItem { description: desc.to_string(), quantity: q, unit_price: amount(m, s) }
}

fn intake(email: Option<&str>) -> IncomingBookingRequest {
    IncomingBookingRequest {
        first_name: "Ada".to_string(),
        last_name: "Lovelace".to_string(),
        phone: Some("+15550100".to_string()),
        email: email.map(|e| e.to_string()),
        categories: vec![
            Category { value: "portrait".to_string(), label: "Portrait".to_string() },
            Category { value: "event".to_string(), label: "Event".to_string() },
        ],
        comments: None,
        timezone: Some("America/Chicago".to_string()),
    }
}

fn no_country() -> StateCountry {
    StateCountry { value: String::new(), label: String::new() }
}

fn edit_info(items: Vec<NewInvoiceItem>, completed: bool, paid_at: Option<Timestamp>) -> EditInvoiceInfo {
    EditInvoiceInfo {
        client_id: "CLI001".to_string(),
        invoice_items: items,
        amount_tax: None,
        notes: Some("edited".to_string()),
        due_date: ts(2_000),
        address_street: None,
        address_city: None,
        address_state: None,
        address_zip: None,
        address_country: no_country(),
        payment_completed: completed,
        paid_at,
    }
}

fn is_id(s: &str) -> bool {
    s.chars().count() == 6 && s.chars().all(|c| c.is_ascii_alphanumeric())
}

#[test]
fn test_password_hashing() {
    let salt = SaltString::generate(&mut OsRng);
    let hash = Argon2::default().hash_password(b"hunter2", &salt).unwrap().to_string();
    assert!(login(Some(&hash), "hunter2"));
    assert!(!login(Some(&hash), "hunter3"));
    assert!(!login(None, "hunter2"));
    assert!(!login(Some("not a hash"), "hunter2"));
}

#[test]
fn generated_ids_are_six_alphanumerics() {
    for _ in 0..200 {
        let id = generate_id();
        assert!(is_id(&id), "{id}");
    }
}

#[test]
fn allocation_takes_free_candidate_and_redraws_used_one() {
    match allocation_step("AbC123".to_string(), false) {
        IdStep::Allocated(id) => assert_eq!(id, "AbC123"),
        IdStep::Redraw(_) => panic!("free candidate refused"),
    }
    match allocation_step("AbC123".to_string(), true) {
        IdStep::Redraw(id) => assert!(is_id(&id)),
        IdStep::Allocated(_) => panic!("used candidate taken"),
    }
}

#[test]
fn claimed_id_is_unused_across_all_tables() {
    let mut store = MemoryStore::new();
    let b = create_booking_request(intake(Some("a@x.org")), Ok(()), "BOOK01".to_string(), ts(1)).unwrap();
    store.insert_booking(b);
    assert!(store.id_in_use(&"BOOK01".to_string()));
    assert!(!store.id_in_use(&"ZZZZZZ".to_string()));
    assert!(matches!(store.claim_id("BOOK01".to_string()), IdStep::Redraw(_)));
    match store.claim_id("ZZZZZZ".to_string()) {
        IdStep::Allocated(id) => assert_eq!(id, "ZZZZZZ"),
        IdStep::Redraw(_) => panic!("free id refused"),
    }
}

#[test]
fn subtotal_is_exact() {
    let items = vec![line("prints", 2, 10005, 3), line("frame", 1, 3, 0)];
    let s = subtotal(&items).unwrap();
    assert_eq!(dec(s), Decimal::new(2301, 2));
    assert_eq!(dec(s).to_string(), "23.010");
}

#[test]
fn subtotal_of_no_items_is_zero() {
    let s = subtotal(&vec![]).unwrap();
    assert_eq!(dec(s), Decimal::ZERO);
}

#[test]
fn subtotal_handles_negative_quantities_and_scales() {
    let items = vec![line("a", -3, 125, 2), line("b", 4, 5, 1)];
    assert_eq!(dec(subtotal(&items).unwrap()), Decimal::new(-175, 2));
}

#[test]
fn subtotal_overflow_is_refused() {
    let max = (1i128 << 96) - 1;
    let items = vec![line("huge", 2, max, 0)];
    assert!(subtotal(&items).is_none());
    let r = edit_invoice("INV001".to_string(), edit_info(items, false, None));
    assert!(matches!(r, Err(InvoiceError::AmountOutOfRange)));
}

#[test]
fn unpaid_edit_drops_paid_at() {
    let e = edit_invoice("INV001".to_string(), edit_info(vec![line("x", 1, 5, 0)], false, Some(ts(99)))).unwrap();
    assert_eq!(e.header.paid_at, None);
    assert!(!e.header.payment_completed);
    let e = edit_invoice("INV001".to_string(), edit_info(vec![line("x", 1, 5, 0)], true, Some(ts(99)))).unwrap();
    assert_eq!(e.header.paid_at, Some(ts(99)));
}

#[test]
fn empty_searches_plan_no_query() {
    assert!(find_client(FindClientQuery { client_id: None, first_name: None, last_name: None, email: None, phone: None }).is_none());
    let q = FindBookingQuery {
        first_name: None, last_name: None, email: None, phone: None,
        booking_number: None, booking_id: None, year: None, month: None,
    };
    assert!(find_bookings(q).is_none());
    let q = FindInvoiceQuery {
        client_first_name: None, client_last_name: None, email: None, phone: None,
        year: None, month: None, invoice_number: None, invoice_id: None, client_id: None,
    };
    assert!(invoice_client_lookup(&q).is_none());
    assert!(find_invoice(q, None).is_none());
}

#[test]
fn searches_parse_numbers_and_keep_month_only_with_year() {
    let q = FindBookingQuery {
        first_name: Some("ad".to_string()), last_name: None, email: None, phone: None,
        booking_number: Some("42".to_string()), booking_id: None, year: None, month: Some("7".to_string()),
    };
    let f = find_bookings(q).unwrap();
    assert_eq!(f.booking_number, Some(42));
    assert_eq!(f.year, None);
    assert_eq!(f.month, None);
    let q = FindInvoiceQuery {
        client_first_name: None, client_last_name: None, email: None, phone: None,
        year: Some("2024".to_string()), month: Some("-3".to_string()), invoice_number: Some("x1".to_string()),
        invoice_id: None, client_id: None,
    };
    let f = find_invoice(q, None).unwrap();
    assert_eq!(f.year, Some(2024));
    assert_eq!(f.month, Some(-3));
    assert_eq!(f.invoice_number, None);
    let q = FindInvoiceQuery {
        client_first_name: None, client_last_name: None, email: None, phone: None,
        year: None, month: None, invoice_number: Some("+17".to_string()), invoice_id: None, client_id: None,
    };
    assert_eq!(find_invoice(q, None).unwrap().invoice_number, Some(17));
    let q = FindInvoiceQuery {
        client_first_name: None, client_last_name: None, email: None, phone: None,
        year: Some("99999999999".to_string()), month: None, invoice_number: None, invoice_id: None, client_id: None,
    };
    assert!(find_invoice(q, None).is_none());
}

#[test]
fn invoice_search_resolves_client_by_name() {
    let q = FindInvoiceQuery {
        client_first_name: Some("Ada".to_string()), client_last_name: None, email: None, phone: None,
        year: None, month: None, invoice_number: None, invoice_id: None, client_id: None,
    };
    let l = invoice_client_lookup(&q).unwrap();
    assert_eq!(l.first_name.as_deref(), Some("Ada"));
    assert!(find_invoice(q.clone(), None).is_none());
    let f = find_invoice(q, Some("CLI001".to_string())).unwrap();
    assert_eq!(f.client_id.as_deref(), Some("CLI001"));
}

#[test]
fn refused_intake_writes_nothing_and_retry_succeeds() {
    let mut store = MemoryStore::new();
    let bad = create_booking_request(intake(Some("a@x.org")), Err(BotFailure::VerifierRejected), "BOOK01".to_string(), ts(1));
    assert_eq!(bad.as_ref().err(), Some(&BotFailure::VerifierRejected));
    assert_eq!(store.submit_booking(bad), ApiStatus::Unauthorized);
    assert_eq!(store.bookings.len(), 0);
    assert_eq!(ApiStatus::Unauthorized.code(), 401);
    let good = create_booking_request(intake(Some("a@x.org")), Ok(()), "BOOK02".to_string(), ts(2));
    assert_eq!(store.submit_booking(good), ApiStatus::Created);
    assert_eq!(store.bookings.len(), 1);
    let b = store.view_booking(&"BOOK02".to_string()).unwrap();
    assert_eq!(b.booking_number, 1);
    assert_eq!(b.categories, vec!["portrait".to_string(), "event".to_string()]);
    assert_eq!(b.comments, "");
    assert!(!b.completed);
    assert!(matches!(store.view_booking(&"BOOK01".to_string()), Err(ApiStatus::NotFound)));
}

#[test]
fn completion_status_can_be_set_both_ways() {
    let mut store = MemoryStore::new();
    store.insert_booking(create_booking_request(intake(None), Ok(()), "BOOK01".to_string(), ts(1)).unwrap());
    assert_eq!(store.set_completion_status(&"BOOK01".to_string(), true), ApiStatus::Success);
    assert!(store.bookings[0].completed);
    assert_eq!(store.set_completion_status(&"BOOK01".to_string(), false), ApiStatus::Success);
    assert!(!store.bookings[0].completed);
    assert_eq!(store.set_completion_status(&"NOPE00".to_string(), true), ApiStatus::NotFound);
}

#[test]
fn client_from_booking_twice_with_same_email_is_one_client() {
    let mut store = MemoryStore::new();
    store.insert_booking(create_booking_request(intake(Some("a@x.org")), Ok(()), "BOOK01".to_string(), ts(1)).unwrap());
    store.insert_booking(create_booking_request(intake(Some("a@x.org")), Ok(()), "BOOK02".to_string(), ts(2)).unwrap());
    let c1 = create_client_from_booking(store.view_booking(&"BOOK01".to_string()).ok(), "CLI001".to_string(), ts(3)).unwrap();
    let id1 = store.upsert_client(c1);
    let c2 = create_client_from_booking(store.view_booking(&"BOOK02".to_string()).ok(), "CLI002".to_string(), ts(4)).unwrap();
    let id2 = store.upsert_client(c2);
    assert_eq!(id1, "CLI001");
    assert_eq!(id2, "CLI001");
    assert_eq!(store.clients.len(), 1);
    assert_eq!(store.clients[0].timezone.as_deref(), Some("America/Chicago"));
    assert!(store.client_exists(&"CLI001".to_string()));
    assert!(!store.client_exists(&"CLI002".to_string()));
}

#[test]
fn client_from_missing_booking_is_not_found() {
    assert!(matches!(create_client_from_booking(None, "CLI001".to_string(), ts(1)), Err(ApiStatus::NotFound)));
}

#[test]
fn edit_replaces_all_lines() {
    let mut store = MemoryStore::new();
    let info = NewInvoiceInfo {
        client_id: Some("CLI001".to_string()),
        booking_id: None,
        invoice_items: vec![line("A", 1, 100, 2), line("B", 2, 250, 2)],
        amount_tax: None,
        notes: None,
        due_date: ts(500),
        address_street: None,
        address_city: None,
        address_state: None,
        address_zip: None,
        address_country: no_country(),
    };
    let plan = create_invoice("INV001".to_string(), "CLI001".to_string(), info, ts(10)).unwrap();
    assert_eq!(dec(plan.invoice.amount_subtotal), Decimal::new(6, 0));
    store.insert_invoice(plan.invoice);
    let rows = plan.items.into_iter().enumerate()
        .map(|(i, it)| invoice_item("INV001".to_string(), format!("ITM00{i}"), it)).collect();
    store.replace_items(&"INV001".to_string(), rows);
    store.replace_items(&"INV002".to_string(), vec![invoice_item("INV002".to_string(), "OTHER1".to_string(), line("Z", 1, 1, 0))]);
    assert_eq!(store.items.len(), 3);

    let edit = edit_invoice("INV001".to_string(), edit_info(vec![line("C", 3, 7, 1), line("D", 1, 4, 0)], false, Some(ts(1)))).unwrap();
    store.update_invoice_header(&edit.header);
    let rows = edit.items.into_iter().enumerate()
        .map(|(i, it)| invoice_item("INV001".to_string(), format!("NEW00{i}"), it)).collect();
    store.replace_items(&"INV001".to_string(), rows);
    let mine: Vec<&str> = store.items.iter().filter(|i| i.invoice_id == "INV001").map(|i| i.description.as_str()).collect();
    assert_eq!(mine, vec!["C", "D"]);
    assert!(store.items.iter().any(|i| i.description == "Z"));
    let inv = &store.invoices[0];
    assert_eq!(dec(inv.amount_subtotal), Decimal::new(61, 1));
    assert_eq!(inv.paid_at, None);
    assert_eq!(inv.notes.as_deref(), Some("edited"));
    assert_eq!(inv.invoice_number, 1);
}

#[test]
fn invoice_client_reference_errors() {
    assert!(matches!(invoice_client_source(None, None), Err(InvoiceError::NoClientReference)));
    assert!(matches!(invoice_client_source(Some("C".to_string()), Some("B".to_string())), Ok(ClientSource::Client(c)) if c == "C"));
    assert!(matches!(invoice_client_source(None, Some("B".to_string())), Ok(ClientSource::Booking(b)) if b == "B"));
    assert_eq!(confirm_client_source(&ClientSource::Client("C".to_string()), false), Err(InvoiceError::ClientNotFound));
    assert_eq!(confirm_client_source(&ClientSource::Booking("B".to_string()), false), Err(InvoiceError::BookingNotFound));
    assert_eq!(confirm_client_source(&ClientSource::Booking("B".to_string()), true), Ok(()));
    assert_eq!(InvoiceError::ClientNotFound.message(), "ERROR: Client_ID could not be found");
    assert_eq!(InvoiceError::NoClientReference.status(), ApiStatus::BadRequest);
}

#[test]
fn full_address_is_applied_with_empty_state_as_null() {
    let info = NewInvoiceInfo {
        client_id: Some("CLI001".to_string()),
        booking_id: None,
        invoice_items: vec![],
        amount_tax: Some(amount(150, 2)),
        notes: None,
        due_date: ts(500),
        address_street: Some("1 Main St".to_string()),
        address_city: Some("Springfield".to_string()),
        address_state: Some(StateCountry { value: String::new(), label: String::new() }),
        address_zip: Some("12345".to_string()),
        address_country: StateCountry { value: "US".to_string(), label: "United States".to_string() },
    };
    let plan = create_invoice("INV001".to_string(), "CLI001".to_string(), info, ts(10)).unwrap();
    assert_eq!(dec(plan.invoice.amount_tax), Decimal::new(15, 1));
    let u = plan.address.unwrap();
    assert_eq!(u.state, None);
    assert_eq!(u.country, "US");
    let mut store = MemoryStore::new();
    let c = create_client_from_booking(None, "X".to_string(), ts(0));
    assert!(c.is_err());
    store.upsert_client(backend::clientele::create_client(
        backend::clientele::NewClient {
            first_name: "Ada".to_string(), last_name: "L".to_string(), email: "a@x.org".to_string(), phone: None,
            address_street: None, address_city: None, address_state: None, address_zip: None, address_country: None,
            timezone: None,
        },
        "CLI001".to_string(), ts(0)));
    store.apply_address(&u);
    assert_eq!(store.clients[0].address_city.as_deref(), Some("Springfield"));
    assert_eq!(store.clients[0].address_state, None);
    let u = update_client_address("CLI001".to_string(), "s".to_string(), "c".to_string(),
        Some(StateCountry { value: "IL".to_string(), label: "Illinois".to_string() }), "z".to_string(), "US".to_string());
    assert_eq!(u.state.as_deref(), Some("IL"));
}

#[test]
fn partial_address_is_not_applied() {
    let info = NewInvoiceInfo {
        client_id: Some("CLI001".to_string()),
        booking_id: None,
        invoice_items: vec![],
        amount_tax: None,
        notes: None,
        due_date: ts(500),
        address_street: Some("1 Main St".to_string()),
        address_city: None,
        address_state: None,
        address_zip: None,
        address_country: StateCountry { value: "US".to_string(), label: "United States".to_string() },
    };
    let plan = create_invoice("INV001".to_string(), "CLI001".to_string(), info, ts(10)).unwrap();
    assert!(plan.address.is_none());
    assert_eq!(dec(plan.invoice.amount_tax), Decimal::ZERO);
}

#[test]
fn bot_gate_checks_token_and_expectations() {
    assert!(!is_token_sendable(""));
    assert!(is_token_sendable("tok"));
    assert!(is_token_sendable(&"a".repeat(2048)));
    assert!(!is_token_sendable(&"a".repeat(2049)));
    let expect = Expectations { action: Some("book".to_string()), hostname: Some("example.org".to_string()) };
    let reply = |success: bool, action: &str, host: &str| VerifierReply {
        success,
        error_codes: vec![],
        hostname: Some(host.to_string()),
        action: Some(action.to_string()),
    };
    assert_eq!(judge_reply(None, &expect), Err(BotFailure::VerifierUnavailable));
    assert_eq!(judge_reply(Some(&reply(false, "book", "example.org")), &expect), Err(BotFailure::VerifierRejected));
    assert_eq!(judge_reply(Some(&reply(true, "login", "example.org")), &expect), Err(BotFailure::ActionMismatch));
    assert_eq!(judge_reply(Some(&reply(true, "book", "evil.org")), &expect), Err(BotFailure::HostnameMismatch));
    assert_eq!(judge_reply(Some(&reply(true, "book", "example.org")), &expect), Ok(()));
    let none = Expectations { action: None, hostname: None };
    assert_eq!(judge_reply(Some(&reply(true, "other", "evil.org")), &none), Ok(()));
    assert_eq!(BotFailure::HostnameMismatch.code(), "hostname-mismatch");
}

#[test]
fn auth_guard_needs_a_marked_session() {
    assert!(!auth_gaurd(true, None));
    assert!(!auth_gaurd(false, None));
    assert!(auth_gaurd(false, Some("admin")));
    assert_eq!(backend::gate::admin_username(), "admin");
}

#[test]
fn clock_reads_utc() {
    let t = now_utc();
    assert_eq!(t.offset_seconds, 0);
    assert!(t.nanosecond < 1_000_000_000);
    assert!(t.unix_seconds > 1_500_000_000);
}

#[test]
fn client_lookup_by_exact_name() {
    let mut store = MemoryStore::new();
    let form = intake(Some("a@x.org"));
    let r = backend::clientele::handle_client(store.client_named(&form.first_name, &form.last_name), &form, "CLI001".to_string(), ts(1));
    match r {
        backend::clientele::ClientResolution::Create(c) => {
            assert_eq!(c.address_street, None);
            store.upsert_client(c);
        }
        backend::clientele::ClientResolution::Existing(_) => panic!("no client yet"),
    }
    assert_eq!(store.client_named(&"Ada".to_string(), &"Lovelace".to_string()).as_deref(), Some("CLI001"));
    assert_eq!(store.client_named(&"ada".to_string(), &"Lovelace".to_string()), None);
    let r = backend::clientele::handle_client(store.client_named(&form.first_name, &form.last_name), &form, "CLI002".to_string(), ts(2));
    assert!(matches!(r, backend::clientele::ClientResolution::Existing(id) if id == "CLI001"));
    assert_eq!(store.view_client(&"CLI001".to_string()).unwrap().first_name, "Ada");
    assert!(matches!(store.view_client(&"CLI009".to_string()), Err(ApiStatus::NotFound)));
}

#[test]
fn pending_bookings_are_ordered_by_creation_time() {
    let mut store = MemoryStore::new();
    for (id, t) in [("BOOK01", 30), ("BOOK02", 10), ("BOOK03", 20), ("BOOK04", 10)] {
        store.insert_booking(create_booking_request(intake(None), Ok(()), id.to_string(), ts(t)).unwrap());
    }
    store.set_completion_status(&"BOOK03".to_string(), true);
    let order: Vec<&str> = store.get_pending_bookings().into_iter().map(|i| store.bookings[i].booking_id.as_str()).collect();
    assert_eq!(order, vec!["BOOK02", "BOOK04", "BOOK01"]);
}

#[test]
fn invoice_numbers_follow_the_largest() {
    let mut store = MemoryStore::new();
    assert_eq!(backend::invoicing::generate_invoice_number(&store.invoices), Some(1));
    let info = |id: &str| NewInvoiceInfo {
        client_id: Some(id.to_string()), booking_id: None, invoice_items: vec![], amount_tax: None, notes: None,
        due_date: ts(1), address_street: None, address_city: None, address_state: None, address_zip: None,
        address_country: no_country(),
    };
    let p = create_invoice("INV001".to_string(), "C".to_string(), info("C"), ts(1)).unwrap();
    assert_eq!(store.insert_invoice(p.invoice), ApiStatus::Created);
    store.invoices[0].invoice_number = 41;
    assert_eq!(backend::invoicing::generate_invoice_number(&store.invoices), Some(42));
    store.invoices[0].invoice_number = i64::MAX;
    let p = create_invoice("INV002".to_string(), "C".to_string(), info("C"), ts(1)).unwrap();
    assert_eq!(store.insert_invoice(p.invoice), ApiStatus::InternalError);
    assert_eq!(store.invoices.len(), 1);
}

#[test]
fn gallery_lists_folders_and_hides_metadata() {
    let cats = get_categories(vec![
        FolderEntry { name: "weddings".to_string(), is_dir: true },
        FolderEntry { name: "notes.txt".to_string(), is_dir: false },
        FolderEntry { name: "portraits".to_string(), is_dir: true },
    ]);
    assert_eq!(cats, vec!["weddings".to_string(), "portraits".to_string()]);
    let mut photos = get_category_photos(vec![
        "a.jpg".to_string(), ".DS_Store".to_string(), "b.jpg".to_string(), "c.jpg".to_string(),
    ]);
    photos.sort();
    assert_eq!(photos, vec!["a.jpg".to_string(), "b.jpg".to_string(), "c.jpg".to_string()]);
}

#[test]
fn due_date_prints_in_client_zone() {
    // 2024-01-01T03:00:00Z
    let t = Some(ts(1_704_078_000));
    assert_eq!(due_date_for_print(t, &None), Some((2023, 12, 31)));
    assert_eq!(due_date_for_print(t, &Some("Europe/Berlin".to_string())), Some((2024, 1, 1)));
    assert_eq!(due_date_for_print(t, &Some("Nowhere/Land".to_string())), None);
    assert_eq!(due_date_for_print(None, &None), None);
}
