use nodeless_api::checkout_repository::CheckoutRepository;
use nodeless_api::checkout_repository::CreateCheckout;
use nodeless_api::checkout_service::CheckoutService;
use nodeless_api::checkout_service::CreateCheckoutService;
use nodeless_api::checkout_service::InvoiceRequest;
use nodeless_api::checkout_service::OrchestrationError;
use nodeless_api::checkout_service::build_unified_descriptor;
use nodeless_api::checkout_service::invoice_request;
use nodeless_api::ids::new_uuid;
use nodeless_api::models::CheckoutStatus;
use nodeless_api::store_repository::StoreInvoiceRepository;
use nodeless_api::store_repository::StoreRepository;
use nodeless_api::store_service::StoreService;

#[test]
fn test_create_checkout() {
    let mut repo = CheckoutRepository { rows: Vec::new() };
    let user_uuid = new_uuid();
    let req = CreateCheckout {
        user_uuid: user_uuid.clone(),
        amount: 100,
        bitcoin_address: "test address".to_owned(),
        payment_request: "test payment request".to_owned(),
        expiry_seconds: 100,
    };
    let checkout = repo.create(req, new_uuid(), 1_700_000_000);
    assert_eq!(checkout.user_uuid, user_uuid);
    assert_eq!(checkout.amount, 100);
    assert_eq!(checkout.bitcoin_address, "test address");
    assert_eq!(checkout.payment_request, "test payment request");
    assert_eq!(repo.rows.len(), 1);
}

#[test]
fn test_create_checkout_service() {
    let mut repo = CheckoutRepository { rows: Vec::new() };
    let service = CheckoutService::new();
    let data = CreateCheckoutService {
        user_uuid: "u1".to_owned(),
        amount: 1000,
        expiry: 3600,
        memo: None,
    };
    let response = service
        .create(
            data,
            Some("lnbc1examplepaymentrequest".to_owned()),
            Some("bc1qtest".to_owned()),
            &mut repo,
            new_uuid(),
            1_700_000_000,
        )
        .expect("both rails present, so the checkout commits");

    assert_eq!(response.checkout.amount, 1000);
    assert_eq!(response.checkout.expiry_seconds, 3600);
    assert!(response.checkout.bitcoin_address.len() > 0);
    assert!(response.checkout.payment_request.len() > 0);
    assert_eq!(response.checkout.user_uuid, "u1");
    assert_eq!(response.checkout.bitcoin_address, "bc1qtest");
    assert_eq!(response.checkout.payment_request, "lnbc1examplepaymentrequest");
    assert_eq!(response.checkout.status, CheckoutStatus::New);
    assert_eq!(response.checkout.status.label(), "new");

    // The three QR payloads are rendered, non-empty, and are real renderings,
    // not the raw payloads handed back.
    assert!(!response.qr_unified.is_empty());
    assert!(!response.qr_bitcoin.is_empty());
    assert!(!response.qr_ln.is_empty());
    assert_ne!(response.qr_bitcoin, "bc1qtest");
    assert_ne!(response.qr_ln, "lnbc1examplepaymentrequest");
    assert_ne!(response.qr_unified, "bitcoin:bc1qtest?lightning=lnbc1examplepaymentrequest");

    // Exactly one row was persisted, in state New.
    assert_eq!(repo.rows.len(), 1);
    assert_eq!(repo.rows[0].bitcoin_address, "bc1qtest");
}

#[test]
fn rail_failure_persists_nothing() {
    let mut repo = CheckoutRepository { rows: Vec::new() };
    let service = CheckoutService::new();
    let data = CreateCheckoutService {
        user_uuid: "u1".to_owned(),
        amount: 1000,
        expiry: 3600,
        memo: None,
    };
    // The invoice-issuance call failed: its counterpart value is discarded.
    let r = service.create(
        data,
        None,
        Some("bc1qtest".to_owned()),
        &mut repo,
        new_uuid(),
        1_700_000_000,
    );
    assert!(matches!(r, Err(OrchestrationError::RailFailure)));
    assert_eq!(repo.rows.len(), 0);
}

#[test]
fn empty_rail_value_is_a_rail_failure() {
    let mut repo = CheckoutRepository { rows: Vec::new() };
    let service = CheckoutService::new();
    let data = CreateCheckoutService {
        user_uuid: "u1".to_owned(),
        amount: 1000,
        expiry: 3600,
        memo: None,
    };
    let r = service.create(
        data,
        Some("lnbc1examplepaymentrequest".to_owned()),
        Some(String::new()),
        &mut repo,
        new_uuid(),
        1_700_000_000,
    );
    assert!(matches!(r, Err(OrchestrationError::RailFailure)));
    assert_eq!(repo.rows.len(), 0);
}

#[test]
fn render_failure_persists_nothing() {
    let mut repo = CheckoutRepository { rows: Vec::new() };
    let service = CheckoutService::new();
    let data = CreateCheckoutService {
        user_uuid: "u1".to_owned(),
        amount: 1000,
        expiry: 3600,
        memo: None,
    };
    // A payment request far beyond QR capacity fails phase 2.
    let huge = "x".repeat(8000);
    let r = service.create(
        data,
        Some(huge),
        Some("bc1qtest".to_owned()),
        &mut repo,
        new_uuid(),
        1_700_000_000,
    );
    assert!(matches!(r, Err(OrchestrationError::RenderFailure)));
    assert_eq!(repo.rows.len(), 0);
}

#[test]
fn unified_descriptor_joins_both_rails() {
    let s = build_unified_descriptor("bc1qtest", "lnbc1");
    assert_eq!(s, "bitcoin:bc1qtest?lightning=lnbc1");
}

#[test]
fn memo_defaults_to_application_name() {
    let with_memo = CreateCheckoutService {
        user_uuid: "u1".to_owned(),
        amount: 5,
        expiry: 60,
        memo: Some("thanks".to_owned()),
    };
    let r: InvoiceRequest = invoice_request(&with_memo, "Nodeless");
    assert_eq!(r.memo, "thanks");
    assert_eq!(r.value, 5);
    assert_eq!(r.expiry, 60);

    let without_memo = CreateCheckoutService {
        user_uuid: "u1".to_owned(),
        amount: 5,
        expiry: 60,
        memo: None,
    };
    let r = invoice_request(&without_memo, "Nodeless");
    assert_eq!(r.memo, "Nodeless");
}

#[test]
fn request_bodies_map_onto_write_requests() {
    let body = nodeless_api::requests::CreateStoreInvoice {
        amount: 42,
        expiry: 900,
        memo: Some("coffee".to_owned()),
        metadata: Some("{\"order\":7}".to_owned()),
    };
    let (checkout_data, metadata) = body.into_checkout_request("u9".to_owned());
    assert_eq!(checkout_data.user_uuid, "u9");
    assert_eq!(checkout_data.amount, 42);
    assert_eq!(checkout_data.expiry, 900);
    assert_eq!(checkout_data.memo.as_deref(), Some("coffee"));
    assert_eq!(metadata.as_deref(), Some("{\"order\":7}"));

    let page_req = nodeless_api::requests::CreateDonationPageReq {
        slug: "s".to_owned(),
        name: "n".to_owned(),
        description: "d".to_owned(),
    };
    let create = page_req.into_create("u9".to_owned());
    assert_eq!(create.user_uuid, "u9");
    assert_eq!(create.slug, "s");
}

#[test]
fn create_store_invoice() {
    let mut store_repo = StoreRepository { rows: Vec::new() };
    let user_uuid = new_uuid();
    let store = store_repo.create(&user_uuid, &"Test Store".to_owned(), new_uuid(), 1_700_000_000);

    let mut service = StoreService::new(
        store_repo,
        CheckoutRepository { rows: Vec::new() },
        StoreInvoiceRepository { rows: Vec::new() },
    );
    let checkout_data = CreateCheckoutService {
        user_uuid,
        amount: 1000,
        expiry: 3600,
        memo: None,
    };
    let invoice = service
        .create_invoice(
            &store.uuid,
            Some("{\"test\":\"test\"}".to_owned()),
            checkout_data,
            CheckoutService::new(),
            Some("lnbc1examplepaymentrequest".to_owned()),
            Some("bc1qtest".to_owned()),
            new_uuid(),
            new_uuid(),
            1_700_000_000,
        )
        .expect("both rails present, so the invoice composes");

    assert!(invoice.invoice.uuid.len() > 0);
    assert!(invoice.checkout.bitcoin_address.len() > 0);
    assert!(invoice.checkout.payment_request.len() > 0);
    assert_eq!(invoice.invoice.checkout_uuid, invoice.checkout.uuid);
    assert_eq!(invoice.invoice.store_uuid, store.uuid);
    assert_eq!(service.checkout_repo.rows.len(), 1);
    assert_eq!(service.store_invoice_repo.rows.len(), 1);
}

#[test]
fn failed_checkout_composes_no_invoice() {
    let mut service = StoreService::new(
        StoreRepository { rows: Vec::new() },
        CheckoutRepository { rows: Vec::new() },
        StoreInvoiceRepository { rows: Vec::new() },
    );
    let checkout_data = CreateCheckoutService {
        user_uuid: "u1".to_owned(),
        amount: 1000,
        expiry: 3600,
        memo: None,
    };
    let r = service.create_invoice(
        &"store-1".to_owned(),
        None,
        checkout_data,
        CheckoutService::new(),
        None,
        None,
        new_uuid(),
        new_uuid(),
        1_700_000_000,
    );
    assert!(matches!(r, Err(OrchestrationError::RailFailure)));
    assert_eq!(service.checkout_repo.rows.len(), 0);
    assert_eq!(service.store_invoice_repo.rows.len(), 0);
}
