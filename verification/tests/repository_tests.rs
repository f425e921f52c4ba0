use nodeless_api::donation_page_repository::CreateDonationPage;
use nodeless_api::donation_page_repository::DonationPageRepository;
use nodeless_api::donation_page_repository::RepoError;
use nodeless_api::donation_page_repository::UpdateDonationPage;
use nodeless_api::ids::new_uuid;
use nodeless_api::models::CheckoutStatus;
use nodeless_api::nodeless_address_repository::CreateNodelessAddress;
use nodeless_api::nodeless_address_repository::NodelessAddressRepository;
use nodeless_api::nodeless_address_repository::UpdateNodelessAddress;
use nodeless_api::checkout_repository::CheckoutRepository;
use nodeless_api::checkout_repository::CreateCheckout;
use nodeless_api::store_repository::StoreRepository;
use nodeless_api::user_repository::CreateUser;
use nodeless_api::user_repository::UserRepository;
use nodeless_api::user_repository::UserRepositoryError;

const NOW: u64 = 1_700_000_000;

#[test]
fn test_donation_page_crud() {
    let mut repo = DonationPageRepository { rows: Vec::new() };
    let user_uuid = new_uuid();

    let page = repo
        .create(
            CreateDonationPage {
                user_uuid: user_uuid.clone(),
                name: "Test Page".to_string(),
                slug: "test-page".to_string(),
                description: "Test Page Description".to_string(),
            },
            new_uuid(),
        )
        .unwrap();

    assert_eq!(page.name, "Test Page");
    assert_eq!(page.slug, "test-page");
    assert_eq!(page.description, "Test Page Description");
    assert!(page.uuid.len() > 0);

    let page = repo.get_one(&page.uuid).unwrap();

    assert_eq!(page.name, "Test Page");
    assert_eq!(page.slug, "test-page");
    assert_eq!(page.description, "Test Page Description");
    assert!(page.uuid.len() > 0);

    let page = repo.get_one_by_slug(&"test-page".to_string()).unwrap();

    assert_eq!(page.name, "Test Page");
    assert_eq!(page.slug, "test-page");
    assert_eq!(page.description, "Test Page Description");
    assert!(page.uuid.len() > 0);

    let all = repo.get_all_by_user_uuid(&user_uuid);
    assert_eq!(all.len(), 1);
    let one = repo.get_one_by_user_uuid(&user_uuid, &page.uuid).unwrap();
    assert_eq!(one.slug, "test-page");

    let page = repo
        .update(
            &page.uuid,
            UpdateDonationPage {
                name: "Test Page 2".to_string(),
                slug: "test-page-2".to_string(),
                description: "Test Page Description 2".to_string(),
            },
        )
        .unwrap();

    assert_eq!(page.name, "Test Page 2");
    assert_eq!(page.slug, "test-page-2");
    assert_eq!(page.description, "Test Page Description 2");
    assert!(page.uuid.len() > 0);

    let soft_delete = repo.delete(&page.uuid, NOW);

    assert!(soft_delete);
    assert!(repo.get_one(&page.uuid).is_none());

    let hard_delete = repo.hard_delete(&page.uuid);

    assert!(hard_delete);
    assert_eq!(repo.rows.len(), 0);
}

#[test]
fn duplicate_slug_conflicts_for_another_user() {
    let mut repo = DonationPageRepository { rows: Vec::new() };
    let first = repo
        .create(
            CreateDonationPage {
                user_uuid: "user-a".to_string(),
                name: "First".to_string(),
                slug: "shared-slug".to_string(),
                description: "first page".to_string(),
            },
            new_uuid(),
        )
        .unwrap();

    let second = repo.create(
        CreateDonationPage {
            user_uuid: "user-b".to_string(),
            name: "Second".to_string(),
            slug: "shared-slug".to_string(),
            description: "second page".to_string(),
        },
        new_uuid(),
    );

    assert_eq!(second.unwrap_err(), RepoError::SlugTaken);
    // Nothing was overwritten: the slug still resolves to the first page.
    let kept = repo.get_one_by_slug(&"shared-slug".to_string()).unwrap();
    assert_eq!(kept.name, "First");
    assert_eq!(kept.uuid, first.uuid);
    assert_eq!(repo.rows.len(), 1);
}

#[test]
fn update_to_a_taken_slug_conflicts() {
    let mut repo = DonationPageRepository { rows: Vec::new() };
    let _a = repo
        .create(
            CreateDonationPage {
                user_uuid: "user-a".to_string(),
                name: "A".to_string(),
                slug: "slug-a".to_string(),
                description: "a".to_string(),
            },
            new_uuid(),
        )
        .unwrap();
    let b = repo
        .create(
            CreateDonationPage {
                user_uuid: "user-b".to_string(),
                name: "B".to_string(),
                slug: "slug-b".to_string(),
                description: "b".to_string(),
            },
            new_uuid(),
        )
        .unwrap();

    let clash = repo.update_by_user_uuid(
        &b.uuid,
        &"user-b".to_string(),
        UpdateDonationPage {
            name: "B".to_string(),
            slug: "slug-a".to_string(),
            description: "b".to_string(),
        },
    );
    assert_eq!(clash.unwrap_err(), RepoError::SlugTaken);
}

#[test]
fn test_store_crud() {
    let user_uuid = new_uuid();
    let mut store_repo = StoreRepository { rows: Vec::new() };
    let store = store_repo.create(&user_uuid, &"test store".to_string(), new_uuid(), NOW);

    assert_eq!(store.user_uuid, user_uuid);
    assert_eq!(store.name, "test store");

    let store = store_repo.get_by_uuid(&user_uuid, &store.uuid).unwrap();

    assert_eq!(store.user_uuid, user_uuid);
    assert_eq!(store.name, "test store");

    let store = store_repo
        .update(&user_uuid, &store.uuid, &"test store 2".to_string(), NOW + 1)
        .unwrap();

    assert_eq!(store.user_uuid, user_uuid);
    assert_eq!(store.name, "test store 2");

    let soft_delete = store_repo.delete(&user_uuid, &store.uuid, NOW + 2);

    assert_eq!(soft_delete, true);
    assert!(store_repo.get_by_uuid(&user_uuid, &store.uuid).is_none());
    assert_eq!(store_repo.get_all(&user_uuid).len(), 0);

    let delete = store_repo.hard_delete(&user_uuid, &store.uuid);

    assert_eq!(delete, true);
    assert_eq!(store_repo.rows.len(), 0);
}

#[test]
fn store_lookups_are_ownership_scoped() {
    let mut store_repo = StoreRepository { rows: Vec::new() };
    let store = store_repo.create(&"owner".to_string(), &"test store".to_string(), new_uuid(), NOW);
    // Another user's lookup of this store reports the same absence as a
    // missing store, leaking nothing about its existence.
    assert!(store_repo.get_by_uuid(&"intruder".to_string(), &store.uuid).is_none());
    assert!(store_repo
        .update(&"intruder".to_string(), &store.uuid, &"hijack".to_string(), NOW)
        .is_none());
    assert!(!store_repo.delete(&"intruder".to_string(), &store.uuid, NOW));
    assert_eq!(store_repo.get_by_uuid(&"owner".to_string(), &store.uuid).unwrap().name, "test store");
}

#[test]
fn test_nodeless_address_crud() {
    let mut repo = NodelessAddressRepository { rows: Vec::new() };
    let user_uuid = new_uuid();

    let addr = repo.create(
        CreateNodelessAddress {
            user_uuid: user_uuid.clone(),
            handle: "test".to_string(),
            npub: None,
            price: 0,
        },
        new_uuid(),
        NOW,
    );

    assert_eq!(&addr.user_uuid, &user_uuid);
    assert_eq!(addr.handle, "test");
    assert_eq!(addr.npub, None);
    assert_eq!(addr.price, 0);

    let addr = repo.get_by_handle(&"test".to_string()).unwrap();

    assert_eq!(&addr.user_uuid, &user_uuid);
    assert_eq!(addr.handle, "test");
    assert_eq!(addr.npub, None);
    assert_eq!(addr.price, 0);

    let addr = repo.get_by_uuid(&addr.uuid).unwrap();

    assert_eq!(&addr.user_uuid, &user_uuid);
    assert_eq!(addr.handle, "test");
    assert_eq!(addr.npub, None);
    assert_eq!(addr.price, 0);

    let addr = repo
        .update(
            &addr.uuid,
            UpdateNodelessAddress { npub: Some("test".to_string()), price: Some(100) },
        )
        .unwrap();

    assert_eq!(&addr.user_uuid, &user_uuid);
    assert_eq!(addr.handle, "test");
    assert_eq!(addr.npub, Some("test".to_string()));
    assert_eq!(addr.price, 100);

    let delete = repo.delete(&addr.uuid, NOW);

    assert_eq!(delete, true);

    let hard_delete = repo.hard_delete(&addr.uuid);

    assert_eq!(hard_delete, true);
    assert_eq!(repo.rows.len(), 0);
}

#[test]
fn user_crud_and_lookup() {
    let mut repo = UserRepository { rows: Vec::new() };
    let uuid = new_uuid();
    let user = repo.create(
        &CreateUser {
            email: Some("user@example.com".to_string()),
            password: Some("digest".to_string()),
            npub: None,
            identifier: None,
        },
        uuid.clone(),
        NOW,
    );
    assert_eq!(user.email, "user@example.com");
    assert_eq!(user.uuid, uuid);

    let found = repo.get_user_by_email(&"user@example.com".to_string()).unwrap();
    assert_eq!(found.uuid, uuid);
    assert_eq!(repo.get_user_password(&"user@example.com".to_string()).unwrap(), "digest");

    let missing = repo.get_user_by_email(&"other@example.com".to_string());
    assert_eq!(missing.unwrap_err(), UserRepositoryError::NotFound);

    assert!(repo.hard_delete(&uuid));
    assert!(!repo.hard_delete(&uuid));
    assert_eq!(repo.rows.len(), 0);
}

#[test]
fn checkout_status_updates_in_place() {
    let mut repo = CheckoutRepository { rows: Vec::new() };
    let checkout = repo.create(
        CreateCheckout {
            user_uuid: "u1".to_string(),
            amount: 7,
            bitcoin_address: "bc1qtest".to_string(),
            payment_request: "lnbc1".to_string(),
            expiry_seconds: 60,
        },
        new_uuid(),
        NOW,
    );
    assert!(matches!(repo.get_by_uuid(&checkout.uuid).unwrap().status, CheckoutStatus::New));
    assert!(repo.set_status(&checkout.uuid, CheckoutStatus::PendingConfirmation));
    assert!(matches!(
        repo.get_by_uuid(&checkout.uuid).unwrap().status,
        CheckoutStatus::PendingConfirmation
    ));
    assert!(!repo.set_status(&"absent".to_string(), CheckoutStatus::Paid));
    assert_eq!(repo.get_by_uuid(&checkout.uuid).unwrap().status.label(), "pending_confirmation");
}
