use replica_proxy::auth::VerificationKey;
use replica_proxy::lookup::{KeyLookup, NamespaceLookupOutcome, StoreError, StrategyChoice};

fn key(text: &str) -> VerificationKey {
    VerificationKey::new(text.to_string())
}

#[test]
fn a_found_key_is_a_completed_lookup() {
    assert_eq!(
        NamespaceLookupOutcome::from_store_result(Ok(Ok(Some(key("K"))))),
        NamespaceLookupOutcome::Completed(KeyLookup::Present(key("K")))
    );
}

#[test]
fn a_namespace_without_key_is_a_completed_lookup() {
    assert_eq!(
        NamespaceLookupOutcome::from_store_result(Ok(Ok(None))),
        NamespaceLookupOutcome::Completed(KeyLookup::Absent)
    );
}

#[test]
fn a_namespace_that_does_not_exist_is_a_completed_lookup() {
    assert_eq!(
        NamespaceLookupOutcome::from_store_result(Err(StoreError::NamespaceDoesntExist)),
        NamespaceLookupOutcome::Completed(KeyLookup::NoSuchNamespace)
    );
}

#[test]
fn any_other_store_error_is_a_failed_lookup() {
    assert_eq!(
        NamespaceLookupOutcome::from_store_result(Err(StoreError::Other)),
        NamespaceLookupOutcome::Failed
    );
    assert_eq!(
        NamespaceLookupOutcome::from_store_result(Ok(Err(StoreError::Other))),
        NamespaceLookupOutcome::Failed
    );
}

#[test]
fn an_error_while_reading_the_key_is_a_failed_lookup_whatever_it_says() {
    assert_eq!(
        NamespaceLookupOutcome::from_store_result(Ok(Err(StoreError::NamespaceDoesntExist))),
        NamespaceLookupOutcome::Failed
    );
}

#[test]
fn the_four_outcomes_stay_apart() {
    let outcomes = [
        NamespaceLookupOutcome::Completed(KeyLookup::Present(key("K"))),
        NamespaceLookupOutcome::Completed(KeyLookup::Absent),
        NamespaceLookupOutcome::Completed(KeyLookup::NoSuchNamespace),
        NamespaceLookupOutcome::Failed,
    ];
    for (i, a) in outcomes.iter().enumerate() {
        for (j, b) in outcomes.iter().enumerate() {
            assert_eq!(a == b, i == j);
        }
    }
}

#[test]
fn a_key_selects_the_strategy_of_the_namespace() {
    assert_eq!(
        NamespaceLookupOutcome::Completed(KeyLookup::Present(key("K"))).select_strategy(),
        Some(StrategyChoice::NamespaceScoped(key("K")))
    );
}

#[test]
fn no_key_and_no_namespace_select_the_global_strategy() {
    assert_eq!(
        NamespaceLookupOutcome::Completed(KeyLookup::Absent).select_strategy(),
        Some(StrategyChoice::Global)
    );
    assert_eq!(
        NamespaceLookupOutcome::Completed(KeyLookup::NoSuchNamespace).select_strategy(),
        Some(StrategyChoice::Global)
    );
}

#[test]
fn a_failed_lookup_selects_no_strategy() {
    assert_eq!(NamespaceLookupOutcome::Failed.select_strategy(), None);
}
