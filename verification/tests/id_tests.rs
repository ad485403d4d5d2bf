use wallet_services::agents::agents::agreement_id;
use wallet_services::business_info::register_b::registration_id;
use wallet_services::transfer::transfer::transfer_id;

#[test]
fn agreement_ids_are_version_one_uuids_of_the_clock() {
    assert_eq!(agreement_id(5, 0), "167c3080-1dd2-11b2-802a-6167656e7473");
}

#[test]
fn transfer_ids_carry_their_node() {
    assert_eq!(transfer_id(59, 123456700), "36bec607-1dd2-11b2-802a-7472616e7366");
}

#[test]
fn registration_ids_carry_their_node() {
    let id = registration_id(0, 0);
    assert_eq!(id, "13814000-1dd2-11b2-802a-726567697374");
    assert_eq!(id.len(), 36);
}

#[test]
fn same_clock_reading_gives_same_id() {
    assert_eq!(agreement_id(17, 250), agreement_id(17, 250));
    assert_ne!(agreement_id(17, 250), agreement_id(18, 250));
}
