use anchor_lang::prelude::Pubkey;
use primitive_protocol::admin::{create_fund, initialize_protocol, shuffle_tiers, update_jupiter_vault};
use primitive_protocol::error::PrimitiveError;
use primitive_protocol::state::{Fund, Protocol, User};

fn key(byte: u8) -> Pubkey {
    Pubkey::new_from_array([byte; 32])
}

#[test]
fn protocol_starts_active_and_empty() {
    let protocol = initialize_protocol(None, key(1), key(2), 253);
    assert_eq!(
        protocol,
        Ok(Protocol {
            authority: key(1),
            bump: 253,
            total_staked: 0,
            total_yield: 0,
            current_fund_id: 0,
            jupiter_vault: key(2),
            is_active: true,
        })
    );
}

#[test]
fn protocol_cannot_be_set_up_twice() {
    let first = initialize_protocol(None, key(1), key(2), 253).unwrap();
    let second = initialize_protocol(Some(&first), key(3), key(4), 1);
    assert_eq!(second, Err(PrimitiveError::AlreadyInitialized));
}

#[test]
fn fund_starts_active_and_empty() {
    let fund = create_fund(42, 1000, 500, 1000, 1500, 1_700_000_000);
    assert_eq!(
        fund,
        Fund {
            id: 42,
            max_users: 1000,
            current_users: 0,
            tier1_apy: 500,
            tier2_apy: 1000,
            tier3_apy: 1500,
            total_staked: 0,
            is_active: true,
            created_at: 1_700_000_000,
            last_shuffle: 0,
        }
    );
}

#[test]
fn shuffle_only_stamps_the_fund() {
    let mut fund = create_fund(42, 1000, 500, 1000, 1500, 10);
    fund.current_users = 3;
    fund.total_staked = 99;
    let before = fund;
    shuffle_tiers(&mut fund, 12_345);
    assert_eq!(fund, Fund { last_shuffle: 12_345, ..before });
}

#[test]
fn vault_update_only_replaces_the_vault() {
    let mut protocol = initialize_protocol(None, key(1), key(2), 253).unwrap();
    protocol.total_staked = 5;
    let before = protocol;
    update_jupiter_vault(&mut protocol, key(9));
    assert_eq!(protocol, Protocol { jupiter_vault: key(9), ..before });
    assert_ne!(protocol, before);
}

#[test]
fn vacant_position_is_inactive_and_empty() {
    let user = User::vacant(key(5));
    assert_eq!(user.wallet, key(5));
    assert_eq!(user.current_stake, 0);
    assert_eq!(user.loyalty_score, 0);
    assert!(!user.is_active);
}
