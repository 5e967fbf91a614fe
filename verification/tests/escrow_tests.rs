use solescrow::ident::generate_escrow_id;
use solescrow::lifecycle::CreateAsymEscrowParams;
use solescrow::state::{
    Address, AsymEscrow, CurrencyType, EscrowParty, EscrowStatus, ProgramConfig,
};

fn addr(b: u8) -> Address {
    Address { bytes: [b; 32] }
}

fn party(a: Address, required: u64) -> EscrowParty {
    EscrowParty {
        addr: a,
        currency: Address::zero(),
        currency_type: CurrencyType::Native,
        amount: required,
        amount_refunded: 0,
        amount_released: 0,
        amount_paid: 0,
        released: false,
    }
}

#[test]
fn test_program_config_space_calculation() {
    //space calculation should match actual struct
    let expected_space = ProgramConfig::space();

    //space should be reasonable bounds
    assert!(expected_space >= 76); //8 (discriminator) + 32 (authority) + 32 (fee_vault) + 2 (fee_bps) + 1 (paused) + 1 (reserved)
    assert!(expected_space <= 200); //not excessively large
}

#[test]
fn test_create_asym_escrow() {
    //test escrow id generation
    let creator = addr(7);
    let nonce = 12345u64;

    //generate escrow id using same logic as create_escrow
    let expected_id = generate_escrow_id(&creator, nonce);

    //verify id generation is deterministic
    let id2 = generate_escrow_id(&creator, nonce);
    assert_eq!(expected_id, id2);

    //test escrow params validation
    let payer = addr(1);
    let receiver = addr(2);
    let params = CreateAsymEscrowParams {
        payer,
        receiver,
        currency: Address::zero(), //native asset
        amount: 1000000,
        start_time: 1600000000,
        end_time: 1600086400, //24 hours later
        nonce,
    };

    //validate params structure
    assert_eq!(params.payer, payer);
    assert_eq!(params.receiver, receiver);
    assert_eq!(params.currency, Address::zero());
    assert_eq!(params.amount, 1000000);
    assert!(params.start_time < params.end_time);
    assert_eq!(params.nonce, nonce);

    //test default enum values
    assert_eq!(EscrowStatus::default(), EscrowStatus::Pending);
    assert_eq!(CurrencyType::default(), CurrencyType::Native);
}

#[test]
fn test_escrow_payment_calculations() {
    //create mock escrow with 1 SOL requirement
    let mut escrow = AsymEscrow {
        id: [0u8; 32],
        payer: party(addr(1), 1_000_000_000),
        receiver: EscrowParty::default(),
        timestamp: 1600000000,
        start_time: 0,
        end_time: 0,
        status: EscrowStatus::Pending,
        released: false,
        fee_bps: 100,
        creator: addr(9),
        nonce: 12345,
    };

    //test partial payment (0.5 SOL)
    escrow.payer.amount_paid = 500_000_000;
    escrow.status = EscrowStatus::Active;

    //verify payment state
    assert_eq!(escrow.payer.amount_paid, 500_000_000);
    assert_eq!(escrow.status, EscrowStatus::Active);
    assert_eq!(escrow.get_amount_remaining(), 500_000_000);

    //test multiple payments (add another 0.3 SOL)
    escrow.payer.amount_paid = escrow.payer.amount_paid.checked_add(300_000_000).unwrap();

    assert_eq!(escrow.payer.amount_paid, 800_000_000);
    assert_eq!(escrow.get_amount_remaining(), 800_000_000);

    //test full payment completion (add final 0.2 SOL)
    escrow.payer.amount_paid = escrow.payer.amount_paid.checked_add(200_000_000).unwrap();

    assert_eq!(escrow.payer.amount_paid, 1_000_000_000);
    assert!(escrow.payer.amount_paid >= escrow.payer.amount);

    //test overpayment scenario
    escrow.payer.amount_paid = 1_200_000_000; //1.2 SOL paid
    assert!(escrow.payer.amount_paid > escrow.payer.amount);
    assert_eq!(escrow.get_amount_remaining(), 1_200_000_000);
}

#[test]
fn test_escrow_validation_logic() {
    let payer = addr(1);
    let receiver = addr(2);
    let amount = 1_000_000_000u64; //1 SOL

    //test valid escrow parameters
    assert_ne!(payer, receiver); //payer must != receiver
    assert!(amount > 0); //amount must be positive

    //test currency validation for the native asset
    let native_currency = Address::zero();
    assert_eq!(native_currency, Address::zero());

    //test currency validation for a token
    let token_mint = addr(5);
    assert_ne!(token_mint, Address::zero());

    //test zero amount validation (should fail)
    let zero_amount = 0u64;
    assert_eq!(zero_amount, 0);

    //test same payer/receiver (should fail)
    let same_key = addr(3);
    assert_eq!(same_key, same_key);

    //test arithmetic overflow protection
    let max_amount = u64::MAX;
    let safe_add = max_amount.checked_add(1);
    assert_eq!(safe_add, None); //overflow returns None

    let safe_amount = 1_000_000_000u64;
    let safe_result = safe_amount.checked_add(500_000_000);
    assert_eq!(safe_result, Some(1_500_000_000));
}

#[test]
fn test_escrow_timing_logic() {
    //test escrow timing without a live clock (mock scenario)
    let now = 1600000000i64;
    let start_time = now - 3600; //1 hour ago
    let end_time = now + 3600; //1 hour from now

    //test time window validation
    assert!(start_time < now); //started in past
    assert!(end_time > now); //ends in future
    assert!(end_time > start_time); //end after start

    //test immediate start (start_time = 0)
    let immediate_start = 0i64;
    assert_eq!(immediate_start, 0);

    //test no expiry (end_time = 0)
    let no_expiry = 0i64;
    assert_eq!(no_expiry, 0);

    //test expired escrow
    let expired_end = now - 1800; //30 minutes ago
    assert!(expired_end < now);

    //test future start
    let future_start = now + 1800; //30 minutes from now
    assert!(future_start > now);
}

#[test]
fn test_escrow_release_consent_logic() {
    //create mock escrow with full payment made
    let payer_key = addr(1);
    let receiver_key = addr(2);

    let mut escrow = AsymEscrow {
        id: [1u8; 32],
        payer: EscrowParty {
            addr: payer_key,
            currency: Address::zero(),
            currency_type: CurrencyType::Native,
            amount: 1_000_000_000, //1 SOL required
            amount_paid: 1_000_000_000, //1 SOL paid (fully funded)
            amount_refunded: 0,
            amount_released: 0,
            released: false, //no consent yet
        },
        receiver: EscrowParty {
            addr: receiver_key,
            currency: Address::zero(),
            currency_type: CurrencyType::Native,
            amount: 0,
            amount_paid: 0,
            amount_refunded: 0,
            amount_released: 0,
            released: false, //no consent yet
        },
        timestamp: 1600000000,
        start_time: 0,
        end_time: 0,
        status: EscrowStatus::Active,
        released: false,
        fee_bps: 100, //1% fee
        creator: addr(9),
        nonce: 12345,
    };

    //test payer consent
    assert!(!escrow.payer.released);
    escrow.payer.released = true;
    assert!(escrow.payer.released);

    //test receiver consent
    assert!(!escrow.receiver.released);
    escrow.receiver.released = true;
    assert!(escrow.receiver.released);

    //test both parties have consented
    assert!(escrow.payer.released && escrow.receiver.released);

    //test remaining amount calculation
    let remaining = escrow.get_amount_remaining();
    assert_eq!(remaining, 1_000_000_000); //full amount available for release

    //test escrow completion after release
    escrow.released = true;
    escrow.payer.amount_released = 990_000_000; //after 1% fee
    escrow.status = EscrowStatus::Completed;

    assert!(escrow.released);
    assert_eq!(escrow.status, EscrowStatus::Completed);
    assert_eq!(escrow.get_amount_remaining(), 10_000_000); //only fee remains
}

#[test]
fn test_escrow_authorization_logic() {
    let payer_key = addr(1);
    let receiver_key = addr(2);
    let unauthorized_key = addr(3);

    let escrow = AsymEscrow {
        id: [2u8; 32],
        payer: EscrowParty {
            addr: payer_key,
            currency: Address::zero(),
            currency_type: CurrencyType::Native,
            amount: 1_000_000_000,
            amount_paid: 1_000_000_000,
            amount_refunded: 0,
            amount_released: 0,
            released: false,
        },
        receiver: party(receiver_key, 0),
        timestamp: 1600000000,
        start_time: 0,
        end_time: 0,
        status: EscrowStatus::Active,
        released: false,
        fee_bps: 100,
        creator: addr(9),
        nonce: 12346,
    };

    //test payer authorization
    let is_payer = payer_key == escrow.payer.addr;
    assert!(is_payer);

    //test receiver authorization
    let is_receiver = receiver_key == escrow.receiver.addr;
    assert!(is_receiver);

    //test unauthorized party
    let is_unauthorized =
        unauthorized_key == escrow.payer.addr || unauthorized_key == escrow.receiver.addr;
    assert!(!is_unauthorized);

    //test mutual authorization check (for release)
    let payer_or_receiver = is_payer || is_receiver;
    assert!(payer_or_receiver);

    let unauthorized_check =
        unauthorized_key == escrow.payer.addr || unauthorized_key == escrow.receiver.addr;
    assert!(!unauthorized_check);
}

#[test]
fn test_escrow_fee_calculation() {
    //test 1% fee calculation (100 basis points)
    let amount = 1_000_000_000u64; //1 SOL
    let fee_bps = 100u16; //1%

    //manual fee calculation
    let expected_fee = amount * (fee_bps as u64) / 10000; //1% of 1 SOL = 0.01 SOL
    let expected_transfer = amount - expected_fee; //0.99 SOL

    assert_eq!(expected_fee, 10_000_000); //0.01 SOL in lamports
    assert_eq!(expected_transfer, 990_000_000); //0.99 SOL in lamports

    //test 2.5% fee calculation (250 basis points)
    let fee_bps_high = 250u16; //2.5%
    let expected_fee_high = amount * (fee_bps_high as u64) / 10000;
    let expected_transfer_high = amount - expected_fee_high;

    assert_eq!(expected_fee_high, 25_000_000); //0.025 SOL in lamports
    assert_eq!(expected_transfer_high, 975_000_000); //0.975 SOL in lamports

    //test zero fee
    let fee_bps_zero = 0u16;
    let expected_fee_zero = amount * (fee_bps_zero as u64) / 10000;
    let expected_transfer_zero = amount - expected_fee_zero;

    assert_eq!(expected_fee_zero, 0);
    assert_eq!(expected_transfer_zero, amount); //full amount

    //test maximum fee (100% - should never happen in practice)
    let fee_bps_max = 10000u16; //100%
    let expected_fee_max = amount * (fee_bps_max as u64) / 10000;

    assert_eq!(expected_fee_max, amount); //entire amount as fee
}
