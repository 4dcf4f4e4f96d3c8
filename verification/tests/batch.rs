use voting_program::batch::{
    batch_process, check_access, check_count, initialize_item, read_value, with_value, ErrorCode,
    Item, ItemAccount, OpType, Operation, VALUE_END, VALUE_START,
};
use voting_program::identity::Identity;

const PROGRAM: Identity = Identity { hi: 1, lo: 1 };
const OTHER_PROGRAM: Identity = Identity { hi: 1, lo: 2 };
const AUTHORITY: Identity = Identity { hi: 0, lo: 5 };

/// A writable record of the program at address `key`.
fn account(key: u128, value: u64) -> ItemAccount {
    ItemAccount { key: Identity { hi: 2, lo: key }, program: PROGRAM, is_writable: true, value }
}

fn add(amount: u64) -> Operation {
    Operation { op_type: OpType::Add, amount }
}

fn subtract(amount: u64) -> Operation {
    Operation { op_type: OpType::Subtract, amount }
}

#[test]
fn a_new_item_has_value_zero() {
    assert_eq!(initialize_item(7, AUTHORITY), Item { id: 7, value: 0, owner: AUTHORITY });
}

#[test]
fn operations_apply_position_by_position() {
    let mut accounts = vec![account(1, 10), account(2, 20), account(3, 30)];
    let operations = vec![add(5), subtract(20), add(0)];
    assert_eq!(batch_process(PROGRAM, &mut accounts, &operations), Ok(()));
    assert_eq!(accounts, vec![account(1, 15), account(2, 0), account(3, 30)]);
}

#[test]
fn values_wrap_around() {
    let mut accounts = vec![account(1, u64::MAX), account(2, 0), account(3, 10)];
    let operations = vec![add(2), subtract(1), subtract(11)];
    assert_eq!(batch_process(PROGRAM, &mut accounts, &operations), Ok(()));
    assert_eq!(accounts[0].value, 1);
    assert_eq!(accounts[1].value, u64::MAX);
    assert_eq!(accounts[2].value, u64::MAX);
    assert_eq!(add(2).apply(u64::MAX), 1);
    assert_eq!(subtract(1).apply(0), u64::MAX);
    assert_eq!(add(3).apply(4), 7);
    assert_eq!(subtract(3).apply(4), 1);
}

#[test]
fn an_account_at_two_positions_is_one_item() {
    let mut accounts = vec![account(1, 10), account(1, 10)];
    let operations = vec![add(1), add(2)];
    assert_eq!(batch_process(PROGRAM, &mut accounts, &operations), Ok(()));
    assert_eq!(accounts, vec![account(1, 13), account(1, 13)]);
}

#[test]
fn repeated_accounts_among_others() {
    let mut accounts = vec![
        account(1, 10),
        account(2, 100),
        account(1, 10),
        account(3, 7),
        account(2, 100),
        account(1, 10),
    ];
    let operations = vec![add(1), subtract(1), subtract(20), add(0), add(5), add(4)];
    assert_eq!(batch_process(PROGRAM, &mut accounts, &operations), Ok(()));
    // Item 1: 10 + 1 - 20 wraps around, then + 4. Item 2: 100 - 1 + 5.
    let first = 10u64.wrapping_add(1).wrapping_sub(20).wrapping_add(4);
    assert_eq!(first, u64::MAX - 4);
    assert_eq!(
        accounts,
        vec![
            account(1, first),
            account(2, 104),
            account(1, first),
            account(3, 7),
            account(2, 104),
            account(1, first),
        ]
    );
}

#[test]
fn the_order_of_operations_on_one_item_counts() {
    // An item's operations commute only as long as none of them wraps; what
    // is fixed is the order of the list.
    let mut accounts = vec![account(1, 0), account(1, 0), account(1, 0)];
    let operations = vec![subtract(1), add(1), add(u64::MAX)];
    assert_eq!(batch_process(PROGRAM, &mut accounts, &operations), Ok(()));
    assert_eq!(accounts[0].value, u64::MAX);
    assert_eq!(accounts[1].value, u64::MAX);
    assert_eq!(accounts[2].value, u64::MAX);
}

#[test]
fn the_first_record_of_an_item_gives_its_value() {
    let mut accounts = vec![account(1, 10), account(1, 99)];
    let operations = vec![add(1), add(2)];
    assert_eq!(batch_process(PROGRAM, &mut accounts, &operations), Ok(()));
    assert_eq!(accounts, vec![account(1, 13), account(1, 13)]);
}

#[test]
fn a_repeated_account_with_a_fault_rejects_the_batch() {
    let mut accounts = vec![account(1, 10), ItemAccount { is_writable: false, ..account(1, 10) }];
    let before = accounts.clone();
    assert_eq!(
        batch_process(PROGRAM, &mut accounts, &vec![add(1), add(2)]),
        Err(ErrorCode::AccountNotWritable)
    );
    assert_eq!(accounts, before);
}

#[test]
fn an_empty_batch_succeeds() {
    let mut accounts: Vec<ItemAccount> = vec![];
    assert_eq!(batch_process(PROGRAM, &mut accounts, &vec![]), Ok(()));
    assert!(accounts.is_empty());
}

#[test]
fn lists_of_different_length_are_rejected() {
    let mut accounts = vec![account(1, 10), account(2, 20)];
    let before = accounts.clone();
    assert_eq!(
        batch_process(PROGRAM, &mut accounts, &vec![add(1)]),
        Err(ErrorCode::AccountCountMismatch)
    );
    assert_eq!(accounts, before);
    assert_eq!(
        batch_process(PROGRAM, &mut accounts, &vec![add(1), add(1), add(1)]),
        Err(ErrorCode::AccountCountMismatch)
    );
    assert_eq!(accounts, before);
    let mut foreign = vec![ItemAccount { program: OTHER_PROGRAM, ..account(1, 10) }];
    assert_eq!(
        batch_process(PROGRAM, &mut foreign, &vec![]),
        Err(ErrorCode::AccountCountMismatch)
    );
    assert_eq!(check_count(2, 2), Ok(()));
    assert_eq!(check_count(0, 0), Ok(()));
    assert_eq!(check_count(2, 3), Err(ErrorCode::AccountCountMismatch));
    assert_eq!(check_count(1, 0), Err(ErrorCode::AccountCountMismatch));
}

#[test]
fn a_foreign_account_rejects_the_whole_batch() {
    let mut accounts = vec![
        account(1, 10),
        ItemAccount { program: OTHER_PROGRAM, ..account(2, 20) },
        account(3, 30),
    ];
    let before = accounts.clone();
    let operations = vec![add(1), add(1), add(1)];
    assert_eq!(batch_process(PROGRAM, &mut accounts, &operations), Err(ErrorCode::InvalidOwner));
    assert_eq!(accounts, before);
}

#[test]
fn a_read_only_account_rejects_the_whole_batch() {
    let mut accounts = vec![account(1, 10), ItemAccount { is_writable: false, ..account(2, 20) }];
    let before = accounts.clone();
    let operations = vec![add(1), add(1)];
    assert_eq!(
        batch_process(PROGRAM, &mut accounts, &operations),
        Err(ErrorCode::AccountNotWritable)
    );
    assert_eq!(accounts, before);
}

#[test]
fn the_first_faulty_account_gives_the_reason() {
    let foreign_and_read_only =
        ItemAccount { program: OTHER_PROGRAM, is_writable: false, ..account(1, 10) };
    assert_eq!(foreign_and_read_only.check(PROGRAM), Err(ErrorCode::InvalidOwner));
    assert_eq!(account(1, 10).check(PROGRAM), Ok(()));
    assert_eq!(check_access(OTHER_PROGRAM, false, PROGRAM), Err(ErrorCode::InvalidOwner));
    assert_eq!(check_access(OTHER_PROGRAM, true, PROGRAM), Err(ErrorCode::InvalidOwner));
    assert_eq!(check_access(PROGRAM, false, PROGRAM), Err(ErrorCode::AccountNotWritable));
    assert_eq!(check_access(PROGRAM, true, PROGRAM), Ok(()));

    let mut accounts = vec![
        ItemAccount { is_writable: false, ..account(1, 10) },
        ItemAccount { program: OTHER_PROGRAM, ..account(2, 20) },
    ];
    let operations = vec![add(1), add(1)];
    assert_eq!(
        batch_process(PROGRAM, &mut accounts, &operations),
        Err(ErrorCode::AccountNotWritable)
    );
    accounts.reverse();
    assert_eq!(batch_process(PROGRAM, &mut accounts, &operations), Err(ErrorCode::InvalidOwner));
}

/// A record of 56 bytes whose byte at each position is the position.
fn record() -> Vec<u8> {
    (0u8..56).collect()
}

#[test]
fn the_value_is_the_third_eight_bytes_of_a_record() {
    assert_eq!(VALUE_START, 16);
    assert_eq!(VALUE_END, 24);
    // Bytes 16 to 23, the lowest first.
    assert_eq!(read_value(&record()), Some(0x1716_1514_1312_1110));
    let mut data = vec![0u8; 24];
    data[16] = 1;
    assert_eq!(read_value(&data), Some(1));
    data[23] = 1;
    assert_eq!(read_value(&data), Some((1 << 56) + 1));
    data[15] = 9;
    assert_eq!(read_value(&data), Some((1 << 56) + 1));
    assert_eq!(read_value(&[0xff; 24]), Some(u64::MAX));
}

#[test]
fn a_record_too_short_holds_no_value() {
    assert_eq!(read_value(&[]), None);
    assert_eq!(read_value(&[0u8; 23]), None);
    assert_eq!(read_value(&[0u8; 24]), Some(0));
    assert_eq!(with_value(&[], 1), None);
    assert_eq!(with_value(&[0u8; 23], 1), None);
    assert!(with_value(&[0u8; 24], 1).is_some());
}

#[test]
fn writing_a_value_changes_its_eight_bytes_only() {
    let data = record();
    let written = with_value(&data, 0x0102_0304_0506_0708).unwrap();
    assert_eq!(written.len(), data.len());
    assert_eq!(&written[..16], &data[..16]);
    assert_eq!(&written[16..24], &[8, 7, 6, 5, 4, 3, 2, 1]);
    assert_eq!(&written[24..], &data[24..]);
    assert_eq!(read_value(&written), Some(0x0102_0304_0506_0708));

    let exact = with_value(&[7u8; 24], u64::MAX).unwrap();
    assert_eq!(&exact[..16], &[7u8; 16]);
    assert_eq!(&exact[16..], &[0xff; 8]);
    assert_eq!(with_value(&data, read_value(&data).unwrap()), Some(data));
}

#[test]
fn a_batch_on_stored_records() {
    let mut first = record();
    let mut second = vec![0u8; 24];
    let mut accounts = vec![
        account(1, read_value(&first).unwrap()),
        account(2, read_value(&second).unwrap()),
    ];
    assert_eq!(batch_process(PROGRAM, &mut accounts, &vec![add(1), subtract(1)]), Ok(()));
    first = with_value(&first, accounts[0].value).unwrap();
    second = with_value(&second, accounts[1].value).unwrap();
    assert_eq!(first[16], 0x11);
    assert_eq!(&first[17..], &record()[17..]);
    assert_eq!(&first[..16], &record()[..16]);
    assert_eq!(&second[..16], &[0u8; 16]);
    assert_eq!(&second[16..], &[0xff; 8]);
}
