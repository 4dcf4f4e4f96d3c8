//! Batched updates of item values: one operation per position of a list of
//! item records, applied in the order of the list, to the whole list or not
//! at all. Also where the value stands among the bytes of a stored record.

use vstd::bytes::{
    lemma_auto_spec_u64_to_from_le_bytes,
    spec_u64_from_le_bytes,
    spec_u64_to_le_bytes,
    u64_from_le_bytes,
    u64_to_le_bytes,
};
use vstd::prelude::*;
use vstd::slice::slice_subrange;
use crate::identity::Identity;

verus! {

/// A stored item.
#[derive(Clone, Copy, Debug, PartialEq, Eq, Structural)]
pub struct Item {
    /// The item's identifier.
    pub id: u64,
    /// The number that operations change.
    pub value: u64,
    /// The identity that created the item.
    pub owner: Identity,
}

/// What an operation does to a value.
#[derive(Clone, Copy, Debug, PartialEq, Eq, Structural)]
pub enum OpType {
    /// Adds the amount, wrapping around at `u64::MAX`.
    Add,
    /// Subtracts the amount, wrapping around at zero.
    Subtract,
}

/// One change of one item's value.
#[derive(Clone, Copy, Debug, PartialEq, Eq, Structural)]
pub struct Operation {
    /// Whether to add or to subtract.
    pub op_type: OpType,
    /// By how much.
    pub amount: u64,
}

/// Why a batch is rejected.
#[derive(Clone, Copy, Debug, PartialEq, Eq, Structural)]
pub enum ErrorCode {
    /// There are not as many operations as items.
    AccountCountMismatch,
    /// An item's record belongs to another program.
    InvalidOwner,
    /// An item's record was not handed over for writing.
    AccountNotWritable,
}

/// The record of an item as the store hands it over for a batch: its
/// address, the program that the record belongs to, whether it may be
/// written, and the item's value.
///
/// One record may stand at several positions of a batch. It is then one item:
/// what an operation writes at one position, the operations at the later
/// positions find.
#[derive(Clone, Copy, Debug, PartialEq, Eq, Structural)]
pub struct ItemAccount {
    /// The address of the record.
    pub key: Identity,
    /// The program that the record belongs to.
    pub program: Identity,
    /// Whether the record may be written.
    pub is_writable: bool,
    /// The value of the item.
    pub value: u64,
}

/// Where the value of an item begins in its record: after a tag of eight
/// bytes and the identifier.
pub const VALUE_START: usize = 16;

/// Where the value of an item ends in its record.
pub const VALUE_END: usize = 24;

/// The value that a record of at least `VALUE_END` bytes holds: the eight
/// bytes from `VALUE_START` on, read as a little-endian number.
pub open spec fn value_in(data: Seq<u8>) -> u64 {
    spec_u64_from_le_bytes(data.subrange(VALUE_START as int, VALUE_END as int))
}

/// The value that `operation` makes of `value`.
pub open spec fn applied(value: u64, operation: Operation) -> u64 {
    match operation.op_type {
        OpType::Add => value.wrapping_add(operation.amount),
        OpType::Subtract => value.wrapping_sub(operation.amount),
    }
}

/// Why a record that belongs to `owner` cannot be updated on behalf of
/// `program`, if it cannot: its owner is judged first.
pub open spec fn access_fault(owner: Identity, is_writable: bool, program: Identity) -> Option<
    ErrorCode,
> {
    if owner != program {
        Some(ErrorCode::InvalidOwner)
    } else if !is_writable {
        Some(ErrorCode::AccountNotWritable)
    } else {
        None
    }
}

/// Why `account` cannot be updated on behalf of `program`, if it cannot.
pub open spec fn fault(account: ItemAccount, program: Identity) -> Option<ErrorCode> {
    access_fault(account.program, account.is_writable, program)
}

/// `account` after `operation`: only the value changes.
pub open spec fn updated(account: ItemAccount, operation: Operation) -> ItemAccount {
    ItemAccount { value: applied(account.value, operation), ..account }
}

/// Whether one of the first `n` records stands at address `key`.
pub open spec fn holds_before(accounts: Seq<ItemAccount>, key: Identity, n: int) -> bool {
    exists|j: int| 0 <= j < n && j < accounts.len() && (#[trigger] accounts[j]).key == key
}

/// Whether position `i` is the first at which a record stands at address
/// `key`.
pub open spec fn is_first(accounts: Seq<ItemAccount>, key: Identity, i: int) -> bool {
    0 <= i < accounts.len() && accounts[i].key == key && !holds_before(accounts, key, i)
}

/// The first position at which a record stands at address `key`, where there
/// is one.
pub open spec fn first_index(accounts: Seq<ItemAccount>, key: Identity) -> int {
    choose|i: int| is_first(accounts, key, i)
}

/// The value that the item at address `key` has before the batch: the value
/// of the first record at that address.
pub open spec fn first_value(accounts: Seq<ItemAccount>, key: Identity) -> u64 {
    accounts[first_index(accounts, key)].value
}

/// The value of the item at address `key` after the first `n` operations:
/// the operations at the positions where the item stands, applied in the
/// order of the list, each to what the one before it left.
pub open spec fn value_after(
    accounts: Seq<ItemAccount>,
    operations: Seq<Operation>,
    key: Identity,
    n: nat,
) -> u64
    decreases n,
{
    if n == 0 {
        first_value(accounts, key)
    } else {
        let before = value_after(accounts, operations, key, (n - 1) as nat);
        if accounts[n - 1].key == key {
            applied(before, operations[n - 1])
        } else {
            before
        }
    }
}

/// The record at position `i` after the whole batch: it holds the value that
/// its item has after every operation.
pub open spec fn processed(accounts: Seq<ItemAccount>, operations: Seq<Operation>, i: int) -> ItemAccount {
    ItemAccount {
        value: value_after(accounts, operations, accounts[i].key, accounts.len()),
        ..accounts[i]
    }
}

/// The first position of an address is the one position that no record at
/// that address stands before.
pub proof fn lemma_first_index(accounts: Seq<ItemAccount>, key: Identity, i: int)
    requires
        is_first(accounts, key, i),
    ensures
        first_index(accounts, key) == i,
{
    let f = first_index(accounts, key);
    assert(is_first(accounts, key, f));
    if f < i {
        assert(accounts[f].key == key);
    } else if i < f {
        assert(accounts[i].key == key);
    }
}

/// As long as no operation has reached an item, it has the value that it had
/// before the batch.
pub proof fn lemma_value_untouched(
    accounts: Seq<ItemAccount>,
    operations: Seq<Operation>,
    key: Identity,
    n: nat,
)
    requires
        n <= accounts.len(),
        !holds_before(accounts, key, n as int),
    ensures
        value_after(accounts, operations, key, n) == first_value(accounts, key),
    decreases n,
{
    if n > 0 {
        assert(accounts[n - 1].key != key);
        lemma_value_untouched(accounts, operations, key, (n - 1) as nat);
    }
}

/// Where every record stands at an address of its own, the batch applies to
/// each record the one operation at its position.
pub proof fn lemma_distinct_accounts_change_once(
    accounts: Seq<ItemAccount>,
    operations: Seq<Operation>,
    i: int,
)
    requires
        accounts.len() == operations.len(),
        0 <= i < accounts.len(),
        forall|a: int, b: int|
            0 <= a < b < accounts.len() ==> (#[trigger] accounts[a]).key != (
            #[trigger] accounts[b]).key,
    ensures
        processed(accounts, operations, i) == updated(accounts[i], operations[i]),
{
    let key = accounts[i].key;
    assert(is_first(accounts, key, i));
    lemma_first_index(accounts, key, i);
    lemma_value_untouched(accounts, operations, key, i as nat);
    lemma_value_settled(accounts, operations, i, accounts.len());
}

/// Once the one operation on a record at an address of its own is done, the
/// later operations leave the record's value as it is.
proof fn lemma_value_settled(
    accounts: Seq<ItemAccount>,
    operations: Seq<Operation>,
    i: int,
    n: nat,
)
    requires
        0 <= i < n <= accounts.len(),
        forall|a: int, b: int|
            0 <= a < b < accounts.len() ==> (#[trigger] accounts[a]).key != (
            #[trigger] accounts[b]).key,
    ensures
        value_after(accounts, operations, accounts[i].key, n) == applied(
            value_after(accounts, operations, accounts[i].key, i as nat),
            operations[i],
        ),
    decreases n,
{
    if n > i + 1 {
        assert(accounts[i].key != accounts[n - 1].key);
        lemma_value_settled(accounts, operations, i, (n - 1) as nat);
    }
}

/// The item that `authority` creates under `id`: its value is zero.
pub fn initialize_item(id: u64, authority: Identity) -> (item: Item)
    ensures
        item == (Item { id, value: 0, owner: authority }),
{
    Item { id, value: 0, owner: authority }
}

/// Reads the value of an item out of its record, which must hold at least
/// `VALUE_END` bytes.
pub fn read_value(data: &[u8]) -> (value: Option<u64>)
    ensures
        data@.len() < VALUE_END ==> value is None,
        data@.len() >= VALUE_END ==> value == Some(value_in(data@)),
{
    if data.len() < VALUE_END {
        return None;
    }
    Some(u64_from_le_bytes(slice_subrange(data, VALUE_START, VALUE_END)))
}

/// The record `data` with `value` as the value of its item: the eight bytes
/// from `VALUE_START` on hold `value` as a little-endian number, and every
/// other byte is as it was. The record must hold at least `VALUE_END` bytes.
pub fn with_value(data: &[u8], value: u64) -> (out: Option<Vec<u8>>)
    ensures
        data@.len() < VALUE_END ==> out is None,
        data@.len() >= VALUE_END ==> out is Some && out->0@.len() == data@.len() && value_in(
            out->0@,
        ) == value && out->0@.subrange(VALUE_START as int, VALUE_END as int)
            == spec_u64_to_le_bytes(value) && forall|i: int|
            0 <= i < VALUE_START || VALUE_END <= i < data@.len() ==> out->0@[i] == data@[i],
{
    if data.len() < VALUE_END {
        return None;
    }
    let bytes: Vec<u8> = u64_to_le_bytes(value);
    let mut out: Vec<u8> = Vec::new();
    let mut i: usize = 0;
    while i < data.len()
        invariant
            i <= data@.len(),
            data@.len() >= VALUE_END,
            bytes@.len() == 8,
            out@.len() == i,
            forall|j: int|
                0 <= j < i ==> #[trigger] out@[j] == if VALUE_START <= j < VALUE_END {
                    bytes@[j - VALUE_START]
                } else {
                    data@[j]
                },
        decreases data@.len() - i,
    {
        let byte: u8 = if i >= VALUE_START && i < VALUE_END {
            bytes[i - VALUE_START]
        } else {
            data[i]
        };
        out.push(byte);
        i += 1;
    }
    proof {
        lemma_auto_spec_u64_to_from_le_bytes();
        assert(out@.subrange(VALUE_START as int, VALUE_END as int) =~= bytes@);
    }
    Some(out)
}

/// Checks that there is one operation for each account.
pub fn check_count(accounts: usize, operations: usize) -> (res: Result<(), ErrorCode>)
    ensures
        accounts == operations ==> res is Ok,
        accounts != operations ==> res == Err::<(), ErrorCode>(ErrorCode::AccountCountMismatch),
{
    if operations != accounts {
        Err(ErrorCode::AccountCountMismatch)
    } else {
        Ok(())
    }
}

/// Checks that a record that belongs to `owner` can be updated on behalf of
/// `program`.
pub fn check_access(owner: Identity, is_writable: bool, program: Identity) -> (res: Result<
    (),
    ErrorCode,
>)
    ensures
        match access_fault(owner, is_writable, program) {
            Some(e) => res == Err::<(), ErrorCode>(e),
            None => res is Ok,
        },
{
    if owner != program {
        Err(ErrorCode::InvalidOwner)
    } else if !is_writable {
        Err(ErrorCode::AccountNotWritable)
    } else {
        Ok(())
    }
}

impl Operation {
    /// The value that this operation makes of `value`.
    pub fn apply(&self, value: u64) -> (result: u64)
        ensures
            result == applied(value, *self),
    {
        match self.op_type {
            OpType::Add => value.wrapping_add(self.amount),
            OpType::Subtract => value.wrapping_sub(self.amount),
        }
    }
}

impl ItemAccount {
    /// Checks that the account can be updated on behalf of `program`.
    pub fn check(&self, program: Identity) -> (res: Result<(), ErrorCode>)
        ensures
            match fault(*self, program) {
                Some(e) => res == Err::<(), ErrorCode>(e),
                None => res is Ok,
            },
    {
        check_access(self.program, self.is_writable, program)
    }
}

/// Writes `value` into every record that stands at address `key`.
fn store_value(accounts: &mut Vec<ItemAccount>, key: Identity, value: u64)
    ensures
        final(accounts)@.len() == old(accounts)@.len(),
        forall|i: int|
            0 <= i < old(accounts)@.len() ==> #[trigger] final(accounts)@[i] == if old(
                accounts,
            )@[i].key == key {
                ItemAccount { value, ..old(accounts)@[i] }
            } else {
                old(accounts)@[i]
            },
{
    let mut j: usize = 0;
    while j < accounts.len()
        invariant
            j <= accounts.len(),
            accounts@.len() == old(accounts)@.len(),
            forall|i: int|
                0 <= i < j ==> #[trigger] accounts@[i] == if old(accounts)@[i].key == key {
                    ItemAccount { value, ..old(accounts)@[i] }
                } else {
                    old(accounts)@[i]
                },
            forall|i: int| j <= i < accounts@.len() ==> #[trigger] accounts@[i] == old(accounts)@[i],
        decreases accounts.len() - j,
    {
        if accounts[j].key == key {
            accounts[j].value = value;
        }
        j += 1;
    }
}

/// The record at position `i` while a batch is under way, after the first
/// `n` operations: as it was, unless an operation has reached its item.
spec fn in_progress(
    accounts: Seq<ItemAccount>,
    operations: Seq<Operation>,
    i: int,
    n: nat,
) -> ItemAccount {
    if holds_before(accounts, accounts[i].key, n as int) {
        ItemAccount { value: value_after(accounts, operations, accounts[i].key, n), ..accounts[i] }
    } else {
        accounts[i]
    }
}

/// Applies `operations` to `accounts` on behalf of `program`, the operation
/// at each position to the item whose record stands at that position, in the
/// order of the list. Where one item stands at several positions, each of
/// its operations finds what the one before it left, and in the end each of
/// its records holds the item's last value.
///
/// The batch is rejected, and nothing changed, where the two lists differ in
/// length or where an account cannot be updated; the account at the lowest
/// position that cannot be updated gives the reason.
pub fn batch_process(
    program: Identity,
    accounts: &mut Vec<ItemAccount>,
    operations: &Vec<Operation>,
) -> (res: Result<(), ErrorCode>)
    ensures
        res is Err ==> final(accounts)@ == old(accounts)@,
        old(accounts)@.len() != operations@.len() <==> res == Err::<(), ErrorCode>(
            ErrorCode::AccountCountMismatch,
        ),
        res is Ok <==> old(accounts)@.len() == operations@.len() && forall|i: int|
            0 <= i < old(accounts)@.len() ==> fault(#[trigger] old(accounts)@[i], program) is None,
        res is Ok ==> final(accounts)@.len() == old(accounts)@.len() && forall|i: int|
            0 <= i < old(accounts)@.len() ==> #[trigger] final(accounts)@[i] == processed(
                old(accounts)@,
                operations@,
                i,
            ),
        res is Err && old(accounts)@.len() == operations@.len() ==> exists|i: int|
            0 <= i < old(accounts)@.len() && fault(#[trigger] old(accounts)@[i], program) == Some(
                res->Err_0,
            ) && forall|j: int| 0 <= j < i ==> fault(#[trigger] old(accounts)@[j], program) is None,
{
    if let Err(e) = check_count(accounts.len(), operations.len()) {
        return Err(e);
    }
    let mut i: usize = 0;
    while i < accounts.len()
        invariant
            i <= accounts.len(),
            accounts@ == old(accounts)@,
            accounts@.len() == operations@.len(),
            forall|j: int| 0 <= j < i ==> fault(#[trigger] accounts@[j], program) is None,
        decreases accounts.len() - i,
    {
        if let Err(e) = accounts[i].check(program) {
            proof {
                assert(fault(old(accounts)@[i as int], program) == Some(e));
            }
            return Err(e);
        }
        i += 1;
    }
    let ghost before = accounts@;
    let mut k: usize = 0;
    while k < accounts.len()
        invariant
            k <= accounts.len(),
            before == old(accounts)@,
            accounts@.len() == before.len(),
            accounts@.len() == operations@.len(),
            forall|i: int|
                0 <= i < before.len() ==> #[trigger] accounts@[i] == in_progress(
                    before,
                    operations@,
                    i,
                    k as nat,
                ),
        decreases accounts.len() - k,
    {
        let key = accounts[k].key;
        let value: u64 = operations[k].apply(accounts[k].value);
        proof {
            assert(accounts@[k as int] == in_progress(before, operations@, k as int, k as nat));
            if !holds_before(before, key, k as int) {
                assert(is_first(before, key, k as int));
                lemma_first_index(before, key, k as int);
                lemma_value_untouched(before, operations@, key, k as nat);
            }
            assert(value == value_after(before, operations@, key, (k + 1) as nat));
        }
        let ghost halfway = accounts@;
        store_value(accounts, key, value);
        proof {
            assert forall|i: int| 0 <= i < before.len() implies #[trigger] accounts@[i]
                == in_progress(before, operations@, i, (k + 1) as nat) by {
                assert(halfway[i] == in_progress(before, operations@, i, k as nat));
                if before[i].key == key {
                    assert(before[k as int].key == key);
                    assert(holds_before(before, before[i].key, k + 1));
                } else {
                    assert(holds_before(before, before[i].key, k + 1) == holds_before(
                        before,
                        before[i].key,
                        k as int,
                    ));
                }
            }
        }
        k += 1;
    }
    proof {
        assert forall|i: int| 0 <= i < before.len() implies #[trigger] accounts@[i] == processed(
            before,
            operations@,
            i,
        ) by {
            assert(accounts@[i] == in_progress(before, operations@, i, before.len()));
            assert(before[i].key == before[i].key);
            assert(holds_before(before, before[i].key, before.len() as int));
        }
    }
    Ok(())
}

} // verus!
