//! The escrow ledger: one record per depositor's slot, created with a deposit
//! and released, whole, to its depositor once the lock window has passed.

use crate::addressing::same_key;
use vstd::prelude::*;
use vstd::string::StringSliceAdditionalSpecFns;

verus! {

/// Time units that must pass after a deposit before it can be withdrawn.
pub const LOCK_DURATION: i64 = 10;

/// Largest content hash, in bytes.
pub const MAX_PDF_HASH_LEN: usize = 64;

/// Largest latitude text, in bytes.
pub const MAX_LATITUDE_LEN: usize = 32;

/// Largest longitude text, in bytes.
pub const MAX_LONGITUDE_LEN: usize = 32;

/// Bytes of storage a slot is allocated: an eight-byte type tag, each bounded
/// string as a four-byte length and its bytes, then price, depositor,
/// timestamp and deposit amount.
pub const DATA_ACCOUNT_LEN: usize = 8 + 4 + 64 + 4 + 32 + 4 + 32 + 8 + 32 + 8 + 8;

/// Why an operation was refused; a refused operation changes nothing.
#[derive(Debug, Clone, Copy, PartialEq, Eq, Structural)]
pub enum EscrowError {
    /// A required text field is empty.
    InvalidArgument,
    /// A text field is longer than its slot layout holds.
    FieldTooLong,
    /// The depositor's slot already holds an open record.
    AlreadyExists,
    /// The slot holds no record.
    NotFound,
    /// The lock window has not passed yet.
    TooEarly,
    /// The caller is not the recorded depositor.
    Unauthorized,
    /// The caller cannot pay the storage cost and the deposit.
    InsufficientFunds,
    /// The slot holds less than the recorded deposit.
    InsufficientCustody,
    /// A balance would exceed its range.
    BalanceOverflow,
    /// The host could not tell the current time.
    ClockUnavailable,
}

/// One escrow record.
#[derive(Debug)]
pub struct DataAccount {
    pub pdf_hash: String,
    pub latitude: String,
    pub longitude: String,
    pub price: u64,
    pub depositor: [u8; 32],
    pub timestamp: i64,
    pub deposit_amount: u64,
}

/// A balance holder that signs the operation.
#[derive(Debug, Clone, Copy)]
pub struct Wallet {
    pub key: [u8; 32],
    pub lamports: u64,
}

/// A depositor's storage slot: its record, if open, and the value it holds.
#[derive(Debug)]
pub struct Slot {
    pub data: Option<DataAccount>,
    pub lamports: u64,
}

impl Slot {
    /// A closed slot holds no value; an open one holds at least its deposit.
    pub open spec fn wf(&self) -> bool {
        match self.data {
            Some(d) => self.lamports >= d.deposit_amount,
            None => self.lamports == 0,
        }
    }
}

/// What a submission acts on: the caller and the caller's slot.
#[derive(Debug)]
pub struct SubmitData {
    pub user: Wallet,
    pub data_account: Slot,
}

/// What a withdrawal acts on: the caller and the caller's slot.
#[derive(Debug)]
pub struct Withdraw {
    pub user: Wallet,
    pub data_account: Slot,
}

/// Length in bytes of the UTF-8 encoding of `s`.
pub open spec fn byte_len(s: Seq<char>) -> nat {
    vstd::utf8::encode_utf8(s).len()
}

/// A text of `n` characters takes between `n` and `4 * n` bytes.
pub proof fn lemma_byte_len_bounds(s: Seq<char>)
    ensures
        s.len() <= byte_len(s) <= 4 * s.len(),
    decreases s.len(),
{
    if s.len() > 0 {
        lemma_byte_len_bounds(s.drop_first());
        let e = vstd::utf8::encode_scalar(s[0] as u32);
        assert(1 <= e.len() <= 4);
    }
}

/// The outcome of a submission on `ctx` with the clock reading `now`, storage
/// cost `rent`, and the given fields.
pub open spec fn submit_result(
    ctx: SubmitData,
    now: Option<i64>,
    rent: u64,
    pdf_hash: Seq<char>,
    latitude: Seq<char>,
    longitude: Seq<char>,
    deposit_amount: u64,
) -> Result<(), EscrowError> {
    if ctx.data_account.data is Some {
        Err(EscrowError::AlreadyExists)
    } else if pdf_hash.len() == 0 || latitude.len() == 0 || longitude.len() == 0 {
        Err(EscrowError::InvalidArgument)
    } else if byte_len(pdf_hash) > MAX_PDF_HASH_LEN || byte_len(latitude) > MAX_LATITUDE_LEN
        || byte_len(longitude) > MAX_LONGITUDE_LEN {
        Err(EscrowError::FieldTooLong)
    } else if now is None {
        Err(EscrowError::ClockUnavailable)
    } else if ctx.user.lamports < rent + deposit_amount {
        Err(EscrowError::InsufficientFunds)
    } else if ctx.data_account.lamports + rent + deposit_amount > u64::MAX {
        Err(EscrowError::BalanceOverflow)
    } else {
        Ok(())
    }
}

/// The state after a successful submission: the record written with the
/// caller as depositor and `now` as timestamp, and `rent + deposit_amount`
/// moved from the caller to the slot.
pub open spec fn submitted(ctx: SubmitData, now: i64, rent: u64, record: DataAccount) -> SubmitData {
    SubmitData {
        user: Wallet {
            key: ctx.user.key,
            lamports: (ctx.user.lamports - rent - record.deposit_amount) as u64,
        },
        data_account: Slot {
            data: Some(DataAccount { depositor: ctx.user.key, timestamp: now, ..record }),
            lamports: (ctx.data_account.lamports + rent + record.deposit_amount) as u64,
        },
    }
}

/// Whether the lock window of a record made at `timestamp` is still running at `now`.
pub open spec fn locked(timestamp: i64, now: i64) -> bool {
    now < timestamp + LOCK_DURATION
}

/// The outcome of a withdrawal on `ctx` with the clock reading `now`.
pub open spec fn withdraw_result(ctx: Withdraw, now: Option<i64>) -> Result<(), EscrowError> {
    match ctx.data_account.data {
        None => Err(EscrowError::NotFound),
        Some(d) => if now is None {
            Err(EscrowError::ClockUnavailable)
        } else if locked(d.timestamp, now->0) {
            Err(EscrowError::TooEarly)
        } else if d.depositor@ != ctx.user.key@ {
            Err(EscrowError::Unauthorized)
        } else if ctx.data_account.lamports < d.deposit_amount {
            Err(EscrowError::InsufficientCustody)
        } else if ctx.user.lamports + ctx.data_account.lamports > u64::MAX {
            Err(EscrowError::BalanceOverflow)
        } else {
            Ok(())
        },
    }
}

/// The state after a successful withdrawal: the record destroyed and all the
/// slot held (the deposit and the storage cost) returned to the caller.
pub open spec fn withdrawn(ctx: Withdraw) -> Withdraw {
    Withdraw {
        user: Wallet {
            key: ctx.user.key,
            lamports: (ctx.user.lamports + ctx.data_account.lamports) as u64,
        },
        data_account: Slot { data: None, lamports: 0 },
    }
}

/// Opens the caller's slot: records the fields, the caller as depositor and
/// `now` as timestamp, and moves the storage cost `rent` and `deposit_amount`
/// from the caller into the slot. `now` is `None` where the host's clock
/// could not be read.
pub fn submit_data(
    ctx: &mut SubmitData,
    now: Option<i64>,
    rent: u64,
    pdf_hash: String,
    latitude: String,
    longitude: String,
    price: u64,
    deposit_amount: u64,
) -> (r: Result<(), EscrowError>)
    ensures
        r == submit_result(*old(ctx), now, rent, pdf_hash@, latitude@, longitude@, deposit_amount),
        r is Ok ==> *final(ctx) == submitted(
            *old(ctx),
            now->0,
            rent,
            (DataAccount {
                pdf_hash,
                latitude,
                longitude,
                price,
                depositor: old(ctx).user.key,
                timestamp: now->0,
                deposit_amount,
            }),
        ),
        r is Err ==> *final(ctx) == *old(ctx),
{
    if ctx.data_account.data.is_some() {
        return Err(EscrowError::AlreadyExists);
    }
    if pdf_hash.as_str().is_empty() || latitude.as_str().is_empty() || longitude.as_str().is_empty() {
        return Err(EscrowError::InvalidArgument);
    }
    if pdf_hash.as_str().as_bytes().len() > MAX_PDF_HASH_LEN
        || latitude.as_str().as_bytes().len() > MAX_LATITUDE_LEN
        || longitude.as_str().as_bytes().len() > MAX_LONGITUDE_LEN {
        return Err(EscrowError::FieldTooLong);
    }
    let timestamp = match now {
        Some(t) => t,
        None => {
            return Err(EscrowError::ClockUnavailable);
        },
    };
    if deposit_amount > ctx.user.lamports || rent > ctx.user.lamports - deposit_amount {
        return Err(EscrowError::InsufficientFunds);
    }
    let total: u64 = rent + deposit_amount;
    if ctx.data_account.lamports > u64::MAX - total {
        return Err(EscrowError::BalanceOverflow);
    }
    ctx.user.lamports = ctx.user.lamports - total;
    ctx.data_account.lamports = ctx.data_account.lamports + total;
    let depositor = ctx.user.key;
    ctx.data_account.data = Some(
        DataAccount { pdf_hash, latitude, longitude, price, depositor, timestamp, deposit_amount },
    );
    Ok(())
}

/// Closes the caller's slot: once the lock window has passed, and only for
/// the recorded depositor, moves the deposit back to the caller, then returns
/// what remains (the storage cost) to the caller and destroys the record.
/// `now` is `None` where the host's clock could not be read.
pub fn withdraw(ctx: &mut Withdraw, now: Option<i64>) -> (r: Result<(), EscrowError>)
    ensures
        r == withdraw_result(*old(ctx), now),
        r is Ok ==> *final(ctx) == withdrawn(*old(ctx)),
        r is Err ==> *final(ctx) == *old(ctx),
{
    let (timestamp, depositor, amount) = match &ctx.data_account.data {
        None => {
            return Err(EscrowError::NotFound);
        },
        Some(d) => (d.timestamp, d.depositor, d.deposit_amount),
    };
    let now = match now {
        Some(t) => t,
        None => {
            return Err(EscrowError::ClockUnavailable);
        },
    };
    if timestamp > i64::MAX - LOCK_DURATION || now < timestamp + LOCK_DURATION {
        return Err(EscrowError::TooEarly);
    }
    if !same_key(&depositor, &ctx.user.key) {
        return Err(EscrowError::Unauthorized);
    }
    if ctx.data_account.lamports < amount {
        return Err(EscrowError::InsufficientCustody);
    }
    if ctx.user.lamports > u64::MAX - ctx.data_account.lamports {
        return Err(EscrowError::BalanceOverflow);
    }
    ctx.data_account.lamports = ctx.data_account.lamports - amount;
    ctx.user.lamports = ctx.user.lamports + amount;
    let reclaimed = ctx.data_account.lamports;
    ctx.data_account.lamports = 0;
    ctx.user.lamports = ctx.user.lamports + reclaimed;
    ctx.data_account.data = None;
    Ok(())
}

/// A submission moves value only between the caller and the slot: what the
/// caller is debited equals what the slot gains, and that is the storage cost
/// plus the recorded deposit.
pub proof fn lemma_submit_conserves_value(ctx: SubmitData, now: i64, rent: u64, record: DataAccount)
    requires
        submit_result(
            ctx,
            Some(now),
            rent,
            record.pdf_hash@,
            record.latitude@,
            record.longitude@,
            record.deposit_amount,
        ) is Ok,
    ensures
        ({
            let after = submitted(ctx, now, rent, record);
            &&& ctx.user.lamports - after.user.lamports == after.data_account.lamports
                - ctx.data_account.lamports
            &&& after.data_account.lamports - ctx.data_account.lamports == rent
                + record.deposit_amount
            &&& after.data_account.data->0.deposit_amount == record.deposit_amount
        }),
{
}

/// On a slot with no open record, a submission with an empty content hash,
/// latitude or longitude is refused as an invalid argument.
pub proof fn lemma_empty_field_refused(
    ctx: SubmitData,
    now: Option<i64>,
    rent: u64,
    pdf_hash: Seq<char>,
    latitude: Seq<char>,
    longitude: Seq<char>,
    deposit_amount: u64,
)
    requires
        ctx.data_account.data is None,
        pdf_hash.len() == 0 || latitude.len() == 0 || longitude.len() == 0,
    ensures
        submit_result(ctx, now, rent, pdf_hash, latitude, longitude, deposit_amount) == Err::<
            (),
            EscrowError,
        >(EscrowError::InvalidArgument),
{
}

/// A submission on a slot that holds an open record is refused as a
/// duplicate, whatever the fields.
pub proof fn lemma_open_slot_refused(
    ctx: SubmitData,
    now: Option<i64>,
    rent: u64,
    pdf_hash: Seq<char>,
    latitude: Seq<char>,
    longitude: Seq<char>,
    deposit_amount: u64,
)
    requires
        ctx.data_account.data is Some,
    ensures
        submit_result(ctx, now, rent, pdf_hash, latitude, longitude, deposit_amount) == Err::<
            (),
            EscrowError,
        >(EscrowError::AlreadyExists),
{
}

/// Before `timestamp + LOCK_DURATION` a withdrawal is too early; from then on
/// the depositor's withdrawal from a well-formed slot succeeds, where the
/// caller's balance can take what the slot holds, and leaves the slot empty.
pub proof fn lemma_lock_window(ctx: Withdraw, now: i64)
    requires
        ctx.data_account.data is Some,
    ensures
        locked(ctx.data_account.data->0.timestamp, now) ==> withdraw_result(ctx, Some(now))
            == Err::<(), EscrowError>(EscrowError::TooEarly),
        !locked(ctx.data_account.data->0.timestamp, now) && ctx.data_account.data->0.depositor@
            == ctx.user.key@ && ctx.data_account.wf() && ctx.user.lamports
            + ctx.data_account.lamports <= u64::MAX ==> withdraw_result(ctx, Some(now)) is Ok
            && withdrawn(ctx).data_account.data is None,
{
}

/// Once the lock window has passed, a withdrawal by anyone but the recorded
/// depositor is refused as unauthorized.
pub proof fn lemma_only_depositor_withdraws(ctx: Withdraw, now: i64)
    requires
        ctx.data_account.data is Some,
        !locked(ctx.data_account.data->0.timestamp, now),
        ctx.data_account.data->0.depositor@ != ctx.user.key@,
    ensures
        withdraw_result(ctx, Some(now)) == Err::<(), EscrowError>(EscrowError::Unauthorized),
{
}

/// Submitting to an empty slot and withdrawing once the lock window has passed
/// succeeds, returns the caller to the balance they started with (the deposit
/// and the storage cost both come back), and leaves the slot empty.
pub proof fn lemma_round_trip(ctx: SubmitData, now: i64, later: i64, rent: u64, record: DataAccount)
    requires
        ctx.data_account.wf(),
        submit_result(
            ctx,
            Some(now),
            rent,
            record.pdf_hash@,
            record.latitude@,
            record.longitude@,
            record.deposit_amount,
        ) is Ok,
        later >= now + LOCK_DURATION,
    ensures
        ({
            let opened = submitted(ctx, now, rent, record);
            let w = Withdraw { user: opened.user, data_account: opened.data_account };
            &&& withdraw_result(w, Some(later)) is Ok
            &&& withdrawn(w).user == ctx.user
            &&& withdrawn(w).data_account.data is None
            &&& withdrawn(w).data_account.lamports == 0
        }),
{
}

/// Successful submissions and withdrawals keep a slot well-formed.
pub proof fn lemma_operations_keep_slot_wf(
    sub: SubmitData,
    now: i64,
    rent: u64,
    record: DataAccount,
    wd: Withdraw,
)
    requires
        sub.data_account.wf(),
        submit_result(
            sub,
            Some(now),
            rent,
            record.pdf_hash@,
            record.latitude@,
            record.longitude@,
            record.deposit_amount,
        ) is Ok,
    ensures
        submitted(sub, now, rent, record).data_account.wf(),
        withdrawn(wd).data_account.wf(),
{
}

} // verus!
