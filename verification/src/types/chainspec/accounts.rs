//! The accounts that exist at genesis, as the rows of the accounts table give them.

use vstd::prelude::*;
use vstd::string::StringSliceAdditionalSpecFns;
use vstd::utf8::encode_utf8;

use csv::Error as CsvError;

use crate::types::chainspec::error::ChainspecAccountsLoadError;
use crate::types::motes::{all_digits, dec_value, limit, FromDecStrErr, Motes};

verus! {

broadcast use vstd::array::group_array_axioms;

/// The number of bytes of an account hash.
pub const ACCOUNT_HASH_LENGTH: usize = 32;

/// The number that the hex digit with code `byte` stands for, if it is one.
pub open spec fn hex_digit_value(byte: u8) -> Option<u8> {
    if 48 <= byte <= 57 {
        Some((byte - 48) as u8)
    } else if 97 <= byte <= 102 {
        Some((byte - 87) as u8)
    } else if 65 <= byte <= 70 {
        Some((byte - 55) as u8)
    } else {
        None
    }
}

/// Whether `text` is hex: an even number of digits 0-9, a-f or A-F.
pub open spec fn is_hex(text: Seq<u8>) -> bool {
    &&& text.len() % 2 == 0
    &&& forall|i: int| 0 <= i < text.len() ==> hex_digit_value(#[trigger] text[i]) is Some
}

/// The byte that the two hex digits at `2 * i` and `2 * i + 1` of `text` write.
pub open spec fn hex_byte(text: Seq<u8>, i: int) -> u8 {
    (hex_digit_value(text[2 * i]).unwrap() * 16 + hex_digit_value(text[2 * i + 1]).unwrap()) as u8
}

/// The bytes that a hex `text` writes, two digits to a byte, the high digit first.
pub open spec fn hex_decoded(text: Seq<u8>) -> Seq<u8> {
    Seq::new((text.len() / 2) as nat, |i: int| hex_byte(text, i))
}

/// The error with which `hex::decode` refuses the text `text` that is not hex: that the length
/// is odd, or else which character is the first that is no hex digit, and where it stands.
pub uninterp spec fn hex_error(text: Seq<u8>) -> hex::FromHexError;

/// Calls `hex::decode`.  Claimed of it: a text that is hex decodes to the bytes that its pairs of
/// digits write, upper and lower case alike; any other text, one of odd length or with a
/// character that is no hex digit, is an error, and the same text is always the same error.
#[verifier::external_body]
fn hex_decode(text: &[u8]) -> (res: Result<Vec<u8>, hex::FromHexError>)
    ensures
        res is Ok <==> is_hex(text@),
        res matches Ok(bytes) ==> bytes@ == hex_decoded(text@),
        res matches Err(error) ==> error == hex_error(text@),
{
    hex::decode(text)
}

/// The hash that names an account.
#[derive(Clone, Copy, Debug, PartialEq, Eq)]
pub struct AccountHash {
    bytes: [u8; 32],
}

impl View for AccountHash {
    type V = Seq<u8>;

    closed spec fn view(&self) -> Seq<u8> {
        self.bytes@
    }
}

impl AccountHash {
    /// The hash made of `bytes`.
    pub fn new(bytes: [u8; 32]) -> (hash: Self)
        ensures
            hash@ == bytes@,
    {
        AccountHash { bytes }
    }

    /// The bytes of the hash.
    pub fn value(&self) -> (bytes: [u8; 32])
        ensures
            bytes@ == self@,
    {
        self.bytes
    }

    /// A hash has `ACCOUNT_HASH_LENGTH` bytes.
    pub proof fn lemma_length(self)
        ensures
            self@.len() == ACCOUNT_HASH_LENGTH,
    {
    }

    /// Makes a hash of decoded bytes.  Bytes of any other length than `ACCOUNT_HASH_LENGTH` are
    /// refused, and the error tells how many there were.
    pub fn from_bytes(bytes: &Vec<u8>) -> (res: Result<AccountHash, ChainspecAccountsLoadError>)
        ensures
            match res {
                Ok(hash) => bytes@.len() == ACCOUNT_HASH_LENGTH && hash@ == bytes@,
                Err(ChainspecAccountsLoadError::InvalidHashLength(length)) => length
                    != ACCOUNT_HASH_LENGTH && length == bytes@.len(),
                Err(_) => false,
            },
    {
        if bytes.len() != ACCOUNT_HASH_LENGTH {
            return Err(ChainspecAccountsLoadError::InvalidHashLength(bytes.len()));
        }
        let mut hash = [0u8; 32];
        let mut i: usize = 0;
        while i < 32
            invariant
                i <= 32,
                bytes@.len() == 32,
                hash@.len() == 32,
                forall|j: int| 0 <= j < i ==> hash@[j] == bytes@[j],
            decreases 32 - i,
        {
            hash[i] = bytes[i];
            i = i + 1;
        }
        assert(hash@ =~= bytes@);
        Ok(AccountHash { bytes: hash })
    }

    /// Reads a hash written in hex.
    pub fn from_hex(text: &str) -> (res: Result<AccountHash, ChainspecAccountsLoadError>)
        ensures
            match res {
                Ok(hash) => hash_fault(text.spec_bytes()) is None && hash@ == hex_decoded(
                    text.spec_bytes(),
                ),
                Err(error) => hash_fault(text.spec_bytes()) matches Some(fault) && fault.describes(
                    error,
                ),
            },
    {
        match hex_decode(text.as_bytes()) {
            Ok(bytes) => AccountHash::from_bytes(&bytes),
            Err(error) => Err(ChainspecAccountsLoadError::DecodingFromHex(error)),
        }
    }
}

/// The ways in which a row of the accounts table can fail to give an account.
pub enum RowFault {
    /// The table's reader could not make a row of the line, and gave this error.
    Csv(CsvError),
    /// An amount is no decimal number, or too large.
    Motes(FromDecStrErr),
    /// The key hash is not hex, and the hex decoder gave this error.
    Hex(hex::FromHexError),
    /// The key hash has this many bytes, and not `ACCOUNT_HASH_LENGTH`.
    HashLength(usize),
}

impl RowFault {
    /// The error that reports this fault.
    pub open spec fn error(self) -> ChainspecAccountsLoadError {
        match self {
            RowFault::Csv(reason) => ChainspecAccountsLoadError::DecodingFromCsv(reason),
            RowFault::Motes(reason) => ChainspecAccountsLoadError::DecodingMotes(reason),
            RowFault::Hex(reason) => ChainspecAccountsLoadError::DecodingFromHex(reason),
            RowFault::HashLength(length) => ChainspecAccountsLoadError::InvalidHashLength(length),
        }
    }

    /// Whether `error` is the error that reports this fault.
    pub open spec fn describes(self, error: ChainspecAccountsLoadError) -> bool {
        error == self.error()
    }
}

/// What is wrong with the text of an amount, if anything.
pub open spec fn motes_fault(text: Seq<u8>) -> Option<RowFault> {
    if !all_digits(text) {
        Some(RowFault::Motes(FromDecStrErr::InvalidCharacter))
    } else if dec_value(text) >= limit() {
        Some(RowFault::Motes(FromDecStrErr::InvalidLength))
    } else {
        None
    }
}

/// What is wrong with the text of a key hash, if anything.
pub open spec fn hash_fault(text: Seq<u8>) -> Option<RowFault> {
    if !is_hex(text) {
        Some(RowFault::Hex(hex_error(text)))
    } else if text.len() / 2 != ACCOUNT_HASH_LENGTH {
        Some(RowFault::HashLength((text.len() / 2) as usize))
    } else {
        None
    }
}

/// A row of the accounts table, as text.
#[derive(Debug, PartialEq, Eq)]
pub struct AccountRow {
    /// The hash of the account's key, in hex.
    pub public_key_hash: String,
    /// The account's balance, in base ten.
    pub balance: String,
    /// The amount that the account has bonded, in base ten.
    pub bonded_amount: String,
}

impl Clone for AccountRow {
    fn clone(&self) -> (cloned: Self)
        ensures
            cloned == *self,
    {
        AccountRow {
            public_key_hash: self.public_key_hash.clone(),
            balance: self.balance.clone(),
            bonded_amount: self.bonded_amount.clone(),
        }
    }
}

impl AccountRow {
    /// What is wrong with the row, if anything.  The balance is read first, then the bonded
    /// amount, then the key hash, and the first fault is the row's.
    pub open spec fn fault(self) -> Option<RowFault> {
        if motes_fault(encode_utf8(self.balance@)) is Some {
            motes_fault(encode_utf8(self.balance@))
        } else if motes_fault(encode_utf8(self.bonded_amount@)) is Some {
            motes_fault(encode_utf8(self.bonded_amount@))
        } else {
            hash_fault(encode_utf8(self.public_key_hash@))
        }
    }

    /// The account that a row without fault gives.
    pub open spec fn account(self) -> GenesisAccountView {
        GenesisAccountView {
            account_hash: hex_decoded(encode_utf8(self.public_key_hash@)),
            balance: dec_value(encode_utf8(self.balance@)),
            bonded_amount: dec_value(encode_utf8(self.bonded_amount@)),
        }
    }
}

/// An account as the contracts speak of it.
pub ghost struct GenesisAccountView {
    /// The bytes of the account's hash.
    pub account_hash: Seq<u8>,
    /// The account's balance, in motes.
    pub balance: nat,
    /// The amount that the account has bonded, in motes.
    pub bonded_amount: nat,
}

/// An account that exists at genesis.
#[derive(Clone, Copy, Debug, PartialEq, Eq)]
pub struct GenesisAccount {
    account_hash: AccountHash,
    balance: Motes,
    bonded_amount: Motes,
}

impl View for GenesisAccount {
    type V = GenesisAccountView;

    closed spec fn view(&self) -> GenesisAccountView {
        GenesisAccountView {
            account_hash: self.account_hash@,
            balance: self.balance@,
            bonded_amount: self.bonded_amount@,
        }
    }
}

impl GenesisAccount {
    /// The account with the given hash, balance and bonded amount.
    pub fn new(account_hash: AccountHash, balance: Motes, bonded_amount: Motes) -> (account: Self)
        ensures
            account@ == (GenesisAccountView {
                account_hash: account_hash@,
                balance: balance@,
                bonded_amount: bonded_amount@,
            }),
    {
        GenesisAccount { account_hash, balance, bonded_amount }
    }

    /// The account's hash.
    pub fn account_hash(&self) -> (hash: AccountHash)
        ensures
            hash@ == self@.account_hash,
    {
        self.account_hash
    }

    /// The account's balance.
    pub fn balance(&self) -> (balance: Motes)
        ensures
            balance@ == self@.balance,
    {
        self.balance
    }

    /// The amount that the account has bonded.
    pub fn bonded_amount(&self) -> (bonded_amount: Motes)
        ensures
            bonded_amount@ == self@.bonded_amount,
    {
        self.bonded_amount
    }

    /// Reads the account that `row` gives, or says what is wrong with the row.
    pub fn from_row(row: &AccountRow) -> (res: Result<GenesisAccount, ChainspecAccountsLoadError>)
        ensures
            match res {
                Ok(account) => row.fault() is None && account@ == row.account(),
                Err(error) => row.fault() matches Some(fault) && fault.describes(error),
            },
    {
        let balance = match Motes::from_dec_str(row.balance.as_str()) {
            Ok(balance) => balance,
            Err(reason) => {
                return Err(ChainspecAccountsLoadError::DecodingMotes(reason));
            },
        };
        let bonded_amount = match Motes::from_dec_str(row.bonded_amount.as_str()) {
            Ok(bonded_amount) => bonded_amount,
            Err(reason) => {
                return Err(ChainspecAccountsLoadError::DecodingMotes(reason));
            },
        };
        let account_hash = match AccountHash::from_hex(row.public_key_hash.as_str()) {
            Ok(account_hash) => account_hash,
            Err(error) => {
                return Err(error);
            },
        };
        Ok(GenesisAccount { account_hash, balance, bonded_amount })
    }
}

/// The fault of the first of `rows` that has one, if any has: of a line that the table's reader
/// refused, the reader's error; of a row, the row's fault.
pub open spec fn rows_fault(rows: Seq<Result<AccountRow, CsvError>>) -> Option<RowFault>
    decreases rows.len(),
{
    if rows.len() == 0 {
        None
    } else {
        match rows[0] {
            Err(reason) => Some(RowFault::Csv(reason)),
            Ok(row) => if row.fault() is Some {
                row.fault()
            } else {
                rows_fault(rows.drop_first())
            },
        }
    }
}

/// The accounts that rows without fault give, in the order of the rows.
pub open spec fn rows_accounts(rows: Seq<Result<AccountRow, CsvError>>) -> Seq<GenesisAccountView> {
    Seq::new(rows.len(), |i: int| rows[i]->Ok_0.account())
}

/// The views of `accounts`.
pub open spec fn accounts_view(accounts: Seq<GenesisAccount>) -> Seq<GenesisAccountView> {
    Seq::new(accounts.len(), |i: int| accounts[i]@)
}

/// Rows none of which has a fault, followed by one more row.
proof fn lemma_rows_fault_step(rows: Seq<Result<AccountRow, CsvError>>, n: int)
    requires
        0 <= n < rows.len(),
        rows_fault(rows.take(n)) is None,
    ensures
        rows_fault(rows.take(n + 1)) == match rows[n] {
            Err(reason) => Some(RowFault::Csv(reason)),
            Ok(row) => row.fault(),
        },
        rows_fault(rows.take(n + 1)) is Some ==> rows_fault(rows) == rows_fault(rows.take(n + 1)),
    decreases n,
{
    if n == 0 {
        let one = rows.take(1);
        assert(one[0] == rows[0]);
        assert(one.drop_first() =~= Seq::<Result<AccountRow, CsvError>>::empty());
        assert(rows_fault(one.drop_first()) is None);
    } else {
        let rest = rows.drop_first();
        assert(rows.take(n).drop_first() =~= rest.take(n - 1));
        assert(rows.take(n + 1).drop_first() =~= rest.take(n));
        assert(rows.take(n)[0] == rows[0]);
        assert(rows.take(n + 1)[0] == rows[0]);
        assert(rest[n - 1] == rows[n]);
        lemma_rows_fault_step(rest, n - 1);
    }
}

/// Reads the accounts table row by row, and stops at the first row with a fault.
pub fn parse_accounts(rows: Vec<Result<AccountRow, CsvError>>) -> (res: Result<
    Vec<GenesisAccount>,
    ChainspecAccountsLoadError,
>)
    ensures
        match res {
            Ok(accounts) => rows_fault(rows@) is None && accounts_view(accounts@) == rows_accounts(
                rows@,
            ),
            Err(error) => rows_fault(rows@) matches Some(fault) && fault.describes(error),
        },
{
    let ghost all = rows@;
    let mut accounts: Vec<GenesisAccount> = Vec::new();
    assert(all.take(0) =~= Seq::<Result<AccountRow, CsvError>>::empty());
    for row in it: rows
        invariant
            it.seq() == all,
            accounts@.len() == it.index(),
            rows_fault(all.take(it.index() as int)) is None,
            forall|i: int| 0 <= i < it.index() ==> (#[trigger] all[i]) is Ok,
            forall|i: int|
                0 <= i < it.index() ==> (#[trigger] accounts@[i])@ == all[i]->Ok_0.account(),
    {
        proof {
            lemma_rows_fault_step(all, it.index() as int);
        }
        match row {
            Err(error) => {
                return Err(ChainspecAccountsLoadError::DecodingFromCsv(error));
            },
            Ok(fields) => {
                match GenesisAccount::from_row(&fields) {
                    Ok(account) => {
                        accounts.push(account);
                    },
                    Err(error) => {
                        return Err(error);
                    },
                }
            },
        }
    }
    proof {
        assert(all.take(all.len() as int) =~= all);
        assert(accounts_view(accounts@) =~= rows_accounts(all));
    }
    Ok(accounts)
}

} // verus!
