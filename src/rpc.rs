//! The two JSON-RPC calls a probe makes, and the decoding of their results.
use vstd::prelude::*;

verus! {

/// How a single JSON-RPC call can fail.
#[derive(Clone, Copy, Debug, PartialEq, Eq, Structural)]
pub enum RpcError {
    /// The endpoint could not be reached, or did not answer in time.
    Transport,
    /// The answer was not a well-formed response of the expected shape.
    Decode,
}

/// The progress object a node returns from `eth_syncing` while it syncs or
/// heals its state. Only its presence matters to the health decision.
#[derive(Clone, Debug)]
pub struct SyncingProgress {
    pub current_block: String,
    pub healed_bytecode_bytes: String,
    pub healed_bytecodes: String,
    pub healed_trienode_bytes: String,
    pub healed_trienodes: String,
    pub healing_bytecode: String,
    pub healing_trienodes: String,
    pub highest_block: String,
    pub starting_block: String,
    pub synced_account_bytes: String,
    pub synced_accounts: String,
    pub synced_bytecode_bytes: String,
    pub synced_bytecodes: String,
    pub synced_storage: String,
    pub synced_storage_bytes: String,
    pub tx_index_finished_blocks: String,
    pub tx_index_remaining_blocks: String,
}

/// The result of `eth_syncing`. A boolean is tried first, then the progress
/// object.
#[derive(Clone, Debug)]
pub enum SyncingStatus {
    Flag(bool),
    Progress(SyncingProgress),
}

/// The JSON-RPC methods a probe invokes.
#[derive(Clone, Copy, Debug, PartialEq, Eq, Structural)]
pub enum RpcMethod {
    BlockNumber,
    Syncing,
}

impl RpcMethod {
    /// The request envelope, sent verbatim as the body of the POST.
    pub open spec fn spec_payload(self) -> Seq<char> {
        match self {
            RpcMethod::BlockNumber => r#"{"jsonrpc":"2.0","method":"eth_blockNumber","params":[],"id":1}"#@,
            RpcMethod::Syncing => r#"{"jsonrpc":"2.0","method":"eth_syncing","params":[],"id":0}"#@,
        }
    }

    pub fn payload(&self) -> (r: &'static str)
        ensures
            r@ == self.spec_payload(),
    {
        match self {
            RpcMethod::BlockNumber => r#"{"jsonrpc":"2.0","method":"eth_blockNumber","params":[],"id":1}"#,
            RpcMethod::Syncing => r#"{"jsonrpc":"2.0","method":"eth_syncing","params":[],"id":0}"#,
        }
    }
}

/// Whether `c` is a hexadecimal digit, in either case.
pub open spec fn is_hex_digit(c: char) -> bool {
    ('0' <= c && c <= '9') || ('a' <= c && c <= 'f') || ('A' <= c && c <= 'F')
}

/// The value of a hexadecimal digit.
pub open spec fn hex_digit_value(c: char) -> int {
    if '0' <= c && c <= '9' {
        c as int - '0' as int
    } else if 'a' <= c && c <= 'f' {
        c as int - 'a' as int + 10
    } else {
        c as int - 'A' as int + 10
    }
}

/// The number that a string of hexadecimal digits denotes, most significant
/// digit first.
pub open spec fn hex_value(digits: Seq<char>) -> int
    decreases digits.len(),
{
    if digits.len() == 0 {
        0
    } else {
        hex_value(digits.drop_last()) * 16 + hex_digit_value(digits.last())
    }
}

/// A block number as `eth_blockNumber` reports it: `0x` and at least one
/// hexadecimal digit.
pub open spec fn is_block_number_text(s: Seq<char>) -> bool {
    &&& s.len() > 2
    &&& s[0] == '0'
    &&& s[1] == 'x'
    &&& forall|i: int| 2 <= i < s.len() ==> is_hex_digit(#[trigger] s[i])
}

/// The height that a block number text denotes.
pub open spec fn block_number_value(s: Seq<char>) -> int {
    hex_value(s.subrange(2, s.len() as int))
}

/// What decoding a block number text yields: its value where it is well
/// formed and fits in 64 bits, a decode error otherwise.
pub open spec fn decoded_block_number(s: Seq<char>) -> Result<u64, RpcError> {
    if is_block_number_text(s) && block_number_value(s) <= u64::MAX {
        Ok(block_number_value(s) as u64)
    } else {
        Err(RpcError::Decode)
    }
}

proof fn lemma_hex_value_grows(digits: Seq<char>, i: int)
    requires
        0 <= i <= digits.len(),
        forall|j: int| 0 <= j < digits.len() ==> is_hex_digit(#[trigger] digits[j]),
    ensures
        0 <= hex_value(digits.take(i)) <= hex_value(digits),
    decreases digits.len(),
{
    if i == digits.len() {
        assert(digits.take(i) =~= digits);
        if digits.len() > 0 {
            lemma_hex_value_grows(digits.drop_last(), i - 1);
            assert(digits.drop_last().take(i - 1) =~= digits.drop_last());
        }
    } else {
        let rest = digits.drop_last();
        lemma_hex_value_grows(rest, i);
        assert(rest.take(i) =~= digits.take(i));
    }
}

fn hex_digit(c: char) -> (r: Option<u64>)
    ensures
        r == if is_hex_digit(c) { Some(hex_digit_value(c) as u64) } else { None::<u64> },
{
    if '0' <= c && c <= '9' {
        Some((c as u32 - '0' as u32) as u64)
    } else if 'a' <= c && c <= 'f' {
        Some((c as u32 - 'a' as u32 + 10) as u64)
    } else if 'A' <= c && c <= 'F' {
        Some((c as u32 - 'A' as u32 + 10) as u64)
    } else {
        None
    }
}

/// Decodes the `result` of `eth_blockNumber`, a `0x`-prefixed hexadecimal
/// string, into a block height.
pub fn decode_block_number(s: &str) -> (r: Result<u64, RpcError>)
    ensures
        r == decoded_block_number(s@),
{
    let n = s.unicode_len();
    if n <= 2 || s.get_char(0) != '0' || s.get_char(1) != 'x' {
        return Err(RpcError::Decode);
    }
    let ghost digits = s@.subrange(2, n as int);
    let mut acc: u64 = 0;
    let mut i: usize = 2;
    while i < n
        invariant
            2 <= i <= n,
            n == s@.len(),
            digits == s@.subrange(2, n as int),
            s@[0] == '0',
            s@[1] == 'x',
            forall|j: int| 2 <= j < i ==> is_hex_digit(#[trigger] s@[j]),
            acc as int == hex_value(digits.take(i - 2)),
        decreases n - i,
    {
        let c = s.get_char(i);
        match hex_digit(c) {
            None => {
                return Err(RpcError::Decode);
            },
            Some(d) => {
                assert(digits.take(i + 1 - 2).drop_last() =~= digits.take(i - 2));
                if acc >= 0x1000_0000_0000_0000 {
                    proof {
                        if is_block_number_text(s@) {
                            assert forall|j: int| 0 <= j < digits.len() implies is_hex_digit(
                                #[trigger] digits[j],
                            ) by {
                                assert(s@[j + 2] == digits[j]);
                            }
                            lemma_hex_value_grows(digits, i + 1 - 2);
                        }
                    }
                    return Err(RpcError::Decode);
                }
                acc = acc * 16 + d;
                i = i + 1;
            },
        }
    }
    assert(digits.take(n - 2) =~= digits);
    Ok(acc)
}

} // verus!
