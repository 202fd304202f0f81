//! The home-chain side: the `sign` call sent to the signer contract, and
//! the decisions of the loop that waits for its outcome. The loop itself,
//! which sends, sleeps and polls, runs outside the library and hands each
//! poll's answer to `next_poll_step`.

use vstd::prelude::*;

use crate::types::SignRequest;

verus! {

/// Gas attached to the `sign` call: 300 TGas.
pub const SIGN_GAS: u64 = 300_000_000_000_000;

/// Deposit attached to the `sign` call: one yoctoNEAR, which the signer
/// contract demands of every request.
pub const SIGN_DEPOSIT: u128 = 1;

/// Time between two polls of the outcome, in milliseconds.
pub const POLL_INTERVAL_MS: u64 = 10_000;

/// Time allowed for the `sign` call to reach an outcome, in milliseconds.
pub const SIGN_TIMEOUT_MS: u64 = 300_000;

/// Why a signing request did not produce the signer's reply.
#[derive(Debug, Clone, Copy, PartialEq, Eq, Structural)]
pub enum SignError {
    /// The access key's nonce is at its maximum: no next nonce exists.
    NonceExhausted,
    /// No outcome arrived within the timeout.
    TimeoutExceeded,
    /// The call was executed and did not succeed.
    ExecutionFailed,
    /// The home chain answered with an error that waiting will not cure.
    TransportFailed,
}

/// The decimal digits of `n`, as ASCII bytes, most significant first.
pub open spec fn decimal(n: nat) -> Seq<u8>
    decreases n,
{
    if n < 10 {
        seq![(48 + n) as u8]
    } else {
        decimal(n / 10).push((48 + n % 10) as u8)
    }
}

/// The bytes as JSON numbers separated by commas.
pub open spec fn json_numbers(b: Seq<u8>) -> Seq<u8>
    decreases b.len(),
{
    if b.len() == 0 {
        seq![]
    } else if b.len() == 1 {
        decimal(b[0] as nat)
    } else {
        json_numbers(b.drop_last()) + seq![44u8] + decimal(b.last() as nat)
    }
}

/// What serde_json writes for a string: a JSON string literal.
pub uninterp spec fn json_string(s: Seq<char>) -> Seq<u8>;

/// The arguments of the `sign` call, as compact JSON:
/// `{"request":{"payload":[..],"path":"..","key_version":..}}`.
pub open spec fn sign_args(req: SignRequest) -> Seq<u8> {
    seq![
        123u8, 34, 114, 101, 113, 117, 101, 115, 116, 34, 58, 123, 34, 112, 97, 121, 108, 111, 97,
        100, 34, 58, 91,
    ] + json_numbers(req.payload@) + seq![93u8, 44, 34, 112, 97, 116, 104, 34, 58] + json_string(
        req.path@,
    ) + seq![44u8, 34, 107, 101, 121, 95, 118, 101, 114, 115, 105, 111, 110, 34, 58] + decimal(
        req.key_version as nat,
    ) + seq![125u8, 125]
}

/// Relies on `serde_json::to_vec` for a `str`, which cannot fail: the
/// string as a JSON string literal.
#[verifier::external_body]
fn json_string_bytes(s: &str) -> (r: Vec<u8>)
    ensures
        r@ == json_string(s@),
{
    serde_json::to_vec(s).unwrap_or_default()
}

/// Appends the decimal digits of `n`.
fn push_decimal(out: &mut Vec<u8>, n: u32)
    ensures
        final(out)@ == old(out)@ + decimal(n as nat),
    decreases n,
{
    if n >= 10 {
        push_decimal(out, n / 10);
    }
    out.push((48 + n % 10) as u8);
    assert(final(out)@ =~= old(out)@ + decimal(n as nat));
}

/// The arguments of the `sign` call for `req`.
pub fn sign_call_args(req: &SignRequest) -> (r: Vec<u8>)
    ensures
        r@ == sign_args(*req),
{
    let mut out: Vec<u8> = vec![
        123u8, 34, 114, 101, 113, 117, 101, 115, 116, 34, 58, 123, 34, 112, 97, 121, 108, 111, 97,
        100, 34, 58, 91,
    ];
    let ghost head = out@;
    let mut i: usize = 0;
    while i < 32
        invariant
            i <= 32,
            req.payload@.len() == 32,
            out@ == head + json_numbers(req.payload@.subrange(0, i as int)),
        decreases 32 - i,
    {
        let ghost before = out@;
        if i > 0 {
            out.push(44u8);
        }
        push_decimal(&mut out, req.payload[i] as u32);
        proof {
            let next = req.payload@.subrange(0, i + 1);
            assert(next.drop_last() =~= req.payload@.subrange(0, i as int));
            assert(next.last() == req.payload@[i as int]);
            if i == 0 {
                assert(json_numbers(req.payload@.subrange(0, 0)) =~= seq![]);
            }
            assert(out@ =~= head + json_numbers(next));
        }
        i = i + 1;
    }
    assert(req.payload@.subrange(0, 32) =~= req.payload@);
    let tail: Vec<u8> = vec![93u8, 44, 34, 112, 97, 116, 104, 34, 58];
    out.extend_from_slice(tail.as_slice());
    let path = json_string_bytes(req.path.as_str());
    out.extend_from_slice(path.as_slice());
    let version: Vec<u8> = vec![44u8, 34, 107, 101, 121, 95, 118, 101, 114, 115, 105, 111, 110, 34, 58];
    out.extend_from_slice(version.as_slice());
    push_decimal(&mut out, req.key_version);
    out.push(125u8);
    out.push(125u8);
    assert(out@ =~= sign_args(*req));
    out
}

/// A home-chain transaction that makes one function call.
#[derive(Debug, Clone)]
pub struct FunctionCallTransaction {
    pub signer_id: String,
    pub receiver_id: String,
    pub nonce: u64,
    pub block_hash: [u8; 32],
    pub method_name: String,
    pub args: Vec<u8>,
    pub gas: u64,
    pub deposit: u128,
}

/// A transaction from `signer_id` that calls `method_name` on `receiver_id`.
pub fn create_function_call_transaction(
    signer_id: String,
    receiver_id: String,
    block_hash: [u8; 32],
    nonce: u64,
    method_name: String,
    args: Vec<u8>,
    gas: u64,
    deposit: u128,
) -> (r: FunctionCallTransaction)
    ensures
        r.signer_id@ == signer_id@,
        r.receiver_id@ == receiver_id@,
        r.block_hash == block_hash,
        r.nonce == nonce,
        r.method_name@ == method_name@,
        r.args@ == args@,
        r.gas == gas,
        r.deposit == deposit,
{
    FunctionCallTransaction {
        signer_id,
        receiver_id,
        nonce,
        block_hash,
        method_name,
        args,
        gas,
        deposit,
    }
}

/// `tx` is the `sign` call of `req` from `signer_id` to `contract_id`, the
/// access key's next nonce after `current_nonce`, with the fixed gas and
/// deposit.
pub open spec fn is_sign_call(
    tx: FunctionCallTransaction,
    signer_id: Seq<char>,
    contract_id: Seq<char>,
    block_hash: [u8; 32],
    current_nonce: u64,
    req: SignRequest,
) -> bool {
    &&& tx.signer_id@ == signer_id
    &&& tx.receiver_id@ == contract_id
    &&& tx.block_hash == block_hash
    &&& tx.nonce == current_nonce + 1
    &&& tx.method_name@ == seq!['s', 'i', 'g', 'n']
    &&& tx.args@ == sign_args(req)
    &&& tx.gas == SIGN_GAS
    &&& tx.deposit == SIGN_DEPOSIT
}

/// The `sign` call that asks the signer contract for a signature of `req`.
pub fn sign_call_transaction(
    signer_id: String,
    contract_id: String,
    block_hash: [u8; 32],
    current_nonce: u64,
    req: &SignRequest,
) -> (r: Result<FunctionCallTransaction, SignError>)
    ensures
        current_nonce == u64::MAX ==> r == Err::<FunctionCallTransaction, SignError>(
            SignError::NonceExhausted,
        ),
        current_nonce < u64::MAX ==> (r matches Ok(tx) && is_sign_call(
            tx,
            signer_id@,
            contract_id@,
            block_hash,
            current_nonce,
            *req,
        )),
{
    if current_nonce == u64::MAX {
        return Err(SignError::NonceExhausted);
    }
    let method = "sign".to_string();
    proof {
        reveal_strlit("sign");
    }
    assert(method@ == seq!['s', 'i', 'g', 'n']);
    let tx = create_function_call_transaction(
        signer_id,
        contract_id,
        block_hash,
        current_nonce + 1,
        method,
        sign_call_args(req),
        SIGN_GAS,
        SIGN_DEPOSIT,
    );
    Ok(tx)
}

/// A `sign` call that the home chain has taken into its queue.
#[derive(Debug, Clone, Copy, PartialEq, Eq)]
pub struct PendingRequest {
    pub tx_hash: [u8; 32],
    /// When the call was sent, in milliseconds of a monotonic clock.
    pub sent_at_ms: u64,
    pub timeout_ms: u64,
}

/// What one poll of the call's status gave.
#[derive(Debug, Clone, PartialEq, Eq)]
pub enum PollStatus {
    /// Executed with success; the call's return value.
    Succeeded(Vec<u8>),
    /// Executed without success.
    Failed,
    /// Known, but with no final outcome yet.
    NotFinal,
    /// The node does not know the transaction yet.
    UnknownTransaction,
    /// The node timed out answering.
    TransportTimeout,
    /// Any other error of the home chain or of the transport.
    TransportError,
}

/// What the waiting loop does next.
#[derive(Debug, Clone, PartialEq, Eq)]
pub enum PollStep {
    /// Sleep this many milliseconds, then poll again.
    PollAgainAfter(u64),
    /// Stop: the call returned these bytes.
    Completed(Vec<u8>),
    /// Stop: the call will not return.
    Stopped(SignError),
}

/// Milliseconds from sending to `now_ms` (none where the clock reads
/// earlier than the sending).
pub open spec fn elapsed_ms(pending: PendingRequest, now_ms: u64) -> nat {
    if now_ms >= pending.sent_at_ms {
        (now_ms - pending.sent_at_ms) as nat
    } else {
        0
    }
}

/// The decision on a poll's answer received at `now_ms`: past the timeout
/// the wait ends, whatever the answer; before it, success and failure end
/// it, the node's "unknown transaction" and "timeout" errors and a
/// missing outcome lead to another poll after the interval, and any other
/// error ends it.
pub open spec fn poll_step_of(pending: PendingRequest, now_ms: u64, status: PollStatus) -> PollStep {
    if elapsed_ms(pending, now_ms) > pending.timeout_ms {
        PollStep::Stopped(SignError::TimeoutExceeded)
    } else {
        match status {
            PollStatus::Succeeded(bytes) => PollStep::Completed(bytes),
            PollStatus::Failed => PollStep::Stopped(SignError::ExecutionFailed),
            PollStatus::NotFinal => PollStep::PollAgainAfter(POLL_INTERVAL_MS),
            PollStatus::UnknownTransaction => PollStep::PollAgainAfter(POLL_INTERVAL_MS),
            PollStatus::TransportTimeout => PollStep::PollAgainAfter(POLL_INTERVAL_MS),
            PollStatus::TransportError => PollStep::Stopped(SignError::TransportFailed),
        }
    }
}

/// A request sent at `sent_at_ms`, waited on for the standard timeout.
pub fn pending_request(tx_hash: [u8; 32], sent_at_ms: u64) -> (r: PendingRequest)
    ensures
        r == (PendingRequest { tx_hash, sent_at_ms, timeout_ms: SIGN_TIMEOUT_MS }),
{
    PendingRequest { tx_hash, sent_at_ms, timeout_ms: SIGN_TIMEOUT_MS }
}

/// Decides what follows a poll whose answer arrived at `now_ms`.
pub fn next_poll_step(pending: &PendingRequest, now_ms: u64, status: PollStatus) -> (r: PollStep)
    ensures
        r == poll_step_of(*pending, now_ms, status),
        r is PollAgainAfter ==> elapsed_ms(*pending, now_ms) <= pending.timeout_ms,
{
    let elapsed = if now_ms >= pending.sent_at_ms {
        now_ms - pending.sent_at_ms
    } else {
        0
    };
    if elapsed > pending.timeout_ms {
        return PollStep::Stopped(SignError::TimeoutExceeded);
    }
    match status {
        PollStatus::Succeeded(bytes) => PollStep::Completed(bytes),
        PollStatus::Failed => PollStep::Stopped(SignError::ExecutionFailed),
        PollStatus::NotFinal => PollStep::PollAgainAfter(POLL_INTERVAL_MS),
        PollStatus::UnknownTransaction => PollStep::PollAgainAfter(POLL_INTERVAL_MS),
        PollStatus::TransportTimeout => PollStep::PollAgainAfter(POLL_INTERVAL_MS),
        PollStatus::TransportError => PollStep::Stopped(SignError::TransportFailed),
    }
}

/// The wait cannot go on forever: if polls are made at least one interval
/// apart, none of them earlier than the sending, and every one of them but
/// the last led to another poll, then there were at most
/// `timeout / interval + 2` polls in all.
pub proof fn lemma_wait_is_bounded(
    pending: PendingRequest,
    times: Seq<u64>,
    statuses: Seq<PollStatus>,
)
    requires
        times.len() == statuses.len(),
        times.len() > 0 ==> times[0] >= pending.sent_at_ms,
        forall|k: int| 0 <= k < times.len() - 1 ==> times[k + 1] >= #[trigger] times[k] + POLL_INTERVAL_MS,
        forall|k: int|
            0 <= k < times.len() - 1 ==> poll_step_of(
                pending,
                #[trigger] times[k],
                statuses[k],
            ) is PollAgainAfter,
    ensures
        times.len() <= pending.timeout_ms as int / POLL_INTERVAL_MS as int + 2,
{
    if times.len() >= 2 {
        let last = times.len() - 2;
        lemma_times_spread(times, last);
        assert(poll_step_of(pending, times[last], statuses[last]) is PollAgainAfter);
        assert(elapsed_ms(pending, times[last]) <= pending.timeout_ms);
        assert(last * POLL_INTERVAL_MS <= pending.timeout_ms);
        assert(last <= pending.timeout_ms as int / POLL_INTERVAL_MS as int) by (nonlinear_arith)
            requires
                last * POLL_INTERVAL_MS <= pending.timeout_ms,
                last >= 0,
        ;
    }
}

proof fn lemma_times_spread(times: Seq<u64>, k: int)
    requires
        0 <= k < times.len(),
        forall|j: int| 0 <= j < times.len() - 1 ==> times[j + 1] >= #[trigger] times[j] + POLL_INTERVAL_MS,
    ensures
        times[k] >= times[0] + k * POLL_INTERVAL_MS,
    decreases k,
{
    if k > 0 {
        lemma_times_spread(times, k - 1);
        assert(times[k] >= times[k - 1] + POLL_INTERVAL_MS);
    }
}

} // verus!
