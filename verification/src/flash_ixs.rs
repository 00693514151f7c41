//! Flash-fill pairing verifier: a pure scan over the enclosing
//! transaction's decoded instruction list.
//!
//! A flash fill splits one economic fill into a "start" instruction that
//! releases escrowed input early and an "end" instruction that collects
//! the output, and both must sit in the same transaction: the end
//! strictly after the start, with byte-identical account lists, and with
//! nothing between or around them from this program, nor from any program
//! outside a small auxiliary allow-list. There is no external
//! coordinator: each side re-derives the pairing from the read-only
//! instruction list every transaction exposes, given its own position in
//! that list.

use vstd::prelude::*;

use crate::encoding::{le_u64, lemma_le_u64_prefix, lemma_u64_le_round_trip, push_u64_le, u64_le_seq};
use crate::errors::LimoError;
use crate::state::{pubkey_eq, Pubkey};

verus! {

/// One decoded instruction of the enclosing transaction: the program it
/// targets, its ordered account-address list and its raw argument bytes
/// (an 8-byte discriminator followed by the payload).
#[derive(Debug)]
pub struct Instruction {
    pub program_id: Pubkey,
    pub accounts: Vec<Pubkey>,
    pub data: Vec<u8>,
}

/// Whether `ix` belongs to the program whose id bytes are `own`.
pub open spec fn is_own_program(ix: Instruction, own: Seq<u8>) -> bool {
    ix.program_id@ == own
}

/// Whether `ix` targets one of the allow-listed auxiliary programs.
pub open spec fn program_allowed(ix: Instruction, allowed: Seq<Pubkey>) -> bool {
    exists|k: int| 0 <= k < allowed.len() && allowed[k]@ == ix.program_id@
}

/// Whether every instruction in `[lo, hi)` targets an allow-listed
/// auxiliary program.
pub open spec fn all_allowed_in(
    ixs: Seq<Instruction>,
    allowed: Seq<Pubkey>,
    lo: int,
    hi: int,
) -> bool {
    forall|i: int| lo <= i < hi ==> program_allowed(#[trigger] ixs[i], allowed)
}

/// Whether `ix`'s data opens with the 8-byte discriminator `disc`.
pub open spec fn has_discriminator(ix: Instruction, disc: Seq<u8>) -> bool {
    ix.data@.len() >= 8 && ix.data@.subrange(0, 8) == disc
}

/// Whether two instructions carry the same account addresses in the same
/// order.
pub open spec fn accounts_match(a: Instruction, b: Instruction) -> bool {
    &&& a.accounts@.len() == b.accounts@.len()
    &&& forall|i: int| 0 <= i < a.accounts@.len() ==> a.accounts@[i]@ == #[trigger] b.accounts@[i]@
}

/// Index of the first instruction of this program in `[lo, hi)`, if any.
pub open spec fn find_own_in(ixs: Seq<Instruction>, own: Seq<u8>, lo: int, hi: int) -> Option<int>
    decreases hi - lo,
{
    if lo >= hi {
        None
    } else if is_own_program(ixs[lo], own) {
        Some(lo)
    } else {
        find_own_in(ixs, own, lo + 1, hi)
    }
}

/// What `find_own_in` returns is the first own-program instruction of the
/// range: it is in range, it is ours, and nothing before it is.
pub proof fn lemma_find_own_in_characterization(
    ixs: Seq<Instruction>,
    own: Seq<u8>,
    lo: int,
    hi: int,
)
    ensures
        match find_own_in(ixs, own, lo, hi) {
            Some(j) => lo <= j < hi && is_own_program(ixs[j], own) && forall|k: int|
                lo <= k < j ==> !is_own_program(#[trigger] ixs[k], own),
            None => forall|k: int| lo <= k < hi ==> !is_own_program(#[trigger] ixs[k], own),
        },
    decreases hi - lo,
{
    if lo < hi && !is_own_program(ixs[lo], own) {
        lemma_find_own_in_characterization(ixs, own, lo + 1, hi);
    }
}

/// Conversely, the first own-program instruction of the range is what
/// `find_own_in` returns.
pub proof fn lemma_find_own_in_is(ixs: Seq<Instruction>, own: Seq<u8>, lo: int, hi: int, j: int)
    requires
        lo <= j < hi,
        is_own_program(ixs[j], own),
        forall|k: int| lo <= k < j ==> !is_own_program(#[trigger] ixs[k], own),
    ensures
        find_own_in(ixs, own, lo, hi) == Some(j),
    decreases j - lo,
{
    if lo < j {
        lemma_find_own_in_is(ixs, own, lo + 1, hi, j);
    }
}

/// A range without any own-program instruction makes `find_own_in` come
/// up empty.
pub proof fn lemma_find_own_in_none(ixs: Seq<Instruction>, own: Seq<u8>, lo: int, hi: int)
    requires
        forall|k: int| lo <= k < hi ==> !is_own_program(#[trigger] ixs[k], own),
    ensures
        find_own_in(ixs, own, lo, hi) is None,
    decreases hi - lo,
{
    if lo < hi {
        lemma_find_own_in_none(ixs, own, lo + 1, hi);
    }
}

/// Whether `ix` targets one of `allowed_program_ids`.
pub fn is_program_allowed(ix: &Instruction, allowed_program_ids: &Vec<Pubkey>) -> (r: bool)
    ensures
        r == program_allowed(*ix, allowed_program_ids@),
{
    let mut k: usize = 0;
    while k < allowed_program_ids.len()
        invariant
            k <= allowed_program_ids@.len(),
            forall|m: int| 0 <= m < k ==> allowed_program_ids@[m]@ != ix.program_id@,
        decreases allowed_program_ids@.len() - k,
    {
        if pubkey_eq(&allowed_program_ids[k], &ix.program_id) {
            return true;
        }
        k += 1;
    }
    false
}

/// Whether two instructions list the same account addresses in order.
pub fn accounts_equal(a: &Instruction, b: &Instruction) -> (r: bool)
    ensures
        r == accounts_match(*a, *b),
{
    if a.accounts.len() != b.accounts.len() {
        return false;
    }
    let mut i: usize = 0;
    while i < a.accounts.len()
        invariant
            i <= a.accounts@.len(),
            a.accounts@.len() == b.accounts@.len(),
            forall|m: int| 0 <= m < i ==> a.accounts@[m]@ == #[trigger] b.accounts@[m]@,
        decreases a.accounts@.len() - i,
    {
        if !pubkey_eq(&a.accounts[i], &b.accounts[i]) {
            return false;
        }
        i += 1;
    }
    true
}

/// Whether `ix`'s data opens with `disc`.
pub fn has_discriminator_bytes(ix: &Instruction, disc: &[u8; 8]) -> (r: bool)
    ensures
        r == has_discriminator(*ix, disc@),
{
    if ix.data.len() < 8 {
        return false;
    }
    let mut i: usize = 0;
    while i < 8
        invariant
            i <= 8,
            ix.data@.len() >= 8,
            forall|m: int| 0 <= m < i ==> ix.data@[m] == disc@[m],
        decreases 8 - i,
    {
        if ix.data[i] != disc[i] {
            proof {
                assert(ix.data@.subrange(0, 8)[i as int] != disc@[i as int]);
            }
            return false;
        }
        i += 1;
    }
    proof {
        assert(ix.data@.subrange(0, 8) =~= disc@);
    }
    true
}

/// The argument bytes of `ix` after its 8-byte discriminator.
pub fn instruction_args(ix: &Instruction) -> (r: Vec<u8>)
    requires
        ix.data@.len() >= 8,
    ensures
        r@ == ix.data@.skip(8),
{
    let mut out: Vec<u8> = Vec::new();
    let mut i: usize = 8;
    while i < ix.data.len()
        invariant
            8 <= i <= ix.data@.len(),
            out@.len() == i - 8,
            forall|m: int| 0 <= m < out@.len() ==> out@[m] == ix.data@[m + 8],
        decreases ix.data@.len() - i,
    {
        out.push(ix.data[i]);
        i += 1;
    }
    proof {
        assert(out@ =~= ix.data@.skip(8));
    }
    out
}

/// Verdict of the forward scan a flash start performs, as a function of
/// the instruction list and the start's own position: the index of the
/// paired end instruction, or the violation found first. Everything
/// before the start and after the end must be allow-listed auxiliary
/// work, the first own-program instruction after the start must carry the
/// end discriminator, and its account list must match the start's.
pub open spec fn flash_end_search_outcome(
    ixs: Seq<Instruction>,
    current_index: int,
    own: Seq<u8>,
    allowed: Seq<Pubkey>,
    end_disc: Seq<u8>,
) -> Result<int, LimoError> {
    if !all_allowed_in(ixs, allowed, 0, current_index) {
        Err(LimoError::FlashTxWithUnexpectedIxs)
    } else {
        match find_own_in(ixs, own, current_index + 1, ixs.len() as int) {
            None => Err(LimoError::FlashIxsNotEnded),
            Some(j) => if !all_allowed_in(ixs, allowed, j + 1, ixs.len() as int) {
                Err(LimoError::FlashTxWithUnexpectedIxs)
            } else if !has_discriminator(ixs[j], end_disc) {
                Err(LimoError::FlashTxWithUnexpectedIxs)
            } else if !accounts_match(ixs[current_index], ixs[j]) {
                Err(LimoError::FlashIxsAccountMismatch)
            } else {
                Ok(j)
            },
        }
    }
}

/// Verdict of the backward scan a flash end performs, as a function of
/// the instruction list and the end's own position: the index of the
/// paired start instruction, or the violation found first. Everything
/// after the end must be allow-listed auxiliary work; scanning the prefix
/// from the front, only allow-listed work may precede the first
/// own-program instruction, which must carry the start discriminator and
/// the end's own account list.
pub open spec fn flash_start_search_outcome(
    ixs: Seq<Instruction>,
    current_index: int,
    own: Seq<u8>,
    allowed: Seq<Pubkey>,
    start_disc: Seq<u8>,
) -> Result<int, LimoError> {
    if !all_allowed_in(ixs, allowed, current_index + 1, ixs.len() as int) {
        Err(LimoError::FlashTxWithUnexpectedIxs)
    } else {
        match find_own_in(ixs, own, 0, current_index) {
            None => if all_allowed_in(ixs, allowed, 0, current_index) {
                Err(LimoError::FlashIxsNotStarted)
            } else {
                Err(LimoError::FlashTxWithUnexpectedIxs)
            },
            Some(j) => if !all_allowed_in(ixs, allowed, 0, j) {
                Err(LimoError::FlashTxWithUnexpectedIxs)
            } else if !has_discriminator(ixs[j], start_disc) {
                Err(LimoError::FlashTxWithUnexpectedIxs)
            } else if !accounts_match(ixs[j], ixs[current_index]) {
                Err(LimoError::FlashIxsAccountMismatch)
            } else {
                Ok(j)
            },
        }
    }
}

/// Run by the start instruction: scans the whole transaction for the
/// paired end instruction and returns its argument payload. Fails with
/// `FlashIxsNotEnded` when no instruction of this program follows, with
/// `FlashTxWithUnexpectedIxs` when a stray or out-of-place instruction is
/// found, and with `FlashIxsAccountMismatch` when the pair's account
/// lists differ.
pub fn ensure_second_ix_match(
    ixs: &Vec<Instruction>,
    current_index: usize,
    own_program_id: &Pubkey,
    allowed_program_ids: &Vec<Pubkey>,
    end_discriminator: &[u8; 8],
) -> (r: Result<Vec<u8>, LimoError>)
    requires
        current_index < ixs@.len(),
    ensures
        match r {
            Ok(payload) => flash_end_search_outcome(
                ixs@,
                current_index as int,
                own_program_id@,
                allowed_program_ids@,
                end_discriminator@,
            ) matches Ok(j) && payload@ == ixs@[j].data@.skip(8),
            Err(e) => flash_end_search_outcome(
                ixs@,
                current_index as int,
                own_program_id@,
                allowed_program_ids@,
                end_discriminator@,
            ) == Err::<int, LimoError>(e),
        },
{
    let ghost own: Seq<u8> = own_program_id@;
    let ghost allowed: Seq<Pubkey> = allowed_program_ids@;
    let _total: usize = ixs.len();

    let mut i: usize = 0;
    while i < current_index
        invariant
            i <= current_index < ixs@.len(),
            all_allowed_in(ixs@, allowed, 0, i as int),
            allowed == allowed_program_ids@,
        decreases current_index - i,
    {
        if !is_program_allowed(&ixs[i], allowed_program_ids) {
            return Err(LimoError::FlashTxWithUnexpectedIxs);
        }
        i += 1;
    }

    let mut j: usize = current_index + 1;
    let mut found: Option<usize> = None;
    while j < ixs.len() && found.is_none()
        invariant
            current_index + 1 <= j <= ixs@.len(),
            own == own_program_id@,
            match found {
                Some(f) => current_index < f < ixs@.len() && f + 1 == j && is_own_program(
                    ixs@[f as int],
                    own,
                ) && forall|k: int|
                    current_index + 1 <= k < f ==> !is_own_program(#[trigger] ixs@[k], own),
                None => forall|k: int|
                    current_index + 1 <= k < j ==> !is_own_program(#[trigger] ixs@[k], own),
            },
        decreases ixs@.len() - j,
    {
        if pubkey_eq(&ixs[j].program_id, own_program_id) {
            found = Some(j);
        }
        j += 1;
    }

    let end_index: usize = match found {
        Some(f) => {
            proof {
                lemma_find_own_in_is(ixs@, own, current_index + 1, ixs@.len() as int, f as int);
            }
            f
        },
        None => {
            proof {
                lemma_find_own_in_none(ixs@, own, current_index + 1, ixs@.len() as int);
            }
            return Err(LimoError::FlashIxsNotEnded);
        },
    };

    let mut k: usize = end_index + 1;
    while k < ixs.len()
        invariant
            current_index < end_index < ixs@.len(),
            end_index + 1 <= k <= ixs@.len(),
            all_allowed_in(ixs@, allowed, end_index + 1, k as int),
            all_allowed_in(ixs@, allowed, 0, current_index as int),
            find_own_in(ixs@, own, current_index + 1, ixs@.len() as int) == Some(
                end_index as int,
            ),
            own == own_program_id@,
            allowed == allowed_program_ids@,
        decreases ixs@.len() - k,
    {
        if !is_program_allowed(&ixs[k], allowed_program_ids) {
            return Err(LimoError::FlashTxWithUnexpectedIxs);
        }
        k += 1;
    }

    if !has_discriminator_bytes(&ixs[end_index], end_discriminator) {
        return Err(LimoError::FlashTxWithUnexpectedIxs);
    }

    if !accounts_equal(&ixs[current_index], &ixs[end_index]) {
        return Err(LimoError::FlashIxsAccountMismatch);
    }

    Ok(instruction_args(&ixs[end_index]))
}

/// Run by the end instruction: scans the whole transaction for the paired
/// start instruction and returns its argument payload. Fails with
/// `FlashIxsNotStarted` when no instruction of this program precedes,
/// with `FlashTxWithUnexpectedIxs` when a stray or out-of-place
/// instruction is found, and with `FlashIxsAccountMismatch` when the
/// pair's account lists differ.
pub fn ensure_first_ix_match(
    ixs: &Vec<Instruction>,
    current_index: usize,
    own_program_id: &Pubkey,
    allowed_program_ids: &Vec<Pubkey>,
    start_discriminator: &[u8; 8],
) -> (r: Result<Vec<u8>, LimoError>)
    requires
        current_index < ixs@.len(),
    ensures
        match r {
            Ok(payload) => flash_start_search_outcome(
                ixs@,
                current_index as int,
                own_program_id@,
                allowed_program_ids@,
                start_discriminator@,
            ) matches Ok(j) && payload@ == ixs@[j].data@.skip(8),
            Err(e) => flash_start_search_outcome(
                ixs@,
                current_index as int,
                own_program_id@,
                allowed_program_ids@,
                start_discriminator@,
            ) == Err::<int, LimoError>(e),
        },
{
    let ghost own: Seq<u8> = own_program_id@;
    let ghost allowed: Seq<Pubkey> = allowed_program_ids@;
    let _total: usize = ixs.len();

    let mut k: usize = current_index + 1;
    while k < ixs.len()
        invariant
            current_index + 1 <= k <= ixs@.len(),
            all_allowed_in(ixs@, allowed, current_index + 1, k as int),
            allowed == allowed_program_ids@,
        decreases ixs@.len() - k,
    {
        if !is_program_allowed(&ixs[k], allowed_program_ids) {
            return Err(LimoError::FlashTxWithUnexpectedIxs);
        }
        k += 1;
    }

    let mut i: usize = 0;
    let mut found: Option<usize> = None;
    while i < current_index && found.is_none()
        invariant
            i <= current_index < ixs@.len(),
            own == own_program_id@,
            allowed == allowed_program_ids@,
            match found {
                Some(f) => f < current_index && f + 1 == i && is_own_program(ixs@[f as int], own)
                    && all_allowed_in(ixs@, allowed, 0, f as int) && forall|k2: int|
                    0 <= k2 < f ==> !is_own_program(#[trigger] ixs@[k2], own),
                None => all_allowed_in(ixs@, allowed, 0, i as int) && forall|k2: int|
                    0 <= k2 < i ==> !is_own_program(#[trigger] ixs@[k2], own),
            },
        decreases current_index - i,
    {
        if pubkey_eq(&ixs[i].program_id, own_program_id) {
            found = Some(i);
        } else if !is_program_allowed(&ixs[i], allowed_program_ids) {
            proof {
                lemma_find_own_in_characterization(ixs@, own, 0, current_index as int);
            }
            return Err(LimoError::FlashTxWithUnexpectedIxs);
        }
        i += 1;
    }

    let start_index: usize = match found {
        Some(f) => {
            proof {
                lemma_find_own_in_is(ixs@, own, 0, current_index as int, f as int);
            }
            f
        },
        None => {
            proof {
                lemma_find_own_in_none(ixs@, own, 0, current_index as int);
            }
            return Err(LimoError::FlashIxsNotStarted);
        },
    };

    if !has_discriminator_bytes(&ixs[start_index], start_discriminator) {
        return Err(LimoError::FlashTxWithUnexpectedIxs);
    }

    if !accounts_equal(&ixs[start_index], &ixs[current_index]) {
        return Err(LimoError::FlashIxsAccountMismatch);
    }

    Ok(instruction_args(&ixs[start_index]))
}

/// Decoded argument payload shared by the flash start and end
/// instructions: three u64 values, little-endian, in this order.
#[derive(Clone, Copy, Debug, PartialEq, Eq, Structural)]
pub struct FlashTakeOrderArgs {
    pub input_amount: u64,
    pub min_output_amount: u64,
    pub tip_amount_permissionless_taking: u64,
}

/// The args encoded by a 24-byte payload.
pub open spec fn flash_args_of(s: Seq<u8>) -> FlashTakeOrderArgs
    recommends
        s.len() == 24,
{
    FlashTakeOrderArgs {
        input_amount: le_u64(s),
        min_output_amount: le_u64(s.skip(8)),
        tip_amount_permissionless_taking: le_u64(s.skip(16)),
    }
}

/// Decodes a flash take-order payload; any other length is malformed.
pub fn decode_flash_take_order_args(payload: &Vec<u8>) -> (r: Option<FlashTakeOrderArgs>)
    ensures
        match r {
            Some(args) => payload@.len() == 24 && args == flash_args_of(payload@),
            None => payload@.len() != 24,
        },
{
    if payload.len() != 24 {
        return None;
    }
    let input_amount = crate::encoding::read_u64_le(payload.as_slice());
    let middle = slice_skip_eight(payload.as_slice());
    let min_output_amount = crate::encoding::read_u64_le(middle);
    let tail = slice_skip_eight(middle);
    let tip_amount_permissionless_taking = crate::encoding::read_u64_le(tail);
    Some(
        FlashTakeOrderArgs {
            input_amount,
            min_output_amount,
            tip_amount_permissionless_taking,
        },
    )
}

/// The bytes after the first eight of a slice.
fn slice_skip_eight(s: &[u8]) -> (r: &[u8])
    requires
        s@.len() >= 8,
    ensures
        r@ == s@.skip(8),
{
    vstd::slice::slice_subrange(s, 8, s.len())
}

/// Encodes flash take-order args as the 24-byte payload both paired
/// instructions carry.
pub fn encode_flash_take_order_args(args: &FlashTakeOrderArgs) -> (r: Vec<u8>)
    ensures
        r@.len() == 24,
        flash_args_of(r@) == *args,
{
    let mut out: Vec<u8> = Vec::new();
    push_u64_le(&mut out, args.input_amount);
    push_u64_le(&mut out, args.min_output_amount);
    push_u64_le(&mut out, args.tip_amount_permissionless_taking);
    proof {
        let a = u64_le_seq(args.input_amount);
        let b = u64_le_seq(args.min_output_amount);
        let c = u64_le_seq(args.tip_amount_permissionless_taking);
        lemma_u64_le_round_trip(args.input_amount);
        lemma_u64_le_round_trip(args.min_output_amount);
        lemma_u64_le_round_trip(args.tip_amount_permissionless_taking);
        assert(out@ =~= a + b + c);
        assert forall|i: int| 0 <= i < 8 implies out@[i] == a[i] by {}
        lemma_le_u64_prefix(out@, a);
        assert(out@.skip(8) =~= b + c);
        assert forall|i: int| 0 <= i < 8 implies out@.skip(8)[i] == b[i] by {}
        lemma_le_u64_prefix(out@.skip(8), b);
        assert(out@.skip(16) =~= c);
        lemma_le_u64_prefix(out@.skip(16), c);
    }
    out
}

/// Rejects a flash pairing whose two instructions decoded to different
/// argument values; the paired payloads must match field for field.
pub fn check_flash_ixs_args_match(
    args: &FlashTakeOrderArgs,
    input_amount: u64,
    min_output_amount: u64,
    tip_amount_permissionless_taking: u64,
) -> (r: Result<(), LimoError>)
    ensures
        match r {
            Ok(()) => *args == (FlashTakeOrderArgs {
                input_amount,
                min_output_amount,
                tip_amount_permissionless_taking,
            }),
            Err(e) => {
                &&& e == LimoError::FlashIxsArgsMismatch
                &&& *args != (FlashTakeOrderArgs {
                    input_amount,
                    min_output_amount,
                    tip_amount_permissionless_taking,
                })
            },
        },
{
    if args.input_amount != input_amount {
        return Err(LimoError::FlashIxsArgsMismatch);
    }
    if args.min_output_amount != min_output_amount {
        return Err(LimoError::FlashIxsArgsMismatch);
    }
    if args.tip_amount_permissionless_taking != tip_amount_permissionless_taking {
        return Err(LimoError::FlashIxsArgsMismatch);
    }
    Ok(())
}

} // verus!
