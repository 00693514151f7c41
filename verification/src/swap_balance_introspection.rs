//! Pairing verifier for the balance-bracketing instructions integrators
//! use to audit a user's balance movement around an opaque third-party
//! swap.
//!
//! This is a stricter sibling of the flash-fill protocol: the start and
//! end instructions must again be paired inside one transaction with
//! identical account lists, and additionally exactly one instruction must
//! stand between them, belonging to the designated external swap program,
//! with zero instructions from any other program in between.

use vstd::prelude::*;

use crate::errors::LimoError;
use crate::flash_ixs::{
    accounts_equal, accounts_match, has_discriminator, has_discriminator_bytes, instruction_args,
    is_own_program, Instruction,
};
use crate::state::{pubkey_eq, Pubkey};

verus! {

/// Index of the last instruction of this program in `[lo, hi)`, if any.
pub open spec fn find_own_last_in(
    ixs: Seq<Instruction>,
    own: Seq<u8>,
    lo: int,
    hi: int,
) -> Option<int>
    decreases hi - lo,
{
    if lo >= hi {
        None
    } else if is_own_program(ixs[hi - 1], own) {
        Some(hi - 1)
    } else {
        find_own_last_in(ixs, own, lo, hi - 1)
    }
}

/// The last own-program instruction of the range is what
/// `find_own_last_in` returns.
pub proof fn lemma_find_own_last_in_is(
    ixs: Seq<Instruction>,
    own: Seq<u8>,
    lo: int,
    hi: int,
    j: int,
)
    requires
        lo <= j < hi,
        is_own_program(ixs[j], own),
        forall|k: int| j < k < hi ==> !is_own_program(#[trigger] ixs[k], own),
    ensures
        find_own_last_in(ixs, own, lo, hi) == Some(j),
    decreases hi - j,
{
    if j < hi - 1 {
        lemma_find_own_last_in_is(ixs, own, lo, hi - 1, j);
    }
}

/// A range without any own-program instruction makes `find_own_last_in`
/// come up empty.
pub proof fn lemma_find_own_last_in_none(ixs: Seq<Instruction>, own: Seq<u8>, lo: int, hi: int)
    requires
        forall|k: int| lo <= k < hi ==> !is_own_program(#[trigger] ixs[k], own),
    ensures
        find_own_last_in(ixs, own, lo, hi) is None,
    decreases hi - lo,
{
    if lo < hi {
        lemma_find_own_last_in_none(ixs, own, lo, hi - 1);
    }
}

/// Whether the gap between a paired start at `start_index` and end at
/// `end_index` holds exactly one instruction, targeting the designated
/// swap program.
pub open spec fn gap_is_single_swap(
    ixs: Seq<Instruction>,
    start_index: int,
    end_index: int,
    swap: Seq<u8>,
) -> bool {
    end_index == start_index + 2 && ixs[start_index + 1].program_id@ == swap
}

/// Verdict of the forward scan the bracketing start performs: the index
/// of the paired end instruction, or the violation found first. The
/// nearest own-program instruction after the start must be the end, with
/// exactly the designated swap between them.
pub open spec fn swap_end_search_outcome(
    ixs: Seq<Instruction>,
    current_index: int,
    own: Seq<u8>,
    swap: Seq<u8>,
    end_disc: Seq<u8>,
) -> Result<int, LimoError> {
    match crate::flash_ixs::find_own_in(ixs, own, current_index + 1, ixs.len() as int) {
        None => Err(LimoError::FlashIxsNotEnded),
        Some(j) => if !gap_is_single_swap(ixs, current_index, j, swap) {
            Err(LimoError::FlashTxWithUnexpectedIxs)
        } else if !has_discriminator(ixs[j], end_disc) {
            Err(LimoError::FlashTxWithUnexpectedIxs)
        } else if !accounts_match(ixs[current_index], ixs[j]) {
            Err(LimoError::FlashIxsAccountMismatch)
        } else {
            Ok(j)
        },
    }
}

/// Verdict of the backward scan the bracketing end performs: the index
/// of the paired start instruction, or the violation found first. The
/// nearest own-program instruction before the end must be the start,
/// with exactly the designated swap between them.
pub open spec fn swap_start_search_outcome(
    ixs: Seq<Instruction>,
    current_index: int,
    own: Seq<u8>,
    swap: Seq<u8>,
    start_disc: Seq<u8>,
) -> Result<int, LimoError> {
    match find_own_last_in(ixs, own, 0, current_index) {
        None => Err(LimoError::FlashIxsNotStarted),
        Some(j) => if !gap_is_single_swap(ixs, j, current_index, swap) {
            Err(LimoError::FlashTxWithUnexpectedIxs)
        } else if !has_discriminator(ixs[j], start_disc) {
            Err(LimoError::FlashTxWithUnexpectedIxs)
        } else if !accounts_match(ixs[j], ixs[current_index]) {
            Err(LimoError::FlashIxsAccountMismatch)
        } else {
            Ok(j)
        },
    }
}

/// Run by the bracketing start: finds the paired end instruction and
/// returns its argument payload, enforcing that exactly the designated
/// swap stands between the pair.
pub fn ensure_end_ix_match(
    ixs: &Vec<Instruction>,
    current_index: usize,
    own_program_id: &Pubkey,
    swap_program_id: &Pubkey,
    end_discriminator: &[u8; 8],
) -> (r: Result<Vec<u8>, LimoError>)
    requires
        current_index < ixs@.len(),
    ensures
        match r {
            Ok(payload) => swap_end_search_outcome(
                ixs@,
                current_index as int,
                own_program_id@,
                swap_program_id@,
                end_discriminator@,
            ) matches Ok(j) && payload@ == ixs@[j].data@.skip(8),
            Err(e) => swap_end_search_outcome(
                ixs@,
                current_index as int,
                own_program_id@,
                swap_program_id@,
                end_discriminator@,
            ) == Err::<int, LimoError>(e),
        },
{
    let ghost own: Seq<u8> = own_program_id@;
    let total: usize = ixs.len();

    let mut j: usize = current_index + 1;
    let mut found: Option<usize> = None;
    while j < total && found.is_none()
        invariant
            current_index + 1 <= j <= total,
            total == ixs@.len(),
            own == own_program_id@,
            match found {
                Some(f) => current_index < f < ixs@.len() && f + 1 == j && is_own_program(
                    ixs@[f as int],
                    own,
                ) && forall|k: int|
                    current_index + 1 <= k < f ==> !is_own_program(#[trigger] ixs@[k], own),
                None => forall|k: int|
                    current_index + 1 <= k < j ==> !is_own_program(#[trigger] ixs@[k], own),
            },
        decreases ixs@.len() - j,
    {
        if pubkey_eq(&ixs[j].program_id, own_program_id) {
            found = Some(j);
        }
        j += 1;
    }

    let end_index: usize = match found {
        Some(f) => {
            proof {
                crate::flash_ixs::lemma_find_own_in_is(
                    ixs@,
                    own,
                    current_index + 1,
                    ixs@.len() as int,
                    f as int,
                );
            }
            f
        },
        None => {
            proof {
                crate::flash_ixs::lemma_find_own_in_none(
                    ixs@,
                    own,
                    current_index + 1,
                    ixs@.len() as int,
                );
            }
            return Err(LimoError::FlashIxsNotEnded);
        },
    };

    if !(end_index == current_index + 2 && pubkey_eq(
        &ixs[current_index + 1].program_id,
        swap_program_id,
    )) {
        return Err(LimoError::FlashTxWithUnexpectedIxs);
    }

    if !has_discriminator_bytes(&ixs[end_index], end_discriminator) {
        return Err(LimoError::FlashTxWithUnexpectedIxs);
    }

    if !accounts_equal(&ixs[current_index], &ixs[end_index]) {
        return Err(LimoError::FlashIxsAccountMismatch);
    }

    Ok(instruction_args(&ixs[end_index]))
}

/// Run by the bracketing end: finds the paired start instruction and
/// returns its argument payload, enforcing that exactly the designated
/// swap stands between the pair.
pub fn ensure_start_ix_match(
    ixs: &Vec<Instruction>,
    current_index: usize,
    own_program_id: &Pubkey,
    swap_program_id: &Pubkey,
    start_discriminator: &[u8; 8],
) -> (r: Result<Vec<u8>, LimoError>)
    requires
        current_index < ixs@.len(),
    ensures
        match r {
            Ok(payload) => swap_start_search_outcome(
                ixs@,
                current_index as int,
                own_program_id@,
                swap_program_id@,
                start_discriminator@,
            ) matches Ok(j) && payload@ == ixs@[j].data@.skip(8),
            Err(e) => swap_start_search_outcome(
                ixs@,
                current_index as int,
                own_program_id@,
                swap_program_id@,
                start_discriminator@,
            ) == Err::<int, LimoError>(e),
        },
{
    let ghost own: Seq<u8> = own_program_id@;
    let _total: usize = ixs.len();

    let mut i: usize = current_index;
    let mut found: Option<usize> = None;
    while i > 0 && found.is_none()
        invariant
            i <= current_index < ixs@.len(),
            own == own_program_id@,
            match found {
                Some(f) => f < current_index && f == i && is_own_program(ixs@[f as int], own)
                    && forall|k: int|
                    f < k < current_index ==> !is_own_program(#[trigger] ixs@[k], own),
                None => forall|k: int|
                    i <= k < current_index ==> !is_own_program(#[trigger] ixs@[k], own),
            },
        decreases i,
    {
        if pubkey_eq(&ixs[i - 1].program_id, own_program_id) {
            found = Some(i - 1);
        }
        i -= 1;
    }

    let start_index: usize = match found {
        Some(f) => {
            proof {
                lemma_find_own_last_in_is(ixs@, own, 0, current_index as int, f as int);
            }
            f
        },
        None => {
            proof {
                lemma_find_own_last_in_none(ixs@, own, 0, current_index as int);
            }
            return Err(LimoError::FlashIxsNotStarted);
        },
    };

    if !(start_index + 2 == current_index && pubkey_eq(
        &ixs[start_index + 1].program_id,
        swap_program_id,
    )) {
        return Err(LimoError::FlashTxWithUnexpectedIxs);
    }

    if !has_discriminator_bytes(&ixs[start_index], start_discriminator) {
        return Err(LimoError::FlashTxWithUnexpectedIxs);
    }

    if !accounts_equal(&ixs[start_index], &ixs[current_index]) {
        return Err(LimoError::FlashIxsAccountMismatch);
    }

    Ok(instruction_args(&ixs[start_index]))
}

} // verus!
