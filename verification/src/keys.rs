//! The keys that a transaction refers to, each counted once: a message
//! lists every key once and numbers it in one byte.

use crate::address::Address;
use crate::instruction::{Instruction, InstructionView};
use vstd::prelude::*;

verus! {

/// The most keys that one message can number.
pub const MAX_KEYS: usize = 256;

/// The most signatures that one message can ask for.
pub const MAX_SIGNERS: usize = 255;

/// Whether the instruction refers to the key, as its program or as one of
/// its accounts.
pub open spec fn names_key(instruction: InstructionView, key: Seq<u8>) -> bool {
    instruction.program_id == key || exists|j: int|
        0 <= j < instruction.accounts.len() && (#[trigger] instruction.accounts[j]).pubkey == key
}

/// Whether the instruction marks the key as a signer.
pub open spec fn names_signer(instruction: InstructionView, key: Seq<u8>) -> bool {
    exists|j: int|
        0 <= j < instruction.accounts.len() && (#[trigger] instruction.accounts[j]).is_signer
            && instruction.accounts[j].pubkey == key
}

/// The keys of a transaction: the fee payer, and every program and account
/// of its instructions.
pub open spec fn key_set(payer: Seq<u8>, instructions: Seq<InstructionView>) -> Set<Seq<u8>> {
    Set::new(
        |key: Seq<u8>|
            key == payer || exists|i: int|
                0 <= i < instructions.len() && names_key(#[trigger] instructions[i], key),
    )
}

/// The keys that must sign a transaction: the fee payer, and every account
/// that an instruction marks as signer.
pub open spec fn signer_set(payer: Seq<u8>, instructions: Seq<InstructionView>) -> Set<Seq<u8>> {
    Set::new(
        |key: Seq<u8>|
            key == payer || exists|i: int|
                0 <= i < instructions.len() && names_signer(#[trigger] instructions[i], key),
    )
}

/// Whether a message can list the keys of the transaction: no more than
/// `MAX_KEYS` different keys, no more than `MAX_SIGNERS` of them signers.
pub open spec fn fits_message(payer: Seq<u8>, instructions: Seq<InstructionView>) -> bool {
    &&& key_set(payer, instructions).len() <= MAX_KEYS
    &&& signer_set(payer, instructions).len() <= MAX_SIGNERS
}

/// The instruction `whole`, with only its first `j` accounts.
spec fn cut(whole: InstructionView, j: int) -> InstructionView {
    InstructionView { program_id: whole.program_id, accounts: whole.accounts.take(j), data: whole.data }
}

/// The first `i` instructions, and of the next one the first `j` accounts.
spec fn begun(all: Seq<InstructionView>, i: int, j: int) -> Seq<InstructionView> {
    all.take(i).push(cut(all[i], j))
}

/// Before any instruction the fee payer is the only key, and the only
/// signer.
proof fn lemma_nothing_yet(payer: Seq<u8>, all: Seq<InstructionView>)
    ensures
        key_set(payer, all.take(0)) == set![payer],
        signer_set(payer, all.take(0)) == set![payer],
{
}

/// The program of the next instruction is one more key, and no signer.
proof fn lemma_program_begins(payer: Seq<u8>, all: Seq<InstructionView>, i: int)
    requires
        0 <= i < all.len(),
    ensures
        key_set(payer, begun(all, i, 0)) == key_set(payer, all.take(i)).insert(all[i].program_id),
        signer_set(payer, begun(all, i, 0)) == signer_set(payer, all.take(i)),
{
    let before = all.take(i);
    let now = begun(all, i, 0);
    assert forall|key: Seq<u8>|
        key_set(payer, now).contains(key) <==> key_set(payer, before).insert(
            all[i].program_id,
        ).contains(key) by {
        if key != payer {
            if exists|a: int| 0 <= a < now.len() && names_key(#[trigger] now[a], key) {
                let a = choose|a: int| 0 <= a < now.len() && names_key(#[trigger] now[a], key);
            }
            if exists|a: int| 0 <= a < before.len() && names_key(#[trigger] before[a], key) {
                let a = choose|a: int|
                    0 <= a < before.len() && names_key(#[trigger] before[a], key);
                assert(now[a] == before[a]);
            }
            if key == all[i].program_id {
                assert(names_key(now[i], key));
            }
        }
    }
    assert forall|key: Seq<u8>|
        signer_set(payer, now).contains(key) <==> signer_set(payer, before).contains(key) by {
        if key != payer {
            if exists|a: int| 0 <= a < now.len() && names_signer(#[trigger] now[a], key) {
                let a = choose|a: int| 0 <= a < now.len() && names_signer(#[trigger] now[a], key);
            }
            if exists|a: int| 0 <= a < before.len() && names_signer(#[trigger] before[a], key) {
                let a = choose|a: int|
                    0 <= a < before.len() && names_signer(#[trigger] before[a], key);
                assert(now[a] == before[a]);
            }
        }
    }
}

/// The next account of an instruction is one more key, and one more signer
/// where the instruction marks it so.
proof fn lemma_account_follows(payer: Seq<u8>, all: Seq<InstructionView>, i: int, j: int)
    requires
        0 <= i < all.len(),
        0 <= j < all[i].accounts.len(),
    ensures
        key_set(payer, begun(all, i, j + 1)) == key_set(payer, begun(all, i, j)).insert(
            all[i].accounts[j].pubkey,
        ),
        signer_set(payer, begun(all, i, j + 1)) == if all[i].accounts[j].is_signer {
            signer_set(payer, begun(all, i, j)).insert(all[i].accounts[j].pubkey)
        } else {
            signer_set(payer, begun(all, i, j))
        },
{
    let before = begun(all, i, j);
    let now = begun(all, i, j + 1);
    let added = all[i].accounts[j];
    assert(now[i].accounts[j] == added);
    assert forall|key: Seq<u8>|
        key_set(payer, now).contains(key) <==> key_set(payer, before).insert(
            added.pubkey,
        ).contains(key) by {
        if key != payer {
            if exists|a: int| 0 <= a < now.len() && names_key(#[trigger] now[a], key) {
                let a = choose|a: int| 0 <= a < now.len() && names_key(#[trigger] now[a], key);
                if a < i {
                    assert(before[a] == now[a]);
                } else if key != now[i].program_id {
                    let b = choose|b: int|
                        0 <= b < now[i].accounts.len() && (#[trigger] now[i].accounts[b]).pubkey
                            == key;
                    if b < j {
                        assert(before[i].accounts[b] == now[i].accounts[b]);
                    }
                } else {
                    assert(names_key(before[i], key));
                }
            }
            if exists|a: int| 0 <= a < before.len() && names_key(#[trigger] before[a], key) {
                let a = choose|a: int|
                    0 <= a < before.len() && names_key(#[trigger] before[a], key);
                if a < i {
                    assert(now[a] == before[a]);
                } else if key != before[i].program_id {
                    let b = choose|b: int|
                        0 <= b < before[i].accounts.len() && (
                        #[trigger] before[i].accounts[b]).pubkey == key;
                }
            }
        }
    }
    let then = if added.is_signer {
        signer_set(payer, before).insert(added.pubkey)
    } else {
        signer_set(payer, before)
    };
    assert forall|key: Seq<u8>| signer_set(payer, now).contains(key) <==> then.contains(key) by {
        if key != payer {
            if exists|a: int| 0 <= a < now.len() && names_signer(#[trigger] now[a], key) {
                let a = choose|a: int| 0 <= a < now.len() && names_signer(#[trigger] now[a], key);
                if a < i {
                    assert(before[a] == now[a]);
                } else {
                    let b = choose|b: int|
                        0 <= b < now[i].accounts.len() && (#[trigger] now[i].accounts[b]).is_signer
                            && now[i].accounts[b].pubkey == key;
                    if b < j {
                        assert(before[i].accounts[b] == now[i].accounts[b]);
                    }
                }
            }
            if exists|a: int| 0 <= a < before.len() && names_signer(#[trigger] before[a], key) {
                let a = choose|a: int|
                    0 <= a < before.len() && names_signer(#[trigger] before[a], key);
                if a < i {
                    assert(now[a] == before[a]);
                } else {
                    let b = choose|b: int|
                        0 <= b < before[i].accounts.len() && (
                        #[trigger] before[i].accounts[b]).is_signer && before[i].accounts[b].pubkey
                            == key;
                }
            }
        }
    }
}

/// An instruction with all its accounts is the instruction.
proof fn lemma_instruction_ends(all: Seq<InstructionView>, i: int)
    requires
        0 <= i < all.len(),
    ensures
        begun(all, i, all[i].accounts.len() as int) == all.take(i + 1),
{
    let whole = all[i];
    assert(cut(whole, whole.accounts.len() as int) == whole);
}

/// Whether two addresses are the same.
pub fn same_address(a: &Address, b: &Address) -> (same: bool)
    ensures
        same == (a@ == b@),
{
    let mut k: usize = 0;
    while k < 32
        invariant
            k <= 32,
            forall|n: int| 0 <= n < k ==> a@[n] == b@[n],
        decreases 32 - k,
    {
        if a.bytes[k] != b.bytes[k] {
            return false;
        }
        k = k + 1;
    }
    assert(a@ =~= b@);
    true
}

/// Whether the list holds the address.
pub fn holds_address(list: &Vec<Address>, address: &Address) -> (held: bool)
    ensures
        held == list.deep_view().contains(address@),
{
    let mut k: usize = 0;
    while k < list.len()
        invariant
            k <= list.len(),
            forall|n: int| 0 <= n < k ==> list.deep_view()[n] != address@,
        decreases list.len() - k,
    {
        if same_address(&list[k], address) {
            assert(list.deep_view()[k as int] == address@);
            return true;
        }
        k = k + 1;
    }
    false
}

/// Adds the address to a list without repetitions, unless it is there.
pub fn note_address(list: &mut Vec<Address>, address: Address)
    requires
        old(list).deep_view().no_duplicates(),
    ensures
        final(list).deep_view().no_duplicates(),
        final(list).deep_view().to_set() == old(list).deep_view().to_set().insert(address@),
{
    if !holds_address(list, &address) {
        let ghost before = list.deep_view();
        list.push(address);
        proof {
            assert(list.deep_view() =~= before.push(address@));
            before.lemma_push_to_set_commute(address@);
        }
    }
}

/// Counts the different keys of a transaction, and those among them that
/// must sign.
pub fn count_keys(instructions: &Vec<Instruction>, payer: &Address) -> (count: (usize, usize))
    ensures
        key_set(payer@, instructions.deep_view()).finite(),
        signer_set(payer@, instructions.deep_view()).finite(),
        count.0 == key_set(payer@, instructions.deep_view()).len(),
        count.1 == signer_set(payer@, instructions.deep_view()).len(),
{
    let ghost all = instructions.deep_view();
    let mut keys: Vec<Address> = Vec::new();
    let mut signers: Vec<Address> = Vec::new();
    proof {
        lemma_nothing_yet(payer@, all);
    }
    note_address(&mut keys, *payer);
    note_address(&mut signers, *payer);
    let mut i: usize = 0;
    while i < instructions.len()
        invariant
            i <= instructions.len(),
            all == instructions.deep_view(),
            keys.deep_view().no_duplicates(),
            signers.deep_view().no_duplicates(),
            keys.deep_view().to_set() == key_set(payer@, all.take(i as int)),
            signers.deep_view().to_set() == signer_set(payer@, all.take(i as int)),
        decreases instructions.len() - i,
    {
        let instruction = &instructions[i];
        note_address(&mut keys, instruction.program_id);
        proof {
            lemma_program_begins(payer@, all, i as int);
        }
        let mut j: usize = 0;
        while j < instruction.accounts.len()
            invariant
                i < instructions.len(),
                j <= instruction.accounts.len(),
                all == instructions.deep_view(),
                *instruction == instructions[i as int],
                keys.deep_view().no_duplicates(),
                signers.deep_view().no_duplicates(),
                keys.deep_view().to_set() == key_set(payer@, begun(all, i as int, j as int)),
                signers.deep_view().to_set() == signer_set(payer@, begun(all, i as int, j as int)),
            decreases instruction.accounts.len() - j,
        {
            let account = instruction.accounts[j];
            proof {
                lemma_account_follows(payer@, all, i as int, j as int);
            }
            note_address(&mut keys, account.pubkey);
            if account.is_signer {
                note_address(&mut signers, account.pubkey);
            }
            j = j + 1;
        }
        proof {
            lemma_instruction_ends(all, i as int);
        }
        i = i + 1;
    }
    proof {
        assert(all.take(i as int) =~= all);
        keys.deep_view().unique_seq_to_set();
        signers.deep_view().unique_seq_to_set();
    }
    (keys.len(), signers.len())
}

/// How often instructions mention a key: once for each program, once for
/// each account.
pub open spec fn key_mentions(instructions: Seq<InstructionView>) -> nat
    decreases instructions.len(),
{
    if instructions.len() == 0 {
        0
    } else {
        key_mentions(instructions.drop_last()) + 1 + instructions.last().accounts.len()
    }
}

/// The first `j` accounts of an instruction add at most `j` keys.
proof fn lemma_accounts_are_few(payer: Seq<u8>, all: Seq<InstructionView>, i: int, j: int)
    requires
        0 <= i < all.len(),
        0 <= j <= all[i].accounts.len(),
        key_set(payer, begun(all, i, 0)).finite(),
        signer_set(payer, begun(all, i, 0)).finite(),
    ensures
        key_set(payer, begun(all, i, j)).finite(),
        signer_set(payer, begun(all, i, j)).finite(),
        key_set(payer, begun(all, i, j)).len() <= key_set(payer, begun(all, i, 0)).len() + j,
        signer_set(payer, begun(all, i, j)).len() <= signer_set(payer, begun(all, i, 0)).len() + j,
    decreases j,
{
    if j > 0 {
        lemma_accounts_are_few(payer, all, i, j - 1);
        lemma_account_follows(payer, all, i, j - 1);
    }
}

/// The keys of a transaction are finitely many: no more than its
/// instructions mention, and the fee payer. So are those that sign.
pub proof fn lemma_keys_are_few(payer: Seq<u8>, all: Seq<InstructionView>)
    ensures
        key_set(payer, all).finite(),
        signer_set(payer, all).finite(),
        key_set(payer, all).len() <= key_mentions(all) + 1,
        signer_set(payer, all).len() <= key_mentions(all) + 1,
    decreases all.len(),
{
    if all.len() == 0 {
        lemma_nothing_yet(payer, all);
        assert(all.take(0) =~= all);
    } else {
        let i = all.len() - 1;
        assert(all.take(i + 1) =~= all);
        lemma_keys_are_few(payer, all.drop_last());
        lemma_program_begins(payer, all, i);
        lemma_accounts_are_few(payer, all, i, all[i].accounts.len() as int);
        lemma_instruction_ends(all, i);
    }
}

} // verus!
