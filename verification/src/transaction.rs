//! Assembly of transactions: the signers that a list of instructions requires, and the check
//! that exactly those are at hand before anything is submitted.

use vstd::prelude::*;
use crate::address::{addresses_view, Address};
use crate::instruction::{
    instructions_view, metas_view, AccountMetaView, Instruction, InstructionView,
};

verus! {

/// A freshness token: the identifier of a recent block, 32 bytes.
#[derive(Clone, Copy, Debug, PartialEq, Eq, Hash)]
pub struct Blockhash(pub [u8; 32]);

impl View for Blockhash {
    type V = Seq<u8>;

    open spec fn view(&self) -> Seq<u8> {
        self.0@
    }
}

/// Whether some instruction flags `key` as a signer.
pub open spec fn flagged_signer(instructions: Seq<InstructionView>, key: Seq<u8>) -> bool {
    exists|i: int, j: int|
        0 <= i < instructions.len() && 0 <= j < instructions[i].accounts.len()
            && (#[trigger] instructions[i].accounts[j]).is_signer && instructions[i].accounts[j].pubkey
            == key
}

/// Whether some account reference in `metas` flags `key` as a signer.
pub open spec fn flagged_in(metas: Seq<AccountMetaView>, key: Seq<u8>) -> bool {
    exists|j: int| 0 <= j < metas.len() && (#[trigger] metas[j]).is_signer && metas[j].pubkey == key
}

/// `seen`, with `key` added at the end unless it is there already.
pub open spec fn noted(seen: Seq<Seq<u8>>, key: Seq<u8>) -> Seq<Seq<u8>> {
    if seen.contains(key) {
        seen
    } else {
        seen.push(key)
    }
}

/// `seen`, followed by the signers that `metas` flags and that were not seen, in order of
/// first appearance.
pub open spec fn noted_metas(seen: Seq<Seq<u8>>, metas: Seq<AccountMetaView>) -> Seq<Seq<u8>>
    decreases metas.len(),
{
    if metas.len() == 0 {
        seen
    } else {
        let before = noted_metas(seen, metas.drop_last());
        if metas.last().is_signer {
            noted(before, metas.last().pubkey)
        } else {
            before
        }
    }
}

/// `seen`, followed by the signers that `instructions` flag and that were not seen, in order
/// of first appearance.
pub open spec fn noted_instructions(
    seen: Seq<Seq<u8>>,
    instructions: Seq<InstructionView>,
) -> Seq<Seq<u8>>
    decreases instructions.len(),
{
    if instructions.len() == 0 {
        seen
    } else {
        noted_metas(
            noted_instructions(seen, instructions.drop_last()),
            instructions.last().accounts,
        )
    }
}

/// The signers that a transaction requires, one slot each: the fee payer first, then every
/// account that an instruction flags as signer, in order of first appearance.
pub open spec fn required_signers(
    instructions: Seq<InstructionView>,
    fee_payer: Seq<u8>,
) -> Seq<Seq<u8>> {
    noted_instructions(seq![fee_payer], instructions)
}

/// Whether every element of `inner` occurs in `outer`.
pub open spec fn within(inner: Seq<Seq<u8>>, outer: Seq<Seq<u8>>) -> bool {
    forall|i: int| 0 <= i < inner.len() ==> outer.contains(#[trigger] inner[i])
}

/// Whether `i` is the first position of `inner` whose element does not occur in `outer`.
pub open spec fn first_outside_at(inner: Seq<Seq<u8>>, outer: Seq<Seq<u8>>, i: int) -> bool {
    &&& 0 <= i < inner.len()
    &&& !outer.contains(inner[i])
    &&& within(inner.take(i), outer)
}

/// Whether the signers at hand are exactly those that the transaction requires.
pub open spec fn signers_match(
    instructions: Seq<InstructionView>,
    fee_payer: Seq<u8>,
    signers: Seq<Seq<u8>>,
) -> bool {
    &&& within(signers, required_signers(instructions, fee_payer))
    &&& within(required_signers(instructions, fee_payer), signers)
}

/// What `noted_metas` holds: what was seen and the signers that `metas` flag, each once where
/// `seen` held each once, with `seen` unchanged in front.
proof fn lemma_noted_metas(seen: Seq<Seq<u8>>, metas: Seq<AccountMetaView>)
    ensures
        forall|key: Seq<u8>|
            #![trigger noted_metas(seen, metas).contains(key)]
            noted_metas(seen, metas).contains(key) <==> seen.contains(key) || flagged_in(metas, key),
        seen.no_duplicates() ==> noted_metas(seen, metas).no_duplicates(),
        seen.len() <= noted_metas(seen, metas).len(),
        noted_metas(seen, metas).take(seen.len() as int) == seen,
    decreases metas.len(),
{
    let after = noted_metas(seen, metas);
    if metas.len() == 0 {
        assert(after.take(seen.len() as int) =~= seen);
    } else {
        let front = metas.drop_last();
        let before = noted_metas(seen, front);
        lemma_noted_metas(seen, front);
        assert(before.take(seen.len() as int) == seen);
        assert(after.take(seen.len() as int) =~= before.take(seen.len() as int));
        assert forall|key: Seq<u8>|
            #![trigger after.contains(key)]
            after.contains(key) <==> seen.contains(key) || flagged_in(metas, key) by {
            let last = metas.last();
            if after.contains(key) {
                if before.contains(key) {
                    if !seen.contains(key) {
                        let j = choose|j: int|
                            0 <= j < front.len() && (#[trigger] front[j]).is_signer
                                && front[j].pubkey == key;
                        assert(metas[j] == front[j]);
                    }
                } else {
                    let k = choose|k: int| 0 <= k < after.len() && after[k] == key;
                    assert(last.is_signer && after == before.push(last.pubkey));
                    if k < before.len() {
                        assert(before[k] == key);
                    }
                    assert(metas[metas.len() - 1] == last);
                }
            }
            if seen.contains(key) {
                assert(before.contains(key));
                let k = choose|k: int| 0 <= k < before.len() && before[k] == key;
                assert(after[k] == key);
            }
            if flagged_in(metas, key) {
                let j = choose|j: int|
                    0 <= j < metas.len() && (#[trigger] metas[j]).is_signer && metas[j].pubkey
                        == key;
                if j < front.len() {
                    assert(front[j] == metas[j]);
                    assert(before.contains(key));
                    let k = choose|k: int| 0 <= k < before.len() && before[k] == key;
                    assert(after[k] == key);
                } else {
                    assert(metas[j] == last);
                    if before.contains(key) {
                        assert(after == before);
                    } else {
                        assert(after == before.push(key));
                        assert(after[before.len() as int] == key);
                    }
                }
            }
        }
    }
}

/// What `noted_instructions` holds: what was seen and the signers that `instructions` flag,
/// each once where `seen` held each once, with `seen` unchanged in front.
proof fn lemma_noted_instructions(seen: Seq<Seq<u8>>, instructions: Seq<InstructionView>)
    ensures
        forall|key: Seq<u8>|
            #![trigger noted_instructions(seen, instructions).contains(key)]
            noted_instructions(seen, instructions).contains(key) <==> seen.contains(key)
                || flagged_signer(instructions, key),
        seen.no_duplicates() ==> noted_instructions(seen, instructions).no_duplicates(),
        seen.len() <= noted_instructions(seen, instructions).len(),
        noted_instructions(seen, instructions).take(seen.len() as int) == seen,
    decreases instructions.len(),
{
    let after = noted_instructions(seen, instructions);
    if instructions.len() == 0 {
        assert(after.take(seen.len() as int) =~= seen);
    } else {
        let front = instructions.drop_last();
        let last = instructions.last();
        let before = noted_instructions(seen, front);
        lemma_noted_instructions(seen, front);
        lemma_noted_metas(before, last.accounts);
        assert(after.take(seen.len() as int) =~= before.take(seen.len() as int)) by {
            assert(after.take(before.len() as int) == before);
        }
        assert forall|key: Seq<u8>|
            #![trigger after.contains(key)]
            after.contains(key) <==> seen.contains(key) || flagged_signer(instructions, key) by {
            if flagged_signer(instructions, key) {
                let (i, j) = choose|i: int, j: int|
                    0 <= i < instructions.len() && 0 <= j < instructions[i].accounts.len()
                        && (#[trigger] instructions[i].accounts[j]).is_signer
                        && instructions[i].accounts[j].pubkey == key;
                if i < front.len() {
                    assert(front[i].accounts[j].is_signer);
                    assert(flagged_signer(front, key));
                } else {
                    assert(last.accounts[j].is_signer);
                    assert(flagged_in(last.accounts, key));
                }
            }
            if after.contains(key) && !seen.contains(key) {
                if flagged_in(last.accounts, key) {
                    let j = choose|j: int|
                        0 <= j < last.accounts.len() && (#[trigger] last.accounts[j]).is_signer
                            && last.accounts[j].pubkey == key;
                    assert(instructions[instructions.len() - 1].accounts[j].is_signer);
                } else {
                    assert(flagged_signer(front, key));
                    let (i, j) = choose|i: int, j: int|
                        0 <= i < front.len() && 0 <= j < front[i].accounts.len()
                            && (#[trigger] front[i].accounts[j]).is_signer
                            && front[i].accounts[j].pubkey == key;
                    assert(instructions[i].accounts[j].is_signer);
                }
            }
        }
    }
}

/// The required signers are the fee payer and the flagged signers, each once, the fee payer
/// first.
pub proof fn lemma_required_signers(instructions: Seq<InstructionView>, fee_payer: Seq<u8>)
    ensures
        forall|key: Seq<u8>|
            #![trigger required_signers(instructions, fee_payer).contains(key)]
            required_signers(instructions, fee_payer).contains(key) <==> key == fee_payer
                || flagged_signer(instructions, key),
        required_signers(instructions, fee_payer).no_duplicates(),
        required_signers(instructions, fee_payer).len() >= 1,
        required_signers(instructions, fee_payer)[0] == fee_payer,
{
    let seen = seq![fee_payer];
    lemma_noted_instructions(seen, instructions);
    let req = required_signers(instructions, fee_payer);
    assert(req.take(1)[0] == seen[0]);
    assert forall|key: Seq<u8>|
        #![trigger req.contains(key)]
        req.contains(key) <==> key == fee_payer || flagged_signer(instructions, key) by {
        assert(seen[0] == fee_payer);
    }
}

/// Whether `key` is among `addresses`.
pub fn contains_address(addresses: &Vec<Address>, key: &Address) -> (found: bool)
    ensures
        found == addresses_view(addresses@).contains(key@),
{
    let ghost keys = addresses_view(addresses@);
    let mut i: usize = 0;
    while i < addresses.len()
        invariant
            i <= addresses.len(),
            keys == addresses_view(addresses@),
            forall|k: int| 0 <= k < i ==> keys[k] != key@,
        decreases addresses.len() - i,
    {
        if addresses[i] == *key {
            assert(keys[i as int] == key@);
            return true;
        }
        i += 1;
    }
    false
}

/// The first of `inner` that is not among `outer`, if there is one.
fn first_outside(inner: &Vec<Address>, outer: &Vec<Address>) -> (found: Option<Address>)
    ensures
        found is None <==> within(addresses_view(inner@), addresses_view(outer@)),
        found matches Some(a) ==> exists|i: int|
            first_outside_at(addresses_view(inner@), addresses_view(outer@), i) && addresses_view(
                inner@,
            )[i] == a@,
{
    let ghost keys = addresses_view(inner@);
    let ghost others = addresses_view(outer@);
    let mut i: usize = 0;
    while i < inner.len()
        invariant
            i <= inner.len(),
            keys == addresses_view(inner@),
            others == addresses_view(outer@),
            within(keys.take(i as int), others),
        decreases inner.len() - i,
    {
        if !contains_address(outer, &inner[i]) {
            assert(first_outside_at(keys, others, i as int));
            assert(keys[i as int] == inner[i as int]@);
            return Some(inner[i]);
        }
        assert(within(keys.take(i + 1), others)) by {
            assert forall|k: int| 0 <= k < i + 1 implies others.contains(
                #[trigger] keys.take(i + 1)[k],
            ) by {
                if k < i {
                    assert(keys.take(i as int)[k] == keys[k]);
                }
            }
        }
        i += 1;
    }
    assert(keys.take(i as int) =~= keys);
    None
}

/// Lists the signers that a transaction of `instructions` paid for by `fee_payer` requires:
/// the fee payer first, then every account flagged as signer, in order of first appearance
/// and each once.
pub fn collect_required_signers(
    instructions: &Vec<Instruction>,
    fee_payer: &Address,
) -> (required: Vec<Address>)
    ensures
        addresses_view(required@) == required_signers(instructions_view(instructions@), fee_payer@),
{
    let ghost plan = instructions_view(instructions@);
    let ghost start = seq![fee_payer@];
    let mut required: Vec<Address> = Vec::new();
    required.push(*fee_payer);
    assert(addresses_view(required@) =~= start);
    let mut i: usize = 0;
    while i < instructions.len()
        invariant
            i <= instructions.len(),
            plan == instructions_view(instructions@),
            addresses_view(required@) == noted_instructions(start, plan.take(i as int)),
        decreases instructions.len() - i,
    {
        let metas = instructions[i].accounts();
        let ghost models = metas_view(metas@);
        let ghost before = noted_instructions(start, plan.take(i as int));
        let mut j: usize = 0;
        while j < metas.len()
            invariant
                j <= metas.len(),
                models == metas_view(metas@),
                addresses_view(required@) == noted_metas(before, models.take(j as int)),
            decreases metas.len() - j,
        {
            proof {
                assert(models.take(j + 1).drop_last() =~= models.take(j as int));
                assert(models.take(j + 1).last() == metas[j as int]@);
            }
            if metas[j].is_signer && !contains_address(&required, &metas[j].pubkey) {
                let ghost old_keys = addresses_view(required@);
                required.push(metas[j].pubkey);
                assert(addresses_view(required@) =~= old_keys.push(metas[j as int].pubkey@));
            }
            j += 1;
        }
        proof {
            assert(models.take(j as int) =~= models);
            assert(plan.take(i + 1).drop_last() =~= plan.take(i as int));
            assert(plan.take(i + 1).last().accounts == models);
        }
        i += 1;
    }
    assert(plan.take(i as int) =~= plan);
    required
}

/// Mathematical model of an assembled transaction.
pub struct TransactionView {
    pub instructions: Seq<InstructionView>,
    pub fee_payer: Seq<u8>,
    pub recent_blockhash: Seq<u8>,
    pub signers: Seq<Seq<u8>>,
}

/// A transaction ready to be signed and submitted: its instructions in order, its fee payer,
/// its freshness token and one signature slot for each required signer. It is built by
/// [`assemble`] only and never changed afterwards.
#[derive(Debug)]
pub struct Transaction {
    instructions: Vec<Instruction>,
    fee_payer: Address,
    recent_blockhash: Blockhash,
    signers: Vec<Address>,
}

impl View for Transaction {
    type V = TransactionView;

    closed spec fn view(&self) -> TransactionView {
        TransactionView {
            instructions: instructions_view(self.instructions@),
            fee_payer: self.fee_payer@,
            recent_blockhash: self.recent_blockhash@,
            signers: addresses_view(self.signers@),
        }
    }
}

impl Transaction {
    /// The signature slots are those that the instructions and the fee payer require.
    #[verifier::type_invariant]
    closed spec fn slots_are_required(&self) -> bool {
        addresses_view(self.signers@) == required_signers(
            instructions_view(self.instructions@),
            self.fee_payer@,
        )
    }

    /// The instructions, in the order in which the ledger executes them.
    pub fn instructions(&self) -> (instructions: &Vec<Instruction>)
        ensures
            instructions_view(instructions@) == self@.instructions,
    {
        &self.instructions
    }

    /// The account that pays the fee.
    pub fn fee_payer(&self) -> (fee_payer: Address)
        ensures
            fee_payer@ == self@.fee_payer,
    {
        self.fee_payer
    }

    /// The freshness token.
    pub fn recent_blockhash(&self) -> (recent_blockhash: Blockhash)
        ensures
            recent_blockhash@ == self@.recent_blockhash,
    {
        self.recent_blockhash
    }

    /// The signers, one for each signature slot and in the order of the slots. They are
    /// exactly the signers that the instructions and the fee payer require.
    pub fn signers(&self) -> (signers: &Vec<Address>)
        ensures
            addresses_view(signers@) == self@.signers,
            self@.signers == required_signers(self@.instructions, self@.fee_payer),
    {
        proof {
            use_type_invariant(self);
        }
        &self.signers
    }
}

/// Why a transaction could not be assembled.
#[derive(Clone, Copy, Debug, PartialEq, Eq)]
pub enum AssembleError {
    /// A signer is at hand that the transaction does not require.
    UnexpectedSigner(Address),
    /// A signer that the transaction requires is not at hand.
    MissingSigner(Address),
}

/// Assembles a transaction from `instructions`, in their order, paid for by `fee_payer` and
/// bound to `recent_blockhash`. Succeeds exactly when `signers` are the fee payer and the
/// accounts that the instructions flag as signers, no more and no fewer. Otherwise reports
/// the first signer at hand that is not required or, if there is none, the first required
/// signer that is not at hand.
pub fn assemble(
    instructions: Vec<Instruction>,
    fee_payer: Address,
    signers: &Vec<Address>,
    recent_blockhash: Blockhash,
) -> (assembled: Result<Transaction, AssembleError>)
    ensures
        assembled is Ok <==> signers_match(
            instructions_view(instructions@),
            fee_payer@,
            addresses_view(signers@),
        ),
        assembled matches Ok(tx) ==> tx@ == (TransactionView {
            instructions: instructions_view(instructions@),
            fee_payer: fee_payer@,
            recent_blockhash: recent_blockhash@,
            signers: required_signers(instructions_view(instructions@), fee_payer@),
        }),
        assembled matches Err(AssembleError::UnexpectedSigner(_)) <==> !within(
            addresses_view(signers@),
            required_signers(instructions_view(instructions@), fee_payer@),
        ),
        assembled matches Err(AssembleError::MissingSigner(_)) <==> within(
            addresses_view(signers@),
            required_signers(instructions_view(instructions@), fee_payer@),
        ) && !within(
            required_signers(instructions_view(instructions@), fee_payer@),
            addresses_view(signers@),
        ),
        assembled matches Err(AssembleError::UnexpectedSigner(a)) ==> exists|i: int|
            first_outside_at(
                addresses_view(signers@),
                required_signers(instructions_view(instructions@), fee_payer@),
                i,
            ) && addresses_view(signers@)[i] == a@,
        assembled matches Err(AssembleError::MissingSigner(a)) ==> exists|i: int|
            first_outside_at(
                required_signers(instructions_view(instructions@), fee_payer@),
                addresses_view(signers@),
                i,
            ) && required_signers(instructions_view(instructions@), fee_payer@)[i] == a@,
{
    let required = collect_required_signers(&instructions, &fee_payer);
    if let Some(extra) = first_outside(signers, &required) {
        return Err(AssembleError::UnexpectedSigner(extra));
    }
    if let Some(missing) = first_outside(&required, signers) {
        return Err(AssembleError::MissingSigner(missing));
    }
    Ok(Transaction { instructions, fee_payer, recent_blockhash, signers: required })
}

/// Whether every signer that `instructions` flag is `a` or `b`.
pub open spec fn signers_among(instructions: Seq<InstructionView>, a: Seq<u8>, b: Seq<u8>) -> bool {
    forall|i: int, j: int|
        0 <= i < instructions.len() && 0 <= j < instructions[i].accounts.len()
            && (#[trigger] instructions[i].accounts[j]).is_signer ==> instructions[i].accounts[j].pubkey
            == a || instructions[i].accounts[j].pubkey == b
}

/// Whether every signer that `metas` flag is `a` or `b`.
pub open spec fn metas_among(metas: Seq<AccountMetaView>, a: Seq<u8>, b: Seq<u8>) -> bool {
    forall|j: int|
        0 <= j < metas.len() && (#[trigger] metas[j]).is_signer ==> metas[j].pubkey == a
            || metas[j].pubkey == b
}

/// One more instruction whose signers are `a` or `b` keeps the signers of a plan among `a`
/// and `b`.
pub proof fn lemma_push_keeps_signers_among(
    instructions: Seq<InstructionView>,
    ix: InstructionView,
    a: Seq<u8>,
    b: Seq<u8>,
)
    requires
        signers_among(instructions, a, b),
        metas_among(ix.accounts, a, b),
    ensures
        signers_among(instructions.push(ix), a, b),
{
    let longer = instructions.push(ix);
    assert forall|i: int, j: int|
        0 <= i < longer.len() && 0 <= j < longer[i].accounts.len()
            && (#[trigger] longer[i].accounts[j]).is_signer implies longer[i].accounts[j].pubkey
        == a || longer[i].accounts[j].pubkey == b by {
        if i < instructions.len() {
            assert(longer[i] == instructions[i]);
            assert(instructions[i].accounts[j].is_signer);
        }
    }
}

/// A signer that a plan flags is still flagged after one more instruction.
pub proof fn lemma_push_keeps_flagged(
    instructions: Seq<InstructionView>,
    ix: InstructionView,
    key: Seq<u8>,
)
    requires
        flagged_signer(instructions, key),
    ensures
        flagged_signer(instructions.push(ix), key),
{
    let longer = instructions.push(ix);
    let (i, j) = choose|i: int, j: int|
        0 <= i < instructions.len() && 0 <= j < instructions[i].accounts.len()
            && (#[trigger] instructions[i].accounts[j]).is_signer
            && instructions[i].accounts[j].pubkey == key;
    assert(longer[i] == instructions[i]);
    assert(longer[i].accounts[j].is_signer);
}

/// Where the instructions flag `other` and no signer but it and the fee payer, the required
/// signers are the fee payer and then `other`, unless the two are one, and the two at hand
/// are accepted.
pub proof fn lemma_required_pair(
    instructions: Seq<InstructionView>,
    fee_payer: Seq<u8>,
    other: Seq<u8>,
)
    requires
        signers_among(instructions, fee_payer, other),
        flagged_signer(instructions, other),
    ensures
        required_signers(instructions, fee_payer) == noted(seq![fee_payer], other),
        signers_match(instructions, fee_payer, seq![fee_payer, other]),
{
    let required = required_signers(instructions, fee_payer);
    let given = seq![fee_payer, other];
    lemma_required_signers(instructions, fee_payer);
    assert(seq![fee_payer][0] == fee_payer);
    assert forall|k: int| 0 <= k < required.len() implies #[trigger] required[k] == fee_payer
        || required[k] == other by {
        assert(required.contains(required[k]));
    }
    assert(required.contains(other));
    let at = choose|k: int| 0 <= k < required.len() && required[k] == other;
    if other == fee_payer {
        if required.len() >= 2 {
            assert(required[1] == required[0]);
        }
        assert(required =~= seq![fee_payer]);
    } else {
        assert(at >= 1);
        if required.len() >= 3 {
            assert(required[1] != required[0] && required[2] != required[0]);
            assert(required[1] == required[2]);
        }
        assert(required =~= seq![fee_payer].push(other));
    }
    assert(given[0] == fee_payer && given[1] == other);
    assert(within(required, given));
    assert(within(given, required)) by {
        assert(required[0] == fee_payer);
    }
}

/// Where the instructions flag no signer but the fee payer, the fee payer is the one
/// required signer, and is accepted alone.
pub proof fn lemma_required_single(instructions: Seq<InstructionView>, fee_payer: Seq<u8>)
    requires
        signers_among(instructions, fee_payer, fee_payer),
    ensures
        required_signers(instructions, fee_payer) == seq![fee_payer],
        signers_match(instructions, fee_payer, seq![fee_payer]),
{
    let required = required_signers(instructions, fee_payer);
    let given = seq![fee_payer];
    lemma_required_signers(instructions, fee_payer);
    assert forall|k: int| 0 <= k < required.len() implies #[trigger] required[k] == fee_payer by {
        assert(required.contains(required[k]));
    }
    if required.len() >= 2 {
        assert(required[1] == required[0]);
    }
    assert(required =~= given);
    assert(given[0] == fee_payer);
}

/// The signers at hand are accepted exactly when they are the union of the fee payer and the
/// accounts that the instructions flag as signers: each of them is the fee payer or flagged,
/// and the fee payer and every flagged account are among them.
pub proof fn lemma_signers_match_the_union(
    instructions: Seq<InstructionView>,
    fee_payer: Seq<u8>,
    signers: Seq<Seq<u8>>,
)
    ensures
        signers_match(instructions, fee_payer, signers) <==> {
            &&& forall|k: int|
                0 <= k < signers.len() ==> #[trigger] signers[k] == fee_payer || flagged_signer(
                    instructions,
                    signers[k],
                )
            &&& signers.contains(fee_payer)
            &&& forall|key: Seq<u8>|
                #[trigger] flagged_signer(instructions, key) ==> signers.contains(key)
        },
{
    let required = required_signers(instructions, fee_payer);
    lemma_required_signers(instructions, fee_payer);
    if signers_match(instructions, fee_payer, signers) {
        assert forall|k: int| 0 <= k < signers.len() implies #[trigger] signers[k] == fee_payer
            || flagged_signer(instructions, signers[k]) by {
            assert(required.contains(signers[k]));
        }
        assert(signers.contains(required[0]));
        assert forall|key: Seq<u8>| #[trigger]
            flagged_signer(instructions, key) implies signers.contains(key) by {
            assert(required.contains(key));
            let at = choose|at: int| 0 <= at < required.len() && required[at] == key;
            assert(signers.contains(required[at]));
        }
    }
    if (forall|k: int|
        0 <= k < signers.len() ==> #[trigger] signers[k] == fee_payer || flagged_signer(
            instructions,
            signers[k],
        )) && signers.contains(fee_payer) && (forall|key: Seq<u8>| #[trigger]
        flagged_signer(instructions, key) ==> signers.contains(key)) {
        assert forall|k: int| 0 <= k < signers.len() implies required.contains(
            #[trigger] signers[k],
        ) by {}
        assert forall|at: int| 0 <= at < required.len() implies signers.contains(
            #[trigger] required[at],
        ) by {
            assert(required.contains(required[at]));
        }
    }
}

/// A transaction lacking a signer that one of its instructions flags is not assembled.
pub proof fn lemma_missing_signer_is_refused(
    instructions: Seq<InstructionView>,
    fee_payer: Seq<u8>,
    signers: Seq<Seq<u8>>,
    i: int,
    j: int,
)
    requires
        0 <= i < instructions.len(),
        0 <= j < instructions[i].accounts.len(),
        instructions[i].accounts[j].is_signer,
        !signers.contains(instructions[i].accounts[j].pubkey),
    ensures
        !signers_match(instructions, fee_payer, signers),
{
    let key = instructions[i].accounts[j].pubkey;
    let required = required_signers(instructions, fee_payer);
    lemma_required_signers(instructions, fee_payer);
    assert(flagged_signer(instructions, key));
    assert(required.contains(key));
    let k = choose|k: int| 0 <= k < required.len() && required[k] == key;
    assert(!signers.contains(required[k]));
}

/// A transaction whose fee payer is not among the signers is not assembled.
pub proof fn lemma_missing_fee_payer_is_refused(
    instructions: Seq<InstructionView>,
    fee_payer: Seq<u8>,
    signers: Seq<Seq<u8>>,
)
    requires
        !signers.contains(fee_payer),
    ensures
        !signers_match(instructions, fee_payer, signers),
{
    let required = required_signers(instructions, fee_payer);
    lemma_required_signers(instructions, fee_payer);
    assert(!signers.contains(required[0]));
}

/// A transaction with a signer at hand that is neither the fee payer nor flagged by an
/// instruction is not assembled.
pub proof fn lemma_unused_signer_is_refused(
    instructions: Seq<InstructionView>,
    fee_payer: Seq<u8>,
    signers: Seq<Seq<u8>>,
    k: int,
)
    requires
        0 <= k < signers.len(),
        signers[k] != fee_payer,
        !flagged_signer(instructions, signers[k]),
    ensures
        !signers_match(instructions, fee_payer, signers),
{
    lemma_required_signers(instructions, fee_payer);
    assert(!required_signers(instructions, fee_payer).contains(signers[k]));
}

} // verus!
