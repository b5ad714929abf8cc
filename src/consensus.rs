//! Validator selection under three scoring rules: computational power, stake
//! and delegated votes. Each roster has three named validators with an
//! integer weight; the selected one has the greatest weight, ties going to the
//! earliest.
use vstd::prelude::*;
use vstd::string::*;
use crate::hashing::hex_alphabet;

verus! {

/// Relies on rand's `Rng::gen_range` on `thread_rng()`: a value in
/// `[low, high)`. It panics on an empty range, which `requires` excludes.
#[verifier::external_body]
fn draw_in_range(low: u64, high: u64) -> (r: u64)
    requires
        low < high,
    ensures
        low <= r < high,
{
    rand::Rng::gen_range(&mut rand::thread_rng(), low..high)
}

/// The scoring rule of a roster.
#[derive(Clone, Copy, Debug, PartialEq, Eq, Structural)]
pub enum Mechanism {
    /// Weight is computational power, drawn from `[1, 100)`.
    ProofOfWork,
    /// Weight is stake, drawn from `[100, 1000)`.
    ProofOfStake,
    /// Weight is delegated votes, drawn from `[1, 10)`.
    DelegatedProofOfStake,
}

/// A participant and its weight.
pub struct Validator {
    pub id: String,
    pub weight: u64,
}

/// A roster of validators scored under one mechanism.
pub struct Consensus {
    pub mechanism: Mechanism,
    pub validators: Vec<Validator>,
}

/// The number of validators in a roster built by `Consensus`.
pub const ROSTER_SIZE: usize = 3;

/// Lowest weight that `Consensus::new` draws.
pub open spec fn weight_low(m: Mechanism) -> u64 {
    match m {
        Mechanism::ProofOfWork => 1,
        Mechanism::ProofOfStake => 100,
        Mechanism::DelegatedProofOfStake => 1,
    }
}

/// One past the highest weight that `Consensus::new` draws.
pub open spec fn weight_high(m: Mechanism) -> u64 {
    match m {
        Mechanism::ProofOfWork => 100,
        Mechanism::ProofOfStake => 1000,
        Mechanism::DelegatedProofOfStake => 10,
    }
}

/// Decimal text of a natural number.
pub open spec fn decimal_text(n: nat) -> Seq<char>
    decreases n,
{
    if n < 10 {
        seq![hex_alphabet()[n as int]]
    } else {
        decimal_text(n / 10).push(hex_alphabet()[(n % 10) as int])
    }
}

/// The name stem of the validators of a mechanism.
pub open spec fn id_stem(m: Mechanism) -> Seq<char> {
    match m {
        Mechanism::ProofOfWork => "Miner"@,
        Mechanism::ProofOfStake => "Staker"@,
        Mechanism::DelegatedProofOfStake => "Delegate"@,
    }
}

/// The id of the validator at position `k` (counted from 0) of a roster.
pub open spec fn validator_id(m: Mechanism, k: nat) -> Seq<char> {
    id_stem(m) + decimal_text(k + 1)
}

/// Validator `k` has the greatest weight, and every validator before it has
/// strictly less.
pub open spec fn is_first_max(vs: Seq<Validator>, k: int) -> bool {
    &&& 0 <= k < vs.len()
    &&& forall|j: int| 0 <= j < vs.len() ==> #[trigger] vs[j].weight <= vs[k].weight
    &&& forall|j: int| 0 <= j < k ==> #[trigger] vs[j].weight < vs[k].weight
}

/// The opening sentence of an explanation.
pub open spec fn rationale(m: Mechanism) -> Seq<char> {
    match m {
        Mechanism::ProofOfWork => "PoW: Selected validator with highest computational power."@,
        Mechanism::ProofOfStake => "PoS: Selected validator with highest stake."@,
        Mechanism::DelegatedProofOfStake => "DPoS: Selected delegate with most votes."@,
    }
}

/// The record name under which a mechanism's validators are listed.
pub open spec fn record_name(m: Mechanism) -> Seq<char> {
    match m {
        Mechanism::ProofOfWork => "PowValidator"@,
        Mechanism::ProofOfStake => "PosValidator"@,
        Mechanism::DelegatedProofOfStake => "DposValidator"@,
    }
}

/// The name of the weight under a mechanism.
pub open spec fn weight_name(m: Mechanism) -> Seq<char> {
    match m {
        Mechanism::ProofOfWork => "power"@,
        Mechanism::ProofOfStake => "stake"@,
        Mechanism::DelegatedProofOfStake => "votes"@,
    }
}

/// One validator as listed: `Name { id: "Miner1", power: 42 }`.
pub open spec fn entry_text(m: Mechanism, v: Validator) -> Seq<char> {
    record_name(m) + " { id: \""@ + v.id@ + "\", "@ + weight_name(m) + ": "@ + decimal_text(
        v.weight as nat,
    ) + " }"@
}

/// The validators as listed, separated by `", "`.
pub open spec fn entries_text(m: Mechanism, vs: Seq<Validator>) -> Seq<char>
    decreases vs.len(),
{
    if vs.len() == 0 {
        Seq::empty()
    } else if vs.len() == 1 {
        entry_text(m, vs[0])
    } else {
        entries_text(m, vs.drop_last()) + ", "@ + entry_text(m, vs.last())
    }
}

/// The full explanation of a selection, with the whole roster.
pub open spec fn explanation(m: Mechanism, vs: Seq<Validator>) -> Seq<char> {
    rationale(m) + "\nValidators: ["@ + entries_text(m, vs) + "]"@
}

/// The text of one decimal digit.
fn digit_text(d: u64) -> (r: &'static str)
    requires
        d < 10,
    ensures
        r@ == seq![hex_alphabet()[d as int]],
{
    proof {
        reveal_strlit("0");
        reveal_strlit("1");
        reveal_strlit("2");
        reveal_strlit("3");
        reveal_strlit("4");
        reveal_strlit("5");
        reveal_strlit("6");
        reveal_strlit("7");
        reveal_strlit("8");
        reveal_strlit("9");
    }
    match d {
        0 => "0",
        1 => "1",
        2 => "2",
        3 => "3",
        4 => "4",
        5 => "5",
        6 => "6",
        7 => "7",
        8 => "8",
        _ => "9",
    }
}

/// Appends the decimal text of `n`.
fn append_decimal(s: &mut String, n: u64)
    ensures
        final(s)@ == old(s)@ + decimal_text(n as nat),
    decreases n,
{
    if n >= 10 {
        append_decimal(s, n / 10);
    }
    s.append(digit_text(n % 10));
    assert(final(s)@ =~= old(s)@ + decimal_text(n as nat));
}

/// The id of the validator at position `k` of a roster.
fn make_id(m: Mechanism, k: u64) -> (r: String)
    requires
        k < ROSTER_SIZE,
    ensures
        r@ == validator_id(m, k as nat),
{
    let stem = match m {
        Mechanism::ProofOfWork => "Miner",
        Mechanism::ProofOfStake => "Staker",
        Mechanism::DelegatedProofOfStake => "Delegate",
    };
    let mut id = stem.to_owned();
    append_decimal(&mut id, k + 1);
    id
}

/// The range `[low, high)` that `Consensus::new` draws weights from.
pub fn weight_range(m: Mechanism) -> (r: (u64, u64))
    ensures
        r.0 == weight_low(m),
        r.1 == weight_high(m),
{
    match m {
        Mechanism::ProofOfWork => (1, 100),
        Mechanism::ProofOfStake => (100, 1000),
        Mechanism::DelegatedProofOfStake => (1, 10),
    }
}

impl Consensus {
    /// A roster of three validators with the given weights, in order.
    pub fn with_weights(mechanism: Mechanism, weights: [u64; 3]) -> (r: Consensus)
        ensures
            r.mechanism == mechanism,
            r.validators@.len() == ROSTER_SIZE,
            forall|k: int|
                0 <= k < ROSTER_SIZE ==> (#[trigger] r.validators@[k]).id@ == validator_id(
                    mechanism,
                    k as nat,
                ) && r.validators@[k].weight == weights@[k],
    {
        let mut validators: Vec<Validator> = Vec::new();
        let mut k: usize = 0;
        while k < ROSTER_SIZE
            invariant
                k <= ROSTER_SIZE,
                validators@.len() == k,
                forall|j: int|
                    0 <= j < k ==> (#[trigger] validators@[j]).id@ == validator_id(
                        mechanism,
                        j as nat,
                    ) && validators@[j].weight == weights@[j],
            decreases ROSTER_SIZE - k,
        {
            let id = make_id(mechanism, k as u64);
            validators.push(Validator { id, weight: weights[k] });
            k = k + 1;
        }
        Consensus { mechanism, validators }
    }

    /// A roster of three validators whose weights are drawn at random from
    /// the mechanism's range.
    pub fn new(mechanism: Mechanism) -> (r: Consensus)
        ensures
            r.mechanism == mechanism,
            r.validators@.len() == ROSTER_SIZE,
            forall|k: int|
                0 <= k < ROSTER_SIZE ==> (#[trigger] r.validators@[k]).id@ == validator_id(
                    mechanism,
                    k as nat,
                ) && weight_low(mechanism) <= r.validators@[k].weight < weight_high(mechanism),
    {
        let (low, high) = weight_range(mechanism);
        let first = draw_in_range(low, high);
        let second = draw_in_range(low, high);
        let third = draw_in_range(low, high);
        Consensus::with_weights(mechanism, [first, second, third])
    }

    /// The position of the validator with the greatest weight, the earliest
    /// one on a tie.
    pub fn selected_index(&self) -> (k: usize)
        requires
            self.validators@.len() > 0,
        ensures
            is_first_max(self.validators@, k as int),
    {
        let mut best: usize = 0;
        let mut i: usize = 1;
        while i < self.validators.len()
            invariant
                0 < i <= self.validators@.len(),
                best < i,
                forall|j: int| 0 <= j < i ==> #[trigger] self.validators@[j].weight
                    <= self.validators@[best as int].weight,
                forall|j: int| 0 <= j < best ==> #[trigger] self.validators@[j].weight
                    < self.validators@[best as int].weight,
            decreases self.validators@.len() - i,
        {
            if self.validators[i].weight > self.validators[best].weight {
                best = i;
            }
            i = i + 1;
        }
        best
    }

    /// The id of the validator with the greatest weight, the earliest one on a
    /// tie.
    pub fn select_validator(&self) -> (r: String)
        requires
            self.validators@.len() > 0,
        ensures
            exists|k: int| is_first_max(self.validators@, k) && r@ == self.validators@[k].id@,
    {
        let k = self.selected_index();
        self.validators[k].id.clone()
    }

    /// Why the selection falls as it does, followed by the whole roster.
    pub fn explain_selection(&self) -> (r: String)
        ensures
            r@ == explanation(self.mechanism, self.validators@),
    {
        let m = self.mechanism;
        let (opening, record, weight) = match m {
            Mechanism::ProofOfWork => (
                "PoW: Selected validator with highest computational power.",
                "PowValidator",
                "power",
            ),
            Mechanism::ProofOfStake => (
                "PoS: Selected validator with highest stake.",
                "PosValidator",
                "stake",
            ),
            Mechanism::DelegatedProofOfStake => (
                "DPoS: Selected delegate with most votes.",
                "DposValidator",
                "votes",
            ),
        };
        let mut text = opening.to_owned();
        text.append("\nValidators: [");
        let ghost prefix = text@;
        let mut i: usize = 0;
        while i < self.validators.len()
            invariant
                i <= self.validators@.len(),
                record@ == record_name(m),
                weight@ == weight_name(m),
                text@ == prefix + entries_text(m, self.validators@.take(i as int)),
            decreases self.validators@.len() - i,
        {
            let ghost before = text@;
            if i > 0 {
                text.append(", ");
            }
            let v = &self.validators[i];
            text.append(record);
            text.append(" { id: \"");
            text.append(v.id.as_str());
            text.append("\", ");
            text.append(weight);
            text.append(": ");
            append_decimal(&mut text, v.weight);
            text.append(" }");
            let ghost vs = self.validators@.take(i + 1);
            assert(vs.drop_last() =~= self.validators@.take(i as int));
            assert(vs.last() == self.validators@[i as int]);
            if i == 0 {
                assert(self.validators@.take(0) =~= Seq::<Validator>::empty());
                assert(text@ =~= prefix + entries_text(m, vs));
            } else {
                assert(text@ =~= prefix + entries_text(m, vs));
            }
            i = i + 1;
        }
        assert(self.validators@.take(i as int) =~= self.validators@);
        text.append("]");
        text
    }
}

/// Selection is a function of the roster: any two results of
/// `select_validator` on the same roster name the same validator.
pub proof fn lemma_selection_deterministic(vs: Seq<Validator>, first: Seq<char>, second: Seq<char>)
    requires
        exists|k: int| is_first_max(vs, k) && first == vs[k].id@,
        exists|k: int| is_first_max(vs, k) && second == vs[k].id@,
    ensures
        first == second,
{
    let a = choose|k: int| is_first_max(vs, k) && first == vs[k].id@;
    let b = choose|k: int| is_first_max(vs, k) && second == vs[k].id@;
    lemma_first_max_unique(vs, a, b);
}

/// At most one position is the earliest of greatest weight.
pub proof fn lemma_first_max_unique(vs: Seq<Validator>, a: int, b: int)
    requires
        is_first_max(vs, a),
        is_first_max(vs, b),
    ensures
        a == b,
{
    if a < b {
        assert(vs[a].weight < vs[b].weight);
        assert(vs[b].weight <= vs[a].weight);
    } else if b < a {
        assert(vs[b].weight < vs[a].weight);
        assert(vs[a].weight <= vs[b].weight);
    }
}

} // verus!
