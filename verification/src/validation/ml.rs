//! Authenticity checks: every artefact that a block registers must pass the
//! verdict of a verifier outside the chain.

use crate::consensus::error::{ValidationError, ValidationErrorView};
use crate::consensus::validator::{BlockValidator, Outcome};
use crate::text;
use crate::text::{debug_text, decimal_text};
use crate::types::block;
use crate::types::block::{Block, BlockView};
use crate::types::tx::TransactionView;
use crate::types::{Aid, EvidenceHash, EvidenceRef, EvidenceRefView};
use vstd::prelude::*;
use vstd::string::StringExecFns;

verus! {

/// The verdict of a verifier on one artefact. Only `ok` decides; the other
/// fields are measurements for observers, each the IEEE-754 bit pattern of
/// a 32-bit float, or milliseconds.
#[derive(Clone, Copy, Debug)]
pub struct MlVerdict {
    /// Whether the artefact is authentic.
    pub ok: bool,
    /// Trigger accuracy.
    pub trigger_acc: Option<u32>,
    /// Feature distance.
    pub feat_dist: Option<u32>,
    /// Logit statistic.
    pub logit_stat: Option<u32>,
    /// Time the verifier took, in milliseconds.
    pub latency_ms: Option<u64>,
}

/// What an [`MlError`] holds, as plain values.
pub ghost enum MlErrorView {
    Transport(Seq<char>),
    Protocol(Seq<char>),
    Service(Seq<char>),
}

/// Why a verifier gave no verdict.
#[derive(Debug)]
pub enum MlError {
    /// The verifier could not be reached, or did not answer in time.
    Transport(String),
    /// The verifier's answer could not be understood.
    Protocol(String),
    /// The verifier refused the request.
    Service(String),
}

impl View for MlError {
    type V = MlErrorView;

    open spec fn view(&self) -> MlErrorView {
        match *self {
            MlError::Transport(m) => MlErrorView::Transport(m@),
            MlError::Protocol(m) => MlErrorView::Protocol(m@),
            MlError::Service(m) => MlErrorView::Service(m@),
        }
    }
}

/// A verifier of artefacts. What it answers is its own affair: no answer is
/// owed, and no answer lets a block through but a verdict that is `ok`.
pub trait MlVerifier: Send + Sync {
    /// Whether `answer` is one that the verifier may give on `aid` under
    /// `evidence`.
    spec fn may_answer(&self, aid: Aid, evidence: EvidenceRefView, answer: AnswerView) -> bool;

    /// Asks for the verdict on `aid` under `evidence`.
    fn verify(&self, aid: &Aid, evidence: &EvidenceRef) -> (r: Result<MlVerdict, MlError>)
        ensures
            self.may_answer(*aid, evidence@, answer_of(r)),
    ;
}

/// The limit of the authenticity checks.
#[derive(Clone, Copy, Debug)]
pub struct MlConfig {
    /// Most distinct artefacts a block may have verified.
    pub max_artefacts_per_block: usize,
}

impl Default for MlConfig {
    fn default() -> (cfg: MlConfig)
        ensures
            cfg.max_artefacts_per_block == 1024,
    {
        MlConfig { max_artefacts_per_block: 1024 }
    }
}

/// What a verifier answered, as plain values.
pub type AnswerView = Result<MlVerdict, MlErrorView>;

/// What an answer holds, as plain values.
pub open spec fn answer_of(a: Result<MlVerdict, MlError>) -> AnswerView {
    match a {
        Ok(v) => Ok(v),
        Err(e) => Err(e@),
    }
}

/// The message for a verdict that is not `ok`.
pub open spec fn auth_failed_text() -> Seq<char> {
    "ML authenticity check failed for artefact"@
}

/// The message where the verifier answered with an error: the kind of the
/// error and, in brackets, its message in `Debug` form, behind
/// `ML verifier error: `.
pub open spec fn verifier_error_text(e: MlErrorView) -> Seq<char> {
    "ML verifier error: "@ + match e {
        MlErrorView::Transport(m) => "Transport("@ + text::debug_quoted(m) + ")"@,
        MlErrorView::Protocol(m) => "Protocol("@ + text::debug_quoted(m) + ")"@,
        MlErrorView::Service(m) => "Service("@ + text::debug_quoted(m) + ")"@,
    }
}

/// The message for a block with `count` distinct artefacts where `max` are
/// allowed.
pub open spec fn cap_text(count: nat, max: nat) -> Seq<char> {
    "block references "@ + text::decimal(count)
        + " distinct ML artefacts, exceeds max_artefacts_per_block="@ + text::decimal(max)
}

/// What one answer means for the block: only a verdict that is `ok` lets it
/// through.
pub open spec fn judge(a: AnswerView) -> Outcome {
    match a {
        Ok(v) => if v.ok {
            Ok(())
        } else {
            Err(ValidationErrorView::Custom(auth_failed_text()))
        },
        Err(e) => Err(ValidationErrorView::Custom(verifier_error_text(e))),
    }
}

/// Says what an answer of the verifier means for the block.
pub fn judge_answer(answer: Result<MlVerdict, MlError>) -> (r: Result<(), ValidationError>)
    ensures
        crate::consensus::validator::outcome_of(r) == judge(answer_of(answer)),
{
    match answer {
        Ok(v) => {
            if v.ok {
                Ok(())
            } else {
                Err(
                    ValidationError::Custom(
                        String::from_str("ML authenticity check failed for artefact"),
                    ),
                )
            }
        },
        Err(e) => {
            let shown = match &e {
                MlError::Transport(m) => String::from_str("Transport(").concat(
                    debug_text(m.as_str()).as_str(),
                ).concat(")"),
                MlError::Protocol(m) => String::from_str("Protocol(").concat(
                    debug_text(m.as_str()).as_str(),
                ).concat(")"),
                MlError::Service(m) => String::from_str("Service(").concat(
                    debug_text(m.as_str()).as_str(),
                ).concat(")"),
            };
            let msg = String::from_str("ML verifier error: ").concat(shown.as_str());
            Err(ValidationError::Custom(msg))
        },
    }
}

/// Whether a block was refused because a verdict was negative.
pub fn is_auth_failure(e: &ValidationError) -> (r: bool)
    ensures
        r == (e@ == ValidationErrorView::Custom(auth_failed_text())),
{
    match e {
        ValidationError::Custom(m) => {
            let want = String::from_str("ML authenticity check failed for artefact");
            *m == want
        },
        ValidationError::Invalid(_) => false,
    }
}

/// What identifies a thing to verify: the artefact and the hash of its
/// evidence.
pub open spec fn key_of(p: (Aid, EvidenceRefView)) -> (Aid, EvidenceHash) {
    (p.0, p.1.evidence_hash)
}

/// Some pair of the list has the key `k`.
pub open spec fn has_key(pairs: Seq<(Aid, EvidenceRefView)>, k: (Aid, EvidenceHash)) -> bool {
    exists|i: int| 0 <= i < pairs.len() && key_of(#[trigger] pairs[i]) == k
}

/// The pairs without those whose key stood earlier in the list.
pub open spec fn unique_pairs(pairs: Seq<(Aid, EvidenceRefView)>) -> Seq<(Aid, EvidenceRefView)>
    decreases pairs.len(),
{
    if pairs.len() == 0 {
        Seq::empty()
    } else {
        let init = unique_pairs(pairs.drop_last());
        if has_key(init, key_of(pairs.last())) {
            init
        } else {
            init.push(pairs.last())
        }
    }
}

/// What is put to the verifier for a block: its registrations in block
/// order, each key once.
pub open spec fn plan_of(txs: Seq<TransactionView>) -> Seq<(Aid, EvidenceRefView)> {
    unique_pairs(block::ml_pairs_of(txs))
}

/// The answers explain the outcome of a plan of `plan_len` questions: they
/// answer its first questions in order; either all questions were answered
/// and every verdict was `ok`, or the last answer is the first that was not
/// and the outcome is its failure.
pub open spec fn explains(plan_len: nat, answers: Seq<AnswerView>, outcome: Outcome) -> bool {
    &&& answers.len() <= plan_len
    &&& forall|j: int| 0 <= j < answers.len() - 1 ==> judge(#[trigger] answers[j]) is Ok
    &&& if answers.len() > 0 && judge(answers.last()) is Err {
        outcome == judge(answers.last())
    } else {
        answers.len() == plan_len && outcome is Ok
    }
}

/// What the authenticity checks may say of a block under the limit `cap`,
/// whichever verifier is asked: past the limit the failure of the limit and
/// nothing else; else what some answers explain.
pub open spec fn ml_allows(cap: usize, b: BlockView, outcome: Outcome) -> bool {
    let plan = plan_of(b.txs);
    if plan.len() > cap {
        outcome == Err::<(), ValidationErrorView>(
            ValidationErrorView::Custom(cap_text(plan.len(), cap as nat)),
        )
    } else {
        exists|answers: Seq<AnswerView>| explains(plan.len(), answers, outcome)
    }
}

/// Each answer is one that the verifier may give to the question of the
/// plan at its place.
pub open spec fn answered_by<V: MlVerifier>(
    verifier: V,
    plan: Seq<(Aid, EvidenceRefView)>,
    answers: Seq<AnswerView>,
) -> bool {
    forall|j: int|
        0 <= j < answers.len() && j < plan.len() ==> verifier.may_answer(
            plan[j].0,
            plan[j].1,
            #[trigger] answers[j],
        )
}

/// What the authenticity checks over `verifier` may say of a block under
/// the limit `cap`: past the limit the failure of the limit and nothing
/// else; else what answers explain that the verifier may give to the
/// questions of the plan, in order.
pub open spec fn ml_allows_over<V: MlVerifier>(
    verifier: V,
    cap: usize,
    b: BlockView,
    outcome: Outcome,
) -> bool {
    let plan = plan_of(b.txs);
    if plan.len() > cap {
        outcome == Err::<(), ValidationErrorView>(
            ValidationErrorView::Custom(cap_text(plan.len(), cap as nat)),
        )
    } else {
        exists|answers: Seq<AnswerView>|
            explains(plan.len(), answers, outcome) && answered_by(verifier, plan, answers)
    }
}

/// The authenticity validator over a verifier `V`.
pub struct MlValidity<V> {
    cfg: MlConfig,
    verifier: V,
}

fn same_key(a: &(Aid, EvidenceRef), b: &(Aid, EvidenceRef)) -> (r: bool)
    ensures
        r == (key_of((a.0, a.1@)) == key_of((b.0, b.1@))),
{
    a.0 == b.0 && a.1.evidence_hash == b.1.evidence_hash
}

/// Drops every pair whose key stood earlier in the list.
#[verifier::loop_isolation(false)]
pub fn dedup_pairs(pairs: &Vec<(Aid, EvidenceRef)>) -> (out: Vec<(Aid, EvidenceRef)>)
    ensures
        block::pair_views(out@) == unique_pairs(block::pair_views(pairs@)),
{
    let mut out: Vec<(Aid, EvidenceRef)> = Vec::new();
    let ghost all = block::pair_views(pairs@);
    let mut i: usize = 0;
    while i < pairs.len()
        invariant
            i <= pairs.len(),
            block::pair_views(out@) == unique_pairs(all.take(i as int)),
        decreases pairs.len() - i,
    {
        proof {
            let next = all.take(i + 1);
            assert(next.drop_last() =~= all.take(i as int));
            assert(next.last() == all[i as int]);
        }
        let mut found = false;
        let mut k: usize = 0;
        while k < out.len()
            invariant
                k <= out.len(),
                found == exists|m: int|
                    0 <= m < k && key_of(#[trigger] block::pair_views(out@)[m]) == key_of(
                        all[i as int],
                    ),
            decreases out.len() - k,
        {
            if same_key(&out[k], &pairs[i]) {
                assert(key_of(block::pair_views(out@)[k as int]) == key_of(all[i as int]));
                found = true;
            }
            k += 1;
        }
        if !found {
            let p = (pairs[i].0, pairs[i].1.clone());
            proof {
                block::lemma_pair_views_push(out@, p);
            }
            out.push(p);
        }
        i += 1;
    }
    proof {
        assert(all.take(i as int) =~= all);
    }
    out
}

impl<V> MlValidity<V> {
    /// The most distinct artefacts a block may have verified.
    pub closed spec fn cap(&self) -> usize {
        self.cfg.max_artefacts_per_block
    }

    /// The verifier that is asked.
    pub closed spec fn verifier_of(&self) -> V {
        self.verifier
    }

    /// A validator that asks `verifier`, under the limit of `cfg`.
    pub fn new(verifier: V, cfg: MlConfig) -> (v: MlValidity<V>)
        ensures
            v.cap() == cfg.max_artefacts_per_block,
            v.verifier_of() == verifier,
    {
        MlValidity { cfg, verifier }
    }

    /// What is to be put to the verifier for `block`, in order; or the
    /// failure of the limit, where the block has more distinct artefacts
    /// than allowed. Nothing is asked of the verifier here.
    pub fn plan(&self, block: &Block) -> (r: Result<Vec<(Aid, EvidenceRef)>, ValidationError>)
        ensures
            match r {
                Ok(plan) => block::pair_views(plan@) == plan_of(block@.txs) && plan@.len()
                    <= self.cap(),
                Err(e) => plan_of(block@.txs).len() > self.cap() && e@
                    == ValidationErrorView::Custom(
                    cap_text(plan_of(block@.txs).len(), self.cap() as nat),
                ),
            },
    {
        let pairs = block.ml_pairs();
        let unique = dedup_pairs(&pairs);
        assert(block::pair_views(unique@).len() == unique@.len());
        if unique.len() > self.cfg.max_artefacts_per_block {
            let msg = String::from_str("block references ").concat(
                decimal_text(unique.len()).as_str(),
            ).concat(" distinct ML artefacts, exceeds max_artefacts_per_block=").concat(
                decimal_text(self.cfg.max_artefacts_per_block).as_str(),
            );
            return Err(ValidationError::Custom(msg));
        }
        Ok(unique)
    }
}

impl<V: MlVerifier> BlockValidator for MlValidity<V> {
    open spec fn allows(&self, block: BlockView, outcome: Outcome) -> bool {
        ml_allows_over(self.verifier_of(), self.cap(), block, outcome)
    }

    fn validate(&self, block: &Block) -> (r: Result<(), ValidationError>) {
        let plan = match self.plan(block) {
            Err(e) => {
                return Err(e);
            },
            Ok(plan) => plan,
        };
        let ghost want = plan_of(block@.txs);
        assert(want.len() == plan@.len());
        let ghost mut answers: Seq<AnswerView> = Seq::empty();
        let mut i: usize = 0;
        while i < plan.len()
            invariant
                i <= plan.len(),
                want.len() == plan@.len(),
                want == plan_of(block@.txs),
                want.len() <= self.cap(),
                want == block::pair_views(plan@),
                answers.len() == i,
                forall|j: int| 0 <= j < i ==> judge(#[trigger] answers[j]) is Ok,
                answered_by(self.verifier_of(), want, answers),
            decreases plan.len() - i,
        {
            let answer = self.verifier.verify(&plan[i].0, &plan[i].1);
            proof {
                let ghost before = answers;
                assert(want[i as int] == (plan@[i as int].0, plan@[i as int].1@));
                answers = answers.push(answer_of(answer));
                assert forall|j: int| 0 <= j < answers.len() && j < want.len() implies
                    self.verifier_of().may_answer(want[j].0, want[j].1, #[trigger] answers[j]) by {
                    if j < i {
                        assert(answers[j] == before[j]);
                    }
                }
            }
            match judge_answer(answer) {
                Err(e) => {
                    proof {
                        assert(explains(want.len(), answers, Err(e@)));
                    }
                    return Err(e);
                },
                Ok(_) => {},
            }
            i += 1;
        }
        proof {
            assert(explains(want.len(), answers, Ok(())));
        }
        Ok(())
    }
}

/// With the verifier's answers fixed, the outcome of the authenticity
/// checks is fixed.
pub proof fn lemma_answers_fix_outcome(
    plan_len: nat,
    answers: Seq<AnswerView>,
    first: Outcome,
    second: Outcome,
)
    requires
        explains(plan_len, answers, first),
        explains(plan_len, answers, second),
    ensures
        first == second,
{
    if first is Ok && second is Ok {
        assert(first->Ok_0 == second->Ok_0);
    }
}

/// With the block and the verifier's answers fixed, structural checks
/// followed by authenticity checks give one outcome, however often they
/// run: the structural failure, else the failure of the limit, else what
/// the answers explain.
pub proof fn lemma_validators_deterministic(
    max_txs: usize,
    max_bytes: usize,
    cap: usize,
    b: BlockView,
    answers: Seq<AnswerView>,
    first: Outcome,
    second: Outcome,
)
    requires
        composed_with(max_txs, max_bytes, cap, b, answers, first),
        composed_with(max_txs, max_bytes, cap, b, answers, second),
    ensures
        first == second,
{
    if first is Ok && second is Ok {
        assert(first->Ok_0 == second->Ok_0);
    }
}

/// `outcome` is what structural checks followed by authenticity checks give
/// for `b` when the verifier answers `answers`.
pub open spec fn composed_with(
    max_txs: usize,
    max_bytes: usize,
    cap: usize,
    b: BlockView,
    answers: Seq<AnswerView>,
    outcome: Outcome,
) -> bool {
    let base = crate::validation::base::base_outcome(max_txs, max_bytes, b);
    if base is Err {
        outcome == base
    } else if plan_of(b.txs).len() > cap {
        outcome == Err::<(), ValidationErrorView>(
            ValidationErrorView::Custom(cap_text(plan_of(b.txs).len(), cap as nat)),
        )
    } else {
        explains(plan_of(b.txs).len(), answers, outcome)
    }
}

/// The verifier gives at most one answer to each question.
pub open spec fn single_valued<V: MlVerifier>(verifier: V) -> bool {
    forall|aid: Aid, evidence: EvidenceRefView, first: AnswerView, second: AnswerView|
        #[trigger] verifier.may_answer(aid, evidence, first) && #[trigger] verifier.may_answer(
            aid,
            evidence,
            second,
        ) ==> first == second
}

/// What the authenticity checks over a verifier may say is also what they
/// may say whichever verifier is asked.
pub proof fn lemma_over_verifier_is_allowed<V: MlVerifier>(
    verifier: V,
    cap: usize,
    b: BlockView,
    outcome: Outcome,
)
    requires
        ml_allows_over(verifier, cap, b, outcome),
    ensures
        ml_allows(cap, b, outcome),
{
    let plan = plan_of(b.txs);
    if plan.len() <= cap {
        let answers = choose|answers: Seq<AnswerView>|
            explains(plan.len(), answers, outcome) && answered_by(verifier, plan, answers);
        assert(explains(plan.len(), answers, outcome));
    }
}

/// Over a verifier whose answer to each question is fixed, the
/// authenticity checks give one outcome for a block, however often they
/// run.
pub proof fn lemma_fixed_verifier_fixes_outcome<V: MlVerifier>(
    verifier: V,
    cap: usize,
    b: BlockView,
    first: Outcome,
    second: Outcome,
)
    requires
        single_valued(verifier),
        ml_allows_over(verifier, cap, b, first),
        ml_allows_over(verifier, cap, b, second),
    ensures
        first == second,
{
    let plan = plan_of(b.txs);
    if plan.len() <= cap {
        let a1 = choose|answers: Seq<AnswerView>|
            explains(plan.len(), answers, first) && answered_by(verifier, plan, answers);
        let a2 = choose|answers: Seq<AnswerView>|
            explains(plan.len(), answers, second) && answered_by(verifier, plan, answers);
        assert forall|j: int| 0 <= j < a1.len() && j < a2.len() implies a1[j] == a2[j] by {
            assert(verifier.may_answer(plan[j].0, plan[j].1, a1[j]));
            assert(verifier.may_answer(plan[j].0, plan[j].1, a2[j]));
        }
        if a1.len() > 0 && judge(a1.last()) is Err {
            let k = a1.len() - 1;
            if a2.len() > k {
                assert(a2[k] == a1[k]);
                if a2.len() - 1 > k {
                    assert(judge(a2[k]) is Ok);
                }
            } else {
                if a2.len() > 0 {
                    let m = a2.len() - 1;
                    assert(a1[m] == a2[m]);
                    if m < k {
                        assert(judge(a1[m]) is Ok);
                    }
                }
            }
        } else {
            if a2.len() > 0 {
                let m = a2.len() - 1;
                assert(a1[m] == a2[m]);
                if a1.len() - 1 > m {
                    assert(judge(a1[m]) is Ok);
                }
            }
        }
        if first is Ok && second is Ok {
            assert(first->Ok_0 == second->Ok_0);
        }
    }
}

/// Structural checks followed by authenticity checks over a verifier whose
/// answer to each question is fixed give one result for a block, however
/// often they run.
pub proof fn lemma_composed_deterministic<V: MlVerifier>(
    v: crate::consensus::validator::CombinedValidator<
        crate::validation::base::BaseValidity,
        MlValidity<V>,
    >,
    b: BlockView,
    first: Outcome,
    second: Outcome,
)
    requires
        single_valued(v.ml.verifier_of()),
        v.allows(b, first),
        v.allows(b, second),
    ensures
        first == second,
{
    if v.base.allows(b, Ok(())) {
        lemma_fixed_verifier_fixes_outcome(v.ml.verifier_of(), v.ml.cap(), b, first, second);
    }
    if first is Ok && second is Ok {
        assert(first->Ok_0 == second->Ok_0);
    }
}

/// A verifier that never says `ok` lets no block through that registers an
/// artefact, within the limit.
pub proof fn lemma_no_ok_no_pass<V: MlVerifier>(verifier: V, cap: usize, b: BlockView, outcome: Outcome)
    requires
        forall|aid: Aid, evidence: EvidenceRefView, answer: AnswerView|
            #[trigger] verifier.may_answer(aid, evidence, answer) ==> judge(answer) is Err,
        0 < plan_of(b.txs).len() <= cap,
        ml_allows_over(verifier, cap, b, outcome),
    ensures
        outcome is Err,
{
    let plan = plan_of(b.txs);
    let answers = choose|answers: Seq<AnswerView>|
        explains(plan.len(), answers, outcome) && answered_by(verifier, plan, answers);
    if answers.len() > 0 {
        let k = answers.len() - 1;
        assert(verifier.may_answer(plan[k].0, plan[k].1, answers[k]));
    }
}

/// The keys of a list are pairwise different.
pub open spec fn keys_distinct(pairs: Seq<(Aid, EvidenceRefView)>) -> bool {
    forall|i: int, j: int|
        0 <= i < j < pairs.len() ==> key_of(#[trigger] pairs[i]) != key_of(#[trigger] pairs[j])
}

/// Removing repeated keys leaves no more pairs than there were, each key
/// once.
pub proof fn lemma_unique_pairs(pairs: Seq<(Aid, EvidenceRefView)>)
    ensures
        unique_pairs(pairs).len() <= pairs.len(),
        keys_distinct(unique_pairs(pairs)),
    decreases pairs.len(),
{
    if pairs.len() > 0 {
        lemma_unique_pairs(pairs.drop_last());
        let init = unique_pairs(pairs.drop_last());
        let out = unique_pairs(pairs);
        if !has_key(init, key_of(pairs.last())) {
            assert forall|i: int, j: int| 0 <= i < j < out.len() implies key_of(#[trigger] out[i])
                != key_of(#[trigger] out[j]) by {
                if j == init.len() {
                    assert(out[i] == init[i]);
                    if key_of(init[i]) == key_of(pairs.last()) {
                        assert(has_key(init, key_of(pairs.last())));
                    }
                } else {
                    assert(out[i] == init[i] && out[j] == init[j]);
                }
            }
        }
    }
}

/// A block puts no more registrations than it has transactions.
pub proof fn lemma_ml_pairs_len(txs: Seq<TransactionView>)
    ensures
        block::ml_pairs_of(txs).len() <= txs.len(),
    decreases txs.len(),
{
    if txs.len() > 0 {
        lemma_ml_pairs_len(txs.drop_last());
    }
}

/// For a block with `k` registrations the verifier is asked at most `k`
/// times, and at most once for each pair of artefact and evidence hash:
/// the plan has at most `k` questions, no key twice, and the answers that
/// explain an outcome are no more than the questions.
pub proof fn lemma_dedup_bounds_calls(
    b: BlockView,
    answers: Seq<AnswerView>,
    outcome: Outcome,
)
    requires
        explains(plan_of(b.txs).len(), answers, outcome),
    ensures
        answers.len() <= plan_of(b.txs).len(),
        plan_of(b.txs).len() <= block::ml_pairs_of(b.txs).len(),
        block::ml_pairs_of(b.txs).len() <= b.txs.len(),
        keys_distinct(plan_of(b.txs)),
{
    lemma_unique_pairs(block::ml_pairs_of(b.txs));
    lemma_ml_pairs_len(b.txs);
}

/// A block with exactly as many distinct artefacts as allowed passes when
/// every verdict is `ok`; a block with one more fails with the message of
/// the limit, whatever the verifier would say.
pub proof fn lemma_cap_boundary(
    cap: usize,
    full: BlockView,
    answers: Seq<AnswerView>,
    over: BlockView,
    outcome_full: Outcome,
    outcome_over: Outcome,
)
    requires
        plan_of(full.txs).len() == cap,
        answers.len() == cap,
        forall|j: int| 0 <= j < answers.len() ==> judge(#[trigger] answers[j]) is Ok,
        explains(cap as nat, answers, outcome_full),
        plan_of(over.txs).len() == cap + 1,
        ml_allows(cap, over, outcome_over),
    ensures
        outcome_full is Ok,
        ml_allows(cap, full, outcome_full),
        outcome_over == Err::<(), ValidationErrorView>(
            ValidationErrorView::Custom(cap_text(cap as nat + 1, cap as nat)),
        ),
{
    if answers.len() > 0 {
        assert(judge(answers.last()) is Ok);
    }
}

} // verus!
